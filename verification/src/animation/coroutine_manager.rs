//! The scheduler: the live animation events, and what a tick does to them.
//!
//! A task is one live event. Starting an event cancels the task on the
//! same property of the same track, brings the property to the state that
//! the event has at the current song time, and keeps a task where the
//! event is not over. A tick takes every task through one step, in the
//! order in which the tasks were started, and keeps those that are not
//! over.
use crate::animation::events::{EventData, EventType};
use crate::animation::property::{PathProperty, ValueProperty};
use crate::animation::track::Track;
use crate::animation::tracks_holder::{TrackKey, TracksHolder};
use crate::base_provider_context::BaseProviderContext;
use crate::easings::functions::Functions;
use crate::ieee::{
    at_most_one, equal, is_equal, is_less, less_than, min_one, Scalar, ONE, SIXTY, ZERO,
};
use crate::numerics::{
    is_difference, is_eased, is_from_count, is_product, is_quotient, is_sum, Numerics,
};
use crate::point_definition::base_point_definition::BasePointDefinition;
use crate::values::value::{same_value, BaseValue};
use std::rc::Rc;
use vstd::prelude::*;

verus! {

/// The live animation events, in the order in which they were started.
pub struct CoroutineManager {
    pub coroutines: Vec<CoroutineTask>,
}

/// Represents a single coroutine task for an event.
#[derive(Debug)]
pub struct CoroutineTask {
    pub event_type: EventType,
    /// How many runs are left after the current one.
    pub repeat: u32,
    /// The duration of one run, in song time.
    pub duration_song_time: Scalar,
    pub easing: Functions,
    /// The song time at which the current run started.
    pub start_song_time: Scalar,
    pub track_key: TrackKey,
    pub point_definition: Option<Rc<BasePointDefinition>>,
}

/// What a step of a task says of the task: `Yield` keeps it, `Break` ends
/// it.
#[derive(PartialEq, Eq, Structural, Clone, Copy, Debug)]
pub enum CoroutineResult {
    Yield,
    Break,
}

impl Default for CoroutineManager {
    fn default() -> (r: CoroutineManager)
        ensures
            r.coroutines@.len() == 0,
    {
        CoroutineManager { coroutines: Vec::with_capacity(1000) }
    }
}

impl CoroutineTask {
    /// Whether the task is the one on the property `property` of the
    /// track `track_key`.
    pub open spec fn is_on(self, track_key: TrackKey, property: EventType) -> bool {
        self.track_key == track_key && self.event_type.same_as(property)
    }

    /// The curve of the task, where it has one, can be evaluated and has a
    /// keyframe, and the duration of a run is not zero.
    pub open spec fn wf(self) -> bool {
        &&& self.point_definition matches Some(points) ==> points.wf() && points.points().len() >= 1
        &&& !is_equal(self.duration_song_time, ZERO)
    }
}

/// The numbers computed on the way from a song time to the eased share of
/// a run that has passed.
pub struct Progress {
    /// The song time passed since the start of the run.
    pub elapsed: Scalar,
    /// The time passed over the duration of the run.
    pub ratio: Scalar,
    /// The eased share: the curve of the event at the ratio, limited to
    /// one.
    pub eased: Scalar,
}

/// `p` holds numbers that `n` gives for the progress, at `song_time`, of a
/// run that started at `start` and lasts `duration`.
pub open spec fn is_progress<N: Numerics>(
    n: &N,
    song_time: Scalar,
    start: Scalar,
    duration: Scalar,
    easing: Functions,
    p: Progress,
) -> bool {
    &&& is_difference(n, song_time, start, p.elapsed)
    &&& is_quotient(n, p.elapsed, duration, p.ratio)
    &&& is_eased(n, easing, at_most_one(p.ratio), p.eased)
}

/// The progress, at `song_time`, of a run that started at `start` and
/// lasts `duration`.
pub fn progress<N: Numerics>(
    n: &N,
    song_time: Scalar,
    start: Scalar,
    duration: Scalar,
    easing: Functions,
) -> (p: Progress)
    ensures
        is_progress(n, song_time, start, duration, easing, p),
{
    let elapsed = n.difference(song_time, start);
    let ratio = n.quotient(elapsed, duration);
    let eased = n.ease(easing, min_one(ratio));
    Progress { elapsed, ratio, eased }
}

/// `after` is the slot `before` once `value` has come to it: the slot as
/// it was where it held a value equal to `value`, and else the slot with
/// `value` in it.
pub open spec fn writes(before: ValueProperty, value: BaseValue, after: ValueProperty) -> bool {
    if before.value matches Some(held) && same_value(value, held) {
        after == before
    } else {
        after.value == Some(value) && after.ty == before.ty
    }
}

/// What a step of a value animation says of its task: the task goes on
/// while its run has time left, unless the curve is at its last keyframe
/// and reads no channel of the host (`non_lazy` says whether it reads
/// one).
pub open spec fn verdict(
    elapsed: Scalar,
    duration: Scalar,
    non_lazy: bool,
    on_last: bool,
) -> CoroutineResult {
    if is_less(elapsed, duration) && !(!non_lazy && on_last) {
        CoroutineResult::Yield
    } else {
        CoroutineResult::Break
    }
}

/// A value animation whose curve is at its last keyframe and reads no
/// channel of the host ends at once, whatever time its run has left; one
/// whose curve reads a channel goes on exactly while its run has time
/// left.
pub proof fn lemma_lazy_completion(
    elapsed: Scalar,
    duration: Scalar,
    non_lazy: bool,
    on_last: bool,
)
    ensures
        !non_lazy && on_last ==> verdict(elapsed, duration, non_lazy, on_last)
            == CoroutineResult::Break,
        non_lazy ==> (verdict(elapsed, duration, non_lazy, on_last) == CoroutineResult::Yield
            <==> is_less(elapsed, duration)),
{
}

/// `value` is a value that `n` gives for the curve `points` at `time`,
/// `finished` tells whether the curve is at its last keyframe, and `after`
/// is the slot `before` once `value` has come to it.
pub open spec fn sets<N: Numerics>(
    n: &N,
    context: &BaseProviderContext,
    points: BasePointDefinition,
    time: Scalar,
    before: ValueProperty,
    after: ValueProperty,
    finished: bool,
) -> bool {
    exists|value: BaseValue|
        #![trigger points.gives(n, context, time, value, finished)]
        points.gives(n, context, time, value, finished) && writes(before, value, after)
}

/// Sets the value of a property to that of the curve `points` at `time`,
/// unless the property holds an equal value already. Returns whether the
/// curve is at its last keyframe.
pub fn set_property_value<N: Numerics>(
    points: &BasePointDefinition,
    property: &mut ValueProperty,
    time: Scalar,
    context: &BaseProviderContext,
    n: &N,
) -> (finished: bool)
    requires
        points.wf(),
        context.wf(),
        old(property).ty.admits(points.kind()),
    ensures
        sets(n, context, *points, time, *old(property), *final(property), finished),
{
    let (value, finished) = points.interpolate(time, context, n);
    assert(points.gives(n, context, time, value, finished));
    match property.get_value() {
        Some(held) => {
            if value.equals(&held) {
                return finished;
            }
        },
        None => {},
    }
    property.set_value(Some(value));
    finished
}

/// `after` and `result` are what `n` gives for a step, at `song_time`, of
/// a value animation along `points` on the slot `before`.
pub open spec fn animates<N: Numerics>(
    n: &N,
    context: &BaseProviderContext,
    points: BasePointDefinition,
    before: ValueProperty,
    duration: Scalar,
    start_time: Scalar,
    song_time: Scalar,
    easing: Functions,
    non_lazy: bool,
    after: ValueProperty,
    result: CoroutineResult,
) -> bool {
    exists|p: Progress, on_last: bool|
        #![trigger is_progress(n, song_time, start_time, duration, easing, p), sets(n, context, points, p.eased, before, after, on_last)]
        {
            &&& is_progress(n, song_time, start_time, duration, easing, p)
            &&& sets(n, context, points, p.eased, before, after, on_last)
            &&& result == verdict(p.elapsed, duration, non_lazy, on_last)
        }
}

/// One step of a value animation: brings the property to the value of the
/// curve at the eased share of the run that has passed, and says whether
/// the animation goes on.
#[allow(clippy::too_many_arguments)]
pub fn animate_track<N: Numerics>(
    points: &BasePointDefinition,
    property: &mut ValueProperty,
    duration: Scalar,
    start_time: Scalar,
    song_time: Scalar,
    easing: Functions,
    non_lazy: bool,
    context: &BaseProviderContext,
    n: &N,
) -> (result: CoroutineResult)
    requires
        points.wf(),
        context.wf(),
        old(property).ty.admits(points.kind()),
    ensures
        animates(
            n,
            context,
            *points,
            *old(property),
            duration,
            start_time,
            song_time,
            easing,
            non_lazy,
            *final(property),
            result,
        ),
{
    let p = progress(n, song_time, start_time, duration, easing);
    let on_last = set_property_value(points, property, p.eased, context, n);
    let skip = !non_lazy && on_last;
    assert(sets(n, context, *points, p.eased, *old(property), *property, on_last));
    if less_than(p.elapsed, duration) && !skip {
        return CoroutineResult::Yield;
    }
    CoroutineResult::Break
}

/// `after` and `result` are what `n` gives for a step, at `song_time`, of
/// a path animation on the path `before`: the blend of the path stands at
/// the eased share of the run that has passed, and once the run has no
/// time left the path drops the curve before the current one and the
/// animation ends.
pub open spec fn assigns<N: Numerics>(
    n: &N,
    before: PathProperty,
    duration: Scalar,
    start_time: Scalar,
    easing: Functions,
    song_time: Scalar,
    after: PathProperty,
    result: CoroutineResult,
) -> bool {
    exists|p: Progress|
        #![trigger is_progress(n, song_time, start_time, duration, easing, p)]
        {
            &&& is_progress(n, song_time, start_time, duration, easing, p)
            &&& after.time == p.eased
            &&& after.point == before.point
            &&& after.ty == before.ty
            &&& if is_less(p.elapsed, duration) {
                result == CoroutineResult::Yield && after.prev_point == before.prev_point
            } else {
                result == CoroutineResult::Break && after.prev_point is None
            }
        }
}

/// One step of a path animation.
pub fn assign_path_animation<N: Numerics>(
    interpolation: &mut PathProperty,
    duration: Scalar,
    start_time: Scalar,
    easing: Functions,
    song_time: Scalar,
    n: &N,
) -> (result: CoroutineResult)
    ensures
        assigns(
            n,
            *old(interpolation),
            duration,
            start_time,
            easing,
            song_time,
            *final(interpolation),
            result,
        ),
{
    let p = progress(n, song_time, start_time, duration, easing);
    interpolation.time = p.eased;
    if less_than(p.elapsed, duration) {
        return CoroutineResult::Yield;
    }
    interpolation.finish();
    CoroutineResult::Break
}

/// `after` is the track `track` with `slot` in the place of the value
/// property that `handle` names, and all else as it is.
pub open spec fn with_value_slot(
    track: Track,
    handle: crate::animation::track::ValuePropertyHandle,
    slot: ValueProperty,
    after: Track,
) -> bool {
    &&& track.properties.replaced(handle, slot, after.properties)
    &&& after == (Track { properties: after.properties, ..track })
}

/// `after` is the track `track` with `slot` in the place of the path
/// property that `handle` names, and all else as it is.
pub open spec fn with_path_slot(
    track: Track,
    handle: crate::animation::track::PathPropertyHandle,
    slot: PathProperty,
    after: Track,
) -> bool {
    &&& track.path_properties.replaced(handle, slot, after.path_properties)
    &&& after == (Track { path_properties: after.path_properties, ..track })
}

/// What the end of a run does to a task with runs left: where the step
/// `first` ended the run and the task has runs left, the task has one run
/// less, its next run starts where the last one ended, and the task goes
/// on; else the task is as it was and the step stands.
pub open spec fn reruns<N: Numerics>(
    n: &N,
    task: CoroutineTask,
    first: CoroutineResult,
    after: CoroutineTask,
    result: CoroutineResult,
) -> bool {
    if first == CoroutineResult::Break && task.repeat > 0 {
        &&& result == CoroutineResult::Yield
        &&& after.repeat == task.repeat - 1
        &&& is_sum(n, task.start_song_time, task.duration_song_time, after.start_song_time)
        &&& after == (CoroutineTask {
            repeat: after.repeat,
            start_song_time: after.start_song_time,
            ..task
        })
    } else {
        result == first && after == task
    }
}

/// A step that does nothing and ends the task.
pub open spec fn drops(
    task: CoroutineTask,
    tracks: Map<u64, Track>,
    task_after: CoroutineTask,
    tracks_after: Map<u64, Track>,
    result: CoroutineResult,
) -> bool {
    result == CoroutineResult::Break && task_after == task && tracks_after == tracks
}

/// `task_after`, `tracks_after` and `result` are what `n` gives for one
/// step of `task` at `song_time` over the tracks `tracks`.
/// - A task whose track is gone, whose property the track does not have,
///   or whose curve is missing or not of the kind of the property, ends
///   and changes nothing.
/// - A value animation takes its property through one step; where the run
///   ends and runs are left, the next run starts.
/// - A path animation takes its path through one step.
pub open spec fn ticks<N: Numerics>(
    n: &N,
    context: &BaseProviderContext,
    song_time: Scalar,
    task: CoroutineTask,
    tracks: Map<u64, Track>,
    task_after: CoroutineTask,
    tracks_after: Map<u64, Track>,
    result: CoroutineResult,
) -> bool {
    let key = task.track_key@;
    if !tracks.contains_key(key) {
        drops(task, tracks, task_after, tracks_after, result)
    } else {
        let track = tracks[key];
        match task.event_type {
            EventType::AnimateTrack(handle) => match (
                task.point_definition,
                track.properties.handled(handle),
            ) {
                (Some(points), Some(slot)) => if slot.ty.admits(points.kind()) {
                    exists|slot_after: ValueProperty, track_after: Track, first: CoroutineResult|
                        #![trigger with_value_slot(track, handle, slot_after, track_after), reruns(n, task, first, task_after, result)]
                        {
                            &&& animates(
                                n,
                                context,
                                *points,
                                slot,
                                task.duration_song_time,
                                task.start_song_time,
                                song_time,
                                task.easing,
                                points.live(),
                                slot_after,
                                first,
                            )
                            &&& with_value_slot(track, handle, slot_after, track_after)
                            &&& tracks_after == tracks.insert(key, track_after)
                            &&& reruns(n, task, first, task_after, result)
                        }
                } else {
                    drops(task, tracks, task_after, tracks_after, result)
                },
                _ => drops(task, tracks, task_after, tracks_after, result),
            },
            EventType::AssignPathAnimation(handle) => match track.path_properties.handled(handle) {
                Some(path) => exists|path_after: PathProperty, track_after: Track|
                    #![trigger with_path_slot(track, handle, path_after, track_after)]
                    {
                        &&& assigns(
                            n,
                            path,
                            task.duration_song_time,
                            task.start_song_time,
                            task.easing,
                            song_time,
                            path_after,
                            result,
                        )
                        &&& with_path_slot(track, handle, path_after, track_after)
                        &&& tracks_after == tracks.insert(key, track_after)
                        &&& task_after == task
                    },
                None => drops(task, tracks, task_after, tracks_after, result),
            },
        }
    }
}

impl CoroutineManager {
    /// One step of the task `event_data` at `song_time`.
    pub fn poll_event<N: Numerics>(
        song_time: Scalar,
        context: &BaseProviderContext,
        event_data: &mut CoroutineTask,
        tracks_holder: &mut TracksHolder,
        n: &N,
    ) -> (result: CoroutineResult)
        requires
            old(event_data).wf(),
            context.wf(),
        ensures
            ticks(
                n,
                context,
                song_time,
                *old(event_data),
                old(tracks_holder)@,
                *final(event_data),
                final(tracks_holder)@,
                result,
            ),
            final(event_data).wf(),
            final(event_data).track_key == old(event_data).track_key,
            final(event_data).event_type == old(event_data).event_type,
    {
        let duration = event_data.duration_song_time;
        let ghost tracks = tracks_holder@;
        let ghost key = event_data.track_key@;
        let ghost task = *event_data;
        match tracks_holder.get_track_mut(event_data.track_key) {
            None => CoroutineResult::Break,
            Some(track) => {
                let ghost before = *track;
                let result = match &event_data.event_type {
                    EventType::AnimateTrack(value_property_handle) => {
                        match &event_data.point_definition {
                            None => CoroutineResult::Break,
                            Some(point_def) => {
                                let has_base = point_def.has_base_provider();
                                let fits = match track.properties.get_by_handle(
                                    value_property_handle,
                                ) {
                                    Some(slot) => slot.ty.accepts(point_def.get_type()),
                                    None => false,
                                };
                                if !fits {
                                    CoroutineResult::Break
                                } else {
                                    match track.properties.get_by_handle_mut(
                                        value_property_handle,
                                    ) {
                                        None => CoroutineResult::Break,
                                        Some(value_property) => {
                                            let first = animate_track(
                                                point_def,
                                                value_property,
                                                duration,
                                                event_data.start_song_time,
                                                song_time,
                                                event_data.easing,
                                                has_base,
                                                context,
                                                n,
                                            );
                                            let ghost slot_after = *value_property;
                                            // when we repeat, we restart state
                                            let result = if first == CoroutineResult::Break
                                                && event_data.repeat > 0 {
                                                event_data.repeat = event_data.repeat - 1;
                                                event_data.start_song_time = n.sum(
                                                    event_data.start_song_time,
                                                    duration,
                                                );
                                                CoroutineResult::Yield
                                            } else {
                                                first
                                            };
                                            proof {
                                                assert(reruns(n, task, first, *event_data, result));
                                                assert(with_value_slot(
                                                    before,
                                                    *value_property_handle,
                                                    slot_after,
                                                    *track,
                                                ));
                                            }
                                            return result;
                                        },
                                    }
                                }
                            },
                        }
                    },
                    EventType::AssignPathAnimation(path_property_handle) => {
                        match track.path_properties.get_by_handle_mut(path_property_handle) {
                            None => CoroutineResult::Break,
                            Some(path_property) => {
                                let result = assign_path_animation(
                                    path_property,
                                    duration,
                                    event_data.start_song_time,
                                    event_data.easing,
                                    song_time,
                                    n,
                                );
                                let ghost path_after = *path_property;
                                proof {
                                    assert(with_path_slot(
                                        before,
                                        *path_property_handle,
                                        path_after,
                                        *track,
                                    ));
                                }
                                return result;
                            },
                        }
                    },
                };
                proof {
                    assert(*track == before);
                    assert(tracks.insert(key, before) =~= tracks);
                }
                result
            },
        }
    }
}

/// `kept` is `kept_before` with `task_after` at its end where the step
/// said `Yield`, and `kept_before` where it said `Break`.
pub open spec fn keeps(
    kept_before: Seq<CoroutineTask>,
    task_after: CoroutineTask,
    result: CoroutineResult,
    kept: Seq<CoroutineTask>,
) -> bool {
    kept == (if result == CoroutineResult::Yield {
        kept_before.push(task_after)
    } else {
        kept_before
    })
}

/// `kept` and `tracks_after` are what `n` gives when the first `count` of
/// `tasks` each take one step at `song_time`, one after the other in
/// their order, starting from the tracks `tracks`: `kept` holds, in their
/// order, the tasks whose step said `Yield`, as the step left them.
pub open spec fn polls<N: Numerics>(
    n: &N,
    context: &BaseProviderContext,
    song_time: Scalar,
    tasks: Seq<CoroutineTask>,
    tracks: Map<u64, Track>,
    count: nat,
    kept: Seq<CoroutineTask>,
    tracks_after: Map<u64, Track>,
) -> bool
    decreases count,
{
    if count == 0 || count > tasks.len() {
        kept =~= Seq::<CoroutineTask>::empty() && tracks_after == tracks
    } else {
        exists|
            kept_before: Seq<CoroutineTask>,
            tracks_before: Map<u64, Track>,
            task_after: CoroutineTask,
            result: CoroutineResult,
        |
            #![trigger keeps(kept_before, task_after, result, kept), ticks(n, context, song_time, tasks[count - 1], tracks_before, task_after, tracks_after, result)]
            {
                &&& polls(
                    n,
                    context,
                    song_time,
                    tasks,
                    tracks,
                    (count - 1) as nat,
                    kept_before,
                    tracks_before,
                )
                &&& ticks(
                    n,
                    context,
                    song_time,
                    tasks[count - 1],
                    tracks_before,
                    task_after,
                    tracks_after,
                    result,
                )
                &&& keeps(kept_before, task_after, result, kept)
            }
    }
}

/// No two of `tasks` are on the same property of the same track.
pub open spec fn one_per_property(tasks: Seq<CoroutineTask>) -> bool {
    forall|i: int, j: int|
        0 <= i < j < tasks.len() ==> !(#[trigger] tasks[i]).is_on(
            (#[trigger] tasks[j]).track_key,
            tasks[j].event_type,
        )
}

/// `kept` holds tasks of `tasks`, in their order, each still on its
/// property of its track: `origin` gives, for each task kept, its place
/// in `tasks`.
pub open spec fn keeps_order(
    tasks: Seq<CoroutineTask>,
    kept: Seq<CoroutineTask>,
    origin: Seq<int>,
    bound: int,
) -> bool {
    &&& origin.len() == kept.len()
    &&& forall|a: int| 0 <= a < kept.len() ==> 0 <= #[trigger] origin[a] < bound
    &&& forall|a: int, b: int| 0 <= a < b < kept.len() ==> #[trigger] origin[a] < #[trigger] origin[b]
    &&& forall|a: int|
        0 <= a < kept.len() ==> (#[trigger] kept[a]).track_key == tasks[origin[a]].track_key
            && kept[a].event_type == tasks[origin[a]].event_type
}

impl CoroutineManager {
    /// The curve of every task can be evaluated and has a keyframe, no run
    /// lasts zero, and no two tasks are on the same property of the same
    /// track.
    pub open spec fn wf(&self) -> bool {
        &&& forall|i: int| 0 <= i < self.coroutines@.len() ==> (#[trigger] self.coroutines@[i]).wf()
        &&& one_per_property(self.coroutines@)
    }

    /// Takes every task through one step at `song_time`, in the order of
    /// the tasks, and keeps those that are not over.
    pub fn poll_events<N: Numerics>(
        &mut self,
        song_time: Scalar,
        context: &BaseProviderContext,
        tracks_holder: &mut TracksHolder,
        n: &N,
    )
        requires
            old(self).wf(),
            context.wf(),
        ensures
            polls(
                n,
                context,
                song_time,
                old(self).coroutines@,
                old(tracks_holder)@,
                old(self).coroutines@.len(),
                final(self).coroutines@,
                final(tracks_holder)@,
            ),
            final(self).wf(),
    {
        let mut all: Vec<CoroutineTask> = Vec::new();
        core::mem::swap(&mut all, &mut self.coroutines);
        let ghost start = all@;
        let ghost tracks = tracks_holder@;
        let ghost mut origin: Seq<int> = Seq::empty();
        let mut kept: Vec<CoroutineTask> = Vec::new();
        for task in it: all
            invariant
                it.seq() == start,
                context.wf(),
                forall|i: int| 0 <= i < start.len() ==> (#[trigger] start[i]).wf(),
                forall|i: int| 0 <= i < kept@.len() ==> (#[trigger] kept@[i]).wf(),
                polls(n, context, song_time, start, tracks, it.index() as nat, kept@, tracks_holder@),
                keeps_order(start, kept@, origin, it.index() as int),
        {
            let ghost kept_before = kept@;
            let ghost tracks_before = tracks_holder@;
            let ghost place = it.index() as int;
            let mut task = task;
            let ghost task_before = task;
            let result = Self::poll_event(song_time, context, &mut task, tracks_holder, n);
            let ghost task_after = task;
            if result == CoroutineResult::Yield {
                kept.push(task);
                proof {
                    origin = origin.push(place);
                }
            }
            proof {
                let count = (place + 1) as nat;
                assert(keeps(kept_before, task_after, result, kept@));
                assert(ticks(
                    n,
                    context,
                    song_time,
                    start[count - 1],
                    tracks_before,
                    task_after,
                    tracks_holder@,
                    result,
                ));
                assert(polls(
                    n,
                    context,
                    song_time,
                    start,
                    tracks,
                    (count - 1) as nat,
                    kept_before,
                    tracks_before,
                ));
                assert(polls(n, context, song_time, start, tracks, count, kept@, tracks_holder@));
            }
        }
        proof {
            assert forall|i: int, j: int| 0 <= i < j < kept@.len() implies !(#[trigger] kept@[i]).is_on(
                (#[trigger] kept@[j]).track_key,
                kept@[j].event_type,
            ) by {
                assert(origin[i] < origin[j]);
                assert(!start[origin[i]].is_on(
                    start[origin[j]].track_key,
                    start[origin[j]].event_type,
                ));
            }
        }
        self.coroutines = kept;
    }
}

/// The numbers computed on the way to the song time at which the last
/// run of an event ends.
pub struct Window {
    /// The number of repeats, as a number.
    pub runs: Scalar,
    pub runs_and_one: Scalar,
    /// The duration of all runs together.
    pub span: Scalar,
    /// The song time at which the last run ends.
    pub end: Scalar,
}

/// `w` holds numbers that `n` gives for the end of the last run of an
/// event that starts at `start`, lasts `duration` and repeats `repeat`
/// times: `start + duration * (repeat + 1)`.
pub open spec fn is_window<N: Numerics>(
    n: &N,
    start: Scalar,
    duration: Scalar,
    repeat: u32,
    w: Window,
) -> bool {
    &&& is_from_count(n, repeat, w.runs)
    &&& is_sum(n, w.runs, ONE, w.runs_and_one)
    &&& is_product(n, duration, w.runs_and_one, w.span)
    &&& is_sum(n, start, w.span, w.end)
}

/// `over` tells, by the arithmetic of `n`, whether an event has no time to
/// run at `song_time`: its duration is zero, or its last run ends before
/// `song_time`.
pub open spec fn is_over<N: Numerics>(
    n: &N,
    song_time: Scalar,
    duration: Scalar,
    start: Scalar,
    repeat: u32,
    over: bool,
) -> bool {
    if is_equal(duration, ZERO) {
        over
    } else {
        exists|w: Window| #[trigger]
            is_window(n, start, duration, repeat, w) && over == is_less(w.end, song_time)
    }
}

/// Whether an event has no time to run at `song_time`.
pub fn no_duration<N: Numerics>(
    n: &N,
    song_time: Scalar,
    duration: Scalar,
    start: Scalar,
    repeat: u32,
) -> (over: bool)
    ensures
        is_over(n, song_time, duration, start, repeat, over),
{
    if equal(duration, ZERO) {
        return true;
    }
    let runs = n.from_count(repeat);
    let runs_and_one = n.sum(runs, ONE);
    let span = n.product(duration, runs_and_one);
    let end = n.sum(start, span);
    assert(is_window(n, start, duration, repeat, Window { runs, runs_and_one, span, end }));
    less_than(end, song_time)
}

/// `after` is the track `track` with the property that `property` names
/// emptied: a value property holds no value, a path loses its current
/// curve to the place of the curve before and starts its blend anew. A
/// track without the property stays as it is.
pub open spec fn nulls(property: EventType, track: Track, after: Track) -> bool {
    match property {
        EventType::AnimateTrack(handle) => match track.properties.handled(handle) {
            Some(slot) => exists|slot_after: ValueProperty|
                #![trigger with_value_slot(track, handle, slot_after, after)]
                {
                    &&& slot_after.value is None
                    &&& slot_after.ty == slot.ty
                    &&& with_value_slot(track, handle, slot_after, after)
                },
            None => after == track,
        },
        EventType::AssignPathAnimation(handle) => match track.path_properties.handled(handle) {
            Some(path) => with_path_slot(
                track,
                handle,
                PathProperty { time: ZERO, prev_point: path.point, point: None, ty: path.ty },
                after,
            ),
            None => after == track,
        },
    }
}

impl EventType {
    /// Empties the property of `track` that the event is on.
    pub fn set_null(&self, track: &mut Track)
        ensures
            nulls(*self, *old(track), *final(track)),
    {
        match self {
            EventType::AnimateTrack(property_handle) => {
                match track.properties.get_by_handle_mut(property_handle) {
                    Some(property) => {
                        property.set_value(None);
                        proof {
                            assert(with_value_slot(
                                *old(track),
                                *property_handle,
                                *property,
                                *track,
                            ));
                        }
                    },
                    None => {},
                }
            },
            EventType::AssignPathAnimation(path_property_handle) => {
                match track.path_properties.get_by_handle_mut(path_property_handle) {
                    Some(path_property) => {
                        path_property.init(None);
                    },
                    None => {},
                }
            },
        }
    }
}

/// The task that is kept of a value animation whose first step said
/// `first`: none where the step ended the only run, and else the task of
/// the event with the runs that are left.
pub open spec fn launched(event: EventData, duration: Scalar, first: CoroutineResult) -> Option<
    CoroutineTask,
> {
    let repeat: u32 = if first == CoroutineResult::Break && event.repeat > 0 {
        (event.repeat - 1) as u32
    } else {
        event.repeat
    };
    if repeat == 0 && first == CoroutineResult::Break {
        None
    } else {
        Some(
            CoroutineTask {
                event_type: event.property,
                repeat,
                duration_song_time: duration,
                easing: event.easing,
                start_song_time: event.start_song_time,
                track_key: event.track_key,
                point_definition: event.point_data,
            },
        )
    }
}

/// The task that is kept of a path animation whose first step said
/// `first`: none where the step ended it, and else the task of the event,
/// which holds no curve of its own.
pub open spec fn launched_path(event: EventData, duration: Scalar, first: CoroutineResult) -> Option<
    CoroutineTask,
> {
    if first == CoroutineResult::Break {
        None
    } else {
        Some(
            CoroutineTask {
                event_type: event.property,
                repeat: event.repeat,
                duration_song_time: duration,
                easing: event.easing,
                start_song_time: event.start_song_time,
                track_key: event.track_key,
                point_definition: None,
            },
        )
    }
}

/// What the start of an event settles on the way.
pub struct StartSteps {
    /// Whether the event has no time to run.
    pub over: bool,
    /// The track of the event after the start.
    pub track_after: Track,
    /// The value property of the event after the start.
    pub slot_after: ValueProperty,
    /// The path of the event after the start.
    pub path_after: PathProperty,
    /// What the first step said.
    pub first: CoroutineResult,
    /// Whether the curve was at its last keyframe.
    pub on_last: bool,
}

/// The start of a value animation along `points` on the slot `slot` that
/// `handle` names on `track`.
/// - An event with no time to run, and one whose curve has one keyframe at
///   most and reads no channel of the host, brings the property to the
///   value of the curve at one, and keeps no task.
/// - Every other event takes its first step at `song_time`.
pub open spec fn starts_value<N: Numerics>(
    n: &N,
    context: &BaseProviderContext,
    song_time: Scalar,
    duration: Scalar,
    event: EventData,
    points: BasePointDefinition,
    handle: crate::animation::track::ValuePropertyHandle,
    slot: ValueProperty,
    track: Track,
    s: StartSteps,
    task: Option<CoroutineTask>,
) -> bool {
    &&& with_value_slot(track, handle, s.slot_after, s.track_after)
    &&& if s.over || (points.points().len() <= 1 && !points.live()) {
        sets(n, context, points, ONE, slot, s.slot_after, s.on_last) && task is None
    } else {
        animates(
            n,
            context,
            points,
            slot,
            duration,
            event.start_song_time,
            song_time,
            event.easing,
            points.live(),
            s.slot_after,
            s.first,
        ) && task == launched(event, duration, s.first)
    }
}

/// The start of a path animation with the curve `points` on the path
/// `path` that `handle` names on `track`: the path takes `points` as its
/// current curve; an event with no time to run drops the curve before it
/// at once and keeps no task, every other event takes its first step at
/// `song_time`.
pub open spec fn starts_path<N: Numerics>(
    n: &N,
    song_time: Scalar,
    duration: Scalar,
    event: EventData,
    points: Rc<BasePointDefinition>,
    handle: crate::animation::track::PathPropertyHandle,
    path: PathProperty,
    track: Track,
    s: StartSteps,
    task: Option<CoroutineTask>,
) -> bool {
    let opened = PathProperty {
        time: ZERO,
        prev_point: path.point,
        point: Some(points),
        ty: path.ty,
    };
    &&& with_path_slot(track, handle, s.path_after, s.track_after)
    &&& if s.over {
        s.path_after == (PathProperty { prev_point: None, ..opened }) && task is None
    } else {
        assigns(
            n,
            opened,
            duration,
            event.start_song_time,
            event.easing,
            song_time,
            s.path_after,
            s.first,
        ) && task == launched_path(event, duration, s.first)
    }
}

/// The start of `event` on its track `track`.
/// - An event without a curve empties its property and keeps no task.
/// - An event on a property that the track does not have, or with a curve
///   that is not of the kind of the property, changes nothing and keeps
///   no task.
pub open spec fn starts_on<N: Numerics>(
    n: &N,
    context: &BaseProviderContext,
    song_time: Scalar,
    duration: Scalar,
    event: EventData,
    track: Track,
    s: StartSteps,
    task: Option<CoroutineTask>,
) -> bool {
    match event.point_data {
        None => task is None && nulls(event.property, track, s.track_after),
        Some(points) => match event.property {
            EventType::AnimateTrack(handle) => match track.properties.handled(handle) {
                Some(slot) => if slot.ty.admits(points.kind()) {
                    starts_value(
                        n,
                        context,
                        song_time,
                        duration,
                        event,
                        *points,
                        handle,
                        slot,
                        track,
                        s,
                        task,
                    )
                } else {
                    task is None && s.track_after == track
                },
                None => task is None && s.track_after == track,
            },
            EventType::AssignPathAnimation(handle) => match track.path_properties.handled(handle) {
                Some(path) => if points.kind() == path.ty {
                    starts_path(n, song_time, duration, event, points, handle, path, track, s, task)
                } else {
                    task is None && s.track_after == track
                },
                None => task is None && s.track_after == track,
            },
        },
    }
}

/// `tracks_after` and `task` are what `n` gives for the start of `event`
/// at `song_time`, with runs of `duration`, over the tracks `tracks`, by
/// the steps `s`. An event whose track is gone changes nothing and keeps
/// no task.
pub open spec fn starts_by<N: Numerics>(
    n: &N,
    context: &BaseProviderContext,
    song_time: Scalar,
    duration: Scalar,
    event: EventData,
    tracks: Map<u64, Track>,
    s: StartSteps,
    tracks_after: Map<u64, Track>,
    task: Option<CoroutineTask>,
) -> bool {
    &&& is_over(n, song_time, duration, event.start_song_time, event.repeat, s.over)
    &&& if tracks.contains_key(event.track_key@) {
        &&& tracks_after == tracks.insert(event.track_key@, s.track_after)
        &&& starts_on(n, context, song_time, duration, event, tracks[event.track_key@], s, task)
    } else {
        task is None && tracks_after == tracks
    }
}

/// `tracks_after` and `task` are what `n` gives for the start of `event`
/// at `song_time`, with runs of `duration`, over the tracks `tracks`.
pub open spec fn starts<N: Numerics>(
    n: &N,
    context: &BaseProviderContext,
    song_time: Scalar,
    duration: Scalar,
    event: EventData,
    tracks: Map<u64, Track>,
    tracks_after: Map<u64, Track>,
    task: Option<CoroutineTask>,
) -> bool {
    exists|s: StartSteps| #[trigger]
        starts_by(n, context, song_time, duration, event, tracks, s, tracks_after, task)
}

/// `rest` is `tasks` without the first task on the property `property` of
/// the track `track_key`, and `tasks` where there is no such task.
pub open spec fn cancels(
    tasks: Seq<CoroutineTask>,
    track_key: TrackKey,
    property: EventType,
    rest: Seq<CoroutineTask>,
) -> bool {
    ||| exists|i: int|
        {
            &&& 0 <= i < tasks.len()
            &&& (#[trigger] tasks[i]).is_on(track_key, property)
            &&& forall|j: int| 0 <= j < i ==> !(#[trigger] tasks[j]).is_on(track_key, property)
            &&& rest == tasks.remove(i)
        }
    ||| {
        &&& forall|j: int| 0 <= j < tasks.len() ==> !(#[trigger] tasks[j]).is_on(track_key, property)
        &&& rest == tasks
    }
}

/// What the start of an event computes before it touches a track.
pub struct LaunchSteps {
    /// Sixty times the duration in beats.
    pub beats: Scalar,
    /// The duration of one run in song time.
    pub duration: Scalar,
    /// The tasks that are left once the task on the property of the event
    /// is cancelled.
    pub rest: Seq<CoroutineTask>,
    /// The task that the event keeps.
    pub task: Option<CoroutineTask>,
}

/// `tasks_after` and `tracks_after` are what `n` gives, by the steps `l`,
/// when `event` is started at `song_time` and `bpm` beats a minute, with
/// the tasks `tasks` live over the tracks `tracks`: a run lasts
/// `60 * raw_duration / bpm`; the task on the property of the event is
/// cancelled; the event starts; and the task that it keeps comes last.
pub open spec fn launches<N: Numerics>(
    n: &N,
    context: &BaseProviderContext,
    bpm: Scalar,
    song_time: Scalar,
    event: EventData,
    tasks: Seq<CoroutineTask>,
    tracks: Map<u64, Track>,
    l: LaunchSteps,
    tasks_after: Seq<CoroutineTask>,
    tracks_after: Map<u64, Track>,
) -> bool {
    &&& is_product(n, SIXTY, event.raw_duration, l.beats)
    &&& is_quotient(n, l.beats, bpm, l.duration)
    &&& cancels(tasks, event.track_key, event.property, l.rest)
    &&& starts(n, context, song_time, l.duration, event, tracks, tracks_after, l.task)
    &&& tasks_after == (match l.task {
        Some(task) => l.rest.push(task),
        None => l.rest,
    })
}

impl CoroutineManager {
    /// Starts `event_group_data` at `song_time`: cancels the task on the
    /// same property of the same track, brings the property to the state
    /// of the event at `song_time`, and keeps a task, as the last of the
    /// tasks, where the event is not over.
    pub fn start_event_coroutine<N: Numerics>(
        &mut self,
        bpm: Scalar,
        song_time: Scalar,
        provider_context: &BaseProviderContext,
        tracks_holder: &mut TracksHolder,
        event_group_data: EventData,
        n: &N,
    )
        requires
            old(self).wf(),
            provider_context.wf(),
            event_group_data.point_data matches Some(points) ==> points.wf(),
        ensures
            exists|l: LaunchSteps| #[trigger]
                launches(
                    n,
                    provider_context,
                    bpm,
                    song_time,
                    event_group_data,
                    old(self).coroutines@,
                    old(tracks_holder)@,
                    l,
                    final(self).coroutines@,
                    final(tracks_holder)@,
                ),
            final(self).wf(),
            forall|i: int|
                0 <= i < final(self).coroutines@.len() - 1 ==> !(#[trigger] final(self).coroutines@[i]).is_on(
                    event_group_data.track_key,
                    event_group_data.property,
                ),
    {
        let beats = n.product(SIXTY, event_group_data.raw_duration);
        let duration = n.quotient(beats, bpm);
        let ghost tasks = self.coroutines@;

        // cancel any existing coroutine for the same event type on the same
        // track: there is only ever one, so we find the first and remove it
        let mut pos: usize = 0;
        let mut found = false;
        while pos < self.coroutines.len()
            invariant_except_break
                !found,
            invariant
                pos <= self.coroutines@.len(),
                self.coroutines@ == tasks,
                forall|j: int|
                    0 <= j < pos ==> !(#[trigger] tasks[j]).is_on(
                        event_group_data.track_key,
                        event_group_data.property,
                    ),
            ensures
                self.coroutines@ == tasks,
                pos <= tasks.len(),
                found ==> pos < tasks.len() && tasks[pos as int].is_on(
                    event_group_data.track_key,
                    event_group_data.property,
                ),
                forall|j: int|
                    0 <= j < pos ==> !(#[trigger] tasks[j]).is_on(
                        event_group_data.track_key,
                        event_group_data.property,
                    ),
                !found ==> pos == tasks.len(),
            decreases self.coroutines@.len() - pos,
        {
            let task = &self.coroutines[pos];
            if task.track_key == event_group_data.track_key && task.event_type.equals(
                &event_group_data.property,
            ) {
                found = true;
                break ;
            }
            pos = pos + 1;
        }
        if found {
            let _ = self.coroutines.remove(pos);
        }
        let ghost rest = self.coroutines@;
        proof {
            assert(cancels(tasks, event_group_data.track_key, event_group_data.property, rest));
            assert forall|j: int| 0 <= j < rest.len() implies !(#[trigger] rest[j]).is_on(
                event_group_data.track_key,
                event_group_data.property,
            ) by {
                if found {
                    if j >= pos {
                        assert(rest[j] == tasks[j + 1]);
                        assert(!tasks[pos as int].is_on(
                            tasks[j + 1].track_key,
                            tasks[j + 1].event_type,
                        ));
                    } else {
                        assert(rest[j] == tasks[j]);
                    }
                }
            }
            assert(one_per_property(rest)) by {
                assert forall|a: int, b: int| 0 <= a < b < rest.len() implies !(#[trigger] rest[a]).is_on(
                    (#[trigger] rest[b]).track_key,
                    rest[b].event_type,
                ) by {
                    let ia = if found && a >= pos {
                        a + 1
                    } else {
                        a
                    };
                    let ib = if found && b >= pos {
                        b + 1
                    } else {
                        b
                    };
                    assert(rest[a] == tasks[ia] && rest[b] == tasks[ib]);
                    assert(!tasks[ia].is_on(tasks[ib].track_key, tasks[ib].event_type));
                }
            }
        }

        let value = Self::make_event_task(
            song_time,
            duration,
            event_group_data,
            provider_context,
            tracks_holder,
            n,
        );
        let ghost kept = value;
        match value {
            Some(task) => {
                self.coroutines.push(task);
            },
            None => {},
        }
        proof {
            let l = LaunchSteps { beats, duration, rest, task: kept };
            assert(launches(
                n,
                provider_context,
                bpm,
                song_time,
                event_group_data,
                tasks,
                old(tracks_holder)@,
                l,
                self.coroutines@,
                tracks_holder@,
            ));
        }
    }

    /// Brings the property of the event `data` to the state that the event
    /// has at `song_time`, and returns the task to keep where the event is
    /// not over.
    pub fn make_event_task<N: Numerics>(
        song_time: Scalar,
        duration: Scalar,
        data: EventData,
        provider_context: &BaseProviderContext,
        tracks_holder: &mut TracksHolder,
        n: &N,
    ) -> (task: Option<CoroutineTask>)
        requires
            provider_context.wf(),
            data.point_data matches Some(points) ==> points.wf(),
        ensures
            starts(
                n,
                provider_context,
                song_time,
                duration,
                data,
                old(tracks_holder)@,
                final(tracks_holder)@,
                task,
            ),
            task matches Some(t) ==> t.wf() && t.track_key == data.track_key && t.event_type
                == data.property,
    {
        let over = no_duration(n, song_time, duration, data.start_song_time, data.repeat);
        let ghost event = data;
        let ghost tracks = tracks_holder@;
        let EventData { raw_duration: _, easing, repeat, start_song_time, property, track_key, point_data } =
            data;
        let ghost mut s = StartSteps {
            over,
            track_after: arbitrary(),
            slot_after: arbitrary(),
            path_after: arbitrary(),
            first: CoroutineResult::Break,
            on_last: false,
        };
        // what is left of the event to keep: the runs that are left and the
        // curve of the task
        let mut keep: Option<(u32, Option<Rc<BasePointDefinition>>)> = None;
        match tracks_holder.get_track_mut(track_key) {
            None => {
                proof {
                    assert(starts_by(
                        n,
                        provider_context,
                        song_time,
                        duration,
                        event,
                        tracks,
                        s,
                        tracks_holder@,
                        None,
                    ));
                }
                return None;
            },
            Some(track) => {
                let ghost before = *track;
                match point_data {
                    None => {
                        property.set_null(track);
                    },
                    Some(points) => {
                        match &property {
                            EventType::AnimateTrack(property_handle) => {
                                let fits = match track.properties.get_by_handle(property_handle) {
                                    Some(slot) => slot.ty.accepts(points.get_type()),
                                    None => false,
                                };
                                if fits {
                                    match track.properties.get_by_handle_mut(property_handle) {
                                        None => {},
                                        Some(value_property) => {
                                            let has_base = points.has_base_provider();
                                            if over || (points.get_count() <= 1 && !has_base) {
                                                let on_last = set_property_value(
                                                    &points,
                                                    value_property,
                                                    ONE,
                                                    provider_context,
                                                    n,
                                                );
                                                proof {
                                                    s.on_last = on_last;
                                                    s.slot_after = *value_property;
                                                }
                                            } else {
                                                let result = animate_track(
                                                    &points,
                                                    value_property,
                                                    duration,
                                                    start_song_time,
                                                    song_time,
                                                    easing,
                                                    has_base,
                                                    provider_context,
                                                    n,
                                                );
                                                proof {
                                                    s.first = result;
                                                    s.slot_after = *value_property;
                                                }
                                                let left = if result == CoroutineResult::Break
                                                    && repeat > 0 {
                                                    repeat - 1
                                                } else {
                                                    repeat
                                                };
                                                if !(left == 0 && result == CoroutineResult::Break) {
                                                    keep = Some((left, Some(points)));
                                                }
                                            }
                                        },
                                    }
                                }
                            },
                            EventType::AssignPathAnimation(path_property_handle) => {
                                let fits = match track.path_properties.get_by_handle(
                                    path_property_handle,
                                ) {
                                    Some(path) => points.get_type() == path.get_type(),
                                    None => false,
                                };
                                if fits {
                                    match track.path_properties.get_by_handle_mut(
                                        path_property_handle,
                                    ) {
                                        None => {},
                                        Some(path_property) => {
                                            path_property.init(Some(points));
                                            if over {
                                                path_property.finish();
                                            } else {
                                                let res = assign_path_animation(
                                                    path_property,
                                                    duration,
                                                    start_song_time,
                                                    easing,
                                                    song_time,
                                                    n,
                                                );
                                                proof {
                                                    s.first = res;
                                                }
                                                if res != CoroutineResult::Break {
                                                    keep = Some((repeat, None));
                                                }
                                            }
                                            proof {
                                                s.path_after = *path_property;
                                            }
                                        },
                                    }
                                }
                            },
                        }
                    },
                }
                proof {
                    s.track_after = *track;
                }
            },
        }
        let task = match keep {
            Some((repeat, point_definition)) => Some(
                CoroutineTask {
                    easing,
                    track_key,
                    event_type: property,
                    point_definition,
                    repeat,
                    duration_song_time: duration,
                    start_song_time,
                },
            ),
            None => None,
        };
        proof {
            assert(tracks_holder@ =~= tracks.insert(event.track_key@, s.track_after));
            assert(starts_on(
                n,
                provider_context,
                song_time,
                duration,
                event,
                tracks[event.track_key@],
                s,
                task,
            ));
            assert(starts_by(
                n,
                provider_context,
                song_time,
                duration,
                event,
                tracks,
                s,
                tracks_holder@,
                task,
            ));
        }
        task
    }
}

/// A value animation with runs left does not end with a run: where its
/// track has its property and its curve is of the kind of the property,
/// a step keeps the task, and where the step ends a run, the task has one
/// run less and its next run starts where the last one ended. A task ends
/// only with its last run.
pub proof fn lemma_repeat_restarts<N: Numerics>(
    n: &N,
    context: &BaseProviderContext,
    song_time: Scalar,
    task: CoroutineTask,
    tracks: Map<u64, Track>,
    task_after: CoroutineTask,
    tracks_after: Map<u64, Track>,
    result: CoroutineResult,
)
    requires
        ticks(n, context, song_time, task, tracks, task_after, tracks_after, result),
        task.event_type is AnimateTrack,
        tracks.contains_key(task.track_key@),
        task.point_definition is Some,
        tracks[task.track_key@].properties.handled(task.event_type->AnimateTrack_0) is Some,
        tracks[task.track_key@].properties.handled(
            task.event_type->AnimateTrack_0,
        )->Some_0.ty.admits(task.point_definition->Some_0.kind()),
    ensures
        task.repeat > 0 ==> result == CoroutineResult::Yield,
        result == CoroutineResult::Break ==> task.repeat == 0 && task_after == task,
        task_after == task || {
            &&& task.repeat > 0
            &&& task_after.repeat == task.repeat - 1
            &&& is_sum(n, task.start_song_time, task.duration_song_time, task_after.start_song_time)
            &&& result == CoroutineResult::Yield
        },
{
}

/// An event that has no time to run keeps no task: a value animation
/// brings its property to the value of its curve at one, a path animation
/// takes its curve and drops the curve before it.
pub proof fn lemma_past_event_collapses<N: Numerics>(
    n: &N,
    context: &BaseProviderContext,
    song_time: Scalar,
    duration: Scalar,
    event: EventData,
    tracks: Map<u64, Track>,
    s: StartSteps,
    tracks_after: Map<u64, Track>,
    task: Option<CoroutineTask>,
)
    requires
        starts_by(n, context, song_time, duration, event, tracks, s, tracks_after, task),
        s.over,
    ensures
        task is None,
        (tracks.contains_key(event.track_key@) && event.point_data is Some
            && event.property is AnimateTrack && tracks[event.track_key@].properties.handled(
            event.property->AnimateTrack_0,
        ) is Some && tracks[event.track_key@].properties.handled(
            event.property->AnimateTrack_0,
        )->Some_0.ty.admits(event.point_data->Some_0.kind())) ==> {
            &&& sets(
                n,
                context,
                *event.point_data->Some_0,
                ONE,
                tracks[event.track_key@].properties.handled(event.property->AnimateTrack_0)->Some_0,
                s.slot_after,
                s.on_last,
            )
            &&& with_value_slot(
                tracks[event.track_key@],
                event.property->AnimateTrack_0,
                s.slot_after,
                tracks_after[event.track_key@],
            )
        },
{
}

/// An event whose last run ends before the song time at which it is
/// started has no time to run.
pub proof fn lemma_past_is_over<N: Numerics>(
    n: &N,
    song_time: Scalar,
    duration: Scalar,
    start: Scalar,
    repeat: u32,
    over: bool,
)
    requires
        is_over(n, song_time, duration, start, repeat, over),
        forall|w: Window| #[trigger] is_window(n, start, duration, repeat, w) ==> is_less(w.end, song_time),
    ensures
        over,
{
}

} // verus!
