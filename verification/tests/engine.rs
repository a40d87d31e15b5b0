use glam::{EulerRot, Quat, Vec3, Vec4};
use palette::{Hsv, IntoColor, RgbHue, Srgb};
use tracks_rs::easings::functions::Functions;
use tracks_rs::numerics::Numerics;
use std::rc::Rc;
use tracks_rs::animation::coroutine_manager::{CoroutineManager, CoroutineResult};
use tracks_rs::animation::events::{EventData, EventType};
use tracks_rs::animation::track::{PathPropertyHandle, Track, ValuePropertyHandle};
use tracks_rs::animation::tracks_holder::{TrackKey, TracksHolder};
use tracks_rs::base_provider_context::BaseProviderContext;
use tracks_rs::context::TracksContext;
use tracks_rs::ffi::json::JsonValue;
use tracks_rs::ffi::types::WrapBaseValueType;
use tracks_rs::modifiers::float_modifier::FloatValues;
use tracks_rs::modifiers::quaternion_modifier::QuaternionValues;
use tracks_rs::modifiers::vector3_modifier::Vector3Values;
use tracks_rs::modifiers::vector4_modifier::Vector4Values;
use tracks_rs::point_data::float_point_data::FloatPointData;
use tracks_rs::point_data::quaternion_point_data::QuaternionPointData;
use tracks_rs::point_data::vector3_point_data::Vector3PointData;
use tracks_rs::point_data::vector4_point_data::Vector4PointData;
use tracks_rs::point_data::PointData;
use tracks_rs::point_definition::base_point_definition::BasePointDefinition;
use tracks_rs::point_definition::float_point_definition::FloatPointDefinition;
use tracks_rs::point_definition::quaternion_point_definition::QuaternionPointDefinition;
use tracks_rs::point_definition::vector3_point_definition::Vector3PointDefinition;
use tracks_rs::point_definition::vector4_point_definition::Vector4PointDefinition;
use tracks_rs::values::base::BaseProviderValues;
use tracks_rs::values::value::BaseValue;
use tracks_rs::values::ValueProvider;

/// Single-precision arithmetic by the machine, rotations by glam, colours
/// by palette.
struct FloatMath;

fn num(bits: u32) -> f32 {
    f32::from_bits(bits)
}

fn bits(x: f32) -> u32 {
    x.to_bits()
}

fn bounce_out(t: f32) -> f32 {
    if t < 1.0 / 2.75 {
        7.5625 * t * t
    } else if t < 2.0 / 2.75 {
        let t = t - 1.5 / 2.75;
        7.5625 * t * t + 0.75
    } else if t < 2.5 / 2.75 {
        let t = t - 2.25 / 2.75;
        7.5625 * t * t + 0.9375
    } else {
        let t = t - 2.625 / 2.75;
        7.5625 * t * t + 0.984375
    }
}

fn ease(easing: Functions, t: f32) -> f32 {
    match easing {
        Functions::EaseLinear => t,
        Functions::EaseStep => {
            if t >= 1.0 {
                1.0
            } else {
                0.0
            }
        }
        Functions::EaseInQuad => t * t,
        Functions::EaseOutQuad => 1.0 - (1.0 - t) * (1.0 - t),
        Functions::EaseInOutQuad => {
            if t < 0.5 {
                2.0 * t * t
            } else {
                1.0 - (-2.0 * t + 2.0).powi(2) / 2.0
            }
        }
        Functions::EaseInCubic => t * t * t,
        Functions::EaseOutCubic => 1.0 - (1.0 - t).powi(3),
        Functions::EaseOutBounce => bounce_out(t),
        Functions::EaseInBounce => 1.0 - bounce_out(1.0 - t),
        _ => unreachable!("an easing that these tests do not use"),
    }
}

impl Numerics for FloatMath {
    fn sum(&self, a: u32, b: u32) -> u32 {
        bits(num(a) + num(b))
    }

    fn difference(&self, a: u32, b: u32) -> u32 {
        bits(num(a) - num(b))
    }

    fn product(&self, a: u32, b: u32) -> u32 {
        bits(num(a) * num(b))
    }

    fn quotient(&self, a: u32, b: u32) -> u32 {
        bits(num(a) / num(b))
    }

    fn from_count(&self, n: u32) -> u32 {
        bits(n as f32)
    }

    fn ease(&self, easing: Functions, t: u32) -> u32 {
        bits(ease(easing, num(t)))
    }

    fn slerp(&self, a: [u32; 4], b: [u32; 4], t: u32) -> [u32; 4] {
        quat_bits(quat(a).slerp(quat(b), num(t)))
    }

    fn euler_to_quat(&self, euler: [u32; 3]) -> [u32; 4] {
        quat_bits(from_unity_euler_degrees(Vec3::new(
            num(euler[0]),
            num(euler[1]),
            num(euler[2]),
        )))
    }

    fn quat_to_euler(&self, q: [u32; 4]) -> [u32; 3] {
        let e = to_unity_euler_degrees(quat(q));
        [bits(e.x), bits(e.y), bits(e.z)]
    }

    fn rgb_to_hsv(&self, rgb: [u32; 3]) -> [u32; 3] {
        let hsv: Hsv = Srgb::new(num(rgb[0]), num(rgb[1]), num(rgb[2])).into_color();
        [
            bits(hsv.hue.into_raw_radians()),
            bits(hsv.saturation),
            bits(hsv.value),
        ]
    }

    fn hsv_to_rgb(&self, hsv: [u32; 3]) -> [u32; 3] {
        let rgb: Srgb = Hsv::new(
            RgbHue::from_radians(num(hsv[0])),
            num(hsv[1]),
            num(hsv[2]),
        )
        .into_color();
        [bits(rgb.red), bits(rgb.green), bits(rgb.blue)]
    }
}

const TRACKS_EULER_ROT: EulerRot = EulerRot::ZXYEx;

fn to_unity_euler_degrees(q: Quat) -> Vec3 {
    let (a, b, c) = q.to_euler(TRACKS_EULER_ROT);
    Vec3::new(b.to_degrees(), c.to_degrees(), a.to_degrees())
}

fn from_unity_euler_degrees(euler: Vec3) -> Quat {
    Quat::from_euler(
        TRACKS_EULER_ROT,
        euler.z.to_radians(),
        euler.x.to_radians(),
        euler.y.to_radians(),
    )
}

fn quat(q: [u32; 4]) -> Quat {
    Quat::from_xyzw(num(q[0]), num(q[1]), num(q[2]), num(q[3]))
}

fn quat_bits(q: Quat) -> [u32; 4] {
    [bits(q.x), bits(q.y), bits(q.z), bits(q.w)]
}

fn vec3_bits(v: Vec3) -> [u32; 3] {
    [bits(v.x), bits(v.y), bits(v.z)]
}

fn vec4_bits(v: Vec4) -> [u32; 4] {
    [bits(v.x), bits(v.y), bits(v.z), bits(v.w)]
}

fn vec3(v: [u32; 3]) -> Vec3 {
    Vec3::new(num(v[0]), num(v[1]), num(v[2]))
}

fn vec4(v: [u32; 4]) -> Vec4 {
    Vec4::new(num(v[0]), num(v[1]), num(v[2]), num(v[3]))
}

fn float_point(value: f32, time: f32) -> PointData {
    PointData::Float(FloatPointData::new(
        FloatValues::Static(bits(value)),
        bits(time),
        vec![],
        Functions::EaseLinear,
    ))
}

fn float_curve(points: &[(f32, f32)]) -> Rc<BasePointDefinition> {
    Rc::new(BasePointDefinition::Float(FloatPointDefinition::new(
        points.iter().map(|(v, t)| float_point(*v, *t)).collect(),
    )))
}

fn track_named(name: &str) -> Track {
    let mut t = Track::default();
    t.name = name.to_string();
    t
}

fn dissolve_event(
    key: TrackKey,
    raw_duration: f32,
    repeat: u32,
    start: f32,
    point_data: Option<Rc<BasePointDefinition>>,
) -> EventData {
    EventData {
        raw_duration: bits(raw_duration),
        easing: Functions::EaseLinear,
        repeat,
        start_song_time: bits(start),
        property: EventType::AnimateTrack(ValuePropertyHandle::new("dissolve")),
        track_key: key,
        point_data,
    }
}

fn dissolve_of(holder: &TracksHolder, key: TrackKey) -> Option<f32> {
    holder
        .get_track(key)
        .unwrap()
        .properties
        .dissolve
        .get_value()
        .map(|v| num(v.as_float().unwrap()))
}

#[test]
fn tracks_holder_add_get() {
    let mut holder = TracksHolder::new();
    let mut t = Track::default();
    t.name = "track_a".to_string();
    let key = holder.add_track(t);

    let got = holder.get_track(key).expect("track should exist");
    assert_eq!(got.name, "track_a");

    let by_name = holder
        .get_track_by_name("track_a")
        .expect("by_name should work");
    assert_eq!(by_name.name, "track_a");
}

#[test]
fn tracks_holder_refuses_a_second_track_of_one_name() {
    let mut holder = TracksHolder::new();
    assert!(holder.can_add("dup"));
    holder.add_track(track_named("dup"));
    // a second track of the name is what `add_track` must not be given
    assert!(!holder.can_add("dup"));
    assert!(holder.can_add("other"));
    assert_eq!(holder.len(), 1);
}

#[test]
fn coroutine_start_and_poll_sets_property() {
    let mut cm = CoroutineManager::default();
    let ctx = BaseProviderContext::new();

    let mut holder = TracksHolder::new();
    let mut t = Track::default();
    t.name = "c_track".to_string();
    let key = holder.add_track(t);

    // construct a simple float point definition with two points (0 -> 10 over time 0..1)
    let pd = FloatPointDefinition::new(vec![
        PointData::Float(FloatPointData::new(
            FloatValues::Static(bits(0.0)),
            bits(0.0),
            vec![],
            Functions::EaseLinear,
        )),
        PointData::Float(FloatPointData::new(
            FloatValues::Static(bits(10.0)),
            bits(1.0),
            vec![],
            Functions::EaseLinear,
        )),
    ]);

    let ev = EventData {
        raw_duration: bits(1.0),
        easing: Functions::EaseLinear,
        repeat: 0,
        start_song_time: bits(0.0),
        property: EventType::AnimateTrack(ValuePropertyHandle::new("dissolve")),
        track_key: key,
        point_data: Some(Rc::new(BasePointDefinition::Float(pd))),
    };

    // bpm 60 => duration = 1.0 for raw_duration 1.0
    cm.start_event_coroutine(bits(60.0), bits(0.0), &ctx, &mut holder, ev, &FloatMath);

    // poll at halfway through duration (0.5) - should set dissolve ~5.0
    cm.poll_events(bits(0.5), &ctx, &mut holder, &FloatMath);

    let track = holder.get_track(key).unwrap();
    let val = track.properties.dissolve.get_value().expect("value set");
    let f = num(val.as_float().unwrap());
    assert!((f - 5.0).abs() < 1e-3, "expected ~5.0 got {}", f);
}

#[test]
fn cancel_previous_coroutine_on_same_track_only() {
    let mut cm = CoroutineManager::default();
    let ctx = BaseProviderContext::new();

    let mut holder = TracksHolder::new();

    // track A
    let mut ta = Track::default();
    ta.name = "track_a".to_string();
    let key_a = holder.add_track(ta);

    // track B
    let mut tb = Track::default();
    tb.name = "track_b".to_string();
    let key_b = holder.add_track(tb);

    // initial coroutine on track A (should be cancelled later)
    let ev_a1 = dissolve_event(key_a, 1.0, 0, 0.0, Some(float_curve(&[(0.0, 0.0), (10.0, 1.0)])));
    cm.start_event_coroutine(bits(60.0), bits(0.0), &ctx, &mut holder, ev_a1, &FloatMath);

    // start a coroutine on track B same property - should NOT be cancelled by later A
    let ev_b = dissolve_event(key_b, 1.0, 0, 0.0, Some(float_curve(&[(5.0, 0.0), (15.0, 1.0)])));
    cm.start_event_coroutine(bits(60.0), bits(0.0), &ctx, &mut holder, ev_b, &FloatMath);

    // start a different-property coroutine on track A - should NOT cancel dissolve on A
    // use color (vec4)
    let pd_color = Vector4PointDefinition::new(vec![
        PointData::Vector4(Vector4PointData::new(
            Vector4Values::Static(vec4_bits(Vec4::new(0.0, 0.0, 0.0, 0.0))),
            false,
            bits(0.0),
            vec![],
            Functions::EaseLinear,
        )),
        PointData::Vector4(Vector4PointData::new(
            Vector4Values::Static(vec4_bits(Vec4::new(4.0, 4.0, 4.0, 4.0))),
            false,
            bits(1.0),
            vec![],
            Functions::EaseLinear,
        )),
    ]);

    let ev_a_color = EventData {
        raw_duration: bits(1.0),
        easing: Functions::EaseLinear,
        repeat: 0,
        start_song_time: bits(0.0),
        property: EventType::AnimateTrack(ValuePropertyHandle::new("color")),
        track_key: key_a,
        point_data: Some(Rc::new(BasePointDefinition::Vector4(pd_color))),
    };

    cm.start_event_coroutine(bits(60.0), bits(0.0), &ctx, &mut holder, ev_a_color, &FloatMath);

    // Now start a NEW coroutine on track A for same property (dissolve) which should cancel the first one
    let ev_a2 = dissolve_event(key_a, 1.0, 0, 0.0, Some(float_curve(&[(0.0, 0.0), (20.0, 1.0)])));
    cm.start_event_coroutine(bits(60.0), bits(0.0), &ctx, &mut holder, ev_a2, &FloatMath);

    // poll halfway through (0.5)
    cm.poll_events(bits(0.5), &ctx, &mut holder, &FloatMath);

    // track A dissolve should reflect pd_a2 (0->20 => 10 at t=0.5)
    let ta = holder.get_track(key_a).unwrap();
    let da = num(ta.properties.dissolve.get_value().unwrap().as_float().unwrap());
    assert!(
        (da - 10.0).abs() < 1e-3,
        "track A dissolve expected ~10 got {}",
        da
    );

    // track B dissolve should reflect its own pd_b (5->15 => 10 at t=0.5)
    let tb = holder.get_track(key_b).unwrap();
    let db = num(tb.properties.dissolve.get_value().unwrap().as_float().unwrap());
    assert!(
        (db - 10.0).abs() < 1e-3,
        "track B dissolve expected ~10 got {}",
        db
    );

    // track A color should reflect pd_color (0->4 => 2.0 per component at t=0.5)
    let ta_color = vec4(ta.properties.color.get_value().unwrap().as_vec4().unwrap());
    assert!(
        (ta_color.x - 2.0).abs() < 1e-3,
        "track A color.x expected ~2 got {}",
        ta_color.x
    );
}

#[test]
fn zero_duration_event_sets_final_value() {
    let mut cm = CoroutineManager::default();
    let ctx = BaseProviderContext::new();

    let mut holder = TracksHolder::new();
    let mut t = Track::default();
    t.name = "z_track".to_string();
    let key = holder.add_track(t);

    // raw_duration 0 -> duration calculation leads to 0 and should immediately set final value
    let ev = dissolve_event(key, 0.0, 0, 0.0, Some(float_curve(&[(0.0, 0.0), (10.0, 1.0)])));

    cm.start_event_coroutine(bits(60.0), bits(0.0), &ctx, &mut holder, ev, &FloatMath);

    // 0-duration events should not leave coroutines enqueued
    assert!(
        cm.coroutines.is_empty(),
        "0-duration coroutine should not be retained"
    );

    let track = holder.get_track(key).unwrap();
    let v = num(track.properties.dissolve.get_value().unwrap().as_float().unwrap());
    // should be final value 10.0
    assert!(
        (v - 10.0).abs() < 1e-6,
        "expected final value 10.0, got {}",
        v
    );
}

#[test]
fn missing_point_data_sets_property_to_none() {
    let mut cm = CoroutineManager::default();
    let ctx = BaseProviderContext::new();

    let mut holder = TracksHolder::new();
    let mut t = Track::default();
    t.name = "n_track".to_string();
    let key = holder.add_track(t);

    // Event with no point_data should call set_null and leave property None
    let ev = dissolve_event(key, 1.0, 0, 0.0, None);

    cm.start_event_coroutine(bits(60.0), bits(0.0), &ctx, &mut holder, ev, &FloatMath);

    let track = holder.get_track(key).unwrap();
    assert!(
        track.properties.dissolve.get_value().is_none(),
        "dissolve should be None"
    );
}

#[test]
fn repeat_event_restarts_once() {
    let mut cm = CoroutineManager::default();
    let ctx = BaseProviderContext::new();

    let mut holder = TracksHolder::new();
    let mut t = Track::default();
    t.name = "r_track".to_string();
    let key = holder.add_track(t);

    // repeat = 1 -> should run twice
    let ev = dissolve_event(key, 1.0, 1, 0.0, Some(float_curve(&[(0.0, 0.0), (10.0, 1.0)])));

    cm.start_event_coroutine(bits(60.0), bits(0.0), &ctx, &mut holder, ev, &FloatMath);

    // halfway through first iteration
    cm.poll_events(bits(0.5), &ctx, &mut holder, &FloatMath);
    let v1 = dissolve_of(&holder, key).unwrap();
    assert!(
        (v1 - 5.0).abs() < 1e-3,
        "expected ~5.0 during first iteration, got {}",
        v1
    );

    // after first completes (slightly after 1.0) it should restart for second iteration
    cm.poll_events(bits(1.01), &ctx, &mut holder, &FloatMath);

    // during second iteration at 1.5 (0.5 into second), value should again be ~5.0
    cm.poll_events(bits(1.5), &ctx, &mut holder, &FloatMath);
    let v2 = dissolve_of(&holder, key).unwrap();
    assert!(
        (v2 - 5.0).abs() < 1e-2,
        "expected ~5.0 during second iteration, got {}",
        v2
    );
}

#[test]
fn tracks_context_roundtrip_and_coroutine() {
    let mut ctx = TracksContext::default();

    // Float definition
    let fp = FloatPointDefinition::new(vec![float_point(0.0, 0.0), float_point(10.0, 1.0)]);
    ctx.add_point_definition("pf".to_string(), Rc::new(BasePointDefinition::Float(fp)));

    // Vec3 definition
    let v3p = Vector3PointDefinition::new(vec![
        PointData::Vector3(Vector3PointData::new(
            Vector3Values::Static(vec3_bits(Vec3::new(0.0, 0.0, 0.0))),
            false,
            bits(0.0),
            vec![],
            Functions::EaseLinear,
        )),
        PointData::Vector3(Vector3PointData::new(
            Vector3Values::Static(vec3_bits(Vec3::new(3.0, 3.0, 3.0))),
            false,
            bits(1.0),
            vec![],
            Functions::EaseLinear,
        )),
    ]);
    ctx.add_point_definition(
        "pv3".to_string(),
        Rc::new(BasePointDefinition::Vector3(v3p)),
    );

    // Vec4 definition
    let v4p = Vector4PointDefinition::new(vec![
        PointData::Vector4(Vector4PointData::new(
            Vector4Values::Static(vec4_bits(Vec4::new(0.0, 0.0, 0.0, 0.0))),
            false,
            bits(0.0),
            vec![],
            Functions::EaseLinear,
        )),
        PointData::Vector4(Vector4PointData::new(
            Vector4Values::Static(vec4_bits(Vec4::new(4.0, 4.0, 4.0, 4.0))),
            false,
            bits(1.0),
            vec![],
            Functions::EaseLinear,
        )),
    ]);
    ctx.add_point_definition(
        "pv4".to_string(),
        Rc::new(BasePointDefinition::Vector4(v4p)),
    );

    // Quat definition
    let qp = QuaternionPointDefinition::new(vec![PointData::Quaternion(QuaternionPointData::new(
        QuaternionValues::Static(vec3_bits(Vec3::ZERO), quat_bits(Quat::IDENTITY)),
        bits(0.0),
        vec![],
        Functions::EaseLinear,
    ))]);
    ctx.add_point_definition(
        "pq".to_string(),
        Rc::new(BasePointDefinition::Quaternion(qp)),
    );

    // retrieve and sanity check
    assert!(ctx
        .get_point_definition("pf", WrapBaseValueType::Float)
        .is_some());
    assert!(ctx
        .get_point_definition("pv3", WrapBaseValueType::Vec3)
        .is_some());
    assert!(ctx
        .get_point_definition("pv4", WrapBaseValueType::Vec4)
        .is_some());
    assert!(ctx
        .get_point_definition("pq", WrapBaseValueType::Quat)
        .is_some());
    // a name is found under the kind of its curve only
    assert!(ctx
        .get_point_definition("pf", WrapBaseValueType::Vec3)
        .is_none());
    assert!(ctx.has_point_definition("pq", WrapBaseValueType::Quat));
    assert!(!ctx.has_point_definition("nothing", WrapBaseValueType::Quat));

    // Add a track and run a simple coroutine using the context's coroutine manager
    let mut t = Track::default();
    t.name = "ctx_track".to_string();
    let key = ctx.tracks.add_track(t);

    let pd = ctx
        .get_point_definition("pf", WrapBaseValueType::Float)
        .unwrap();

    let ev = dissolve_event(key, 1.0, 0, 0.0, Some(pd));

    ctx.coroutine_manager.start_event_coroutine(
        bits(60.0),
        bits(0.0),
        &ctx.base_providers,
        &mut ctx.tracks,
        ev,
        &FloatMath,
    );
    ctx.coroutine_manager
        .poll_events(bits(0.5), &ctx.base_providers, &mut ctx.tracks, &FloatMath);

    let track = ctx.tracks.get_track(key).unwrap();
    let v = num(track.properties.dissolve.get_value().unwrap().as_float().unwrap());
    assert!((v - 5.0).abs() < 1e-3, "expected ~5.0 got {}", v);
}

fn number(x: f32) -> JsonValue {
    JsonValue::Number(bits(x))
}

#[test]
fn tracks_context_json_parse() {
    let mut ctx = TracksContext::default();

    // simple JSON for float: [[0,0],[10,1]] wrapped as array
    let data = JsonValue::Array(vec![
        JsonValue::Array(vec![number(0.0), number(0.0)]),
        JsonValue::Array(vec![number(10.0), number(1.0)]),
    ]);
    let parsed: FloatPointDefinition =
        FloatPointDefinition::parse(&data, ctx.get_base_provider_context(), &FloatMath).unwrap();
    assert_eq!(parsed.get_count(), 2);

    ctx.add_point_definition(
        "jf".to_string(),
        Rc::new(BasePointDefinition::Float(parsed)),
    );
    assert!(ctx
        .get_point_definition("jf", WrapBaseValueType::Float)
        .is_some());
}

// Scenario: a simple value animation runs to its end and retires.
#[test]
fn simple_value_animation_runs_and_retires() {
    let mut cm = CoroutineManager::default();
    let ctx = BaseProviderContext::new();
    let mut holder = TracksHolder::new();
    let key = holder.add_track(track_named("A"));
    let ev = dissolve_event(key, 1.0, 0, 0.0, Some(float_curve(&[(0.0, 0.0), (10.0, 1.0)])));
    cm.start_event_coroutine(bits(60.0), bits(0.0), &ctx, &mut holder, ev, &FloatMath);
    assert_eq!(cm.coroutines.len(), 1);
    assert_eq!(num(cm.coroutines[0].duration_song_time), 1.0);

    cm.poll_events(bits(0.5), &ctx, &mut holder, &FloatMath);
    assert!((dissolve_of(&holder, key).unwrap() - 5.0).abs() < 1e-3);
    assert_eq!(cm.coroutines.len(), 1);

    cm.poll_events(bits(1.0), &ctx, &mut holder, &FloatMath);
    assert_eq!(dissolve_of(&holder, key), Some(10.0));
    assert!(cm.coroutines.is_empty());
}

// The duration of a run is sixty times the beats over the beats a minute.
#[test]
fn duration_is_sixty_times_beats_over_bpm() {
    let mut cm = CoroutineManager::default();
    let ctx = BaseProviderContext::new();
    let mut holder = TracksHolder::new();
    let key = holder.add_track(track_named("A"));
    let ev = dissolve_event(key, 4.0, 0, 0.0, Some(float_curve(&[(0.0, 0.0), (10.0, 1.0)])));
    cm.start_event_coroutine(bits(120.0), bits(0.0), &ctx, &mut holder, ev, &FloatMath);
    assert_eq!(num(cm.coroutines[0].duration_song_time), 2.0);
    // half of the two seconds have passed at 1.0
    cm.poll_events(bits(1.0), &ctx, &mut holder, &FloatMath);
    assert_eq!(dissolve_of(&holder, key), Some(5.0));
}

// Starting an event on a property cancels the task on that property: the
// tasks that are left keep their order, and the new task comes last.
#[test]
fn starting_an_event_cancels_the_task_on_its_property() {
    let mut cm = CoroutineManager::default();
    let ctx = BaseProviderContext::new();
    let mut holder = TracksHolder::new();
    let key_a = holder.add_track(track_named("A"));
    let key_b = holder.add_track(track_named("B"));
    let curve = || Some(float_curve(&[(0.0, 0.0), (10.0, 1.0)]));

    cm.start_event_coroutine(bits(60.0), bits(0.0), &ctx, &mut holder, dissolve_event(key_a, 1.0, 0, 0.0, curve()), &FloatMath);
    cm.start_event_coroutine(bits(60.0), bits(0.0), &ctx, &mut holder, dissolve_event(key_b, 2.0, 0, 0.0, curve()), &FloatMath);
    assert_eq!(cm.coroutines.len(), 2);
    assert!(cm.coroutines[0].track_key == key_a);

    // the older task on A wrote 0 at its first step
    assert_eq!(dissolve_of(&holder, key_a), Some(0.0));

    cm.start_event_coroutine(bits(60.0), bits(0.0), &ctx, &mut holder, dissolve_event(key_a, 3.0, 0, 0.0, Some(float_curve(&[(100.0, 0.0), (200.0, 1.0)]))), &FloatMath);
    assert_eq!(cm.coroutines.len(), 2);
    assert!(cm.coroutines[0].track_key == key_b);
    assert!(cm.coroutines[1].track_key == key_a);
    assert_eq!(num(cm.coroutines[1].duration_song_time), 3.0);
    // the new task took its first step
    assert_eq!(dissolve_of(&holder, key_a), Some(100.0));
}

// An event with k repeats runs k + 1 times: each run that ends makes the
// next one start where it ended.
#[test]
fn an_event_with_two_repeats_runs_three_times() {
    let mut cm = CoroutineManager::default();
    let ctx = BaseProviderContext::new();
    let mut holder = TracksHolder::new();
    let key = holder.add_track(track_named("A"));
    let ev = dissolve_event(key, 1.0, 2, 0.0, Some(float_curve(&[(0.0, 0.0), (10.0, 1.0)])));
    cm.start_event_coroutine(bits(60.0), bits(0.0), &ctx, &mut holder, ev, &FloatMath);
    assert_eq!(cm.coroutines[0].repeat, 2);

    cm.poll_events(bits(1.0), &ctx, &mut holder, &FloatMath);
    assert_eq!(cm.coroutines.len(), 1);
    assert_eq!(cm.coroutines[0].repeat, 1);
    assert_eq!(num(cm.coroutines[0].start_song_time), 1.0);

    cm.poll_events(bits(1.25), &ctx, &mut holder, &FloatMath);
    assert_eq!(dissolve_of(&holder, key), Some(2.5));

    cm.poll_events(bits(2.0), &ctx, &mut holder, &FloatMath);
    assert_eq!(cm.coroutines[0].repeat, 0);
    assert_eq!(num(cm.coroutines[0].start_song_time), 2.0);

    cm.poll_events(bits(2.5), &ctx, &mut holder, &FloatMath);
    assert_eq!(dissolve_of(&holder, key), Some(5.0));
    assert_eq!(cm.coroutines.len(), 1);

    cm.poll_events(bits(3.0), &ctx, &mut holder, &FloatMath);
    assert_eq!(dissolve_of(&holder, key), Some(10.0));
    assert!(cm.coroutines.is_empty());
}

// A curve that reads no channel retires its task once it is at its last
// keyframe, though its run has time left.
#[test]
fn a_fixed_curve_at_its_end_retires_early() {
    let mut cm = CoroutineManager::default();
    let ctx = BaseProviderContext::new();
    let mut holder = TracksHolder::new();
    let key = holder.add_track(track_named("A"));
    // the last keyframe stands at 0.5 of the run
    let ev = dissolve_event(key, 1.0, 0, 0.0, Some(float_curve(&[(0.0, 0.0), (10.0, 0.5)])));
    cm.start_event_coroutine(bits(60.0), bits(0.0), &ctx, &mut holder, ev, &FloatMath);
    assert_eq!(cm.coroutines.len(), 1);
    cm.poll_events(bits(0.25), &ctx, &mut holder, &FloatMath);
    assert_eq!(dissolve_of(&holder, key), Some(5.0));
    assert_eq!(cm.coroutines.len(), 1);
    cm.poll_events(bits(0.75), &ctx, &mut holder, &FloatMath);
    assert_eq!(dissolve_of(&holder, key), Some(10.0));
    assert!(cm.coroutines.is_empty());
}

fn live_curve() -> Rc<BasePointDefinition> {
    // one keyframe at time 0 that reads the energy of the player
    let point = PointData::Float(FloatPointData::new(
        FloatValues::Dynamic(vec![ValueProvider::BaseProvider(BaseProviderValues::new(
            "baseEnergy".to_string(),
        ))]),
        bits(0.0),
        vec![],
        Functions::EaseLinear,
    ));
    Rc::new(BasePointDefinition::Float(FloatPointDefinition::new(vec![
        point,
    ])))
}

// A curve that reads a channel keeps its task until its run has no time
// left, and follows the channel at every tick.
#[test]
fn a_live_curve_ticks_until_its_run_is_over() {
    let mut cm = CoroutineManager::default();
    let mut ctx = BaseProviderContext::new();
    ctx.set_values("baseEnergy", BaseValue::Float(bits(0.25)));
    let mut holder = TracksHolder::new();
    let key = holder.add_track(track_named("A"));
    let ev = dissolve_event(key, 1.0, 0, 0.0, Some(live_curve()));
    cm.start_event_coroutine(bits(60.0), bits(0.0), &ctx, &mut holder, ev, &FloatMath);
    assert_eq!(dissolve_of(&holder, key), Some(0.25));
    assert_eq!(cm.coroutines.len(), 1);

    ctx.set_values("baseEnergy", BaseValue::Float(bits(0.5)));
    cm.poll_events(bits(0.5), &ctx, &mut holder, &FloatMath);
    assert_eq!(dissolve_of(&holder, key), Some(0.5));
    assert_eq!(cm.coroutines.len(), 1);

    ctx.set_values("baseEnergy", BaseValue::Float(bits(0.75)));
    cm.poll_events(bits(1.0), &ctx, &mut holder, &FloatMath);
    assert_eq!(dissolve_of(&holder, key), Some(0.75));
    assert!(cm.coroutines.is_empty());
}

// An event whose last run ended before it is started keeps no task and
// leaves the value of its curve at one.
#[test]
fn a_past_event_collapses_to_its_last_value() {
    let mut cm = CoroutineManager::default();
    let ctx = BaseProviderContext::new();
    let mut holder = TracksHolder::new();
    let key = holder.add_track(track_named("A"));
    // start 1, two runs of 1: over at 3, started at 3.5
    let ev = dissolve_event(key, 1.0, 1, 1.0, Some(float_curve(&[(0.0, 0.0), (10.0, 1.0)])));
    cm.start_event_coroutine(bits(60.0), bits(3.5), &ctx, &mut holder, ev, &FloatMath);
    assert!(cm.coroutines.is_empty());
    assert_eq!(dissolve_of(&holder, key), Some(10.0));

    // started at 2.5 with one run more, the event is not over: the run that
    // its first step ends is taken off the runs that are left
    let ev = dissolve_event(key, 1.0, 2, 1.0, Some(float_curve(&[(0.0, 0.0), (10.0, 1.0)])));
    cm.start_event_coroutine(bits(60.0), bits(2.5), &ctx, &mut holder, ev, &FloatMath);
    assert_eq!(cm.coroutines.len(), 1);
    assert_eq!(cm.coroutines[0].repeat, 1);
}

// A task whose track is gone ends at the next tick and writes nothing.
#[test]
fn a_task_on_a_removed_track_is_dropped() {
    let mut cm = CoroutineManager::default();
    let ctx = BaseProviderContext::new();
    let mut holder = TracksHolder::new();
    let key_a = holder.add_track(track_named("A"));
    let key_b = holder.add_track(track_named("B"));
    let curve = || Some(float_curve(&[(0.0, 0.0), (10.0, 1.0)]));
    cm.start_event_coroutine(bits(60.0), bits(0.0), &ctx, &mut holder, dissolve_event(key_a, 1.0, 0, 0.0, curve()), &FloatMath);
    cm.start_event_coroutine(bits(60.0), bits(0.0), &ctx, &mut holder, dissolve_event(key_b, 1.0, 0, 0.0, curve()), &FloatMath);
    assert!(holder.remove_track(key_a).is_some());
    cm.poll_events(bits(0.5), &ctx, &mut holder, &FloatMath);
    assert_eq!(cm.coroutines.len(), 1);
    assert!(cm.coroutines[0].track_key == key_b);
    assert_eq!(dissolve_of(&holder, key_b), Some(5.0));
    // an event on the removed track changes nothing and keeps no task
    cm.start_event_coroutine(bits(60.0), bits(0.0), &ctx, &mut holder, dissolve_event(key_a, 1.0, 0, 0.0, curve()), &FloatMath);
    assert_eq!(cm.coroutines.len(), 1);
}

// An event with a curve of another kind than its property changes nothing.
#[test]
fn an_event_of_the_wrong_kind_is_passed_over() {
    let mut cm = CoroutineManager::default();
    let ctx = BaseProviderContext::new();
    let mut holder = TracksHolder::new();
    let key = holder.add_track(track_named("A"));
    let ev = EventData {
        raw_duration: bits(1.0),
        easing: Functions::EaseLinear,
        repeat: 0,
        start_song_time: bits(0.0),
        property: EventType::AnimateTrack(ValuePropertyHandle::new("position")),
        track_key: key,
        point_data: Some(float_curve(&[(0.0, 0.0), (10.0, 1.0)])),
    };
    cm.start_event_coroutine(bits(60.0), bits(0.0), &ctx, &mut holder, ev, &FloatMath);
    assert!(cm.coroutines.is_empty());
    assert!(holder.get_track(key).unwrap().properties.position.get_value().is_none());
}

// A path animation takes the curve, blends over to it, and drops the curve
// before it at the end.
#[test]
fn a_path_animation_blends_and_finishes() {
    let mut cm = CoroutineManager::default();
    let ctx = BaseProviderContext::new();
    let mut holder = TracksHolder::new();
    let key = holder.add_track(track_named("A"));
    let path_event = |curve: Rc<BasePointDefinition>, start: f32| EventData {
        raw_duration: bits(1.0),
        easing: Functions::EaseLinear,
        repeat: 0,
        start_song_time: bits(start),
        property: EventType::AssignPathAnimation(PathPropertyHandle::new("_dissolve")),
        track_key: key,
        point_data: Some(curve),
    };
    cm.start_event_coroutine(bits(60.0), bits(0.0), &ctx, &mut holder, path_event(float_curve(&[(0.0, 0.0), (10.0, 1.0)]), 0.0), &FloatMath);
    cm.poll_events(bits(1.0), &ctx, &mut holder, &FloatMath);
    assert!(cm.coroutines.is_empty());
    {
        let path = &holder.get_track(key).unwrap().path_properties.dissolve;
        assert!(path.prev_point.is_none());
        assert!(path.point.is_some());
        assert_eq!(num(path.time), 1.0);
    }

    cm.start_event_coroutine(bits(60.0), bits(2.0), &ctx, &mut holder, path_event(float_curve(&[(10.0, 0.0), (20.0, 1.0)]), 2.0), &FloatMath);
    assert_eq!(cm.coroutines.len(), 1);
    cm.poll_events(bits(2.5), &ctx, &mut holder, &FloatMath);
    {
        let path = &holder.get_track(key).unwrap().path_properties.dissolve;
        assert!(path.prev_point.is_some());
        assert_eq!(num(path.time), 0.5);
        // the path at 0.25: 2.5 on the curve before, 12.5 on the current one
        let v = path.interpolate(bits(0.25), &ctx, &FloatMath).unwrap();
        assert_eq!(num(v.as_float().unwrap()), 7.5);
    }
    cm.poll_events(bits(3.0), &ctx, &mut holder, &FloatMath);
    assert!(cm.coroutines.is_empty());
    assert!(holder.get_track(key).unwrap().path_properties.dissolve.prev_point.is_none());

    // an event without a curve empties the path
    let cleared = EventData {
        raw_duration: bits(1.0),
        easing: Functions::EaseLinear,
        repeat: 0,
        start_song_time: bits(3.0),
        property: EventType::AssignPathAnimation(PathPropertyHandle::new("dissolve")),
        track_key: key,
        point_data: None,
    };
    cm.start_event_coroutine(bits(60.0), bits(3.0), &ctx, &mut holder, cleared, &FloatMath);
    let path = &holder.get_track(key).unwrap().path_properties.dissolve;
    assert!(path.point.is_none());
    assert!(path.prev_point.is_some());
}

// One step of a task says `Yield` while the run has time left.
#[test]
fn a_step_yields_while_time_is_left() {
    let ctx = BaseProviderContext::new();
    let mut holder = TracksHolder::new();
    let key = holder.add_track(track_named("A"));
    let mut cm = CoroutineManager::default();
    let ev = dissolve_event(key, 1.0, 0, 0.0, Some(float_curve(&[(0.0, 0.0), (10.0, 1.0)])));
    cm.start_event_coroutine(bits(60.0), bits(0.0), &ctx, &mut holder, ev, &FloatMath);
    let mut task = cm.coroutines.pop().unwrap();
    let r = CoroutineManager::poll_event(bits(0.5), &ctx, &mut task, &mut holder, &FloatMath);
    assert!(r == CoroutineResult::Yield);
    let r = CoroutineManager::poll_event(bits(1.5), &ctx, &mut task, &mut holder, &FloatMath);
    assert!(r == CoroutineResult::Break);
}
