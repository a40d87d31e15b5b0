//! Reading curves from the tree in which a host hands them over.
//!
//! A written keyframe is a list. Its numbers, and its texts that start
//! with `base` and name channels, are its values; its other texts are its
//! flags; its lists are its modifiers, written like keyframes. The last
//! of the values of a keyframe is its time.
use crate::base_provider_context::{
    channel_index, channel_kind, find_channel, is_channel, is_provider_of, provider_for_channel,
    BaseProviderContext,
};
use crate::easings::functions::Functions;
use crate::ffi::json::JsonValue;
use crate::ffi::types::WrapBaseValueType;
use crate::ieee::{Scalar, ZERO};
use crate::modifiers::float_modifier::FloatModifier;
use crate::modifiers::operation::Operation;
use crate::modifiers::quaternion_modifier::{QuaternionModifier, QuaternionValues};
use crate::modifiers::vector3_modifier::Vector3Modifier;
use crate::modifiers::vector4_modifier::Vector4Modifier;
use crate::modifiers::{
    all_wf, count_numbers, gather, gathers, total_width, Modifier, ModifierValues,
};
use crate::numerics::{is_quat_of, Numerics};
use crate::point_data::float_point_data::FloatPointData;
use crate::point_data::quaternion_point_data::QuaternionPointData;
use crate::point_data::vector3_point_data::Vector3PointData;
use crate::point_data::vector4_point_data::Vector4PointData;
use crate::point_data::PointData;
use crate::point_definition::{all_of_kind, GroupType};
use crate::text::{has_prefix, head_before_dot, is_head, lemma_head_unique, same, starts_with};
use crate::values::static_values::StaticValues;
use crate::values::ValueProvider;
use vstd::prelude::*;

verus! {

/// Why a tree is not a curve.
#[derive(Clone, Copy, PartialEq, Eq, Structural, Debug)]
pub enum ParseError {
    /// A text among the values names no channel.
    UnknownChannel,
    /// The values of a keyframe or of a modifier are not as many as its
    /// kind asks for.
    Arity,
    /// The tree is not a list of keyframes, or a modifier lacks its values
    /// or its operation.
    Malformed,
}

/// The group of a node within a written keyframe.
pub open spec fn group_of(v: JsonValue) -> GroupType {
    match v {
        JsonValue::String(s) => if has_prefix(s@, "base"@) {
            GroupType::Value
        } else {
            GroupType::Flag
        },
        JsonValue::Array(_) => GroupType::Modifier,
        _ => GroupType::Value,
    }
}

/// The group of a node within a written keyframe.
pub fn group(v: &JsonValue) -> (r: GroupType)
    ensures
        r == group_of(*v),
{
    match v {
        JsonValue::String(s) => if starts_with(s.as_str(), "base") {
            GroupType::Value
        } else {
            GroupType::Flag
        },
        JsonValue::Array(_) => GroupType::Modifier,
        _ => GroupType::Value,
    }
}

/// The nodes that the references of `refs` point to.
pub open spec fn pointed(refs: Seq<&JsonValue>) -> Seq<JsonValue> {
    Seq::new(refs.len(), |i: int| *refs[i])
}

/// The nodes of `items` of the group `g`, in their order.
pub open spec fn in_group(items: Seq<JsonValue>, g: GroupType) -> Seq<JsonValue> {
    items.filter(|v: JsonValue| group_of(v) == g)
}

/// The nodes of `items` of the group `g`, in their order.
pub fn pick_group<'a>(items: &'a Vec<JsonValue>, g: GroupType) -> (r: Vec<&'a JsonValue>)
    ensures
        pointed(r@) == in_group(items@, g),
{
    let ghost keep = |v: JsonValue| group_of(v) == g;
    let mut r: Vec<&'a JsonValue> = Vec::new();
    let mut i: usize = 0;
    while i < items.len()
        invariant
            i <= items@.len(),
            keep == (|v: JsonValue| group_of(v) == g),
            pointed(r@) == items@.take(i as int).filter(keep),
        decreases items@.len() - i,
    {
        let item = &items[i];
        let ghost before = pointed(r@);
        proof {
            items@.take(i as int).lemma_filter_push(*item, keep);
            assert(items@.take(i + 1) == items@.take(i as int).push(*item));
        }
        if group(item) == g {
            r.push(item);
            assert(pointed(r@) =~= before.push(*item));
        }
        i = i + 1;
    }
    assert(items@.take(i as int) == items@);
    r
}

/// The groups of the nodes of a written keyframe: for each group that has
/// nodes, in the order values, flags, modifiers, the group with its nodes
/// in their order. A node that is no list has no groups.
pub fn group_values(value: &JsonValue) -> (r: Vec<(GroupType, Vec<&JsonValue>)>)
    ensures
        match *value {
            JsonValue::Array(items) => {
                &&& forall|i: int|
                    0 <= i < r@.len() ==> pointed((#[trigger] r@[i]).1@) == in_group(
                        items@,
                        r@[i].0,
                    ) && r@[i].1@.len() > 0
                &&& forall|i: int, j: int|
                    0 <= i < j < r@.len() ==> group_rank((#[trigger] r@[i]).0) < group_rank(
                        (#[trigger] r@[j]).0,
                    )
                &&& forall|g: GroupType|
                    in_group(items@, g).len() > 0 ==> exists|i: int|
                        0 <= i < r@.len() && (#[trigger] r@[i]).0 == g
            },
            _ => r@.len() == 0,
        },
{
    let mut r: Vec<(GroupType, Vec<&JsonValue>)> = Vec::new();
    match value {
        JsonValue::Array(items) => {
            let values = pick_group(items, GroupType::Value);
            if values.len() > 0 {
                r.push((GroupType::Value, values));
            }
            let flags = pick_group(items, GroupType::Flag);
            if flags.len() > 0 {
                r.push((GroupType::Flag, flags));
            }
            let modifiers = pick_group(items, GroupType::Modifier);
            if modifiers.len() > 0 {
                r.push((GroupType::Modifier, modifiers));
            }
            proof {
                assert forall|g: GroupType| in_group(items@, g).len() > 0 implies exists|i: int|
                    0 <= i < r@.len() && (#[trigger] r@[i]).0 == g by {
                    match g {
                        GroupType::Value => {
                            assert(r@[0].0 == g);
                        },
                        GroupType::Flag => {
                            if r@[0].0 == g {
                            } else {
                                assert(r@[1].0 == g);
                            }
                        },
                        GroupType::Modifier => {
                            assert(r@[r@.len() - 1].0 == g);
                        },
                    }
                }
            }
        },
        _ => {},
    }
    r
}

/// The place of a group in the order values, flags, modifiers.
pub open spec fn group_rank(g: GroupType) -> int {
    match g {
        GroupType::Value => 0,
        GroupType::Flag => 1,
        GroupType::Modifier => 2,
    }
}

/// What a stretch of written values stands for: a run of numbers, or the
/// name of a channel.
pub enum Source {
    Numbers(Seq<Scalar>),
    Channel(Seq<char>),
}

/// What has been read of a list of written values: the sources that are
/// complete, the numbers of the run that is open, and how many nodes the
/// open run has.
pub struct Reading {
    pub sources: Seq<Source>,
    pub pending: Seq<Scalar>,
    pub run: nat,
}

/// The sources of a reading once its open run is closed: a run of at
/// least one node makes a source of its numbers, even where it has none.
pub open spec fn closed(r: Reading) -> Seq<Source> {
    if r.run > 0 {
        r.sources.push(Source::Numbers(r.pending))
    } else {
        r.sources
    }
}

/// What the first `upto` of `values` read as. A text ends the open run
/// and names a channel; a number joins the open run; every other node
/// joins it without a number.
pub open spec fn reading(values: Seq<JsonValue>, upto: nat) -> Reading
    decreases upto,
{
    if upto == 0 || upto > values.len() {
        Reading { sources: Seq::empty(), pending: Seq::empty(), run: 0 }
    } else {
        let before = reading(values, (upto - 1) as nat);
        match values[upto - 1] {
            JsonValue::String(s) => Reading {
                sources: closed(before).push(Source::Channel(s@)),
                pending: Seq::empty(),
                run: 0,
            },
            JsonValue::Number(x) => Reading {
                sources: before.sources,
                pending: before.pending.push(x),
                run: before.run + 1,
            },
            _ => Reading { sources: before.sources, pending: before.pending, run: before.run + 1 },
        }
    }
}

/// The sources that a list of written values stands for.
pub open spec fn sources_of(values: Seq<JsonValue>) -> Seq<Source> {
    closed(reading(values, values.len()))
}

/// Whether the provider `p` is the one that stands for the source `s`: a
/// provider of the fixed numbers of a run, or the provider of the channel
/// that a text names before its first `.`.
pub open spec fn is_source(p: ValueProvider, s: Source) -> bool {
    match s {
        Source::Numbers(numbers) => p matches ValueProvider::Static(v) && v@ == numbers,
        Source::Channel(name) => reads_channel(p, name),
    }
}

/// Whether `p` is the provider of the channel that `name` names before
/// its first `.`.
pub open spec fn reads_channel(p: ValueProvider, name: Seq<char>) -> bool {
    exists|head: Seq<char>|
        #![trigger is_head(name, head)]
        is_head(name, head) && is_channel(head) && is_provider_of(p, head)
}

/// Whether `name` names, before its first `.`, a channel that does not
/// exist.
pub open spec fn names_no_channel(name: Seq<char>) -> bool {
    exists|head: Seq<char>| #![trigger is_head(name, head)] is_head(name, head) && !is_channel(head)
}

/// Whether the source `s` names a channel that does not exist.
pub open spec fn is_unknown(s: Source) -> bool {
    match s {
        Source::Numbers(_) => false,
        Source::Channel(name) => names_no_channel(name),
    }
}

/// `providers` are the providers that stand for `sources`, one for one.
pub open spec fn are_sources(providers: Seq<ValueProvider>, sources: Seq<Source>) -> bool {
    &&& providers.len() == sources.len()
    &&& forall|i: int| 0 <= i < sources.len() ==> is_source(#[trigger] providers[i], sources[i])
}

/// A provider that stands for a source can be asked.
pub proof fn lemma_source_wf(p: ValueProvider, s: Source)
    requires
        is_source(p, s),
    ensures
        p.wf(),
{
    reveal_with_fuel(ValueProvider::wf, 2);
    reveal_with_fuel(ValueProvider::width, 2);
}

fn close_run(result: &mut Vec<ValueProvider>, pending: &Vec<Scalar>, run: usize)
    ensures
        final(result)@ == (if run > 0 {
            old(result)@.push(final(result)@.last())
        } else {
            old(result)@
        }),
        run > 0 ==> final(result)@.len() == old(result)@.len() + 1 && is_source(
            final(result)@.last(),
            Source::Numbers(pending@),
        ),
{
    if run > 0 {
        result.push(ValueProvider::Static(StaticValues::new(pending.as_slice())));
    }
}

/// The providers that a list of written values stands for: one of fixed
/// numbers for every run of nodes between texts, and one for every text,
/// which names a channel. Fails, with `UnknownChannel`, exactly where a
/// text names no channel.
pub fn deserialize_values(value: &Vec<&JsonValue>, _context: &BaseProviderContext) -> (r: Result<
    Vec<ValueProvider>,
    ParseError,
>)
    ensures
        match r {
            Ok(providers) => are_sources(providers@, sources_of(pointed(value@))) && !has_unknown(
                pointed(value@),
            ),
            Err(e) => e == ParseError::UnknownChannel && has_unknown(pointed(value@)),
        },
{
    let r = read_values(value);
    proof {
        if r is Ok {
            let providers = r->Ok_0@;
            let sources = sources_of(pointed(value@));
            assert forall|i: int| 0 <= i < sources.len() implies !is_unknown(
                #[trigger] sources[i],
            ) by {
                assert(is_source(providers[i], sources[i]));
                match sources[i] {
                    Source::Numbers(_) => {},
                    Source::Channel(name) => {
                        if names_no_channel(name) {
                            let bad = choose|h: Seq<char>|
                                #![trigger is_head(name, h)]
                                is_head(name, h) && !is_channel(h);
                            let good = choose|h: Seq<char>|
                                #![trigger is_head(name, h)]
                                is_head(name, h) && is_channel(h) && is_provider_of(
                                    providers[i],
                                    h,
                                );
                            lemma_head_unique(name, bad, good);
                        }
                    },
                }
            }
        }
    }
    r
}

fn read_values(value: &Vec<&JsonValue>) -> (r: Result<Vec<ValueProvider>, ParseError>)
    ensures
        match r {
            Ok(providers) => are_sources(providers@, sources_of(pointed(value@))),
            Err(e) => e == ParseError::UnknownChannel && exists|i: int|
                0 <= i < sources_of(pointed(value@)).len() && is_unknown(
                    #[trigger] sources_of(pointed(value@))[i],
                ),
        },
{
    let ghost values = pointed(value@);
    let mut result: Vec<ValueProvider> = Vec::new();
    let mut pending: Vec<Scalar> = Vec::new();
    let mut run: usize = 0;
    let mut i: usize = 0;
    while i < value.len()
        invariant
            i <= value@.len(),
            values == pointed(value@),
            run <= i,
            run == reading(values, i as nat).run,
            pending@ == reading(values, i as nat).pending,
            are_sources(result@, reading(values, i as nat).sources),
        decreases value@.len() - i,
    {
        let ghost before = reading(values, i as nat);
        assert(values[i as int] == *value@[i as int]);
        match value[i] {
            JsonValue::String(s) => {
                close_run(&mut result, &pending, run);
                pending = Vec::new();
                run = 0;
                let head = head_before_dot(s.as_str());
                if find_channel(head).is_none() {
                    proof {
                        let at_end = reading(values, (i + 1) as nat);
                        lemma_sources_grow(values, (i + 1) as nat, values.len());
                        let k = at_end.sources.len() - 1;
                        assert(is_head(s@, head@));
                        assert(sources_of(values)[k] == at_end.sources[k]);
                    }
                    return Err(ParseError::UnknownChannel);
                }
                let provider = provider_for_channel(head);
                assert(is_head(s@, head@));
                result.push(provider);
            },
            JsonValue::Number(x) => {
                pending.push(*x);
                run = run + 1;
            },
            _ => {
                run = run + 1;
            },
        }
        i = i + 1;
    }
    close_run(&mut result, &pending, run);
    Ok(result)
}

/// Reading on keeps the sources that are complete: the closed sources of
/// the first `few` nodes stand at the start of those of the first `many`.
pub proof fn lemma_sources_grow(values: Seq<JsonValue>, few: nat, many: nat)
    requires
        few <= many <= values.len(),
    ensures
        reading(values, few).sources.len() <= closed(reading(values, many)).len(),
        forall|k: int|
            0 <= k < reading(values, few).sources.len() ==> closed(reading(values, many))[k]
                == #[trigger] reading(values, few).sources[k],
    decreases many - few,
{
    if few < many {
        lemma_sources_grow(values, few + 1, many);
        let next = reading(values, few + 1);
        let here = reading(values, few);
        assert(here.sources.len() <= next.sources.len());
        assert forall|k: int| 0 <= k < here.sources.len() implies closed(reading(values, many))[k]
            == #[trigger] here.sources[k] by {
            assert(next.sources[k] == here.sources[k]);
        }
    }
}

/// Whether `values` is one provider of exactly `count` fixed numbers.
pub open spec fn is_static_of(values: Seq<ValueProvider>, count: nat) -> bool {
    values.len() == 1 && (values[0] matches ValueProvider::Static(v) && v@.len() == count)
}

/// The fixed numbers of the one provider of `values`.
pub open spec fn static_of(values: Seq<ValueProvider>) -> Seq<Scalar> {
    values[0]->Static_0@
}

/// Every modifier of `modifiers` is of kind `kind` and can be evaluated.
pub open spec fn all_modifiers(modifiers: Seq<Modifier>, kind: WrapBaseValueType) -> bool {
    forall|i: int|
        0 <= i < modifiers.len() ==> (#[trigger] modifiers[i]).kind() == kind && modifiers[i].wf()
}

/// A fixed rotation of `m` is the rotation that `n` gives for its fixed
/// angles.
pub open spec fn rotation_fits<N: Numerics>(n: &N, m: Modifier) -> bool {
    match m {
        Modifier::Quaternion(q) => match q.values {
            QuaternionValues::Static(angles, rotation) => is_quat_of(n, angles, rotation),
            _ => true,
        },
        _ => true,
    }
}

/// `m` is the modifier of kind `kind` that is made of `values`,
/// `modifiers` and `operation`: it starts from the fixed numbers of
/// `values` where `values` is one provider of exactly as many fixed
/// numbers as the kind is built from, and from the providers `values`
/// else.
pub open spec fn made_modifier<N: Numerics>(
    n: &N,
    kind: WrapBaseValueType,
    values: Seq<ValueProvider>,
    modifiers: Seq<Modifier>,
    operation: Operation,
    m: Modifier,
) -> bool {
    &&& m.kind() == kind
    &&& m.children() == modifiers
    &&& m.operation() == operation
    &&& m.wf()
    &&& rotation_fits(n, m)
    &&& if is_static_of(values, kind.arity()) {
        m.fixed() == Some(static_of(values))
    } else {
        m.fixed() is None && m.providers() == values
    }
}

/// How many numbers a modifier of kind `kind` is built from.
pub fn arity_of(kind: WrapBaseValueType) -> (r: usize)
    ensures
        r == kind.arity(),
{
    match kind {
        WrapBaseValueType::Unknown => 0,
        WrapBaseValueType::Vec3 => 3,
        WrapBaseValueType::Quat => 3,
        WrapBaseValueType::Vec4 => 4,
        WrapBaseValueType::Float => 1,
    }
}

/// The fixed numbers of `values`, where `values` is one provider of
/// exactly `count` fixed numbers.
pub fn fixed_numbers(values: &Vec<ValueProvider>, count: usize) -> (r: Option<Vec<Scalar>>)
    ensures
        match r {
            Some(numbers) => is_static_of(values@, count as nat) && numbers@ == static_of(values@),
            None => !is_static_of(values@, count as nat),
        },
{
    if values.len() != 1 {
        return None;
    }
    match &values[0] {
        ValueProvider::Static(v) => {
            if v.len() == count {
                Some(v.values())
            } else {
                None
            }
        },
        _ => None,
    }
}

/// The modifier that starts from `start`, a start of kind `kind` given as
/// fixed numbers or as providers.
fn build_modifier<N: Numerics>(
    kind: WrapBaseValueType,
    fixed: Option<Vec<Scalar>>,
    values: Vec<ValueProvider>,
    modifiers: Vec<Modifier>,
    operation: Operation,
    n: &N,
) -> (m: Modifier)
    requires
        kind != WrapBaseValueType::Unknown,
        all_modifiers(modifiers@, kind),
        match fixed {
            Some(numbers) => numbers@.len() == kind.arity(),
            None => all_wf(values@) && total_width(values@, values@.len()) >= kind.arity(),
        },
    ensures
        m.kind() == kind,
        m.children() == modifiers@,
        m.operation() == operation,
        m.wf(),
        rotation_fits(n, m),
        match fixed {
            Some(numbers) => m.fixed() == Some(numbers@),
            None => m.fixed() is None && m.providers() == values@,
        },
{
    match kind {
        WrapBaseValueType::Float => {
            let point = match fixed {
                Some(numbers) => {
                    assert(numbers@ =~= seq![numbers@[0]]);
                    ModifierValues::Static(numbers[0])
                },
                None => ModifierValues::Dynamic(values),
            };
            Modifier::Float(FloatModifier::new(point, modifiers, operation))
        },
        WrapBaseValueType::Vec3 => {
            let point = match fixed {
                Some(numbers) => {
                    let v = [numbers[0], numbers[1], numbers[2]];
                    assert(numbers@ =~= v@);
                    ModifierValues::Static(v)
                },
                None => ModifierValues::Dynamic(values),
            };
            Modifier::Vector3(Vector3Modifier::new(point, modifiers, operation))
        },
        WrapBaseValueType::Vec4 => {
            let point = match fixed {
                Some(numbers) => {
                    let v = [numbers[0], numbers[1], numbers[2], numbers[3]];
                    assert(numbers@ =~= v@);
                    ModifierValues::Static(v)
                },
                None => ModifierValues::Dynamic(values),
            };
            Modifier::Vector4(Vector4Modifier::new(point, modifiers, operation))
        },
        _ => {
            let point = match fixed {
                Some(numbers) => {
                    let angles = [numbers[0], numbers[1], numbers[2]];
                    assert(numbers@ =~= angles@);
                    let rotation = n.euler_to_quat(angles);
                    QuaternionValues::Static(angles, rotation)
                },
                None => QuaternionValues::Dynamic(values),
            };
            Modifier::Quaternion(QuaternionModifier::new(point, modifiers, operation))
        },
    }
}

/// The modifier of kind `kind` that is made of `values`, `modifiers` and
/// `operation`. Fails where `values` give another count of numbers than
/// the kind is built from.
pub fn create_modifier<N: Numerics>(
    kind: WrapBaseValueType,
    values: Vec<ValueProvider>,
    modifiers: Vec<Modifier>,
    operation: Operation,
    n: &N,
) -> (r: Result<Modifier, ParseError>)
    requires
        kind != WrapBaseValueType::Unknown,
        all_wf(values@),
        all_modifiers(modifiers@, kind),
    ensures
        match r {
            Ok(m) => made_modifier(n, kind, values@, modifiers@, operation, m),
            Err(e) => e == ParseError::Arity && !is_static_of(values@, kind.arity())
                && total_width(values@, values@.len()) != kind.arity(),
        },
        r is Ok <==> is_static_of(values@, kind.arity()) || total_width(values@, values@.len())
            == kind.arity(),
{
    let arity = arity_of(kind);
    let fixed = fixed_numbers(&values, arity);
    if fixed.is_none() {
        match count_numbers(&values) {
            Some(count) => {
                if count != arity {
                    return Err(ParseError::Arity);
                }
            },
            None => {
                return Err(ParseError::Arity);
            },
        }
    }
    Ok(build_modifier(kind, fixed, values, modifiers, operation, n))
}

/// The texts of `flags`.
pub open spec fn texts(flags: Seq<String>) -> Seq<Seq<char>> {
    Seq::new(flags.len(), |i: int| flags[i]@)
}

/// Whether `name` is among `flags`.
pub open spec fn has_flag(flags: Seq<Seq<char>>, name: Seq<char>) -> bool {
    exists|i: int| 0 <= i < flags.len() && #[trigger] flags[i] == name
}

/// Whether `name` is among `flags`.
pub fn find_flag(flags: &Vec<String>, name: &str) -> (r: bool)
    ensures
        r == has_flag(texts(flags@), name@),
{
    let mut i: usize = 0;
    while i < flags.len()
        invariant
            i <= flags@.len(),
            forall|j: int| 0 <= j < i ==> (#[trigger] texts(flags@)[j]) != name@,
        decreases flags@.len() - i,
    {
        if same(flags[i].as_str(), name) {
            assert(texts(flags@)[i as int] == name@);
            return true;
        }
        i = i + 1;
    }
    false
}

/// `time` is the time of a keyframe of kind `kind` whose values are the
/// providers `values`: where they give one number more than the kind is
/// built from, the last number that `n` gives for them; else zero.
pub open spec fn is_time_of<N: Numerics>(
    n: &N,
    context: &BaseProviderContext,
    kind: WrapBaseValueType,
    values: Seq<ValueProvider>,
    time: Scalar,
) -> bool {
    if total_width(values, values.len()) == kind.arity() + 1 {
        exists|all: Seq<Scalar>|
            #![trigger all.last()]
            gathers(n, context, values, values.len(), all) && time == all.last()
    } else {
        time == ZERO
    }
}

/// `p` is the keyframe of kind `kind` that is made of `values`, `flags`,
/// `modifiers` and `easing`.
/// - Where `values` is one provider of exactly one fixed number more than
///   the kind is built from, the last number is the time of the keyframe
///   and the others are what its value starts from.
/// - Else the value starts from the providers `values`, and the time is
///   the last number that they give, or zero where they give no number
///   more than the kind is built from.
/// - A keyframe of 3-vectors is a spline where `splineCatmullRom` is among
///   its flags; a keyframe of 4-vectors blends by hue where `lerpHSV` is.
pub open spec fn made_point<N: Numerics>(
    n: &N,
    context: &BaseProviderContext,
    kind: WrapBaseValueType,
    values: Seq<ValueProvider>,
    flags: Seq<Seq<char>>,
    modifiers: Seq<Modifier>,
    easing: Functions,
    p: PointData,
) -> bool {
    &&& p.kind() == kind
    &&& p.wf()
    &&& p.easing() == easing
    &&& p.modifier().children() == modifiers
    &&& p.modifier().operation() == Operation::Replace
    &&& rotation_fits(n, p.modifier())
    &&& p.is_smooth() == (kind == WrapBaseValueType::Vec3 && has_flag(flags, "splineCatmullRom"@))
    &&& p.is_hsv() == (kind == WrapBaseValueType::Vec4 && has_flag(flags, "lerpHSV"@))
    &&& if is_static_of(values, kind.arity() + 1) {
        &&& p.modifier().fixed() == Some(static_of(values).take(kind.arity() as int))
        &&& p.time() == static_of(values)[kind.arity() as int]
    } else {
        &&& p.modifier().fixed() is None
        &&& p.modifier().providers() == values
        &&& is_time_of(n, context, kind, values, p.time())
    }
}

fn build_point<N: Numerics>(
    kind: WrapBaseValueType,
    fixed: Option<Vec<Scalar>>,
    values: Vec<ValueProvider>,
    smooth: bool,
    hsv_lerp: bool,
    time: Scalar,
    modifiers: Vec<Modifier>,
    easing: Functions,
    n: &N,
) -> (p: PointData)
    requires
        kind != WrapBaseValueType::Unknown,
        all_modifiers(modifiers@, kind),
        match fixed {
            Some(numbers) => numbers@.len() == kind.arity(),
            None => all_wf(values@) && total_width(values@, values@.len()) >= kind.arity(),
        },
    ensures
        p.kind() == kind,
        p.wf(),
        p.easing() == easing,
        p.time() == time,
        p.modifier().children() == modifiers@,
        p.modifier().operation() == Operation::Replace,
        rotation_fits(n, p.modifier()),
        p.is_smooth() == (kind == WrapBaseValueType::Vec3 && smooth),
        p.is_hsv() == (kind == WrapBaseValueType::Vec4 && hsv_lerp),
        match fixed {
            Some(numbers) => p.modifier().fixed() == Some(numbers@),
            None => p.modifier().fixed() is None && p.modifier().providers() == values@,
        },
{
    match kind {
        WrapBaseValueType::Float => {
            let point = match fixed {
                Some(numbers) => {
                    assert(numbers@ =~= seq![numbers@[0]]);
                    ModifierValues::Static(numbers[0])
                },
                None => ModifierValues::Dynamic(values),
            };
            PointData::Float(FloatPointData::new(point, time, modifiers, easing))
        },
        WrapBaseValueType::Vec3 => {
            let point = match fixed {
                Some(numbers) => {
                    let v = [numbers[0], numbers[1], numbers[2]];
                    assert(numbers@ =~= v@);
                    ModifierValues::Static(v)
                },
                None => ModifierValues::Dynamic(values),
            };
            PointData::Vector3(Vector3PointData::new(point, smooth, time, modifiers, easing))
        },
        WrapBaseValueType::Vec4 => {
            let point = match fixed {
                Some(numbers) => {
                    let v = [numbers[0], numbers[1], numbers[2], numbers[3]];
                    assert(numbers@ =~= v@);
                    ModifierValues::Static(v)
                },
                None => ModifierValues::Dynamic(values),
            };
            PointData::Vector4(Vector4PointData::new(point, hsv_lerp, time, modifiers, easing))
        },
        _ => {
            let point = match fixed {
                Some(numbers) => {
                    let angles = [numbers[0], numbers[1], numbers[2]];
                    assert(numbers@ =~= angles@);
                    let rotation = n.euler_to_quat(angles);
                    QuaternionValues::Static(angles, rotation)
                },
                None => QuaternionValues::Dynamic(values),
            };
            PointData::Quaternion(QuaternionPointData::new(point, time, modifiers, easing))
        },
    }
}

/// The keyframe of kind `kind` that is made of `values`, `flags`,
/// `modifiers` and `easing`. Fails where `values` give neither as many
/// numbers as the kind is built from nor one more.
pub fn create_point_data<N: Numerics>(
    kind: WrapBaseValueType,
    values: Vec<ValueProvider>,
    flags: Vec<String>,
    modifiers: Vec<Modifier>,
    easing: Functions,
    context: &BaseProviderContext,
    n: &N,
) -> (r: Result<PointData, ParseError>)
    requires
        kind != WrapBaseValueType::Unknown,
        all_wf(values@),
        all_modifiers(modifiers@, kind),
        context.wf(),
    ensures
        match r {
            Ok(p) => made_point(n, context, kind, values@, texts(flags@), modifiers@, easing, p),
            Err(e) => e == ParseError::Arity,
        },
        r is Ok <==> is_static_of(values@, kind.arity() + 1) || total_width(values@, values@.len())
            == kind.arity() || total_width(values@, values@.len()) == kind.arity() + 1,
{
    let arity = arity_of(kind);
    let smooth = find_flag(&flags, "splineCatmullRom");
    let hsv_lerp = find_flag(&flags, "lerpHSV");
    match fixed_numbers(&values, arity + 1) {
        Some(numbers) => {
            let mut numbers = numbers;
            let ghost whole = numbers@;
            let time = numbers[arity];
            numbers.truncate(arity);
            assert(numbers@ == whole.take(arity as int));
            Ok(
                build_point(
                    kind,
                    Some(numbers),
                    values,
                    smooth,
                    hsv_lerp,
                    time,
                    modifiers,
                    easing,
                    n,
                ),
            )
        },
        None => {
            let time = match count_numbers(&values) {
                Some(count) => {
                    if count == arity + 1 {
                        let all = gather(&values, context, n);
                        let time = all[arity];
                        assert(time == all@.last());
                        time
                    } else if count == arity {
                        ZERO
                    } else {
                        return Err(ParseError::Arity);
                    }
                },
                None => {
                    return Err(ParseError::Arity);
                },
            };
            Ok(build_point(kind, None, values, smooth, hsv_lerp, time, modifiers, easing, n))
        },
    }
}

/// How many numbers the provider of the channel that `name` names before
/// its first `.` gives: three angles for a rotation, and else as many as
/// the kind of the channel holds.
pub open spec fn channel_width(name: Seq<char>) -> nat {
    let head = choose|h: Seq<char>| is_head(name, h);
    match channel_kind(channel_index(head).unwrap()) {
        WrapBaseValueType::Quat => 3,
        kind => kind.width(),
    }
}

/// How many numbers the provider that stands for the source `s` gives.
pub open spec fn source_width(s: Source) -> nat {
    match s {
        Source::Numbers(numbers) => numbers.len(),
        Source::Channel(name) => channel_width(name),
    }
}

/// How many numbers the providers that stand for the first `count` of
/// `sources` give together.
pub open spec fn sources_width(sources: Seq<Source>, count: nat) -> nat
    decreases count,
{
    if count == 0 || count > sources.len() {
        0
    } else {
        sources_width(sources, (count - 1) as nat) + source_width(sources[count - 1])
    }
}

/// Whether `sources` is one run of exactly `count` numbers.
pub open spec fn static_like(sources: Seq<Source>, count: nat) -> bool {
    sources.len() == 1 && (sources[0] matches Source::Numbers(numbers) && numbers.len() == count)
}

/// Whether a text among `values` names no channel.
pub open spec fn has_unknown(values: Seq<JsonValue>) -> bool {
    exists|i: int|
        0 <= i < sources_of(values).len() && is_unknown(#[trigger] sources_of(values)[i])
}

/// Providers that stand for sources give as many numbers as the sources
/// say, and are one provider of fixed numbers exactly where the sources
/// are one run of numbers.
pub proof fn lemma_widths(providers: Seq<ValueProvider>, sources: Seq<Source>, count: nat)
    requires
        are_sources(providers, sources),
        count <= sources.len(),
    ensures
        total_width(providers, count) == sources_width(sources, count),
        forall|c: nat| is_static_of(providers, c) <==> static_like(sources, c),
        all_wf(providers),
    decreases count,
{
    reveal_with_fuel(ValueProvider::width, 2);
    assert forall|i: int| 0 <= i < providers.len() implies (#[trigger] providers[i]).wf() by {
        lemma_source_wf(providers[i], sources[i]);
    }
    if count > 0 {
        lemma_widths(providers, sources, (count - 1) as nat);
        let p = providers[count - 1];
        let s = sources[count - 1];
        assert(is_source(p, s));
        match s {
            Source::Numbers(numbers) => {},
            Source::Channel(name) => {
                let head = choose|h: Seq<char>|
                    #![trigger is_head(name, h)]
                    is_head(name, h) && is_channel(h) && is_provider_of(p, h);
                let chosen = choose|h: Seq<char>| is_head(name, h);
                lemma_head_unique(name, head, chosen);
            },
        }
    }
    assert forall|c: nat| is_static_of(providers, c) <==> static_like(sources, c) by {
        if providers.len() == 1 {
            assert(is_source(providers[0], sources[0]));
            match sources[0] {
                Source::Numbers(numbers) => {},
                Source::Channel(name) => {
                    assert(reads_channel(providers[0], name));
                },
            }
        }
    }
}

/// The text of a flag; a node that is no text has none.
pub open spec fn flag_text(v: JsonValue) -> Seq<char> {
    match v {
        JsonValue::String(s) => s@,
        _ => Seq::empty(),
    }
}

/// The flags among the first `upto` of `items`, in their order.
pub open spec fn flags_of(items: Seq<JsonValue>, upto: nat) -> Seq<Seq<char>>
    decreases upto,
{
    if upto == 0 || upto > items.len() {
        Seq::empty()
    } else {
        let before = flags_of(items, (upto - 1) as nat);
        if group_of(items[upto - 1]) == GroupType::Flag {
            before.push(flag_text(items[upto - 1]))
        } else {
            before
        }
    }
}

/// The first of the first `upto` of `flags` that starts with `ease`.
pub open spec fn ease_flag(flags: Seq<Seq<char>>, upto: nat) -> Option<Seq<char>>
    decreases upto,
{
    if upto == 0 || upto > flags.len() {
        None
    } else {
        match ease_flag(flags, (upto - 1) as nat) {
            Some(s) => Some(s),
            None => if has_prefix(flags[upto - 1], "ease"@) {
                Some(flags[upto - 1])
            } else {
                None
            },
        }
    }
}

/// `f` is the easing that `flags` ask for: the curve that the first flag
/// starting with `ease` names, and the linear curve where that flag names
/// none or there is no such flag.
pub open spec fn is_easing_of(flags: Seq<Seq<char>>, f: Functions) -> bool {
    match ease_flag(flags, flags.len()) {
        Some(s) => names_easing(s, f),
        None => f == Functions::EaseLinear,
    }
}

/// `f` is the curve that `s` names, and the linear curve where `s` names
/// none.
pub open spec fn names_easing(s: Seq<char>, f: Functions) -> bool {
    s == f.name() || (f == Functions::EaseLinear && forall|g: Functions| s != #[trigger] g.name())
}

/// The first fault of a written modifier of kind `kind`, if it has one:
/// it has no values; a text among its values names no channel; one of its
/// modifiers has a fault; it has no flag to name its operation; its
/// values are not as many as the kind is built from.
pub open spec fn modifier_fault(kind: WrapBaseValueType, items: Seq<JsonValue>) -> Option<
    ParseError,
>
    decreases items, 1nat, 0nat,
{
    let values = in_group(items, GroupType::Value);
    let sources = sources_of(values);
    if values.len() == 0 {
        Some(ParseError::Malformed)
    } else if has_unknown(values) {
        Some(ParseError::UnknownChannel)
    } else if children_fault(kind, items, items.len()) is Some {
        children_fault(kind, items, items.len())
    } else if flags_of(items, items.len()).len() == 0 {
        Some(ParseError::Malformed)
    } else if !(static_like(sources, kind.arity()) || sources_width(sources, sources.len())
        == kind.arity()) {
        Some(ParseError::Arity)
    } else {
        None
    }
}

/// The first fault among the modifiers of the first `upto` of `items`.
pub open spec fn children_fault(kind: WrapBaseValueType, items: Seq<JsonValue>, upto: nat) -> Option<
    ParseError,
>
    decreases items, 0nat, upto,
{
    if upto == 0 || upto > items.len() {
        None
    } else {
        match children_fault(kind, items, (upto - 1) as nat) {
            Some(e) => Some(e),
            None => match items[upto - 1] {
                JsonValue::Array(sub) => modifier_fault(kind, sub@),
                _ => None,
            },
        }
    }
}

/// `m` is a modifier that `n` gives for the written modifier `items` of
/// kind `kind`: made of the providers that the values stand for, of the
/// modifiers that the lists among `items` read as, and of the operation
/// that the first flag names.
pub open spec fn reads_modifier<N: Numerics>(
    n: &N,
    kind: WrapBaseValueType,
    items: Seq<JsonValue>,
    m: Modifier,
) -> bool
    decreases items, 1nat, 0nat,
{
    &&& flags_of(items, items.len()).len() > 0
    &&& reads_children(n, kind, items, items.len(), m.children())
    &&& exists|providers: Seq<ValueProvider>|
        #![trigger made_modifier(n, kind, providers, m.children(), Operation::parse(flags_of(items, items.len())[0]), m)]
        {
            &&& are_sources(providers, sources_of(in_group(items, GroupType::Value)))
            &&& made_modifier(
                n,
                kind,
                providers,
                m.children(),
                Operation::parse(flags_of(items, items.len())[0]),
                m,
            )
        }
}

/// `children` are modifiers that `n` gives for the lists among the first
/// `upto` of `items`, in their order.
pub open spec fn reads_children<N: Numerics>(
    n: &N,
    kind: WrapBaseValueType,
    items: Seq<JsonValue>,
    upto: nat,
    children: Seq<Modifier>,
) -> bool
    decreases items, 0nat, upto,
{
    if upto == 0 || upto > items.len() {
        children.len() == 0
    } else {
        match items[upto - 1] {
            JsonValue::Array(sub) => {
                &&& children.len() > 0
                &&& reads_children(n, kind, items, (upto - 1) as nat, children.drop_last())
                &&& reads_modifier(n, kind, sub@, children.last())
            },
            _ => reads_children(n, kind, items, (upto - 1) as nat, children),
        }
    }
}

/// The flags among `items`, in their order.
pub fn read_flags(items: &Vec<JsonValue>) -> (r: Vec<String>)
    ensures
        texts(r@) == flags_of(items@, items@.len()),
{
    let mut r: Vec<String> = Vec::new();
    let mut i: usize = 0;
    while i < items.len()
        invariant
            i <= items@.len(),
            texts(r@) == flags_of(items@, i as nat),
        decreases items@.len() - i,
    {
        let ghost before = texts(r@);
        if group(&items[i]) == GroupType::Flag {
            match &items[i] {
                JsonValue::String(s) => {
                    r.push(s.as_str().to_owned());
                },
                _ => {},
            }
            assert(texts(r@) =~= before.push(flag_text(items@[i as int])));
        }
        i = i + 1;
    }
    r
}

/// The easing that `flags` ask for.
pub fn read_easing(flags: &Vec<String>) -> (r: Functions)
    ensures
        is_easing_of(texts(flags@), r),
{
    let mut i: usize = 0;
    while i < flags.len()
        invariant
            i <= flags@.len(),
            ease_flag(texts(flags@), i as nat) is None,
        decreases flags@.len() - i,
    {
        if starts_with(flags[i].as_str(), "ease") {
            let r = Functions::from_str_or_linear(flags[i].as_str());
            proof {
                let all = texts(flags@);
                assert(all[i as int] == flags@[i as int]@);
                assert(ease_flag(all, (i + 1) as nat) == Some(all[i as int]));
                lemma_ease_flag_stays(all, (i + 1) as nat, all.len());
                assert(names_easing(all[i as int], r));
            }
            return r;
        }
        assert(texts(flags@)[i as int] == flags@[i as int]@);
        i = i + 1;
    }
    Functions::EaseLinear
}

/// Once a flag that starts with `ease` is found, it stays the first.
pub proof fn lemma_ease_flag_stays(flags: Seq<Seq<char>>, few: nat, many: nat)
    requires
        few <= many <= flags.len(),
        ease_flag(flags, few) is Some,
    ensures
        ease_flag(flags, many) == ease_flag(flags, few),
    decreases many,
{
    if few < many {
        lemma_ease_flag_stays(flags, few, (many - 1) as nat);
    }
}

/// The modifiers that the lists among `items` read as, in their order, or
/// the first fault among them.
pub fn read_children<N: Numerics>(
    kind: WrapBaseValueType,
    items: &Vec<JsonValue>,
    context: &BaseProviderContext,
    n: &N,
) -> (r: Result<
    Vec<Modifier>,
    ParseError,
>)
    requires
        kind != WrapBaseValueType::Unknown,
    ensures
        match r {
            Ok(children) => {
                &&& children_fault(kind, items@, items@.len()) is None
                &&& reads_children(n, kind, items@, items@.len(), children@)
                &&& all_modifiers(children@, kind)
            },
            Err(e) => children_fault(kind, items@, items@.len()) == Some(e),
        },
    decreases items@, 0nat,
{
    let mut children: Vec<Modifier> = Vec::new();
    let mut i: usize = 0;
    while i < items.len()
        invariant
            i <= items@.len(),
            kind != WrapBaseValueType::Unknown,
            children_fault(kind, items@, i as nat) is None,
            reads_children(n, kind, items@, i as nat, children@),
            all_modifiers(children@, kind),
        decreases items@.len() - i,
    {
        match &items[i] {
            JsonValue::Array(sub) => {
                let ghost before = children@;
                match read_modifier(kind, sub, context, n) {
                    Ok(m) => {
                        children.push(m);
                        assert(children@.drop_last() == before);
                    },
                    Err(e) => {
                        proof {
                            lemma_fault_stays(kind, items@, (i + 1) as nat, items@.len());
                        }
                        return Err(e);
                    },
                }
            },
            _ => {},
        }
        i = i + 1;
    }
    Ok(children)
}

/// Once a modifier has a fault, that fault stays the first.
pub proof fn lemma_fault_stays(kind: WrapBaseValueType, items: Seq<JsonValue>, few: nat, many: nat)
    requires
        few <= many <= items.len(),
        children_fault(kind, items, few) is Some,
    ensures
        children_fault(kind, items, many) == children_fault(kind, items, few),
    decreases many,
{
    if few < many {
        lemma_fault_stays(kind, items, few, (many - 1) as nat);
    }
}

/// The modifier that the written modifier `items` reads as, or its first
/// fault.
pub fn read_modifier<N: Numerics>(
    kind: WrapBaseValueType,
    items: &Vec<JsonValue>,
    context: &BaseProviderContext,
    n: &N,
) -> (r: Result<
    Modifier,
    ParseError,
>)
    requires
        kind != WrapBaseValueType::Unknown,
    ensures
        match r {
            Ok(m) => modifier_fault(kind, items@) is None && reads_modifier(n, kind, items@, m)
                && m.kind() == kind && m.wf(),
            Err(e) => modifier_fault(kind, items@) == Some(e),
        },
    decreases items@, 1nat,
{
    let values = pick_group(items, GroupType::Value);
    if values.len() == 0 {
        return Err(ParseError::Malformed);
    }
    let providers = match deserialize_values(&values, context) {
        Ok(providers) => providers,
        Err(e) => {
            return Err(e);
        },
    };
    let modifiers = match read_children(kind, items, context, n) {
        Ok(modifiers) => modifiers,
        Err(e) => {
            return Err(e);
        },
    };
    let flags = read_flags(items);
    if flags.len() == 0 {
        return Err(ParseError::Malformed);
    }
    let operation = match Operation::from_str(flags[0].as_str()) {
        Ok(operation) => operation,
        Err(_) => Operation::Replace,
    };
    proof {
        let sources = sources_of(in_group(items@, GroupType::Value));
        lemma_widths(providers@, sources, sources.len());
        assert(texts(flags@)[0] == flags@[0]@);
    }
    let ghost given = providers@;
    let ghost kids = modifiers@;
    match create_modifier(kind, providers, modifiers, operation, n) {
        Ok(m) => {
            assert(made_modifier(
                n,
                kind,
                given,
                m.children(),
                Operation::parse(flags_of(items@, items@.len())[0]),
                m,
            ));
            Ok(m)
        },
        Err(e) => Err(e),
    }
}

/// The first fault of a written keyframe of kind `kind`, if it has one:
/// a text among its values names no channel; one of its modifiers has a
/// fault; its values are neither as many as the kind is built from nor
/// one more.
pub open spec fn point_fault(kind: WrapBaseValueType, items: Seq<JsonValue>) -> Option<ParseError> {
    let values = in_group(items, GroupType::Value);
    let sources = sources_of(values);
    if has_unknown(values) {
        Some(ParseError::UnknownChannel)
    } else if children_fault(kind, items, items.len()) is Some {
        children_fault(kind, items, items.len())
    } else if !(static_like(sources, kind.arity() + 1) || sources_width(sources, sources.len())
        == kind.arity() || sources_width(sources, sources.len()) == kind.arity() + 1) {
        Some(ParseError::Arity)
    } else {
        None
    }
}

/// `p` is a keyframe that `n` gives for the written keyframe `items` of
/// kind `kind`: made of the providers that the values stand for, of the
/// flags, of the modifiers that the lists among `items` read as, and of
/// the easing that the flags ask for.
pub open spec fn reads_point<N: Numerics>(
    n: &N,
    context: &BaseProviderContext,
    kind: WrapBaseValueType,
    items: Seq<JsonValue>,
    p: PointData,
) -> bool {
    &&& is_easing_of(flags_of(items, items.len()), p.easing())
    &&& reads_children(n, kind, items, items.len(), p.modifier().children())
    &&& exists|providers: Seq<ValueProvider>|
        #![trigger made_point(n, context, kind, providers, flags_of(items, items.len()), p.modifier().children(), p.easing(), p)]
        {
            &&& are_sources(providers, sources_of(in_group(items, GroupType::Value)))
            &&& made_point(
                n,
                context,
                kind,
                providers,
                flags_of(items, items.len()),
                p.modifier().children(),
                p.easing(),
                p,
            )
        }
}

/// Whether the node `v` is a written keyframe: a list with values.
pub open spec fn is_written_point(v: JsonValue) -> bool {
    v matches JsonValue::Array(items) && in_group(items@, GroupType::Value).len() > 0
}

/// The first fault among the written keyframes of the first `upto` of
/// `items`.
pub open spec fn points_fault(kind: WrapBaseValueType, items: Seq<JsonValue>, upto: nat) -> Option<
    ParseError,
>
    decreases upto,
{
    if upto == 0 || upto > items.len() {
        None
    } else {
        match points_fault(kind, items, (upto - 1) as nat) {
            Some(e) => Some(e),
            None => if is_written_point(items[upto - 1]) {
                point_fault(kind, items[upto - 1]->Array_0@)
            } else {
                None
            },
        }
    }
}

/// `points` are keyframes that `n` gives for the written keyframes among
/// the first `upto` of `items`, in their order. A node that is no list
/// with values is passed over.
pub open spec fn reads_points<N: Numerics>(
    n: &N,
    context: &BaseProviderContext,
    kind: WrapBaseValueType,
    items: Seq<JsonValue>,
    upto: nat,
    points: Seq<PointData>,
) -> bool
    decreases upto,
{
    if upto == 0 || upto > items.len() {
        points.len() == 0
    } else if is_written_point(items[upto - 1]) {
        &&& points.len() > 0
        &&& reads_points(n, context, kind, items, (upto - 1) as nat, points.drop_last())
        &&& reads_point(n, context, kind, items[upto - 1]->Array_0@, points.last())
    } else {
        reads_points(n, context, kind, items, (upto - 1) as nat, points)
    }
}

/// The written keyframe that a list stands for which is written without
/// an inner list: its nodes, and zero for the time.
pub open spec fn lone_point(items: Seq<JsonValue>) -> Seq<JsonValue> {
    items.push(JsonValue::Number(ZERO))
}

/// The first fault of a written curve of kind `kind`, if it has one: it is
/// no list or an empty one, or one of its keyframes has a fault.
pub open spec fn curve_fault(kind: WrapBaseValueType, value: JsonValue) -> Option<ParseError> {
    match value {
        JsonValue::Array(items) => if items@.len() == 0 {
            Some(ParseError::Malformed)
        } else if items@[0] is Array {
            points_fault(kind, items@, items@.len())
        } else {
            point_fault(kind, lone_point(items@))
        },
        _ => Some(ParseError::Malformed),
    }
}

/// `points` are the keyframes that `n` gives for the written curve `value`
/// of kind `kind`: those of the written keyframes of the list, in their
/// order; a list whose first node is no list is itself one keyframe, at
/// the time zero.
pub open spec fn reads_curve<N: Numerics>(
    n: &N,
    context: &BaseProviderContext,
    kind: WrapBaseValueType,
    value: JsonValue,
    points: Seq<PointData>,
) -> bool {
    match value {
        JsonValue::Array(items) => if items@.len() > 0 && items@[0] is Array {
            reads_points(n, context, kind, items@, items@.len(), points)
        } else {
            points.len() == 1 && reads_point(n, context, kind, lone_point(items@), points[0])
        },
        _ => false,
    }
}

/// Once a keyframe has a fault, that fault stays the first.
pub proof fn lemma_point_fault_stays(
    kind: WrapBaseValueType,
    items: Seq<JsonValue>,
    few: nat,
    many: nat,
)
    requires
        few <= many <= items.len(),
        points_fault(kind, items, few) is Some,
    ensures
        points_fault(kind, items, many) == points_fault(kind, items, few),
    decreases many,
{
    if few < many {
        lemma_point_fault_stays(kind, items, few, (many - 1) as nat);
    }
}

/// The keyframe that the written keyframe `items` reads as, with zero
/// added to its values for the time where `timeless` is set, or its first
/// fault. The keyframe must have values.
pub fn read_point<N: Numerics>(
    kind: WrapBaseValueType,
    items: &Vec<JsonValue>,
    timeless: bool,
    context: &BaseProviderContext,
    n: &N,
) -> (r: Result<PointData, ParseError>)
    requires
        kind != WrapBaseValueType::Unknown,
        context.wf(),
    ensures
        match r {
            Ok(p) => {
                &&& point_fault(kind, written(items@, timeless)) is None
                &&& reads_point(n, context, kind, written(items@, timeless), p)
                &&& p.kind() == kind
                &&& p.wf()
            },
            Err(e) => point_fault(kind, written(items@, timeless)) == Some(e),
        },
{
    let zero = JsonValue::Number(ZERO);
    let ghost all = written(items@, timeless);
    let mut values = pick_group(items, GroupType::Value);
    proof {
        lemma_written(items@, timeless);
    }
    if timeless {
        let ghost before = pointed(values@);
        values.push(&zero);
        proof {
            assert(pointed(values@) =~= before.push(zero));
            items@.lemma_filter_push(zero, |v: JsonValue| group_of(v) == GroupType::Value);
        }
    }
    assert(pointed(values@) == in_group(all, GroupType::Value));
    let providers = match deserialize_values(&values, context) {
        Ok(providers) => providers,
        Err(e) => {
            return Err(e);
        },
    };
    let modifiers = match read_children(kind, items, context, n) {
        Ok(modifiers) => modifiers,
        Err(e) => {
            return Err(e);
        },
    };
    let flags = read_flags(items);
    let easing = read_easing(&flags);
    proof {
        let sources = sources_of(in_group(all, GroupType::Value));
        lemma_widths(providers@, sources, sources.len());
        if timeless {
            lemma_children_prefix(n, kind, items@, all, items@.len(), modifiers@);
            assert(reads_children(n, kind, all, all.len(), modifiers@));
        }
    }
    let ghost given = providers@;
    match create_point_data(kind, providers, flags, modifiers, easing, context, n) {
        Ok(p) => {
            assert(made_point(
                n,
                context,
                kind,
                given,
                flags_of(all, all.len()),
                p.modifier().children(),
                p.easing(),
                p,
            ));
            Ok(p)
        },
        Err(e) => Err(e),
    }
}

/// The nodes of a written keyframe: `items`, and zero after them where
/// `timeless` is set.
pub open spec fn written(items: Seq<JsonValue>, timeless: bool) -> Seq<JsonValue> {
    if timeless {
        lone_point(items)
    } else {
        items
    }
}

/// A zero added for the time is a value: it changes neither the flags nor
/// the modifiers of a written keyframe.
pub proof fn lemma_written(items: Seq<JsonValue>, timeless: bool)
    ensures
        flags_of(written(items, timeless), written(items, timeless).len()) == flags_of(
            items,
            items.len(),
        ),
        forall|kind: WrapBaseValueType|
            #[trigger] children_fault(kind, written(items, timeless), written(items, timeless).len())
                == children_fault(kind, items, items.len()),
{
    if timeless {
        let all = lone_point(items);
        lemma_flags_prefix(items, all, items.len());
        assert forall|kind: WrapBaseValueType|
            #[trigger] children_fault(kind, all, all.len()) == children_fault(
                kind,
                items,
                items.len(),
            ) by {
            lemma_children_fault_prefix(kind, items, all, items.len());
        }
    }
}

/// The flags among the first nodes of a list are those among the same
/// nodes of a longer list.
pub proof fn lemma_flags_prefix(items: Seq<JsonValue>, longer: Seq<JsonValue>, upto: nat)
    requires
        upto <= items.len() <= longer.len(),
        forall|i: int| 0 <= i < items.len() ==> longer[i] == items[i],
    ensures
        flags_of(longer, upto) == flags_of(items, upto),
    decreases upto,
{
    if upto > 0 {
        lemma_flags_prefix(items, longer, (upto - 1) as nat);
    }
}

/// The first fault among the modifiers of the first nodes of a list is
/// that among the same nodes of a longer list.
pub proof fn lemma_children_fault_prefix(
    kind: WrapBaseValueType,
    items: Seq<JsonValue>,
    longer: Seq<JsonValue>,
    upto: nat,
)
    requires
        upto <= items.len() <= longer.len(),
        forall|i: int| 0 <= i < items.len() ==> longer[i] == items[i],
    ensures
        children_fault(kind, longer, upto) == children_fault(kind, items, upto),
    decreases upto,
{
    if upto > 0 {
        lemma_children_fault_prefix(kind, items, longer, (upto - 1) as nat);
    }
}

/// The modifiers that the lists among the first nodes of a list read as
/// are those of the same nodes of a longer list.
pub proof fn lemma_children_prefix<N: Numerics>(
    n: &N,
    kind: WrapBaseValueType,
    items: Seq<JsonValue>,
    longer: Seq<JsonValue>,
    upto: nat,
    children: Seq<Modifier>,
)
    requires
        upto <= items.len() <= longer.len(),
        forall|i: int| 0 <= i < items.len() ==> longer[i] == items[i],
    ensures
        reads_children(n, kind, longer, upto, children) == reads_children(
            n,
            kind,
            items,
            upto,
            children,
        ),
    decreases upto,
{
    if upto > 0 {
        lemma_children_prefix(n, kind, items, longer, (upto - 1) as nat, children);
        lemma_children_prefix(n, kind, items, longer, (upto - 1) as nat, children.drop_last());
    }
}

/// The keyframes that the written curve `value` of kind `kind` reads as,
/// or its first fault.
pub fn parse<N: Numerics>(
    kind: WrapBaseValueType,
    value: &JsonValue,
    context: &BaseProviderContext,
    n: &N,
) -> (r: Result<Vec<PointData>, ParseError>)
    requires
        kind != WrapBaseValueType::Unknown,
        context.wf(),
    ensures
        match r {
            Ok(points) => {
                &&& curve_fault(kind, *value) is None
                &&& reads_curve(n, context, kind, *value, points@)
                &&& all_of_kind(points@, kind)
            },
            Err(e) => curve_fault(kind, *value) == Some(e),
        },
{
    let items = match value {
        JsonValue::Array(items) => items,
        _ => {
            return Err(ParseError::Malformed);
        },
    };
    if items.len() == 0 {
        return Err(ParseError::Malformed);
    }
    let mut points: Vec<PointData> = Vec::new();
    let nested = match &items[0] {
        JsonValue::Array(_) => true,
        _ => false,
    };
    if !nested {
        match read_point(kind, items, true, context, n) {
            Ok(p) => {
                points.push(p);
                return Ok(points);
            },
            Err(e) => {
                return Err(e);
            },
        }
    }
    let mut i: usize = 0;
    while i < items.len()
        invariant
            i <= items@.len(),
            kind != WrapBaseValueType::Unknown,
            context.wf(),
            *value == JsonValue::Array(*items),
            items@.len() > 0,
            items@[0] is Array,
            points_fault(kind, items@, i as nat) is None,
            reads_points(n, context, kind, items@, i as nat, points@),
            all_of_kind(points@, kind),
        decreases items@.len() - i,
    {
        match &items[i] {
            JsonValue::Array(raw_point) => {
                let has_values = pick_group(raw_point, GroupType::Value).len() > 0;
                if has_values {
                    let ghost before = points@;
                    match read_point(kind, raw_point, false, context, n) {
                        Ok(p) => {
                            points.push(p);
                            assert(points@.drop_last() == before);
                        },
                        Err(e) => {
                            proof {
                                assert(is_written_point(items@[i as int]));
                                assert(points_fault(kind, items@, (i + 1) as nat) == Some(e));
                                lemma_point_fault_stays(kind, items@, (i + 1) as nat, items@.len());
                            }
                            return Err(e);
                        },
                    }
                }
            },
            _ => {},
        }
        i = i + 1;
    }
    Ok(points)
}

/// The modifier that the written modifier `list` of kind `kind` reads as.
/// Fails with the first fault of the written modifier, and with
/// `Malformed` where `list` is no list.
pub fn deserialize_modifier<N: Numerics>(
    kind: WrapBaseValueType,
    list: &JsonValue,
    context: &BaseProviderContext,
    n: &N,
) -> (r: Result<Modifier, ParseError>)
    requires
        kind != WrapBaseValueType::Unknown,
    ensures
        match (r, *list) {
            (Ok(m), JsonValue::Array(items)) => modifier_fault(kind, items@) is None
                && reads_modifier(n, kind, items@, m) && m.kind() == kind && m.wf(),
            (Ok(_), _) => false,
            (Err(e), JsonValue::Array(items)) => modifier_fault(kind, items@) == Some(e),
            (Err(e), _) => e == ParseError::Malformed,
        },
{
    match list {
        JsonValue::Array(items) => read_modifier(kind, items, context, n),
        _ => Err(ParseError::Malformed),
    }
}

} // verus!
