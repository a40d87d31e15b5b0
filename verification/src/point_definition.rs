//! Keyframed curves.
//!
//! A point definition is a list of keyframes of one kind. Its value at a
//! time is that of the last keyframe from the last keyframe's time on,
//! that of the first keyframe up to the first keyframe's time, and between
//! two keyframes the blend of the two at the eased share of the way from
//! the one to the other.
pub mod base_point_definition;
pub mod blending;
pub mod float_point_definition;
pub mod parsing;
pub mod point_definition_interpolation;
pub mod quaternion_point_definition;
pub mod vector3_point_definition;
pub mod vector4_point_definition;

use crate::base_provider_context::BaseProviderContext;
use crate::ffi::types::WrapBaseValueType;
use crate::ieee::{
    at_most, equal, is_at_most, is_equal, is_nan, lemma_le_total, lemma_le_transitive, Scalar, ONE,
    ZERO,
};
use crate::numerics::{is_difference, is_eased, is_quotient, Numerics};
use crate::point_data::PointData;
use crate::values::value::{is_blend, BaseValue};
use blending::{is_hue_blend, is_spline, lerp_hsv_vec4, spline};
use vstd::prelude::*;

verus! {

/// The three groups into which the entries of a written keyframe fall.
#[derive(Clone, Copy, Debug, PartialEq, Eq, Structural, Hash)]
pub enum GroupType {
    Value,
    Flag,
    Modifier,
}

/// Every keyframe of `points` is of kind `kind` and can be evaluated.
pub open spec fn all_of_kind(points: Seq<PointData>, kind: WrapBaseValueType) -> bool {
    forall|i: int|
        0 <= i < points.len() ==> (#[trigger] points[i]).kind() == kind && points[i].wf()
}

/// The times of the keyframes are numbers and never go back.
pub open spec fn sorted_by_time(points: Seq<PointData>) -> bool {
    &&& forall|i: int| 0 <= i < points.len() ==> !is_nan((#[trigger] points[i]).time())
    &&& forall|i: int, j: int|
        0 <= i <= j < points.len() ==> is_at_most(
            (#[trigger] points[i]).time(),
            (#[trigger] points[j]).time(),
        )
}

/// Whether a keyframe of `points` depends on a channel of the host.
pub open spec fn any_live(points: Seq<PointData>) -> bool {
    exists|i: int| 0 <= i < points.len() && (#[trigger] points[i]).live()
}

/// The keyframes `l` and `l + 1` are the pair around `time`: keyframe `l`
/// is not after `time` (the first keyframe stands for all that lies
/// before it), and keyframe `l + 1` is after it.
pub open spec fn is_segment(points: Seq<PointData>, time: Scalar, l: int) -> bool {
    &&& 0 <= l < points.len() - 1
    &&& l == 0 || is_at_most(points[l].time(), time)
    &&& !is_at_most(points[l + 1].time(), time)
}

/// The value that a curve of kind `kind` has where it holds no keyframe:
/// zeros, and the rotation that turns nothing.
pub open spec fn default_of(kind: WrapBaseValueType) -> BaseValue {
    match kind {
        WrapBaseValueType::Vec3 => BaseValue::Vector3([ZERO, ZERO, ZERO]),
        WrapBaseValueType::Vec4 => BaseValue::Vector4([ZERO, ZERO, ZERO, ZERO]),
        WrapBaseValueType::Quat => BaseValue::Quaternion([ZERO, ZERO, ZERO, ONE]),
        _ => BaseValue::Float(ZERO),
    }
}

/// The values computed on the way to the blend between two keyframes.
pub struct BlendSteps {
    /// The value of the keyframe before the left one, or that of the left
    /// one where it is the first.
    pub before: BaseValue,
    /// The value of the left keyframe.
    pub left: BaseValue,
    /// The value of the right keyframe.
    pub right: BaseValue,
    /// The value of the keyframe after the right one, or that of the right
    /// one where it is the last.
    pub after: BaseValue,
}

/// `out` is a blend that `n` gives of the keyframes `l` and `r` of
/// `points` at the eased share `t`, over the values `s`:
/// - for 3-vectors where keyframe `r` asks for a spline, the spline
///   through the keyframes `l - 1`, `l`, `r` and `r + 1`, with `l` and `r`
///   standing in for a neighbour that does not exist;
/// - for 4-vectors where keyframe `l` asks for it, the blend by hue;
/// - else the linear blend, and for rotations the shortest arc.
pub open spec fn is_mix<N: Numerics>(
    points: Seq<PointData>,
    n: &N,
    context: &BaseProviderContext,
    l: int,
    r: int,
    t: Scalar,
    s: BlendSteps,
    out: BaseValue,
) -> bool {
    &&& points[l].evaluates(n, context, s.left)
    &&& points[r].evaluates(n, context, s.right)
    &&& if points[r].is_smooth() {
        &&& if l > 0 {
            points[l - 1].evaluates(n, context, s.before)
        } else {
            s.before == s.left
        }
        &&& if r + 1 < points.len() {
            points[r + 1].evaluates(n, context, s.after)
        } else {
            s.after == s.right
        }
        &&& out is Vector3
        &&& is_spline(
            n,
            s.before->Vector3_0,
            s.left->Vector3_0,
            s.right->Vector3_0,
            s.after->Vector3_0,
            t,
            out->Vector3_0,
        )
    } else if points[l].is_hsv() {
        out is Vector4 && is_hue_blend(n, s.left->Vector4_0, s.right->Vector4_0, t, out->Vector4_0)
    } else {
        is_blend(n, s.left, s.right, t, out)
    }
}

/// The values computed on the way from a time to the eased share of the
/// way between two keyframes.
pub struct ShareSteps {
    /// The time of the right keyframe minus that of the left.
    pub span: Scalar,
    /// The time asked for minus that of the left keyframe.
    pub offset: Scalar,
    /// The share of the way, before easing.
    pub share: Scalar,
}

/// `eased` is a value that `n` gives for the eased share of the way from
/// keyframe `l` to keyframe `r` at `time`: the time passed since `l` over
/// the time between the two, and zero where no time lies between them,
/// eased by the curve of keyframe `r`.
pub open spec fn is_share<N: Numerics>(
    points: Seq<PointData>,
    n: &N,
    l: int,
    r: int,
    time: Scalar,
    s: ShareSteps,
    eased: Scalar,
) -> bool {
    &&& is_difference(n, points[r].time(), points[l].time(), s.span)
    &&& if is_equal(s.span, ZERO) {
        s.share == ZERO
    } else {
        is_difference(n, time, points[l].time(), s.offset) && is_quotient(
            n,
            s.offset,
            s.span,
            s.share,
        )
    }
    &&& is_eased(n, points[r].easing(), s.share, eased)
}

/// `out` is a value that `n` gives for the curve between the keyframes `l`
/// and `l + 1` at `time`.
pub open spec fn is_between<N: Numerics>(
    points: Seq<PointData>,
    n: &N,
    context: &BaseProviderContext,
    time: Scalar,
    l: int,
    out: BaseValue,
) -> bool {
    exists|share: ShareSteps, eased: Scalar, steps: BlendSteps|
        #![trigger is_share(points, n, l, l + 1, time, share, eased), is_mix(points, n, context, l, l + 1, eased, steps, out)]
        {
            &&& is_share(points, n, l, l + 1, time, share, eased)
            &&& is_mix(points, n, context, l, l + 1, eased, steps, out)
        }
}

/// `out` is a value that `n` gives for the curve `points` of kind `kind` at
/// `time`, and `last` tells whether the curve has reached its last
/// keyframe:
/// - a curve without keyframes has the default value of its kind and is at
///   its end;
/// - from the time of the last keyframe on, the curve has the value of the
///   last keyframe and is at its end;
/// - else, up to the time of the first keyframe, it has the value of the
///   first, and so it has wherever the first keyframe is the only one
///   (which a time that is not a number can bring about);
/// - else it has the blend of the pair of keyframes around `time`.
pub open spec fn interpolates<N: Numerics>(
    points: Seq<PointData>,
    kind: WrapBaseValueType,
    n: &N,
    context: &BaseProviderContext,
    time: Scalar,
    out: BaseValue,
    last: bool,
) -> bool {
    if points.len() == 0 {
        out == default_of(kind) && last
    } else if is_at_most(points.last().time(), time) {
        points.last().evaluates(n, context, out) && last
    } else if points.len() == 1 || is_at_most(time, points[0].time()) {
        points[0].evaluates(n, context, out) && !last
    } else {
        !last && exists|l: int|
            #![trigger is_segment(points, time, l)]
            is_segment(points, time, l) && is_between(points, n, context, time, l, out)
    }
}

/// The pair of keyframes around `time`, by bisection. The curve must hold
/// two keyframes at least, and its last must lie after `time`.
pub fn search_index(points: &Vec<PointData>, time: Scalar) -> (r: (usize, usize))
    requires
        points@.len() >= 2,
        !is_at_most(points@.last().time(), time),
    ensures
        r.1 == r.0 + 1,
        is_segment(points@, time, r.0 as int),
{
    let mut l: usize = 0;
    let mut r: usize = points.len();
    while l < r - 1
        invariant
            0 <= l < r <= points@.len(),
            points@.len() >= 2,
            !is_at_most(points@.last().time(), time),
            l == 0 || is_at_most(points@[l as int].time(), time),
            r == points@.len() || !is_at_most(points@[r as int].time(), time),
        decreases r - l,
    {
        let m = l + (r - l) / 2;
        let point_time = points[m].get_time();
        if at_most(point_time, time) {
            l = m;
        } else {
            r = m;
        }
    }
    (l, r)
}

/// On a curve whose times never go back there is one pair of keyframes
/// around a time: two pairs that both lie around `time` are the same pair.
pub proof fn lemma_segment_unique(points: Seq<PointData>, time: Scalar, a: int, b: int)
    requires
        sorted_by_time(points),
        !is_nan(time),
        is_at_most(points[0].time(), time),
        is_segment(points, time, a),
        is_segment(points, time, b),
    ensures
        a == b,
{
    if a < b {
        // keyframe a + 1 is after `time`, keyframe b is not, yet a + 1 <= b
        assert(is_at_most(points[a + 1].time(), points[b].time()));
        assert(is_at_most(points[b].time(), time));
        lemma_le_transitive(points[a + 1].time(), points[b].time(), time);
    } else if b < a {
        assert(is_at_most(points[b + 1].time(), points[a].time()));
        assert(is_at_most(points[a].time(), time));
        lemma_le_transitive(points[b + 1].time(), points[a].time(), time);
    }
}

/// On a curve whose times never go back, the pair around `time` is the
/// pair with `time` at or after the left keyframe and before the right:
/// a pair lies around `time` exactly when its times enclose `time` so.
pub proof fn lemma_segment_encloses(points: Seq<PointData>, time: Scalar, l: int)
    requires
        sorted_by_time(points),
        !is_nan(time),
        0 <= l < points.len() - 1,
        is_at_most(points[0].time(), time),
    ensures
        is_segment(points, time, l) <==> (is_at_most(points[l].time(), time)
            && crate::ieee::is_less(time, points[l + 1].time())),
{
    lemma_le_total(points[l + 1].time(), time);
    if l == 0 {
    } else {
    }
}

/// On a curve whose times never go back, the value at a time that is a
/// number is
/// - the value of the last keyframe, at the end of the curve, from the
///   time of the last keyframe on;
/// - else the value of the first keyframe, not at the end, up to the time
///   of the first keyframe;
/// - else a blend between the one pair of neighbouring keyframes whose
///   times enclose the time: the left one is not after it, the right one
///   is after it.
pub proof fn lemma_interpolate_selects<N: Numerics>(
    points: Seq<PointData>,
    kind: WrapBaseValueType,
    n: &N,
    context: &BaseProviderContext,
    time: Scalar,
    out: BaseValue,
    last: bool,
)
    requires
        sorted_by_time(points),
        !is_nan(time),
        points.len() > 0,
        interpolates(points, kind, n, context, time, out, last),
    ensures
        is_at_most(points.last().time(), time) ==> last && points.last().evaluates(n, context, out),
        !is_at_most(points.last().time(), time) && is_at_most(time, points[0].time()) ==> !last
            && points[0].evaluates(n, context, out),
        !is_at_most(points.last().time(), time) && !is_at_most(time, points[0].time()) ==> !last
            && exists|l: int|
            #![trigger is_between(points, n, context, time, l, out)]
            {
                &&& 0 <= l < points.len() - 1
                &&& is_at_most(points[l].time(), time)
                &&& crate::ieee::is_less(time, points[l + 1].time())
                &&& is_between(points, n, context, time, l, out)
                &&& forall|k: int|
                    0 <= k < points.len() - 1 && is_at_most(#[trigger] points[k].time(), time)
                        && crate::ieee::is_less(time, points[k + 1].time()) ==> k == l
            },
{
    if !is_at_most(points.last().time(), time) && !is_at_most(time, points[0].time()) {
        lemma_le_total(points[0].time(), time);
        lemma_le_total(points.last().time(), time);
        assert(points.len() > 1) by {
            if points.len() == 1 {
                assert(points.last() == points[0]);
            }
        }
        let l = choose|l: int|
            #![trigger is_segment(points, time, l)]
            is_segment(points, time, l) && is_between(points, n, context, time, l, out);
        lemma_segment_encloses(points, time, l);
        assert forall|k: int|
            0 <= k < points.len() - 1 && is_at_most(#[trigger] points[k].time(), time)
                && crate::ieee::is_less(time, points[k + 1].time()) implies k == l by {
            lemma_segment_encloses(points, time, k);
            lemma_segment_unique(points, time, k, l);
        }
        assert(is_between(points, n, context, time, l, out));
    }
}

/// The blend of the keyframes `l` and `r` of `points` at the eased share
/// `time`.
pub fn interpolate_points<N: Numerics>(
    points: &Vec<PointData>,
    kind: WrapBaseValueType,
    l: usize,
    r: usize,
    time: Scalar,
    context: &BaseProviderContext,
    n: &N,
) -> (out: BaseValue)
    requires
        all_of_kind(points@, kind),
        context.wf(),
        l < points@.len(),
        r < points@.len(),
    ensures
        exists|s: BlendSteps| #[trigger]
            is_mix(points@, n, context, l as int, r as int, time, s, out),
        out.kind() == kind,
{
    let left = points[l].get_point(context, n);
    let right = points[r].get_point(context, n);
    if points[r].smooth() {
        let before = if l > 0 {
            points[l - 1].get_point(context, n)
        } else {
            left
        };
        let after = if r < points.len() - 1 {
            points[r + 1].get_point(context, n)
        } else {
            right
        };
        match (before, left, right, after) {
            (
                BaseValue::Vector3(pre),
                BaseValue::Vector3(a),
                BaseValue::Vector3(b),
                BaseValue::Vector3(post),
            ) => {
                let out = BaseValue::Vector3(spline(n, pre, a, b, post, time));
                assert(is_mix(
                    points@,
                    n,
                    context,
                    l as int,
                    r as int,
                    time,
                    BlendSteps { before, left, right, after },
                    out,
                ));
                out
            },
            _ => left,
        }
    } else if points[l].hsv_lerp() {
        match (left, right) {
            (BaseValue::Vector4(a), BaseValue::Vector4(b)) => {
                let out = BaseValue::Vector4(lerp_hsv_vec4(a, b, time, n));
                assert(is_mix(
                    points@,
                    n,
                    context,
                    l as int,
                    r as int,
                    time,
                    BlendSteps { before: left, left, right, after: right },
                    out,
                ));
                out
            },
            _ => left,
        }
    } else {
        let out = BaseValue::lerp(left, right, time, n);
        assert(is_mix(
            points@,
            n,
            context,
            l as int,
            r as int,
            time,
            BlendSteps { before: left, left, right, after: right },
            out,
        ));
        out
    }
}

/// The default value of a curve of kind `kind`.
pub fn default_value(kind: WrapBaseValueType) -> (r: BaseValue)
    ensures
        r == default_of(kind),
{
    match kind {
        WrapBaseValueType::Vec3 => BaseValue::Vector3([ZERO, ZERO, ZERO]),
        WrapBaseValueType::Vec4 => BaseValue::Vector4([ZERO, ZERO, ZERO, ZERO]),
        WrapBaseValueType::Quat => BaseValue::Quaternion([ZERO, ZERO, ZERO, ONE]),
        _ => BaseValue::Float(ZERO),
    }
}

/// The value of the curve `points` at `time`, and whether the curve has
/// reached its last keyframe.
pub fn interpolate<N: Numerics>(
    points: &Vec<PointData>,
    kind: WrapBaseValueType,
    time: Scalar,
    context: &BaseProviderContext,
    n: &N,
) -> (r: (BaseValue, bool))
    requires
        all_of_kind(points@, kind),
        kind != WrapBaseValueType::Unknown,
        context.wf(),
    ensures
        interpolates(points@, kind, n, context, time, r.0, r.1),
        r.0.kind() == kind,
{
    if points.len() == 0 {
        return (default_value(kind), true);
    }
    let last_point = &points[points.len() - 1];
    if at_most(last_point.get_time(), time) {
        return (last_point.get_point(context, n), true);
    }
    let first_point = &points[0];
    if points.len() == 1 || at_most(time, first_point.get_time()) {
        return (first_point.get_point(context, n), false);
    }
    let (l, r) = search_index(points, time);
    let point_l = &points[l];
    let point_r = &points[r];

    let span = n.difference(point_r.get_time(), point_l.get_time());
    let mut offset: Scalar = ZERO;
    let normal_time = if !equal(span, ZERO) {
        offset = n.difference(time, point_l.get_time());
        n.quotient(offset, span)
    } else {
        ZERO
    };
    let eased_time = n.ease(point_r.get_easing(), normal_time);
    let out = interpolate_points(points, kind, l, r, eased_time, context, n);
    proof {
        let share = ShareSteps { span, offset, share: normal_time };
        assert(is_share(points@, n, l as int, l + 1, time, share, eased_time));
        let steps = choose|s: BlendSteps| #[trigger]
            is_mix(points@, n, context, l as int, r as int, eased_time, s, out);
        assert(is_mix(points@, n, context, l as int, l + 1, eased_time, steps, out));
        assert(is_between(points@, n, context, time, l as int, out));
        assert(is_segment(points@, time, l as int));
    }
    (out, false)
}

/// Whether a keyframe of `points` depends on a channel of the host.
pub fn has_base_provider(points: &Vec<PointData>) -> (r: bool)
    ensures
        r == any_live(points@),
{
    let mut i: usize = 0;
    while i < points.len()
        invariant
            i <= points@.len(),
            forall|j: int| 0 <= j < i ==> !(#[trigger] points@[j]).live(),
        decreases points@.len() - i,
    {
        if points[i].has_base_provider() {
            return true;
        }
        i = i + 1;
    }
    false
}

} // verus!
