//! The two blends that are more than a straight line: the spline through
//! four 3-vectors and the blend of two colours by hue.
use crate::ieee::{less_than, is_less, Scalar, FIVE, FOUR, HALF, PI, TAU, THREE, TWO};
use crate::numerics::{
    is_difference, is_hsv_of, is_lerp, is_product, is_rgb_of, is_sum, lerp, Numerics,
};
use vstd::prelude::*;

verus! {

/// Minus three.
pub const MINUS_THREE: Scalar = 0xc040_0000;

/// Minus pi, rounded to single precision.
pub const MINUS_PI: Scalar = 0xc049_0fdb;

/// The pattern of the number with the opposite sign.
pub open spec fn negated(x: Scalar) -> Scalar {
    x ^ 0x8000_0000
}

/// The number with the opposite sign.
pub fn negate(x: Scalar) -> (r: Scalar)
    ensures
        r == negated(x),
{
    x ^ 0x8000_0000
}

/// The steps by which the four weights of the spline are computed at `t`.
pub struct Weights {
    /// `t * t`
    pub square: Scalar,
    /// `t * t * t`
    pub cube: Scalar,
    pub twice_square: Scalar,
    pub first_partial: Scalar,
    pub first: Scalar,
    pub thrice_cube: Scalar,
    pub five_squares: Scalar,
    pub second_partial: Scalar,
    pub second: Scalar,
    pub minus_thrice_cube: Scalar,
    pub four_squares: Scalar,
    pub third_partial: Scalar,
    pub third: Scalar,
    pub fourth: Scalar,
}

/// `w` holds values that `n` gives for the steps of the four weights at
/// `t`: `-t^3 + 2t^2 - t`, `3t^3 - 5t^2 + 2`, `-3t^3 + 4t^2 + t` and `t^3 - t^2`,
/// each computed from left to right.
pub open spec fn is_weights<N: Numerics>(n: &N, t: Scalar, w: Weights) -> bool {
    &&& is_product(n, t, t, w.square)
    &&& is_product(n, w.square, t, w.cube)
    &&& is_product(n, TWO, w.square, w.twice_square)
    &&& is_sum(n, negated(w.cube), w.twice_square, w.first_partial)
    &&& is_difference(n, w.first_partial, t, w.first)
    &&& is_product(n, THREE, w.cube, w.thrice_cube)
    &&& is_product(n, FIVE, w.square, w.five_squares)
    &&& is_difference(n, w.thrice_cube, w.five_squares, w.second_partial)
    &&& is_sum(n, w.second_partial, TWO, w.second)
    &&& is_product(n, MINUS_THREE, w.cube, w.minus_thrice_cube)
    &&& is_product(n, FOUR, w.square, w.four_squares)
    &&& is_sum(n, w.minus_thrice_cube, w.four_squares, w.third_partial)
    &&& is_sum(n, w.third_partial, t, w.third)
    &&& is_difference(n, w.cube, w.square, w.fourth)
}

/// The steps by which one number of the spline is computed from the four
/// weights.
pub struct Terms {
    pub before: Scalar,
    pub from: Scalar,
    pub to: Scalar,
    pub after: Scalar,
    pub two: Scalar,
    pub three: Scalar,
    pub four: Scalar,
}

/// `out` is a value that `n` gives for half the sum of the four numbers
/// `pre`, `a`, `b`, `post`, each times its weight.
pub open spec fn is_weighted<N: Numerics>(
    n: &N,
    w: Weights,
    pre: Scalar,
    a: Scalar,
    b: Scalar,
    post: Scalar,
    s: Terms,
    out: Scalar,
) -> bool {
    &&& is_product(n, pre, w.first, s.before)
    &&& is_product(n, a, w.second, s.from)
    &&& is_product(n, b, w.third, s.to)
    &&& is_product(n, post, w.fourth, s.after)
    &&& is_sum(n, s.before, s.from, s.two)
    &&& is_sum(n, s.two, s.to, s.three)
    &&& is_sum(n, s.three, s.after, s.four)
    &&& is_product(n, HALF, s.four, out)
}

/// `out` is a point that `n` gives on the spline from `a` to `b` at `t`,
/// with `pre` before `a` and `post` after `b`:
/// `0.5 * ((-t^3 + 2t^2 - t) pre + (3t^3 - 5t^2 + 2) a + (-3t^3 + 4t^2 + t) b + (t^3 - t^2) post)`.
pub open spec fn is_spline<N: Numerics>(
    n: &N,
    pre: [Scalar; 3],
    a: [Scalar; 3],
    b: [Scalar; 3],
    post: [Scalar; 3],
    t: Scalar,
    out: [Scalar; 3],
) -> bool {
    exists|w: Weights, x: Terms, y: Terms, z: Terms|
        #![trigger is_weighted(n, w, pre[0], a[0], b[0], post[0], x, out[0]), is_weighted(n, w, pre[1], a[1], b[1], post[1], y, out[1]), is_weighted(n, w, pre[2], a[2], b[2], post[2], z, out[2])]
        {
            &&& is_weights(n, t, w)
            &&& is_weighted(n, w, pre[0], a[0], b[0], post[0], x, out[0])
            &&& is_weighted(n, w, pre[1], a[1], b[1], post[1], y, out[1])
            &&& is_weighted(n, w, pre[2], a[2], b[2], post[2], z, out[2])
        }
}

/// The four weights of the spline at `t`.
fn spline_weights<N: Numerics>(n: &N, t: Scalar) -> (r: (
    Scalar,
    Scalar,
    Scalar,
    Scalar,
    Ghost<Weights>,
))
    ensures
        is_weights(n, t, r.4@),
        r.0 == r.4@.first,
        r.1 == r.4@.second,
        r.2 == r.4@.third,
        r.3 == r.4@.fourth,
{
    let square = n.product(t, t);
    let cube = n.product(square, t);
    let twice_square = n.product(TWO, square);
    let first_partial = n.sum(negate(cube), twice_square);
    let first = n.difference(first_partial, t);
    let thrice_cube = n.product(THREE, cube);
    let five_squares = n.product(FIVE, square);
    let second_partial = n.difference(thrice_cube, five_squares);
    let second = n.sum(second_partial, TWO);
    let minus_thrice_cube = n.product(MINUS_THREE, cube);
    let four_squares = n.product(FOUR, square);
    let third_partial = n.sum(minus_thrice_cube, four_squares);
    let third = n.sum(third_partial, t);
    let fourth = n.difference(cube, square);
    (
        first,
        second,
        third,
        fourth,
        Ghost(
            Weights {
                square,
                cube,
                twice_square,
                first_partial,
                first,
                thrice_cube,
                five_squares,
                second_partial,
                second,
                minus_thrice_cube,
                four_squares,
                third_partial,
                third,
                fourth,
            },
        ),
    )
}

/// Half the sum of four numbers, each times its weight.
fn weighted<N: Numerics>(
    n: &N,
    q: &(Scalar, Scalar, Scalar, Scalar, Ghost<Weights>),
    pre: Scalar,
    a: Scalar,
    b: Scalar,
    post: Scalar,
) -> (r: (Scalar, Ghost<Terms>))
    requires
        q.0 == q.4@.first,
        q.1 == q.4@.second,
        q.2 == q.4@.third,
        q.3 == q.4@.fourth,
    ensures
        is_weighted(n, q.4@, pre, a, b, post, r.1@, r.0),
{
    let before = n.product(pre, q.0);
    let from = n.product(a, q.1);
    let to = n.product(b, q.2);
    let after = n.product(post, q.3);
    let two = n.sum(before, from);
    let three = n.sum(two, to);
    let four = n.sum(three, after);
    let out = n.product(HALF, four);
    (out, Ghost(Terms { before, from, to, after, two, three, four }))
}

/// The point at `t` on the spline from `a` to `b`, with `pre` before `a`
/// and `post` after `b`.
pub fn spline<N: Numerics>(
    n: &N,
    pre: [Scalar; 3],
    a: [Scalar; 3],
    b: [Scalar; 3],
    post: [Scalar; 3],
    t: Scalar,
) -> (r: [Scalar; 3])
    ensures
        is_spline(n, pre, a, b, post, t, r),
{
    let q = spline_weights(n, t);
    let x = weighted(n, &q, pre[0], a[0], b[0], post[0]);
    let y = weighted(n, &q, pre[1], a[1], b[1], post[1]);
    let z = weighted(n, &q, pre[2], a[2], b[2], post[2]);
    let r = [x.0, y.0, z.0];
    assert(is_weighted(n, q.4@, pre[0], a[0], b[0], post[0], x.1@, r[0]));
    assert(is_weighted(n, q.4@, pre[1], a[1], b[1], post[1], y.1@, r[1]));
    assert(is_weighted(n, q.4@, pre[2], a[2], b[2], post[2], z.1@, r[2]));
    r
}

/// The steps by which two colours are blended by hue.
pub struct HueSteps {
    /// Hue, saturation and value of the first colour.
    pub from: [Scalar; 3],
    /// Hue, saturation and value of the second colour.
    pub to: [Scalar; 3],
    /// The second hue minus the first.
    pub turn: Scalar,
    /// The turn brought into the half circle about zero.
    pub arc: Scalar,
    pub swing: Scalar,
    pub hue: Scalar,
    pub saturation: Scalar,
    pub value: Scalar,
    pub rgb: [Scalar; 3],
}

/// The red, green and blue parts of a colour.
pub open spec fn rgb_part(c: [Scalar; 4]) -> [Scalar; 3] {
    [c[0], c[1], c[2]]
}

/// `arc` is a value that `n` gives for the turn `turn` brought into the
/// half circle about zero: a turn of more than pi goes the other way
/// round, and so does one of less than minus pi.
pub open spec fn is_short_arc<N: Numerics>(n: &N, turn: Scalar, arc: Scalar) -> bool {
    if is_less(PI, turn) {
        is_difference(n, turn, TAU, arc)
    } else if is_less(turn, MINUS_PI) {
        is_sum(n, turn, TAU, arc)
    } else {
        arc == turn
    }
}

/// `s` holds values that `n` gives for the steps of the blend by hue of
/// the colours `a` and `b` at `t`, and `out` is its result: the hue moves
/// along the shorter arc, saturation, value and alpha move linearly.
pub open spec fn is_hue_steps<N: Numerics>(
    n: &N,
    a: [Scalar; 4],
    b: [Scalar; 4],
    t: Scalar,
    s: HueSteps,
    out: [Scalar; 4],
) -> bool {
    &&& is_hsv_of(n, rgb_part(a), s.from)
    &&& is_hsv_of(n, rgb_part(b), s.to)
    &&& is_difference(n, s.to[0], s.from[0], s.turn)
    &&& is_short_arc(n, s.turn, s.arc)
    &&& is_product(n, s.arc, t, s.swing)
    &&& is_sum(n, s.from[0], s.swing, s.hue)
    &&& is_lerp(n, s.from[1], s.to[1], t, s.saturation)
    &&& is_lerp(n, s.from[2], s.to[2], t, s.value)
    &&& is_rgb_of(n, [s.hue, s.saturation, s.value], s.rgb)
    &&& out[0] == s.rgb[0]
    &&& out[1] == s.rgb[1]
    &&& out[2] == s.rgb[2]
    &&& is_lerp(n, a[3], b[3], t, out[3])
}

/// `out` is a colour that `n` gives for the blend by hue of `a` and `b`
/// at `t`.
pub open spec fn is_hue_blend<N: Numerics>(
    n: &N,
    a: [Scalar; 4],
    b: [Scalar; 4],
    t: Scalar,
    out: [Scalar; 4],
) -> bool {
    exists|s: HueSteps| #[trigger] is_hue_steps(n, a, b, t, s, out)
}

/// The blend of the colours `color1` and `color2` at `time`, by hue,
/// saturation and value: red, green, blue and alpha.
pub fn lerp_hsv_vec4<N: Numerics>(color1: [Scalar; 4], color2: [Scalar; 4], time: Scalar, n: &N) -> (r:
    [Scalar; 4])
    ensures
        is_hue_blend(n, color1, color2, time, r),
{
    let from = n.rgb_to_hsv([color1[0], color1[1], color1[2]]);
    let to = n.rgb_to_hsv([color2[0], color2[1], color2[2]]);
    let turn = n.difference(to[0], from[0]);
    let arc = if less_than(PI, turn) {
        n.difference(turn, TAU)
    } else if less_than(turn, MINUS_PI) {
        n.sum(turn, TAU)
    } else {
        turn
    };
    let swing = n.product(arc, time);
    let hue = n.sum(from[0], swing);
    let saturation = lerp(n, from[1], to[1], time);
    let value = lerp(n, from[2], to[2], time);
    let rgb = n.hsv_to_rgb([hue, saturation, value]);
    let alpha = lerp(n, color1[3], color2[3], time);
    let r = [rgb[0], rgb[1], rgb[2], alpha];
    proof {
        let s = HueSteps { from, to, turn, arc, swing, hue, saturation, value, rgb };
        assert([color1[0], color1[1], color1[2]] =~= rgb_part(color1));
        assert([color2[0], color2[1], color2[2]] =~= rgb_part(color2));
        assert(is_hue_steps(n, color1, color2, time, s, r));
    }
    r
}

} // verus!
