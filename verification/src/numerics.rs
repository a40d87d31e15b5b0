//! The arithmetic that the engine asks of its caller.
//!
//! The engine never computes with numbers itself. Whoever drives it hands
//! in a `Numerics`: single-precision arithmetic, the easing curves, and
//! the rotation and colour conversions. Every argument and result is a bit
//! pattern (`ieee::Scalar`). The contracts of the engine say which calls it
//! makes on which arguments, and what it does with whatever comes back:
//! the predicates below name "`r` is a result that this `Numerics` gives
//! for this call".
use crate::easings::functions::Functions;
use crate::ieee::Scalar;
use crate::modifiers::operation::Operation;
use vstd::prelude::*;

verus! {

/// Single-precision arithmetic and the curves and conversions built on it.
pub trait Numerics {
    /// `a + b`.
    fn sum(&self, a: Scalar, b: Scalar) -> Scalar;

    /// `a - b`.
    fn difference(&self, a: Scalar, b: Scalar) -> Scalar;

    /// `a * b`.
    fn product(&self, a: Scalar, b: Scalar) -> Scalar;

    /// `a / b`.
    fn quotient(&self, a: Scalar, b: Scalar) -> Scalar;

    /// The number nearest to the integer `n`.
    fn from_count(&self, n: u32) -> Scalar;

    /// The easing curve `easing` at `t`.
    fn ease(&self, easing: Functions, t: Scalar) -> Scalar;

    /// The point at `t` on the shortest arc from the rotation `a` to the
    /// rotation `b`, both as x, y, z, w.
    fn slerp(&self, a: [Scalar; 4], b: [Scalar; 4], t: Scalar) -> [Scalar; 4];

    /// The rotation, as x, y, z, w, that turns by the angles `euler`, given
    /// in degrees about x, y and z and applied about z, then x, then y.
    fn euler_to_quat(&self, euler: [Scalar; 3]) -> [Scalar; 4];

    /// The angles, in degrees about x, y and z, of the rotation `quat`.
    fn quat_to_euler(&self, quat: [Scalar; 4]) -> [Scalar; 3];

    /// Hue (in radians), saturation and value of the colour with the red,
    /// green and blue parts `rgb`.
    fn rgb_to_hsv(&self, rgb: [Scalar; 3]) -> [Scalar; 3];

    /// Red, green and blue of the colour with hue (in radians), saturation
    /// and value `hsv`.
    fn hsv_to_rgb(&self, hsv: [Scalar; 3]) -> [Scalar; 3];
}

/// `r` is a sum that `n` gives for `a` and `b`.
pub open spec fn is_sum<N: Numerics>(n: &N, a: Scalar, b: Scalar, r: Scalar) -> bool {
    call_ensures(N::sum, (n, a, b), r)
}

/// `r` is a difference that `n` gives for `a` and `b`.
pub open spec fn is_difference<N: Numerics>(n: &N, a: Scalar, b: Scalar, r: Scalar) -> bool {
    call_ensures(N::difference, (n, a, b), r)
}

/// `r` is a product that `n` gives for `a` and `b`.
pub open spec fn is_product<N: Numerics>(n: &N, a: Scalar, b: Scalar, r: Scalar) -> bool {
    call_ensures(N::product, (n, a, b), r)
}

/// `r` is a quotient that `n` gives for `a` and `b`.
pub open spec fn is_quotient<N: Numerics>(n: &N, a: Scalar, b: Scalar, r: Scalar) -> bool {
    call_ensures(N::quotient, (n, a, b), r)
}

/// `r` is what `n` gives for the integer `count`.
pub open spec fn is_from_count<N: Numerics>(n: &N, count: u32, r: Scalar) -> bool {
    call_ensures(N::from_count, (n, count), r)
}

/// `r` is what `n` gives for the curve `easing` at `t`.
pub open spec fn is_eased<N: Numerics>(n: &N, easing: Functions, t: Scalar, r: Scalar) -> bool {
    call_ensures(N::ease, (n, easing, t), r)
}

/// `r` is what `n` gives for the arc from `a` to `b` at `t`.
pub open spec fn is_slerp<N: Numerics>(
    n: &N,
    a: [Scalar; 4],
    b: [Scalar; 4],
    t: Scalar,
    r: [Scalar; 4],
) -> bool {
    call_ensures(N::slerp, (n, a, b, t), r)
}

/// `r` is the rotation that `n` gives for the angles `euler`.
pub open spec fn is_quat_of<N: Numerics>(n: &N, euler: [Scalar; 3], r: [Scalar; 4]) -> bool {
    call_ensures(N::euler_to_quat, (n, euler), r)
}

/// `r` are the angles that `n` gives for the rotation `quat`.
pub open spec fn is_euler_of<N: Numerics>(n: &N, quat: [Scalar; 4], r: [Scalar; 3]) -> bool {
    call_ensures(N::quat_to_euler, (n, quat), r)
}

/// `r` is what `n` gives for the red, green and blue parts `rgb`.
pub open spec fn is_hsv_of<N: Numerics>(n: &N, rgb: [Scalar; 3], r: [Scalar; 3]) -> bool {
    call_ensures(N::rgb_to_hsv, (n, rgb), r)
}

/// `r` is what `n` gives for hue, saturation and value `hsv`.
pub open spec fn is_rgb_of<N: Numerics>(n: &N, hsv: [Scalar; 3], r: [Scalar; 3]) -> bool {
    call_ensures(N::hsv_to_rgb, (n, hsv), r)
}

/// `r` is a value that `n` gives when `op` combines the running value `acc`
/// with `v`: their sum, difference, product or quotient, and `v` itself
/// where `op` is `Replace`.
pub open spec fn is_combined<N: Numerics>(
    n: &N,
    op: Operation,
    acc: Scalar,
    v: Scalar,
    r: Scalar,
) -> bool {
    match op {
        Operation::Replace => r == v,
        Operation::Add => is_sum(n, acc, v, r),
        Operation::Sub => is_difference(n, acc, v, r),
        Operation::Mul => is_product(n, acc, v, r),
        Operation::Div => is_quotient(n, acc, v, r),
    }
}

/// `r` is a value that `n` gives for `a + t * (b - a)`, computed as the
/// difference, then the product, then the sum.
pub open spec fn is_lerp<N: Numerics>(n: &N, a: Scalar, b: Scalar, t: Scalar, r: Scalar) -> bool {
    exists|d: Scalar, p: Scalar|
        #![trigger is_difference(n, b, a, d), is_product(n, d, t, p)]
        is_difference(n, b, a, d) && is_product(n, d, t, p) && is_sum(n, a, p, r)
}

/// `op` applied by `n` to the running value `acc` and `v`.
pub fn combine<N: Numerics>(n: &N, op: Operation, acc: Scalar, v: Scalar) -> (r: Scalar)
    ensures
        is_combined(n, op, acc, v, r),
{
    match op {
        Operation::Replace => v,
        Operation::Add => n.sum(acc, v),
        Operation::Sub => n.difference(acc, v),
        Operation::Mul => n.product(acc, v),
        Operation::Div => n.quotient(acc, v),
    }
}

/// `a + t * (b - a)`, by `n`.
pub fn lerp<N: Numerics>(n: &N, a: Scalar, b: Scalar, t: Scalar) -> (r: Scalar)
    ensures
        is_lerp(n, a, b, t, r),
{
    let d = n.difference(b, a);
    let p = n.product(d, t);
    let r = n.sum(a, p);
    assert(is_difference(n, b, a, d) && is_product(n, d, t, p) && is_sum(n, a, p, r));
    r
}

/// `r` holds, place by place, a value that `n` gives when `op` combines
/// the value of `acc` with that of `v`.
pub open spec fn is_combined_each<N: Numerics>(
    n: &N,
    op: Operation,
    acc: Seq<Scalar>,
    v: Seq<Scalar>,
    r: Seq<Scalar>,
) -> bool {
    &&& r.len() == acc.len()
    &&& forall|i: int| 0 <= i < acc.len() ==> is_combined(n, op, acc[i], v[i], #[trigger] r[i])
}

/// `r` holds, place by place, a value that `n` gives for the linear blend
/// of `a` and `b` at `t`.
pub open spec fn is_lerp_each<N: Numerics>(
    n: &N,
    a: Seq<Scalar>,
    b: Seq<Scalar>,
    t: Scalar,
    r: Seq<Scalar>,
) -> bool {
    &&& r.len() == a.len()
    &&& forall|i: int| 0 <= i < a.len() ==> is_lerp(n, a[i], b[i], t, #[trigger] r[i])
}

/// `op` applied by `n` to three running values and three values.
pub fn combine3<N: Numerics>(n: &N, op: Operation, acc: [Scalar; 3], v: [Scalar; 3]) -> (r: [
    Scalar;
    3
])
    ensures
        is_combined_each(n, op, acc@, v@, r@),
{
    [combine(n, op, acc[0], v[0]), combine(n, op, acc[1], v[1]), combine(n, op, acc[2], v[2])]
}

/// `op` applied by `n` to four running values and four values.
pub fn combine4<N: Numerics>(n: &N, op: Operation, acc: [Scalar; 4], v: [Scalar; 4]) -> (r: [
    Scalar;
    4
])
    ensures
        is_combined_each(n, op, acc@, v@, r@),
{
    [
        combine(n, op, acc[0], v[0]),
        combine(n, op, acc[1], v[1]),
        combine(n, op, acc[2], v[2]),
        combine(n, op, acc[3], v[3]),
    ]
}

/// The linear blend of three values with three values at `t`, by `n`.
pub fn lerp3<N: Numerics>(n: &N, a: [Scalar; 3], b: [Scalar; 3], t: Scalar) -> (r: [Scalar; 3])
    ensures
        is_lerp_each(n, a@, b@, t, r@),
{
    [lerp(n, a[0], b[0], t), lerp(n, a[1], b[1], t), lerp(n, a[2], b[2], t)]
}

/// The linear blend of four values with four values at `t`, by `n`.
pub fn lerp4<N: Numerics>(n: &N, a: [Scalar; 4], b: [Scalar; 4], t: Scalar) -> (r: [Scalar; 4])
    ensures
        is_lerp_each(n, a@, b@, t, r@),
{
    [lerp(n, a[0], b[0], t), lerp(n, a[1], b[1], t), lerp(n, a[2], b[2], t), lerp(n, a[3], b[3], t)]
}

} // verus!
