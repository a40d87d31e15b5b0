//! Single-precision numbers as bit patterns.
//!
//! Every time, component and blend factor of the engine is carried as the
//! IEEE-754 binary32 bit pattern of the number (`Scalar`). The engine orders
//! and compares such patterns by the rules below, moves them around
//! unchanged, and leaves all arithmetic on them to a `Numerics`
//! implementation supplied by the caller.
use vstd::prelude::*;

verus! {

/// The bit pattern of a single-precision number.
pub type Scalar = u32;

/// Positive zero.
pub const ZERO: Scalar = 0;

/// One.
pub const ONE: Scalar = 0x3f80_0000;

/// One half.
pub const HALF: Scalar = 0x3f00_0000;

/// Two.
pub const TWO: Scalar = 0x4000_0000;

/// Three.
pub const THREE: Scalar = 0x4040_0000;

/// Four.
pub const FOUR: Scalar = 0x4080_0000;

/// Five.
pub const FIVE: Scalar = 0x40a0_0000;

/// Sixty, the number of seconds in a minute.
pub const SIXTY: Scalar = 0x4270_0000;

/// The circle constant pi, rounded to single precision.
pub const PI: Scalar = 0x4049_0fdb;

/// Twice pi, rounded to single precision.
pub const TAU: Scalar = 0x40c9_0fdb;

/// The bits of a pattern below the sign bit.
pub open spec fn magnitude(x: Scalar) -> int {
    (x & 0x7fff_ffff) as int
}

/// Whether the sign bit of a pattern is set.
pub open spec fn is_negative(x: Scalar) -> bool {
    x & 0x8000_0000 != 0
}

/// Whether a pattern is not a number: all exponent bits set and a
/// non-zero fraction.
pub open spec fn is_nan(x: Scalar) -> bool {
    magnitude(x) > 0x7f80_0000
}

/// Whether a pattern is positive or negative zero.
pub open spec fn is_zero(x: Scalar) -> bool {
    magnitude(x) == 0
}

/// An integer that orders the patterns of numbers as the numbers themselves
/// are ordered. Both zeros map to 0, a negative number to the negation of
/// its magnitude.
pub open spec fn order_key(x: Scalar) -> int {
    if is_negative(x) {
        -magnitude(x)
    } else {
        magnitude(x)
    }
}

/// `a < b` as the standard defines it: false when either side is not a
/// number.
pub open spec fn is_less(a: Scalar, b: Scalar) -> bool {
    !is_nan(a) && !is_nan(b) && order_key(a) < order_key(b)
}

/// `a <= b` as the standard defines it: false when either side is not a
/// number.
pub open spec fn is_at_most(a: Scalar, b: Scalar) -> bool {
    !is_nan(a) && !is_nan(b) && order_key(a) <= order_key(b)
}

/// `a == b` as the standard defines it: false when either side is not a
/// number, true of the two zeros.
pub open spec fn is_equal(a: Scalar, b: Scalar) -> bool {
    !is_nan(a) && !is_nan(b) && order_key(a) == order_key(b)
}

/// The smaller of `x` and one, and one when `x` is not a number.
pub open spec fn at_most_one(x: Scalar) -> Scalar {
    if is_less(x, ONE) {
        x
    } else {
        ONE
    }
}

/// `x` limited to the range from zero to one; a pattern that is not a
/// number stays as it is.
pub open spec fn unit_clamp(x: Scalar) -> Scalar {
    if is_less(x, ZERO) {
        ZERO
    } else if is_less(ONE, x) {
        ONE
    } else {
        x
    }
}

proof fn lemma_magnitude_bounds(x: Scalar)
    ensures
        0 <= magnitude(x) <= 0x7fff_ffff,
        is_negative(x) <==> x >= 0x8000_0000,
{
    assert(x & 0x7fff_ffff <= 0x7fff_ffff) by (bit_vector);
    assert((x & 0x8000_0000 != 0) <==> x >= 0x8000_0000) by (bit_vector);
}

/// Whether `x` is not a number.
pub fn not_a_number(x: Scalar) -> (r: bool)
    ensures
        r == is_nan(x),
{
    (x & 0x7fff_ffff) > 0x7f80_0000
}

/// Whether `x` is one of the two zeros.
pub fn zero(x: Scalar) -> (r: bool)
    ensures
        r == is_zero(x),
{
    (x & 0x7fff_ffff) == 0
}

/// The order key of a pattern, as a machine integer.
pub fn key_of(x: Scalar) -> (k: i64)
    ensures
        k == order_key(x),
{
    proof {
        lemma_magnitude_bounds(x);
    }
    let m: i64 = (x & 0x7fff_ffff) as i64;
    if x >= 0x8000_0000 {
        -m
    } else {
        m
    }
}

/// `a < b`.
pub fn less_than(a: Scalar, b: Scalar) -> (r: bool)
    ensures
        r == is_less(a, b),
{
    !not_a_number(a) && !not_a_number(b) && key_of(a) < key_of(b)
}

/// `a <= b`.
pub fn at_most(a: Scalar, b: Scalar) -> (r: bool)
    ensures
        r == is_at_most(a, b),
{
    !not_a_number(a) && !not_a_number(b) && key_of(a) <= key_of(b)
}

/// `a == b`, by value: the two zeros are equal, and nothing equals a
/// pattern that is not a number.
pub fn equal(a: Scalar, b: Scalar) -> (r: bool)
    ensures
        r == is_equal(a, b),
{
    !not_a_number(a) && !not_a_number(b) && key_of(a) == key_of(b)
}

/// The smaller of `x` and one.
pub fn min_one(x: Scalar) -> (r: Scalar)
    ensures
        r == at_most_one(x),
{
    if less_than(x, ONE) {
        x
    } else {
        ONE
    }
}

/// `x` limited to the range from zero to one.
pub fn clamp_unit(x: Scalar) -> (r: Scalar)
    ensures
        r == unit_clamp(x),
{
    if less_than(x, ZERO) {
        ZERO
    } else if less_than(ONE, x) {
        ONE
    } else {
        x
    }
}

/// The order on numbers is total: of two patterns that are numbers, one is
/// at most the other.
pub proof fn lemma_le_total(a: Scalar, b: Scalar)
    requires
        !is_nan(a),
        !is_nan(b),
    ensures
        is_at_most(a, b) || is_at_most(b, a),
        is_less(a, b) <==> !is_at_most(b, a),
{
}

/// The order on numbers is transitive.
pub proof fn lemma_le_transitive(a: Scalar, b: Scalar, c: Scalar)
    requires
        is_at_most(a, b),
        is_at_most(b, c),
    ensures
        is_at_most(a, c),
{
}

} // verus!
