//! A value of one of the four kinds.
use crate::ffi::types::WrapBaseValueType;
use crate::ieee::{equal, is_equal, Scalar, ZERO};
use crate::numerics::{
    is_lerp, is_lerp_each, is_product, is_quotient, is_slerp, lerp, lerp3, lerp4, Numerics,
};
use vstd::prelude::*;

verus! {

/// `core::slice::from_ref`: the slice of length one that holds `*s`.
pub assume_specification<T>[ core::slice::from_ref::<T> ](s: &T) -> (r: &[T])
    ensures
        r@ == seq![*s],
;

/// A number, a 3-vector, a 4-vector, or a rotation as x, y, z, w.
#[derive(Clone, Copy, Debug)]
pub enum BaseValue {
    Float(Scalar),
    Vector3([Scalar; 3]),
    Vector4([Scalar; 4]),
    Quaternion([Scalar; 4]),
}

impl View for BaseValue {
    type V = Seq<Scalar>;

    /// The numbers of the value, in order.
    open spec fn view(&self) -> Seq<Scalar> {
        match *self {
            BaseValue::Float(v) => seq![v],
            BaseValue::Vector3(v) => v@,
            BaseValue::Vector4(v) => v@,
            BaseValue::Quaternion(v) => v@,
        }
    }
}

impl Default for BaseValue {
    fn default() -> (r: BaseValue)
        ensures
            r == BaseValue::Float(ZERO),
    {
        BaseValue::Float(ZERO)
    }
}

/// The value of the kind that `quat` and the count of `numbers` call for:
/// one number is a `Float`, three a `Vector3`, four a `Quaternion` where
/// `quat` is set and a `Vector4` where it is not.
pub open spec fn value_of(numbers: Seq<Scalar>, quat: bool) -> BaseValue {
    if numbers.len() == 1 {
        BaseValue::Float(numbers[0])
    } else if numbers.len() == 3 {
        BaseValue::Vector3([numbers[0], numbers[1], numbers[2]])
    } else if quat {
        BaseValue::Quaternion([numbers[0], numbers[1], numbers[2], numbers[3]])
    } else {
        BaseValue::Vector4([numbers[0], numbers[1], numbers[2], numbers[3]])
    }
}

/// Whether `a` and `b` are of one kind and equal number by number, as
/// numbers are equal: the two zeros are, and nothing equals a pattern that
/// is not a number.
pub open spec fn same_value(a: BaseValue, b: BaseValue) -> bool {
    &&& a.kind() == b.kind()
    &&& forall|i: int| 0 <= i < a@.len() ==> is_equal(#[trigger] a@[i], b@[i])
}

/// `r` is a blend that `n` gives of `a` and `b` at `t`: of their kind,
/// linear in each number, and along the shortest arc for rotations.
pub open spec fn is_blend<N: Numerics>(
    n: &N,
    a: BaseValue,
    b: BaseValue,
    t: Scalar,
    r: BaseValue,
) -> bool {
    match (a, b) {
        (BaseValue::Float(x), BaseValue::Float(y)) => r is Float && is_lerp(n, x, y, t, r->Float_0),
        (BaseValue::Vector3(x), BaseValue::Vector3(y)) => r is Vector3 && is_lerp_each(
            n,
            x@,
            y@,
            t,
            r@,
        ),
        (BaseValue::Vector4(x), BaseValue::Vector4(y)) => r is Vector4 && is_lerp_each(
            n,
            x@,
            y@,
            t,
            r@,
        ),
        (BaseValue::Quaternion(x), BaseValue::Quaternion(y)) => r is Quaternion && is_slerp(
            n,
            x,
            y,
            t,
            r->Quaternion_0,
        ),
        _ => false,
    }
}

/// `r` is of the kind of `a` and holds, place by place, a product that `n`
/// gives for the number of `a` and `rhs`.
pub open spec fn is_scaled<N: Numerics>(n: &N, a: BaseValue, rhs: Scalar, r: BaseValue) -> bool {
    &&& r.kind() == a.kind()
    &&& forall|i: int| 0 <= i < a@.len() ==> is_product(n, a@[i], rhs, #[trigger] r@[i])
}

/// `r` is of the kind of `a` and holds, place by place, a quotient that
/// `n` gives for the number of `a` and `rhs`.
pub open spec fn is_divided<N: Numerics>(n: &N, a: BaseValue, rhs: Scalar, r: BaseValue) -> bool {
    &&& r.kind() == a.kind()
    &&& forall|i: int| 0 <= i < a@.len() ==> is_quotient(n, a@[i], rhs, #[trigger] r@[i])
}

impl BaseValue {
    /// The kind of the value.
    pub open spec fn kind(self) -> WrapBaseValueType {
        match self {
            BaseValue::Float(_) => WrapBaseValueType::Float,
            BaseValue::Vector3(_) => WrapBaseValueType::Vec3,
            BaseValue::Vector4(_) => WrapBaseValueType::Vec4,
            BaseValue::Quaternion(_) => WrapBaseValueType::Quat,
        }
    }

    /// The value that the numbers of `value` make up. A count other than
    /// 1, 3 or 4 makes no value.
    #[inline(always)]
    pub fn from_vec(value: Vec<Scalar>, quat: bool) -> (r: BaseValue)
        requires
            value@.len() == 1 || value@.len() == 3 || value@.len() == 4,
        ensures
            r == value_of(value@, quat),
            r@ == value@,
    {
        BaseValue::from_slice(value.as_slice(), quat)
    }

    /// The value that the numbers of `value` make up. A count other than
    /// 1, 3 or 4 makes no value.
    pub fn from_slice(value: &[Scalar], quat: bool) -> (r: BaseValue)
        requires
            value@.len() == 1 || value@.len() == 3 || value@.len() == 4,
        ensures
            r == value_of(value@, quat),
            r@ == value@,
    {
        let r = if value.len() == 1 {
            BaseValue::Float(value[0])
        } else if value.len() == 3 {
            BaseValue::Vector3([value[0], value[1], value[2]])
        } else if quat {
            BaseValue::Quaternion([value[0], value[1], value[2], value[3]])
        } else {
            BaseValue::Vector4([value[0], value[1], value[2], value[3]])
        };
        assert(r@ =~= value@);
        r
    }

    /// The number, where the value is one.
    pub fn as_float(&self) -> (r: Option<Scalar>)
        ensures
            r == (match *self {
                BaseValue::Float(v) => Some(v),
                _ => None,
            }),
    {
        match self {
            BaseValue::Float(v) => Some(*v),
            _ => None,
        }
    }

    /// The 3-vector, where the value is one.
    pub fn as_vec3(&self) -> (r: Option<[Scalar; 3]>)
        ensures
            r == (match *self {
                BaseValue::Vector3(v) => Some(v),
                _ => None,
            }),
    {
        match self {
            BaseValue::Vector3(v) => Some(*v),
            _ => None,
        }
    }

    /// The 4-vector, where the value is one.
    pub fn as_vec4(&self) -> (r: Option<[Scalar; 4]>)
        ensures
            r == (match *self {
                BaseValue::Vector4(v) => Some(v),
                _ => None,
            }),
    {
        match self {
            BaseValue::Vector4(v) => Some(*v),
            _ => None,
        }
    }

    /// The rotation, where the value is one.
    pub fn as_quat(&self) -> (r: Option<[Scalar; 4]>)
        ensures
            r == (match *self {
                BaseValue::Quaternion(v) => Some(v),
                _ => None,
            }),
    {
        match self {
            BaseValue::Quaternion(v) => Some(*v),
            _ => None,
        }
    }

    /// How many numbers the value holds.
    pub fn len(&self) -> (r: usize)
        ensures
            r == self@.len(),
            r == self.kind().width(),
    {
        match self {
            BaseValue::Float(_) => 1,
            BaseValue::Vector3(_) => 3,
            BaseValue::Vector4(_) => 4,
            BaseValue::Quaternion(_) => 4,
        }
    }

    /// A value is never empty.
    pub fn is_empty(&self) -> (r: bool)
        ensures
            !r,
    {
        false
    }

    /// The numbers of the value, in place.
    pub fn as_slice(&self) -> (r: &[Scalar])
        ensures
            r@ == self@,
    {
        match self {
            BaseValue::Float(v) => core::slice::from_ref(v),
            BaseValue::Vector3(v) => v.as_slice(),
            BaseValue::Vector4(v) => v.as_slice(),
            BaseValue::Quaternion(v) => v.as_slice(),
        }
    }

    /// The blend of `a` and `b` at `t`. Values of two kinds have no blend.
    pub fn lerp<N: Numerics>(a: BaseValue, b: BaseValue, t: Scalar, n: &N) -> (r: BaseValue)
        requires
            a.kind() == b.kind(),
        ensures
            is_blend(n, a, b, t, r),
            r.kind() == a.kind(),
    {
        match (a, b) {
            (BaseValue::Float(x), BaseValue::Float(y)) => BaseValue::Float(lerp(n, x, y, t)),
            (BaseValue::Vector3(x), BaseValue::Vector3(y)) => BaseValue::Vector3(
                lerp3(n, x, y, t),
            ),
            (BaseValue::Vector4(x), BaseValue::Vector4(y)) => BaseValue::Vector4(
                lerp4(n, x, y, t),
            ),
            (BaseValue::Quaternion(x), BaseValue::Quaternion(y)) => BaseValue::Quaternion(
                n.slerp(x, y, t),
            ),
            _ => a,
        }
    }

    /// The kind of the value.
    pub fn get_type(&self) -> (r: WrapBaseValueType)
        ensures
            r == self.kind(),
    {
        match self {
            BaseValue::Float(_) => WrapBaseValueType::Float,
            BaseValue::Vector3(_) => WrapBaseValueType::Vec3,
            BaseValue::Vector4(_) => WrapBaseValueType::Vec4,
            BaseValue::Quaternion(_) => WrapBaseValueType::Quat,
        }
    }

    /// The number at `index`. A `Float` gives its number at every index; the
    /// other kinds have no number past their last.
    pub fn index(&self, index: usize) -> (r: Scalar)
        requires
            self is Float || index < self@.len(),
        ensures
            r == (if *self is Float {
                self@[0]
            } else {
                self@[index as int]
            }),
    {
        match self {
            BaseValue::Float(f) => *f,
            BaseValue::Vector3(v) => v[index],
            BaseValue::Vector4(v) => v[index],
            BaseValue::Quaternion(v) => v[index],
        }
    }

    /// Puts `number` at `index`. A `Float` takes it at every index.
    pub fn set(&mut self, index: usize, number: Scalar)
        requires
            *old(self) is Float || index < old(self)@.len(),
        ensures
            final(self).kind() == old(self).kind(),
            final(self)@ == old(self)@.update(
                if *old(self) is Float {
                    0
                } else {
                    index as int
                },
                number,
            ),
    {
        match self {
            BaseValue::Float(f) => {
                *f = number;
            },
            BaseValue::Vector3(v) => {
                v[index] = number;
            },
            BaseValue::Vector4(v) => {
                v[index] = number;
            },
            BaseValue::Quaternion(v) => {
                v[index] = number;
            },
        }
        assert(self@ =~= old(self)@.update(
            if *old(self) is Float {
                0
            } else {
                index as int
            },
            number,
        ));
    }

    /// Every number of the value times `rhs`.
    pub fn mul<N: Numerics>(self, rhs: Scalar, n: &N) -> (r: BaseValue)
        ensures
            is_scaled(n, self, rhs, r),
    {
        match self {
            BaseValue::Float(v) => BaseValue::Float(n.product(v, rhs)),
            BaseValue::Vector3(v) => BaseValue::Vector3(
                [n.product(v[0], rhs), n.product(v[1], rhs), n.product(v[2], rhs)],
            ),
            BaseValue::Vector4(v) => BaseValue::Vector4(
                [
                    n.product(v[0], rhs),
                    n.product(v[1], rhs),
                    n.product(v[2], rhs),
                    n.product(v[3], rhs),
                ],
            ),
            BaseValue::Quaternion(v) => BaseValue::Quaternion(
                [
                    n.product(v[0], rhs),
                    n.product(v[1], rhs),
                    n.product(v[2], rhs),
                    n.product(v[3], rhs),
                ],
            ),
        }
    }

    /// Every number of the value divided by `rhs`.
    pub fn div<N: Numerics>(self, rhs: Scalar, n: &N) -> (r: BaseValue)
        ensures
            is_divided(n, self, rhs, r),
    {
        match self {
            BaseValue::Float(v) => BaseValue::Float(n.quotient(v, rhs)),
            BaseValue::Vector3(v) => BaseValue::Vector3(
                [n.quotient(v[0], rhs), n.quotient(v[1], rhs), n.quotient(v[2], rhs)],
            ),
            BaseValue::Vector4(v) => BaseValue::Vector4(
                [
                    n.quotient(v[0], rhs),
                    n.quotient(v[1], rhs),
                    n.quotient(v[2], rhs),
                    n.quotient(v[3], rhs),
                ],
            ),
            BaseValue::Quaternion(v) => BaseValue::Quaternion(
                [
                    n.quotient(v[0], rhs),
                    n.quotient(v[1], rhs),
                    n.quotient(v[2], rhs),
                    n.quotient(v[3], rhs),
                ],
            ),
        }
    }

    /// Whether the two values are of one kind and equal number by number.
    pub fn equals(&self, other: &BaseValue) -> (r: bool)
        ensures
            r == same_value(*self, *other),
    {
        match (self, other) {
            (BaseValue::Float(x), BaseValue::Float(y)) => {
                let r = equal(*x, *y);
                assert(self@[0] == *x && other@[0] == *y);
                r
            },
            (BaseValue::Vector3(x), BaseValue::Vector3(y)) => {
                let r = equal(x[0], y[0]) && equal(x[1], y[1]) && equal(x[2], y[2]);
                assert(r == same_value(*self, *other)) by {
                    assert(self@[0] == x[0] && self@[1] == x[1] && self@[2] == x[2]);
                }
                r
            },
            (BaseValue::Vector4(x), BaseValue::Vector4(y)) => {
                let r = equal(x[0], y[0]) && equal(x[1], y[1]) && equal(x[2], y[2]) && equal(
                    x[3],
                    y[3],
                );
                assert(r == same_value(*self, *other)) by {
                    assert(self@[0] == x[0] && self@[1] == x[1] && self@[2] == x[2] && self@[3]
                        == x[3]);
                }
                r
            },
            (BaseValue::Quaternion(x), BaseValue::Quaternion(y)) => {
                let r = equal(x[0], y[0]) && equal(x[1], y[1]) && equal(x[2], y[2]) && equal(
                    x[3],
                    y[3],
                );
                assert(r == same_value(*self, *other)) by {
                    assert(self@[0] == x[0] && self@[1] == x[1] && self@[2] == x[2] && self@[3]
                        == x[3]);
                }
                r
            },
            _ => false,
        }
    }
}

} // verus!
