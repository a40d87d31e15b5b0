//! The kind tag of a value.
use vstd::prelude::*;

verus! {

/// The kind of a value or of a slot that holds one.
#[derive(Copy, Clone, PartialEq, Eq, Structural, Hash, Debug)]
pub enum WrapBaseValueType {
    /// No kind fixed: a slot of this kind takes a value of any kind.
    Unknown,
    Vec3,
    Quat,
    Vec4,
    Float,
}

impl Default for WrapBaseValueType {
    fn default() -> (r: WrapBaseValueType)
        ensures
            r == WrapBaseValueType::Unknown,
    {
        WrapBaseValueType::Unknown
    }
}

impl WrapBaseValueType {
    /// How many numbers a value of this kind holds; 0 for `Unknown`.
    pub open spec fn width(self) -> nat {
        match self {
            WrapBaseValueType::Unknown => 0,
            WrapBaseValueType::Vec3 => 3,
            WrapBaseValueType::Quat => 4,
            WrapBaseValueType::Vec4 => 4,
            WrapBaseValueType::Float => 1,
        }
    }

    /// How many numbers a modifier of this kind is built from: a rotation
    /// is written as three angles.
    pub open spec fn arity(self) -> nat {
        match self {
            WrapBaseValueType::Unknown => 0,
            WrapBaseValueType::Vec3 => 3,
            WrapBaseValueType::Quat => 3,
            WrapBaseValueType::Vec4 => 4,
            WrapBaseValueType::Float => 1,
        }
    }

    /// Whether a slot of this kind takes a value of kind `value`.
    pub open spec fn admits(self, value: WrapBaseValueType) -> bool {
        self == WrapBaseValueType::Unknown || self == value
    }

    /// Whether a slot of this kind takes a value of kind `value`.
    pub fn accepts(self, value: WrapBaseValueType) -> (r: bool)
        ensures
            r == self.admits(value),
    {
        self == WrapBaseValueType::Unknown || self == value
    }
}

} // verus!
