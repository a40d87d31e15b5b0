//! The kind of a curve, as a host writes it.
use crate::ffi::types::WrapBaseValueType;
use vstd::prelude::*;

verus! {

/// The kind of a curve.
#[derive(Clone, Copy, PartialEq, Eq, Structural, Debug)]
pub enum PointDefinitionType {
    Float,
    Vector3,
    Vector4,
    Quaternion,
}

impl PointDefinitionType {
    /// The kind of the values of a curve of this kind.
    pub fn value_type(self) -> (r: WrapBaseValueType)
        ensures
            r == (match self {
                PointDefinitionType::Float => WrapBaseValueType::Float,
                PointDefinitionType::Vector3 => WrapBaseValueType::Vec3,
                PointDefinitionType::Vector4 => WrapBaseValueType::Vec4,
                PointDefinitionType::Quaternion => WrapBaseValueType::Quat,
            }),
            r != WrapBaseValueType::Unknown,
    {
        match self {
            PointDefinitionType::Float => WrapBaseValueType::Float,
            PointDefinitionType::Vector3 => WrapBaseValueType::Vec3,
            PointDefinitionType::Vector4 => WrapBaseValueType::Vec4,
            PointDefinitionType::Quaternion => WrapBaseValueType::Quat,
        }
    }
}

} // verus!
