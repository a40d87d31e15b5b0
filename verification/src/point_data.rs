//! Keyframes.
pub mod float_point_data;
pub mod quaternion_point_data;
pub mod vector3_point_data;
pub mod vector4_point_data;

use crate::base_provider_context::BaseProviderContext;
use crate::easings::functions::Functions;
use crate::ffi::types::WrapBaseValueType;
use crate::ieee::Scalar;
use crate::modifiers::Modifier;
use crate::numerics::Numerics;
use crate::values::value::BaseValue;
use float_point_data::FloatPointData;
use quaternion_point_data::QuaternionPointData;
use vector3_point_data::Vector3PointData;
use vector4_point_data::Vector4PointData;
use vstd::prelude::*;

verus! {

/// A keyframe of one of the four kinds.
#[derive(Debug)]
pub enum PointData {
    Float(FloatPointData),
    Vector3(Vector3PointData),
    Vector4(Vector4PointData),
    Quaternion(QuaternionPointData),
}

impl PointData {
    /// The kind of the keyframe.
    pub open spec fn kind(self) -> WrapBaseValueType {
        match self {
            PointData::Float(_) => WrapBaseValueType::Float,
            PointData::Vector3(_) => WrapBaseValueType::Vec3,
            PointData::Vector4(_) => WrapBaseValueType::Vec4,
            PointData::Quaternion(_) => WrapBaseValueType::Quat,
        }
    }

    /// The time of the keyframe.
    pub open spec fn time(self) -> Scalar {
        match self {
            PointData::Float(p) => p.time,
            PointData::Vector3(p) => p.time,
            PointData::Vector4(p) => p.time,
            PointData::Quaternion(p) => p.time,
        }
    }

    /// The easing of the stretch that ends at the keyframe.
    pub open spec fn easing(self) -> Functions {
        match self {
            PointData::Float(p) => p.easing,
            PointData::Vector3(p) => p.easing,
            PointData::Vector4(p) => p.easing,
            PointData::Quaternion(p) => p.easing,
        }
    }

    /// The modifier that gives the value of the keyframe.
    pub open spec fn modifier(self) -> Modifier {
        match self {
            PointData::Float(p) => p.base_modifier,
            PointData::Vector3(p) => p.base_modifier,
            PointData::Vector4(p) => p.base_modifier,
            PointData::Quaternion(p) => p.base_modifier,
        }
    }

    /// Whether the stretch that ends at the keyframe is a spline.
    pub open spec fn is_smooth(self) -> bool {
        self matches PointData::Vector3(p) && p.smooth
    }

    /// Whether the stretch that starts at the keyframe blends colours by
    /// hue.
    pub open spec fn is_hsv(self) -> bool {
        self matches PointData::Vector4(p) && p.hsv_lerp
    }

    /// Whether the value of the keyframe depends on a channel of the host.
    pub open spec fn live(self) -> bool {
        self.modifier().flag()
    }

    /// The keyframe can be evaluated: its modifier is of its kind and can
    /// be evaluated.
    pub open spec fn wf(self) -> bool {
        self.modifier().kind() == self.kind() && self.modifier().wf()
    }

    /// `out` is a value that evaluation of the keyframe gives.
    pub open spec fn evaluates<N: Numerics>(
        self,
        n: &N,
        context: &BaseProviderContext,
        out: BaseValue,
    ) -> bool {
        &&& out.kind() == self.kind()
        &&& match out {
            BaseValue::Quaternion(q) => self.modifier().yields_rotation(n, context, q),
            _ => self.modifier().yields(n, context, out@),
        }
    }

    /// The easing of the stretch that ends at the keyframe.
    pub fn get_easing(&self) -> (r: Functions)
        ensures
            r == self.easing(),
    {
        match self {
            PointData::Float(point_data) => point_data.get_easing(),
            PointData::Vector3(point_data) => point_data.get_easing(),
            PointData::Vector4(point_data) => point_data.get_easing(),
            PointData::Quaternion(point_data) => point_data.get_easing(),
        }
    }

    /// The time of the keyframe.
    pub fn get_time(&self) -> (r: Scalar)
        ensures
            r == self.time(),
    {
        match self {
            PointData::Float(point_data) => point_data.get_time(),
            PointData::Vector3(point_data) => point_data.get_time(),
            PointData::Vector4(point_data) => point_data.get_time(),
            PointData::Quaternion(point_data) => point_data.get_time(),
        }
    }

    /// Whether the value of the keyframe depends on a channel of the host.
    pub fn has_base_provider(&self) -> (r: bool)
        ensures
            r == self.live(),
    {
        match self {
            PointData::Float(point_data) => point_data.has_base_provider(),
            PointData::Vector3(point_data) => point_data.has_base_provider(),
            PointData::Vector4(point_data) => point_data.has_base_provider(),
            PointData::Quaternion(point_data) => point_data.has_base_provider(),
        }
    }

    /// The kind of the keyframe.
    pub fn get_type(&self) -> (r: WrapBaseValueType)
        ensures
            r == self.kind(),
    {
        match self {
            PointData::Float(_) => WrapBaseValueType::Float,
            PointData::Vector3(_) => WrapBaseValueType::Vec3,
            PointData::Vector4(_) => WrapBaseValueType::Vec4,
            PointData::Quaternion(_) => WrapBaseValueType::Quat,
        }
    }

    /// Whether the stretch that ends at the keyframe is a spline.
    pub fn smooth(&self) -> (r: bool)
        ensures
            r == self.is_smooth(),
    {
        match self {
            PointData::Vector3(point_data) => point_data.smooth,
            _ => false,
        }
    }

    /// Whether the stretch that starts at the keyframe blends colours by
    /// hue.
    pub fn hsv_lerp(&self) -> (r: bool)
        ensures
            r == self.is_hsv(),
    {
        match self {
            PointData::Vector4(point_data) => point_data.hsv_lerp,
            _ => false,
        }
    }

    /// The value of the keyframe.
    pub fn get_point<N: Numerics>(&self, context: &BaseProviderContext, n: &N) -> (r: BaseValue)
        requires
            self.wf(),
            context.wf(),
        ensures
            self.evaluates(n, context, r),
    {
        match self {
            PointData::Float(p) => BaseValue::Float(p.base_modifier.get_float(context, n)),
            PointData::Vector3(p) => BaseValue::Vector3(p.base_modifier.get_vector3(context, n)),
            PointData::Vector4(p) => BaseValue::Vector4(p.base_modifier.get_vector4(context, n)),
            PointData::Quaternion(p) => BaseValue::Quaternion(
                p.base_modifier.get_quaternion(context, n),
            ),
        }
    }

    /// The value of a keyframe of numbers.
    pub fn get_float<N: Numerics>(&self, context: &BaseProviderContext, n: &N) -> (r: Scalar)
        requires
            *self is Float,
            self.wf(),
            context.wf(),
        ensures
            self.evaluates(n, context, BaseValue::Float(r)),
    {
        match self {
            PointData::Float(p) => p.base_modifier.get_float(context, n),
            _ => 0,
        }
    }

    /// The value of a keyframe of 3-vectors.
    pub fn get_vector3<N: Numerics>(&self, context: &BaseProviderContext, n: &N) -> (r: [
        Scalar;
        3
    ])
        requires
            *self is Vector3,
            self.wf(),
            context.wf(),
        ensures
            self.evaluates(n, context, BaseValue::Vector3(r)),
    {
        match self {
            PointData::Vector3(p) => p.base_modifier.get_vector3(context, n),
            _ => [0, 0, 0],
        }
    }

    /// The value of a keyframe of 4-vectors.
    pub fn get_vector4<N: Numerics>(&self, context: &BaseProviderContext, n: &N) -> (r: [
        Scalar;
        4
    ])
        requires
            *self is Vector4,
            self.wf(),
            context.wf(),
        ensures
            self.evaluates(n, context, BaseValue::Vector4(r)),
    {
        match self {
            PointData::Vector4(p) => p.base_modifier.get_vector4(context, n),
            _ => [0, 0, 0, 0],
        }
    }

    /// The value of a keyframe of rotations.
    pub fn get_quaternion<N: Numerics>(&self, context: &BaseProviderContext, n: &N) -> (r: [
        Scalar;
        4
    ])
        requires
            *self is Quaternion,
            self.wf(),
            context.wf(),
        ensures
            self.evaluates(n, context, BaseValue::Quaternion(r)),
    {
        match self {
            PointData::Quaternion(p) => p.base_modifier.get_quaternion(context, n),
            _ => [0, 0, 0, 0],
        }
    }
}

} // verus!
