//! A curve of any of the four kinds.
use crate::base_provider_context::BaseProviderContext;
use crate::ffi::types::WrapBaseValueType;
use crate::ieee::Scalar;
use crate::numerics::Numerics;
use crate::point_data::PointData;
use crate::point_definition::float_point_definition::FloatPointDefinition;
use crate::point_definition::quaternion_point_definition::QuaternionPointDefinition;
use crate::point_definition::vector3_point_definition::Vector3PointDefinition;
use crate::point_definition::vector4_point_definition::Vector4PointDefinition;
use crate::point_definition::{
    all_of_kind, any_live, has_base_provider, interpolate, interpolate_points, interpolates,
    is_mix, BlendSteps,
};
use crate::values::value::BaseValue;
use vstd::prelude::*;

verus! {

/// Point definitions describe what happens over the course of an
/// animation: a list of keyframes over time, of one of the four kinds.
#[derive(Debug)]
pub enum BasePointDefinition {
    Float(FloatPointDefinition),
    Vector3(Vector3PointDefinition),
    Vector4(Vector4PointDefinition),
    Quaternion(QuaternionPointDefinition),
}

impl BasePointDefinition {
    /// The kind of the curve.
    pub open spec fn kind(&self) -> WrapBaseValueType {
        match self {
            BasePointDefinition::Float(_) => WrapBaseValueType::Float,
            BasePointDefinition::Vector3(_) => WrapBaseValueType::Vec3,
            BasePointDefinition::Vector4(_) => WrapBaseValueType::Vec4,
            BasePointDefinition::Quaternion(_) => WrapBaseValueType::Quat,
        }
    }

    /// The keyframes of the curve.
    pub open spec fn points(&self) -> Seq<PointData> {
        match self {
            BasePointDefinition::Float(d) => d.points@,
            BasePointDefinition::Vector3(d) => d.points@,
            BasePointDefinition::Vector4(d) => d.points@,
            BasePointDefinition::Quaternion(d) => d.points@,
        }
    }

    /// Every keyframe is of the kind of the curve and can be evaluated.
    pub open spec fn wf(&self) -> bool {
        all_of_kind(self.points(), self.kind())
    }

    /// Whether a keyframe depends on a channel of the host.
    pub open spec fn live(&self) -> bool {
        any_live(self.points())
    }

    /// `out` is a value that `n` gives for the curve at `time`, and `last`
    /// tells whether the curve has reached its last keyframe.
    pub open spec fn gives<N: Numerics>(
        &self,
        n: &N,
        context: &BaseProviderContext,
        time: Scalar,
        out: BaseValue,
        last: bool,
    ) -> bool {
        interpolates(self.points(), self.kind(), n, context, time, out, last)
    }

    /// How many keyframes the curve holds.
    pub fn get_count(&self) -> (r: usize)
        ensures
            r == self.points().len(),
    {
        self.get_points().len()
    }

    /// Whether a keyframe depends on a channel of the host.
    pub fn has_base_provider(&self) -> (r: bool)
        ensures
            r == self.live(),
    {
        has_base_provider(self.get_points())
    }

    /// The keyframes.
    pub fn get_points(&self) -> (r: &Vec<PointData>)
        ensures
            r@ == self.points(),
    {
        match self {
            BasePointDefinition::Float(d) => &d.points,
            BasePointDefinition::Vector3(d) => &d.points,
            BasePointDefinition::Vector4(d) => &d.points,
            BasePointDefinition::Quaternion(d) => &d.points,
        }
    }

    /// The kind of the curve.
    pub fn get_type(&self) -> (r: WrapBaseValueType)
        ensures
            r == self.kind(),
            r != WrapBaseValueType::Unknown,
    {
        match self {
            BasePointDefinition::Float(_) => WrapBaseValueType::Float,
            BasePointDefinition::Vector3(_) => WrapBaseValueType::Vec3,
            BasePointDefinition::Vector4(_) => WrapBaseValueType::Vec4,
            BasePointDefinition::Quaternion(_) => WrapBaseValueType::Quat,
        }
    }

    /// The value of the keyframe `point`.
    pub fn get_point<N: Numerics>(
        &self,
        point: &PointData,
        context: &BaseProviderContext,
        n: &N,
    ) -> (r: BaseValue)
        requires
            point.wf(),
            context.wf(),
        ensures
            point.evaluates(n, context, r),
    {
        point.get_point(context, n)
    }

    /// The blend of the keyframes `l` and `r` of `points` at the eased
    /// share `time`.
    pub fn interpolate_points<N: Numerics>(
        &self,
        points: &Vec<PointData>,
        l: usize,
        r: usize,
        time: Scalar,
        context: &BaseProviderContext,
        n: &N,
    ) -> (out: BaseValue)
        requires
            all_of_kind(points@, self.kind()),
            context.wf(),
            l < points@.len(),
            r < points@.len(),
        ensures
            exists|s: BlendSteps| #[trigger]
                is_mix(points@, n, context, l as int, r as int, time, s, out),
            out.kind() == self.kind(),
    {
        interpolate_points(points, self.get_type(), l, r, time, context, n)
    }

    /// The value of the curve at `time`, and whether the curve has reached
    /// its last keyframe.
    pub fn interpolate<N: Numerics>(&self, time: Scalar, context: &BaseProviderContext, n: &N) -> (r:
        (BaseValue, bool))
        requires
            self.wf(),
            context.wf(),
        ensures
            self.gives(n, context, time, r.0, r.1),
            r.0.kind() == self.kind(),
    {
        interpolate(self.get_points(), self.get_type(), time, context, n)
    }
}

impl Default for BasePointDefinition {
    fn default() -> (r: BasePointDefinition)
        ensures
            r is Float,
            r.points().len() == 0,
    {
        BasePointDefinition::Float(FloatPointDefinition::default())
    }
}

} // verus!
