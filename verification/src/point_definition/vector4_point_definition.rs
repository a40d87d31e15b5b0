//! Curves of 4-vectors.
use crate::base_provider_context::BaseProviderContext;
use crate::ffi::types::WrapBaseValueType;
use crate::ieee::{is_at_most, Scalar, ZERO};
use crate::numerics::Numerics;
use crate::ffi::json::JsonValue;
use crate::point_data::PointData;
use crate::point_definition::parsing::{curve_fault, parse, reads_curve, ParseError};
use crate::point_definition::{
    all_of_kind, any_live, has_base_provider, interpolate, interpolate_points, interpolates,
    is_mix, is_segment, search_index, BlendSteps,
};
use crate::values::value::BaseValue;
use vstd::prelude::*;

verus! {

/// A curve of 4-vectors.
#[derive(Debug)]
pub struct Vector4PointDefinition {
    pub points: Vec<PointData>,
}

impl Vector4PointDefinition {
    /// Every keyframe is one of 4-vectors and can be evaluated.
    pub open spec fn wf(&self) -> bool {
        all_of_kind(self.points@, WrapBaseValueType::Vec4)
    }

    /// The curve through `points`, in their order. A keyframe of another
    /// kind is a construction error.
    pub fn new(points: Vec<PointData>) -> (r: Vector4PointDefinition)
        requires
            all_of_kind(points@, WrapBaseValueType::Vec4),
        ensures
            r.points == points,
            r.wf(),
    {
        Self { points }
    }

    /// The curve that the tree `value` describes, or the first fault of
    /// the tree.
    pub fn parse<N: Numerics>(value: &JsonValue, context: &BaseProviderContext, n: &N) -> (r: Result<
        Vector4PointDefinition,
        ParseError,
    >)
        requires
            context.wf(),
        ensures
            match r {
                Ok(curve) => {
                    &&& curve_fault(WrapBaseValueType::Vec4, *value) is None
                    &&& reads_curve(n, context, WrapBaseValueType::Vec4, *value, curve.points@)
                    &&& curve.wf()
                },
                Err(e) => curve_fault(WrapBaseValueType::Vec4, *value) == Some(e),
            },
    {
        match parse(WrapBaseValueType::Vec4, value, context, n) {
            Ok(points) => Ok(Self { points }),
            Err(e) => Err(e),
        }
    }

    /// How many keyframes the curve holds.
    pub fn get_count(&self) -> (r: usize)
        ensures
            r == self.points@.len(),
    {
        self.points.len()
    }

    /// Whether a keyframe depends on a channel of the host.
    pub fn has_base_provider(&self) -> (r: bool)
        ensures
            r == any_live(self.points@),
    {
        has_base_provider(&self.points)
    }

    /// The keyframes.
    pub fn get_points(&self) -> (r: &Vec<PointData>)
        ensures
            r == &self.points,
    {
        &self.points
    }

    /// The kind of the curve.
    pub fn get_type(&self) -> (r: WrapBaseValueType)
        ensures
            r == WrapBaseValueType::Vec4,
    {
        WrapBaseValueType::Vec4
    }

    /// The value of the keyframe `point`.
    pub fn get_point<N: Numerics>(
        &self,
        point: &PointData,
        context: &BaseProviderContext,
        n: &N,
    ) -> (r: [Scalar; 4])
        requires
            *point is Vector4,
            point.wf(),
            context.wf(),
        ensures
            point.evaluates(n, context, BaseValue::Vector4(r)),
    {
        point.get_vector4(context, n)
    }

    /// The pair of keyframes around `time`. The curve must hold two
    /// keyframes at least, and its last must lie after `time`.
    pub fn search_index(&self, points: &Vec<PointData>, time: Scalar) -> (r: (usize, usize))
        requires
            points@.len() >= 2,
            !is_at_most(points@.last().time(), time),
        ensures
            r.1 == r.0 + 1,
            is_segment(points@, time, r.0 as int),
    {
        search_index(points, time)
    }

    /// The blend of the keyframes `l` and `r` of `points` at the eased
    /// share `time`.
    pub fn interpolate_points<N: Numerics>(
        &self,
        points: &Vec<PointData>,
        l: usize,
        r: usize,
        time: Scalar,
        context: &BaseProviderContext,
        n: &N,
    ) -> (out: [Scalar; 4])
        requires
            all_of_kind(points@, WrapBaseValueType::Vec4),
            context.wf(),
            l < points@.len(),
            r < points@.len(),
        ensures
            exists|s: BlendSteps| #[trigger]
                is_mix(points@, n, context, l as int, r as int, time, s, BaseValue::Vector4(out)),
    {
        match interpolate_points(points, WrapBaseValueType::Vec4, l, r, time, context, n) {
            BaseValue::Vector4(v) => v,
            _ => [ZERO, ZERO, ZERO, ZERO],
        }
    }

    /// The value of the curve at `time`, and whether the curve has reached
    /// its last keyframe.
    pub fn interpolate<N: Numerics>(&self, time: Scalar, context: &BaseProviderContext, n: &N) -> (r: (
        [Scalar; 4],
        bool,
    ))
        requires
            self.wf(),
            context.wf(),
        ensures
            interpolates(
                self.points@,
                WrapBaseValueType::Vec4,
                n,
                context,
                time,
                BaseValue::Vector4(r.0),
                r.1,
            ),
    {
        let (value, last) = interpolate(&self.points, WrapBaseValueType::Vec4, time, context, n);
        match value {
            BaseValue::Vector4(v) => (v, last),
            _ => ([ZERO, ZERO, ZERO, ZERO], last),
        }
    }
}

impl Default for Vector4PointDefinition {
    fn default() -> (r: Vector4PointDefinition)
        ensures
            r.points@.len() == 0,
            r.wf(),
    {
        Self { points: Vec::new() }
    }
}

} // verus!
