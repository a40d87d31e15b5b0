//! Curves of numbers.
use crate::base_provider_context::BaseProviderContext;
use crate::ffi::types::WrapBaseValueType;
use crate::ieee::{is_at_most, Scalar, ZERO};
use crate::numerics::Numerics;
use crate::ffi::json::JsonValue;
use crate::point_data::PointData;
use crate::point_definition::parsing::{curve_fault, parse, reads_curve, ParseError};
use crate::point_definition::{
    all_of_kind, any_live, has_base_provider, interpolate, interpolate_points, interpolates,
    is_mix, is_segment, search_index, BlendSteps,
};
use crate::values::value::BaseValue;
use vstd::prelude::*;

verus! {

/// A curve of numbers.
#[derive(Debug)]
pub struct FloatPointDefinition {
    pub points: Vec<PointData>,
}

impl FloatPointDefinition {
    /// Every keyframe is one of numbers and can be evaluated.
    pub open spec fn wf(&self) -> bool {
        all_of_kind(self.points@, WrapBaseValueType::Float)
    }

    /// The curve through `points`, in their order. A keyframe of another
    /// kind is a construction error.
    pub fn new(points: Vec<PointData>) -> (r: FloatPointDefinition)
        requires
            all_of_kind(points@, WrapBaseValueType::Float),
        ensures
            r.points == points,
            r.wf(),
    {
        Self { points }
    }

    /// The curve that the tree `value` describes, or the first fault of
    /// the tree.
    pub fn parse<N: Numerics>(value: &JsonValue, context: &BaseProviderContext, n: &N) -> (r: Result<
        FloatPointDefinition,
        ParseError,
    >)
        requires
            context.wf(),
        ensures
            match r {
                Ok(curve) => {
                    &&& curve_fault(WrapBaseValueType::Float, *value) is None
                    &&& reads_curve(n, context, WrapBaseValueType::Float, *value, curve.points@)
                    &&& curve.wf()
                },
                Err(e) => curve_fault(WrapBaseValueType::Float, *value) == Some(e),
            },
    {
        match parse(WrapBaseValueType::Float, value, context, n) {
            Ok(points) => Ok(Self { points }),
            Err(e) => Err(e),
        }
    }

    /// How many keyframes the curve holds.
    pub fn get_count(&self) -> (r: usize)
        ensures
            r == self.points@.len(),
    {
        self.points.len()
    }

    /// Whether a keyframe depends on a channel of the host.
    pub fn has_base_provider(&self) -> (r: bool)
        ensures
            r == any_live(self.points@),
    {
        has_base_provider(&self.points)
    }

    /// The keyframes.
    pub fn get_points(&self) -> (r: &Vec<PointData>)
        ensures
            r == &self.points,
    {
        &self.points
    }

    /// The kind of the curve.
    pub fn get_type(&self) -> (r: WrapBaseValueType)
        ensures
            r == WrapBaseValueType::Float,
    {
        WrapBaseValueType::Float
    }

    /// The value of the keyframe `point`.
    pub fn get_point<N: Numerics>(
        &self,
        point: &PointData,
        context: &BaseProviderContext,
        n: &N,
    ) -> (r: Scalar)
        requires
            *point is Float,
            point.wf(),
            context.wf(),
        ensures
            point.evaluates(n, context, BaseValue::Float(r)),
    {
        point.get_float(context, n)
    }

    /// The pair of keyframes around `time`. The curve must hold two
    /// keyframes at least, and its last must lie after `time`.
    pub fn search_index(&self, points: &Vec<PointData>, time: Scalar) -> (r: (usize, usize))
        requires
            points@.len() >= 2,
            !is_at_most(points@.last().time(), time),
        ensures
            r.1 == r.0 + 1,
            is_segment(points@, time, r.0 as int),
    {
        search_index(points, time)
    }

    /// The blend of the keyframes `l` and `r` of `points` at the eased
    /// share `time`.
    pub fn interpolate_points<N: Numerics>(
        &self,
        points: &Vec<PointData>,
        l: usize,
        r: usize,
        time: Scalar,
        context: &BaseProviderContext,
        n: &N,
    ) -> (out: Scalar)
        requires
            all_of_kind(points@, WrapBaseValueType::Float),
            context.wf(),
            l < points@.len(),
            r < points@.len(),
        ensures
            exists|s: BlendSteps| #[trigger]
                is_mix(points@, n, context, l as int, r as int, time, s, BaseValue::Float(out)),
    {
        match interpolate_points(points, WrapBaseValueType::Float, l, r, time, context, n) {
            BaseValue::Float(v) => v,
            _ => ZERO,
        }
    }

    /// The value of the curve at `time`, and whether the curve has reached
    /// its last keyframe.
    pub fn interpolate<N: Numerics>(&self, time: Scalar, context: &BaseProviderContext, n: &N) -> (r: (
        Scalar,
        bool,
    ))
        requires
            self.wf(),
            context.wf(),
        ensures
            interpolates(
                self.points@,
                WrapBaseValueType::Float,
                n,
                context,
                time,
                BaseValue::Float(r.0),
                r.1,
            ),
    {
        let (value, last) = interpolate(&self.points, WrapBaseValueType::Float, time, context, n);
        match value {
            BaseValue::Float(v) => (v, last),
            _ => (ZERO, last),
        }
    }
}

impl Default for FloatPointDefinition {
    fn default() -> (r: FloatPointDefinition)
        ensures
            r.points@.len() == 0,
            r.wf(),
    {
        Self { points: Vec::new() }
    }
}

} // verus!
