//! The blend of two curves that a path property holds.
use crate::base_provider_context::BaseProviderContext;
use crate::ffi::types::WrapBaseValueType;
use crate::ieee::{Scalar, ZERO};
use crate::numerics::Numerics;
use crate::point_definition::base_point_definition::BasePointDefinition;
use crate::values::value::{is_blend, BaseValue};
use std::rc::Rc;
use vstd::prelude::*;

verus! {

/// `Rc::clone`: another handle to the value that `a` points to.
#[verifier::external_body]
pub(crate) fn share<T>(a: &Rc<T>) -> (r: Rc<T>)
    ensures
        r == *a,
{
    Rc::clone(a)
}

/// A current curve, the curve before it, and how far the blend has moved
/// from the one before to the current one.
#[derive(Debug)]
pub struct PointDefinitionInterpolation {
    /// The blend factor: 0 at the curve before, 1 at the current curve.
    pub time: Scalar,
    pub prev_point: Option<Rc<BasePointDefinition>>,
    pub point: Option<Rc<BasePointDefinition>>,
    pub ty: WrapBaseValueType,
}

/// `curve`, where there is one, is of kind `ty` and can be evaluated.
pub open spec fn fits(curve: Option<Rc<BasePointDefinition>>, ty: WrapBaseValueType) -> bool {
    curve matches Some(c) ==> c.kind() == ty && c.wf()
}

impl PointDefinitionInterpolation {
    /// Both curves, where there are any, are of the kind of the path and
    /// can be evaluated.
    pub open spec fn wf(&self) -> bool {
        fits(self.prev_point, self.ty) && fits(self.point, self.ty)
    }

    /// `out` is what `n` gives for the path at `time`: the blend of the
    /// two curves' values where both are there, the current curve's value
    /// where only it is there, and nothing else.
    pub open spec fn gives<N: Numerics>(
        &self,
        n: &N,
        context: &BaseProviderContext,
        time: Scalar,
        out: Option<BaseValue>,
    ) -> bool {
        match (self.prev_point, self.point) {
            (Some(prev), Some(current)) => out is Some && exists|a: BaseValue, b: BaseValue|
                #![trigger is_blend(n, a, b, self.time, out->Some_0)]
                {
                    &&& exists|last: bool| #[trigger] prev.gives(n, context, time, a, last)
                    &&& exists|last: bool| #[trigger] current.gives(n, context, time, b, last)
                    &&& is_blend(n, a, b, self.time, out->Some_0)
                },
            (None, Some(current)) => out is Some && exists|last: bool| #[trigger]
                current.gives(n, context, time, out->Some_0, last),
            _ => out is None,
        }
    }

    /// A path of kind `ty` on the curve `point`, with no curve before it.
    /// A curve of another kind is a usage error.
    pub fn new(point: Option<Rc<BasePointDefinition>>, ty: WrapBaseValueType) -> (r:
        PointDefinitionInterpolation)
        requires
            fits(point, ty),
        ensures
            r.wf(),
            r.time == ZERO,
            r.prev_point is None,
            r.point == point,
            r.ty == ty,
    {
        PointDefinitionInterpolation { time: ZERO, prev_point: None, point, ty }
    }

    /// A path of kind `ty` without curves.
    pub fn empty(ty: WrapBaseValueType) -> (r: PointDefinitionInterpolation)
        ensures
            r.wf(),
            r.time == ZERO,
            r.prev_point is None,
            r.point is None,
            r.ty == ty,
    {
        PointDefinitionInterpolation { time: ZERO, prev_point: None, point: None, ty }
    }

    /// The kind of the path.
    pub fn get_type(&self) -> (r: WrapBaseValueType)
        ensures
            r == self.ty,
    {
        self.ty
    }

    /// Drops the curve before the current one.
    pub fn finish(&mut self)
        ensures
            final(self).prev_point is None,
            final(self).point == old(self).point,
            final(self).time == old(self).time,
            final(self).ty == old(self).ty,
    {
        self.prev_point = None;
    }

    /// Makes the current curve the one before, `new_point_data` the
    /// current one, and starts the blend at 0. A curve of another kind is
    /// a usage error.
    pub fn init(&mut self, new_point_data: Option<Rc<BasePointDefinition>>)
        requires
            fits(new_point_data, old(self).ty),
        ensures
            final(self).time == ZERO,
            final(self).prev_point == old(self).point,
            final(self).point == new_point_data,
            final(self).ty == old(self).ty,
    {
        self.time = ZERO;
        self.prev_point = self.point.take();
        self.point = new_point_data;
    }

    /// The value of the path at `time`, and nothing where the path has no
    /// current curve.
    pub fn interpolate<N: Numerics>(&self, time: Scalar, context: &BaseProviderContext, n: &N) -> (r:
        Option<BaseValue>)
        requires
            self.wf(),
            context.wf(),
        ensures
            self.gives(n, context, time, r),
            r matches Some(v) ==> v.kind() == self.ty,
    {
        match (&self.prev_point, &self.point) {
            (Some(prev_point_data), Some(point_data)) => {
                let (a, a_last) = prev_point_data.interpolate(time, context, n);
                let (b, b_last) = point_data.interpolate(time, context, n);
                let result = BaseValue::lerp(a, b, self.time, n);
                assert(prev_point_data.gives(n, context, time, a, a_last));
                assert(point_data.gives(n, context, time, b, b_last));
                assert(is_blend(n, a, b, self.time, result));
                Some(result)
            },
            (None, Some(point_data)) => {
                let (v, last) = point_data.interpolate(time, context, n);
                assert(point_data.gives(n, context, time, v, last));
                Some(v)
            },
            _ => None,
        }
    }
}

} // verus!
