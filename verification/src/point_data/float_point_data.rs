//! A keyframe of numbers.
use crate::easings::functions::Functions;
use crate::ieee::Scalar;
use crate::modifiers::operation::Operation;
use crate::modifiers::float_modifier::{FloatModifier, FloatValues};
use crate::modifiers::{all_wf, total_width, Modifier, ModifierValues};
use vstd::prelude::*;

verus! {

/// A keyframe of numbers: the modifier that gives its value, its time, and
/// the easing of the stretch that ends at it.
#[derive(Debug)]
pub struct FloatPointData {
    pub base_modifier: Modifier,
    pub easing: Functions,
    pub time: Scalar,
}

impl FloatPointData {
    /// The keyframe is built on a modifier of numbers that can be
    /// evaluated.
    pub open spec fn wf(&self) -> bool {
        self.base_modifier is Float && self.base_modifier.wf()
    }

    /// A keyframe at `time` whose value starts from `point` and is folded
    /// with `modifiers`. Providers that give less than one number, and
    /// modifiers of another kind, are construction errors.
    pub fn new(
        point: FloatValues,
        time: Scalar,
        modifiers: Vec<Modifier>,
        easing: Functions,
    ) -> (r: FloatPointData)
        requires
            point matches ModifierValues::Dynamic(p) ==> all_wf(p@) && total_width(p@, p@.len())
                >= 1,
            forall|i: int|
                0 <= i < modifiers@.len() ==> (#[trigger] modifiers@[i]) is Float
                    && modifiers@[i].wf(),
        ensures
            r.wf(),
            r.time == time,
            r.easing == easing,
            r.base_modifier matches Modifier::Float(m) && m.values == point && m.modifiers
                == modifiers && m.operation == Operation::Replace,
    {
        Self {
            base_modifier: Modifier::Float(FloatModifier::new(point, modifiers, Operation::Replace)),
            easing,
            time,
        }
    }

    /// The easing of the stretch that ends at the keyframe.
    pub fn get_easing(&self) -> (r: Functions)
        ensures
            r == self.easing,
    {
        self.easing
    }

    /// The time of the keyframe.
    pub fn get_time(&self) -> (r: Scalar)
        ensures
            r == self.time,
    {
        self.time
    }

    /// Whether the value of the keyframe depends on a channel of the host.
    pub fn has_base_provider(&self) -> (r: bool)
        ensures
            r == self.base_modifier.flag(),
    {
        self.base_modifier.has_base_provider()
    }
}

} // verus!
