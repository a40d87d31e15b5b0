//! A keyframe of rotations.
use crate::easings::functions::Functions;
use crate::ieee::Scalar;
use crate::modifiers::operation::Operation;
use crate::modifiers::quaternion_modifier::{QuaternionModifier, QuaternionValues};
use crate::modifiers::{all_wf, total_width, Modifier};
use vstd::prelude::*;

verus! {

/// A keyframe of rotations: the modifier that gives its value, its time, and
/// the easing of the stretch that ends at it.
#[derive(Debug)]
pub struct QuaternionPointData {
    pub base_modifier: Modifier,
    pub easing: Functions,
    pub time: Scalar,
}

impl QuaternionPointData {
    /// The keyframe is built on a modifier of rotations that can be
    /// evaluated.
    pub open spec fn wf(&self) -> bool {
        self.base_modifier is Quaternion && self.base_modifier.wf()
    }

    /// A keyframe at `time` whose value starts from `point` and is folded
    /// with `modifiers`. Providers that give less than three numbers, and
    /// modifiers of another kind, are construction errors.
    pub fn new(
        point: QuaternionValues,
        time: Scalar,
        modifiers: Vec<Modifier>,
        easing: Functions,
    ) -> (r: QuaternionPointData)
        requires
            point matches QuaternionValues::Dynamic(p) ==> all_wf(p@) && total_width(p@, p@.len())
                >= 3,
            forall|i: int|
                0 <= i < modifiers@.len() ==> (#[trigger] modifiers@[i]) is Quaternion
                    && modifiers@[i].wf(),
        ensures
            r.wf(),
            r.time == time,
            r.easing == easing,
            r.base_modifier matches Modifier::Quaternion(m) && m.values == point && m.modifiers
                == modifiers && m.operation == Operation::Replace,
    {
        Self {
            base_modifier: Modifier::Quaternion(QuaternionModifier::new(point, modifiers, Operation::Replace)),
            easing,
            time,
        }
    }

    /// The easing of the stretch that ends at the keyframe.
    pub fn get_easing(&self) -> (r: Functions)
        ensures
            r == self.easing,
    {
        self.easing
    }

    /// The time of the keyframe.
    pub fn get_time(&self) -> (r: Scalar)
        ensures
            r == self.time,
    {
        self.time
    }

    /// Whether the value of the keyframe depends on a channel of the host.
    pub fn has_base_provider(&self) -> (r: bool)
        ensures
            r == self.base_modifier.flag(),
    {
        self.base_modifier.has_base_provider()
    }
}

} // verus!
