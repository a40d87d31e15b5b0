//! A keyframe of 4-vectors.
use crate::easings::functions::Functions;
use crate::ieee::Scalar;
use crate::modifiers::operation::Operation;
use crate::modifiers::vector4_modifier::{Vector4Modifier, Vector4Values};
use crate::modifiers::{all_wf, total_width, Modifier, ModifierValues};
use vstd::prelude::*;

verus! {

/// A keyframe of 4-vectors: the modifier that gives its value, its time, and
/// the easing of the stretch that ends at it, and whether
/// the stretch that starts at it blends colours by hue.
#[derive(Debug)]
pub struct Vector4PointData {
    pub base_modifier: Modifier,
    pub easing: Functions,
    pub hsv_lerp: bool,
    pub time: Scalar,
}

impl Vector4PointData {
    /// The keyframe is built on a modifier of 4-vectors that can be
    /// evaluated.
    pub open spec fn wf(&self) -> bool {
        self.base_modifier is Vector4 && self.base_modifier.wf()
    }

    /// A keyframe at `time` whose value starts from `point` and is folded
    /// with `modifiers`. Providers that give less than four numbers, and
    /// modifiers of another kind, are construction errors.
    pub fn new(
        point: Vector4Values,
        hsv_lerp: bool,
        time: Scalar,
        modifiers: Vec<Modifier>,
        easing: Functions,
    ) -> (r: Vector4PointData)
        requires
            point matches ModifierValues::Dynamic(p) ==> all_wf(p@) && total_width(p@, p@.len())
                >= 4,
            forall|i: int|
                0 <= i < modifiers@.len() ==> (#[trigger] modifiers@[i]) is Vector4
                    && modifiers@[i].wf(),
        ensures
            r.wf(),
            r.time == time,
            r.easing == easing,
            r.hsv_lerp == hsv_lerp,
            r.base_modifier matches Modifier::Vector4(m) && m.values == point && m.modifiers
                == modifiers && m.operation == Operation::Replace,
    {
        Self {
            base_modifier: Modifier::Vector4(Vector4Modifier::new(point, modifiers, Operation::Replace)),
            easing,
            hsv_lerp,
            time,
        }
    }

    /// The easing of the stretch that ends at the keyframe.
    pub fn get_easing(&self) -> (r: Functions)
        ensures
            r == self.easing,
    {
        self.easing
    }

    /// The time of the keyframe.
    pub fn get_time(&self) -> (r: Scalar)
        ensures
            r == self.time,
    {
        self.time
    }

    /// Whether the value of the keyframe depends on a channel of the host.
    pub fn has_base_provider(&self) -> (r: bool)
        ensures
            r == self.base_modifier.flag(),
    {
        self.base_modifier.has_base_provider()
    }
}

} // verus!
