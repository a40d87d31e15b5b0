//! A provider that turns towards a rotation, a step at each update.
use crate::ieee::{Scalar, ONE, ZERO};
use crate::numerics::{is_euler_of, is_product, is_slerp, Numerics};
use vstd::prelude::*;

verus! {

/// A running rotation that moves towards `rotation_values` along the
/// shortest arc, and its angles in degrees.
#[derive(Debug)]
pub struct SmoothRotationProvidersValues {
    pub rotation_values: [Scalar; 4],
    pub mult: Scalar,
    pub last_quaternion: [Scalar; 4],
    pub values: [Scalar; 3],
}

impl SmoothRotationProvidersValues {
    /// A provider that starts at the rotation that turns nothing, with
    /// zero angles, and moves towards `rotation_values`.
    pub fn new(rotation_values: [Scalar; 4], mult: Scalar) -> (r: SmoothRotationProvidersValues)
        ensures
            r.rotation_values == rotation_values,
            r.mult == mult,
            r.last_quaternion@ == seq![ZERO, ZERO, ZERO, ONE],
            r.values@ == seq![ZERO, ZERO, ZERO],
    {
        let r = Self {
            rotation_values,
            mult,
            last_quaternion: [ZERO, ZERO, ZERO, ONE],
            values: [ZERO, ZERO, ZERO],
        };
        assert(r.last_quaternion@ =~= seq![ZERO, ZERO, ZERO, ONE]);
        assert(r.values@ =~= seq![ZERO, ZERO, ZERO]);
        r
    }

    /// `after` is this provider after an update by `delta`, with the
    /// arithmetic of `n`: its running rotation has moved towards the
    /// target by `delta * mult` along the shortest arc, and its angles are
    /// those of the running rotation.
    pub open spec fn turns_to<N: Numerics>(
        &self,
        n: &N,
        delta: Scalar,
        after: SmoothRotationProvidersValues,
    ) -> bool {
        &&& after.rotation_values == self.rotation_values
        &&& after.mult == self.mult
        &&& exists|step: Scalar| #[trigger]
            is_product(n, delta, self.mult, step) && is_slerp(
                n,
                self.last_quaternion,
                self.rotation_values,
                step,
                after.last_quaternion,
            )
        &&& is_euler_of(n, after.last_quaternion, after.values)
    }

    /// The angles of the running rotation as of the last update.
    pub fn values(&self) -> (r: Vec<Scalar>)
        ensures
            r@ == self.values@,
            r@.len() == 3,
    {
        vstd::slice::slice_to_vec(self.values.as_slice())
    }

    /// Moves the running rotation towards the target by `delta * mult`
    /// along the shortest arc, and takes its angles.
    pub fn update<N: Numerics>(&mut self, delta: Scalar, n: &N)
        ensures
            old(self).turns_to(n, delta, *final(self)),
    {
        let step = n.product(delta, self.mult);
        self.last_quaternion = n.slerp(self.last_quaternion, self.rotation_values, step);
        self.values = n.quat_to_euler(self.last_quaternion);
        assert(is_product(n, delta, old(self).mult, step));
    }
}

} // verus!
