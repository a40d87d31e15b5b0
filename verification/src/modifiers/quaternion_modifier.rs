//! Modifiers of rotations.
use crate::ieee::{Scalar, ONE, ZERO};
use crate::modifiers::operation::Operation;
use crate::modifiers::{all_wf, shared_has_base_provider, total_width, Modifier};
use crate::values::ValueProvider;
use vstd::prelude::*;

verus! {

/// What a modifier of rotations starts from: three fixed angles in
/// degrees together with the rotation that they stand for, or providers of
/// three angles.
#[derive(Debug)]
pub enum QuaternionValues {
    Static([Scalar; 3], [Scalar; 4]),
    Dynamic(Vec<ValueProvider>),
}

/// A modifier of rotations. Its children act on the three angles.
#[derive(Debug)]
pub struct QuaternionModifier {
    pub values: QuaternionValues,
    pub has_base_provider: bool,
    pub modifiers: Vec<Modifier>,
    pub operation: Operation,
}

impl QuaternionModifier {
    /// A modifier that starts from `point`, folds `modifiers` over it and
    /// combines with what stands before it by `operation`. Providers that
    /// give less than three numbers, and children of another kind, are
    /// construction errors.
    pub fn new(point: QuaternionValues, modifiers: Vec<Modifier>, operation: Operation) -> (r:
        QuaternionModifier)
        requires
            point matches QuaternionValues::Dynamic(p) ==> all_wf(p@) && total_width(p@, p@.len())
                >= 3,
            forall|i: int|
                0 <= i < modifiers@.len() ==> (#[trigger] modifiers@[i]) is Quaternion
                    && modifiers@[i].wf(),
        ensures
            r.values == point,
            r.modifiers == modifiers,
            r.operation == operation,
            Modifier::Quaternion(r).wf(),
    {
        let has_base_provider = shared_has_base_provider(
            matches!(point, QuaternionValues::Dynamic(_)),
            modifiers.as_slice(),
        );
        let r = Self { values: point, has_base_provider, modifiers, operation };
        proof {
            let m = Modifier::Quaternion(r);
            assert(m.children() == modifiers@);
            assert forall|i: int| 0 <= i < m.children().len() implies (#[trigger] m.children()[i]).flag()
                == m.children()[i].live() by {
                assert(modifiers@[i].wf());
            }
        }
        r
    }

    /// The operation by which the modifier combines with what stands
    /// before it.
    pub fn get_operation(&self) -> (r: Operation)
        ensures
            r == self.operation,
    {
        self.operation
    }

    /// Whether the modifier, or a modifier below it, starts from providers.
    pub fn has_base_provider(&self) -> (r: bool)
        ensures
            r == self.has_base_provider,
    {
        self.has_base_provider
    }

    /// The fixed rotation that the modifier starts from, and the rotation
    /// that turns nothing where it starts from providers.
    pub fn get_raw_point(&self) -> (r: [Scalar; 4])
        ensures
            r == (match self.values {
                QuaternionValues::Static(_, q) => q,
                QuaternionValues::Dynamic(_) => [ZERO, ZERO, ZERO, ONE],
            }),
    {
        match &self.values {
            QuaternionValues::Static(_, q) => *q,
            _ => [ZERO, ZERO, ZERO, ONE],
        }
    }
}

} // verus!
