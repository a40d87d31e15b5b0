//! Modifiers of 3-vectors.
use crate::ieee::Scalar;
use crate::modifiers::operation::Operation;
use crate::modifiers::{all_wf, shared_has_base_provider, total_width, Modifier, ModifierValues};
use vstd::prelude::*;

verus! {

/// What a modifier of 3-vectors starts from.
pub type Vector3Values = ModifierValues<[Scalar; 3]>;

/// A modifier of 3-vectors.
#[derive(Debug)]
pub struct Vector3Modifier {
    pub values: Vector3Values,
    pub has_base_provider: bool,
    pub modifiers: Vec<Modifier>,
    pub operation: Operation,
}

impl Vector3Modifier {
    /// A modifier that starts from `point`, folds `modifiers` over it and
    /// combines with what stands before it by `operation`. Providers that
    /// give less than three numbers, and children of another kind, are
    /// construction errors.
    pub fn new(point: Vector3Values, modifiers: Vec<Modifier>, operation: Operation) -> (r: Vector3Modifier)
        requires
            point matches ModifierValues::Dynamic(p) ==> all_wf(p@) && total_width(p@, p@.len())
                >= 3,
            forall|i: int|
                0 <= i < modifiers@.len() ==> (#[trigger] modifiers@[i]) is Vector3
                    && modifiers@[i].wf(),
        ensures
            r.values == point,
            r.modifiers == modifiers,
            r.operation == operation,
            Modifier::Vector3(r).wf(),
    {
        let has_base_provider = shared_has_base_provider(
            matches!(point, ModifierValues::Dynamic(_)),
            modifiers.as_slice(),
        );
        let r = Self { values: point, has_base_provider, modifiers, operation };
        proof {
            let m = Modifier::Vector3(r);
            assert(m.children() == modifiers@);
            assert forall|i: int| 0 <= i < m.children().len() implies (#[trigger] m.children()[i]).flag()
                == m.children()[i].live() by {
                assert(modifiers@[i].wf());
            }
        }
        r
    }

    /// The operation by which the modifier combines with what stands
    /// before it.
    pub fn get_operation(&self) -> (r: Operation)
        ensures
            r == self.operation,
    {
        self.operation
    }

    /// Whether the modifier, or a modifier below it, starts from providers.
    pub fn has_base_provider(&self) -> (r: bool)
        ensures
            r == self.has_base_provider,
    {
        self.has_base_provider
    }

    /// The fixed value that the modifier starts from, and the zero vector where
    /// it starts from providers.
    pub fn get_raw_point(&self) -> (r: [Scalar; 3])
        ensures
            r == (match self.values {
                ModifierValues::Static(s) => s,
                ModifierValues::Dynamic(_) => [0, 0, 0],
            }),
    {
        match &self.values {
            ModifierValues::Static(s) => *s,
            _ => [0, 0, 0],
        }
    }
}

} // verus!
