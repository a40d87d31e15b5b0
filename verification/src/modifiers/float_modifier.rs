//! Modifiers of numbers.
use crate::ieee::Scalar;
use crate::modifiers::operation::Operation;
use crate::modifiers::{all_wf, shared_has_base_provider, total_width, Modifier, ModifierValues};
use vstd::prelude::*;

verus! {

/// What a modifier of numbers starts from.
pub type FloatValues = ModifierValues<Scalar>;

/// A modifier of numbers.
#[derive(Debug)]
pub struct FloatModifier {
    pub values: FloatValues,
    pub has_base_provider: bool,
    pub modifiers: Vec<Modifier>,
    pub operation: Operation,
}

impl FloatModifier {
    /// A modifier that starts from `point`, folds `modifiers` over it and
    /// combines with what stands before it by `operation`. Providers that
    /// give less than one number, and children of another kind, are
    /// construction errors.
    pub fn new(point: FloatValues, modifiers: Vec<Modifier>, operation: Operation) -> (r: FloatModifier)
        requires
            point matches ModifierValues::Dynamic(p) ==> all_wf(p@) && total_width(p@, p@.len())
                >= 1,
            forall|i: int|
                0 <= i < modifiers@.len() ==> (#[trigger] modifiers@[i]) is Float
                    && modifiers@[i].wf(),
        ensures
            r.values == point,
            r.modifiers == modifiers,
            r.operation == operation,
            Modifier::Float(r).wf(),
    {
        let has_base_provider = shared_has_base_provider(
            matches!(point, ModifierValues::Dynamic(_)),
            modifiers.as_slice(),
        );
        let r = Self { values: point, has_base_provider, modifiers, operation };
        proof {
            let m = Modifier::Float(r);
            assert(m.children() == modifiers@);
            assert forall|i: int| 0 <= i < m.children().len() implies (#[trigger] m.children()[i]).flag()
                == m.children()[i].live() by {
                assert(modifiers@[i].wf());
            }
        }
        r
    }

    /// The operation by which the modifier combines with what stands
    /// before it.
    pub fn get_operation(&self) -> (r: Operation)
        ensures
            r == self.operation,
    {
        self.operation
    }

    /// Whether the modifier, or a modifier below it, starts from providers.
    pub fn has_base_provider(&self) -> (r: bool)
        ensures
            r == self.has_base_provider,
    {
        self.has_base_provider
    }

    /// The fixed value that the modifier starts from, and zero where
    /// it starts from providers.
    pub fn get_raw_point(&self) -> (r: Scalar)
        ensures
            r == (match self.values {
                ModifierValues::Static(s) => s,
                ModifierValues::Dynamic(_) => 0,
            }),
    {
        match &self.values {
            ModifierValues::Static(s) => *s,
            _ => 0,
        }
    }
}

} // verus!
