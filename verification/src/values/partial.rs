//! A provider that picks numbers out of a longer list.
use crate::ieee::{Scalar, ZERO};
use vstd::prelude::*;

verus! {

/// Picks the numbers at the places `parts` out of `source`. The picked
/// numbers are those of the last `update`, and zeros before the first.
#[derive(Debug)]
pub struct PartialProviderValues {
    pub source: Vec<Scalar>,
    pub parts: Vec<usize>,
    pub values: Vec<Scalar>,
}

impl PartialProviderValues {
    /// Every place named lies inside `source`, and there is one picked
    /// number for each place.
    pub open spec fn wf(&self) -> bool {
        &&& self.values@.len() == self.parts@.len()
        &&& forall|i: int| 0 <= i < self.parts@.len() ==> (#[trigger] self.parts@[i]) < self.source@.len()
    }

    /// The numbers of `source` at the places `parts`.
    pub open spec fn picked(&self) -> Seq<Scalar> {
        Seq::new(self.parts@.len(), |i: int| self.source@[self.parts@[i] as int])
    }

    /// A provider over `source` that picks the places `parts`; it gives
    /// zeros until it is updated.
    pub fn new(source: Vec<Scalar>, parts: Vec<usize>) -> (r: PartialProviderValues)
        requires
            forall|i: int| 0 <= i < parts@.len() ==> (#[trigger] parts@[i]) < source@.len(),
        ensures
            r.wf(),
            r.source == source,
            r.parts == parts,
            r.values@ == Seq::new(parts@.len(), |i: int| ZERO),
    {
        let mut values: Vec<Scalar> = Vec::new();
        let mut i: usize = 0;
        while i < parts.len()
            invariant
                i <= parts@.len(),
                values@ == Seq::new(i as nat, |j: int| ZERO),
            decreases parts@.len() - i,
        {
            values.push(ZERO);
            i = i + 1;
            assert(values@ =~= Seq::new(i as nat, |j: int| ZERO));
        }
        Self { source, values, parts }
    }

    /// The picked numbers.
    pub fn values(&self) -> (r: Vec<Scalar>)
        ensures
            r@ == self.values@,
    {
        self.values.clone()
    }

    /// Picks the numbers anew from `source`.
    pub fn update(&mut self, _t: Scalar)
        requires
            old(self).wf(),
        ensures
            final(self).wf(),
            final(self).source == old(self).source,
            final(self).parts == old(self).parts,
            final(self).values@ == old(self).picked(),
    {
        let mut i: usize = 0;
        while i < self.parts.len()
            invariant
                i <= self.parts@.len(),
                self.wf(),
                self.source == old(self).source,
                self.parts == old(self).parts,
                forall|j: int| 0 <= j < i ==> #[trigger] self.values@[j] == self.source@[self.parts@[j] as int],
            decreases self.parts@.len() - i,
        {
            let part = self.parts[i];
            let number = self.source[part];
            self.values[i] = number;
            i = i + 1;
        }
        assert(self.values@ =~= old(self).picked());
    }
}

} // verus!
