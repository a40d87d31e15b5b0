//! A provider of fixed numbers.
use crate::ieee::Scalar;
use vstd::prelude::*;

verus! {

/// A short list of fixed numbers, kept in a `smallvec::SmallVec` that holds
/// up to four of them in place.
#[verifier::external_body]
#[derive(Debug)]
pub struct StaticValues {
    values: smallvec::SmallVec<[Scalar; 4]>,
}

/// The numbers that a `StaticValues` holds, in order.
pub uninterp spec fn static_numbers(s: StaticValues) -> Seq<Scalar>;

impl View for StaticValues {
    type V = Seq<Scalar>;

    open spec fn view(&self) -> Seq<Scalar> {
        static_numbers(*self)
    }
}

impl StaticValues {
    /// `SmallVec::from_slice`: a new list that holds a copy of the numbers
    /// of `values`, in their order.
    #[verifier::external_body]
    pub fn new(values: &[Scalar]) -> (r: StaticValues)
        ensures
            static_numbers(r) == values@,
    {
        StaticValues { values: smallvec::SmallVec::from_slice(values) }
    }

    /// `SmallVec::as_slice`: the whole list, in place.
    #[verifier::external_body]
    pub(crate) fn as_slice(&self) -> (r: &[Scalar])
        ensures
            r@ == static_numbers(*self),
    {
        self.values.as_slice()
    }

    /// The numbers of the list.
    pub fn values(&self) -> (r: Vec<Scalar>)
        ensures
            r@ == self@,
    {
        vstd::slice::slice_to_vec(self.as_slice())
    }

    /// How many numbers the list holds.
    pub fn len(&self) -> (r: usize)
        ensures
            r == self@.len(),
    {
        self.as_slice().len()
    }
}

} // verus!
