//! A provider that gives the angles of a rotation.
use crate::values::ValueProvider;
use vstd::prelude::*;

verus! {

/// Wraps a provider of a rotation (x, y, z, w) and gives the rotation's
/// angles in degrees.
#[derive(Debug)]
pub struct QuaternionProviderValues {
    pub source: Box<ValueProvider>,
}

impl QuaternionProviderValues {
    /// A provider of the angles of the rotation that `source` gives.
    pub fn new(source: ValueProvider) -> (r: QuaternionProviderValues)
        ensures
            *r.source == source,
    {
        Self { source: Box::new(source) }
    }
}

} // verus!
