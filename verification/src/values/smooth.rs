//! A provider that follows another, a step at each update.
use crate::ieee::Scalar;
use crate::values::ValueProvider;
use vstd::prelude::*;

verus! {

/// Numbers that move towards those of `source` at each update.
#[derive(Debug)]
pub struct SmoothProvidersValues {
    pub source: Box<ValueProvider>,
    pub mult: Scalar,
    pub values: Vec<Scalar>,
    pub has_updated: bool,
}

impl SmoothProvidersValues {
    /// A provider that follows `source`; it holds no numbers until it is
    /// updated.
    pub fn new(source: Box<ValueProvider>, mult: Scalar) -> (r: SmoothProvidersValues)
        ensures
            r.source == source,
            r.mult == mult,
            r.values@.len() == 0,
            !r.has_updated,
    {
        Self { source, mult, values: Vec::new(), has_updated: false }
    }
}

} // verus!
