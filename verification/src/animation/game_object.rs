//! The game objects that a track drives.
use vstd::prelude::*;

verus! {

/// A game object of the host, known to the engine only by the address
/// under which the host keeps it.
#[derive(Hash, PartialEq, Eq, Structural, Clone, Copy, Debug)]
pub struct GameObject {
    pub ptr: usize,
}

} // verus!
