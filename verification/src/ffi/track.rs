//! The key of a track, as a host holds it.
use crate::animation::tracks_holder::{TrackKey, NULL_KEY};
use vstd::prelude::*;

verus! {

/// The number of a track key, as it crosses to the host and back.
#[derive(Clone, Copy, PartialEq, Eq, Structural, Debug)]
pub struct TrackKeyFFI {
    pub raw: u64,
}

impl TrackKeyFFI {
    /// The key that names no track.
    pub fn null() -> (r: TrackKeyFFI)
        ensures
            r.raw == NULL_KEY,
    {
        TrackKeyFFI { raw: TrackKey::null().as_ffi() }
    }

    /// The key with this number.
    pub fn to_key(self) -> (r: TrackKey)
        ensures
            r@ == self.raw | crate::animation::tracks_holder::LIVE_BIT,
    {
        TrackKey::from_ffi(self.raw)
    }

    /// The number of `key`.
    pub fn from_key(key: TrackKey) -> (r: TrackKeyFFI)
        ensures
            r.raw == key@,
    {
        TrackKeyFFI { raw: key.as_ffi() }
    }
}

} // verus!
