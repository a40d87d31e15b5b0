//! A point in time, as a host holds it.
use vstd::prelude::*;

verus! {

/// Seconds and nanoseconds since the start of 1970.
#[derive(Clone, Copy, PartialEq, Eq, Structural, Debug)]
pub struct CTimeUnit {
    pub seconds: u64,
    pub nanos: u32,
}

/// How many nanoseconds make a second.
pub const NANOS_PER_SECOND: u32 = 1_000_000_000;

impl CTimeUnit {
    /// The point in time as a count of nanoseconds.
    pub open spec fn total_nanos(self) -> int {
        self.seconds * 1_000_000_000 + self.nanos
    }

    /// Whether the two points are in order: the first is not after the
    /// second.
    pub open spec fn not_after(self, other: CTimeUnit) -> bool {
        self.seconds < other.seconds || (self.seconds == other.seconds && self.nanos
            <= other.nanos)
    }

    /// Whether `self` is not after `other`.
    pub fn is_not_after(&self, other: &CTimeUnit) -> (r: bool)
        ensures
            r == self.not_after(*other),
            self.nanos < NANOS_PER_SECOND && other.nanos < NANOS_PER_SECOND ==> r == (
            self.total_nanos() <= other.total_nanos()),
    {
        self.seconds < other.seconds || (self.seconds == other.seconds && self.nanos <= other.nanos)
    }
}

impl Default for CTimeUnit {
    fn default() -> (r: CTimeUnit)
        ensures
            r.seconds == 0 && r.nanos == 0,
    {
        CTimeUnit { seconds: 0, nanos: 0 }
    }
}

} // verus!
