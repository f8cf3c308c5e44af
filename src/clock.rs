//! Instants in time, as seconds and nanoseconds since the Unix epoch.

use vstd::prelude::*;

verus! {

/// Nanoseconds in one second.
pub const NANOS_PER_SEC: u32 = 1_000_000_000;

/// An instant, `secs` seconds plus `nanos` nanoseconds after the Unix epoch.
#[derive(Clone, Copy, Debug, PartialEq, Eq, Structural)]
pub struct Timestamp {
    pub secs: i64,
    pub nanos: u32,
}

impl Timestamp {
    /// The sub-second part is below one second.
    pub open spec fn wf(&self) -> bool {
        self.nanos < NANOS_PER_SEC
    }

    /// The instant as a count of nanoseconds since the epoch.
    pub open spec fn total_nanos(&self) -> int {
        self.secs as int * NANOS_PER_SEC as int + self.nanos as int
    }

    /// Builds an instant; the sub-second part must be below one second.
    pub fn new(secs: i64, nanos: u32) -> (r: Timestamp)
        requires
            nanos < NANOS_PER_SEC,
        ensures
            r.secs == secs,
            r.nanos == nanos,
            r.wf(),
    {
        Timestamp { secs, nanos }
    }

    /// The instant `secs` whole seconds after the epoch.
    pub fn from_secs(secs: i64) -> (r: Timestamp)
        ensures
            r.secs == secs,
            r.nanos == 0,
            r.wf(),
    {
        Timestamp { secs, nanos: 0 }
    }

    /// Whether more than `limit_secs` seconds separate `earlier` from `self`.
    /// An `earlier` that lies after `self` is never more than the limit away.
    pub fn exceeds(&self, earlier: &Timestamp, limit_secs: u64) -> (r: bool)
        ensures
            r == (self.total_nanos() - earlier.total_nanos() > limit_secs as int
                * NANOS_PER_SEC as int),
    {
        let now: i128 = self.secs as i128 * 1_000_000_000i128 + self.nanos as i128;
        let then: i128 = earlier.secs as i128 * 1_000_000_000i128 + earlier.nanos as i128;
        let limit: i128 = limit_secs as i128 * 1_000_000_000i128;
        now - then > limit
    }
}

} // verus!
