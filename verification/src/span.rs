//! A plain model of a non-negative span of time: whole seconds plus a
//! fractional part in nanoseconds.

use vstd::prelude::*;

verus! {

/// Nanoseconds in one second.
pub const NANOS_PER_SEC: u32 = 1_000_000_000;

/// A non-negative span of time, split into whole seconds and a nanosecond
/// remainder. Well-formed values keep `nanos` strictly below one second.
#[derive(Clone, Copy, Debug, PartialEq, Eq, Structural)]
pub struct TimeSpan {
    /// Whole seconds.
    pub secs: u64,
    /// Nanoseconds past the last whole second.
    pub nanos: u32,
}

impl TimeSpan {
    /// Well-formed: the nanosecond part never reaches a whole second.
    pub open spec fn wf(self) -> bool {
        self.nanos < NANOS_PER_SEC
    }

    /// The span as a single mathematical count of nanoseconds.
    pub open spec fn as_nanos(self) -> int {
        self.secs * (NANOS_PER_SEC as int) + self.nanos
    }

    /// Builds a span from seconds and a nanosecond remainder.
    pub fn new(secs: u64, nanos: u32) -> (r: TimeSpan)
        requires
            nanos < NANOS_PER_SEC,
        ensures
            r.wf(),
            r.secs == secs,
            r.nanos == nanos,
    {
        TimeSpan { secs, nanos }
    }

    /// Subtracts `other` from `self`, saturating at zero when `other` is the
    /// longer span.
    pub fn saturating_sub(self, other: TimeSpan) -> (r: TimeSpan)
        requires
            self.wf(),
            other.wf(),
        ensures
            r.wf(),
            self.as_nanos() >= other.as_nanos() ==> r.as_nanos() == self.as_nanos()
                - other.as_nanos(),
            self.as_nanos() < other.as_nanos() ==> r.as_nanos() == 0,
    {
        if self.secs > other.secs {
            if self.nanos >= other.nanos {
                TimeSpan { secs: self.secs - other.secs, nanos: self.nanos - other.nanos }
            } else {
                TimeSpan {
                    secs: self.secs - other.secs - 1,
                    nanos: self.nanos + NANOS_PER_SEC - other.nanos,
                }
            }
        } else if self.secs == other.secs && self.nanos >= other.nanos {
            TimeSpan { secs: 0, nanos: self.nanos - other.nanos }
        } else {
            TimeSpan { secs: 0, nanos: 0 }
        }
    }
}

} // verus!
