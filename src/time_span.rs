use vstd::prelude::*;

verus! {

/// Nanoseconds in one second.
pub const NANOS_PER_SEC: u32 = 1_000_000_000;

/// Seconds in one day.
pub const SECS_PER_DAY: u64 = 86_400;

/// A span of time as whole seconds plus a sub-second part in nanoseconds.
#[derive(Clone, Copy, PartialEq, Eq, Structural, Debug)]
pub struct TimeSpan {
    pub secs: u64,
    pub nanos: u32,
}

impl TimeSpan {
    /// The sub-second part is below one second.
    pub open spec fn wf(self) -> bool {
        self.nanos < NANOS_PER_SEC
    }

    /// The length of the span in nanoseconds.
    pub open spec fn total_nanos(self) -> int {
        self.secs * NANOS_PER_SEC + self.nanos
    }

    pub fn new(secs: u64, nanos: u32) -> (r: TimeSpan)
        requires
            nanos < NANOS_PER_SEC,
        ensures
            r.wf(),
            r.secs == secs,
            r.nanos == nanos,
    {
        TimeSpan { secs, nanos }
    }

    pub fn from_secs(secs: u64) -> (r: TimeSpan)
        ensures
            r.wf(),
            r.secs == secs,
            r.nanos == 0,
    {
        TimeSpan { secs, nanos: 0 }
    }

    pub fn as_secs(&self) -> (r: u64)
        ensures
            r == self.secs,
    {
        self.secs
    }

    pub fn subsec_nanos(&self) -> (r: u32)
        ensures
            r == self.nanos,
    {
        self.nanos
    }

    /// Whether this span is strictly shorter than `secs` whole seconds.
    pub fn is_shorter_than_secs(&self, secs: u64) -> (r: bool)
        requires
            self.wf(),
        ensures
            r == (self.total_nanos() < secs * NANOS_PER_SEC),
    {
        self.secs < secs
    }
}

} // verus!
