//! Spans of time, as seconds and nanoseconds.
use vstd::prelude::*;

verus! {

/// A span of time: whole seconds and the nanoseconds beyond them.
#[derive(Debug, Clone, Copy, PartialEq, Eq, Structural)]
pub struct Duration {
    pub secs: u64,
    pub nanos: u32,
}

impl Duration {
    /// The span of `secs` whole seconds.
    pub open spec fn of_secs(secs: u64) -> Duration {
        Duration { secs, nanos: 0 }
    }

    /// The span of `millis` milliseconds.
    pub open spec fn of_millis(millis: u64) -> Duration {
        Duration { secs: millis / 1000, nanos: ((millis % 1000) * 1_000_000) as u32 }
    }

    /// The length of the span in nanoseconds.
    pub open spec fn total_nanos(self) -> int {
        self.secs * 1_000_000_000 + self.nanos
    }

    /// Whether this span is at least `other`, comparing seconds, then nanoseconds.
    pub open spec fn at_least(self, other: Duration) -> bool {
        self.secs > other.secs || (self.secs == other.secs && self.nanos >= other.nanos)
    }

    /// Whether this span is at least `other`, comparing seconds, then nanoseconds.
    pub fn reaches(&self, other: &Duration) -> (b: bool)
        ensures
            b == self.at_least(*other),
    {
        self.secs > other.secs || (self.secs == other.secs && self.nanos >= other.nanos)
    }

    /// The span of `secs` whole seconds.
    pub fn from_secs(secs: u64) -> (d: Duration)
        ensures
            d == Duration::of_secs(secs),
            d.total_nanos() == secs * 1_000_000_000,
    {
        Duration { secs, nanos: 0 }
    }

    /// The span of `millis` milliseconds.
    pub fn from_millis(millis: u64) -> (d: Duration)
        ensures
            d == Duration::of_millis(millis),
            d.nanos < 1_000_000_000,
            d.total_nanos() == millis * 1_000_000,
    {
        let nanos: u32 = ((millis % 1000) * 1_000_000) as u32;
        Duration { secs: millis / 1000, nanos }
    }
}

} // verus!
