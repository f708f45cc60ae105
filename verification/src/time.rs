//! Spans of time, counted in whole nanoseconds.

use vstd::prelude::*;

verus! {

/// Nanoseconds in one millisecond.
pub const NANOS_PER_MILLI: u128 = 1_000_000;

/// Nanoseconds in one second.
pub const NANOS_PER_SEC: u128 = 1_000_000_000;

/// A span of time. Its view is the number of nanoseconds it lasts.
#[derive(Clone, Copy, Debug, PartialEq, Eq, PartialOrd, Ord, Hash, Structural)]
pub struct Duration {
    pub nanos: u128,
}

impl View for Duration {
    type V = nat;

    open spec fn view(&self) -> nat {
        self.nanos as nat
    }
}

impl Duration {
    /// The span that lasts `millis` milliseconds, for `millis` that fit in 64 bits.
    pub open spec fn spec_from_millis(millis: nat) -> Duration {
        Duration { nanos: (millis * NANOS_PER_MILLI) as u128 }
    }

    /// The span that lasts `nanos` nanoseconds.
    pub fn from_nanos(nanos: u128) -> (span: Duration)
        ensures
            span@ == nanos,
    {
        Duration { nanos }
    }

    /// The span that lasts `millis` milliseconds.
    pub fn from_millis(millis: u64) -> (span: Duration)
        ensures
            span == Duration::spec_from_millis(millis as nat),
            span@ == millis * NANOS_PER_MILLI,
    {
        let wide: u128 = millis as u128;
        Duration { nanos: wide * NANOS_PER_MILLI }
    }

    /// The span that lasts `secs` seconds.
    pub fn from_secs(secs: u64) -> (span: Duration)
        ensures
            span@ == secs * NANOS_PER_SEC,
    {
        let wide: u128 = secs as u128;
        Duration { nanos: wide * NANOS_PER_SEC }
    }

    /// The length of the span in nanoseconds.
    pub fn as_nanos(&self) -> (nanos: u128)
        ensures
            nanos == self@,
    {
        self.nanos
    }

    /// The length of the span in whole milliseconds, rounded down.
    pub fn as_millis(&self) -> (millis: u128)
        ensures
            millis == self@ / (NANOS_PER_MILLI as nat),
    {
        self.nanos / NANOS_PER_MILLI
    }

    /// The length of the span in whole seconds, rounded down.
    pub fn as_secs(&self) -> (secs: u128)
        ensures
            secs == self@ / (NANOS_PER_SEC as nat),
    {
        self.nanos / NANOS_PER_SEC
    }

    /// The nanoseconds of the span beyond its whole seconds.
    pub fn subsec_nanos(&self) -> (nanos: u32)
        ensures
            nanos == self@ % (NANOS_PER_SEC as nat),
    {
        (self.nanos % NANOS_PER_SEC) as u32
    }

    /// Whether this span is longer than `other`.
    pub fn exceeds(&self, other: &Duration) -> (longer: bool)
        ensures
            longer == (self@ > other@),
    {
        self.nanos > other.nanos
    }
}

} // verus!
