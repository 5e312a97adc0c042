//! Spans of time as whole nanoseconds.

use vstd::prelude::*;

verus! {

/// Nanoseconds in one millisecond.
pub const NANOS_PER_MILLI: u128 = 1_000_000;

/// Nanoseconds in one second.
pub const NANOS_PER_SEC: u128 = 1_000_000_000;

/// A non-negative length of time, counted in nanoseconds.
#[derive(Clone, Copy, Debug, PartialEq, Eq, Structural)]
pub struct TimeSpan {
    pub nanos: u128,
}

impl TimeSpan {
    /// Whole milliseconds in the span, rounded down.
    pub open spec fn millis(self) -> nat {
        (self.nanos / 1_000_000) as nat
    }

    /// Whole milliseconds in the span, capped at the largest `u64`.
    pub open spec fn capped_millis(self) -> nat {
        if self.millis() <= u64::MAX {
            self.millis()
        } else {
            u64::MAX as nat
        }
    }

    /// The span of `nanos` nanoseconds.
    pub fn from_nanos(nanos: u64) -> (span: TimeSpan)
        ensures
            span.nanos == nanos,
    {
        TimeSpan { nanos: nanos as u128 }
    }

    /// The span of `millis` milliseconds.
    pub fn from_millis(millis: u64) -> (span: TimeSpan)
        ensures
            span.nanos == millis * 1_000_000,
            span.millis() == millis,
    {
        let wide: u128 = millis as u128;
        TimeSpan { nanos: wide * NANOS_PER_MILLI }
    }

    /// The span of `secs` seconds.
    pub fn from_secs(secs: u64) -> (span: TimeSpan)
        ensures
            span.nanos == secs * 1_000_000_000,
    {
        let wide: u128 = secs as u128;
        TimeSpan { nanos: wide * NANOS_PER_SEC }
    }

    /// The span in nanoseconds.
    pub fn as_nanos(&self) -> (nanos: u128)
        ensures
            nanos == self.nanos,
    {
        self.nanos
    }

    /// The span in whole milliseconds, rounded down.
    pub fn as_millis(&self) -> (millis: u128)
        ensures
            millis == self.millis(),
    {
        self.nanos / NANOS_PER_MILLI
    }

    /// The span in whole milliseconds, rounded down and capped at `u64::MAX`.
    pub fn as_millis_capped(&self) -> (millis: u64)
        ensures
            millis == self.capped_millis(),
    {
        let millis: u128 = self.nanos / NANOS_PER_MILLI;
        if millis <= u64::MAX as u128 {
            millis as u64
        } else {
            u64::MAX
        }
    }

    /// Whether this span is strictly shorter than `other`.
    pub fn shorter_than(&self, other: &TimeSpan) -> (shorter: bool)
        ensures
            shorter == (self.nanos < other.nanos),
    {
        self.nanos < other.nanos
    }
}

} // verus!
