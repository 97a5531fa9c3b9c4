//! Spans of time, and readings of a monotonic clock.
use vstd::prelude::*;

verus! {

/// Nanoseconds in one second.
pub const NANOS_PER_SEC: u128 = 1_000_000_000;

/// The longest [`Duration`]: `u64::MAX` seconds and 999,999,999 nanoseconds.
pub const MAX_NANOS: u128 = 18_446_744_073_709_551_615_999_999_999;

/// A span of time, to the nanosecond. Its view is its number of nanoseconds.
#[derive(Clone, Copy, Debug, PartialEq, Eq, Structural)]
pub struct Duration {
    nanos: u128,
}

impl View for Duration {
    type V = nat;

    closed spec fn view(&self) -> nat {
        self.nanos as nat
    }
}

impl Duration {
    #[verifier::type_invariant]
    spec fn in_range(self) -> bool {
        self.nanos <= MAX_NANOS
    }

    /// The empty span.
    pub fn zero() -> (d: Duration)
        ensures
            d@ == 0,
    {
        Duration { nanos: 0 }
    }

    /// A span of `secs` seconds.
    pub fn from_secs(secs: u64) -> (d: Duration)
        ensures
            d@ == secs * NANOS_PER_SEC,
    {
        Duration { nanos: secs as u128 * NANOS_PER_SEC }
    }

    /// A span of `millis` milliseconds.
    pub fn from_millis(millis: u64) -> (d: Duration)
        ensures
            d@ == millis * 1_000_000,
    {
        Duration { nanos: millis as u128 * 1_000_000 }
    }

    /// A span of `nanos` nanoseconds.
    pub fn from_nanos(nanos: u64) -> (d: Duration)
        ensures
            d@ == nanos,
    {
        Duration { nanos: nanos as u128 }
    }

    /// A span of `secs` seconds and `nanos` nanoseconds.
    pub fn new(secs: u64, nanos: u32) -> (d: Duration)
        requires
            secs * NANOS_PER_SEC + nanos <= MAX_NANOS,
        ensures
            d@ == secs * NANOS_PER_SEC + nanos,
    {
        Duration { nanos: secs as u128 * NANOS_PER_SEC + nanos as u128 }
    }

    /// The number of nanoseconds in this span.
    pub fn as_nanos(&self) -> (nanos: u128)
        ensures
            nanos == self@,
            nanos <= MAX_NANOS,
    {
        proof {
            use_type_invariant(self);
        }
        self.nanos
    }

    /// The number of whole seconds in this span.
    pub fn as_secs(&self) -> (secs: u64)
        ensures
            secs == self@ / NANOS_PER_SEC as nat,
    {
        proof {
            use_type_invariant(self);
        }
        (self.nanos / NANOS_PER_SEC) as u64
    }

    /// Whether this span is empty.
    pub fn is_zero(&self) -> (empty: bool)
        ensures
            empty == (self@ == 0),
    {
        self.nanos == 0
    }
}

/// A reading of a monotonic clock. Its view is the number of nanoseconds that had
/// passed since the clock's origin.
#[derive(Clone, Copy, Debug, PartialEq, Eq, Structural)]
pub struct Instant {
    since_origin: Duration,
}

impl View for Instant {
    type V = nat;

    closed spec fn view(&self) -> nat {
        self.since_origin@
    }
}

impl Instant {
    /// The reading taken when `since_origin` had passed.
    pub fn at(since_origin: Duration) -> (instant: Instant)
        ensures
            instant@ == since_origin@,
    {
        Instant { since_origin }
    }

    /// The time from `earlier` to this reading, or none if `earlier` is in fact later.
    pub fn duration_since(&self, earlier: Instant) -> (span: Duration)
        ensures
            span@ == if self@ >= earlier@ { self@ - earlier@ } else { 0 },
    {
        let here: u128 = self.since_origin.as_nanos();
        let there: u128 = earlier.since_origin.as_nanos();
        if here >= there {
            Duration { nanos: here - there }
        } else {
            Duration { nanos: 0 }
        }
    }

    /// Whether `deadline` has come at this reading.
    pub fn reached(&self, deadline: Instant) -> (come: bool)
        ensures
            come == (self@ >= deadline@),
    {
        self.since_origin.as_nanos() >= deadline.since_origin.as_nanos()
    }

    /// The reading taken `span` after this one.
    pub fn plus(&self, span: Duration) -> (later: Instant)
        requires
            self@ + span@ <= MAX_NANOS,
        ensures
            later@ == self@ + span@,
    {
        Instant {
            since_origin: Duration { nanos: self.since_origin.as_nanos() + span.as_nanos() },
        }
    }
}

} // verus!
