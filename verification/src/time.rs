//! Durations and instants, in whole nanoseconds.

use vstd::prelude::*;

verus! {

/// The number of nanoseconds in a second.
pub const NANOS_PER_SEC: u128 = 1_000_000_000;

/// The number of nanoseconds in a millisecond.
pub const NANOS_PER_MILLI: u128 = 1_000_000;

/// A span of time.
#[derive(Clone, Copy, Debug, PartialEq, Eq, Structural)]
pub struct Duration {
    /// The length of the span in nanoseconds.
    pub nanos: u128,
}

impl View for Duration {
    type V = nat;

    open spec fn view(&self) -> nat {
        self.nanos as nat
    }
}

impl Duration {
    /// The empty span.
    pub fn zero() -> (d: Duration)
        ensures
            d@ == 0,
    {
        Duration { nanos: 0 }
    }

    /// A span of whole seconds.
    pub fn from_secs(secs: u64) -> (d: Duration)
        ensures
            d@ == secs * NANOS_PER_SEC,
    {
        Duration { nanos: secs as u128 * NANOS_PER_SEC }
    }

    /// A span of whole milliseconds.
    pub fn from_millis(millis: u64) -> (d: Duration)
        ensures
            d@ == millis * NANOS_PER_MILLI,
    {
        Duration { nanos: millis as u128 * NANOS_PER_MILLI }
    }

    /// This span `factor` times over, unless that is too long to be represented.
    pub fn checked_mul(self, factor: u128) -> (product: Option<Duration>)
        ensures
            match product {
                Some(d) => d@ == self@ * factor,
                None => self@ * factor > u128::MAX,
            },
    {
        match self.nanos.checked_mul(factor) {
            Some(nanos) => Some(Duration { nanos }),
            None => None,
        }
    }

    /// The shorter of two spans.
    pub fn min(self, other: Duration) -> (d: Duration)
        ensures
            d == (if self@ <= other@ { self } else { other }),
    {
        if self.nanos <= other.nanos {
            self
        } else {
            other
        }
    }
}

/// A point on a monotonic clock.
#[derive(Clone, Copy, Debug, PartialEq, Eq, Structural)]
pub struct Instant {
    /// How many nanoseconds this point lies after the clock's origin.
    pub nanos: u128,
}

impl View for Instant {
    type V = nat;

    open spec fn view(&self) -> nat {
        self.nanos as nat
    }
}

impl Instant {
    /// The latest instant that can be represented, in nanoseconds after the clock's origin.
    pub open spec fn latest() -> nat {
        u128::MAX as nat
    }

    /// The instant that lies `delay` after this one.
    pub fn after(self, delay: Duration) -> (later: Instant)
        requires
            self@ + delay@ <= Instant::latest(),
        ensures
            later@ == self@ + delay@,
    {
        Instant { nanos: self.nanos + delay.nanos }
    }

    /// Whether this instant is not earlier than `other`.
    pub fn has_reached(self, other: Instant) -> (reached: bool)
        ensures
            reached == (self@ >= other@),
    {
        self.nanos >= other.nanos
    }
}

} // verus!
