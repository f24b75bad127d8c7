//! Points in time and the idle threshold.

use vstd::prelude::*;

verus! {

/// Idle time, in milliseconds, after which the backlight is suppressed.
pub const IDLE_MAX_TIME: u128 = 10000;

/// Pause, in milliseconds, between two polling cycles.
pub const CHECK_EVENTS_INTERVAL: u64 = 100;

/// Nanoseconds in one millisecond.
pub const NANOS_PER_MILLI: u128 = 1000000;

/// A point in time, counted in nanoseconds from a fixed origin.
#[derive(Clone, Copy, Debug, PartialEq, Eq, Structural)]
pub struct Timestamp {
    nanos: u128,
}

impl View for Timestamp {
    type V = nat;

    closed spec fn view(&self) -> nat {
        self.nanos as nat
    }
}

/// Whole milliseconds from `since` to `now`; meaningful when `since <= now`.
pub open spec fn millis_between(since: nat, now: nat) -> nat {
    ((now - since) / (NANOS_PER_MILLI as int)) as nat
}

/// Whether more than the idle threshold lies between `since` and `now`.
pub open spec fn idle_expired(since: nat, now: nat) -> bool {
    millis_between(since, now) > IDLE_MAX_TIME
}

impl Timestamp {
    /// The point `nanos` nanoseconds after the origin.
    pub fn from_nanos(nanos: u128) -> (t: Timestamp)
        ensures
            t@ == nanos,
    {
        Timestamp { nanos }
    }

    /// The point `millis` milliseconds after the origin.
    pub fn from_millis(millis: u64) -> (t: Timestamp)
        ensures
            t@ == millis * NANOS_PER_MILLI,
    {
        let wide: u128 = millis as u128;
        Timestamp { nanos: wide * NANOS_PER_MILLI }
    }

    /// Nanoseconds from the origin to this point.
    pub fn as_nanos(&self) -> (nanos: u128)
        ensures
            nanos == self@,
    {
        self.nanos
    }

    /// Whole milliseconds that passed from `since` to `self`, or `None` when
    /// `since` is later than `self`, which means the clock ran backwards.
    pub fn elapsed_millis(&self, since: Timestamp) -> (elapsed: Option<u128>)
        ensures
            self@ < since@ <==> elapsed is None,
            elapsed matches Some(ms) ==> ms == millis_between(since@, self@),
    {
        if self.nanos < since.nanos {
            None
        } else {
            Some((self.nanos - since.nanos) / NANOS_PER_MILLI)
        }
    }
}

} // verus!
