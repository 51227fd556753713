//! Points in time, counted in nanoseconds from the Unix epoch.

use crate::clock::unix_now;
use vstd::prelude::*;

verus! {

/// Nanoseconds in one second.
pub const NANOS_PER_SEC: u32 = 1_000_000_000;

/// Nanoseconds in one millisecond.
pub const NANOS_PER_MILLI: u32 = 1_000_000;

/// A point in time: whole seconds since the Unix epoch (negative before it) and
/// the nanoseconds that have passed since that second began.
#[derive(Clone, Copy, Debug, PartialEq, Eq, Structural)]
pub struct Timestamp {
    secs: i64,
    subsec_nanos: u32,
}

impl View for Timestamp {
    type V = int;

    /// The nanoseconds between the Unix epoch and this point in time.
    closed spec fn view(&self) -> int {
        self.secs * NANOS_PER_SEC + self.subsec_nanos
    }
}

impl Timestamp {
    /// The fractional part stays below one second.
    #[verifier::type_invariant]
    closed spec fn well_formed(self) -> bool {
        self.subsec_nanos < NANOS_PER_SEC
    }

    /// The point in time `subsec_nanos` nanoseconds after the second `secs`.
    /// There is none when `subsec_nanos` is a whole second or more.
    pub fn new(secs: i64, subsec_nanos: u32) -> (t: Option<Timestamp>)
        ensures
            t is Some <==> subsec_nanos < NANOS_PER_SEC,
            t matches Some(ts) ==> ts@ == secs * NANOS_PER_SEC + subsec_nanos,
    {
        if subsec_nanos < NANOS_PER_SEC {
            Some(Timestamp { secs, subsec_nanos })
        } else {
            None
        }
    }

    /// The moment that the system's wall clock shows. Nothing is known of it
    /// beforehand: the clock may be set at any time, so a later reading may show
    /// an earlier moment.
    pub fn now() -> Timestamp {
        let (secs, subsec_nanos) = unix_now();
        Timestamp { secs, subsec_nanos }
    }

    /// The whole seconds since the Unix epoch, rounded towards the past.
    pub fn secs(&self) -> (s: i64)
        ensures
            s == self@ / (NANOS_PER_SEC as int),
    {
        proof {
            use_type_invariant(self);
        }
        self.secs
    }

    /// The nanoseconds since the last whole second.
    pub fn subsec_nanos(&self) -> (n: u32)
        ensures
            n == self@ % (NANOS_PER_SEC as int),
            n < NANOS_PER_SEC,
    {
        proof {
            use_type_invariant(self);
        }
        self.subsec_nanos
    }

    /// Whether this point in time lies strictly after `other`.
    pub fn is_after(&self, other: &Timestamp) -> (after: bool)
        ensures
            after == (self@ > other@),
    {
        proof {
            use_type_invariant(self);
            use_type_invariant(other);
        }
        self.secs > other.secs
            || (self.secs == other.secs && self.subsec_nanos > other.subsec_nanos)
    }

    /// The whole milliseconds that pass from this point in time to `later`,
    /// which does not lie before it.
    pub(crate) fn millis_until(&self, later: &Timestamp) -> (millis: u128)
        requires
            self@ <= later@,
        ensures
            millis == (later@ - self@) / (NANOS_PER_MILLI as int),
    {
        proof {
            use_type_invariant(self);
            use_type_invariant(later);
        }
        let secs: i128 = later.secs as i128 - self.secs as i128;
        let nanos: i128 = later.subsec_nanos as i128 - self.subsec_nanos as i128;
        let elapsed: i128 = secs * 1_000_000_000 + nanos;
        (elapsed / 1_000_000) as u128
    }
}

} // verus!
