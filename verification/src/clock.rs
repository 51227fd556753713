//! The wall clock.

use vstd::prelude::*;

verus! {

/// Reads the system's wall clock with `chrono::Utc::now` and hands back the
/// moment it shows as `chrono::DateTime::timestamp` and
/// `chrono::DateTime::timestamp_subsec_nanos` give it: the whole seconds since
/// the Unix epoch, and the nanoseconds since that second began.
///
/// Nothing is claimed of the moment itself, and two readings need not be in
/// order. What is taken on trust is that the nanoseconds stay below one second:
/// `Utc::now` builds its value from the fractional part of a
/// `std::time::Duration`, which is below one second, and never in the form that
/// chrono keeps for leap seconds. chrono does not return from `Utc::now` when the
/// system clock stands before the Unix epoch.
#[verifier::external_body]
pub(crate) fn unix_now() -> (parts: (i64, u32))
    ensures
        parts.1 < 1_000_000_000,
{
    let now = chrono::Utc::now();
    (now.timestamp(), now.timestamp_subsec_nanos())
}

} // verus!
