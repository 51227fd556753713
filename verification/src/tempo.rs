//! The tempo estimate and the rule that gives it.

use crate::timestamp::NANOS_PER_MILLI;
use vstd::prelude::*;

verus! {

/// A tempo, kept as the two exact terms of a rate: `intervals` beats took
/// `elapsed_millis` milliseconds, which is
/// `intervals * 60000 / elapsed_millis` beats per minute.
///
/// `elapsed_millis` may be zero, when all taps fell into one millisecond. Such a
/// tempo has no finite value; it is reported as it was measured and not turned
/// into an absent estimate.
#[derive(Clone, Copy, Debug, PartialEq, Eq, Structural)]
pub struct Tempo {
    /// The gaps between the taps: one less than the number of taps.
    pub intervals: u128,
    /// The whole milliseconds from the first tap to the last.
    pub elapsed_millis: u128,
}

/// Says that `tempo` is the estimate for `tap_count` taps, the first at `start`
/// and the last at `end`, both in nanoseconds since the Unix epoch.
///
/// There is no estimate for fewer than two taps, nor where the first tap lies
/// after the last. Otherwise the estimate counts one interval less than there
/// were taps, over the whole milliseconds between the two moments.
pub open spec fn is_tempo_between(tempo: Option<Tempo>, tap_count: nat, start: int, end: int) -> bool {
    match tempo {
        None => tap_count < 2 || start > end,
        Some(t) => {
            &&& tap_count >= 2
            &&& start <= end
            &&& t.intervals == tap_count - 1
            &&& t.elapsed_millis == (end - start) / (NANOS_PER_MILLI as int)
        },
    }
}

/// The same taps always give the same estimate: two estimates for one tap count
/// and one pair of moments are equal.
pub proof fn lemma_estimate_is_unique(
    first: Option<Tempo>,
    second: Option<Tempo>,
    tap_count: nat,
    start: int,
    end: int,
)
    requires
        is_tempo_between(first, tap_count, start, end),
        is_tempo_between(second, tap_count, start, end),
    ensures
        first == second,
{
}

/// Fewer than two taps give no estimate, whatever the two moments are.
pub proof fn lemma_too_few_taps(tempo: Option<Tempo>, tap_count: nat, start: int, end: int)
    requires
        tap_count < 2,
        is_tempo_between(tempo, tap_count, start, end),
    ensures
        tempo is None,
{
}

/// A first tap that lies after the last gives no estimate, whatever the tap
/// count is.
pub proof fn lemma_inverted_range(tempo: Option<Tempo>, tap_count: nat, start: int, end: int)
    requires
        start > end,
        is_tempo_between(tempo, tap_count, start, end),
    ensures
        tempo is None,
{
}

} // verus!
