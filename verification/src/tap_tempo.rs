//! The tap accumulator.

use crate::tempo::is_tempo_between;
use crate::tempo::Tempo;
use crate::timestamp::Timestamp;
use crate::timestamp::NANOS_PER_MILLI;
use vstd::prelude::*;

verus! {

/// What a [`TapTempo`] has recorded: the moment of the first tap, in nanoseconds
/// since the Unix epoch, and the number of taps.
pub struct TapState {
    pub start: Option<int>,
    pub count: nat,
}

impl TapState {
    /// Nothing recorded yet.
    pub open spec fn fresh() -> TapState {
        TapState { start: None, count: 0 }
    }

    /// The first tap's moment is known exactly when there has been a tap.
    pub open spec fn wf(self) -> bool {
        self.start is Some <==> self.count >= 1
    }

    /// The state after one more tap at the moment `now`: the count goes up by
    /// one, and the first tap's moment is set once and then kept.
    pub open spec fn tapped(self, now: int) -> TapState {
        TapState {
            start: if self.start is Some {
                self.start
            } else {
                Some(now)
            },
            count: self.count + 1,
        }
    }

    /// The state after one tap at each of `times`, in their order.
    pub open spec fn tapped_all(self, times: Seq<int>) -> TapState
        decreases times.len(),
    {
        if times.len() == 0 {
            self
        } else {
            self.tapped_all(times.drop_last()).tapped(times.last())
        }
    }

    /// Says that `tempo` is what a tap at the moment `now` reports when this is
    /// the state before it: nothing on the first tap, and afterwards the estimate
    /// for all taps including the new one, from the first tap's moment to `now`.
    pub open spec fn is_estimate(self, tempo: Option<Tempo>, now: int) -> bool {
        match self.start {
            None => tempo is None,
            Some(start) => is_tempo_between(tempo, self.count + 1, start, now),
        }
    }
}

/// Counts taps and remembers when the first one came.
pub struct TapTempo {
    start_datetime: Option<Timestamp>,
    tap_count: u128,
}

impl View for TapTempo {
    type V = TapState;

    closed spec fn view(&self) -> TapState {
        TapState {
            start: match self.start_datetime {
                Some(start) => Some(start@),
                None => None,
            },
            count: self.tap_count as nat,
        }
    }
}

impl TapTempo {
    #[verifier::type_invariant]
    closed spec fn well_formed(self) -> bool {
        self.start_datetime is Some <==> self.tap_count >= 1
    }

    /// An accumulator that has seen no tap.
    pub fn new() -> (fresh: Self)
        ensures
            fresh@ == TapState::fresh(),
    {
        Self { start_datetime: None, tap_count: 0 }
    }

    /// Records a tap at the moment the wall clock shows, and reports the tempo
    /// of the taps so far.
    ///
    /// The first tap reports nothing. A later tap reports the estimate from the
    /// first tap's moment to the clock's reading, and nothing where the clock
    /// has gone back behind the first tap.
    pub fn tap(&mut self) -> (tempo: Option<Tempo>)
        requires
            old(self)@.count < u128::MAX,
        ensures
            exists|now: int|
                final(self)@ == old(self)@.tapped(now) && old(self)@.is_estimate(tempo, now),
            final(self)@.count == old(self)@.count + 1,
            final(self)@.start is Some,
            old(self)@.start is Some ==> final(self)@.start == old(self)@.start,
            old(self)@.count == 0 ==> tempo is None,
            final(self)@.wf(),
    {
        proof {
            use_type_invariant(&*self);
        }
        let now = Timestamp::now();
        self.tap_at(now)
    }

    /// Records a tap at the moment `now`, and reports the tempo of the taps so
    /// far: nothing on the first tap, afterwards the estimate from the first
    /// tap's moment to `now`.
    pub fn tap_at(&mut self, now: Timestamp) -> (tempo: Option<Tempo>)
        requires
            old(self)@.count < u128::MAX,
        ensures
            final(self)@ == old(self)@.tapped(now@),
            old(self)@.is_estimate(tempo, now@),
            final(self)@.wf(),
    {
        proof {
            use_type_invariant(&*self);
        }
        let tap_count: u128 = self.tap_count + 1;
        match self.start_datetime {
            Some(start_datetime) => {
                *self = TapTempo { start_datetime: Some(start_datetime), tap_count };
                TapTempo::get_tempo(tap_count, &start_datetime, &now)
            },
            None => {
                *self = TapTempo { start_datetime: Some(now), tap_count };
                None
            },
        }
    }

    /// The tempo of `tap_count` taps, the first at `start_datetime` and the last
    /// at `end_datetime`.
    ///
    /// There is none for fewer than two taps, nor where the first tap lies after
    /// the last. Two taps in the same millisecond give an estimate with zero
    /// elapsed milliseconds.
    pub fn get_tempo(tap_count: u128, start_datetime: &Timestamp, end_datetime: &Timestamp) -> (tempo:
        Option<Tempo>)
        ensures
            is_tempo_between(tempo, tap_count as nat, start_datetime@, end_datetime@),
            tap_count < 2 ==> tempo is None,
            start_datetime@ > end_datetime@ ==> tempo is None,
            tempo is None ==> tap_count < 2 || start_datetime@ > end_datetime@,
    {
        if tap_count < 2 || start_datetime.is_after(end_datetime) {
            return None;
        }
        let interval_count: u128 = tap_count - 1;
        let elapsed_millis: u128 = start_datetime.millis_until(end_datetime);
        Some(Tempo { intervals: interval_count, elapsed_millis })
    }

    /// The number of taps recorded.
    pub fn tap_count(&self) -> (count: u128)
        ensures
            count == self@.count,
            self@.wf(),
    {
        proof {
            use_type_invariant(self);
        }
        self.tap_count
    }

    /// The moment of the first tap, once there has been one.
    pub fn start_datetime(&self) -> (start: Option<Timestamp>)
        ensures
            match start {
                Some(first) => self@.start == Some(first@),
                None => self@.start is None,
            },
            self@.wf(),
    {
        proof {
            use_type_invariant(self);
        }
        self.start_datetime
    }
}

impl Default for TapTempo {
    /// An accumulator that has seen no tap.
    fn default() -> (fresh: Self)
        ensures
            fresh@ == TapState::fresh(),
    {
        Self::new()
    }
}

/// A fresh accumulator's first tap reports nothing, and leaves one tap counted
/// and its moment kept as the start.
pub proof fn lemma_first_tap(tempo: Option<Tempo>, now: int)
    requires
        TapState::fresh().is_estimate(tempo, now),
    ensures
        tempo is None,
        TapState::fresh().tapped(now).count == 1,
        TapState::fresh().tapped(now).start == Some(now),
{
}

/// The second tap reports an estimate whenever it does not come before the
/// first: one interval over the milliseconds between the two.
pub proof fn lemma_second_tap(tempo: Option<Tempo>, first: int, second: int)
    requires
        first <= second,
        TapState::fresh().tapped(first).is_estimate(tempo, second),
    ensures
        tempo matches Some(t) && t.intervals == 1
            && t.elapsed_millis == (second - first) / (NANOS_PER_MILLI as int),
{
}

/// Every tap is counted: after a tap at each of `times` the count has grown by
/// their number, and from a fresh accumulator it equals their number.
pub proof fn lemma_count_is_number_of_taps(state: TapState, times: Seq<int>)
    ensures
        state.tapped_all(times).count == state.count + times.len(),
        TapState::fresh().tapped_all(times).count == times.len(),
    decreases times.len(),
{
    if times.len() > 0 {
        lemma_count_is_number_of_taps(state, times.drop_last());
        lemma_count_is_number_of_taps(TapState::fresh(), times.drop_last());
    }
}

/// The start is set exactly when a tap has been counted: this holds of a fresh
/// accumulator and stays true under every sequence of taps, which also never
/// moves a start once set.
pub proof fn lemma_start_set_iff_tapped(state: TapState, times: Seq<int>)
    requires
        state.wf(),
    ensures
        TapState::fresh().wf(),
        state.tapped_all(times).wf(),
        state.start is Some ==> state.tapped_all(times).start == state.start,
    decreases times.len(),
{
    if times.len() > 0 {
        lemma_start_set_iff_tapped(state, times.drop_last());
    }
}

} // verus!
