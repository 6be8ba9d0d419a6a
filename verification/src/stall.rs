//! Stall detection: counting consecutive polls in which the stream position
//! did not move, and deciding when the pipeline has to be driven again.

use vstd::prelude::*;

verus! {

/// Consecutive unchanged positions tolerated before the pipeline is driven again.
pub const MAX_LOST_TIMESTAMPS: usize = 15;

/// The mathematical state of a detector.
pub struct StallModel {
    /// The last defined position that was observed, in nanoseconds.
    pub previous: Option<u64>,
    /// Consecutive unchanged observations counted so far.
    pub lost: nat,
    /// The count that must be exceeded for a stall.
    pub limit: nat,
}

/// The state of a detector that has observed nothing yet.
pub open spec fn fresh(limit: nat) -> StallModel {
    StallModel { previous: None, lost: 0, limit }
}

/// An observation shows no progress when it is defined, equal to the
/// previous defined one, and that one is not the zero baseline.
pub open spec fn unchanged(previous: Option<u64>, position: Option<u64>) -> bool {
    position is Some && previous == position && position != Some(0u64)
}

/// Whether this observation makes the counter exceed the limit.
pub open spec fn stalls(m: StallModel, position: Option<u64>) -> bool {
    unchanged(m.previous, position) && m.lost + 1 > m.limit
}

/// The state after one observation. The counter grows by one when the
/// position is defined and unchanged and the limit is not exceeded, and is
/// zero otherwise: after a change, after a stall, and after an undefined
/// position. A defined position becomes the new baseline; an undefined one
/// leaves the baseline as it is.
pub open spec fn observed(m: StallModel, position: Option<u64>) -> StallModel {
    if position is None {
        StallModel { lost: 0, ..m }
    } else if unchanged(m.previous, position) && m.lost + 1 <= m.limit {
        StallModel { previous: position, lost: m.lost + 1, limit: m.limit }
    } else {
        StallModel { previous: position, lost: 0, limit: m.limit }
    }
}

/// The state after a sequence of observations, oldest first.
pub open spec fn observed_all(m: StallModel, positions: Seq<Option<u64>>) -> StallModel
    decreases positions.len(),
{
    if positions.len() == 0 {
        m
    } else {
        observed(observed_all(m, positions.drop_last()), positions.last())
    }
}

/// How many observations of the sequence were stalls.
pub open spec fn stall_count(m: StallModel, positions: Seq<Option<u64>>) -> nat
    decreases positions.len(),
{
    if positions.len() == 0 {
        0
    } else {
        let before = observed_all(m, positions.drop_last());
        let earlier = stall_count(m, positions.drop_last());
        if stalls(before, positions.last()) {
            earlier + 1
        } else {
            earlier
        }
    }
}

/// The last defined position of a sequence of observations.
pub open spec fn last_defined(positions: Seq<Option<u64>>) -> Option<u64>
    decreases positions.len(),
{
    if positions.len() == 0 {
        None
    } else if positions.last() is Some {
        positions.last()
    } else {
        last_defined(positions.drop_last())
    }
}

/// The number of unchanged observations at the end of the sequence, counted
/// from the last observation that was undefined or showed a change.
pub open spec fn streak(positions: Seq<Option<u64>>) -> nat
    decreases positions.len(),
{
    if positions.len() == 0 {
        0
    } else if positions.last() is None {
        0
    } else if unchanged(last_defined(positions.drop_last()), positions.last()) {
        streak(positions.drop_last()) + 1
    } else {
        0
    }
}

/// Counts consecutive polls without progress of the stream position.
#[derive(Clone, Copy, Debug)]
pub struct StallDetector {
    previous: Option<u64>,
    lost: usize,
    max_lost: usize,
}

impl View for StallDetector {
    type V = StallModel;

    closed spec fn view(&self) -> StallModel {
        StallModel {
            previous: self.previous,
            lost: self.lost as nat,
            limit: self.max_lost as nat,
        }
    }
}

impl StallDetector {
    /// The counter never exceeds the limit, and is zero while no position is known.
    pub open spec fn wf(&self) -> bool {
        &&& self@.lost <= self@.limit
        &&& self@.previous is None ==> self@.lost == 0
    }

    /// A detector that has observed nothing and tolerates `max_lost`
    /// consecutive unchanged positions.
    pub fn new(max_lost: usize) -> (detector: Self)
        ensures
            detector.wf(),
            detector@ == fresh(max_lost as nat),
    {
        StallDetector { previous: None, lost: 0, max_lost }
    }

    /// The last defined position that was observed.
    pub fn previous_position(&self) -> (previous: Option<u64>)
        ensures
            previous == self@.previous,
    {
        self.previous
    }

    /// Consecutive unchanged observations counted so far.
    pub fn lost_timestamps(&self) -> (lost: usize)
        ensures
            lost as nat == self@.lost,
    {
        self.lost
    }

    /// The count that must be exceeded for a stall.
    pub fn max_lost_timestamps(&self) -> (limit: usize)
        ensures
            limit as nat == self@.limit,
    {
        self.max_lost
    }

    /// Takes one reading of the stream position, in nanoseconds, and says
    /// whether it is a stall. After a stall the counter is zero again and the
    /// reading stays the baseline of the next window. A reading that is
    /// undefined or shows a change sets the counter to zero.
    pub fn observe(&mut self, position: Option<u64>) -> (stalled: bool)
        requires
            old(self).wf(),
        ensures
            final(self).wf(),
            final(self)@ == observed(old(self)@, position),
            stalled == stalls(old(self)@, position),
            stalled ==> final(self)@.lost == 0,
            !unchanged(old(self)@.previous, position) ==> final(self)@.lost == 0,
    {
        match position {
            None => {
                self.lost = 0;
                false
            },
            Some(current) => {
                let stalled = match self.previous {
                    Some(previous) => {
                        if previous != 0 && previous == current {
                            if self.lost >= self.max_lost {
                                self.lost = 0;
                                true
                            } else {
                                self.lost = self.lost + 1;
                                false
                            }
                        } else {
                            self.lost = 0;
                            false
                        }
                    },
                    None => false,
                };
                self.previous = Some(current);
                stalled
            },
        }
    }
}

/// Feeding again and again the position that is already the baseline gives
/// one stall each time the counter passes the limit, that is one for every
/// `limit + 1` readings, and the counter starts from zero after each.
pub proof fn lemma_identical_positions(
    m: StallModel,
    position: u64,
    positions: Seq<Option<u64>>,
    rounds: nat,
    rest: nat,
)
    requires
        m.previous == Some(position),
        position != 0,
        m.lost == 0,
        forall|i: int| 0 <= i < positions.len() ==> positions[i] == Some(position),
        positions.len() == rounds * (m.limit + 1) + rest,
        rest <= m.limit,
    ensures
        stall_count(m, positions) == rounds,
        observed_all(m, positions).lost == rest,
        observed_all(m, positions).previous == Some(position),
        observed_all(m, positions).limit == m.limit,
        rest == 0 && rounds > 0 ==> stalls(
            observed_all(m, positions.drop_last()),
            positions.last(),
        ),
    decreases positions.len(),
{
    if positions.len() > 0 {
        let earlier = positions.drop_last();
        if rest > 0 {
            lemma_identical_positions(m, position, earlier, rounds, (rest - 1) as nat);
        } else {
            assert(rounds > 0) by (nonlinear_arith)
                requires
                    rounds * (m.limit + 1) + rest > 0,
                    rest == 0,
            ;
            assert(rounds * (m.limit + 1) == (rounds - 1) * (m.limit + 1) + m.limit + 1)
                by (nonlinear_arith);
            lemma_identical_positions(m, position, earlier, (rounds - 1) as nat, m.limit);
        }
    } else {
        assert(rounds == 0) by (nonlinear_arith)
            requires
                rounds * (m.limit + 1) + rest == 0,
        ;
    }
}

/// A detector that starts fresh remembers the last defined position.
pub proof fn lemma_baseline_is_last_defined(limit: nat, positions: Seq<Option<u64>>)
    ensures
        observed_all(fresh(limit), positions).previous == last_defined(positions),
        observed_all(fresh(limit), positions).limit == limit,
    decreases positions.len(),
{
    if positions.len() > 0 {
        lemma_baseline_is_last_defined(limit, positions.drop_last());
    }
}

/// The counter of a detector that started fresh never exceeds the number of
/// consecutive unchanged observations since the last change or undefined
/// position, nor the limit.
pub proof fn lemma_counter_within_streak(limit: nat, positions: Seq<Option<u64>>)
    ensures
        observed_all(fresh(limit), positions).lost <= streak(positions),
        observed_all(fresh(limit), positions).lost <= limit,
    decreases positions.len(),
{
    if positions.len() > 0 {
        lemma_counter_within_streak(limit, positions.drop_last());
        lemma_baseline_is_last_defined(limit, positions.drop_last());
    }
}

/// An observation that is undefined or shows a change, at any point and in
/// any state, leaves the counter at zero and is no stall. An undefined one
/// keeps the baseline.
pub proof fn lemma_change_resets(m: StallModel, position: Option<u64>)
    requires
        !unchanged(m.previous, position),
    ensures
        observed(m, position).lost == 0,
        !stalls(m, position),
        position is None ==> observed(m, position).previous == m.previous,
{
}

} // verus!
