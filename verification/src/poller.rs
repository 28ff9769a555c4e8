//! The reaction poller: samples the two reaction markers on the prompt
//! message for a bounded window and returns the first decision that crosses
//! the threshold, or a timeout.
//!
//! Each cycle reads the reactor count of the approve marker, then of the deny
//! marker. A marker wins when its count strictly exceeds the threshold of
//! one, which discounts the reaction the workflow itself attached. The
//! approve marker is checked first in every cycle, so a cycle in which both
//! markers cross the threshold is an approval.

use vstd::prelude::*;
use crate::event::Decision;

verus! {

/// Seconds the poll window lasts.
pub const POLL_WINDOW_SECS: u64 = 30;

/// Seconds between two sampling cycles.
pub const POLL_INTERVAL_SECS: u64 = 1;

/// Number of sampling cycles in a window: one per interval.
pub const POLL_CYCLES: u64 = POLL_WINDOW_SECS / POLL_INTERVAL_SECS;

/// A marker's reactor count must strictly exceed this to win; the workflow's
/// own reaction accounts for the one allowed reactor.
pub const APPROVAL_THRESHOLD: u64 = 1;

/// One sampling cycle: the approve count decides first, then the deny count.
pub open spec fn cycle_decision(approve: u64, deny: u64) -> Option<Decision> {
    if approve > APPROVAL_THRESHOLD {
        Some(Decision::Approved)
    } else if deny > APPROVAL_THRESHOLD {
        Some(Decision::Denied)
    } else {
        None
    }
}

/// The outcome of a whole poll over the cycles' samples, each a pair of the
/// approve and deny reactor counts: the first decisive cycle wins, and a
/// window that ends with no decisive cycle times out.
pub open spec fn poll_outcome(samples: Seq<(u64, u64)>) -> Decision
    decreases samples.len(),
{
    if samples.len() == 0 {
        Decision::TimedOut
    } else {
        match cycle_decision(samples[0].0, samples[0].1) {
            Some(d) => d,
            None => poll_outcome(samples.drop_first()),
        }
    }
}

/// No cycle before `i` was decisive.
pub open spec fn undecided_before(samples: Seq<(u64, u64)>, i: int) -> bool {
    forall|j: int| 0 <= j < i ==> cycle_decision((#[trigger] samples[j]).0, samples[j].1) is None
}

/// What one sampling cycle decided.
pub fn decide_cycle(approve: u64, deny: u64) -> (r: Option<Decision>)
    ensures
        r == cycle_decision(approve, deny),
{
    if approve > APPROVAL_THRESHOLD {
        Some(Decision::Approved)
    } else if deny > APPROVAL_THRESHOLD {
        Some(Decision::Denied)
    } else {
        None
    }
}

/// What the poller asks its driver to do after a sampling cycle.
#[derive(Clone, Copy, Debug, PartialEq, Eq, Structural)]
pub enum PollStep {
    /// A marker crossed the threshold: the poll is over.
    Decided(Decision),
    /// Nothing decisive yet: sleep the interval, then sample again.
    SleepThenSample { secs: u64 },
    /// The window is spent with no decisive cycle.
    Expired,
}

/// The poller's state: how many sampling cycles of the window remain.
pub struct ReactionPoller {
    pub cycles_left: u64,
}

impl ReactionPoller {
    pub fn new() -> (p: ReactionPoller)
        ensures
            p.cycles_left == POLL_CYCLES,
    {
        ReactionPoller { cycles_left: POLL_CYCLES }
    }

    /// Digests one cycle's reactor counts. A decisive cycle ends the poll at
    /// once; otherwise a cycle of the window is consumed, and when none is
    /// left the poll expires.
    pub fn observe(&mut self, approve: u64, deny: u64) -> (r: PollStep)
        requires
            old(self).cycles_left > 0,
        ensures
            cycle_decision(approve, deny) matches Some(d) ==> r == PollStep::Decided(d)
                && final(self).cycles_left == old(self).cycles_left,
            cycle_decision(approve, deny) is None ==> final(self).cycles_left == old(
                self,
            ).cycles_left - 1,
            cycle_decision(approve, deny) is None && old(self).cycles_left > 1 ==> r
                == (PollStep::SleepThenSample { secs: POLL_INTERVAL_SECS }),
            cycle_decision(approve, deny) is None && old(self).cycles_left == 1 ==> r
                == PollStep::Expired,
    {
        match decide_cycle(approve, deny) {
            Some(d) => PollStep::Decided(d),
            None => {
                self.cycles_left = self.cycles_left - 1;
                if self.cycles_left == 0 {
                    PollStep::Expired
                } else {
                    PollStep::SleepThenSample { secs: POLL_INTERVAL_SECS }
                }
            },
        }
    }

    /// The poll outcome over already-gathered samples, one per cycle of the
    /// window, in the order they were read.
    pub fn poll(samples: &Vec<(u64, u64)>) -> (d: Decision)
        ensures
            d == poll_outcome(samples@),
    {
        let n = samples.len();
        let mut i: usize = 0;
        proof {
            assert(samples@.subrange(0, n as int) =~= samples@);
        }
        while i < n
            invariant
                0 <= i <= n,
                n == samples@.len(),
                undecided_before(samples@, i as int),
                poll_outcome(samples@) == poll_outcome(samples@.subrange(i as int, n as int)),
            decreases n - i,
        {
            let (approve, deny) = samples[i];
            let ghost rest = samples@.subrange(i as int, n as int);
            proof {
                assert(rest[0] == samples@[i as int]);
                assert(rest.drop_first() =~= samples@.subrange(i + 1, n as int));
            }
            match decide_cycle(approve, deny) {
                Some(d) => {
                    return d;
                },
                None => {
                },
            }
            i = i + 1;
        }
        proof {
            assert(samples@.subrange(i as int, n as int) =~= Seq::<(u64, u64)>::empty());
        }
        Decision::TimedOut
    }
}

/// The poll returns `Approved` exactly when some cycle within the window saw
/// the approve count cross the threshold with no earlier decisive cycle;
/// `Denied` exactly when some cycle saw the deny count cross it while the
/// approve count had not, again with no earlier decisive cycle; and
/// `TimedOut` exactly when no cycle in the window was decisive. In a cycle
/// where both counts cross the threshold the approve marker wins, because it
/// is checked first.
pub proof fn lemma_poll_outcome_characterization(samples: Seq<(u64, u64)>)
    ensures
        poll_outcome(samples) == Decision::Approved <==> exists|i: int|
            0 <= i < samples.len() && (#[trigger] samples[i]).0 > APPROVAL_THRESHOLD
                && undecided_before(samples, i),
        poll_outcome(samples) == Decision::Denied <==> exists|i: int|
            0 <= i < samples.len() && (#[trigger] samples[i]).0 <= APPROVAL_THRESHOLD
                && samples[i].1 > APPROVAL_THRESHOLD && undecided_before(samples, i),
        poll_outcome(samples) == Decision::TimedOut <==> undecided_before(
            samples,
            samples.len() as int,
        ),
    decreases samples.len(),
{
    if samples.len() == 0 {
    } else {
        let head = samples[0];
        let tail = samples.drop_first();
        match cycle_decision(head.0, head.1) {
            Some(d) => {
                assert(undecided_before(samples, 0));
                if d == Decision::Approved {
                    assert(samples[0].0 > APPROVAL_THRESHOLD);
                } else {
                    assert(samples[0].0 <= APPROVAL_THRESHOLD && samples[0].1
                        > APPROVAL_THRESHOLD);
                }
                // No later cycle can be the first decisive one: cycle 0 already is.
                assert forall|i: int| 0 < i < samples.len() implies !undecided_before(samples, i)
                    by {
                    assert(!(cycle_decision(samples[0].0, samples[0].1) is None));
                }
            },
            None => {
                lemma_poll_outcome_characterization(tail);
                assert(poll_outcome(samples) == poll_outcome(tail));
                assert(forall|j: int| 0 <= j < tail.len() ==> #[trigger] tail[j] == samples[j + 1]);
                // A witness for the tail shifts up by one for the whole
                // sequence, and the other way round.
                assert forall|i: int|
                    0 <= i < tail.len() && (#[trigger] tail[i]).0 > APPROVAL_THRESHOLD
                        && undecided_before(tail, i) implies samples[i + 1].0 > APPROVAL_THRESHOLD
                    && undecided_before(samples, i + 1) by {
                    assert(forall|j: int| 0 < j < i + 1
                        ==> cycle_decision((#[trigger] samples[j]).0, samples[j].1)
                        == cycle_decision(tail[j - 1].0, tail[j - 1].1));
                }
                assert forall|i: int|
                    0 < i < samples.len() && (#[trigger] samples[i]).0 > APPROVAL_THRESHOLD
                        && undecided_before(samples, i) implies tail[i - 1].0 > APPROVAL_THRESHOLD
                    && undecided_before(tail, i - 1) by {
                    assert(forall|j: int| 0 <= j < i - 1
                        ==> cycle_decision((#[trigger] tail[j]).0, tail[j].1)
                        == cycle_decision(samples[j + 1].0, samples[j + 1].1));
                }
                assert forall|i: int|
                    0 <= i < tail.len() && (#[trigger] tail[i]).0 <= APPROVAL_THRESHOLD
                        && tail[i].1 > APPROVAL_THRESHOLD && undecided_before(tail, i) implies
                    samples[i + 1].0 <= APPROVAL_THRESHOLD && samples[i + 1].1 > APPROVAL_THRESHOLD
                    && undecided_before(samples, i + 1) by {
                    assert(forall|j: int| 0 < j < i + 1
                        ==> cycle_decision((#[trigger] samples[j]).0, samples[j].1)
                        == cycle_decision(tail[j - 1].0, tail[j - 1].1));
                }
                assert forall|i: int|
                    0 < i < samples.len() && (#[trigger] samples[i]).0 <= APPROVAL_THRESHOLD
                        && samples[i].1 > APPROVAL_THRESHOLD && undecided_before(samples, i)
                    implies tail[i - 1].0 <= APPROVAL_THRESHOLD && tail[i - 1].1
                    > APPROVAL_THRESHOLD && undecided_before(tail, i - 1) by {
                    assert(forall|j: int| 0 <= j < i - 1
                        ==> cycle_decision((#[trigger] tail[j]).0, tail[j].1)
                        == cycle_decision(samples[j + 1].0, samples[j + 1].1));
                }
                // A decisive cycle 0 is ruled out by this branch.
                assert(forall|i: int| 0 <= i < samples.len() && (#[trigger] samples[i]).0
                    > APPROVAL_THRESHOLD && undecided_before(samples, i) ==> i > 0);
                assert(forall|i: int| 0 <= i < samples.len() && (#[trigger] samples[i]).0
                    <= APPROVAL_THRESHOLD && samples[i].1 > APPROVAL_THRESHOLD
                    && undecided_before(samples, i) ==> i > 0);
                if undecided_before(tail, tail.len() as int) {
                    assert forall|j: int| 0 <= j < samples.len() implies cycle_decision(
                        (#[trigger] samples[j]).0,
                        samples[j].1,
                    ) is None by {
                        if j > 0 {
                            assert(tail[j - 1] == samples[j]);
                        }
                    }
                    assert(undecided_before(samples, samples.len() as int));
                }
                if undecided_before(samples, samples.len() as int) {
                    assert forall|j: int| 0 <= j < tail.len() implies cycle_decision(
                        (#[trigger] tail[j]).0,
                        tail[j].1,
                    ) is None by {
                        assert(tail[j] == samples[j + 1]);
                    }
                    assert(undecided_before(tail, tail.len() as int));
                }
            },
        }
    }
}

} // verus!
