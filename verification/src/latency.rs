//! How long a shutdown takes, in a model of time in which following a
//! directive costs nothing but the waiting that it asks for.

use vstd::prelude::*;
use crate::coordinator::{lemma_shutdown_order, Directive, Phase, Progress};

verus! {

/// The time that has come, and for each monitor that was asked to stop the
/// time at which it will have finished.
pub struct Timeline {
    pub now: nat,
    pub finishes: Map<usize, nat>,
}

impl Timeline {
    /// The timeline after `directive` was followed, if monitor `i` finishes
    /// `lag[i]` after it was asked to stop. Sending a stop request takes no
    /// time; awaiting a monitor takes until that monitor has finished.
    pub open spec fn follow(self, directive: Directive, lag: Seq<nat>) -> Timeline {
        match directive {
            Directive::Stop { index } => Timeline {
                finishes: self.finishes.insert(index, self.now + lag[index as int]),
                ..self
            },
            Directive::Join { index } => Timeline {
                now: if self.finishes[index] > self.now {
                    self.finishes[index]
                } else {
                    self.now
                },
                ..self
            },
            _ => self,
        }
    }
}

/// The timeline of a shutdown of `total` monitors that took the signal at
/// time `start`, after the first `steps` directives were followed.
pub open spec fn shutdown_timeline(total: usize, start: nat, lag: Seq<nat>, steps: nat) -> Timeline
    decreases steps,
{
    if steps == 0 {
        Timeline { now: start, finishes: Map::empty() }
    } else {
        shutdown_timeline(total, start, lag, (steps - 1) as nat).follow(
            Progress::at_signal(total).driven((steps - 1) as nat).directive(),
            lag,
        )
    }
}

proof fn lemma_timeline_of_shutdown(
    total: usize,
    start: nat,
    lag: Seq<nat>,
    bound: nat,
    steps: nat,
)
    requires
        lag.len() == total,
        forall|i: int| 0 <= i < total ==> lag[i] <= bound,
        steps <= 2 * total,
    ensures
        start <= shutdown_timeline(total, start, lag, steps).now <= start + bound,
        steps <= total ==> shutdown_timeline(total, start, lag, steps).now == start,
        forall|i: usize|
            #![trigger shutdown_timeline(total, start, lag, steps).finishes[i]]
            #![trigger shutdown_timeline(total, start, lag, steps).finishes.dom().contains(i)]
            i < total && i < steps ==> shutdown_timeline(
                total,
                start,
                lag,
                steps,
            ).finishes.dom().contains(i) && shutdown_timeline(total, start, lag, steps).finishes[i]
                == start + lag[i as int],
    decreases steps,
{
    if steps > 0 {
        let done = (steps - 1) as nat;
        let before = shutdown_timeline(total, start, lag, done);
        let after = shutdown_timeline(total, start, lag, steps);
        lemma_timeline_of_shutdown(total, start, lag, bound, done);
        lemma_shutdown_order(total, done);
        if done >= total {
            let awaited = (done - total) as usize;
            assert(before.finishes.dom().contains(awaited));
        }
        assert forall|i: usize|
            #![trigger after.finishes[i]]
            #![trigger after.finishes.dom().contains(i)]
            i < total && i < steps implies after.finishes.dom().contains(i) && after.finishes[i]
            == start + lag[i as int] by {
            if i < done {
                assert(before.finishes.dom().contains(i));
            }
        }
    }
}

/// If every monitor finishes within `bound` of being asked to stop, the
/// whole shutdown is over within `bound` of the signal, however many
/// monitors there are: every stop request is out before the first wait.
pub proof fn lemma_shutdown_takes_one_interval(total: usize, start: nat, lag: Seq<nat>, bound: nat)
    requires
        lag.len() == total,
        forall|i: int| 0 <= i < total ==> lag[i] <= bound,
    ensures
        Progress::at_signal(total).driven(2 * total as nat).phase() == Phase::Terminated,
        start <= shutdown_timeline(total, start, lag, 2 * total as nat).now <= start + bound,
{
    lemma_timeline_of_shutdown(total, start, lag, bound, 2 * total as nat);
    lemma_shutdown_order(total, 2 * total as nat);
}

} // verus!
