//! The process as a whole: the coordinator together with the monitors that
//! it has launched, and what holds of them however their steps interleave.

use vstd::prelude::*;
use crate::coordinator::{Directive, Notice, Phase, Progress};
use crate::history::{
    after_all, journal, lemma_belief_follows_outcomes, lemma_open_journal_has_no_end,
    lemma_stopped_monitor_has_closed_journal, no_stop, terminations,
};
use crate::monitor::{Entry, Event, Monitor};

verus! {

/// Everything that has happened in the process so far.
///
/// `began[i]` is the clock reading at which monitor `i` began and
/// `events[i]` the events that it has taken since, for every monitor that
/// was launched. `ended_cleanly[i]` tells how the wait for monitor `i` came
/// out, for every monitor that was awaited.
pub struct Fleet {
    pub progress: Progress,
    pub began: Seq<u64>,
    pub events: Seq<Seq<Event>>,
    pub ended_cleanly: Seq<bool>,
}

/// One step of the process.
pub enum Step {
    /// The due directive was followed and `notice` reports on it. Where it
    /// reports a launch, the new monitor begins at clock reading `at`.
    Coordinate { notice: Notice, at: u64 },
    /// Monitor `index` took `event`.
    Monitor { index: int, event: Event },
}

impl Fleet {
    /// The process before anything has happened.
    pub open spec fn fresh(total: usize) -> Fleet {
        Fleet {
            progress: Progress::fresh(total),
            began: Seq::empty(),
            events: Seq::empty(),
            ended_cleanly: Seq::empty(),
        }
    }

    /// The state of monitor `index`.
    pub open spec fn monitor(self, index: int) -> Monitor {
        after_all(Monitor::begun(self.began[index]), self.events[index])
    }

    /// The journal of monitor `index`.
    pub open spec fn journal(self, index: int) -> Seq<Entry> {
        journal(self.began[index], self.events[index])
    }

    /// Whether `step` can happen.
    ///
    /// A notice must answer the directive that is due, and a wait for a
    /// monitor comes out clean only when that monitor has left its loop. A
    /// monitor takes events only once it is launched, and it sees a stop
    /// request only after one was sent to it.
    pub open spec fn admits(self, step: Step) -> bool {
        match step {
            Step::Coordinate { notice, .. } => {
                &&& self.progress.answers(notice)
                &&& notice == (Notice::Joined { clean: true }) ==> !self.monitor(
                    self.progress.joined as int,
                ).running
            },
            Step::Monitor { index, event } => {
                &&& 0 <= index < self.events.len()
                &&& event == (Event::Waited { stop: true }) ==> index < self.progress.stopped
            },
        }
    }

    /// The process after `step`. A step that cannot happen changes nothing.
    pub open spec fn after(self, step: Step) -> Fleet {
        if !self.admits(step) {
            self
        } else {
            match step {
                Step::Coordinate { notice, at } => Fleet {
                    progress: self.progress.after(notice),
                    began: if notice == Notice::Launched {
                        self.began.push(at)
                    } else {
                        self.began
                    },
                    events: if notice == Notice::Launched {
                        self.events.push(Seq::empty())
                    } else {
                        self.events
                    },
                    ended_cleanly: match notice {
                        Notice::Joined { clean } => self.ended_cleanly.push(clean),
                        _ => self.ended_cleanly,
                    },
                },
                Step::Monitor { index, event } => Fleet {
                    events: self.events.update(index, self.events[index].push(event)),
                    ..self
                },
            }
        }
    }

    /// The process after `steps`, taken in order.
    pub open spec fn after_all(self, steps: Seq<Step>) -> Fleet
        decreases steps.len(),
    {
        if steps.len() == 0 {
            self
        } else {
            self.after_all(steps.drop_last()).after(steps.last())
        }
    }

    /// What holds of the process at every moment: the records cover exactly
    /// the monitors that were launched and awaited, no monitor has seen a
    /// stop request that was not sent, and every monitor whose wait came out
    /// clean has left its loop.
    pub open spec fn inv(self) -> bool {
        &&& self.progress.wf()
        &&& self.began.len() == self.progress.launched
        &&& self.events.len() == self.progress.launched
        &&& self.ended_cleanly.len() == self.progress.joined
        &&& forall|i: int|
            self.progress.stopped <= i < self.events.len() ==> no_stop(#[trigger] self.events[i])
        &&& forall|i: int|
            0 <= i < self.ended_cleanly.len() && #[trigger] self.ended_cleanly[i] ==> !self.monitor(
                i,
            ).running
    }
}

proof fn lemma_no_stop_push(events: Seq<Event>, event: Event)
    requires
        no_stop(events),
        event != (Event::Waited { stop: true }),
    ensures
        no_stop(events.push(event)),
{
}

proof fn lemma_stopped_stays_stopped(begun: Monitor, events: Seq<Event>, event: Event)
    requires
        !after_all(begun, events).running,
    ensures
        !after_all(begun, events.push(event)).running,
{
    assert(events.push(event).drop_last() == events);
}

/// No step breaks what holds of the process.
pub proof fn lemma_step_keeps_invariant(fleet: Fleet, step: Step)
    requires
        fleet.inv(),
    ensures
        fleet.after(step).inv(),
        fleet.after(step).progress.total == fleet.progress.total,
{
    let next = fleet.after(step);
    if fleet.admits(step) {
        match step {
            Step::Coordinate { notice, at } => {
                assert forall|i: int|
                    next.progress.stopped <= i < next.events.len() implies no_stop(
                    #[trigger] next.events[i],
                ) by {
                    if i < fleet.events.len() {
                        assert(next.events[i] == fleet.events[i]);
                    }
                }
                assert forall|i: int|
                    0 <= i < next.ended_cleanly.len()
                        && #[trigger] next.ended_cleanly[i] implies !next.monitor(i).running by {
                    if i < fleet.ended_cleanly.len() {
                        assert(fleet.ended_cleanly[i]);
                    }
                    assert(next.events[i] == fleet.events[i]);
                    assert(next.began[i] == fleet.began[i]);
                }
            },
            Step::Monitor { index, event } => {
                assert forall|i: int|
                    next.progress.stopped <= i < next.events.len() implies no_stop(
                    #[trigger] next.events[i],
                ) by {
                    assert(no_stop(fleet.events[i]));
                    if i == index {
                        lemma_no_stop_push(fleet.events[i], event);
                    }
                }
                assert forall|i: int|
                    0 <= i < next.ended_cleanly.len()
                        && #[trigger] next.ended_cleanly[i] implies !next.monitor(i).running by {
                    assert(fleet.ended_cleanly[i]);
                    if i == index {
                        lemma_stopped_stays_stopped(
                            Monitor::begun(fleet.began[i]),
                            fleet.events[i],
                            event,
                        );
                    }
                }
            },
        }
    }
}

/// What holds of the process at every moment holds after any steps from a
/// fresh start.
pub proof fn lemma_invariant_always_holds(total: usize, steps: Seq<Step>)
    ensures
        Fleet::fresh(total).after_all(steps).inv(),
        Fleet::fresh(total).after_all(steps).progress.total == total,
    decreases steps.len(),
{
    if steps.len() > 0 {
        lemma_invariant_always_holds(total, steps.drop_last());
        lemma_step_keeps_invariant(Fleet::fresh(total).after_all(steps.drop_last()), steps.last());
    }
}

/// Every monitor that was launched has a journal that opens with the
/// declaration that monitoring has begun, whatever has happened since.
pub proof fn lemma_every_journal_opens_with_start(total: usize, steps: Seq<Step>, index: int)
    requires
        0 <= index < Fleet::fresh(total).after_all(steps).progress.launched,
    ensures
        Fleet::fresh(total).after_all(steps).journal(index).len() >= 1,
        Fleet::fresh(total).after_all(steps).journal(index)[0] == Entry::Started,
{
}

/// Until the termination signal has been taken, every monitor that was
/// launched is running, and no journal holds a closing entry.
pub proof fn lemma_monitors_run_until_signal(total: usize, steps: Seq<Step>, index: int)
    requires
        !Fleet::fresh(total).after_all(steps).progress.signalled,
        0 <= index < Fleet::fresh(total).after_all(steps).progress.launched,
    ensures
        Fleet::fresh(total).after_all(steps).monitor(index).running,
        Fleet::fresh(total).after_all(steps).journal(index)[0] == Entry::Started,
        terminations(Fleet::fresh(total).after_all(steps).journal(index)) == 0,
{
    let fleet = Fleet::fresh(total).after_all(steps);
    lemma_invariant_always_holds(total, steps);
    assert(no_stop(fleet.events[index]));
    lemma_belief_follows_outcomes(fleet.began[index], fleet.events[index]);
    lemma_open_journal_has_no_end(fleet.began[index], fleet.events[index]);
}

/// When the process is terminated, every target's monitor was launched and
/// awaited, and every monitor whose wait came out clean is no longer
/// running and has closed its journal: the journal opens with the start
/// entry, ends with the closing entry, and holds the closing entry once.
pub proof fn lemma_shutdown_is_complete(total: usize, steps: Seq<Step>, index: int)
    requires
        Fleet::fresh(total).after_all(steps).progress.phase() == Phase::Terminated,
        0 <= index < total,
    ensures
        Fleet::fresh(total).after_all(steps).progress.directive() == Directive::Exit,
        Fleet::fresh(total).after_all(steps).events.len() == total,
        Fleet::fresh(total).after_all(steps).ended_cleanly.len() == total,
        Fleet::fresh(total).after_all(steps).ended_cleanly[index] ==> {
            let fleet = Fleet::fresh(total).after_all(steps);
            &&& !fleet.monitor(index).running
            &&& fleet.journal(index)[0] == Entry::Started
            &&& fleet.journal(index).last() == Entry::Terminated
            &&& terminations(fleet.journal(index)) == 1
        },
{
    let fleet = Fleet::fresh(total).after_all(steps);
    lemma_invariant_always_holds(total, steps);
    if fleet.ended_cleanly[index] {
        lemma_stopped_monitor_has_closed_journal(fleet.began[index], fleet.events[index]);
    }
}

} // verus!
