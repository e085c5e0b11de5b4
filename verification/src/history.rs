//! What holds of a monitor over a whole run: the journal that a sequence of
//! events produces, and the laws that every such journal obeys.

use vstd::prelude::*;
use crate::monitor::{Entry, Event, Liveness, Monitor, TICKS_PER_SECOND};
use crate::text::entry_text;

verus! {

/// The monitor that `monitor` becomes by taking `events` in order.
pub open spec fn after_all(monitor: Monitor, events: Seq<Event>) -> Monitor
    decreases events.len(),
{
    if events.len() == 0 {
        monitor
    } else {
        after_all(monitor, events.drop_last()).after(events.last())
    }
}

/// The entries that `monitor` emits while taking `events` in order.
pub open spec fn emitted(monitor: Monitor, events: Seq<Event>) -> Seq<Entry>
    decreases events.len(),
{
    if events.len() == 0 {
        Seq::empty()
    } else {
        emitted(monitor, events.drop_last()) + after_all(monitor, events.drop_last()).emits(
            events.last(),
        )
    }
}

/// The whole journal of a monitor begun at reading `at` that then took
/// `events`.
pub open spec fn journal(at: u64, events: Seq<Event>) -> Seq<Entry> {
    seq![Entry::Started] + emitted(Monitor::begun(at), events)
}

/// No event of `events` reports a stop request.
pub open spec fn no_stop(events: Seq<Event>) -> bool {
    forall|i: int| 0 <= i < events.len() ==> events[i] != (Event::Waited { stop: true })
}

/// The outcome of the latest probe in `events`; unreachable if there was none.
pub open spec fn last_outcome(events: Seq<Event>) -> bool
    decreases events.len(),
{
    if events.len() == 0 {
        false
    } else {
        match events.last() {
            Event::Probed { reachable, .. } => reachable,
            Event::Waited { .. } => last_outcome(events.drop_last()),
        }
    }
}

/// The clock reading of the latest probe in `events` whose outcome differed
/// from the one before it; `at` if there was none.
pub open spec fn last_change(at: u64, events: Seq<Event>) -> u64
    decreases events.len(),
{
    if events.len() == 0 {
        at
    } else {
        match events.last() {
            Event::Probed { reachable, at: now } => if reachable != last_outcome(
                events.drop_last(),
            ) {
                now
            } else {
                last_change(at, events.drop_last())
            },
            Event::Waited { .. } => last_change(at, events.drop_last()),
        }
    }
}

/// The clock reading of the latest probe in `events`; `at` if there was none.
pub open spec fn latest_reading(at: u64, events: Seq<Event>) -> u64
    decreases events.len(),
{
    if events.len() == 0 {
        at
    } else {
        match events.last() {
            Event::Probed { at: now, .. } => now,
            Event::Waited { .. } => latest_reading(at, events.drop_last()),
        }
    }
}

/// The clock never reads less than it did at an earlier probe or at the start.
pub open spec fn clock_ordered(at: u64, events: Seq<Event>) -> bool
    decreases events.len(),
{
    if events.len() == 0 {
        true
    } else {
        &&& clock_ordered(at, events.drop_last())
        &&& events.last() matches Event::Probed { at: now, .. } ==> now >= latest_reading(
            at,
            events.drop_last(),
        )
    }
}

/// The sum of the seconds that the "exited" entries of `entries` report.
pub open spec fn reported_seconds(entries: Seq<Entry>) -> nat
    decreases entries.len(),
{
    if entries.len() == 0 {
        0
    } else {
        reported_seconds(entries.drop_last()) + match entries.last() {
            Entry::Exited { elapsed_secs, .. } => elapsed_secs as nat,
            _ => 0,
        }
    }
}

/// How often `Entry::Terminated` occurs in `entries`.
pub open spec fn terminations(entries: Seq<Entry>) -> nat
    decreases entries.len(),
{
    if entries.len() == 0 {
        0
    } else {
        terminations(entries.drop_last()) + if entries.last() == Entry::Terminated {
            1nat
        } else {
            0nat
        }
    }
}

/// A journal always opens with the declaration that monitoring has begun in
/// the offline state, whatever the probes report afterwards.
pub proof fn lemma_journal_opens_with_start(at: u64, events: Seq<Event>, address: Seq<char>)
    ensures
        journal(at, events).len() >= 1,
        journal(at, events)[0] == Entry::Started,
        entry_text(journal(at, events)[0], address) == "Starting ping monitor to "@ + address
            + " as offline status"@,
        Monitor::begun(at).liveness == Liveness::Offline,
{
}

/// While no stop request has been seen, the monitor runs, believes what the
/// latest probe reported, and has believed it since the latest change of
/// outcome.
pub proof fn lemma_belief_follows_outcomes(at: u64, events: Seq<Event>)
    requires
        no_stop(events),
    ensures
        after_all(Monitor::begun(at), events).running,
        after_all(Monitor::begun(at), events).liveness == Liveness::of(last_outcome(events)),
        after_all(Monitor::begun(at), events).since == last_change(at, events),
    decreases events.len(),
{
    if events.len() > 0 {
        let earlier = events.drop_last();
        assert forall|i: int| 0 <= i < earlier.len() implies earlier[i] != (Event::Waited {
            stop: true,
        }) by {
            assert(earlier[i] == events[i]);
        }
        lemma_belief_follows_outcomes(at, earlier);
        assert(events.last() == events[events.len() - 1]);
    }
}

/// A probe yields the pair "exited, entered" if and only if its outcome
/// differs from that of the probe before it (from "unreachable", for the very
/// first probe). An outcome that repeats yields no entry, and neither does a
/// wait that ran its full course.
pub proof fn lemma_pair_iff_outcome_changes(
    at: u64,
    events: Seq<Event>,
    reachable: bool,
    now: u64,
)
    requires
        no_stop(events),
    ensures
        ({
            let monitor = after_all(Monitor::begun(at), events);
            let probe = Event::Probed { reachable, at: now };
            &&& reachable != last_outcome(events) ==> monitor.emits(probe) == seq![
                Entry::Exited {
                    state: Liveness::of(!reachable),
                    elapsed_secs: monitor.elapsed_secs(now),
                },
                Entry::Entered { state: Liveness::of(reachable) },
            ]
            &&& reachable == last_outcome(events) ==> monitor.emits(probe) == Seq::<Entry>::empty()
            &&& reachable == last_outcome(events) ==> monitor.after(probe) == monitor
            &&& monitor.emits(Event::Waited { stop: false }) == Seq::<Entry>::empty()
            &&& monitor.after(Event::Waited { stop: false }) == monitor
        }),
{
    lemma_belief_follows_outcomes(at, events);
}

/// The seconds reported when a state is left are the whole seconds between
/// the reading at which it was entered and the reading at which it is left:
/// never negative, and never more than the clock itself has advanced.
pub proof fn lemma_elapsed_is_whole_seconds(monitor: Monitor, now: u64)
    requires
        now >= monitor.since,
    ensures
        monitor.elapsed_secs(now) * TICKS_PER_SECOND <= now - monitor.since,
        now - monitor.since < (monitor.elapsed_secs(now) + 1) * TICKS_PER_SECOND,
{
    let span = (now - monitor.since) as int;
    let unit = TICKS_PER_SECOND as int;
    assert(0 <= span / unit <= span && span / unit * unit <= span < (span / unit + 1) * unit)
        by (nonlinear_arith)
        requires
            span >= 0,
            unit > 0,
    ;
}

/// When a probe makes the monitor leave a state, the seconds reported are
/// the whole seconds that the clock has advanced since the latest change of
/// outcome before it (since the start, if there was none).
pub proof fn lemma_elapsed_spans_consecutive_changes(
    at: u64,
    events: Seq<Event>,
    reachable: bool,
    now: u64,
)
    requires
        no_stop(events),
        reachable != last_outcome(events),
        now >= last_change(at, events),
    ensures
        ({
            let monitor = after_all(Monitor::begun(at), events);
            let entries = monitor.emits(Event::Probed { reachable, at: now });
            &&& entries.len() == 2
            &&& entries[0] matches Entry::Exited { elapsed_secs, .. }
            &&& elapsed_secs * TICKS_PER_SECOND <= now - last_change(at, events)
            &&& now - last_change(at, events) < (elapsed_secs + 1) * TICKS_PER_SECOND
            &&& monitor.after(Event::Probed { reachable, at: now }).since == now
        }),
{
    lemma_belief_follows_outcomes(at, events);
    lemma_elapsed_is_whole_seconds(after_all(Monitor::begun(at), events), now);
}

proof fn lemma_tally_of_push(entries: Seq<Entry>, entry: Entry)
    ensures
        reported_seconds(entries.push(entry)) == reported_seconds(entries) + match entry {
            Entry::Exited { elapsed_secs, .. } => elapsed_secs as nat,
            _ => 0,
        },
        terminations(entries.push(entry)) == terminations(entries) + if entry
            == Entry::Terminated {
            1nat
        } else {
            0nat
        },
{
    assert(entries.push(entry).drop_last() == entries);
}

proof fn lemma_tally_of_step(entries: Seq<Entry>, monitor: Monitor, event: Event)
    ensures
        reported_seconds(entries + monitor.emits(event)) == reported_seconds(entries)
            + if monitor.flips_on(event) {
            monitor.elapsed_secs(event->at) as nat
        } else {
            0nat
        },
        terminations(entries + monitor.emits(event)) == terminations(entries)
            + if monitor.stops_on(event) {
            1nat
        } else {
            0nat
        },
{
    let added = monitor.emits(event);
    if monitor.flips_on(event) {
        let first = entries.push(added[0]);
        assert(entries + added == first.push(added[1]));
        lemma_tally_of_push(entries, added[0]);
        lemma_tally_of_push(first, added[1]);
    } else if monitor.stops_on(event) {
        assert(entries + added == entries.push(added[0]));
        lemma_tally_of_push(entries, added[0]);
    } else {
        assert(entries + added == entries);
    }
}

/// Under a clock that never runs backwards, the seconds that a journal
/// reports add up to no more than the time that has passed since the
/// monitor began.
pub proof fn lemma_reported_time_within_wall_clock(at: u64, events: Seq<Event>)
    requires
        clock_ordered(at, events),
    ensures
        at <= after_all(Monitor::begun(at), events).since <= latest_reading(at, events),
        reported_seconds(emitted(Monitor::begun(at), events)) * TICKS_PER_SECOND
            <= after_all(Monitor::begun(at), events).since - at,
        reported_seconds(emitted(Monitor::begun(at), events)) * TICKS_PER_SECOND
            <= latest_reading(at, events) - at,
    decreases events.len(),
{
    if events.len() > 0 {
        let earlier = events.drop_last();
        let before = after_all(Monitor::begun(at), earlier);
        lemma_reported_time_within_wall_clock(at, earlier);
        lemma_tally_of_step(emitted(Monitor::begun(at), earlier), before, events.last());
        if before.flips_on(events.last()) {
            lemma_elapsed_is_whole_seconds(before, events.last()->at);
            let told = reported_seconds(emitted(Monitor::begun(at), earlier)) as int;
            let more = before.elapsed_secs(events.last()->at) as int;
            let unit = TICKS_PER_SECOND as int;
            assert((told + more) * unit == told * unit + more * unit) by (nonlinear_arith);
        }
    }
}

/// A journal that no stop request has closed holds no closing entry.
pub proof fn lemma_open_journal_has_no_end(at: u64, events: Seq<Event>)
    requires
        no_stop(events),
    ensures
        terminations(journal(at, events)) == 0,
{
    lemma_terminations_of_journal(at, events);
    lemma_belief_follows_outcomes(at, events);
}

proof fn lemma_terminations_add(left: Seq<Entry>, right: Seq<Entry>)
    ensures
        terminations(left + right) == terminations(left) + terminations(right),
    decreases right.len(),
{
    if right.len() == 0 {
        assert(left + right == left);
    } else {
        lemma_terminations_add(left, right.drop_last());
        assert((left + right).drop_last() == left + right.drop_last());
    }
}

/// A monitor writes its closing entry exactly when it stops: a run holds one
/// closing entry if it ends stopped after starting out running, and none
/// otherwise.
proof fn lemma_terminations_of_run(monitor: Monitor, events: Seq<Event>)
    ensures
        after_all(monitor, events).running ==> monitor.running,
        terminations(emitted(monitor, events)) == if monitor.running && !after_all(
            monitor,
            events,
        ).running {
            1nat
        } else {
            0nat
        },
    decreases events.len(),
{
    if events.len() > 0 {
        let earlier = events.drop_last();
        lemma_terminations_of_run(monitor, earlier);
        lemma_tally_of_step(emitted(monitor, earlier), after_all(monitor, earlier), events.last());
    }
}

proof fn lemma_terminations_of_journal(at: u64, events: Seq<Event>)
    ensures
        terminations(journal(at, events)) == if after_all(Monitor::begun(at), events).running {
            0nat
        } else {
            1nat
        },
{
    let head = seq![Entry::Started];
    assert(head == Seq::<Entry>::empty().push(Entry::Started));
    lemma_tally_of_push(Seq::empty(), Entry::Started);
    lemma_terminations_of_run(Monitor::begun(at), events);
    lemma_terminations_add(head, emitted(Monitor::begun(at), events));
}

/// Once a stop request has been seen the journal is closed: it ends with
/// the closing entry, holds that entry exactly once, and no later event adds
/// to it or changes the monitor.
pub proof fn lemma_stop_closes_journal(at: u64, events: Seq<Event>, later: Seq<Event>)
    requires
        events.len() > 0,
        events.last() == (Event::Waited { stop: true }),
        no_stop(events.drop_last()),
    ensures
        !after_all(Monitor::begun(at), events + later).running,
        after_all(Monitor::begun(at), events + later) == after_all(Monitor::begun(at), events),
        journal(at, events + later) == journal(at, events),
        journal(at, events).last() == Entry::Terminated,
        terminations(journal(at, events)) == 1,
    decreases later.len(),
{
    let begun = Monitor::begun(at);
    lemma_belief_follows_outcomes(at, events.drop_last());
    if later.len() == 0 {
        assert(events + later == events);
        lemma_terminations_of_journal(at, events);
    } else {
        lemma_stop_closes_journal(at, events, later.drop_last());
        assert((events + later).drop_last() == events + later.drop_last());
        assert((events + later).last() == later.last());
    }
}

/// A monitor that no longer runs has closed its journal: the closing entry
/// is the last one, and it stands there once.
pub proof fn lemma_stopped_monitor_has_closed_journal(at: u64, events: Seq<Event>)
    requires
        !after_all(Monitor::begun(at), events).running,
    ensures
        journal(at, events).last() == Entry::Terminated,
        terminations(journal(at, events)) == 1,
    decreases events.len(),
{
    let begun = Monitor::begun(at);
    let earlier = events.drop_last();
    lemma_terminations_of_journal(at, events);
    if after_all(begun, earlier).running {
        assert(after_all(begun, earlier).emits(events.last()) == seq![Entry::Terminated]);
    } else {
        lemma_stopped_monitor_has_closed_journal(at, earlier);
        assert(emitted(begun, events) == emitted(begun, earlier));
    }
}

} // verus!
