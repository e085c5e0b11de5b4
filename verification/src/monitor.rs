//! The per-target liveness machine.

use vstd::prelude::*;

verus! {

/// Clock readings are counted in nanoseconds.
pub const TICKS_PER_SECOND: u64 = 1_000_000_000;

/// The clock reading for a time that is `secs` whole seconds and `nanos`
/// nanoseconds after the clock was started. A time too late to be counted
/// reads as the latest that can be.
pub open spec fn ticks_of(secs: u64, nanos: u32) -> u64 {
    if secs * TICKS_PER_SECOND + nanos <= u64::MAX {
        (secs * TICKS_PER_SECOND + nanos) as u64
    } else {
        u64::MAX
    }
}

/// Makes a clock reading out of whole seconds and nanoseconds.
pub fn reading(secs: u64, nanos: u32) -> (ticks: u64)
    ensures
        ticks == ticks_of(secs, nanos),
{
    if secs > (u64::MAX - nanos as u64) / TICKS_PER_SECOND {
        assert(secs * TICKS_PER_SECOND + nanos > u64::MAX) by (nonlinear_arith)
            requires
                secs >= (u64::MAX - nanos) / (TICKS_PER_SECOND as int) + 1,
                TICKS_PER_SECOND == 1_000_000_000,
                nanos >= 0,
        ;
        u64::MAX
    } else {
        assert(secs * TICKS_PER_SECOND + nanos <= u64::MAX) by (nonlinear_arith)
            requires
                0 <= secs <= (u64::MAX - nanos) / (TICKS_PER_SECOND as int),
                TICKS_PER_SECOND == 1_000_000_000,
                nanos >= 0,
        ;
        secs * TICKS_PER_SECOND + nanos as u64
    }
}

/// What a monitor believes about its target.
#[derive(Clone, Copy, Debug, PartialEq, Eq, Structural)]
pub enum Liveness {
    Offline,
    Online,
}

impl Liveness {
    /// The state that a probe outcome stands for.
    pub open spec fn of(reachable: bool) -> Liveness {
        if reachable {
            Liveness::Online
        } else {
            Liveness::Offline
        }
    }

    /// The other state.
    pub open spec fn flipped(self) -> Liveness {
        match self {
            Liveness::Offline => Liveness::Online,
            Liveness::Online => Liveness::Offline,
        }
    }

    pub fn from_outcome(reachable: bool) -> (state: Liveness)
        ensures
            state == Liveness::of(reachable),
    {
        if reachable {
            Liveness::Online
        } else {
            Liveness::Offline
        }
    }

    pub fn is_online(&self) -> (online: bool)
        ensures
            online == (*self == Liveness::Online),
    {
        match self {
            Liveness::Online => true,
            Liveness::Offline => false,
        }
    }
}

/// What the caller reports to a monitor.
#[derive(Clone, Copy, Debug, PartialEq, Eq, Structural)]
pub enum Event {
    /// A probe came back, and the monitor's clock read `at` when it did.
    Probed { reachable: bool, at: u64 },
    /// The wait between two probes is over. `stop` tells whether a stop
    /// request ended it; otherwise the cadence interval ran out.
    Waited { stop: bool },
}

/// One line of a target's journal, before it is put into words.
#[derive(Clone, Copy, Debug, PartialEq, Eq, Structural)]
pub enum Entry {
    /// Monitoring has begun, with the target assumed offline.
    Started,
    /// The target left `state` after `elapsed_secs` whole seconds in it.
    Exited { state: Liveness, elapsed_secs: u64 },
    /// The target is now in `state`.
    Entered { state: Liveness },
    /// The monitor has stopped for good.
    Terminated,
}

/// The state of one target's monitor.
///
/// `liveness` is the current belief, `since` the clock reading at which that
/// belief was adopted, and `running` is false once a stop request was seen.
#[derive(Clone, Copy, Debug, PartialEq, Eq, Structural)]
pub struct Monitor {
    pub liveness: Liveness,
    pub since: u64,
    pub running: bool,
}

impl Monitor {
    /// A monitor that has just begun: offline, whatever the target is doing.
    pub open spec fn begun(at: u64) -> Monitor {
        Monitor { liveness: Liveness::Offline, since: at, running: true }
    }

    /// Whole seconds between `self.since` and `at`; zero if the clock reads
    /// less than it did then.
    pub open spec fn elapsed_secs(self, at: u64) -> u64 {
        if at >= self.since {
            ((at - self.since) / (TICKS_PER_SECOND as int)) as u64
        } else {
            0
        }
    }

    /// Whether `event` makes this monitor change its belief.
    pub open spec fn flips_on(self, event: Event) -> bool {
        &&& self.running
        &&& event matches Event::Probed { reachable, .. }
        &&& Liveness::of(reachable) != self.liveness
    }

    /// Whether `event` makes this monitor stop.
    pub open spec fn stops_on(self, event: Event) -> bool {
        &&& self.running
        &&& event matches Event::Waited { stop }
        &&& stop
    }

    /// The monitor after `event`.
    pub open spec fn after(self, event: Event) -> Monitor {
        if self.flips_on(event) {
            Monitor { liveness: self.liveness.flipped(), since: event->at, running: true }
        } else if self.stops_on(event) {
            Monitor { running: false, ..self }
        } else {
            self
        }
    }

    /// The journal entries that `event` calls for, in the order in which they
    /// are to be written.
    pub open spec fn emits(self, event: Event) -> Seq<Entry> {
        if self.flips_on(event) {
            seq![
                Entry::Exited { state: self.liveness, elapsed_secs: self.elapsed_secs(event->at) },
                Entry::Entered { state: self.liveness.flipped() },
            ]
        } else if self.stops_on(event) {
            seq![Entry::Terminated]
        } else {
            Seq::empty()
        }
    }

    /// Begins monitoring at clock reading `at`. The entry returned is the
    /// first of the journal.
    pub fn start(at: u64) -> (begun: (Monitor, Entry))
        ensures
            begun.0 == Monitor::begun(at),
            begun.1 == Entry::Started,
    {
        (Monitor { liveness: Liveness::Offline, since: at, running: true }, Entry::Started)
    }

    /// Takes one event and returns the entries to append to the journal.
    ///
    /// A probe outcome that differs from the current belief flips it, resets
    /// `since` and yields the pair "exited, entered"; an outcome that matches
    /// changes nothing. A wait that a stop request ended yields the closing
    /// entry and stops the monitor; after that every event is ignored.
    pub fn handle(&mut self, event: Event) -> (entries: Vec<Entry>)
        ensures
            *final(self) == old(self).after(event),
            entries@ == old(self).emits(event),
    {
        let mut entries: Vec<Entry> = Vec::new();
        if !self.running {
            return entries;
        }
        match event {
            Event::Probed { reachable, at } => {
                let observed = Liveness::from_outcome(reachable);
                if observed != self.liveness {
                    let elapsed_secs: u64 = if at >= self.since {
                        (at - self.since) / TICKS_PER_SECOND
                    } else {
                        0
                    };
                    entries.push(Entry::Exited { state: self.liveness, elapsed_secs });
                    entries.push(Entry::Entered { state: observed });
                    self.liveness = observed;
                    self.since = at;
                }
            },
            Event::Waited { stop } => {
                if stop {
                    entries.push(Entry::Terminated);
                    self.running = false;
                }
            },
        }
        entries
    }
}

} // verus!
