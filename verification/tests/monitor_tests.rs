use ping_monitor::monitor::{reading, Entry, Event, Liveness, Monitor, TICKS_PER_SECOND};
use ping_monitor::text::render;

const SECOND: u64 = TICKS_PER_SECOND;

fn probed(reachable: bool, at: u64) -> Event {
    Event::Probed { reachable, at }
}

/// Feeds `events` to a monitor begun at reading 0 and collects the journal.
fn run(events: &[Event]) -> (Monitor, Vec<Entry>) {
    let (mut monitor, first) = Monitor::start(0);
    let mut journal = vec![first];
    for event in events {
        journal.extend(monitor.handle(*event));
    }
    (monitor, journal)
}

fn lines(journal: &[Entry], address: &str) -> Vec<String> {
    journal.iter().map(|entry| render(*entry, address)).collect()
}

#[test]
fn start_declares_offline() {
    let (monitor, first) = Monitor::start(42);
    assert_eq!(first, Entry::Started);
    assert_eq!(monitor, Monitor { liveness: Liveness::Offline, since: 42, running: true });
}

#[test]
fn journal_opens_with_start_whatever_the_probes_say() {
    for reachable in [false, true] {
        let (_, journal) = run(&[probed(reachable, SECOND), probed(!reachable, 2 * SECOND)]);
        assert_eq!(journal[0], Entry::Started);
    }
}

#[test]
fn liveness_from_outcome() {
    assert_eq!(Liveness::from_outcome(true), Liveness::Online);
    assert_eq!(Liveness::from_outcome(false), Liveness::Offline);
    assert!(Liveness::Online.is_online());
    assert!(!Liveness::Offline.is_online());
}

#[test]
fn first_success_flips_to_online() {
    let (mut monitor, _) = Monitor::start(0);
    let entries = monitor.handle(probed(true, 3 * SECOND));
    assert_eq!(
        entries,
        vec![
            Entry::Exited { state: Liveness::Offline, elapsed_secs: 3 },
            Entry::Entered { state: Liveness::Online },
        ]
    );
    assert_eq!(monitor, Monitor { liveness: Liveness::Online, since: 3 * SECOND, running: true });
}

#[test]
fn failure_while_online_flips_to_offline() {
    let mut monitor = Monitor { liveness: Liveness::Online, since: 10 * SECOND, running: true };
    let entries = monitor.handle(probed(false, 17 * SECOND));
    assert_eq!(
        entries,
        vec![
            Entry::Exited { state: Liveness::Online, elapsed_secs: 7 },
            Entry::Entered { state: Liveness::Offline },
        ]
    );
    assert_eq!(monitor, Monitor { liveness: Liveness::Offline, since: 17 * SECOND, running: true });
}

#[test]
fn repeated_outcome_emits_nothing() {
    let (mut monitor, _) = Monitor::start(5);
    let before = monitor;
    assert!(monitor.handle(probed(false, SECOND)).is_empty());
    assert!(monitor.handle(probed(false, 2 * SECOND)).is_empty());
    assert_eq!(monitor, before);

    monitor.handle(probed(true, 3 * SECOND));
    let online = monitor;
    assert!(monitor.handle(probed(true, 4 * SECOND)).is_empty());
    assert!(monitor.handle(probed(true, 5 * SECOND)).is_empty());
    assert_eq!(monitor, online);
}

#[test]
fn full_wait_emits_nothing() {
    let (mut monitor, _) = Monitor::start(0);
    let before = monitor;
    assert!(monitor.handle(Event::Waited { stop: false }).is_empty());
    assert_eq!(monitor, before);
}

#[test]
fn elapsed_counts_whole_seconds() {
    let cases: [(u64, u64, u64); 6] = [
        (0, 0, 0),
        (0, SECOND - 1, 0),
        (0, SECOND, 1),
        (0, 2 * SECOND + SECOND / 2, 2),
        (7 * SECOND + 1, 9 * SECOND, 1),
        (0, u64::MAX, 18_446_744_073),
    ];
    for (since, at, expected) in cases {
        let mut monitor = Monitor { liveness: Liveness::Offline, since, running: true };
        let entries = monitor.handle(probed(true, at));
        assert_eq!(entries[0], Entry::Exited { state: Liveness::Offline, elapsed_secs: expected });
        assert_eq!(monitor.since, at);
    }
}

#[test]
fn clock_that_ran_backwards_reports_zero() {
    let mut monitor = Monitor { liveness: Liveness::Online, since: 9 * SECOND, running: true };
    let entries = monitor.handle(probed(false, 4 * SECOND));
    assert_eq!(entries[0], Entry::Exited { state: Liveness::Online, elapsed_secs: 0 });
    assert_eq!(monitor.since, 4 * SECOND);
}

#[test]
fn stop_request_closes_the_journal() {
    let (mut monitor, _) = Monitor::start(0);
    monitor.handle(probed(true, SECOND));
    let entries = monitor.handle(Event::Waited { stop: true });
    assert_eq!(entries, vec![Entry::Terminated]);
    assert!(!monitor.running);
    assert_eq!(monitor.liveness, Liveness::Online);
}

#[test]
fn stopped_monitor_ignores_every_event() {
    let (mut monitor, _) = Monitor::start(0);
    monitor.handle(Event::Waited { stop: true });
    let stopped = monitor;
    for event in [
        probed(true, SECOND),
        probed(false, 2 * SECOND),
        Event::Waited { stop: false },
        Event::Waited { stop: true },
    ] {
        assert!(monitor.handle(event).is_empty());
        assert_eq!(monitor, stopped);
    }
}

#[test]
fn terminated_is_written_once_and_last() {
    let (_, journal) = run(&[
        probed(true, SECOND),
        Event::Waited { stop: false },
        probed(false, 2 * SECOND),
        Event::Waited { stop: true },
        probed(true, 3 * SECOND),
        Event::Waited { stop: true },
    ]);
    assert_eq!(journal.last(), Some(&Entry::Terminated));
    assert_eq!(journal.iter().filter(|entry| **entry == Entry::Terminated).count(), 1);
    assert_eq!(journal.len(), 6);
}

#[test]
fn always_reachable_host_goes_online_once() {
    let address = "127.0.0.1";
    let mut events = Vec::new();
    for cycle in 0..5u64 {
        events.push(probed(true, cycle * SECOND));
        events.push(Event::Waited { stop: cycle == 4 });
    }
    let (monitor, journal) = run(&events);
    assert_eq!(
        lines(&journal, address),
        vec![
            "Starting ping monitor to 127.0.0.1 as offline status".to_string(),
            "Exited offline status, elapsed 0 seconds".to_string(),
            "Entering online status".to_string(),
            "Ping monitor terminated".to_string(),
        ]
    );
    assert_eq!(monitor, Monitor { liveness: Liveness::Online, since: 0, running: false });
}

#[test]
fn alternating_outcomes_give_one_pair_per_cycle() {
    let mut events = Vec::new();
    for cycle in 0..6u64 {
        events.push(probed(cycle % 2 == 0, (cycle + 1) * SECOND));
        events.push(Event::Waited { stop: false });
    }
    let (mut monitor, _) = Monitor::start(0);
    let mut pairs = Vec::new();
    for event in &events {
        let entries = monitor.handle(*event);
        if let Event::Probed { .. } = event {
            pairs.push(entries);
        } else {
            assert!(entries.is_empty());
        }
    }
    assert_eq!(pairs.len(), 6);
    for (cycle, pair) in pairs.iter().enumerate() {
        let (left, entered) = if cycle % 2 == 0 {
            (Liveness::Offline, Liveness::Online)
        } else {
            (Liveness::Online, Liveness::Offline)
        };
        assert_eq!(
            *pair,
            vec![Entry::Exited { state: left, elapsed_secs: 1 }, Entry::Entered { state: entered }]
        );
    }
}

#[test]
fn reported_seconds_stay_within_the_clock() {
    let readings: [u64; 6] = [
        SECOND / 2,
        2 * SECOND - 1,
        4 * SECOND + 7,
        4 * SECOND + 8,
        9 * SECOND,
        9 * SECOND + SECOND / 3,
    ];
    let events: Vec<Event> =
        readings.iter().enumerate().map(|(i, at)| probed(i % 2 == 0, *at)).collect();
    let (_, journal) = run(&events);
    let mut reported: Vec<u64> = Vec::new();
    for entry in &journal {
        if let Entry::Exited { elapsed_secs, .. } = entry {
            reported.push(*elapsed_secs);
        }
    }
    assert_eq!(reported, vec![0, 1, 2, 0, 4, 0]);
    let total: u64 = reported.iter().sum();
    assert!(total * SECOND <= readings[5]);
}

#[test]
fn reading_counts_nanoseconds() {
    assert_eq!(reading(0, 0), 0);
    assert_eq!(reading(0, 999_999_999), 999_999_999);
    assert_eq!(reading(1, 0), 1_000_000_000);
    assert_eq!(reading(12, 345_678_901), 12_345_678_901);
    assert_eq!(reading(18_446_744_073, 709_551_615), u64::MAX);
}

#[test]
fn reading_stops_at_the_latest_that_can_be_counted() {
    assert_eq!(reading(18_446_744_073, 709_551_616), u64::MAX);
    assert_eq!(reading(18_446_744_074, 0), u64::MAX);
    assert_eq!(reading(u64::MAX, u32::MAX), u64::MAX);
    assert_eq!(reading(18_446_744_072, u32::MAX), u64::MAX);
    assert_eq!(reading(18_446_744_072, 999_999_999), 18_446_744_072_999_999_999);
}
