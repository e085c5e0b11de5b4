use ping_monitor::coordinator::{Coordinator, Directive, Fault, Notice, Phase, Progress};

/// Follows every directive without failure until `Exit`, and returns them.
fn follow_to_exit(coordinator: &mut Coordinator) -> Vec<Directive> {
    let mut followed = Vec::new();
    loop {
        let directive = coordinator.directive();
        followed.push(directive);
        let notice = match directive {
            Directive::Launch { .. } => Notice::Launched,
            Directive::AwaitSignal => Notice::Signalled,
            Directive::Stop { .. } => Notice::StopSent { delivered: true },
            Directive::Join { .. } => Notice::Joined { clean: true },
            Directive::Exit => break,
        };
        assert_eq!(coordinator.handle(notice), None);
    }
    followed
}

#[test]
fn fresh_coordinator_is_starting() {
    let coordinator = Coordinator::new(3);
    assert_eq!(
        coordinator.progress(),
        Progress { total: 3, launched: 0, signalled: false, stopped: 0, joined: 0 }
    );
    assert_eq!(coordinator.phase(), Phase::Starting);
    assert_eq!(coordinator.directive(), Directive::Launch { index: 0 });
}

#[test]
fn all_stops_are_sent_before_the_first_join() {
    let mut coordinator = Coordinator::new(3);
    assert_eq!(
        follow_to_exit(&mut coordinator),
        vec![
            Directive::Launch { index: 0 },
            Directive::Launch { index: 1 },
            Directive::Launch { index: 2 },
            Directive::AwaitSignal,
            Directive::Stop { index: 0 },
            Directive::Stop { index: 1 },
            Directive::Stop { index: 2 },
            Directive::Join { index: 0 },
            Directive::Join { index: 1 },
            Directive::Join { index: 2 },
            Directive::Exit,
        ]
    );
    assert_eq!(coordinator.phase(), Phase::Terminated);
    assert_eq!(
        coordinator.progress(),
        Progress { total: 3, launched: 3, signalled: true, stopped: 3, joined: 3 }
    );
}

#[test]
fn phases_follow_each_other() {
    let mut coordinator = Coordinator::new(1);
    assert_eq!(coordinator.phase(), Phase::Starting);
    coordinator.handle(Notice::Launched);
    assert_eq!(coordinator.phase(), Phase::Running);
    coordinator.handle(Notice::Signalled);
    assert_eq!(coordinator.phase(), Phase::ShuttingDown);
    coordinator.handle(Notice::StopSent { delivered: true });
    assert_eq!(coordinator.phase(), Phase::ShuttingDown);
    coordinator.handle(Notice::Joined { clean: true });
    assert_eq!(coordinator.phase(), Phase::Terminated);
}

#[test]
fn no_targets_runs_until_the_signal() {
    let mut coordinator = Coordinator::new(0);
    assert_eq!(coordinator.phase(), Phase::Running);
    assert_eq!(
        follow_to_exit(&mut coordinator),
        vec![Directive::AwaitSignal, Directive::Exit]
    );
    assert_eq!(coordinator.phase(), Phase::Terminated);
}

#[test]
fn failures_are_reported_and_do_not_hold_up() {
    let mut coordinator = Coordinator::new(2);
    coordinator.handle(Notice::Launched);
    coordinator.handle(Notice::Launched);
    coordinator.handle(Notice::Signalled);
    assert_eq!(
        coordinator.handle(Notice::StopSent { delivered: false }),
        Some(Fault::StopUndelivered { index: 0 })
    );
    assert_eq!(coordinator.directive(), Directive::Stop { index: 1 });
    assert_eq!(coordinator.handle(Notice::StopSent { delivered: true }), None);
    assert_eq!(
        coordinator.handle(Notice::Joined { clean: false }),
        Some(Fault::JoinFailed { index: 0 })
    );
    assert_eq!(coordinator.directive(), Directive::Join { index: 1 });
    assert_eq!(
        coordinator.handle(Notice::Joined { clean: false }),
        Some(Fault::JoinFailed { index: 1 })
    );
    assert_eq!(coordinator.phase(), Phase::Terminated);
    assert_eq!(coordinator.directive(), Directive::Exit);
}

#[test]
fn second_signal_changes_nothing() {
    let mut coordinator = Coordinator::new(2);
    coordinator.handle(Notice::Launched);
    coordinator.handle(Notice::Launched);
    coordinator.handle(Notice::Signalled);
    let shutting_down = coordinator.progress();
    assert_eq!(coordinator.handle(Notice::Signalled), None);
    assert_eq!(coordinator.progress(), shutting_down);
    coordinator.handle(Notice::StopSent { delivered: true });
    let one_stopped = coordinator.progress();
    assert_eq!(coordinator.handle(Notice::Signalled), None);
    assert_eq!(coordinator.progress(), one_stopped);
}

#[test]
fn notice_out_of_turn_is_ignored() {
    let mut coordinator = Coordinator::new(2);
    let fresh = coordinator.progress();
    for notice in [
        Notice::Signalled,
        Notice::StopSent { delivered: false },
        Notice::Joined { clean: false },
    ] {
        assert_eq!(coordinator.handle(notice), None);
        assert_eq!(coordinator.progress(), fresh);
    }
    coordinator.handle(Notice::Launched);
    coordinator.handle(Notice::Launched);
    let running = coordinator.progress();
    for notice in [
        Notice::Launched,
        Notice::StopSent { delivered: true },
        Notice::Joined { clean: true },
    ] {
        assert_eq!(coordinator.handle(notice), None);
        assert_eq!(coordinator.progress(), running);
    }
    coordinator.handle(Notice::Signalled);
    let signalled = coordinator.progress();
    assert_eq!(coordinator.handle(Notice::Joined { clean: false }), None);
    assert_eq!(coordinator.progress(), signalled);
}

#[test]
fn terminated_is_final() {
    let mut coordinator = Coordinator::new(2);
    follow_to_exit(&mut coordinator);
    let done = coordinator.progress();
    for notice in [
        Notice::Launched,
        Notice::Signalled,
        Notice::StopSent { delivered: false },
        Notice::Joined { clean: false },
    ] {
        assert_eq!(coordinator.handle(notice), None);
        assert_eq!(coordinator.progress(), done);
        assert_eq!(coordinator.phase(), Phase::Terminated);
        assert_eq!(coordinator.directive(), Directive::Exit);
    }
}

/// Follows the shutdown directives on a clock on which a stop request takes
/// no time and monitor `i` finishes `lag[i]` after it was asked to stop.
/// Returns how long the shutdown took.
fn shutdown_duration(lag: &[u64]) -> u64 {
    let mut coordinator = Coordinator::new(lag.len());
    for _ in lag {
        coordinator.handle(Notice::Launched);
    }
    coordinator.handle(Notice::Signalled);
    let mut now: u64 = 0;
    let mut finishes: Vec<u64> = vec![0; lag.len()];
    loop {
        match coordinator.directive() {
            Directive::Stop { index } => {
                finishes[index] = now + lag[index];
                coordinator.handle(Notice::StopSent { delivered: true });
            }
            Directive::Join { index } => {
                now = now.max(finishes[index]);
                coordinator.handle(Notice::Joined { clean: true });
            }
            Directive::Exit => return now,
            other => panic!("unexpected directive {:?}", other),
        }
    }
}

#[test]
fn shutdown_takes_one_interval_however_many_targets() {
    assert_eq!(shutdown_duration(&[]), 0);
    assert_eq!(shutdown_duration(&[1000]), 1000);
    assert_eq!(shutdown_duration(&[1000, 1000, 1000, 1000]), 1000);
    assert_eq!(shutdown_duration(&[300, 1000, 20, 999, 0, 512]), 1000);
    let many = vec![1000u64; 200];
    assert_eq!(shutdown_duration(&many), 1000);
}

#[test]
fn every_monitor_is_stopped_and_joined_once() {
    let mut coordinator = Coordinator::new(5);
    let followed = follow_to_exit(&mut coordinator);
    for index in 0..5 {
        assert_eq!(followed.iter().filter(|d| **d == Directive::Launch { index }).count(), 1);
        assert_eq!(followed.iter().filter(|d| **d == Directive::Stop { index }).count(), 1);
        assert_eq!(followed.iter().filter(|d| **d == Directive::Join { index }).count(), 1);
    }
    assert_eq!(followed.len(), 17);
}
