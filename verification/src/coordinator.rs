//! The life of the whole process: launch every monitor, wait for the
//! termination signal, ask every monitor to stop, wait for every monitor to
//! finish.

use vstd::prelude::*;

verus! {

/// Where the process stands.
#[derive(Clone, Copy, Debug, PartialEq, Eq, Structural)]
pub enum Phase {
    /// Monitors are still being launched.
    Starting,
    /// Every monitor runs; the termination signal has not come.
    Running,
    /// The signal has come; monitors are being stopped and awaited.
    ShuttingDown,
    /// Every monitor has finished.
    Terminated,
}

impl Phase {
    /// The position of a phase in the order in which phases follow each other.
    pub open spec fn rank(self) -> nat {
        match self {
            Phase::Starting => 0,
            Phase::Running => 1,
            Phase::ShuttingDown => 2,
            Phase::Terminated => 3,
        }
    }
}

/// What the caller is to do next. Monitors are named by their position in
/// the list of targets.
#[derive(Clone, Copy, Debug, PartialEq, Eq, Structural)]
pub enum Directive {
    /// Launch the monitor of target `index`.
    Launch { index: usize },
    /// Block until the termination signal arrives.
    AwaitSignal,
    /// Send the stop request to monitor `index`.
    Stop { index: usize },
    /// Wait for monitor `index` to finish.
    Join { index: usize },
    /// Leave: nothing is running any more.
    Exit,
}

/// What the caller reports back after following a directive.
#[derive(Clone, Copy, Debug, PartialEq, Eq, Structural)]
pub enum Notice {
    /// The monitor was launched.
    Launched,
    /// The termination signal arrived.
    Signalled,
    /// The stop request was sent; `delivered` is false if the monitor was
    /// already gone.
    StopSent { delivered: bool },
    /// The monitor has finished; `clean` is false if it did not end in order.
    Joined { clean: bool },
}

/// A failure that the operator is to be told of. None of them holds the
/// shutdown up.
#[derive(Clone, Copy, Debug, PartialEq, Eq, Structural)]
pub enum Fault {
    /// The stop request for monitor `index` found nobody to take it.
    StopUndelivered { index: usize },
    /// Monitor `index` did not end in order.
    JoinFailed { index: usize },
}

/// How far the process has come: of `total` monitors, `launched` were
/// launched, `stopped` were sent their stop request and `joined` have been
/// awaited; `signalled` tells whether the termination signal has arrived.
#[derive(Clone, Copy, Debug, PartialEq, Eq, Structural)]
pub struct Progress {
    pub total: usize,
    pub launched: usize,
    pub signalled: bool,
    pub stopped: usize,
    pub joined: usize,
}

impl Progress {
    /// The counts are those of a process that went through its phases in
    /// order: no signal is taken before every monitor runs, no stop request
    /// is sent before the signal, and no monitor is awaited before every
    /// monitor was asked to stop.
    pub open spec fn wf(self) -> bool {
        &&& self.launched <= self.total
        &&& self.stopped <= self.total
        &&& self.joined <= self.total
        &&& self.signalled ==> self.launched == self.total
        &&& self.stopped > 0 ==> self.signalled
        &&& self.joined > 0 ==> self.stopped == self.total
    }

    /// The progress of a process that has done nothing yet.
    pub open spec fn fresh(total: usize) -> Progress {
        Progress { total, launched: 0, signalled: false, stopped: 0, joined: 0 }
    }

    pub open spec fn phase(self) -> Phase {
        if self.launched < self.total {
            Phase::Starting
        } else if !self.signalled {
            Phase::Running
        } else if self.joined < self.total {
            Phase::ShuttingDown
        } else {
            Phase::Terminated
        }
    }

    pub open spec fn directive(self) -> Directive {
        match self.phase() {
            Phase::Starting => Directive::Launch { index: self.launched },
            Phase::Running => Directive::AwaitSignal,
            Phase::ShuttingDown => if self.stopped < self.total {
                Directive::Stop { index: self.stopped }
            } else {
                Directive::Join { index: self.joined }
            },
            Phase::Terminated => Directive::Exit,
        }
    }

    /// Whether `notice` reports on the directive that is due.
    pub open spec fn answers(self, notice: Notice) -> bool {
        match (self.directive(), notice) {
            (Directive::Launch { .. }, Notice::Launched) => true,
            (Directive::AwaitSignal, Notice::Signalled) => true,
            (Directive::Stop { .. }, Notice::StopSent { .. }) => true,
            (Directive::Join { .. }, Notice::Joined { .. }) => true,
            _ => false,
        }
    }

    /// The progress after `notice`. A notice that does not answer the
    /// directive that is due changes nothing.
    pub open spec fn after(self, notice: Notice) -> Progress {
        if !self.answers(notice) {
            self
        } else {
            match notice {
                Notice::Launched => Progress { launched: (self.launched + 1) as usize, ..self },
                Notice::Signalled => Progress { signalled: true, ..self },
                Notice::StopSent { .. } => Progress {
                    stopped: (self.stopped + 1) as usize,
                    ..self
                },
                Notice::Joined { .. } => Progress { joined: (self.joined + 1) as usize, ..self },
            }
        }
    }

    /// The failure that `notice` reports, if it reports one.
    pub open spec fn fault(self, notice: Notice) -> Option<Fault> {
        match (self.directive(), notice) {
            (Directive::Stop { index }, Notice::StopSent { delivered: false }) => Some(
                Fault::StopUndelivered { index },
            ),
            (Directive::Join { index }, Notice::Joined { clean: false }) => Some(
                Fault::JoinFailed { index },
            ),
            _ => None,
        }
    }

    /// The notice that reports the due directive as done without failure.
    pub open spec fn due_notice(self) -> Notice {
        match self.directive() {
            Directive::Launch { .. } => Notice::Launched,
            Directive::Stop { .. } => Notice::StopSent { delivered: true },
            Directive::Join { .. } => Notice::Joined { clean: true },
            _ => Notice::Signalled,
        }
    }

    /// The progress after the next `steps` directives were each followed and
    /// reported.
    pub open spec fn driven(self, steps: nat) -> Progress
        decreases steps,
    {
        if steps == 0 {
            self
        } else {
            let before = self.driven((steps - 1) as nat);
            before.after(before.due_notice())
        }
    }

    /// The progress at the moment the termination signal is taken.
    pub open spec fn at_signal(total: usize) -> Progress {
        Progress { total, launched: total, signalled: true, stopped: 0, joined: 0 }
    }
}

/// The coordinator of one process.
pub struct Coordinator {
    progress: Progress,
}

impl View for Coordinator {
    type V = Progress;

    closed spec fn view(&self) -> Progress {
        self.progress
    }
}

impl Coordinator {
    #[verifier::type_invariant]
    spec fn inv(self) -> bool {
        self.progress.wf()
    }

    /// A coordinator for `total` monitors, none of them launched yet.
    pub fn new(total: usize) -> (coordinator: Coordinator)
        ensures
            coordinator@ == Progress::fresh(total),
            coordinator@.wf(),
    {
        Coordinator {
            progress: Progress { total, launched: 0, signalled: false, stopped: 0, joined: 0 },
        }
    }

    /// The counts so far.
    pub fn progress(&self) -> (progress: Progress)
        ensures
            progress == self@,
            progress.wf(),
    {
        proof {
            use_type_invariant(self);
        }
        self.progress
    }

    pub fn phase(&self) -> (phase: Phase)
        ensures
            phase == self@.phase(),
    {
        if self.progress.launched < self.progress.total {
            Phase::Starting
        } else if !self.progress.signalled {
            Phase::Running
        } else if self.progress.joined < self.progress.total {
            Phase::ShuttingDown
        } else {
            Phase::Terminated
        }
    }

    /// What is to be done next.
    ///
    /// Monitors are launched in the order of their targets. After the signal
    /// every monitor is sent its stop request, in that order, before the
    /// first of them is awaited; they are then awaited in that order too.
    pub fn directive(&self) -> (directive: Directive)
        ensures
            directive == self@.directive(),
    {
        match self.phase() {
            Phase::Starting => Directive::Launch { index: self.progress.launched },
            Phase::Running => Directive::AwaitSignal,
            Phase::ShuttingDown => if self.progress.stopped < self.progress.total {
                Directive::Stop { index: self.progress.stopped }
            } else {
                Directive::Join { index: self.progress.joined }
            },
            Phase::Terminated => Directive::Exit,
        }
    }

    /// Takes the report on the directive that is due and moves on.
    ///
    /// A failed stop request or a monitor that ended badly is handed back
    /// for the operator and counts as done all the same. A notice that does
    /// not answer the due directive, such as a second termination signal, is
    /// ignored.
    pub fn handle(&mut self, notice: Notice) -> (fault: Option<Fault>)
        ensures
            final(self)@ == old(self)@.after(notice),
            fault == old(self)@.fault(notice),
            final(self)@.wf(),
    {
        proof {
            use_type_invariant(&*self);
        }
        let directive = self.directive();
        let before = self.progress;
        match (directive, notice) {
            (Directive::Launch { .. }, Notice::Launched) => {
                self.progress = Progress { launched: before.launched + 1, ..before };
                None
            },
            (Directive::AwaitSignal, Notice::Signalled) => {
                self.progress = Progress { signalled: true, ..before };
                None
            },
            (Directive::Stop { index }, Notice::StopSent { delivered }) => {
                self.progress = Progress { stopped: before.stopped + 1, ..before };
                if delivered {
                    None
                } else {
                    Some(Fault::StopUndelivered { index })
                }
            },
            (Directive::Join { index }, Notice::Joined { clean }) => {
                self.progress = Progress { joined: before.joined + 1, ..before };
                if clean {
                    None
                } else {
                    Some(Fault::JoinFailed { index })
                }
            },
            _ => None,
        }
    }
}

/// Every notice leaves well-formed progress well-formed.
pub proof fn lemma_progress_stays_well_formed(progress: Progress, notice: Notice)
    requires
        progress.wf(),
    ensures
        progress.after(notice).wf(),
        progress.after(notice).total == progress.total,
{
}

/// The phases follow each other in one direction: no notice takes the
/// process back to an earlier phase, and only the termination signal takes
/// it from running to shutting down.
pub proof fn lemma_phase_never_goes_back(progress: Progress, notice: Notice)
    requires
        progress.wf(),
    ensures
        progress.after(notice).phase().rank() >= progress.phase().rank(),
        progress.phase() == Phase::Running && progress.after(notice).phase() != Phase::Running
            ==> notice == Notice::Signalled,
{
}

/// The termination signal counts once: when it has been taken, a second one
/// changes nothing and reports nothing.
pub proof fn lemma_second_signal_is_ignored(progress: Progress)
    requires
        progress.wf(),
        progress.signalled,
    ensures
        progress.after(Notice::Signalled) == progress,
        progress.fault(Notice::Signalled).is_none(),
{
}

/// No monitor is awaited before every monitor was asked to stop.
pub proof fn lemma_all_stopped_before_first_join(progress: Progress)
    requires
        progress.wf(),
    ensures
        progress.directive() is Join ==> progress.stopped == progress.total,
        progress.joined > 0 ==> progress.stopped == progress.total,
        progress.directive() is Stop ==> progress.joined == 0,
{
}

/// A failed stop request or a monitor that ended badly moves the shutdown on
/// exactly as a success does.
pub proof fn lemma_failures_do_not_hold_up(progress: Progress, delivered: bool, clean: bool)
    ensures
        progress.after(Notice::StopSent { delivered }) == progress.after(
            Notice::StopSent { delivered: true },
        ),
        progress.after(Notice::Joined { clean }) == progress.after(Notice::Joined { clean: true }),
{
}

/// When the process is terminated, every monitor was launched, asked to
/// stop and awaited; nothing is left to do, and no notice changes that.
pub proof fn lemma_terminated_is_complete_and_final(progress: Progress, notice: Notice)
    requires
        progress.wf(),
        progress.phase() == Phase::Terminated,
    ensures
        progress.launched == progress.total,
        progress.stopped == progress.total,
        progress.joined == progress.total,
        progress.directive() == Directive::Exit,
        progress.after(notice) == progress,
        progress.fault(notice).is_none(),
{
}

/// From the signal on, the directives are: stop monitor 0, 1, and so on to
/// the last, then join monitor 0, 1, and so on to the last, then exit.
pub proof fn lemma_shutdown_order(total: usize, step: nat)
    requires
        step <= 2 * total,
    ensures
        Progress::at_signal(total).driven(step).wf(),
        step < total ==> Progress::at_signal(total).driven(step).directive() == (Directive::Stop {
            index: step as usize,
        }),
        total <= step < 2 * total ==> Progress::at_signal(total).driven(step).directive() == (
        Directive::Join { index: (step - total) as usize }),
        step == 2 * total ==> Progress::at_signal(total).driven(step).phase() == Phase::Terminated,
        Progress::at_signal(total).driven(step) == (Progress {
            total,
            launched: total,
            signalled: true,
            stopped: if step < total {
                step as usize
            } else {
                total
            },
            joined: if step < total {
                0
            } else {
                (step - total) as usize
            },
        }),
    decreases step,
{
    if step > 0 {
        lemma_shutdown_order(total, (step - 1) as nat);
    }
}

/// From a fresh start, the directives are: launch monitor 0, 1, and so on to
/// the last, in the order of the targets; then wait for the signal.
pub proof fn lemma_startup_order(total: usize, step: nat)
    requires
        step <= total,
    ensures
        Progress::fresh(total).driven(step).wf(),
        step < total ==> Progress::fresh(total).driven(step).directive() == (Directive::Launch {
            index: step as usize,
        }),
        step == total ==> Progress::fresh(total).driven(step).directive() == Directive::AwaitSignal,
        step == total ==> Progress::fresh(total).driven(step).after(Notice::Signalled)
            == Progress::at_signal(total),
        Progress::fresh(total).driven(step) == (Progress {
            launched: step as usize,
            ..Progress::fresh(total)
        }),
    decreases step,
{
    if step > 0 {
        lemma_startup_order(total, (step - 1) as nat);
    }
}

} // verus!
