use vstd::prelude::*;
use crate::error::InstallError;

verus! {

/// The steps of an install run, in order; `Failed` absorbs a run that
/// stopped on an error.
#[derive(Clone, Copy, Debug, PartialEq, Eq, Structural)]
pub enum Phase {
    Idle,
    Detecting,
    Terminating,
    Removing,
    Downloading,
    Installing,
    Cleanup,
    Launching,
    Done,
    Failed,
}

/// How the last action went, as the host reports it.
#[derive(Debug)]
pub enum Outcome {
    /// The host asks for a run to start.
    Begin,
    /// Whether a previous installation's data directory exists.
    Detected(bool),
    /// The action succeeded.
    Succeeded,
    /// The action failed with this error.
    Failed(InstallError),
}

/// What the host does next.
#[derive(Debug)]
pub enum Action {
    /// Check whether a previous installation's data directory exists.
    CheckPrevious,
    /// Terminate the application's process; not running counts as success.
    Terminate,
    /// Delete the previous installation's data directory.
    RemovePrevious,
    /// Download the installer, forwarding its progress events.
    Download,
    /// Run the installer silently and wait for its exit status.
    RunInstaller,
    /// Delete the downloaded installer; failure is only logged.
    DeleteInstaller,
    /// Start the installed application; `cleanup_error` is a failed cleanup
    /// to log first.
    Launch { cleanup_error: Option<InstallError> },
    /// Report that the run succeeded.
    ReportSuccess,
    /// Report that the run stopped at phase `at` with `error`.
    ReportFailure { at: Phase, error: InstallError },
    /// The outcome does not fit the phase; nothing to do.
    Nothing,
}

/// One transition: the phase that follows `phase` on `outcome`, and the
/// action that goes with it. With `clean_up` off, a successful install goes
/// straight to the launch and the installer file is kept.
pub open spec fn next(clean_up: bool, phase: Phase, outcome: Outcome) -> (Phase, Action) {
    match outcome {
        Outcome::Begin => if phase == Phase::Idle {
            (Phase::Detecting, Action::CheckPrevious)
        } else {
            (phase, Action::Nothing)
        },
        Outcome::Detected(found) => if phase != Phase::Detecting {
            (phase, Action::Nothing)
        } else if found {
            (Phase::Terminating, Action::Terminate)
        } else {
            (Phase::Downloading, Action::Download)
        },
        Outcome::Succeeded => match phase {
            Phase::Terminating => (Phase::Removing, Action::RemovePrevious),
            Phase::Removing => (Phase::Downloading, Action::Download),
            Phase::Downloading => (Phase::Installing, Action::RunInstaller),
            Phase::Installing => if clean_up {
                (Phase::Cleanup, Action::DeleteInstaller)
            } else {
                (Phase::Launching, Action::Launch { cleanup_error: None })
            },
            Phase::Cleanup => (Phase::Launching, Action::Launch { cleanup_error: None }),
            Phase::Launching => (Phase::Done, Action::ReportSuccess),
            _ => (phase, Action::Nothing),
        },
        Outcome::Failed(error) => match phase {
            Phase::Idle | Phase::Done | Phase::Failed => (phase, Action::Nothing),
            Phase::Cleanup => (Phase::Launching, Action::Launch { cleanup_error: Some(error) }),
            _ => (Phase::Failed, Action::ReportFailure { at: phase, error }),
        },
    }
}

/// Sequences one install run: detect, terminate, remove, download, install,
/// clean up, launch. Any failure but that of the cleanup stops the run;
/// nothing is retried.
#[derive(Clone, Copy, Debug, PartialEq, Eq, Structural)]
pub struct Orchestrator {
    pub phase: Phase,
    /// Whether the downloaded installer is deleted after a successful install.
    pub clean_up: bool,
}

impl Orchestrator {
    pub fn new(clean_up: bool) -> (r: Orchestrator)
        ensures
            r.phase == Phase::Idle,
            r.clean_up == clean_up,
    {
        Orchestrator { phase: Phase::Idle, clean_up }
    }

    /// Takes in the outcome of the last action and returns the next one.
    pub fn advance(&mut self, outcome: Outcome) -> (a: Action)
        ensures
            (final(self).phase, a) == next(old(self).clean_up, old(self).phase, outcome),
            final(self).clean_up == old(self).clean_up,
    {
        let phase = self.phase;
        match outcome {
            Outcome::Begin => {
                if phase == Phase::Idle {
                    self.phase = Phase::Detecting;
                    Action::CheckPrevious
                } else {
                    Action::Nothing
                }
            },
            Outcome::Detected(found) => {
                if phase != Phase::Detecting {
                    Action::Nothing
                } else if found {
                    self.phase = Phase::Terminating;
                    Action::Terminate
                } else {
                    self.phase = Phase::Downloading;
                    Action::Download
                }
            },
            Outcome::Succeeded => match phase {
                Phase::Terminating => {
                    self.phase = Phase::Removing;
                    Action::RemovePrevious
                },
                Phase::Removing => {
                    self.phase = Phase::Downloading;
                    Action::Download
                },
                Phase::Downloading => {
                    self.phase = Phase::Installing;
                    Action::RunInstaller
                },
                Phase::Installing => {
                    if self.clean_up {
                        self.phase = Phase::Cleanup;
                        Action::DeleteInstaller
                    } else {
                        self.phase = Phase::Launching;
                        Action::Launch { cleanup_error: None }
                    }
                },
                Phase::Cleanup => {
                    self.phase = Phase::Launching;
                    Action::Launch { cleanup_error: None }
                },
                Phase::Launching => {
                    self.phase = Phase::Done;
                    Action::ReportSuccess
                },
                _ => Action::Nothing,
            },
            Outcome::Failed(error) => match phase {
                Phase::Idle | Phase::Done | Phase::Failed => Action::Nothing,
                Phase::Cleanup => {
                    self.phase = Phase::Launching;
                    Action::Launch { cleanup_error: Some(error) }
                },
                _ => {
                    self.phase = Phase::Failed;
                    Action::ReportFailure { at: phase, error }
                },
            },
        }
    }
}

/// The phase of a run after its first `n` outcomes.
pub open spec fn phase_after(clean_up: bool, outcomes: Seq<Outcome>, n: nat) -> Phase
    decreases n,
{
    if n == 0 {
        Phase::Idle
    } else {
        next(clean_up, phase_after(clean_up, outcomes, (n - 1) as nat), outcomes[n - 1]).0
    }
}

/// A run removes the previous installation only after it has terminated
/// the application.
pub proof fn lemma_terminating_precedes_removing(clean_up: bool, outcomes: Seq<Outcome>, n: nat)
    requires
        phase_after(clean_up, outcomes, n) == Phase::Removing,
    ensures
        exists|m: nat| m < n && #[trigger] phase_after(clean_up, outcomes, m) == Phase::Terminating,
    decreases n,
{
    let m = (n - 1) as nat;
    if phase_after(clean_up, outcomes, m) == Phase::Terminating {
        assert(phase_after(clean_up, outcomes, m) == Phase::Terminating);
    } else {
        lemma_terminating_precedes_removing(clean_up, outcomes, m);
    }
}

/// A run installs only after it has downloaded.
pub proof fn lemma_downloading_precedes_installing(clean_up: bool, outcomes: Seq<Outcome>, n: nat)
    requires
        phase_after(clean_up, outcomes, n) == Phase::Installing,
    ensures
        exists|m: nat| m < n && #[trigger] phase_after(clean_up, outcomes, m) == Phase::Downloading,
    decreases n,
{
    let m = (n - 1) as nat;
    if phase_after(clean_up, outcomes, m) == Phase::Downloading {
        assert(phase_after(clean_up, outcomes, m) == Phase::Downloading);
    } else {
        lemma_downloading_precedes_installing(clean_up, outcomes, m);
    }
}

/// Whatever the cleanup's outcome, the run goes on to launch the
/// application.
pub proof fn lemma_cleanup_leads_to_launch(clean_up: bool, outcomes: Seq<Outcome>, n: nat)
    requires
        n < outcomes.len(),
        phase_after(clean_up, outcomes, n) == Phase::Cleanup,
        outcomes[n as int] is Succeeded || outcomes[n as int] is Failed,
    ensures
        phase_after(clean_up, outcomes, n + 1) == Phase::Launching,
        next(clean_up, phase_after(clean_up, outcomes, n), outcomes[n as int]).1 is Launch,
{
}

/// A run that failed stays failed.
pub proof fn lemma_failed_is_final(clean_up: bool, outcomes: Seq<Outcome>, i: nat, j: nat)
    requires
        i <= j,
        phase_after(clean_up, outcomes, i) == Phase::Failed,
    ensures
        phase_after(clean_up, outcomes, j) == Phase::Failed,
    decreases j - i,
{
    if j > i {
        lemma_failed_is_final(clean_up, outcomes, i, (j - 1) as nat);
    }
}

/// With cleanup switched off, a run never enters the cleanup step.
pub proof fn lemma_no_cleanup_when_off(outcomes: Seq<Outcome>, n: nat)
    ensures
        phase_after(false, outcomes, n) != Phase::Cleanup,
    decreases n,
{
    if n > 0 {
        lemma_no_cleanup_when_off(outcomes, (n - 1) as nat);
    }
}

} // verus!
