//! The supervisor's main loop, written as a machine of stages. A stage names
//! the operation that the driver performs next; the driver reports how the
//! operation ended and is told the stage that follows.

use vstd::prelude::*;
use crate::error::ArchiveError;

verus! {

/// The operation that the main loop performs next.
#[derive(Debug, PartialEq, Eq, Structural, Clone, Copy)]
pub enum Stage {
    /// Start the actors.
    SpawnActors,
    /// Send the one-time scan request and start the periodic tick.
    StartTick,
    /// Ask the database actor for the connection pool.
    FetchPool,
    /// Subscribe to the notifications of the relational store.
    InitListeners,
    /// Take a connection from the pool.
    AcquireConnection,
    /// Enqueue again the jobs of blocks whose storage is missing.
    RestoreStorage,
    /// Build the job runner.
    BuildRunner,
    /// Look at the kill channel without waiting.
    PollKill,
    /// Run the jobs that are ready.
    RunTasks,
    /// Sleep for a short while.
    Pause,
    /// Stop the listener.
    KillListener,
    /// Stop the actors.
    KillActors,
    /// The loop has ended in good order.
    Finished,
    /// The loop has ended with an error.
    Failed(ArchiveError),
}

/// What a look at the kill channel found.
#[derive(Debug, PartialEq, Eq, Structural, Clone, Copy)]
pub enum KillSignal {
    /// Nothing was sent.
    Empty,
    /// Every sender is gone.
    Disconnected,
    /// The signal to stop was received.
    Received,
}

/// How a run of the ready jobs ended.
#[derive(Debug, PartialEq, Eq, Structural, Clone, Copy)]
pub enum TaskRun {
    Completed,
    /// Jobs did not start within the time allowed.
    TimedOut,
    /// The runner reported another error.
    Errored,
}

impl TaskRun {
    /// Sums up a run of the ready jobs from what the runner returned: a
    /// timeout is told apart from every other error.
    pub fn of(result: Result<(), ArchiveError>) -> (run: TaskRun)
        ensures
            result is Ok ==> run == TaskRun::Completed,
            result == Err::<(), ArchiveError>(ArchiveError::TaskTimeout) ==> run
                == TaskRun::TimedOut,
            result is Err && result != Err::<(), ArchiveError>(ArchiveError::TaskTimeout) ==> run
                == TaskRun::Errored,
    {
        match result {
            Ok(_) => TaskRun::Completed,
            Err(ArchiveError::TaskTimeout) => TaskRun::TimedOut,
            Err(_) => TaskRun::Errored,
        }
    }
}

/// How the operation of a stage ended.
#[derive(Debug, PartialEq, Eq, Structural, Clone, Copy)]
pub enum Report {
    /// The operation succeeded.
    Done,
    /// The operation failed.
    Failed(ArchiveError),
    /// The kill channel was looked at.
    Signal(KillSignal),
    /// The ready jobs were run.
    Tasks(TaskRun),
}

/// Milliseconds that the main loop sleeps between two runs of the ready jobs.
pub const PAUSE_MILLIS: u64 = 20;

impl Report {
    /// The report of an operation that succeeds or fails.
    pub fn of(result: Result<(), ArchiveError>) -> (report: Report)
        ensures
            result is Ok ==> report == Report::Done,
            result is Err ==> report == Report::Failed(result->Err_0),
    {
        match result {
            Ok(_) => Report::Done,
            Err(error) => Report::Failed(error),
        }
    }
}

impl Stage {
    /// Whether the stage belongs to the setup that precedes the loop.
    pub open spec fn is_setup(self) -> bool {
        self == Stage::SpawnActors || self == Stage::StartTick || self == Stage::FetchPool
            || self == Stage::InitListeners || self == Stage::AcquireConnection || self
            == Stage::RestoreStorage || self == Stage::BuildRunner
    }

    /// The stage that follows a setup stage that succeeded.
    pub open spec fn after_setup(self) -> Stage {
        match self {
            Stage::SpawnActors => Stage::StartTick,
            Stage::StartTick => Stage::FetchPool,
            Stage::FetchPool => Stage::InitListeners,
            Stage::InitListeners => Stage::AcquireConnection,
            Stage::AcquireConnection => Stage::RestoreStorage,
            Stage::RestoreStorage => Stage::BuildRunner,
            _ => Stage::PollKill,
        }
    }

    /// Whether the loop has ended.
    pub open spec fn is_terminal(self) -> bool {
        self == Stage::Finished || self is Failed
    }

    /// Whether the loop is shutting down or has ended: from here no job is
    /// run any more.
    pub open spec fn is_closing(self) -> bool {
        self == Stage::KillListener || self == Stage::KillActors || self.is_terminal()
    }

    /// The stage that follows `self` when its operation ended as `report`
    /// says.
    ///
    /// A setup stage that succeeds leads to the next one, and the last to the
    /// loop; one that fails ends the loop with its error. In the loop, an
    /// empty kill channel leads to a run of the ready jobs, whatever its
    /// outcome to a pause, and the pause back to the kill channel. A kill
    /// signal, or a kill channel without senders, leads to the shutdown: the
    /// listener is stopped, then the actors. A report that does not answer
    /// the operation of the stage changes nothing.
    pub open spec fn next(self, report: Report) -> Stage {
        if self.is_setup() {
            match report {
                Report::Done => self.after_setup(),
                Report::Failed(error) => Stage::Failed(error),
                _ => self,
            }
        } else {
            match (self, report) {
                (Stage::PollKill, Report::Signal(KillSignal::Empty)) => Stage::RunTasks,
                (Stage::PollKill, Report::Signal(_)) => Stage::KillListener,
                (Stage::RunTasks, Report::Tasks(_)) => Stage::Pause,
                (Stage::Pause, Report::Done) => Stage::PollKill,
                (Stage::KillListener, Report::Done) => Stage::KillActors,
                (Stage::KillActors, Report::Done) => Stage::Finished,
                (Stage::KillActors, Report::Failed(error)) => Stage::Failed(error),
                _ => self,
            }
        }
    }

    /// The stage reached from `self` after the reports of `reports`, in
    /// their order.
    pub open spec fn run(self, reports: Seq<Report>) -> Stage
        decreases reports.len(),
    {
        if reports.len() == 0 {
            self
        } else {
            self.run(reports.drop_last()).next(reports.last())
        }
    }

    /// The first stage of the main loop.
    pub fn first() -> (stage: Stage)
        ensures
            stage == Stage::SpawnActors,
    {
        Stage::SpawnActors
    }

    /// Whether the loop has ended.
    pub fn has_ended(self) -> (ended: bool)
        ensures
            ended == self.is_terminal(),
    {
        match self {
            Stage::Finished => true,
            Stage::Failed(_) => true,
            _ => false,
        }
    }

    /// What the main loop returns once it has ended: nothing while it runs,
    /// success after a shutdown in good order, else the error that ended it.
    pub fn outcome(self) -> (result: Option<Result<(), ArchiveError>>)
        ensures
            !self.is_terminal() ==> result is None,
            self == Stage::Finished ==> result == Some(Ok::<(), ArchiveError>(())),
            forall|error: ArchiveError|
                self == Stage::Failed(error) ==> result == Some(Err::<(), ArchiveError>(error)),
    {
        match self {
            Stage::Finished => Some(Ok(())),
            Stage::Failed(error) => Some(Err(error)),
            _ => None,
        }
    }

    /// Moves the main loop on by one operation: returns the stage that
    /// follows `self` when its operation ended as `report` says.
    pub fn advance(self, report: Report) -> (following: Stage)
        ensures
            following == self.next(report),
    {
        match self {
            Stage::SpawnActors => setup_step(self, Stage::StartTick, report),
            Stage::StartTick => setup_step(self, Stage::FetchPool, report),
            Stage::FetchPool => setup_step(self, Stage::InitListeners, report),
            Stage::InitListeners => setup_step(self, Stage::AcquireConnection, report),
            Stage::AcquireConnection => setup_step(self, Stage::RestoreStorage, report),
            Stage::RestoreStorage => setup_step(self, Stage::BuildRunner, report),
            Stage::BuildRunner => setup_step(self, Stage::PollKill, report),
            Stage::PollKill => match report {
                Report::Signal(KillSignal::Empty) => Stage::RunTasks,
                Report::Signal(_) => Stage::KillListener,
                _ => self,
            },
            Stage::RunTasks => match report {
                Report::Tasks(_) => Stage::Pause,
                _ => self,
            },
            Stage::Pause => match report {
                Report::Done => Stage::PollKill,
                _ => self,
            },
            Stage::KillListener => match report {
                Report::Done => Stage::KillActors,
                _ => self,
            },
            Stage::KillActors => match report {
                Report::Done => Stage::Finished,
                Report::Failed(error) => Stage::Failed(error),
                _ => self,
            },
            Stage::Finished => self,
            Stage::Failed(_) => self,
        }
    }
}

/// The step out of a setup stage: on to `following` on success, to the end on
/// failure.
fn setup_step(stage: Stage, following: Stage, report: Report) -> (reached: Stage)
    requires
        stage.is_setup(),
        following == stage.after_setup(),
    ensures
        reached == stage.next(report),
{
    match report {
        Report::Done => following,
        Report::Failed(error) => Stage::Failed(error),
        _ => stage,
    }
}

/// Once the main loop is shutting down it stays so, whatever is reported:
/// after a kill signal no job is run again.
pub proof fn lemma_closing_is_final(stage: Stage, reports: Seq<Report>)
    requires
        stage.is_closing(),
    ensures
        stage.run(reports).is_closing(),
        stage.run(reports) != Stage::RunTasks,
    decreases reports.len(),
{
    if reports.len() > 0 {
        lemma_closing_is_final(stage, reports.drop_last());
    }
}

/// A kill signal ends the loop in good order: whether the signal arrived or
/// its senders are gone, the listener is stopped, then the actors, and with
/// that the loop has finished.
pub proof fn lemma_kill_ends_the_loop(signal: KillSignal)
    requires
        signal != KillSignal::Empty,
    ensures
        Stage::PollKill.next(Report::Signal(signal)) == Stage::KillListener,
        Stage::PollKill.next(Report::Signal(signal)).next(Report::Done) == Stage::KillActors,
        Stage::PollKill.next(Report::Signal(signal)).next(Report::Done).next(Report::Done)
            == Stage::Finished,
{
}

/// A stage that has ended does not change any more.
pub proof fn lemma_terminal_is_fixed(stage: Stage, reports: Seq<Report>)
    requires
        stage.is_terminal(),
    ensures
        stage.run(reports) == stage,
    decreases reports.len(),
{
    if reports.len() > 0 {
        lemma_terminal_is_fixed(stage, reports.drop_last());
    }
}

/// No outcome of a run of the ready jobs ends the loop: a timeout or an error
/// of the runner leads to the pause like a run that completed.
pub proof fn lemma_task_errors_do_not_stop(run: TaskRun)
    ensures
        Stage::RunTasks.next(Report::Tasks(run)) == Stage::Pause,
        Stage::Pause.next(Report::Done) == Stage::PollKill,
{
}

/// A failure during setup ends the loop with that error, and nothing more is
/// started.
pub proof fn lemma_setup_failure_ends(stage: Stage, error: ArchiveError, reports: Seq<Report>)
    requires
        stage.is_setup(),
    ensures
        stage.next(Report::Failed(error)).run(reports) == Stage::Failed(error),
{
    lemma_terminal_is_fixed(Stage::Failed(error), reports);
}

} // verus!
