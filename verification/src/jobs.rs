//! The life of a job: from the queue through a lease and an execution to
//! its end, with retries after a failure and a dead letter after too many.

use vstd::prelude::*;
use crate::error::ArchiveError;
use crate::types::Hash256;

verus! {

/// Failures after which a job is given up.
pub const DEFAULT_MAX_ATTEMPTS: u32 = 5;

/// Where a job stands.
#[derive(Debug, PartialEq, Eq, Structural, Clone, Copy)]
pub enum JobState {
    /// Waiting in the queue.
    Queued,
    /// Claimed by a worker until the lease runs out.
    Leased,
    /// The executor is running the block.
    Executing,
    /// Executed; its results are stored and its row is gone.
    Committed,
    /// The execution failed; the worker has yet to decide what follows.
    Failed,
    /// Given up after too many failures, and kept for inspection.
    Dead,
}

/// The rules of retrying.
#[derive(Debug, PartialEq, Eq, Structural, Clone, Copy)]
pub struct RetryPolicy {
    /// Failures after which a job is given up.
    pub max_attempts: u32,
    /// Seconds within which a leased job must start.
    pub task_timeout: u64,
}

/// The intent to execute one block.
#[derive(Debug, Clone, Copy, PartialEq, Eq)]
pub struct Job {
    pub block_number: u32,
    pub block_hash: Hash256,
    /// How often the execution has failed.
    pub attempts: u32,
    pub state: JobState,
    /// While leased: the time by which the execution must have started.
    pub lease_deadline: u64,
    /// While queued: the time before which the job is not ready.
    pub not_before: u64,
}

/// What happens to a job. Times are seconds on the clock of the relational
/// store.
#[derive(Debug, PartialEq, Eq, Structural, Clone, Copy)]
pub enum JobEvent {
    /// A worker tries to claim the job.
    Lease { now: u64 },
    /// The worker pool is ready to start the execution.
    Start { now: u64 },
    /// The executor succeeded and the results were handed on.
    Succeed,
    /// The executor failed, or panicked.
    Fail,
    /// The worker settles a failed job.
    Settle { now: u64 },
}

/// How an execution ended.
#[derive(Debug, PartialEq, Eq, Structural, Clone, Copy)]
pub enum Execution {
    /// The executor returned its results, and they were handed on.
    Succeeded,
    /// The executor reported a failure.
    Failed,
    /// The executor panicked; the panic was caught at the worker's boundary.
    Panicked,
}

/// What the worker writes to the queue for a job.
#[derive(Debug, PartialEq, Eq, Structural, Clone, Copy)]
pub enum QueueWrite {
    /// Nothing.
    Keep,
    /// Set the lease deadline.
    Lease { deadline: u64 },
    /// Release the lease; the job is ready again at `not_before`.
    Release { attempts: u32, not_before: u64 },
    /// Delete the row: the job is done.
    Delete,
    /// Move the row to the dead letters.
    DeadLetter { attempts: u32 },
}

/// The sum of `a` and `b`, or the greatest `u64` where the sum is greater.
pub open spec fn capped_sum(a: u64, b: u64) -> u64 {
    if a + b > u64::MAX {
        u64::MAX
    } else {
        (a + b) as u64
    }
}

/// Seconds to wait after the given number of failures: one second after
/// none, and twice as long after each further failure, up to the greatest
/// `u64`.
pub open spec fn backoff_of(attempts: nat) -> u64
    decreases attempts,
{
    if attempts == 0 {
        1
    } else if backoff_of((attempts - 1) as nat) > u64::MAX / 2 {
        u64::MAX
    } else {
        (2 * backoff_of((attempts - 1) as nat)) as u64
    }
}

/// Adds without overflow: the sum, capped at the greatest `u64`.
pub fn add_capped(a: u64, b: u64) -> (sum: u64)
    ensures
        sum == capped_sum(a, b),
{
    if a > u64::MAX - b {
        u64::MAX
    } else {
        a + b
    }
}

/// Seconds to wait before a job that has failed `attempts` times is ready
/// again.
pub fn backoff_seconds(attempts: u32) -> (seconds: u64)
    ensures
        seconds == backoff_of(attempts as nat),
{
    let mut seconds: u64 = 1;
    let mut i: u32 = 0;
    while i < attempts
        invariant
            i <= attempts,
            seconds == backoff_of(i as nat),
        decreases attempts - i,
    {
        if seconds > u64::MAX / 2 {
            seconds = u64::MAX;
        } else {
            seconds = 2 * seconds;
        }
        i = i + 1;
    }
    seconds
}

impl Execution {
    /// The error that an execution stands for: none after a success, an
    /// execution error after a failure and after a panic alike.
    pub fn error(self) -> (error: Option<ArchiveError>)
        ensures
            self == Execution::Succeeded ==> error is None,
            self != Execution::Succeeded ==> error == Some(ArchiveError::Execution),
    {
        match self {
            Execution::Succeeded => None,
            _ => Some(ArchiveError::Execution),
        }
    }
}

impl RetryPolicy {
    /// Whether a job gets at least one attempt.
    pub open spec fn is_valid(self) -> bool {
        self.max_attempts >= 1
    }

    /// The policy with the default number of attempts and the given timeout.
    pub fn new(task_timeout: u64) -> (policy: RetryPolicy)
        ensures
            policy.max_attempts == DEFAULT_MAX_ATTEMPTS,
            policy.task_timeout == task_timeout,
            policy.is_valid(),
    {
        RetryPolicy { max_attempts: DEFAULT_MAX_ATTEMPTS, task_timeout }
    }
}

impl Job {
    /// Whether the job has reached its end.
    pub open spec fn is_terminal(self) -> bool {
        self.state == JobState::Committed || self.state == JobState::Dead
    }

    /// Whether the count of failures fits the state under `policy`: a job
    /// that may still run has failed less often than the policy allows, and a
    /// dead one as often as it allows.
    pub open spec fn respects(self, policy: RetryPolicy) -> bool {
        match self.state {
            JobState::Dead => self.attempts >= policy.max_attempts,
            JobState::Failed => self.attempts >= 1,
            JobState::Committed => true,
            _ => self.attempts < policy.max_attempts,
        }
    }

    /// The job after `event`, under `policy`.
    ///
    /// A queued job that is ready is leased, for as long as the policy says.
    /// A leased job starts if its lease still holds, and goes back to the
    /// queue, its failures uncounted, if it has run out. An execution ends in
    /// a commit or in a failure, which counts. A failed job is settled: dead
    /// where it has failed as often as the policy allows, else back in the
    /// queue, ready after the backoff. Any other event changes nothing.
    pub open spec fn next(self, event: JobEvent, policy: RetryPolicy) -> Job {
        match (self.state, event) {
            (JobState::Queued, JobEvent::Lease { now }) => if now >= self.not_before {
                Job {
                    state: JobState::Leased,
                    lease_deadline: capped_sum(now, policy.task_timeout),
                    ..self
                }
            } else {
                self
            },
            (JobState::Leased, JobEvent::Start { now }) => if now <= self.lease_deadline {
                Job { state: JobState::Executing, ..self }
            } else {
                Job { state: JobState::Queued, ..self }
            },
            (JobState::Executing, JobEvent::Succeed) => Job { state: JobState::Committed, ..self },
            (JobState::Executing, JobEvent::Fail) => Job {
                state: JobState::Failed,
                attempts: if self.attempts == u32::MAX {
                    u32::MAX
                } else {
                    (self.attempts + 1) as u32
                },
                ..self
            },
            (JobState::Failed, JobEvent::Settle { now }) => if self.attempts
                >= policy.max_attempts {
                Job { state: JobState::Dead, ..self }
            } else {
                Job {
                    state: JobState::Queued,
                    not_before: capped_sum(now, backoff_of(self.attempts as nat)),
                    ..self
                }
            },
            _ => self,
        }
    }

    /// The job after the events of `events`, in their order.
    pub open spec fn run(self, events: Seq<JobEvent>, policy: RetryPolicy) -> Job
        decreases events.len(),
    {
        if events.len() == 0 {
            self
        } else {
            self.run(events.drop_last(), policy).next(events.last(), policy)
        }
    }

    /// What the worker writes to the queue when the job has come to stand as
    /// it does.
    pub open spec fn write_of(self) -> QueueWrite {
        match self.state {
            JobState::Queued => QueueWrite::Release {
                attempts: self.attempts,
                not_before: self.not_before,
            },
            JobState::Leased => QueueWrite::Lease { deadline: self.lease_deadline },
            JobState::Committed => QueueWrite::Delete,
            JobState::Dead => QueueWrite::DeadLetter { attempts: self.attempts },
            _ => QueueWrite::Keep,
        }
    }

    /// A new job for a block: queued, ready at once, without failures.
    pub fn new(block_number: u32, block_hash: Hash256) -> (job: Job)
        ensures
            job.block_number == block_number,
            job.block_hash == block_hash,
            job.attempts == 0,
            job.state == JobState::Queued,
            job.not_before == 0,
            job.lease_deadline == 0,
    {
        Job {
            block_number,
            block_hash,
            attempts: 0,
            state: JobState::Queued,
            lease_deadline: 0,
            not_before: 0,
        }
    }

    /// Moves the job on by one event.
    pub fn step(self, event: JobEvent, policy: RetryPolicy) -> (job: Job)
        ensures
            job == self.next(event, policy),
    {
        match self.state {
            JobState::Queued => match event {
                JobEvent::Lease { now } => {
                    if now >= self.not_before {
                        Job {
                            block_number: self.block_number,
                            block_hash: self.block_hash,
                            attempts: self.attempts,
                            state: JobState::Leased,
                            lease_deadline: add_capped(now, policy.task_timeout),
                            not_before: self.not_before,
                        }
                    } else {
                        self
                    }
                },
                _ => self,
            },
            JobState::Leased => match event {
                JobEvent::Start { now } => {
                    let state = if now <= self.lease_deadline {
                        JobState::Executing
                    } else {
                        JobState::Queued
                    };
                    Job {
                        block_number: self.block_number,
                        block_hash: self.block_hash,
                        attempts: self.attempts,
                        state,
                        lease_deadline: self.lease_deadline,
                        not_before: self.not_before,
                    }
                },
                _ => self,
            },
            JobState::Executing => match event {
                JobEvent::Succeed => Job {
                    block_number: self.block_number,
                    block_hash: self.block_hash,
                    attempts: self.attempts,
                    state: JobState::Committed,
                    lease_deadline: self.lease_deadline,
                    not_before: self.not_before,
                },
                JobEvent::Fail => {
                    let attempts: u32 = if self.attempts == u32::MAX {
                        u32::MAX
                    } else {
                        self.attempts + 1
                    };
                    Job {
                        block_number: self.block_number,
                        block_hash: self.block_hash,
                        attempts,
                        state: JobState::Failed,
                        lease_deadline: self.lease_deadline,
                        not_before: self.not_before,
                    }
                },
                _ => self,
            },
            JobState::Failed => match event {
                JobEvent::Settle { now } => {
                    if self.attempts >= policy.max_attempts {
                        Job {
                            block_number: self.block_number,
                            block_hash: self.block_hash,
                            attempts: self.attempts,
                            state: JobState::Dead,
                            lease_deadline: self.lease_deadline,
                            not_before: self.not_before,
                        }
                    } else {
                        Job {
                            block_number: self.block_number,
                            block_hash: self.block_hash,
                            attempts: self.attempts,
                            state: JobState::Queued,
                            lease_deadline: self.lease_deadline,
                            not_before: add_capped(now, backoff_seconds(self.attempts)),
                        }
                    }
                },
                _ => self,
            },
            JobState::Committed => self,
            JobState::Dead => self,
        }
    }

    /// Whether the lease of the job has run out at `now`.
    pub open spec fn lease_ran_out(self, now: u64) -> bool {
        self.state == JobState::Leased && now > self.lease_deadline
    }

    /// Lets the worker pool start the job at `now`. A job whose lease holds
    /// starts. A job whose lease has run out goes back to the queue, and the
    /// start fails with a task timeout. A job that is not leased is left as
    /// it is.
    pub fn begin(self, now: u64, policy: RetryPolicy) -> (started: (Job, Result<(), ArchiveError>))
        ensures
            started.0 == self.next(JobEvent::Start { now }, policy),
            self.lease_ran_out(now) ==> started.1 == Err::<(), ArchiveError>(
                ArchiveError::TaskTimeout,
            ),
            !self.lease_ran_out(now) ==> started.1 == Ok::<(), ArchiveError>(()),
    {
        let timed_out = match self.state {
            JobState::Leased => now > self.lease_deadline,
            _ => false,
        };
        let job = self.step(JobEvent::Start { now }, policy);
        if timed_out {
            (job, Err(ArchiveError::TaskTimeout))
        } else {
            (job, Ok(()))
        }
    }

    /// The job after its execution ended as `execution` says: committed
    /// after a success; after a failure or a panic, which count alike,
    /// failed and settled at once.
    pub open spec fn finished(self, execution: Execution, now: u64, policy: RetryPolicy) -> Job {
        match execution {
            Execution::Succeeded => self.next(JobEvent::Succeed, policy),
            _ => self.next(JobEvent::Fail, policy).next(JobEvent::Settle { now }, policy),
        }
    }

    /// Moves the job on from the end of its execution.
    pub fn finish(self, execution: Execution, now: u64, policy: RetryPolicy) -> (job: Job)
        ensures
            job == self.finished(execution, now, policy),
    {
        match execution {
            Execution::Succeeded => self.step(JobEvent::Succeed, policy),
            _ => self.step(JobEvent::Fail, policy).step(JobEvent::Settle { now }, policy),
        }
    }

    /// What the worker writes to the queue for the job as it stands.
    pub fn queue_write(&self) -> (write: QueueWrite)
        ensures
            write == self.write_of(),
    {
        match self.state {
            JobState::Queued => QueueWrite::Release {
                attempts: self.attempts,
                not_before: self.not_before,
            },
            JobState::Leased => QueueWrite::Lease { deadline: self.lease_deadline },
            JobState::Committed => QueueWrite::Delete,
            JobState::Dead => QueueWrite::DeadLetter { attempts: self.attempts },
            JobState::Executing => QueueWrite::Keep,
            JobState::Failed => QueueWrite::Keep,
        }
    }
}

/// A job that has reached its end stays as it is, whatever happens: one that
/// is committed is never queued again, and a dead one is never retried.
pub proof fn lemma_terminal_jobs_stay(job: Job, events: Seq<JobEvent>, policy: RetryPolicy)
    requires
        job.is_terminal(),
    ensures
        job.run(events, policy) == job,
    decreases events.len(),
{
    if events.len() > 0 {
        lemma_terminal_jobs_stay(job, events.drop_last(), policy);
    }
}

/// The block that a job is for never changes.
pub proof fn lemma_job_keeps_its_block(job: Job, events: Seq<JobEvent>, policy: RetryPolicy)
    ensures
        job.run(events, policy).block_hash == job.block_hash,
        job.run(events, policy).block_number == job.block_number,
    decreases events.len(),
{
    if events.len() > 0 {
        lemma_job_keeps_its_block(job, events.drop_last(), policy);
    }
}

/// Retries are bounded: whatever happens to a job, it never runs once it
/// has failed as often as the policy allows, and it is dead only then.
pub proof fn lemma_retries_are_bounded(job: Job, events: Seq<JobEvent>, policy: RetryPolicy)
    requires
        policy.is_valid(),
        job.respects(policy),
    ensures
        job.run(events, policy).respects(policy),
        job.run(events, policy).attempts >= job.attempts,
    decreases events.len(),
{
    if events.len() > 0 {
        lemma_retries_are_bounded(job, events.drop_last(), policy);
    }
}

/// One round of lease, start, failure and settlement counts one failure,
/// and ends in the queue or, at the last attempt that the policy allows, in
/// the dead letters.
pub proof fn lemma_failed_round(job: Job, now: u64, policy: RetryPolicy)
    requires
        job.state == JobState::Queued,
        job.not_before <= now,
        job.attempts < policy.max_attempts,
    ensures
        ({
            let after = job.next(JobEvent::Lease { now }, policy).next(
                JobEvent::Start { now },
                policy,
            ).next(JobEvent::Fail, policy).next(JobEvent::Settle { now }, policy);
            &&& after.attempts == job.attempts + 1
            &&& after.attempts == policy.max_attempts ==> after.state == JobState::Dead
            &&& after.attempts < policy.max_attempts ==> after.state == JobState::Queued
        }),
{
}

/// The job after one round that fails: leased at `now`, started at once,
/// failed, and settled.
pub open spec fn failed_round(job: Job, now: u64, policy: RetryPolicy) -> Job {
    job.next(JobEvent::Lease { now }, policy).next(JobEvent::Start { now }, policy).next(
        JobEvent::Fail,
        policy,
    ).next(JobEvent::Settle { now }, policy)
}

/// The job after `rounds` rounds that fail, each begun as soon as the job is
/// ready again.
pub open spec fn failed_rounds(job: Job, rounds: nat, policy: RetryPolicy) -> Job
    decreases rounds,
{
    if rounds == 0 {
        job
    } else {
        let before = failed_rounds(job, (rounds - 1) as nat, policy);
        failed_round(before, before.not_before, policy)
    }
}

/// A job whose execution fails every time is retried until it has failed as
/// often as the policy allows, and is dead from then on: each failure counts
/// once, the job is queued again after all but the last, and rounds beyond
/// the last change nothing.
pub proof fn lemma_dead_after_max_attempts(job: Job, rounds: nat, policy: RetryPolicy)
    requires
        policy.is_valid(),
        job.state == JobState::Queued,
        job.attempts == 0,
    ensures
        rounds < policy.max_attempts ==> {
            &&& failed_rounds(job, rounds, policy).state == JobState::Queued
            &&& failed_rounds(job, rounds, policy).attempts == rounds
        },
        rounds >= policy.max_attempts ==> {
            &&& failed_rounds(job, rounds, policy).state == JobState::Dead
            &&& failed_rounds(job, rounds, policy).attempts == policy.max_attempts
        },
    decreases rounds,
{
    if rounds > 0 {
        lemma_dead_after_max_attempts(job, (rounds - 1) as nat, policy);
    }
}

/// A round that succeeds commits: a queued job that is ready at `now`, leased
/// and started at once, is committed when its execution succeeds, with its
/// failures as counted.
pub proof fn lemma_successful_round_commits(job: Job, now: u64, policy: RetryPolicy)
    requires
        job.state == JobState::Queued,
        job.not_before <= now,
    ensures
        job.next(JobEvent::Lease { now }, policy).next(JobEvent::Start { now }, policy).next(
            JobEvent::Succeed,
            policy,
        ).state == JobState::Committed,
        job.next(JobEvent::Lease { now }, policy).next(JobEvent::Start { now }, policy).next(
            JobEvent::Succeed,
            policy,
        ).attempts == job.attempts,
{
}

/// The end of an execution never leaves a job with a worker: the job is
/// committed, back in the queue, or dead.
pub proof fn lemma_finish_settles(job: Job, execution: Execution, now: u64, policy: RetryPolicy)
    requires
        job.state == JobState::Executing,
    ensures
        ({
            let after = job.finished(execution, now, policy);
            &&& execution == Execution::Succeeded ==> after.state == JobState::Committed
            &&& execution != Execution::Succeeded ==> (after.state == JobState::Queued
                || after.state == JobState::Dead)
            &&& after.state == JobState::Dead ==> after.attempts >= policy.max_attempts
        }),
{
}

/// The backoff never shrinks as failures add up.
pub proof fn lemma_backoff_grows(fewer: nat, more: nat)
    requires
        fewer <= more,
    ensures
        1 <= backoff_of(fewer) <= backoff_of(more),
    decreases more,
{
    if more > 0 {
        if fewer < more {
            lemma_backoff_grows(fewer, (more - 1) as nat);
        } else {
            lemma_backoff_grows((fewer - 1) as nat, (more - 1) as nat);
        }
    }
}

} // verus!
