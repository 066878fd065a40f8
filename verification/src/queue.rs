//! The persistent job queue, as a mathematical model: at most one job for a
//! block, found by the block's hash. The queue itself lives in the relational
//! store; the model says what enqueueing, the workers and a restart do to it.

use vstd::prelude::*;
use crate::jobs::{Job, JobEvent, JobState, RetryPolicy};
use crate::types::Hash256;

verus! {

/// The jobs of the queue, each under the hash of its block. A job that was
/// committed stays on record, so that its block is not executed again.
pub struct JobQueue {
    pub jobs: Map<Hash256, Job>,
}

/// Something that happens to the queue.
pub enum QueueOp {
    /// A job for a block is enqueued, by the indexer or by the listener.
    Enqueue { number: u32, hash: Hash256 },
    /// A worker moves the job of a block on.
    Step { hash: Hash256, event: JobEvent },
    /// The process restarts: what it held in memory is lost.
    Recover,
}

/// The job as a restart leaves it: a job that a worker held goes back to the
/// queue with its failures as counted, ready at once; a job at rest is
/// untouched.
pub open spec fn recovered(job: Job) -> Job {
    match job.state {
        JobState::Leased | JobState::Executing | JobState::Failed => Job {
            state: JobState::Queued,
            ..job
        },
        _ => job,
    }
}

/// The job as a restart leaves it.
pub fn recover_job(job: Job) -> (after: Job)
    ensures
        after == recovered(job),
{
    match job.state {
        JobState::Leased | JobState::Executing | JobState::Failed => Job {
            block_number: job.block_number,
            block_hash: job.block_hash,
            attempts: job.attempts,
            state: JobState::Queued,
            lease_deadline: job.lease_deadline,
            not_before: job.not_before,
        },
        _ => job,
    }
}

impl JobQueue {
    /// The queue without jobs.
    pub open spec fn empty() -> JobQueue {
        JobQueue { jobs: Map::empty() }
    }

    /// The queue after a job for the block was enqueued: a new job where the
    /// queue has none for the block, else the queue as it was.
    pub open spec fn enqueue(self, number: u32, hash: Hash256) -> JobQueue {
        if self.jobs.dom().contains(hash) {
            self
        } else {
            JobQueue {
                jobs: self.jobs.insert(
                    hash,
                    Job {
                        block_number: number,
                        block_hash: hash,
                        attempts: 0,
                        state: JobState::Queued,
                        lease_deadline: 0,
                        not_before: 0,
                    },
                ),
            }
        }
    }

    /// The queue after the job of the block was moved on by `event`.
    pub open spec fn step(self, hash: Hash256, event: JobEvent, policy: RetryPolicy) -> JobQueue {
        if self.jobs.dom().contains(hash) {
            JobQueue { jobs: self.jobs.insert(hash, self.jobs[hash].next(event, policy)) }
        } else {
            self
        }
    }

    /// The queue after a restart.
    pub open spec fn recover(self) -> JobQueue {
        JobQueue { jobs: self.jobs.map_values(|job: Job| recovered(job)) }
    }

    /// The queue after `op`.
    pub open spec fn apply(self, op: QueueOp, policy: RetryPolicy) -> JobQueue {
        match op {
            QueueOp::Enqueue { number, hash } => self.enqueue(number, hash),
            QueueOp::Step { hash, event } => self.step(hash, event, policy),
            QueueOp::Recover => self.recover(),
        }
    }

    /// The queue after the operations of `ops`, in their order.
    pub open spec fn run(self, ops: Seq<QueueOp>, policy: RetryPolicy) -> JobQueue
        decreases ops.len(),
    {
        if ops.len() == 0 {
            self
        } else {
            self.run(ops.drop_last(), policy).apply(ops.last(), policy)
        }
    }

    /// Whether the job of the block is committed.
    pub open spec fn is_committed(self, hash: Hash256) -> bool {
        self.jobs.dom().contains(hash) && self.jobs[hash].state == JobState::Committed
    }

    /// The blocks that are executed or still will be: those with a job that
    /// is not dead.
    pub open spec fn live(self) -> Set<Hash256> {
        Set::new(
            |hash: Hash256| self.jobs.dom().contains(hash) && self.jobs[hash].state != JobState::Dead,
        )
    }

    /// Whether no job is held by a worker.
    pub open spec fn at_rest(self) -> bool {
        forall|hash: Hash256| #[trigger]
            self.jobs.dom().contains(hash) ==> {
                ||| self.jobs[hash].state == JobState::Queued
                ||| self.jobs[hash].state == JobState::Committed
                ||| self.jobs[hash].state == JobState::Dead
            }
    }
}

/// The queue holds one job for a block however often the block is
/// announced: enqueueing it again changes nothing.
pub proof fn lemma_enqueue_once(queue: JobQueue, number: u32, hash: Hash256, again: u32)
    ensures
        queue.enqueue(number, hash).jobs.dom().contains(hash),
        queue.enqueue(number, hash).enqueue(again, hash) == queue.enqueue(number, hash),
        queue.jobs.dom().contains(hash) ==> queue.enqueue(number, hash) == queue,
{
}

/// The queue keeps a job for exactly the blocks that the store's writes have
/// enqueued: where the two agree on the blocks, they agree after a block is
/// enqueued in both.
pub proof fn lemma_queue_follows_store(
    queue: JobQueue,
    store: crate::store::Store,
    number: u32,
    hash: Hash256,
)
    requires
        queue.jobs.dom() == store.queue,
    ensures
        queue.enqueue(number, hash).jobs.dom() == store.apply(
            crate::store::WriteAction::Enqueue { number, hash },
        ).queue,
{
    assert(queue.enqueue(number, hash).jobs.dom() =~= store.queue.insert(hash));
}

/// Once the job of a block is committed it stays committed, whatever is
/// enqueued, whatever the workers do and however often the process restarts:
/// no later job for the block is ever queued.
pub proof fn lemma_committed_stays(
    queue: JobQueue,
    hash: Hash256,
    ops: Seq<QueueOp>,
    policy: RetryPolicy,
)
    requires
        queue.is_committed(hash),
    ensures
        queue.run(ops, policy).is_committed(hash),
        queue.run(ops, policy).jobs[hash] == queue.jobs[hash],
    decreases ops.len(),
{
    if ops.len() > 0 {
        lemma_committed_stays(queue, hash, ops.drop_last(), policy);
    }
}

/// A restart loses no job: the queue holds the same blocks after it, the
/// same of them are committed, the same are still to be executed, and none
/// is held by a worker that is gone.
pub proof fn lemma_recovery_keeps_jobs(queue: JobQueue)
    ensures
        queue.recover().jobs.dom() == queue.jobs.dom(),
        queue.recover().live() == queue.live(),
        forall|hash: Hash256| queue.recover().is_committed(hash) == queue.is_committed(hash),
        queue.recover().at_rest(),
        queue.recover().recover() == queue.recover(),
{
    let after = queue.recover();
    assert(after.jobs.dom() =~= queue.jobs.dom());
    assert(after.live() =~= queue.live());
    assert(after.recover().jobs =~= after.jobs);
}

/// After a restart every block that was committed or still to be executed
/// is committed or waits in the queue, and each that waits is committed by
/// its next round that succeeds: the blocks that can be committed in the
/// end are the same as without the restart.
pub proof fn lemma_recovered_jobs_commit(
    queue: JobQueue,
    hash: Hash256,
    now: u64,
    policy: RetryPolicy,
)
    requires
        queue.live().contains(hash),
    ensures
        queue.recover().live().contains(hash),
        queue.recover().jobs[hash].state == JobState::Committed || queue.recover().jobs[hash].state
            == JobState::Queued,
        queue.recover().jobs[hash].state == JobState::Queued && queue.recover().jobs[hash].not_before
            <= now ==> queue.recover().step(hash, JobEvent::Lease { now }, policy).step(
            hash,
            JobEvent::Start { now },
            policy,
        ).step(hash, JobEvent::Succeed, policy).is_committed(hash),
{
    let job = queue.recover().jobs[hash];
    if job.state == JobState::Queued && job.not_before <= now {
        crate::jobs::lemma_successful_round_commits(job, now, policy);
    }
}

/// No operation removes a job from the record: the blocks that have a job
/// keep having one.
pub proof fn lemma_jobs_are_kept(queue: JobQueue, ops: Seq<QueueOp>, policy: RetryPolicy)
    ensures
        queue.jobs.dom().subset_of(queue.run(ops, policy).jobs.dom()),
    decreases ops.len(),
{
    if ops.len() > 0 {
        lemma_jobs_are_kept(queue, ops.drop_last(), policy);
    }
}

} // verus!
