//! The worker's last step after an execution that succeeded: the results
//! go to the aggregator first, and only then is the job committed.

use vstd::prelude::*;
use crate::aggregator::{PushOutcome, StorageAggregator};
use crate::jobs::{Job, JobEvent, JobState, RetryPolicy};
use crate::types::{StorageEntry, TraceEntry};

verus! {

/// What became of the results of an execution.
#[derive(Debug, Clone, PartialEq, Eq)]
pub enum Settled {
    /// The aggregator has taken the results, and the job is moved on to its
    /// commit. `flush_now` says that a flush is due at once.
    Pushed { job: Job, flush_now: bool },
    /// The aggregator is over its limit: the results come back untouched and
    /// the job stays as it was. The worker waits for a flush and tries
    /// again.
    Waiting { job: Job, storage: Vec<StorageEntry>, traces: Vec<TraceEntry> },
}

/// Hands the results of an execution to the aggregator and commits the job.
/// The job is committed only when the aggregator has taken every storage
/// change and every trace, in their order; results that hold nothing commit
/// the job like any others. While the aggregator is over its limit nothing is
/// taken and the job is not committed.
pub fn commit_results(
    aggregator: &mut StorageAggregator,
    job: Job,
    storage: Vec<StorageEntry>,
    traces: Vec<TraceEntry>,
    policy: RetryPolicy,
) -> (settled: Settled)
    ensures
        final(aggregator).same_limits(old(aggregator)),
        old(aggregator).is_over_limit() ==> {
            &&& settled == (Settled::Waiting { job, storage, traces })
            &&& final(aggregator).storage() == old(aggregator).storage()
            &&& final(aggregator).traces() == old(aggregator).traces()
        },
        !old(aggregator).is_over_limit() ==> {
            &&& settled == (Settled::Pushed {
                job: job.next(JobEvent::Succeed, policy),
                flush_now: final(aggregator).is_flush_due(),
            })
            &&& final(aggregator).storage() == old(aggregator).storage() + storage@
            &&& final(aggregator).traces() == old(aggregator).traces() + traces@
        },
{
    match aggregator.push(storage, traces) {
        PushOutcome::Accepted { flush_now } => Settled::Pushed {
            job: job.step(JobEvent::Succeed, policy),
            flush_now,
        },
        PushOutcome::Blocked { storage, traces } => Settled::Waiting { job, storage, traces },
    }
}

/// A job that was executing is committed by the step above exactly when its
/// results were taken: where it waits, it is still executing.
pub proof fn lemma_commit_follows_push(job: Job, settled: Settled, policy: RetryPolicy)
    requires
        job.state == JobState::Executing,
        settled matches Settled::Pushed { job: after, .. } ==> after == job.next(
            JobEvent::Succeed,
            policy,
        ),
        settled matches Settled::Waiting { job: same, .. } ==> same == job,
    ensures
        settled matches Settled::Pushed { job: after, .. } ==> after.state == JobState::Committed,
        settled matches Settled::Waiting { job: same, .. } ==> same.state == JobState::Executing,
{
}

} // verus!
