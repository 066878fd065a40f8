use substrate_archive::aggregator::StorageAggregator;
use substrate_archive::error::ArchiveError;
use substrate_archive::indexer::{writes_for, BlocksIndexer, Window};
use substrate_archive::jobs::{Execution, Job, JobEvent, JobState, QueueWrite, RetryPolicy};
use substrate_archive::store::WriteAction;
use substrate_archive::supervisor::{Report, TaskRun};
use substrate_archive::types::{Block, Hash256, StorageEntry, TraceEntry};

fn hash(byte: u8) -> Hash256 {
    Hash256 { bytes: [byte; 32] }
}

fn block(number: u32) -> Block {
    Block {
        number,
        hash: hash(number as u8),
        parent_hash: hash(0),
        state_root: hash(1),
        extrinsics_root: hash(2),
        spec_version: 1,
        body: Vec::new(),
    }
}

fn executing(policy: RetryPolicy) -> Job {
    Job::new(7, hash(7))
        .step(JobEvent::Lease { now: 10 }, policy)
        .step(JobEvent::Start { now: 11 }, policy)
}

#[test]
fn crawl_asks_for_what_lies_beyond_the_last_height() {
    let mut indexer = BlocksIndexer::new(100);
    assert_eq!(indexer.crawl_window(0), None);
    assert_eq!(indexer.crawl_window(5), Some(Window { first: 1, last: 5 }));
    indexer.crawl(vec![block(3), block(9), block(4)]);
    assert_eq!(indexer.last_max(), 9);
    assert_eq!(indexer.crawl_window(9), None);
    assert_eq!(indexer.crawl_window(8), None);
    assert_eq!(indexer.crawl_window(10), Some(Window { first: 10, last: 10 }));
    assert_eq!(indexer.crawl_window(u32::MAX), Some(Window { first: 10, last: u32::MAX }));
    indexer.crawl(vec![block(u32::MAX)]);
    assert_eq!(indexer.crawl_window(u32::MAX), None);
}

#[test]
fn writes_insert_each_block_then_enqueue_it() {
    assert_eq!(writes_for(Vec::new()), Vec::new());
    assert_eq!(
        writes_for(vec![block(4), block(2)]),
        vec![
            WriteAction::InsertBlock(block(4)),
            WriteAction::Enqueue { number: 4, hash: hash(4) },
            WriteAction::InsertBlock(block(2)),
            WriteAction::Enqueue { number: 2, hash: hash(2) },
        ]
    );
}

#[test]
fn success_commits_the_job() {
    let policy = RetryPolicy::new(20);
    let done = executing(policy).finish(Execution::Succeeded, 12, policy);
    assert_eq!(done.state, JobState::Committed);
    assert_eq!(done.attempts, 0);
    assert_eq!(done.queue_write(), QueueWrite::Delete);
}

#[test]
fn failure_and_panic_count_alike() {
    let policy = RetryPolicy::new(20);
    let failed = executing(policy).finish(Execution::Failed, 12, policy);
    let panicked = executing(policy).finish(Execution::Panicked, 12, policy);
    assert_eq!(failed, panicked);
    assert_eq!(failed.state, JobState::Queued);
    assert_eq!(failed.attempts, 1);
    assert_eq!(failed.not_before, 14);
}

#[test]
fn last_failure_is_a_dead_letter() {
    let policy = RetryPolicy { max_attempts: 1, task_timeout: 20 };
    let dead = executing(policy).finish(Execution::Panicked, 12, policy);
    assert_eq!(dead.state, JobState::Dead);
    assert_eq!(dead.queue_write(), QueueWrite::DeadLetter { attempts: 1 });
    assert_eq!(dead.finish(Execution::Succeeded, 13, policy), dead);
}

#[test]
fn task_runs_are_told_apart() {
    assert_eq!(TaskRun::of(Ok(())), TaskRun::Completed);
    assert_eq!(TaskRun::of(Err(ArchiveError::TaskTimeout)), TaskRun::TimedOut);
    assert_eq!(TaskRun::of(Err(ArchiveError::Db)), TaskRun::Errored);
    assert_eq!(TaskRun::of(Err(ArchiveError::Execution)), TaskRun::Errored);
}

#[test]
fn reports_of_results() {
    assert_eq!(Report::of(Ok(())), Report::Done);
    assert_eq!(Report::of(Err(ArchiveError::Backend)), Report::Failed(ArchiveError::Backend));
}

#[test]
fn dying_aggregator_hands_out_what_it_holds() {
    let entry = StorageEntry { block_number: 1, block_hash: hash(1), key: vec![1], value: None };
    let trace = TraceEntry {
        block_number: 1,
        block_hash: hash(1),
        target: "state".to_string(),
        name: "put".to_string(),
        values: vec![1, 2],
    };
    let mut aggregator = StorageAggregator::new();
    aggregator.push(vec![entry.clone()], vec![trace.clone(), trace.clone()]);
    assert_eq!(aggregator.die(), (vec![entry], vec![trace.clone(), trace]));
    assert_eq!(StorageAggregator::new().die(), (Vec::new(), Vec::new()));
}

#[test]
fn executions_and_their_errors() {
    assert_eq!(Execution::Succeeded.error(), None);
    assert_eq!(Execution::Failed.error(), Some(ArchiveError::Execution));
    assert_eq!(Execution::Panicked.error(), Some(ArchiveError::Execution));
}

#[test]
fn start_within_the_lease() {
    let policy = RetryPolicy::new(20);
    let leased = Job::new(7, hash(7)).step(JobEvent::Lease { now: 10 }, policy);
    let (job, started) = leased.begin(30, policy);
    assert_eq!(started, Ok(()));
    assert_eq!(job.state, JobState::Executing);
}

#[test]
fn start_after_the_lease_times_out() {
    let policy = RetryPolicy::new(20);
    let leased = Job::new(7, hash(7)).step(JobEvent::Lease { now: 10 }, policy);
    let (job, started) = leased.begin(31, policy);
    assert_eq!(started, Err(ArchiveError::TaskTimeout));
    assert_eq!(job.state, JobState::Queued);
    assert_eq!(job.attempts, 0);
    assert_eq!(job.queue_write(), QueueWrite::Release { attempts: 0, not_before: 0 });
}

#[test]
fn start_of_a_job_that_is_not_leased() {
    let policy = RetryPolicy::new(20);
    let queued = Job::new(7, hash(7));
    assert_eq!(queued.begin(5, policy), (queued, Ok(())));
}
