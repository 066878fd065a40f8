use substrate_archive::aggregator::{
    PushOutcome, StorageAggregator, DEFAULT_FLUSH_THRESHOLD, DEFAULT_MAX_BUF,
};
use substrate_archive::jobs::{
    add_capped, backoff_seconds, Job, JobEvent, JobState, QueueWrite, RetryPolicy,
    DEFAULT_MAX_ATTEMPTS,
};
use substrate_archive::queue::recover_job;
use substrate_archive::types::{Hash256, StorageEntry, TraceEntry};

fn hash(byte: u8) -> Hash256 {
    Hash256 { bytes: [byte; 32] }
}

fn delta(n: u32) -> StorageEntry {
    StorageEntry {
        block_number: n,
        block_hash: hash(n as u8),
        key: n.to_le_bytes().to_vec(),
        value: if n % 3 == 0 { None } else { Some(vec![n as u8]) },
    }
}

fn trace(n: u32) -> TraceEntry {
    TraceEntry {
        block_number: n,
        block_hash: hash(n as u8),
        target: "pallet".to_string(),
        name: format!("span-{}", n),
        values: vec![n as u8],
    }
}

fn deltas(range: std::ops::Range<u32>) -> Vec<StorageEntry> {
    range.map(delta).collect()
}

fn fail_once(job: Job, now: u64, policy: RetryPolicy) -> Job {
    job.step(JobEvent::Lease { now }, policy)
        .step(JobEvent::Start { now }, policy)
        .step(JobEvent::Fail, policy)
        .step(JobEvent::Settle { now }, policy)
}

#[test]
fn new_job_is_queued_and_ready() {
    let job = Job::new(7, hash(7));
    assert_eq!(
        job,
        Job {
            block_number: 7,
            block_hash: hash(7),
            attempts: 0,
            state: JobState::Queued,
            lease_deadline: 0,
            not_before: 0,
        }
    );
    assert_eq!(job.queue_write(), QueueWrite::Release { attempts: 0, not_before: 0 });
}

#[test]
fn default_policy() {
    let policy = RetryPolicy::new(20);
    assert_eq!(policy, RetryPolicy { max_attempts: 5, task_timeout: 20 });
    assert_eq!(DEFAULT_MAX_ATTEMPTS, 5);
}

#[test]
fn job_runs_to_commit() {
    let policy = RetryPolicy::new(20);
    let leased = Job::new(1, hash(1)).step(JobEvent::Lease { now: 100 }, policy);
    assert_eq!(leased.state, JobState::Leased);
    assert_eq!(leased.lease_deadline, 120);
    assert_eq!(leased.queue_write(), QueueWrite::Lease { deadline: 120 });
    let running = leased.step(JobEvent::Start { now: 120 }, policy);
    assert_eq!(running.state, JobState::Executing);
    assert_eq!(running.queue_write(), QueueWrite::Keep);
    let done = running.step(JobEvent::Succeed, policy);
    assert_eq!(done.state, JobState::Committed);
    assert_eq!(done.attempts, 0);
    assert_eq!(done.queue_write(), QueueWrite::Delete);
    assert_eq!(done.step(JobEvent::Lease { now: 500 }, policy), done);
    assert_eq!(done.step(JobEvent::Fail, policy), done);
}

#[test]
fn lease_that_ran_out_releases_the_job() {
    let policy = RetryPolicy::new(20);
    let leased = Job::new(1, hash(1)).step(JobEvent::Lease { now: 100 }, policy);
    let released = leased.step(JobEvent::Start { now: 121 }, policy);
    assert_eq!(released.state, JobState::Queued);
    assert_eq!(released.attempts, 0);
    assert_eq!(released.not_before, 0);
}

#[test]
fn lease_deadline_is_capped() {
    let policy = RetryPolicy { max_attempts: 5, task_timeout: 20 };
    let leased = Job::new(1, hash(1)).step(JobEvent::Lease { now: u64::MAX - 3 }, policy);
    assert_eq!(leased.lease_deadline, u64::MAX);
    assert_eq!(add_capped(u64::MAX, 1), u64::MAX);
    assert_eq!(add_capped(3, 4), 7);
    assert_eq!(add_capped(u64::MAX - 4, 4), u64::MAX);
}

#[test]
fn events_that_do_not_fit_change_nothing() {
    let policy = RetryPolicy::new(20);
    let queued = Job::new(1, hash(1));
    assert_eq!(queued.step(JobEvent::Start { now: 1 }, policy), queued);
    assert_eq!(queued.step(JobEvent::Succeed, policy), queued);
    assert_eq!(queued.step(JobEvent::Fail, policy), queued);
    assert_eq!(queued.step(JobEvent::Settle { now: 1 }, policy), queued);
    let leased = queued.step(JobEvent::Lease { now: 1 }, policy);
    assert_eq!(leased.step(JobEvent::Lease { now: 2 }, policy), leased);
    assert_eq!(leased.step(JobEvent::Succeed, policy), leased);
}

#[test]
fn failure_backs_off() {
    let policy = RetryPolicy::new(20);
    let once = fail_once(Job::new(7, hash(7)), 1000, policy);
    assert_eq!(once.state, JobState::Queued);
    assert_eq!(once.attempts, 1);
    assert_eq!(once.not_before, 1002);
    assert_eq!(once.queue_write(), QueueWrite::Release { attempts: 1, not_before: 1002 });
    // Not ready before the backoff has passed.
    assert_eq!(once.step(JobEvent::Lease { now: 1001 }, policy), once);
    assert_eq!(once.step(JobEvent::Lease { now: 1002 }, policy).state, JobState::Leased);
    let twice = fail_once(once, 2000, policy);
    assert_eq!(twice.attempts, 2);
    assert_eq!(twice.not_before, 2004);
}

#[test]
fn dead_letter_after_max_attempts() {
    let policy = RetryPolicy::new(20);
    let mut job = Job::new(7, hash(7));
    let mut now = 0;
    for attempt in 1..=4u32 {
        job = fail_once(job, now, policy);
        assert_eq!(job.state, JobState::Queued);
        assert_eq!(job.attempts, attempt);
        now = job.not_before;
    }
    job = fail_once(job, now, policy);
    assert_eq!(job.state, JobState::Dead);
    assert_eq!(job.attempts, 5);
    assert_eq!(job.queue_write(), QueueWrite::DeadLetter { attempts: 5 });
    // No further retries.
    let after = fail_once(job, now + 1_000_000, policy);
    assert_eq!(after, job);
    assert_eq!(job.step(JobEvent::Lease { now: u64::MAX }, policy), job);
}

#[test]
fn backoff_doubles_and_is_capped() {
    assert_eq!(backoff_seconds(0), 1);
    assert_eq!(backoff_seconds(1), 2);
    assert_eq!(backoff_seconds(2), 4);
    assert_eq!(backoff_seconds(10), 1024);
    assert_eq!(backoff_seconds(63), 1u64 << 63);
    assert_eq!(backoff_seconds(64), u64::MAX);
    assert_eq!(backoff_seconds(200), u64::MAX);
}

#[test]
fn restart_returns_held_jobs_to_the_queue() {
    let policy = RetryPolicy::new(20);
    let queued = Job::new(1, hash(1));
    let leased = queued.step(JobEvent::Lease { now: 5 }, policy);
    let running = leased.step(JobEvent::Start { now: 6 }, policy);
    let failed = running.step(JobEvent::Fail, policy);
    let committed = running.step(JobEvent::Succeed, policy);
    assert_eq!(recover_job(queued), queued);
    assert_eq!(recover_job(leased).state, JobState::Queued);
    assert_eq!(recover_job(running).state, JobState::Queued);
    assert_eq!(recover_job(running).attempts, 0);
    assert_eq!(recover_job(failed).state, JobState::Queued);
    assert_eq!(recover_job(failed).attempts, 1);
    assert_eq!(recover_job(committed), committed);
    let dead = Job { state: JobState::Dead, attempts: 5, ..queued };
    assert_eq!(recover_job(dead), dead);
    assert_eq!(recover_job(recover_job(leased)), recover_job(leased));
}

#[test]
fn aggregator_defaults() {
    let aggregator = StorageAggregator::new();
    assert_eq!(aggregator.storage_len(), 0);
    assert_eq!(aggregator.traces_len(), 0);
    assert!(!aggregator.must_wait());
    assert_eq!(DEFAULT_FLUSH_THRESHOLD, 500);
    assert_eq!(DEFAULT_MAX_BUF, 5000);
}

#[test]
fn push_appends_and_flush_drains_in_order() {
    let mut aggregator = StorageAggregator::with_limits(3, 10);
    assert_eq!(
        aggregator.push(deltas(0..2), vec![trace(0)]),
        PushOutcome::Accepted { flush_now: false }
    );
    assert_eq!(
        aggregator.push(deltas(2..4), Vec::new()),
        PushOutcome::Accepted { flush_now: true }
    );
    assert_eq!(aggregator.storage_len(), 4);
    assert_eq!(aggregator.traces_len(), 1);
    assert_eq!(aggregator.take_storage(), deltas(0..4));
    assert_eq!(aggregator.storage_len(), 0);
    assert_eq!(aggregator.traces_len(), 1);
    assert_eq!(aggregator.take_traces(), vec![trace(0)]);
    assert_eq!(aggregator.take_storage(), Vec::new());
}

#[test]
fn flush_threshold_counts_traces_too() {
    let mut aggregator = StorageAggregator::with_limits(1, 10);
    assert_eq!(
        aggregator.push(Vec::new(), vec![trace(0), trace(1)]),
        PushOutcome::Accepted { flush_now: true }
    );
    let mut exact = StorageAggregator::with_limits(2, 10);
    assert_eq!(
        exact.push(deltas(0..2), vec![trace(0), trace(1)]),
        PushOutcome::Accepted { flush_now: false }
    );
}

#[test]
fn failed_flush_puts_the_batch_back_in_front() {
    let mut aggregator = StorageAggregator::with_limits(500, 5000);
    aggregator.push(deltas(0..3), vec![trace(0), trace(1)]);
    let batch = aggregator.take_storage();
    let traces = aggregator.take_traces();
    aggregator.push(deltas(3..5), vec![trace(2)]);
    aggregator.restore_storage(batch);
    aggregator.restore_traces(traces);
    assert_eq!(aggregator.take_storage(), deltas(0..5));
    assert_eq!(aggregator.take_traces(), vec![trace(0), trace(1), trace(2)]);
}

#[test]
fn back_pressure_drops_nothing() {
    let mut aggregator = StorageAggregator::with_limits(5, 10);
    let mut stored: Vec<StorageEntry> = Vec::new();
    let mut stalls = 0;
    let mut pending = Some(deltas(0..4));
    let mut next = 4;
    while let Some(chunk) = pending.take() {
        match aggregator.push(chunk, Vec::new()) {
            PushOutcome::Accepted { .. } => {
                if next < 1000 {
                    pending = Some(deltas(next..next + 4));
                    next += 4;
                }
            }
            PushOutcome::Blocked { storage, traces } => {
                // The worker stalls until the database has drained the buffer.
                assert!(aggregator.must_wait());
                assert!(traces.is_empty());
                stalls += 1;
                stored.extend(aggregator.take_storage());
                assert!(!aggregator.must_wait());
                pending = Some(storage);
            }
        }
    }
    stored.extend(aggregator.take_storage());
    assert_eq!(stored, deltas(0..1000));
    assert!(stalls > 0);
}

#[test]
fn blocked_push_gives_the_entries_back() {
    let mut aggregator = StorageAggregator::with_limits(1, 2);
    aggregator.push(deltas(0..3), Vec::new());
    assert!(aggregator.must_wait());
    assert_eq!(
        aggregator.push(deltas(3..5), vec![trace(9)]),
        PushOutcome::Blocked { storage: deltas(3..5), traces: vec![trace(9)] }
    );
    assert_eq!(aggregator.storage_len(), 3);
    assert_eq!(aggregator.traces_len(), 0);
}
