//! The options that the indexer is started with.

use vstd::prelude::*;
use crate::error::ArchiveError;

verus! {

/// Seconds that a job may wait for a free worker before it times out.
pub const DEFAULT_TASK_TIMEOUT: u64 = 20;

/// Jobs that may wait in the worker pool at once.
pub const DEFAULT_MAX_TASKS: usize = 64;

/// Blocks loaded from the backend in one window of a bulk scan.
pub const DEFAULT_MAX_BLOCK_LOAD: u32 = 100_000;

/// Limits on the work that the indexer does at once.
#[derive(Debug, PartialEq, Eq, Structural, Clone, Copy)]
pub struct ControlConfig {
    /// Number of threads that execute jobs.
    pub task_workers: usize,
    /// Seconds within which a job must start on the worker pool.
    pub task_timeout: u64,
    /// Maximum number of jobs queued in the worker pool.
    pub max_tasks: usize,
    /// Maximum number of blocks indexed at once.
    pub max_block_load: u32,
}

/// Calls `num_cpus::get`: the number of logical cores available to this
/// process, which is never zero.
#[verifier::external_body]
fn cpu_count() -> (cpus: usize)
    ensures
        cpus >= 1,
{
    num_cpus::get()
}

/// The default number of worker threads: one for each available core.
pub fn default_task_workers() -> (workers: usize)
    ensures
        workers >= 1,
{
    cpu_count()
}

/// The default time that a job may wait for a worker, in seconds.
pub fn default_task_timeout() -> (seconds: u64)
    ensures
        seconds == DEFAULT_TASK_TIMEOUT,
{
    DEFAULT_TASK_TIMEOUT
}

/// The default bound on queued jobs.
pub fn default_max_tasks() -> (tasks: usize)
    ensures
        tasks == DEFAULT_MAX_TASKS,
{
    DEFAULT_MAX_TASKS
}

/// The default window of a bulk scan.
pub fn default_max_block_load() -> (blocks: u32)
    ensures
        blocks == DEFAULT_MAX_BLOCK_LOAD,
{
    DEFAULT_MAX_BLOCK_LOAD
}

impl ControlConfig {
    /// The defaults for a machine with `task_workers` cores.
    pub open spec fn defaults_for(task_workers: usize) -> ControlConfig {
        ControlConfig {
            task_workers,
            task_timeout: DEFAULT_TASK_TIMEOUT,
            max_tasks: DEFAULT_MAX_TASKS,
            max_block_load: DEFAULT_MAX_BLOCK_LOAD,
        }
    }

    /// The default limits with the given number of worker threads.
    pub fn with_workers(task_workers: usize) -> (control: ControlConfig)
        ensures
            control == Self::defaults_for(task_workers),
    {
        ControlConfig {
            task_workers,
            task_timeout: default_task_timeout(),
            max_tasks: default_max_tasks(),
            max_block_load: default_max_block_load(),
        }
    }

    /// Whether the engine can make progress under these limits: there is a
    /// worker to run jobs, and a scan window holds at least one block.
    pub open spec fn spec_is_valid(self) -> bool {
        self.task_workers >= 1 && self.max_block_load >= 1
    }

    /// Whether the engine can make progress under these limits.
    #[verifier::when_used_as_spec(spec_is_valid)]
    pub fn is_valid(self) -> (valid: bool)
        ensures
            valid == self.spec_is_valid(),
    {
        self.task_workers >= 1 && self.max_block_load >= 1
    }

    /// Accepts the limits where they are valid, and rejects them as a
    /// configuration error where they are not.
    pub fn validate(self) -> (checked: Result<ControlConfig, ArchiveError>)
        ensures
            self.spec_is_valid() ==> checked == Ok::<ControlConfig, ArchiveError>(self),
            !self.spec_is_valid() ==> checked == Err::<ControlConfig, ArchiveError>(
                ArchiveError::Config,
            ),
    {
        if self.is_valid() {
            Ok(self)
        } else {
            Err(ArchiveError::Config)
        }
    }
}

impl Default for ControlConfig {
    /// One worker for each available core, and the default timeout, queue
    /// bound and scan window.
    fn default() -> (control: Self)
        ensures
            control.task_workers >= 1,
            control == ControlConfig::defaults_for(control.task_workers),
            control.spec_is_valid(),
    {
        ControlConfig::with_workers(default_task_workers())
    }
}

} // verus!
