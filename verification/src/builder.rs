//! Construction of the archive: the options given by the user, the settings
//! of the runtime client derived from them, and the order of the steps that
//! bring the archive up.

use vstd::prelude::*;
use crate::config::default_task_workers;
use crate::error::ArchiveError;

verus! {

/// Heap pages of 64 KiB given to an execution of the runtime where the
/// options name no number.
pub const DEFAULT_WASM_PAGES: u64 = 2048;

/// How to reach the relational store; what is left out falls to the
/// defaults of the store's client.
#[derive(Debug, Clone, PartialEq, Eq)]
pub struct MigrationConfig {
    pub host: Option<String>,
    pub port: Option<String>,
    pub user: Option<String>,
    pub pass: Option<String>,
    pub name: Option<String>,
}

/// The options of an archive.
#[derive(Debug, Clone, PartialEq, Eq)]
pub struct ArchiveConfig {
    /// Path of the node's database.
    pub db_url: String,
    /// Websocket address of the full node.
    pub rpc_url: String,
    /// How much cache the node's database may keep.
    pub cache_size: usize,
    /// How to reach the relational store.
    pub psql_conf: MigrationConfig,
    /// Number of threads that execute blocks.
    pub block_workers: Option<usize>,
    /// Number of 64 KiB heap pages for an execution of the runtime.
    pub wasm_pages: Option<u64>,
}

/// The settings of the runtime client.
#[derive(Debug, PartialEq, Eq, Structural, Clone, Copy)]
pub struct ClientSettings {
    pub block_workers: usize,
    pub wasm_pages: u64,
}

/// Builds an archive over the opened database `D` of the node.
#[derive(Debug)]
pub struct ArchiveBuilder<D> {
    pub rpc_url: String,
    pub db: D,
    pub block_workers: Option<usize>,
    pub wasm_pages: Option<u64>,
    pub psql_conf: MigrationConfig,
}

/// A step of bringing the archive up.
#[derive(Debug, PartialEq, Eq, Structural, Clone, Copy)]
pub enum RunStage {
    /// Bring the schema of the relational store up to date.
    Migrate,
    /// Build the runtime client.
    BuildClient,
    /// Open the read-only backend over the node's database.
    OpenBackend,
    /// Read the hash of the last finalized block.
    ReadLastFinalized,
    /// Read the runtime version at that block.
    ReadRuntimeVersion,
    /// Make the system.
    CreateSystem,
    /// Give the signal to start.
    Drive,
    /// The archive runs.
    Running,
    /// A step failed; the archive was not brought up.
    Failed(ArchiveError),
}

/// The number of workers to use: the number asked for, or else one for each
/// core.
pub open spec fn workers_or(block_workers: Option<usize>, cpus: usize) -> usize {
    match block_workers {
        Some(workers) => workers,
        None => cpus,
    }
}

/// The number of heap pages to use: the number asked for in the call, or else
/// the configured one, or else the default. Every path to the runtime client
/// takes this one value.
pub open spec fn pages_or(asked: Option<u64>, configured: Option<u64>) -> u64 {
    match asked {
        Some(pages) => pages,
        None => match configured {
            Some(pages) => pages,
            None => DEFAULT_WASM_PAGES,
        },
    }
}

/// The settings of the runtime client on a machine with `cpus` cores.
pub fn client_settings(
    block_workers: Option<usize>,
    asked_pages: Option<u64>,
    configured_pages: Option<u64>,
    cpus: usize,
) -> (settings: ClientSettings)
    ensures
        settings.block_workers == workers_or(block_workers, cpus),
        settings.wasm_pages == pages_or(asked_pages, configured_pages),
{
    let workers: usize = match block_workers {
        Some(workers) => workers,
        None => cpus,
    };
    let pages: u64 = match asked_pages {
        Some(pages) => pages,
        None => match configured_pages {
            Some(pages) => pages,
            None => DEFAULT_WASM_PAGES,
        },
    };
    ClientSettings { block_workers: workers, wasm_pages: pages }
}

impl<D> ArchiveBuilder<D> {
    /// Makes the builder from the options and the node's database, which the
    /// caller has opened at `conf.db_url` with a cache of `conf.cache_size`.
    pub fn new(conf: ArchiveConfig, db: D) -> (builder: Self)
        ensures
            builder.rpc_url == conf.rpc_url,
            builder.db == db,
            builder.block_workers == conf.block_workers,
            builder.wasm_pages == conf.wasm_pages,
            builder.psql_conf == conf.psql_conf,
    {
        Self {
            db,
            psql_conf: conf.psql_conf,
            rpc_url: conf.rpc_url,
            block_workers: conf.block_workers,
            wasm_pages: conf.wasm_pages,
        }
    }

    /// The settings of a runtime client with the given number of workers and
    /// heap pages. Without a number of workers there is one for each core of
    /// this machine, so at least one. Without a number of pages the builder's
    /// own is taken, or else the default.
    pub fn api_client(&self, block_workers: Option<usize>, wasm_pages: Option<usize>) -> (settings:
        ClientSettings)
        ensures
            block_workers is Some ==> settings.block_workers == block_workers->Some_0,
            block_workers is None ==> settings.block_workers >= 1,
            wasm_pages is Some ==> settings.wasm_pages == wasm_pages->Some_0,
            wasm_pages is None ==> settings.wasm_pages == pages_or(None, self.wasm_pages),
    {
        let asked: Option<u64> = match wasm_pages {
            Some(pages) => Some(pages as u64),
            None => None,
        };
        client_settings(block_workers, asked, self.wasm_pages, default_task_workers())
    }

    /// The settings of the runtime client that the archive runs with: the
    /// builder's own number of workers and heap pages, with the same defaults
    /// as [`ArchiveBuilder::api_client`].
    pub fn run(&self) -> (settings: ClientSettings)
        ensures
            self.block_workers is Some ==> settings.block_workers == self.block_workers->Some_0,
            self.block_workers is None ==> settings.block_workers >= 1,
            settings.wasm_pages == pages_or(None, self.wasm_pages),
    {
        client_settings(self.block_workers, None, self.wasm_pages, default_task_workers())
    }
}

impl RunStage {
    /// The step that follows a step that succeeded.
    pub open spec fn following(self) -> RunStage {
        match self {
            RunStage::Migrate => RunStage::BuildClient,
            RunStage::BuildClient => RunStage::OpenBackend,
            RunStage::OpenBackend => RunStage::ReadLastFinalized,
            RunStage::ReadLastFinalized => RunStage::ReadRuntimeVersion,
            RunStage::ReadRuntimeVersion => RunStage::CreateSystem,
            RunStage::CreateSystem => RunStage::Drive,
            RunStage::Drive => RunStage::Running,
            RunStage::Running => RunStage::Running,
            RunStage::Failed(error) => RunStage::Failed(error),
        }
    }

    /// Whether nothing is left to do: the archive runs, or a step failed.
    pub open spec fn is_settled(self) -> bool {
        self == RunStage::Running || self is Failed
    }

    /// The step reached from `self` when its operation ended with `result`:
    /// the following step on success, the failure on an error. Once the
    /// archive runs, or a step has failed, nothing changes any more.
    pub open spec fn next(self, result: Result<(), ArchiveError>) -> RunStage {
        if self.is_settled() {
            self
        } else {
            match result {
                Ok(_) => self.following(),
                Err(error) => RunStage::Failed(error),
            }
        }
    }

    /// The first step.
    pub fn first() -> (stage: RunStage)
        ensures
            stage == RunStage::Migrate,
    {
        RunStage::Migrate
    }

    /// Moves on by one step: returns the step that follows `self` when its
    /// operation ended with `result`.
    pub fn advance(self, result: Result<(), ArchiveError>) -> (reached: RunStage)
        ensures
            reached == self.next(result),
    {
        match self {
            RunStage::Running => self,
            RunStage::Failed(_) => self,
            _ => match result {
                Err(error) => RunStage::Failed(error),
                Ok(_) => match self {
                    RunStage::Migrate => RunStage::BuildClient,
                    RunStage::BuildClient => RunStage::OpenBackend,
                    RunStage::OpenBackend => RunStage::ReadLastFinalized,
                    RunStage::ReadLastFinalized => RunStage::ReadRuntimeVersion,
                    RunStage::ReadRuntimeVersion => RunStage::CreateSystem,
                    RunStage::CreateSystem => RunStage::Drive,
                    _ => RunStage::Running,
                },
            },
        }
    }
}

/// Seven steps that succeed bring the archive from the first step to running.
pub proof fn lemma_seven_steps_to_running()
    ensures
        RunStage::Migrate.next(Ok(())).next(Ok(())).next(Ok(())).next(Ok(())).next(Ok(())).next(
            Ok(()),
        ).next(Ok(())) == RunStage::Running,
{
}

} // verus!
