//! The archive that follows a node over its websocket interface.

use vstd::prelude::*;
use crate::error::ArchiveError;
use crate::system::{parse_url, url_parse_of};

verus! {

/// A task that the archive starts when it runs.
#[derive(Debug, PartialEq, Eq, Structural, Clone, Copy)]
pub enum ArchiveTask {
    /// Subscribe to the new heads that the node announces.
    SubscribeNewHeads,
    /// Check again and again that no block is missing.
    Verify,
    /// Handle the data that arrives, until the channel closes.
    HandleData,
}

/// The archive: the address of the node that it follows.
#[derive(Debug, Clone, PartialEq, Eq)]
pub struct Archive {
    pub rpc_url: String,
}

/// The text of the address at which a local node listens.
pub open spec fn local_node_address() -> Seq<char> {
    "ws://127.0.0.1:9944"@
}

/// The tasks of a running archive, in the order in which they are started.
pub open spec fn archive_tasks() -> Seq<ArchiveTask> {
    seq![ArchiveTask::SubscribeNewHeads, ArchiveTask::Verify, ArchiveTask::HandleData]
}

impl Archive {
    /// Makes the archive for the node at `address`, given the outcome of
    /// parsing it: the archive holds the parsed address; an address that did
    /// not parse is a configuration error.
    pub fn with_address(parsed: Option<String>) -> (archive: Result<Archive, ArchiveError>)
        ensures
            parsed is Some ==> archive is Ok && archive->Ok_0.rpc_url == parsed->Some_0,
            parsed is None ==> archive is Err && archive->Err_0 == ArchiveError::Config,
    {
        match parsed {
            Some(rpc_url) => Ok(Archive { rpc_url }),
            None => Err(ArchiveError::Config),
        }
    }

    /// Makes the archive for the node that listens on this machine.
    pub fn new() -> (archive: Result<Archive, ArchiveError>)
        ensures
            url_parse_of(local_node_address()) is Some ==> archive is Ok && archive->Ok_0.rpc_url@
                == url_parse_of(local_node_address())->Some_0,
            url_parse_of(local_node_address()) is None ==> archive is Err && archive->Err_0
                == ArchiveError::Config,
    {
        let parsed = match parse_url("ws://127.0.0.1:9944") {
            Ok(address) => Some(address),
            Err(_) => None,
        };
        Self::with_address(parsed)
    }

    /// The tasks to start, in their order: the subscription to new heads and
    /// the check for missing blocks run in the background, the handling of
    /// the data that they bring in runs until the channel closes.
    pub fn run(self) -> (tasks: Vec<ArchiveTask>)
        ensures
            tasks@ == archive_tasks(),
    {
        let tasks: Vec<ArchiveTask> = vec![
            ArchiveTask::SubscribeNewHeads,
            ArchiveTask::Verify,
            ArchiveTask::HandleData,
        ];
        assert(tasks@ =~= archive_tasks());
        tasks
    }
}

} // verus!
