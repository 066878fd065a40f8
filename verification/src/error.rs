//! The kinds of failure that the indexer tells apart.

use vstd::prelude::*;

verus! {

/// Why an operation of the indexer failed.
#[derive(Debug, PartialEq, Eq, Structural, Clone, Copy)]
pub enum ArchiveError {
    /// The chain backend could not be read, or what it held could not be decoded.
    Backend,
    /// The relational store refused or lost a request.
    Db,
    /// The mailbox of an actor is closed.
    Disconnected,
    /// The executor failed on a block.
    Execution,
    /// A job did not start within its lease.
    TaskTimeout,
    /// The configuration given at startup is invalid.
    Config,
}

impl ArchiveError {
    /// Whether the operation is simply tried again on the next tick: a failed
    /// read of the backend or a failed request to the relational store.
    pub open spec fn spec_is_transient(self) -> bool {
        self == ArchiveError::Backend || self == ArchiveError::Db
    }

    /// Whether the operation is simply tried again on the next tick.
    #[verifier::when_used_as_spec(spec_is_transient)]
    pub fn is_transient(self) -> (transient: bool)
        ensures
            transient == self.spec_is_transient(),
    {
        match self {
            ArchiveError::Backend => true,
            ArchiveError::Db => true,
            _ => false,
        }
    }
}

} // verus!
