//! The records that the indexer moves between the chain and the database.

use vstd::prelude::*;

verus! {

/// A 32-byte hash: of a block, of its parent, or a trie root.
#[derive(Clone, Copy, Debug, PartialEq, Eq, Hash)]
pub struct Hash256 {
    pub bytes: [u8; 32],
}

/// A block as read from the chain backend.
#[derive(Debug, Clone, PartialEq, Eq)]
pub struct Block {
    pub number: u32,
    pub hash: Hash256,
    pub parent_hash: Hash256,
    pub state_root: Hash256,
    pub extrinsics_root: Hash256,
    pub spec_version: u32,
    pub body: Vec<u8>,
}

/// One key written by the execution of a block; `value` is `None` where the
/// key was deleted.
#[derive(Debug, Clone, PartialEq, Eq)]
pub struct StorageEntry {
    pub block_number: u32,
    pub block_hash: Hash256,
    pub key: Vec<u8>,
    pub value: Option<Vec<u8>>,
}

/// One diagnostic record emitted by the executor while it ran a block.
#[derive(Debug, Clone, PartialEq, Eq)]
pub struct TraceEntry {
    pub block_number: u32,
    pub block_hash: Hash256,
    pub target: String,
    pub name: String,
    pub values: Vec<u8>,
}

} // verus!
