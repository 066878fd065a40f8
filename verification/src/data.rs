//! Dispatch of the data that arrives from the node: what is to be done with
//! each item.

use vstd::prelude::*;
use crate::types::{Block, Hash256, StorageEntry};

verus! {

/// A block header as announced by the node.
#[derive(Debug, Clone, PartialEq, Eq)]
pub struct Header {
    pub number: u32,
    pub hash: Hash256,
    pub parent_hash: Hash256,
}

/// One item received from the node.
#[derive(Debug, Clone, PartialEq, Eq)]
pub enum Data {
    /// A newly announced header.
    Header(Header),
    /// A full block.
    Block(Block),
    /// A storage value read at some block.
    Storage(StorageEntry),
    /// The encoded events of a block.
    Event(Vec<u8>),
}

/// Which reading of the timestamp a storage request asks for.
#[derive(Debug, PartialEq, Eq, Structural, Clone, Copy)]
pub enum TimestampOp {
    Now,
}

/// What a requested storage key stands for.
#[derive(Debug, PartialEq, Eq, Structural, Clone, Copy)]
pub enum StorageKeyType {
    Timestamp(TimestampOp),
}

/// What to do with an item received from the node.
#[derive(Debug, Clone, PartialEq, Eq)]
pub enum DataAction {
    /// Ask the node for the block with this hash.
    FetchBlock { hash: Hash256 },
    /// Insert the item, then ask the node for the storage under `key` at the
    /// block `hash`.
    InsertThenFetchStorage { key: Vec<u8>, hash: Hash256, key_type: StorageKeyType },
    /// Insert the item.
    Insert,
}

/// The 128-bit XX hash of `data`, 16 bytes.
pub uninterp spec fn twox_128_of(data: Seq<u8>) -> Seq<u8>;

/// Calls `sp_crypto_hashing::twox_128`: the result is the 128-bit XX hash of
/// the bytes given.
#[verifier::external_body]
fn twox_128(data: &[u8]) -> (digest: [u8; 16])
    ensures
        digest@ == twox_128_of(data@),
{
    sp_crypto_hashing::twox_128(data)
}

/// The bytes of the text `Timestamp Now`, the name under which the runtime
/// keeps the time of the current block.
pub open spec fn timestamp_now_name() -> Seq<u8> {
    seq![84u8, 105u8, 109u8, 101u8, 115u8, 116u8, 97u8, 109u8, 112u8, 32u8, 78u8, 111u8, 119u8]
}

/// Whether `action` is what `data` calls for, where `storage_key` is the key
/// under which the timestamp is stored:
/// a header has its block fetched; a block is inserted and the timestamp at
/// it requested; anything else is inserted.
pub open spec fn is_action_for(action: DataAction, data: Data, storage_key: Seq<u8>) -> bool {
    match data {
        Data::Header(header) => action == (DataAction::FetchBlock { hash: header.hash }),
        Data::Block(block) => {
            &&& action matches DataAction::InsertThenFetchStorage { key, hash, key_type }
            &&& key@ == storage_key
            &&& hash == block.hash
            &&& key_type == StorageKeyType::Timestamp(TimestampOp::Now)
        },
        _ => action == DataAction::Insert,
    }
}

/// The name `Timestamp Now` as bytes.
pub fn timestamp_now_bytes() -> (name: Vec<u8>)
    ensures
        name@ == timestamp_now_name(),
{
    let name: Vec<u8> = vec![84u8, 105u8, 109u8, 101u8, 115u8, 116u8, 97u8, 109u8, 112u8, 32u8, 78u8, 111u8, 119u8];
    assert(name@ =~= timestamp_now_name());
    name
}

/// Decides what to do with `data`, given the storage key of the timestamp.
pub fn action_for(data: &Data, storage_key: [u8; 16]) -> (action: DataAction)
    ensures
        is_action_for(action, *data, storage_key@),
{
    match data {
        Data::Header(header) => DataAction::FetchBlock { hash: header.hash },
        Data::Block(block) => {
            let mut key: Vec<u8> = Vec::new();
            let mut i: usize = 0;
            while i < 16
                invariant
                    i <= 16,
                    key@ == storage_key@.take(i as int),
                decreases 16 - i,
            {
                key.push(storage_key[i]);
                assert(storage_key@.take(i as int + 1) == storage_key@.take(i as int).push(
                    storage_key@[i as int],
                ));
                i = i + 1;
            }
            assert(storage_key@.take(16) == storage_key@);
            DataAction::InsertThenFetchStorage {
                key,
                hash: block.hash,
                key_type: StorageKeyType::Timestamp(TimestampOp::Now),
            }
        },
        _ => DataAction::Insert,
    }
}

/// Decides what to do with an item received from the node. A header has its
/// block fetched by hash. A block is inserted, and the storage under the XX
/// hash of `Timestamp Now` is requested at that block. Anything else is
/// inserted.
pub fn handle_data(data: &Data) -> (action: DataAction)
    ensures
        is_action_for(action, *data, twox_128_of(timestamp_now_name())),
{
    let name = timestamp_now_bytes();
    let storage_key = twox_128(name.as_slice());
    action_for(data, storage_key)
}

} // verus!
