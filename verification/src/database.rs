//! The database actor, the only writer to the relational store: the
//! messages that it takes, and what its insert of storage changes promises.

use vstd::prelude::*;
use crate::error::ArchiveError;
use crate::types::{Block, Hash256, StorageEntry};

verus! {

/// A message to the database actor.
#[derive(Debug, Clone, PartialEq, Eq)]
pub enum DbMessage {
    /// Insert one block.
    InsertBlock(Block),
    /// Insert several blocks, all or none.
    InsertBlocks(Vec<Block>),
    /// Append a batch of storage changes.
    InsertStorage(Vec<StorageEntry>),
    /// Insert the metadata of a runtime version.
    InsertMetadata { version: u32, meta: Vec<u8> },
    /// Hand out the connection pool.
    GetPool,
    /// Flush what is pending, close the pool, and end.
    Die,
}

/// What the actor does with a message.
#[derive(Debug, Clone, PartialEq, Eq)]
pub enum DbStep {
    /// Carry the message out against the relational store.
    Execute(DbMessage),
    /// Flush what is pending and close the pool.
    Shutdown,
    /// The actor has ended: the message is turned away.
    Refuse(ArchiveError),
}

/// The database actor's state: whether it still takes messages.
#[derive(Debug)]
pub struct DatabaseActor {
    alive: bool,
}

/// The storage rows of the relational store: for a block and a key, the
/// value last written, or nothing where the key was deleted.
pub struct StorageTable {
    pub rows: Map<(Hash256, Seq<u8>), Option<Seq<u8>>>,
}

/// The row under which a storage change is kept.
pub open spec fn row_of(entry: StorageEntry) -> (Hash256, Seq<u8>) {
    (entry.block_hash, entry.key@)
}

/// The value that a storage change writes.
pub open spec fn value_of(entry: StorageEntry) -> Option<Seq<u8>> {
    match entry.value {
        Some(bytes) => Some(bytes@),
        None => None,
    }
}

/// The rows that a batch writes, each with the value that the batch writes
/// to it last.
pub open spec fn last_writes(batch: Seq<StorageEntry>) -> Map<(Hash256, Seq<u8>), Option<Seq<u8>>>
    decreases batch.len(),
{
    if batch.len() == 0 {
        Map::empty()
    } else {
        last_writes(batch.drop_last()).insert(row_of(batch.last()), value_of(batch.last()))
    }
}

impl StorageTable {
    /// The table after one storage change: the row of the block and key
    /// holds the value written, whatever it held.
    pub open spec fn write(self, entry: StorageEntry) -> StorageTable {
        StorageTable { rows: self.rows.insert(row_of(entry), value_of(entry)) }
    }

    /// The table after the changes of a batch, in their order.
    pub open spec fn write_all(self, batch: Seq<StorageEntry>) -> StorageTable
        decreases batch.len(),
    {
        if batch.len() == 0 {
            self
        } else {
            self.write_all(batch.drop_last()).write(batch.last())
        }
    }
}

impl DatabaseActor {
    /// Whether the actor still takes messages.
    pub closed spec fn is_alive(&self) -> bool {
        self.alive
    }

    /// The actor when it starts.
    pub fn new() -> (actor: Self)
        ensures
            actor.is_alive(),
    {
        DatabaseActor { alive: true }
    }

    /// Takes a message. While the actor lives it carries the message out;
    /// the message to die is its last. After that every message is turned
    /// away, since the mailbox is closed.
    pub fn handle(&mut self, message: DbMessage) -> (step: DbStep)
        ensures
            !old(self).is_alive() ==> {
                &&& step == DbStep::Refuse(ArchiveError::Disconnected)
                &&& !final(self).is_alive()
            },
            old(self).is_alive() && message is Die ==> {
                &&& step == DbStep::Shutdown
                &&& !final(self).is_alive()
            },
            old(self).is_alive() && !(message is Die) ==> {
                &&& step == DbStep::Execute(message)
                &&& final(self).is_alive()
            },
    {
        if !self.alive {
            DbStep::Refuse(ArchiveError::Disconnected)
        } else {
            match message {
                DbMessage::Die => {
                    self.alive = false;
                    DbStep::Shutdown
                },
                other => DbStep::Execute(other),
            }
        }
    }
}

/// A batch of storage changes leaves the table as it was, but for the rows
/// that the batch writes: those hold what the batch wrote to them last.
pub proof fn lemma_last_write_wins(table: StorageTable, batch: Seq<StorageEntry>)
    ensures
        table.write_all(batch).rows == table.rows.union_prefer_right(last_writes(batch)),
    decreases batch.len(),
{
    if batch.len() == 0 {
        assert(table.rows.union_prefer_right(last_writes(batch)) =~= table.rows);
    } else {
        lemma_last_write_wins(table, batch.drop_last());
        assert(table.write_all(batch).rows =~= table.rows.union_prefer_right(last_writes(batch)));
    }
}

/// The row of every change of a batch is among the rows that the batch
/// writes; the last change of the batch decides its own row.
pub proof fn lemma_batch_writes_its_rows(batch: Seq<StorageEntry>, i: int)
    requires
        0 <= i < batch.len(),
    ensures
        last_writes(batch).dom().contains(row_of(batch[i])),
        last_writes(batch)[row_of(batch.last())] == value_of(batch.last()),
    decreases batch.len(),
{
    if i < batch.len() - 1 {
        lemma_batch_writes_its_rows(batch.drop_last(), i);
    }
}

/// Storing the same batch twice is storing it once: where an execution is
/// repeated and gives the same changes, the rows stay as they are.
pub proof fn lemma_storage_is_idempotent(table: StorageTable, batch: Seq<StorageEntry>)
    ensures
        table.write_all(batch).write_all(batch) == table.write_all(batch),
{
    let once = table.write_all(batch);
    lemma_last_write_wins(table, batch);
    lemma_last_write_wins(once, batch);
    assert(once.write_all(batch).rows =~= once.rows);
}

} // verus!
