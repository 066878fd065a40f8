//! What the relational store holds, as a mathematical model, and the writes
//! that the indexer asks of it. The store itself is outside this library;
//! the model says what its inserts promise, so that the order in which the
//! indexer issues them can be reasoned about.

use vstd::prelude::*;
use crate::types::{Block, Hash256};

verus! {

/// A write that the indexer asks of the relational store.
#[derive(Debug, Clone, PartialEq, Eq)]
pub enum WriteAction {
    /// Insert the metadata of a runtime version.
    InsertMetadata { version: u32 },
    /// Insert a block.
    InsertBlock(Block),
    /// Enqueue the job that executes a block.
    Enqueue { number: u32, hash: Hash256 },
}

/// The rows of the relational store that the indexer's writes touch.
pub struct Store {
    /// The runtime versions that have a metadata row.
    pub versions: Set<u32>,
    /// The block rows, each found by its number and hash, with the runtime
    /// version that the block names.
    pub rows: Map<(u32, Hash256), u32>,
    /// The hashes of the blocks for which a job was enqueued.
    pub queue: Set<Hash256>,
}

impl Store {
    /// The store before anything was written.
    pub open spec fn empty() -> Store {
        Store { versions: Set::empty(), rows: Map::empty(), queue: Set::empty() }
    }

    /// The store after one write. Each insert is idempotent: metadata on its
    /// version, a block on its number and hash, a job on the hash of its
    /// block. A write that finds its row present changes nothing.
    pub open spec fn apply(self, action: WriteAction) -> Store {
        match action {
            WriteAction::InsertMetadata { version } => Store {
                versions: self.versions.insert(version),
                ..self
            },
            WriteAction::InsertBlock(block) => if self.rows.dom().contains(
                (block.number, block.hash),
            ) {
                self
            } else {
                Store {
                    rows: self.rows.insert((block.number, block.hash), block.spec_version),
                    ..self
                }
            },
            WriteAction::Enqueue { number, hash } => Store {
                queue: self.queue.insert(hash),
                ..self
            },
        }
    }

    /// The store after the writes of `actions`, in their order.
    pub open spec fn apply_all(self, actions: Seq<WriteAction>) -> Store
        decreases actions.len(),
    {
        if actions.len() == 0 {
            self
        } else {
            self.apply_all(actions.drop_last()).apply(actions.last())
        }
    }

    /// Whether every block row names a runtime version that has a metadata
    /// row.
    pub open spec fn rows_have_metadata(self) -> bool {
        forall|key: (u32, Hash256)| #[trigger]
            self.rows.dom().contains(key) ==> self.versions.contains(self.rows[key])
    }

    /// Whether some block row stands at height `number`.
    pub open spec fn has_row_at(self, number: u32) -> bool {
        exists|hash: Hash256| self.rows.dom().contains((number, hash))
    }

    /// Whether the store holds everything that `other` holds.
    pub open spec fn includes(self, other: Store) -> bool {
        &&& other.versions.subset_of(self.versions)
        &&& other.rows.dom().subset_of(self.rows.dom())
        &&& other.queue.subset_of(self.queue)
    }

    /// Whether `action` finds its row present, so that it changes nothing.
    pub open spec fn absorbs(self, action: WriteAction) -> bool {
        match action {
            WriteAction::InsertMetadata { version } => self.versions.contains(version),
            WriteAction::InsertBlock(block) => self.rows.dom().contains(
                (block.number, block.hash),
            ),
            WriteAction::Enqueue { number, hash } => self.queue.contains(hash),
        }
    }
}

/// A write never removes anything, and what it writes is there afterwards.
pub proof fn lemma_apply_grows(store: Store, action: WriteAction)
    ensures
        store.apply(action).includes(store),
        store.apply(action).absorbs(action),
{
}

/// A write that finds its row present leaves the store as it was.
pub proof fn lemma_absorbed_write_is_noop(store: Store, action: WriteAction)
    requires
        store.absorbs(action),
    ensures
        store.apply(action) == store,
{
    match action {
        WriteAction::InsertMetadata { version } => {
            assert(store.versions.insert(version) =~= store.versions);
        },
        WriteAction::InsertBlock(block) => {},
        WriteAction::Enqueue { number, hash } => {
            assert(store.queue.insert(hash) =~= store.queue);
        },
    }
}

/// Writes only add: after any sequence of writes the store holds what it
/// held, and every one of the writes finds its row present.
pub proof fn lemma_apply_all_grows(store: Store, actions: Seq<WriteAction>)
    ensures
        store.apply_all(actions).includes(store),
        forall|i: int|
            0 <= i < actions.len() ==> store.apply_all(actions).absorbs(#[trigger] actions[i]),
    decreases actions.len(),
{
    if actions.len() > 0 {
        let before = store.apply_all(actions.drop_last());
        lemma_apply_all_grows(store, actions.drop_last());
        lemma_apply_grows(before, actions.last());
        assert forall|i: int| 0 <= i < actions.len() implies store.apply_all(actions).absorbs(
            #[trigger] actions[i],
        ) by {
            if i < actions.len() - 1 {
                assert(actions.drop_last()[i] == actions[i]);
                assert(before.absorbs(actions[i]));
            }
        }
    }
}

/// Writes that all find their rows present leave the store as it was.
pub proof fn lemma_absorbed_writes_are_noop(store: Store, actions: Seq<WriteAction>)
    requires
        forall|i: int| 0 <= i < actions.len() ==> store.absorbs(#[trigger] actions[i]),
    ensures
        store.apply_all(actions) == store,
    decreases actions.len(),
{
    if actions.len() > 0 {
        assert forall|i: int| 0 <= i < actions.drop_last().len() implies store.absorbs(
            #[trigger] actions.drop_last()[i],
        ) by {
            assert(actions.drop_last()[i] == actions[i]);
        }
        lemma_absorbed_writes_are_noop(store, actions.drop_last());
        lemma_absorbed_write_is_noop(store, actions.last());
    }
}

/// Indexing is idempotent on the store: issuing the same writes a second
/// time, as a run against an unchanged chain does, changes no row.
pub proof fn lemma_rerun_changes_nothing(store: Store, actions: Seq<WriteAction>)
    ensures
        store.apply_all(actions).apply_all(actions) == store.apply_all(actions),
{
    lemma_apply_all_grows(store, actions);
    lemma_absorbed_writes_are_noop(store.apply_all(actions), actions);
}

/// The queue holds one job for a block however often it is enqueued: a
/// second notification of the same block adds nothing.
pub proof fn lemma_enqueue_is_idempotent(store: Store, number: u32, hash: Hash256)
    ensures
        store.apply(WriteAction::Enqueue { number, hash }).apply(
            WriteAction::Enqueue { number, hash },
        ) == store.apply(WriteAction::Enqueue { number, hash }),
        store.apply(WriteAction::Enqueue { number, hash }).queue.contains(hash),
{
    let once = store.apply(WriteAction::Enqueue { number, hash });
    lemma_absorbed_write_is_noop(once, WriteAction::Enqueue { number, hash });
}

} // verus!
