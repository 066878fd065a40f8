//! The metadata actor: it sees every block on its way to the database and
//! makes sure that the metadata of the block's runtime version is inserted
//! first.

use vstd::prelude::*;
use crate::number_set::NumberSet;
use crate::restore::{collect_numbers, numbers_of};
use crate::store::{Store, WriteAction};
use crate::types::Block;

verus! {

/// What the metadata actor does with a block.
#[derive(Debug, Clone, PartialEq, Eq)]
pub enum MetadataStep {
    /// The version of the block is known: hand the block on to the database.
    Forward(Block),
    /// The version is new: fetch its metadata, insert it, and only when the
    /// database has acknowledged that, hand the block on.
    InsertMetadata { version: u32, block: Block },
}

/// The actor's state: the runtime versions whose metadata the relational
/// store is known to hold.
pub struct MetadataActor {
    known: NumberSet,
}

/// What the actor does with `block` when it knows the versions of `known`.
pub open spec fn step_for(known: Set<u32>, block: Block) -> MetadataStep {
    if known.contains(block.spec_version) {
        MetadataStep::Forward(block)
    } else {
        MetadataStep::InsertMetadata { version: block.spec_version, block }
    }
}

/// The versions known, and the store, after the actor has handled `block`.
/// `acknowledged` says whether the database acknowledged the insert of the
/// metadata, where one was needed. Without the acknowledgement the block is
/// not handed on and the version stays unknown.
pub open spec fn handled(known: Set<u32>, store: Store, block: Block, acknowledged: bool) -> (
    Set<u32>,
    Store,
) {
    match step_for(known, block) {
        MetadataStep::Forward(block) => (known, store.apply(WriteAction::InsertBlock(block))),
        MetadataStep::InsertMetadata { version, block } => if acknowledged {
            (
                known.insert(version),
                store.apply(WriteAction::InsertMetadata { version }).apply(
                    WriteAction::InsertBlock(block),
                ),
            )
        } else {
            (known, store)
        },
    }
}

/// The versions known, and the store, after the actor has handled the blocks
/// of `blocks` in their order, with the acknowledgements of `acknowledged`.
pub open spec fn handled_all(
    known: Set<u32>,
    store: Store,
    blocks: Seq<Block>,
    acknowledged: Seq<bool>,
) -> (Set<u32>, Store)
    recommends
        blocks.len() == acknowledged.len(),
    decreases blocks.len(),
{
    if blocks.len() == 0 {
        (known, store)
    } else {
        let before = handled_all(known, store, blocks.drop_last(), acknowledged.drop_last());
        handled(before.0, before.1, blocks.last(), acknowledged.last())
    }
}

/// Whether the actor and the store agree: every version that the actor knows
/// has a metadata row, and every block row names a version that has one.
pub open spec fn metadata_precedes_blocks(known: Set<u32>, store: Store) -> bool {
    known.subset_of(store.versions) && store.rows_have_metadata()
}

impl MetadataActor {
    /// The versions that the actor knows.
    pub closed spec fn known(&self) -> Set<u32> {
        self.known@
    }

    /// The actor at startup, with the versions read from the relational
    /// store.
    pub fn new(versions: &Vec<u32>) -> (actor: Self)
        ensures
            actor.known() == numbers_of(versions@),
    {
        MetadataActor { known: collect_numbers(versions) }
    }

    /// Whether the metadata of `version` is known to be in the store.
    pub fn is_known(&self, version: u32) -> (known: bool)
        ensures
            known == self.known().contains(version),
    {
        self.known.contains(version)
    }

    /// Decides what to do with a block: hand it on where its version is
    /// known, insert the metadata first where it is not.
    pub fn on_block(&self, block: Block) -> (step: MetadataStep)
        ensures
            step == step_for(self.known(), block),
    {
        if self.known.contains(block.spec_version) {
            MetadataStep::Forward(block)
        } else {
            MetadataStep::InsertMetadata { version: block.spec_version, block }
        }
    }

    /// Takes note that the database has acknowledged the metadata of
    /// `version`: from now on the version is known.
    pub fn on_inserted(&mut self, version: u32)
        ensures
            final(self).known() == old(self).known().insert(version),
    {
        self.known.insert(version);
    }
}

/// The write of a block whose version has a metadata row keeps every block
/// row with its metadata.
proof fn lemma_block_with_metadata(store: Store, block: Block)
    requires
        store.rows_have_metadata(),
        store.versions.contains(block.spec_version),
    ensures
        store.apply(WriteAction::InsertBlock(block)).rows_have_metadata(),
        store.apply(WriteAction::InsertBlock(block)).versions == store.versions,
{
    let after = store.apply(WriteAction::InsertBlock(block));
    assert forall|key: (u32, crate::types::Hash256)| #[trigger]
        after.rows.dom().contains(key) implies after.versions.contains(after.rows[key]) by {
        if store.rows.dom().contains(key) {
            assert(store.versions.contains(store.rows[key]));
        }
    }
}

/// Whatever block the actor handles, and whether or not the database
/// acknowledges the metadata: where every block row had its metadata row
/// before, every block row has it after, and at the moment in between, when
/// only the metadata has been written. So no block is ever inserted before
/// the metadata of its version.
pub proof fn lemma_metadata_before_block(
    known: Set<u32>,
    store: Store,
    block: Block,
    acknowledged: bool,
)
    requires
        metadata_precedes_blocks(known, store),
    ensures
        metadata_precedes_blocks(
            handled(known, store, block, acknowledged).0,
            handled(known, store, block, acknowledged).1,
        ),
        store.apply(
            WriteAction::InsertMetadata { version: block.spec_version },
        ).rows_have_metadata(),
        handled(known, store, block, acknowledged).1.rows.dom().contains(
            (block.number, block.hash),
        ) ==> handled(known, store, block, acknowledged).1.versions.contains(
            handled(known, store, block, acknowledged).1.rows[(block.number, block.hash)],
        ),
{
    let with_metadata = store.apply(WriteAction::InsertMetadata { version: block.spec_version });
    assert(with_metadata.rows_have_metadata()) by {
        assert forall|key: (u32, crate::types::Hash256)| #[trigger]
            with_metadata.rows.dom().contains(key) implies with_metadata.versions.contains(
            with_metadata.rows[key],
        ) by {
            assert(store.versions.contains(store.rows[key]));
        }
    }
    if known.contains(block.spec_version) {
        lemma_block_with_metadata(store, block);
    } else if acknowledged {
        lemma_block_with_metadata(with_metadata, block);
    }
}

/// The same of any number of blocks: however many blocks the actor handles,
/// with whatever acknowledgements, every block row has its metadata row.
pub proof fn lemma_metadata_before_blocks(
    known: Set<u32>,
    store: Store,
    blocks: Seq<Block>,
    acknowledged: Seq<bool>,
)
    requires
        metadata_precedes_blocks(known, store),
        blocks.len() == acknowledged.len(),
    ensures
        metadata_precedes_blocks(
            handled_all(known, store, blocks, acknowledged).0,
            handled_all(known, store, blocks, acknowledged).1,
        ),
    decreases blocks.len(),
{
    if blocks.len() > 0 {
        lemma_metadata_before_blocks(known, store, blocks.drop_last(), acknowledged.drop_last());
        let before = handled_all(known, store, blocks.drop_last(), acknowledged.drop_last());
        lemma_metadata_before_block(before.0, before.1, blocks.last(), acknowledged.last());
    }
}

} // verus!
