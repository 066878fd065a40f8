//! The block indexer: it scans the chain backend in windows, remembers the
//! heights that it has handed on, and hands on each block once.

use vstd::prelude::*;
use crate::number_set::NumberSet;
use crate::store::{Store, WriteAction};
use crate::types::Block;

verus! {

/// A range of heights, both ends included.
#[derive(Debug, PartialEq, Eq, Structural, Clone, Copy)]
pub struct Window {
    pub first: u32,
    pub last: u32,
}

/// The indexer's state: the heights observed in this run, the greatest of
/// them, the number of blocks loaded at once, and the blocks that were
/// handed on but could not be inserted, kept for the next tick.
pub struct BlocksIndexer {
    seen: NumberSet,
    last_max: u32,
    max_block_load: u32,
    pending: Vec<Block>,
}

/// The heights of the blocks of `found`.
pub open spec fn heights_of(found: Seq<Block>) -> Set<u32>
    decreases found.len(),
{
    if found.len() == 0 {
        Set::empty()
    } else {
        heights_of(found.drop_last()).insert(found.last().number)
    }
}

/// The greatest of `floor` and the heights of the blocks of `found`.
pub open spec fn highest_of(found: Seq<Block>, floor: u32) -> u32
    decreases found.len(),
{
    if found.len() == 0 {
        floor
    } else if found.last().number > highest_of(found.drop_last(), floor) {
        found.last().number
    } else {
        highest_of(found.drop_last(), floor)
    }
}

/// The blocks of `found`, in their order, whose height is neither in `seen`
/// nor that of a block earlier in `found`.
pub open spec fn unseen_of(found: Seq<Block>, seen: Set<u32>) -> Seq<Block>
    decreases found.len(),
{
    if found.len() == 0 {
        Seq::empty()
    } else if seen.contains(found.last().number) || heights_of(found.drop_last()).contains(
        found.last().number,
    ) {
        unseen_of(found.drop_last(), seen)
    } else {
        unseen_of(found.drop_last(), seen).push(found.last())
    }
}

/// The window that begins at `first` in a scan up to `latest`, with at most
/// `load` heights: none where the scan is over or a window holds nothing.
pub open spec fn window_from(first: u32, latest: u32, load: u32) -> Option<Window> {
    if first > latest || load == 0 {
        None
    } else if latest - first < load {
        Some(Window { first, last: latest })
    } else {
        Some(Window { first, last: (first + load - 1) as u32 })
    }
}

/// The windows of a scan from `first` up to `latest`, in their order.
pub open spec fn windows_from(first: u32, latest: u32, load: u32) -> Seq<Window>
    decreases latest - first + 1,
{
    match window_from(first, latest, load) {
        None => Seq::empty(),
        Some(window) => if window.last >= latest {
            seq![window]
        } else {
            seq![window] + windows_from((window.last + 1) as u32, latest, load)
        },
    }
}

/// The writes that index the blocks of `blocks`: for each block in its turn
/// the insert of the block, then the job that executes it.
pub open spec fn block_writes(blocks: Seq<Block>) -> Seq<WriteAction>
    decreases blocks.len(),
{
    if blocks.len() == 0 {
        Seq::empty()
    } else {
        block_writes(blocks.drop_last()).push(WriteAction::InsertBlock(blocks.last())).push(
            WriteAction::Enqueue { number: blocks.last().number, hash: blocks.last().hash },
        )
    }
}

/// Returns the writes that index the blocks handed on by a crawl, once the
/// metadata of their versions is in the store: for each block in its turn
/// the insert of the block, then the job that executes it.
pub fn writes_for(fresh: Vec<Block>) -> (writes: Vec<WriteAction>)
    ensures
        writes@ == block_writes(fresh@),
{
    let ghost all = fresh@;
    let mut writes: Vec<WriteAction> = Vec::new();
    for block in it: fresh
        invariant
            it.seq() == all,
            writes@ == block_writes(all.take(it.index() as int)),
    {
        proof {
            let k = it.index() as int;
            assert(all.take(k + 1).drop_last() == all.take(k));
            assert(all.take(k + 1).last() == block);
        }
        let job = WriteAction::Enqueue { number: block.number, hash: block.hash };
        writes.push(WriteAction::InsertBlock(block));
        writes.push(job);
    }
    proof {
        assert(all.take(all.len() as int) == all);
    }
    writes
}

/// Returns the window that begins at `first` in a scan up to `latest`, with
/// at most `load` heights, or nothing where `first` lies beyond `latest` or
/// `load` is zero.
pub fn next_window(first: u32, latest: u32, load: u32) -> (window: Option<Window>)
    ensures
        window == window_from(first, latest, load),
{
    if first > latest || load == 0 {
        None
    } else if latest - first < load {
        Some(Window { first, last: latest })
    } else {
        Some(Window { first, last: first + (load - 1) })
    }
}

/// Returns the height at which the window after `window` begins, in a scan
/// up to `latest`, or nothing where `window` is the last. With it the windows
/// of a scan are taken one after the other: the windows from the first
/// height of `window` on are `window`, then the windows from the height
/// returned on.
pub fn next_first(window: Window, latest: u32) -> (next: Option<u32>)
    ensures
        window.last < latest ==> next == Some((window.last + 1) as u32),
        window.last >= latest ==> next is None,
        forall|first: u32, load: u32|
            window_from(first, latest, load) == Some(window) ==> #[trigger] windows_from(
                first,
                latest,
                load,
            ) == seq![window] + match next {
                Some(following) => windows_from(following, latest, load),
                None => Seq::empty(),
            },
{
    if window.last < latest {
        Some(window.last + 1)
    } else {
        None
    }
}

impl BlocksIndexer {
    /// The heights observed in this run.
    pub closed spec fn seen(&self) -> Set<u32> {
        self.seen@
    }

    /// The greatest height observed, zero before any.
    pub closed spec fn spec_last_max(&self) -> u32 {
        self.last_max
    }

    /// The number of blocks loaded at once.
    pub closed spec fn spec_max_block_load(&self) -> u32 {
        self.max_block_load
    }

    /// The blocks kept for the next tick, in the order in which they were
    /// kept.
    pub closed spec fn pending(&self) -> Seq<Block> {
        self.pending@
    }

    /// The indexer at startup: nothing observed, nothing kept.
    pub fn new(max_block_load: u32) -> (indexer: Self)
        ensures
            indexer.seen() == Set::<u32>::empty(),
            indexer.spec_last_max() == 0,
            indexer.spec_max_block_load() == max_block_load,
            indexer.pending() == Seq::<Block>::empty(),
    {
        BlocksIndexer { seen: NumberSet::new(), last_max: 0, max_block_load, pending: Vec::new() }
    }

    /// The greatest height observed, zero before any.
    pub fn last_max(&self) -> (height: u32)
        ensures
            height == self.spec_last_max(),
    {
        self.last_max
    }

    /// Whether a block at `height` was observed in this run.
    pub fn has_seen(&self, height: u32) -> (seen: bool)
        ensures
            seen == self.seen().contains(height),
    {
        self.seen.contains(height)
    }

    /// The window of the bulk scan that begins at `first`, in a scan up to
    /// `latest`.
    pub fn reindex_window(&self, first: u32, latest: u32) -> (window: Option<Window>)
        ensures
            window == window_from(first, latest, self.spec_max_block_load()),
    {
        next_window(first, latest, self.max_block_load)
    }

    /// The heights that a crawl asks the backend for, when the chain has
    /// grown to `latest`: those beyond the greatest height observed, or none
    /// where there is no such height.
    pub fn crawl_window(&self, latest: u32) -> (window: Option<Window>)
        ensures
            self.spec_last_max() < latest ==> window == Some(
                Window { first: (self.spec_last_max() + 1) as u32, last: latest },
            ),
            self.spec_last_max() >= latest ==> window is None,
    {
        if self.last_max < latest {
            Some(Window { first: self.last_max + 1, last: latest })
        } else {
            None
        }
    }

    /// The number of blocks kept for the next tick.
    pub fn pending_len(&self) -> (len: usize)
        ensures
            len == self.pending().len(),
    {
        self.pending.len()
    }

    /// Keeps a block that was handed on but could not be inserted: the next
    /// crawl hands it on again. What was observed stays as it is.
    pub fn keep(&mut self, block: Block)
        ensures
            final(self).pending() == old(self).pending().push(block),
            final(self).seen() == old(self).seen(),
            final(self).spec_last_max() == old(self).spec_last_max(),
            final(self).spec_max_block_load() == old(self).spec_max_block_load(),
    {
        self.pending.push(block);
    }

    /// Takes the blocks that the backend holds, in the order in which it
    /// gave them, and returns those to hand on: first the blocks kept from
    /// before, then the blocks whose height was not observed before, each
    /// height once. All heights given count as observed afterwards, and
    /// nothing is kept any more.
    pub fn crawl(&mut self, found: Vec<Block>) -> (fresh: Vec<Block>)
        ensures
            fresh@ == old(self).pending() + unseen_of(found@, old(self).seen()),
            final(self).pending() == Seq::<Block>::empty(),
            final(self).seen() == old(self).seen().union(heights_of(found@)),
            final(self).spec_last_max() == highest_of(found@, old(self).spec_last_max()),
            final(self).spec_max_block_load() == old(self).spec_max_block_load(),
    {
        let ghost all = found@;
        let ghost seen_before = self.seen@;
        let ghost max_before = self.last_max;
        let ghost kept = self.pending@;
        let mut fresh: Vec<Block> = Vec::new();
        fresh.append(&mut self.pending);
        assert(fresh@ =~= kept + unseen_of(all.take(0), seen_before));
        assert(seen_before.union(heights_of(all.take(0))) =~= seen_before);
        for block in it: found
            invariant
                it.seq() == all,
                self.max_block_load == old(self).max_block_load,
                self.pending@ == Seq::<Block>::empty(),
                self.seen@ == seen_before.union(heights_of(all.take(it.index() as int))),
                self.last_max == highest_of(all.take(it.index() as int), max_before),
                fresh@ == kept + unseen_of(all.take(it.index() as int), seen_before),
        {
            let ghost k = it.index() as int;
            proof {
                assert(all.take(k + 1).drop_last() == all.take(k));
                assert(all.take(k + 1).last() == block);
            }
            let number: u32 = block.number;
            let is_new = self.seen.insert(number);
            proof {
                assert(seen_before.union(heights_of(all.take(k))).insert(number)
                    =~= seen_before.union(heights_of(all.take(k + 1))));
                assert((kept + unseen_of(all.take(k), seen_before)).push(block) =~= kept
                    + unseen_of(all.take(k), seen_before).push(block));
            }
            if number > self.last_max {
                self.last_max = number;
            }
            if is_new {
                fresh.push(block);
            }
        }
        proof {
            assert(all.take(all.len() as int) == all);
        }
        fresh
    }
}

/// A block of `found` has its height among the heights of `found`.
pub proof fn lemma_heights_hold(found: Seq<Block>, i: int)
    requires
        0 <= i < found.len(),
    ensures
        heights_of(found).contains(found[i].number),
    decreases found.len(),
{
    if i < found.len() - 1 {
        lemma_heights_hold(found.drop_last(), i);
    }
}

/// Every height of `found` is the height of one of its blocks.
pub proof fn lemma_heights_come_from_blocks(found: Seq<Block>, height: u32)
    requires
        heights_of(found).contains(height),
    ensures
        exists|i: int| 0 <= i < found.len() && (#[trigger] found[i]).number == height,
    decreases found.len(),
{
    if found.len() > 0 {
        if found.last().number == height {
            assert(found[found.len() - 1].number == height);
        } else {
            lemma_heights_come_from_blocks(found.drop_last(), height);
            let i = choose|i: int|
                0 <= i < found.drop_last().len() && (#[trigger] found.drop_last()[i]).number
                    == height;
            assert(found[i].number == height);
        }
    }
}

/// The blocks handed on carry exactly the heights that were found and not
/// observed before.
pub proof fn lemma_unseen_heights(found: Seq<Block>, seen: Set<u32>)
    ensures
        heights_of(unseen_of(found, seen)) == heights_of(found).difference(seen),
    decreases found.len(),
{
    if found.len() == 0 {
        assert(heights_of(found).difference(seen) =~= Set::<u32>::empty());
    } else {
        lemma_unseen_heights(found.drop_last(), seen);
        let rest = unseen_of(found.drop_last(), seen);
        let last = found.last();
        if seen.contains(last.number) || heights_of(found.drop_last()).contains(last.number) {
            assert(heights_of(found).difference(seen) =~= heights_of(found.drop_last()).difference(
                seen,
            ));
        } else {
            assert(rest.push(last).drop_last() == rest);
            assert(heights_of(found).difference(seen) =~= heights_of(
                found.drop_last(),
            ).difference(seen).insert(last.number));
        }
    }
}

/// No height is skipped: where the backend gave a block at every height from
/// `low` to `high`, each of those heights was observed before or is the
/// height of a block handed on.
pub proof fn lemma_no_height_is_skipped(found: Seq<Block>, seen: Set<u32>, low: u32, high: u32)
    requires
        forall|height: u32| low <= height <= high ==> heights_of(found).contains(height),
    ensures
        forall|height: u32|
            low <= height <= high ==> seen.contains(height) || heights_of(
                unseen_of(found, seen),
            ).contains(height),
{
    lemma_unseen_heights(found, seen);
}

/// After the writes that index some blocks, each of them has its row, and a
/// job for it was enqueued; and what the store held it still holds.
pub proof fn lemma_indexed_blocks_have_rows(store: Store, blocks: Seq<Block>, i: int)
    requires
        0 <= i < blocks.len(),
    ensures
        store.apply_all(block_writes(blocks)).rows.dom().contains(
            (blocks[i].number, blocks[i].hash),
        ),
        store.apply_all(block_writes(blocks)).has_row_at(blocks[i].number),
        store.apply_all(block_writes(blocks)).queue.contains(blocks[i].hash),
        store.apply_all(block_writes(blocks)).includes(store),
    decreases blocks.len(),
{
    let front = block_writes(blocks.drop_last());
    let insert = WriteAction::InsertBlock(blocks.last());
    let job = WriteAction::Enqueue { number: blocks.last().number, hash: blocks.last().hash };
    let writes = block_writes(blocks);
    let middle = front.push(insert);
    let before = store.apply_all(front);
    assert(store.apply_all(middle) == before.apply(insert)) by {
        assert(middle.drop_last() == front);
        assert(middle.last() == insert);
    }
    assert(store.apply_all(writes) == before.apply(insert).apply(job)) by {
        assert(writes == middle.push(job));
        assert(writes.drop_last() == middle);
        assert(writes.last() == job);
    }
    crate::store::lemma_apply_all_grows(store, front);
    if i < blocks.len() - 1 {
        lemma_indexed_blocks_have_rows(store, blocks.drop_last(), i);
        assert(blocks.drop_last()[i] == blocks[i]);
    }
    let after = store.apply_all(writes);
    assert(after.rows.dom().contains((blocks[i].number, blocks[i].hash)));
    assert(after.has_row_at(blocks[i].number)) by {
        let hash = blocks[i].hash;
        assert(after.rows.dom().contains((blocks[i].number, hash)));
    }
}

/// No height is left without a row: where every height observed before has
/// a row, and the backend gave a block at every height from `low` to `high`,
/// then after the writes that index the blocks handed on each of those
/// heights has a block row, and each block handed on has its job.
pub proof fn lemma_indexed_heights_have_rows(
    store: Store,
    found: Seq<Block>,
    seen: Set<u32>,
    low: u32,
    high: u32,
)
    requires
        forall|height: u32| seen.contains(height) ==> store.has_row_at(height),
        forall|height: u32| low <= height <= high ==> heights_of(found).contains(height),
    ensures
        forall|height: u32|
            low <= height <= high ==> store.apply_all(
                block_writes(unseen_of(found, seen)),
            ).has_row_at(height),
        forall|i: int|
            0 <= i < unseen_of(found, seen).len() ==> store.apply_all(
                block_writes(unseen_of(found, seen)),
            ).queue.contains((#[trigger] unseen_of(found, seen)[i]).hash),
{
    let fresh = unseen_of(found, seen);
    let after = store.apply_all(block_writes(fresh));
    lemma_unseen_heights(found, seen);
    crate::store::lemma_apply_all_grows(store, block_writes(fresh));
    assert forall|height: u32| low <= height <= high implies after.has_row_at(height) by {
        if seen.contains(height) {
            let hash = choose|hash: crate::types::Hash256|
                store.rows.dom().contains((height, hash));
            assert(after.rows.dom().contains((height, hash)));
        } else {
            assert(heights_of(fresh).contains(height));
            lemma_heights_come_from_blocks(fresh, height);
            let i = choose|i: int| 0 <= i < fresh.len() && (#[trigger] fresh[i]).number == height;
            lemma_indexed_blocks_have_rows(store, fresh, i);
        }
    }
    assert forall|i: int| 0 <= i < fresh.len() implies after.queue.contains(
        (#[trigger] fresh[i]).hash,
    ) by {
        lemma_indexed_blocks_have_rows(store, fresh, i);
    }
}

/// A second crawl over the same blocks hands on nothing: against a chain
/// that has not changed, indexing again is no work.
pub proof fn lemma_second_crawl_finds_nothing(found: Seq<Block>, seen: Set<u32>)
    ensures
        unseen_of(found, seen.union(heights_of(found))) == Seq::<Block>::empty(),
    decreases found.len(),
{
    if found.len() > 0 {
        lemma_blocks_of_seen_heights(found.drop_last(), seen.union(heights_of(found)));
    }
}

/// Blocks whose heights were all observed are not handed on.
pub proof fn lemma_blocks_of_seen_heights(found: Seq<Block>, seen: Set<u32>)
    requires
        heights_of(found).subset_of(seen),
    ensures
        unseen_of(found, seen) == Seq::<Block>::empty(),
    decreases found.len(),
{
    if found.len() > 0 {
        assert(heights_of(found).contains(found.last().number));
        lemma_blocks_of_seen_heights(found.drop_last(), seen);
    }
}

/// The blocks handed on stand in the order in which they were found: where
/// the heights found ascend, so do the heights handed on.
pub proof fn lemma_crawl_keeps_order(found: Seq<Block>, seen: Set<u32>)
    requires
        forall|i: int, j: int|
            0 <= i < j < found.len() ==> (#[trigger] found[i]).number < (#[trigger] found[j]).number,
    ensures
        forall|i: int, j: int|
            0 <= i < j < unseen_of(found, seen).len() ==> (#[trigger] unseen_of(
                found,
                seen,
            )[i]).number < (#[trigger] unseen_of(found, seen)[j]).number,
        forall|i: int|
            0 <= i < unseen_of(found, seen).len() ==> heights_of(found).contains(
                (#[trigger] unseen_of(found, seen)[i]).number,
            ),
    decreases found.len(),
{
    if found.len() > 0 {
        let front = found.drop_last();
        assert forall|i: int, j: int| 0 <= i < j < front.len() implies (#[trigger] front[i]).number
            < (#[trigger] front[j]).number by {
            assert(front[i] == found[i] && front[j] == found[j]);
        }
        lemma_crawl_keeps_order(front, seen);
        let rest = unseen_of(front, seen);
        let fresh = unseen_of(found, seen);
        assert forall|i: int| 0 <= i < rest.len() implies (#[trigger] rest[i]).number
            < found.last().number by {
            lemma_heights_come_from_blocks(front, rest[i].number);
            let k = choose|k: int| 0 <= k < front.len() && (#[trigger] front[k]).number
                == rest[i].number;
            assert(front[k] == found[k]);
            assert(found[k].number < found[found.len() - 1].number);
        }
        assert forall|i: int| 0 <= i < fresh.len() implies heights_of(found).contains(
            (#[trigger] fresh[i]).number,
        ) by {
            if i < rest.len() {
                assert(fresh[i] == rest[i]);
            }
        }
    }
}

/// A window begins where it was asked to begin, ends within the scan, and
/// holds at least one height and at most `load`.
pub proof fn lemma_window_bounds(first: u32, latest: u32, load: u32)
    requires
        first <= latest,
        load >= 1,
    ensures
        window_from(first, latest, load) is Some,
        window_from(first, latest, load)->Some_0.first == first,
        first <= window_from(first, latest, load)->Some_0.last <= latest,
        window_from(first, latest, load)->Some_0.last - first < load,
{
}

/// The windows of a scan leave out no height: every height from `first` to
/// `latest` lies in one of them.
pub proof fn lemma_windows_cover(first: u32, latest: u32, load: u32, height: u32)
    requires
        first <= height <= latest,
        load >= 1,
    ensures
        exists|i: int|
            0 <= i < windows_from(first, latest, load).len() && (#[trigger] windows_from(
                first,
                latest,
                load,
            )[i]).first <= height <= windows_from(first, latest, load)[i].last,
    decreases latest - first + 1,
{
    lemma_window_bounds(first, latest, load);
    let window = window_from(first, latest, load)->Some_0;
    let all = windows_from(first, latest, load);
    if height <= window.last {
        assert(all[0] == window);
    } else {
        let next = (window.last + 1) as u32;
        lemma_windows_cover(next, latest, load, height);
        let rest = windows_from(next, latest, load);
        let i = choose|i: int|
            0 <= i < rest.len() && (#[trigger] rest[i]).first <= height <= rest[i].last;
        assert(all == seq![window] + rest);
        assert(all[i + 1] == rest[i]);
    }
}

/// The blocks of `handed` whose insert succeeded, in their order;
/// `succeeded` says of each block handed on whether it did.
pub open spec fn inserted_of(handed: Seq<Block>, succeeded: Seq<bool>) -> Seq<Block>
    recommends
        handed.len() == succeeded.len(),
    decreases handed.len(),
{
    if handed.len() == 0 {
        Seq::empty()
    } else if succeeded.last() {
        inserted_of(handed.drop_last(), succeeded.drop_last()).push(handed.last())
    } else {
        inserted_of(handed.drop_last(), succeeded.drop_last())
    }
}

/// The blocks of `handed` whose insert failed, in their order: those that
/// the indexer keeps for the next tick.
pub open spec fn kept_of(handed: Seq<Block>, succeeded: Seq<bool>) -> Seq<Block>
    recommends
        handed.len() == succeeded.len(),
    decreases handed.len(),
{
    if handed.len() == 0 {
        Seq::empty()
    } else if succeeded.last() {
        kept_of(handed.drop_last(), succeeded.drop_last())
    } else {
        kept_of(handed.drop_last(), succeeded.drop_last()).push(handed.last())
    }
}

/// Whether every height observed has a block row, or a block at that height
/// is kept to be inserted at the next tick.
pub open spec fn heights_are_covered(seen: Set<u32>, store: Store, pending: Seq<Block>) -> bool {
    forall|height: u32|
        seen.contains(height) ==> store.has_row_at(height) || heights_of(pending).contains(height)
}

/// The heights of two runs of blocks, one after the other, are the heights
/// of both.
pub proof fn lemma_heights_of_both(first: Seq<Block>, second: Seq<Block>)
    ensures
        heights_of(first + second) == heights_of(first).union(heights_of(second)),
    decreases second.len(),
{
    if second.len() == 0 {
        assert(first + second =~= first);
        assert(heights_of(first).union(heights_of(second)) =~= heights_of(first));
    } else {
        lemma_heights_of_both(first, second.drop_last());
        assert((first + second).drop_last() =~= first + second.drop_last());
        assert((first + second).last() == second.last());
        assert(heights_of(first + second) =~= heights_of(first).union(heights_of(second)));
    }
}

/// Every block handed on is inserted or kept: the heights handed on are
/// those inserted and those kept.
pub proof fn lemma_inserted_or_kept(handed: Seq<Block>, succeeded: Seq<bool>)
    requires
        handed.len() == succeeded.len(),
    ensures
        heights_of(handed) == heights_of(inserted_of(handed, succeeded)).union(
            heights_of(kept_of(handed, succeeded)),
        ),
    decreases handed.len(),
{
    let inserted = inserted_of(handed, succeeded);
    let kept = kept_of(handed, succeeded);
    if handed.len() == 0 {
        assert(heights_of(handed) =~= heights_of(inserted).union(heights_of(kept)));
    } else {
        lemma_inserted_or_kept(handed.drop_last(), succeeded.drop_last());
        let front_inserted = inserted_of(handed.drop_last(), succeeded.drop_last());
        let front_kept = kept_of(handed.drop_last(), succeeded.drop_last());
        if succeeded.last() {
            assert(inserted.drop_last() == front_inserted);
        } else {
            assert(kept.drop_last() == front_kept);
        }
        assert(heights_of(handed) =~= heights_of(inserted).union(heights_of(kept)));
    }
}

/// A row that the store has it keeps through any writes.
pub proof fn lemma_rows_stay(store: Store, writes: Seq<WriteAction>, height: u32)
    requires
        store.has_row_at(height),
    ensures
        store.apply_all(writes).has_row_at(height),
{
    crate::store::lemma_apply_all_grows(store, writes);
    let hash = choose|hash: crate::types::Hash256| store.rows.dom().contains((height, hash));
    assert(store.apply_all(writes).rows.dom().contains((height, hash)));
}

/// A tick leaves no height behind, whatever fails. Where every height
/// observed has a row or a block kept for it, the same holds after a crawl
/// in which each block handed on was either inserted, with its job, or kept
/// because the insert failed: every height observed before, and every height
/// that the backend gave, has a row or a block kept for the next tick.
pub proof fn lemma_tick_covers_heights(
    seen: Set<u32>,
    store: Store,
    pending: Seq<Block>,
    found: Seq<Block>,
    succeeded: Seq<bool>,
)
    requires
        heights_are_covered(seen, store, pending),
        succeeded.len() == (pending + unseen_of(found, seen)).len(),
    ensures
        heights_are_covered(
            seen.union(heights_of(found)),
            store.apply_all(
                block_writes(inserted_of(pending + unseen_of(found, seen), succeeded)),
            ),
            kept_of(pending + unseen_of(found, seen), succeeded),
        ),
{
    let handed = pending + unseen_of(found, seen);
    let inserted = inserted_of(handed, succeeded);
    let kept = kept_of(handed, succeeded);
    let writes = block_writes(inserted);
    let after = store.apply_all(writes);
    lemma_heights_of_both(pending, unseen_of(found, seen));
    lemma_unseen_heights(found, seen);
    lemma_inserted_or_kept(handed, succeeded);
    assert forall|height: u32| seen.union(heights_of(found)).contains(height) implies (
    after.has_row_at(height) || heights_of(kept).contains(height)) by {
        if seen.contains(height) && store.has_row_at(height) {
            lemma_rows_stay(store, writes, height);
        } else {
            assert(heights_of(handed).contains(height));
            if heights_of(inserted).contains(height) {
                lemma_heights_come_from_blocks(inserted, height);
                let i = choose|i: int|
                    0 <= i < inserted.len() && (#[trigger] inserted[i]).number == height;
                lemma_indexed_blocks_have_rows(store, inserted, i);
            }
        }
    }
}

/// At startup nothing is observed, so every height observed is covered.
pub proof fn lemma_nothing_to_cover(store: Store)
    ensures
        heights_are_covered(Set::<u32>::empty(), store, Seq::<Block>::empty()),
{
}

/// What indexing has come to: the heights observed, the rows and jobs of the
/// store, and the blocks kept for the next tick.
pub struct Indexed {
    pub seen: Set<u32>,
    pub store: Store,
    pub pending: Seq<Block>,
}

impl Indexed {
    /// Indexing at startup, over a store as it is found: nothing observed,
    /// nothing kept.
    pub open spec fn start(store: Store) -> Indexed {
        Indexed { seen: Set::empty(), store, pending: Seq::empty() }
    }

    /// The blocks that a crawl hands on when the backend gives `found`.
    pub open spec fn handed(self, found: Seq<Block>) -> Seq<Block> {
        self.pending + unseen_of(found, self.seen)
    }

    /// Whether `succeeded` says of each block handed on whether its insert
    /// succeeded.
    pub open spec fn fits(self, found: Seq<Block>, succeeded: Seq<bool>) -> bool {
        succeeded.len() == self.handed(found).len()
    }

    /// Indexing after one tick: the backend gave `found`, and of the blocks
    /// handed on those that `succeeded` names were inserted, with their jobs,
    /// and the others kept.
    pub open spec fn tick(self, found: Seq<Block>, succeeded: Seq<bool>) -> Indexed {
        Indexed {
            seen: self.seen.union(heights_of(found)),
            store: self.store.apply_all(block_writes(inserted_of(self.handed(found), succeeded))),
            pending: kept_of(self.handed(found), succeeded),
        }
    }

    /// Indexing after the ticks of `rounds`, in their order.
    pub open spec fn ticks(self, rounds: Seq<(Seq<Block>, Seq<bool>)>) -> Indexed
        decreases rounds.len(),
    {
        if rounds.len() == 0 {
            self
        } else {
            self.ticks(rounds.drop_last()).tick(rounds.last().0, rounds.last().1)
        }
    }

    /// Whether in each tick of `rounds` the outcomes fit the blocks handed
    /// on.
    pub open spec fn all_fit(self, rounds: Seq<(Seq<Block>, Seq<bool>)>) -> bool
        decreases rounds.len(),
    {
        if rounds.len() == 0 {
            true
        } else {
            self.all_fit(rounds.drop_last()) && self.ticks(rounds.drop_last()).fits(
                rounds.last().0,
                rounds.last().1,
            )
        }
    }

    /// Whether every height observed has a block row, or a block kept for it.
    pub open spec fn is_covered(self) -> bool {
        heights_are_covered(self.seen, self.store, self.pending)
    }
}

/// Through any run of ticks from startup, whatever the backend gives and
/// whichever inserts fail, every height observed has a block row or a block
/// kept to be inserted at the next tick: no height is lost.
pub proof fn lemma_no_height_is_lost(store: Store, rounds: Seq<(Seq<Block>, Seq<bool>)>)
    requires
        Indexed::start(store).all_fit(rounds),
    ensures
        Indexed::start(store).ticks(rounds).is_covered(),
    decreases rounds.len(),
{
    if rounds.len() > 0 {
        lemma_no_height_is_lost(store, rounds.drop_last());
        let before = Indexed::start(store).ticks(rounds.drop_last());
        lemma_tick_covers_heights(
            before.seen,
            before.store,
            before.pending,
            rounds.last().0,
            rounds.last().1,
        );
    }
}

/// A tick in which every insert succeeds keeps nothing: every height
/// observed has its row.
pub proof fn lemma_clean_tick_keeps_nothing(handed: Seq<Block>, succeeded: Seq<bool>)
    requires
        handed.len() == succeeded.len(),
        forall|i: int| 0 <= i < succeeded.len() ==> succeeded[i],
    ensures
        kept_of(handed, succeeded) == Seq::<Block>::empty(),
        inserted_of(handed, succeeded) == handed,
    decreases handed.len(),
{
    if handed.len() > 0 {
        assert forall|i: int| 0 <= i < succeeded.drop_last().len() implies succeeded.drop_last()[i] by {
            assert(succeeded.drop_last()[i] == succeeded[i]);
        }
        lemma_clean_tick_keeps_nothing(handed.drop_last(), succeeded.drop_last());
        assert(succeeded.last() == succeeded[succeeded.len() - 1]);
        assert(handed.drop_last().push(handed.last()) =~= handed);
    }
}

/// One tick without a failure catches up: where every height observed had a
/// row or a block kept for it, then after a tick in which every insert
/// succeeds every height observed has its row, and nothing is kept.
pub proof fn lemma_clean_tick_catches_up(
    before: Indexed,
    found: Seq<Block>,
    succeeded: Seq<bool>,
)
    requires
        before.is_covered(),
        before.fits(found, succeeded),
        forall|i: int| 0 <= i < succeeded.len() ==> succeeded[i],
    ensures
        before.tick(found, succeeded).pending == Seq::<Block>::empty(),
        forall|height: u32|
            before.tick(found, succeeded).seen.contains(height) ==> before.tick(
                found,
                succeeded,
            ).store.has_row_at(height),
{
    lemma_clean_tick_keeps_nothing(before.handed(found), succeeded);
    lemma_tick_covers_heights(before.seen, before.store, before.pending, found, succeeded);
}

} // verus!
