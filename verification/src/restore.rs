//! Recovery at startup: which blocks need an execution job again.

use vstd::prelude::*;
use crate::number_set::NumberSet;
use crate::types::Block;

verus! {

/// The numbers in `s` as a set.
pub open spec fn numbers_of(s: Seq<u32>) -> Set<u32> {
    Set::new(|n: u32| s.contains(n))
}

/// The blocks of `missing`, in their order, whose number is not in `queued`.
pub open spec fn unqueued(missing: Seq<Block>, queued: Set<u32>) -> Seq<Block>
    decreases missing.len(),
{
    if missing.len() == 0 {
        Seq::empty()
    } else if queued.contains(missing.last().number) {
        unqueued(missing.drop_last(), queued)
    } else {
        unqueued(missing.drop_last(), queued).push(missing.last())
    }
}

/// Collects the numbers of `numbers` into a set.
pub fn collect_numbers(numbers: &Vec<u32>) -> (set: NumberSet)
    ensures
        set@ == numbers_of(numbers@),
{
    let mut set = NumberSet::new();
    let mut i: usize = 0;
    while i < numbers.len()
        invariant
            i <= numbers.len(),
            set@ == numbers_of(numbers@.take(i as int)),
        decreases numbers.len() - i,
    {
        let n: u32 = numbers[i];
        set.insert(n);
        proof {
            let before = numbers@.take(i as int);
            let after = numbers@.take(i as int + 1);
            assert(after == before.push(n));
            assert forall|m: u32| numbers_of(after).contains(m) == numbers_of(before).insert(
                n,
            ).contains(m) by {
                if before.contains(m) {
                    let k = choose|k: int| 0 <= k < before.len() && before[k] == m;
                    assert(after[k] == m);
                }
                if m == n {
                    assert(after[i as int] == n);
                }
            }
            assert(numbers_of(after) =~= numbers_of(before).insert(n));
        }
        i = i + 1;
    }
    proof {
        assert(numbers@.take(numbers.len() as int) == numbers@);
    }
    set
}

/// Given the block numbers that already have a job in the queue and the
/// blocks that have no storage rows yet, returns the blocks for which a job
/// must be enqueued: those without storage that are not queued, in the order
/// in which they were given.
pub fn restore_missing_storage(queued: &Vec<u32>, missing: Vec<Block>) -> (jobs: Vec<Block>)
    ensures
        jobs@ == unqueued(missing@, numbers_of(queued@)),
{
    let in_queue = collect_numbers(queued);
    let ghost all = missing@;
    let mut jobs: Vec<Block> = Vec::new();
    for block in it: missing
        invariant
            it.seq() == all,
            in_queue@ == numbers_of(queued@),
            jobs@ == unqueued(all.take(it.index() as int), in_queue@),
    {
        proof {
            let k = it.index() as int;
            assert(all.take(k + 1).drop_last() == all.take(k));
            assert(all.take(k + 1).last() == block);
        }
        if !in_queue.contains(block.number) {
            jobs.push(block);
        }
    }
    proof {
        assert(all.take(all.len() as int) == all);
    }
    jobs
}

} // verus!
