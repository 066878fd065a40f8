//! The task that looks for blocks missing from the database and asks the
//! node for them.

use vstd::prelude::*;

verus! {

/// A block number as sent to the node: a plain number, or a 256-bit number
/// as four 64-bit words, least significant first.
#[derive(Debug, Clone, Copy, PartialEq, Eq)]
pub enum NumberOrHex {
    Number(u64),
    Hex([u64; 4]),
}

/// Whether a repeated task runs again.
#[derive(Debug, PartialEq, Eq, Structural, Clone, Copy)]
pub enum LoopStep {
    Continue,
    Break,
}

/// What one pass of the check leaves to do.
#[derive(Debug, Clone, PartialEq, Eq)]
pub struct VerifyPass {
    /// The state of the check after the pass.
    pub verify: Verify,
    /// Whether the check is over.
    pub done: bool,
    /// The blocks to ask the node for, as one batch.
    pub requests: Vec<NumberOrHex>,
    /// How long to wait before the next pass, in milliseconds.
    pub pause_millis: u64,
}

/// Milliseconds between two passes of the check.
pub const VERIFY_PAUSE_MILLIS: u64 = 30_000;

/// Progress of the missing-block check: how many blocks the last pass found
/// absent from the database.
#[derive(Debug, PartialEq, Eq, Structural, Clone, Copy)]
pub struct Verify {
    pub blocks_missing: usize,
}

/// The words of the 256-bit number equal to `number`, least significant
/// first.
pub open spec fn words_of(number: u64) -> Seq<u64> {
    seq![number, 0u64, 0u64, 0u64]
}

/// Calls `primitive_types::U256::from` on a `u64` and takes the words of the
/// result: the number itself in the first word, zero in the three above it.
#[verifier::external_body]
fn u256_words(number: u64) -> (words: [u64; 4])
    ensures
        words@ == words_of(number),
{
    primitive_types::U256::from(number).0
}

/// Whether `request` asks for block `number` as a 256-bit number.
pub open spec fn asks_for(request: NumberOrHex, number: u64) -> bool {
    request matches NumberOrHex::Hex(words) && words@ == words_of(number)
}

impl Verify {
    /// A check that has not run yet: nothing is known to be missing.
    pub fn new() -> (v: Self)
        ensures
            v.blocks_missing == 0,
    {
        Self { blocks_missing: 0 }
    }

    /// One pass of the check, given the numbers of the blocks that the
    /// database lacks. Each of them is asked for, in the order given. The
    /// state afterwards holds their count. The check is never over: the
    /// chain grows on.
    pub fn verify(self, missing: &Vec<u64>) -> (pass: VerifyPass)
        ensures
            pass.verify.blocks_missing == missing.len(),
            !pass.done,
            pass.pause_millis == VERIFY_PAUSE_MILLIS,
            pass.requests.len() == missing.len(),
            forall|i: int| 0 <= i < missing.len() ==> asks_for(#[trigger] pass.requests[i], missing[i]),
    {
        let length = missing.len();
        let mut requests: Vec<NumberOrHex> = Vec::new();
        let mut i: usize = 0;
        while i < missing.len()
            invariant
                i <= missing.len(),
                requests.len() == i,
                forall|k: int| 0 <= k < i ==> asks_for(#[trigger] requests[k], missing[k]),
            decreases missing.len() - i,
        {
            requests.push(NumberOrHex::Hex(u256_words(missing[i])));
            i = i + 1;
        }
        VerifyPass {
            verify: Self { blocks_missing: length },
            done: false,
            requests,
            pause_millis: VERIFY_PAUSE_MILLIS,
        }
    }
}

/// Decides after a pass of the check whether there is another: there is,
/// unless the pass said that the check is over.
pub fn verify_loop(done: bool) -> (step: LoopStep)
    ensures
        done ==> step == LoopStep::Break,
        !done ==> step == LoopStep::Continue,
{
    if done {
        LoopStep::Break
    } else {
        LoopStep::Continue
    }
}

} // verus!
