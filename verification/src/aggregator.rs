//! The storage aggregator: it buffers the storage changes and traces that
//! the workers produce, and hands them to the database in batches.

use vstd::prelude::*;
use crate::types::{StorageEntry, TraceEntry};

verus! {

/// Entries in a buffer beyond which a flush is due at once.
pub const DEFAULT_FLUSH_THRESHOLD: usize = 500;

/// Entries in a buffer beyond which those who push must wait.
pub const DEFAULT_MAX_BUF: usize = 5000;

/// What became of a push.
#[derive(Debug, Clone, PartialEq, Eq)]
pub enum PushOutcome {
    /// The entries are buffered. `flush_now` says that a buffer has grown
    /// beyond the flush threshold, so that a flush is due at once.
    Accepted { flush_now: bool },
    /// A buffer is over its limit: the entries come back untouched, and the
    /// caller waits for a flush before it pushes them again.
    Blocked { storage: Vec<StorageEntry>, traces: Vec<TraceEntry> },
}

/// The aggregator's state: the two buffers and their limits.
pub struct StorageAggregator {
    storage_buf: Vec<StorageEntry>,
    trace_buf: Vec<TraceEntry>,
    flush_threshold: usize,
    max_buf: usize,
}

impl StorageAggregator {
    /// The storage changes buffered, oldest first.
    pub closed spec fn storage(&self) -> Seq<StorageEntry> {
        self.storage_buf@
    }

    /// The traces buffered, oldest first.
    pub closed spec fn traces(&self) -> Seq<TraceEntry> {
        self.trace_buf@
    }

    /// The buffer length beyond which a flush is due at once.
    pub closed spec fn flush_threshold(&self) -> usize {
        self.flush_threshold
    }

    /// The buffer length beyond which those who push must wait.
    pub closed spec fn max_buf(&self) -> usize {
        self.max_buf
    }

    /// Whether a buffer is over its limit, so that those who push must wait.
    pub open spec fn is_over_limit(&self) -> bool {
        self.storage().len() > self.max_buf() || self.traces().len() > self.max_buf()
    }

    /// Whether a buffer has grown beyond the flush threshold.
    pub open spec fn is_flush_due(&self) -> bool {
        self.storage().len() > self.flush_threshold() || self.traces().len()
            > self.flush_threshold()
    }

    /// Whether both limits are those of `other`.
    pub open spec fn same_limits(&self, other: &StorageAggregator) -> bool {
        self.flush_threshold() == other.flush_threshold() && self.max_buf() == other.max_buf()
    }

    /// An aggregator with empty buffers and the default limits.
    pub fn new() -> (aggregator: Self)
        ensures
            aggregator.storage() == Seq::<StorageEntry>::empty(),
            aggregator.traces() == Seq::<TraceEntry>::empty(),
            aggregator.flush_threshold() == DEFAULT_FLUSH_THRESHOLD,
            aggregator.max_buf() == DEFAULT_MAX_BUF,
    {
        Self::with_limits(DEFAULT_FLUSH_THRESHOLD, DEFAULT_MAX_BUF)
    }

    /// An aggregator with empty buffers and the given limits.
    pub fn with_limits(flush_threshold: usize, max_buf: usize) -> (aggregator: Self)
        ensures
            aggregator.storage() == Seq::<StorageEntry>::empty(),
            aggregator.traces() == Seq::<TraceEntry>::empty(),
            aggregator.flush_threshold() == flush_threshold,
            aggregator.max_buf() == max_buf,
    {
        StorageAggregator {
            storage_buf: Vec::new(),
            trace_buf: Vec::new(),
            flush_threshold,
            max_buf,
        }
    }

    /// The number of storage changes buffered.
    pub fn storage_len(&self) -> (len: usize)
        ensures
            len == self.storage().len(),
    {
        self.storage_buf.len()
    }

    /// The number of traces buffered.
    pub fn traces_len(&self) -> (len: usize)
        ensures
            len == self.traces().len(),
    {
        self.trace_buf.len()
    }

    /// Whether those who push must wait.
    pub fn must_wait(&self) -> (wait: bool)
        ensures
            wait == self.is_over_limit(),
    {
        self.storage_buf.len() > self.max_buf || self.trace_buf.len() > self.max_buf
    }

    /// Takes the results of an execution. While a buffer is over its limit
    /// nothing is taken and the entries come back. Otherwise they are
    /// appended to the buffers, in their order, and the result says whether
    /// a flush is due at once.
    pub fn push(&mut self, storage: Vec<StorageEntry>, traces: Vec<TraceEntry>) -> (outcome:
        PushOutcome)
        ensures
            final(self).same_limits(old(self)),
            old(self).is_over_limit() ==> {
                &&& outcome == (PushOutcome::Blocked { storage, traces })
                &&& final(self).storage() == old(self).storage()
                &&& final(self).traces() == old(self).traces()
            },
            !old(self).is_over_limit() ==> {
                &&& outcome == (PushOutcome::Accepted { flush_now: final(self).is_flush_due() })
                &&& final(self).storage() == old(self).storage() + storage@
                &&& final(self).traces() == old(self).traces() + traces@
            },
    {
        if self.must_wait() {
            PushOutcome::Blocked { storage, traces }
        } else {
            let mut storage = storage;
            let mut traces = traces;
            self.storage_buf.append(&mut storage);
            self.trace_buf.append(&mut traces);
            let flush_now = self.storage_buf.len() > self.flush_threshold || self.trace_buf.len()
                > self.flush_threshold;
            PushOutcome::Accepted { flush_now }
        }
    }

    /// Empties the buffer of storage changes and returns what it held, as
    /// one batch for the database.
    pub fn take_storage(&mut self) -> (batch: Vec<StorageEntry>)
        ensures
            batch@ == old(self).storage(),
            final(self).storage() == Seq::<StorageEntry>::empty(),
            final(self).traces() == old(self).traces(),
            final(self).same_limits(old(self)),
    {
        let mut batch: Vec<StorageEntry> = Vec::new();
        batch.append(&mut self.storage_buf);
        assert(batch@ =~= old(self).storage());
        batch
    }

    /// Puts a batch that the database did not take back in front of the
    /// buffer, so that the next flush sends it again, before what has come in
    /// since.
    pub fn restore_storage(&mut self, batch: Vec<StorageEntry>)
        ensures
            final(self).storage() == batch@ + old(self).storage(),
            final(self).traces() == old(self).traces(),
            final(self).same_limits(old(self)),
    {
        let mut restored = batch;
        restored.append(&mut self.storage_buf);
        self.storage_buf = restored;
    }

    /// Empties the buffer of traces and returns what it held, as one batch
    /// for the database.
    pub fn take_traces(&mut self) -> (batch: Vec<TraceEntry>)
        ensures
            batch@ == old(self).traces(),
            final(self).traces() == Seq::<TraceEntry>::empty(),
            final(self).storage() == old(self).storage(),
            final(self).same_limits(old(self)),
    {
        let mut batch: Vec<TraceEntry> = Vec::new();
        batch.append(&mut self.trace_buf);
        assert(batch@ =~= old(self).traces());
        batch
    }

    /// Ends the aggregator: hands out all that it still holds, for a last
    /// flush.
    pub fn die(self) -> (flushed: (Vec<StorageEntry>, Vec<TraceEntry>))
        ensures
            flushed.0@ == self.storage(),
            flushed.1@ == self.traces(),
    {
        (self.storage_buf, self.trace_buf)
    }

    /// Puts a batch of traces that the database did not take back in front
    /// of the buffer.
    pub fn restore_traces(&mut self, batch: Vec<TraceEntry>)
        ensures
            final(self).traces() == batch@ + old(self).traces(),
            final(self).storage() == old(self).storage(),
            final(self).same_limits(old(self)),
    {
        let mut restored = batch;
        restored.append(&mut self.trace_buf);
        self.trace_buf = restored;
    }
}

/// Nothing is lost when a flush fails: the batch taken, put back in front of
/// what was pushed in the meantime, is the buffer as it would stand had no
/// flush been tried.
pub proof fn lemma_failed_flush_loses_nothing<E>(buffered: Seq<E>, pushed: Seq<E>)
    ensures
        buffered + (Seq::<E>::empty() + pushed) == (buffered + pushed),
        (buffered + pushed).len() == buffered.len() + pushed.len(),
        forall|i: int| 0 <= i < buffered.len() ==> (buffered + pushed)[i] == buffered[i],
        forall|i: int| 0 <= i < pushed.len() ==> (buffered + pushed)[buffered.len() + i] == pushed[i],
{
    assert(Seq::<E>::empty() + pushed =~= pushed);
}

} // verus!
