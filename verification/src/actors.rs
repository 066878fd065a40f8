//! The actors of the indexer: which needs which, the order in which they
//! start and stop, and the periodic tick that drives them.

use vstd::prelude::*;
use crate::error::ArchiveError;

verus! {

/// One of the long-lived workers.
#[derive(Debug, PartialEq, Eq, Structural, Clone, Copy)]
pub enum Actor {
    /// The only writer to the relational store.
    Database,
    /// Inserts the runtime metadata of a version before its first block.
    Metadata,
    /// Buffers storage changes and traces, and flushes them in batches.
    Storage,
    /// Finds new and missing blocks in the chain backend.
    Blocks,
    /// Turns notifications of inserted blocks into jobs.
    Listener,
}

/// Whether a message reached the mailbox that it was sent to.
#[derive(Debug, PartialEq, Eq, Structural, Clone, Copy)]
pub enum Delivery {
    Delivered,
    /// The mailbox is closed.
    Disconnected,
}

/// Whether the tick goes on.
#[derive(Debug, PartialEq, Eq, Structural, Clone, Copy)]
pub enum TickStep {
    Continue,
    Stop,
}

/// Seconds between two ticks.
pub const TICK_SECONDS: u64 = 1;

/// Whether `actor` sends to `other`, and so needs it to be running.
pub open spec fn depends_on(actor: Actor, other: Actor) -> bool {
    match (actor, other) {
        (Actor::Metadata, Actor::Database) => true,
        (Actor::Storage, Actor::Database) => true,
        (Actor::Blocks, Actor::Database) => true,
        (Actor::Blocks, Actor::Metadata) => true,
        (Actor::Listener, Actor::Database) => true,
        _ => false,
    }
}

/// The order in which the actors are started.
pub open spec fn spawn_sequence() -> Seq<Actor> {
    seq![Actor::Database, Actor::Metadata, Actor::Storage, Actor::Blocks, Actor::Listener]
}

/// The order in which the actors are stopped.
pub open spec fn kill_sequence() -> Seq<Actor> {
    seq![Actor::Listener, Actor::Storage, Actor::Blocks, Actor::Metadata, Actor::Database]
}

/// Whether every actor stands in `order` exactly once.
pub open spec fn is_complete_order(order: Seq<Actor>) -> bool {
    &&& order.len() == 5
    &&& order.no_duplicates()
}

/// The actors in the order in which they are started: each after all that
/// it sends to.
pub fn spawn_order() -> (order: Vec<Actor>)
    ensures
        order@ == spawn_sequence(),
        is_complete_order(order@),
        forall|i: int, j: int| 0 <= i < j < order.len() ==> !depends_on(order[i], order[j]),
{
    let order: Vec<Actor> = vec![
        Actor::Database,
        Actor::Metadata,
        Actor::Storage,
        Actor::Blocks,
        Actor::Listener,
    ];
    assert(order@ =~= spawn_sequence());
    order
}

/// The actors in the order in which they are stopped: each before all that
/// it sends to, so that what it flushes on its way out is still received.
pub fn kill_order() -> (order: Vec<Actor>)
    ensures
        order@ == kill_sequence(),
        is_complete_order(order@),
        forall|i: int, j: int| 0 <= i < j < order.len() ==> !depends_on(order[j], order[i]),
{
    let order: Vec<Actor> = vec![
        Actor::Listener,
        Actor::Storage,
        Actor::Blocks,
        Actor::Metadata,
        Actor::Database,
    ];
    assert(order@ =~= kill_sequence());
    order
}

/// No actor needs itself, and no two need each other: the actors form a
/// pipeline, not a cycle.
pub proof fn lemma_no_cycles(a: Actor, b: Actor)
    ensures
        !depends_on(a, a),
        depends_on(a, b) ==> !depends_on(b, a),
        !depends_on(Actor::Storage, Actor::Blocks),
{
}

/// Tells whether a message reached its actor, from what came of it: the
/// message is undelivered where the mailbox was closed, and only there. An
/// actor that took the message and failed at its work has still taken it.
pub fn delivery_of(outcome: Result<(), ArchiveError>) -> (delivery: Delivery)
    ensures
        delivery == Delivery::Disconnected <==> outcome == Err::<(), ArchiveError>(
            ArchiveError::Disconnected,
        ),
        delivery == Delivery::Delivered <==> outcome != Err::<(), ArchiveError>(
            ArchiveError::Disconnected,
        ),
{
    match outcome {
        Err(ArchiveError::Disconnected) => Delivery::Disconnected,
        _ => Delivery::Delivered,
    }
}

/// Decides the start of the tick from the delivery of the one-time scan
/// request: where the block indexer is gone, there is nothing to tick.
pub fn start_ticks(reindex: Delivery) -> (started: Result<(), ArchiveError>)
    ensures
        reindex == Delivery::Delivered ==> started == Ok::<(), ArchiveError>(()),
        reindex == Delivery::Disconnected ==> started == Err::<(), ArchiveError>(
            ArchiveError::Disconnected,
        ),
{
    match reindex {
        Delivery::Delivered => Ok(()),
        Delivery::Disconnected => Err(ArchiveError::Disconnected),
    }
}

/// Decides after one tick whether there is another. A tick sends three
/// messages: to the block indexer to crawl, and to the aggregator to flush
/// its storage changes and to flush its traces. The tick stops when none of
/// the three could be delivered, and only then.
pub fn tick_step(crawl: Delivery, storage: Delivery, traces: Delivery) -> (step: TickStep)
    ensures
        step == TickStep::Stop <==> (crawl == Delivery::Disconnected && storage
            == Delivery::Disconnected && traces == Delivery::Disconnected),
        step == TickStep::Continue <==> (crawl == Delivery::Delivered || storage
            == Delivery::Delivered || traces == Delivery::Delivered),
{
    match (crawl, storage, traces) {
        (Delivery::Disconnected, Delivery::Disconnected, Delivery::Disconnected) => TickStep::Stop,
        _ => TickStep::Continue,
    }
}

} // verus!
