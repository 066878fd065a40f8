//! The listener: it hears of each block that the database has inserted and
//! enqueues the job that executes it.

use vstd::prelude::*;
use crate::error::ArchiveError;
use crate::jobs::{backoff_of, backoff_seconds};
use crate::store::WriteAction;
use crate::types::Block;

verus! {

/// A notification channel of the relational store.
#[derive(Debug, PartialEq, Eq, Structural, Clone, Copy)]
pub enum Channel {
    /// Announces each block inserted.
    Blocks,
}

/// What the channel of inserted blocks carries: the height of the block.
#[derive(Debug, PartialEq, Eq, Structural, Clone, Copy)]
pub struct Notification {
    pub block_num: u32,
}

/// What the listener asks of the relational store after a notification.
#[derive(Debug, PartialEq, Eq, Structural, Clone, Copy)]
pub enum ListenerStep {
    /// Read the full block at this height.
    FetchBlock { number: u32 },
}

/// The name under which the relational store knows a channel.
pub fn channel_name(channel: Channel) -> (name: &'static str)
    ensures
        channel == Channel::Blocks ==> name@ == "blocks"@,
{
    match channel {
        Channel::Blocks => "blocks",
    }
}

/// Decides what follows a notification: the block at the height that it
/// names is read.
pub fn on_notification(notification: Notification) -> (step: ListenerStep)
    ensures
        step == (ListenerStep::FetchBlock { number: notification.block_num }),
{
    ListenerStep::FetchBlock { number: notification.block_num }
}

/// The write that follows the reading of the block: exactly one job for it
/// is enqueued.
pub fn on_block(block: &Block) -> (write: WriteAction)
    ensures
        write == (WriteAction::Enqueue { number: block.number, hash: block.hash }),
{
    WriteAction::Enqueue { number: block.number, hash: block.hash }
}

/// What the listener does after it has looked for notifications.
#[derive(Debug, PartialEq, Eq, Structural, Clone, Copy)]
pub struct ListenerRetry {
    /// How often in a row the channel was reset, this time included.
    pub resets: u32,
    /// Seconds to wait before the listener connects again, where it must.
    pub reconnect_after: Option<u64>,
}

/// What follows when the listener has looked for notifications after
/// `resets` resets in a row: after a look that succeeded the count starts
/// again and nothing is to be done; after one that failed the listener
/// connects again once the backoff for the resets so far has passed, and
/// the count goes up by one, as far as it can.
pub open spec fn retry_after(resets: u32, outcome: Result<(), ArchiveError>) -> ListenerRetry {
    match outcome {
        Ok(_) => ListenerRetry { resets: 0, reconnect_after: None },
        Err(_) => ListenerRetry {
            resets: if resets == u32::MAX {
                u32::MAX
            } else {
                (resets + 1) as u32
            },
            reconnect_after: Some(backoff_of(resets as nat)),
        },
    }
}

/// Decides what the listener does after it has looked for notifications.
pub fn listener_step(resets: u32, outcome: Result<(), ArchiveError>) -> (retry: ListenerRetry)
    ensures
        retry == retry_after(resets, outcome),
{
    match outcome {
        Ok(_) => ListenerRetry { resets: 0, reconnect_after: None },
        Err(_) => {
            let counted: u32 = if resets == u32::MAX {
                u32::MAX
            } else {
                resets + 1
            };
            ListenerRetry { resets: counted, reconnect_after: Some(reconnect_delay(resets)) }
        },
    }
}

/// Seconds to wait before the listener connects again after its channel was
/// reset `failures` times in a row: one second at first, then twice as long
/// each time.
pub fn reconnect_delay(failures: u32) -> (seconds: u64)
    ensures
        seconds == backoff_of(failures as nat),
{
    backoff_seconds(failures)
}

} // verus!
