use substrate_archive::database::{DatabaseActor, DbMessage, DbStep};
use substrate_archive::error::ArchiveError;
use substrate_archive::indexer::{next_window, BlocksIndexer, Window};
use substrate_archive::listener::{
    channel_name, on_block, on_notification, reconnect_delay, Channel, ListenerStep, Notification,
};
use substrate_archive::metadata::{MetadataActor, MetadataStep};
use substrate_archive::restore::restore_missing_storage;
use substrate_archive::store::WriteAction;
use substrate_archive::types::{Block, Hash256};

fn block(number: u32, spec_version: u32) -> Block {
    Block {
        number,
        hash: Hash256 { bytes: [number as u8; 32] },
        parent_hash: Hash256 { bytes: [number.wrapping_sub(1) as u8; 32] },
        state_root: Hash256 { bytes: [1; 32] },
        extrinsics_root: Hash256 { bytes: [2; 32] },
        spec_version,
        body: vec![number as u8, spec_version as u8],
    }
}

fn numbers(blocks: &[Block]) -> Vec<u32> {
    blocks.iter().map(|b| b.number).collect()
}

/// Drives the indexer, the metadata actor and the listener over the blocks
/// found, with a database that acknowledges everything, and returns the
/// writes in the order in which they were issued.
fn index(indexer: &mut BlocksIndexer, metadata: &mut MetadataActor, found: Vec<Block>) -> Vec<WriteAction> {
    let mut writes = Vec::new();
    for fresh in indexer.crawl(found) {
        let job = on_block(&fresh);
        match metadata.on_block(fresh) {
            MetadataStep::Forward(block) => writes.push(WriteAction::InsertBlock(block)),
            MetadataStep::InsertMetadata { version, block } => {
                writes.push(WriteAction::InsertMetadata { version });
                metadata.on_inserted(version);
                writes.push(WriteAction::InsertBlock(block));
            }
        }
        writes.push(job);
    }
    writes
}

#[test]
fn empty_start_one_block() {
    let mut indexer = BlocksIndexer::new(100_000);
    let mut metadata = MetadataActor::new(&Vec::new());
    let genesis = block(0, 1);
    let writes = index(&mut indexer, &mut metadata, vec![genesis.clone()]);
    assert_eq!(
        writes,
        vec![
            WriteAction::InsertMetadata { version: 1 },
            WriteAction::InsertBlock(genesis.clone()),
            WriteAction::Enqueue { number: 0, hash: genesis.hash },
        ]
    );
    assert!(indexer.has_seen(0));
    assert_eq!(indexer.last_max(), 0);
    assert!(metadata.is_known(1));
}

#[test]
fn spec_version_change_inserts_metadata_first() {
    let mut indexer = BlocksIndexer::new(100_000);
    let mut metadata = MetadataActor::new(&vec![1]);
    assert!(metadata.is_known(1));
    assert!(!metadata.is_known(2));
    let writes = index(&mut indexer, &mut metadata, vec![block(199, 1), block(200, 2), block(201, 2)]);
    assert_eq!(
        writes,
        vec![
            WriteAction::InsertBlock(block(199, 1)),
            WriteAction::Enqueue { number: 199, hash: block(199, 1).hash },
            WriteAction::InsertMetadata { version: 2 },
            WriteAction::InsertBlock(block(200, 2)),
            WriteAction::Enqueue { number: 200, hash: block(200, 2).hash },
            WriteAction::InsertBlock(block(201, 2)),
            WriteAction::Enqueue { number: 201, hash: block(201, 2).hash },
        ]
    );
}

#[test]
fn metadata_stays_unknown_without_acknowledgement() {
    let metadata = MetadataActor::new(&vec![4, 4, 9]);
    assert_eq!(
        metadata.on_block(block(3, 5)),
        MetadataStep::InsertMetadata { version: 5, block: block(3, 5) }
    );
    assert_eq!(
        metadata.on_block(block(4, 5)),
        MetadataStep::InsertMetadata { version: 5, block: block(4, 5) }
    );
    assert_eq!(metadata.on_block(block(5, 9)), MetadataStep::Forward(block(5, 9)));
    assert!(!metadata.is_known(5));
}

#[test]
fn crawl_hands_each_height_on_once() {
    let mut indexer = BlocksIndexer::new(10);
    let first = indexer.crawl(vec![block(0, 1), block(1, 1), block(1, 1), block(2, 1)]);
    assert_eq!(numbers(&first), vec![0, 1, 2]);
    assert_eq!(indexer.last_max(), 2);
    let second = indexer.crawl(vec![block(2, 1), block(3, 1), block(5, 1), block(4, 1)]);
    assert_eq!(numbers(&second), vec![3, 5, 4]);
    assert_eq!(indexer.last_max(), 5);
    assert!(indexer.has_seen(4));
    assert!(!indexer.has_seen(6));
}

#[test]
fn rerun_against_a_frozen_chain_is_no_work() {
    let mut indexer = BlocksIndexer::new(100_000);
    let mut metadata = MetadataActor::new(&Vec::new());
    let chain: Vec<Block> = (0..50).map(|n| block(n, 1 + n / 20)).collect();
    let writes = index(&mut indexer, &mut metadata, chain.clone());
    assert_eq!(writes.len(), 50 * 2 + 3);
    assert!(index(&mut indexer, &mut metadata, chain).is_empty());
    assert_eq!(indexer.last_max(), 49);
}

#[test]
fn windows_of_a_bulk_scan() {
    assert_eq!(next_window(0, 9, 4), Some(Window { first: 0, last: 3 }));
    assert_eq!(next_window(4, 9, 4), Some(Window { first: 4, last: 7 }));
    assert_eq!(next_window(8, 9, 4), Some(Window { first: 8, last: 9 }));
    assert_eq!(next_window(10, 9, 4), None);
    assert_eq!(next_window(0, 9, 0), None);
    assert_eq!(next_window(0, 0, 1), Some(Window { first: 0, last: 0 }));
    assert_eq!(next_window(5, 5, 100_000), Some(Window { first: 5, last: 5 }));
    assert_eq!(
        next_window(0, u32::MAX, u32::MAX),
        Some(Window { first: 0, last: u32::MAX - 1 })
    );
    assert_eq!(
        next_window(u32::MAX, u32::MAX, u32::MAX),
        Some(Window { first: u32::MAX, last: u32::MAX })
    );
    assert_eq!(
        next_window(7, 250_000, 100_000),
        Some(Window { first: 7, last: 100_006 })
    );
}

#[test]
fn windows_cover_the_whole_scan() {
    let indexer = BlocksIndexer::new(7);
    let mut covered = Vec::new();
    let mut first = 0u32;
    while let Some(window) = indexer.reindex_window(first, 30) {
        assert_eq!(window.first, first);
        assert!(window.last - window.first < 7);
        covered.extend(window.first..=window.last);
        first = window.last + 1;
    }
    assert_eq!(covered, (0..=30).collect::<Vec<u32>>());
}

#[test]
fn live_tail_enqueues_one_job() {
    assert_eq!(channel_name(Channel::Blocks), "blocks");
    assert_eq!(
        on_notification(Notification { block_num: 101 }),
        ListenerStep::FetchBlock { number: 101 }
    );
    let fetched = block(101, 1);
    assert_eq!(on_block(&fetched), WriteAction::Enqueue { number: 101, hash: fetched.hash });
}

#[test]
fn listener_reconnects_with_backoff() {
    assert_eq!(reconnect_delay(0), 1);
    assert_eq!(reconnect_delay(1), 2);
    assert_eq!(reconnect_delay(5), 32);
}

#[test]
fn crash_recovery_requeues_blocks_without_storage() {
    // Blocks 0..=50 were inserted; storage is missing for 41..=50; jobs for
    // 45 and 46 are still in the queue.
    let missing: Vec<Block> = (41..=50).map(|n| block(n, 1)).collect();
    let jobs = restore_missing_storage(&vec![45, 46], missing);
    assert_eq!(numbers(&jobs), vec![41, 42, 43, 44, 47, 48, 49, 50]);
}

#[test]
fn database_actor_takes_messages_until_it_dies() {
    let mut actor = DatabaseActor::new();
    let insert = DbMessage::InsertMetadata { version: 1, meta: vec![1, 2, 3] };
    assert_eq!(actor.handle(insert.clone()), DbStep::Execute(insert.clone()));
    assert_eq!(
        actor.handle(DbMessage::InsertBlocks(vec![block(0, 1), block(1, 1)])),
        DbStep::Execute(DbMessage::InsertBlocks(vec![block(0, 1), block(1, 1)]))
    );
    assert_eq!(actor.handle(DbMessage::GetPool), DbStep::Execute(DbMessage::GetPool));
    assert_eq!(actor.handle(DbMessage::Die), DbStep::Shutdown);
    assert_eq!(actor.handle(insert), DbStep::Refuse(ArchiveError::Disconnected));
    assert_eq!(actor.handle(DbMessage::Die), DbStep::Refuse(ArchiveError::Disconnected));
    assert_eq!(
        actor.handle(DbMessage::InsertBlock(block(2, 1))),
        DbStep::Refuse(ArchiveError::Disconnected)
    );
}
