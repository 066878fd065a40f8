use substrate_archive::data::{
    action_for, handle_data, timestamp_now_bytes, Data, DataAction, Header, StorageKeyType,
    TimestampOp,
};
use substrate_archive::types::{Block, Hash256, StorageEntry};

fn hash(byte: u8) -> Hash256 {
    Hash256 { bytes: [byte; 32] }
}

fn sample_block() -> Block {
    Block {
        number: 12,
        hash: hash(0xab),
        parent_hash: hash(0xaa),
        state_root: hash(1),
        extrinsics_root: hash(2),
        spec_version: 3,
        body: vec![9, 9, 9],
    }
}

#[test]
fn timestamp_name_is_the_ascii_text() {
    assert_eq!(timestamp_now_bytes(), b"Timestamp Now".to_vec());
    assert_eq!(timestamp_now_bytes().len(), 13);
}

#[test]
fn header_has_its_block_fetched() {
    let header = Header { number: 5, hash: hash(7), parent_hash: hash(6) };
    let action = handle_data(&Data::Header(header));
    assert_eq!(action, DataAction::FetchBlock { hash: hash(7) });
}

#[test]
fn block_is_inserted_and_its_timestamp_requested() {
    let action = handle_data(&Data::Block(sample_block()));
    let expected_key = sp_crypto_hashing::twox_128(b"Timestamp Now").to_vec();
    assert_eq!(
        action,
        DataAction::InsertThenFetchStorage {
            key: expected_key,
            hash: hash(0xab),
            key_type: StorageKeyType::Timestamp(TimestampOp::Now),
        }
    );
}

#[test]
fn timestamp_key_is_the_hash_and_not_the_name() {
    let action = handle_data(&Data::Block(sample_block()));
    match action {
        DataAction::InsertThenFetchStorage { key, .. } => {
            assert_eq!(key.len(), 16);
            assert_ne!(key, b"Timestamp Now".to_vec());
            assert_eq!(
                key,
                vec![
                    0x0e, 0x49, 0x44, 0xcf, 0xd9, 0x8d, 0x6f, 0x4c, 0xc3, 0x74, 0xd1, 0x6f, 0x5a,
                    0x4e, 0x3f, 0x9c
                ]
            );
        }
        other => panic!("unexpected action {:?}", other),
    }
}

#[test]
fn storage_and_events_are_inserted() {
    let entry = StorageEntry {
        block_number: 1,
        block_hash: hash(1),
        key: vec![1, 2],
        value: Some(vec![3]),
    };
    assert_eq!(handle_data(&Data::Storage(entry)), DataAction::Insert);
    assert_eq!(handle_data(&Data::Event(vec![0, 1, 2])), DataAction::Insert);
}

#[test]
fn action_for_uses_the_key_it_is_given() {
    let key: [u8; 16] = [1, 2, 3, 4, 5, 6, 7, 8, 9, 10, 11, 12, 13, 14, 15, 16];
    let action = action_for(&Data::Block(sample_block()), key);
    assert_eq!(
        action,
        DataAction::InsertThenFetchStorage {
            key: key.to_vec(),
            hash: hash(0xab),
            key_type: StorageKeyType::Timestamp(TimestampOp::Now),
        }
    );
    let header = Header { number: 0, hash: hash(3), parent_hash: hash(0) };
    assert_eq!(action_for(&Data::Header(header), key), DataAction::FetchBlock { hash: hash(3) });
    assert_eq!(action_for(&Data::Event(Vec::new()), key), DataAction::Insert);
}
