use chain_update::hash::CryptoHash;
use chain_update::records::RecordKey;
use chain_update::shard::ShardUId;
use chain_update::table::{BlockShardUId, Key, Table};

fn hash(n: u8) -> CryptoHash {
    CryptoHash([n; 32])
}

#[test]
fn empty_table_holds_nothing() {
    let table: Table<u64, u64> = Table::new();
    assert_eq!(table.get(&0), None);
    assert!(!table.contains_key(&0));
}

#[test]
fn insert_replaces_the_value_under_a_key() {
    let mut table: Table<CryptoHash, u64> = Table::new();
    table.insert(hash(1), 10);
    table.insert(hash(2), 20);
    table.insert(hash(1), 11);
    assert_eq!(table.get(&hash(1)), Some(&11));
    assert_eq!(table.get(&hash(2)), Some(&20));
    assert_eq!(table.get(&hash(3)), None);
    assert!(table.contains_key(&hash(2)));
}

#[test]
fn absorb_prefers_the_entries_taken_over() {
    let mut base: Table<u64, u64> = Table::new();
    base.insert(1, 10);
    base.insert(2, 20);
    let mut other: Table<u64, u64> = Table::new();
    other.insert(2, 21);
    other.insert(3, 31);
    base.absorb(other);
    assert_eq!(base.get(&1), Some(&10));
    assert_eq!(base.get(&2), Some(&21));
    assert_eq!(base.get(&3), Some(&31));
    base.absorb(Table::new());
    assert_eq!(base.get(&2), Some(&21));
}

#[test]
fn keys_compare_by_all_their_parts() {
    let a = BlockShardUId { block_hash: hash(1), shard_uid: ShardUId { version: 1, shard_id: 2 } };
    let mut b = a;
    assert!(a.key_eq(&b));
    b.shard_uid.shard_id = 3;
    assert!(!a.key_eq(&b));
    b = a;
    b.shard_uid.version = 0;
    assert!(!a.key_eq(&b));
    b = a;
    b.block_hash = hash(2);
    assert!(!a.key_eq(&b));
    assert!(7u64.key_eq(&7));
    assert!(!7u64.key_eq(&8));
    assert!(hash(4).key_eq(&hash(4)));
}

#[test]
fn record_keys_compare_by_kind_and_parts() {
    let keys = [
        RecordKey::OutgoingReceipts { block_hash: hash(1), shard_id: 0 },
        RecordKey::OutgoingReceipts { block_hash: hash(1), shard_id: 1 },
        RecordKey::OutgoingReceipts { block_hash: hash(2), shard_id: 0 },
        RecordKey::OutcomesWithProofs { block_hash: hash(1), shard_id: 0 },
        RecordKey::StateTransitionData { block_hash: hash(1), shard_id: 0 },
        RecordKey::IncomingReceipts { block_hash: hash(1), shard_id: 0 },
        RecordKey::StateChangesForResharding { block_hash: hash(1), shard_id: 0 },
        RecordKey::BlockExtra { block_hash: hash(1) },
        RecordKey::BlockExtra { block_hash: hash(2) },
        RecordKey::EpochLightClientBlock { epoch: hash(1) },
        RecordKey::EpochLightClientBlock { epoch: hash(2) },
        RecordKey::Chunk { chunk_hash: hash(1) },
        RecordKey::Chunk { chunk_hash: hash(2) },
    ];
    for (i, a) in keys.iter().enumerate() {
        for (j, b) in keys.iter().enumerate() {
            assert_eq!(a.key_eq(b), i == j);
        }
    }
}
