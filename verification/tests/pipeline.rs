use std::cell::RefCell;

use chain_update::adapters::{
    ApplyChunkBlockContext, ApplyChunkReason, ApplyChunkResult, ApplyChunkShardContext,
    BlockHeaderInfo, DoomslugThresholdMode, ReceiptProofResponse, RuntimeStorageConfig,
};
use chain_update::error::{Defect, Error, Missing};
use chain_update::gauges::Gauges;
use chain_update::records::{
    Record, RecordKey, ShardChunk, ShardChunkHeader, ShardChunkV1, ShardChunkV2, StateSyncInfo,
    StoreUpdate,
};
use chain_update::resharding::{ApplyResultForResharding, TrieChanges};
use chain_update::results::{
    BlockPreprocessInfo, NewChunkResult, OldChunkResult, ReshardingResult, ReshardingResults,
    ShardStateSyncResponseHeader, ShardStateSyncResponseHeaderV1, ShardStateSyncResponseHeaderV2,
    ShardUpdateResult,
};
use chain_update::types::{CongestionInfo, ShardCongestionInfo};
use chain_update::{
    Block, BlockHeader, ChainStore, ChainStoreUpdate, ChainUpdate, ChunkExtra, CryptoHash,
    EpochId, EpochManagerAdapter, RuntimeAdapter, ShardUId, Tip,
};
use near_primitives::shard_layout::ShardLayout;
use near_primitives::types::validator_stake::ValidatorStake;
use near_primitives::views::{BlockHeaderInnerLiteView, LightClientBlockView};

fn hash(n: u8) -> CryptoHash {
    CryptoHash([n; 32])
}

fn zero() -> CryptoHash {
    CryptoHash([0; 32])
}

fn header(n: u8, prev: u8, height: u64, epoch: u8, last_final: u8) -> BlockHeader {
    BlockHeader {
        hash: hash(n),
        prev_hash: hash(prev),
        height,
        prev_height: if height == 0 { None } else { Some(height - 1) },
        epoch_id: EpochId(hash(epoch)),
        next_epoch_id: EpochId(hash(epoch + 1)),
        last_final_block: hash(last_final),
        next_gas_price: 1_000 + n as u128,
        raw_timestamp: 50 + n as u64,
        random_value: hash(200),
        block_ordinal: 10 * height + 1,
    }
}

fn block(header: BlockHeader) -> Block {
    Block {
        header,
        validator_proposals: vec![ValidatorStake::test("val.near".parse().unwrap())],
        challenges_result: vec![9, 9],
        congestion_info: vec![ShardCongestionInfo {
            shard_id: 0,
            congestion_info: CongestionInfo {
                delayed_receipts_gas: 1,
                buffered_receipts_gas: 2,
                receipt_bytes: 3,
                allowed_shard: 4,
            },
            missed_chunks_count: 5,
        }],
        body: vec![1, 2, 3],
    }
}

fn shard(version: u32, shard_id: u32) -> ShardUId {
    ShardUId { version, shard_id }
}

fn extra(root: u8, gas_used: u64, balance_burnt: u128, accounts: &[&str]) -> ChunkExtra {
    ChunkExtra {
        state_root: hash(root),
        outcome_root: hash(root + 1),
        validator_proposals: accounts
            .iter()
            .map(|a| ValidatorStake::test(a.parse().unwrap()))
            .collect(),
        gas_used,
        gas_limit: 1_000,
        balance_burnt,
        congestion_info: None,
    }
}

fn applied(root: u8) -> ApplyChunkResult {
    ApplyChunkResult {
        trie_changes: TrieChanges { state_changes: vec![root, 1], node_changes: vec![root, 2] },
        new_root: hash(root),
        outcomes: vec![root, 3],
        outgoing_receipts: vec![root, 4],
        validator_proposals: vec![ValidatorStake::test("new.near".parse().unwrap())],
        total_gas_burnt: 77,
        total_balance_burnt: 88,
        proof: Some(vec![root, 5]),
        applied_receipts_hash: hash(root + 100),
        congestion_info: None,
    }
}

fn child(version: u32, shard_id: u32, root: u8) -> ApplyResultForResharding {
    ApplyResultForResharding {
        shard_uid: shard(version, shard_id),
        trie_changes: TrieChanges { state_changes: vec![root], node_changes: vec![root, root] },
        new_root: hash(root),
    }
}

fn no_info() -> BlockPreprocessInfo {
    BlockPreprocessInfo {
        is_caught_up: true,
        state_sync_info: None,
        incoming_receipts: vec![],
        challenges_result: vec![],
        challenged_blocks: vec![],
    }
}

fn light_client_block(height: u64) -> LightClientBlockView {
    let none = near_primitives::hash::CryptoHash::default();
    LightClientBlockView {
        prev_block_hash: none,
        next_block_inner_hash: none,
        inner_lite: BlockHeaderInnerLiteView {
            height,
            epoch_id: none,
            next_epoch_id: none,
            prev_state_root: none,
            outcome_root: none,
            timestamp: 0,
            timestamp_nanosec: 0,
            next_bp_hash: none,
            block_merkle_root: none,
        },
        inner_rest_hash: none,
        next_bps: None,
        approvals_after_next: vec![],
    }
}

/// Three shards, all children of shard 0 of the layout before.
fn layout_of_three() -> ShardLayout {
    ShardLayout::v1(
        vec!["bbb".parse().unwrap(), "ccc".parse().unwrap()],
        Some(vec![vec![0, 1, 2]]),
        1,
    )
}

struct Epochs {
    layout: ShardLayout,
    protocol_version: u32,
    fail: &'static str,
    approvals_seen: RefCell<Vec<(u64, u64, DoomslugThresholdMode, Vec<u8>)>>,
    proposals_seen: RefCell<Vec<(CryptoHash, u64, usize)>>,
    next_hash_seen: RefCell<Vec<Option<CryptoHash>>>,
    layouts_asked: RefCell<Vec<CryptoHash>>,
}

impl Epochs {
    fn new(protocol_version: u32) -> Epochs {
        Epochs {
            layout: layout_of_three(),
            protocol_version,
            fail: "",
            approvals_seen: RefCell::new(vec![]),
            proposals_seen: RefCell::new(vec![]),
            next_hash_seen: RefCell::new(vec![]),
            layouts_asked: RefCell::new(vec![]),
        }
    }

    fn check(&self, what: &'static str) -> Result<(), Error> {
        if self.fail == what {
            Err(Error::Other(format!("{what} failed")))
        } else {
            Ok(())
        }
    }
}

impl EpochManagerAdapter for Epochs {
    fn get_epoch_id(&self, block_hash: &CryptoHash) -> Result<EpochId, Error> {
        self.check("get_epoch_id")?;
        Ok(EpochId(*block_hash))
    }

    fn get_epoch_id_from_prev_block(&self, parent_hash: &CryptoHash) -> Result<EpochId, Error> {
        self.check("get_epoch_id_from_prev_block")?;
        Ok(EpochId(*parent_hash))
    }

    fn get_next_epoch_id_from_prev_block(
        &self,
        parent_hash: &CryptoHash,
    ) -> Result<EpochId, Error> {
        self.check("get_next_epoch_id_from_prev_block")?;
        Ok(EpochId(*parent_hash))
    }

    fn get_shard_layout(&self, _epoch_id: &EpochId) -> Result<ShardLayout, Error> {
        self.check("get_shard_layout")?;
        Ok(self.layout.clone())
    }

    fn get_shard_layout_from_prev_block(
        &self,
        parent_hash: &CryptoHash,
    ) -> Result<ShardLayout, Error> {
        self.check("get_shard_layout_from_prev_block")?;
        self.layouts_asked.borrow_mut().push(*parent_hash);
        Ok(self.layout.clone())
    }

    fn get_epoch_protocol_version(&self, _epoch_id: &EpochId) -> Result<u32, Error> {
        self.check("get_epoch_protocol_version")?;
        Ok(self.protocol_version)
    }

    fn shard_id_to_uid(&self, shard_id: u64, _epoch_id: &EpochId) -> Result<ShardUId, Error> {
        self.check("shard_id_to_uid")?;
        Ok(shard(0, shard_id as u32))
    }

    fn add_validator_proposals(
        &self,
        block_header_info: BlockHeaderInfo<'_>,
    ) -> Result<StoreUpdate, Error> {
        self.check("add_validator_proposals")?;
        self.proposals_seen.borrow_mut().push((
            block_header_info.header.hash,
            block_header_info.last_finalized_height,
            block_header_info.proposals.len(),
        ));
        Ok(StoreUpdate { writes: vec![42, block_header_info.header.height as u8] })
    }

    fn verify_approvals_and_threshold_orphan(
        &self,
        _epoch_id: &EpochId,
        threshold_mode: DoomslugThresholdMode,
        _prev_block_hash: &CryptoHash,
        prev_block_height: u64,
        block_height: u64,
        approvals: &Vec<u8>,
    ) -> Result<(), Error> {
        self.approvals_seen.borrow_mut().push((
            prev_block_height,
            block_height,
            threshold_mode,
            approvals.clone(),
        ));
        self.check("verify_approvals_and_threshold_orphan")
    }

    fn create_light_client_block(
        &self,
        header: &BlockHeader,
        chain_store: &ChainStoreUpdate<'_>,
    ) -> Result<LightClientBlockView, Error> {
        self.check("create_light_client_block")?;
        self.next_hash_seen.borrow_mut().push(chain_store.get_next_block_hash(&header.prev_hash));
        Ok(light_client_block(header.height))
    }
}

#[derive(Debug, PartialEq)]
struct Applied {
    storage: RuntimeStorageConfig,
    reason: ApplyChunkReason,
    shard_id: u64,
    proposals: usize,
    gas_limit: u64,
    is_new_chunk: bool,
    is_first_block_with_chunk_of_version: bool,
    height: u64,
    block_hash: CryptoHash,
    prev_block_hash: CryptoHash,
    block_timestamp: u64,
    gas_price: u128,
    challenges_result: Vec<u8>,
    random_seed: CryptoHash,
    congestion_shards: usize,
    receipts_from: Vec<CryptoHash>,
    transactions: Vec<u8>,
}

struct Runtime {
    fail: &'static str,
    congestion_info: Option<CongestionInfo>,
    applied: RefCell<Vec<Applied>>,
    flat_saved: RefCell<Vec<(CryptoHash, CryptoHash, u64, ShardUId, Vec<u8>)>>,
    flat_moved: RefCell<Vec<(ShardUId, CryptoHash)>>,
}

impl Runtime {
    fn new() -> Runtime {
        Runtime {
            fail: "",
            congestion_info: None,
            applied: RefCell::new(vec![]),
            flat_saved: RefCell::new(vec![]),
            flat_moved: RefCell::new(vec![]),
        }
    }

    fn check(&self, what: &'static str) -> Result<(), Error> {
        if self.fail == what {
            Err(Error::Other(format!("{what} failed")))
        } else {
            Ok(())
        }
    }
}

impl RuntimeAdapter for Runtime {
    fn apply_chunk(
        &self,
        storage: RuntimeStorageConfig,
        reason: ApplyChunkReason,
        chunk: ApplyChunkShardContext<'_>,
        block: ApplyChunkBlockContext<'_>,
        receipts: &Vec<&ReceiptProofResponse>,
        transactions: &Vec<u8>,
    ) -> Result<ApplyChunkResult, Error> {
        self.check("apply_chunk")?;
        self.applied.borrow_mut().push(Applied {
            storage,
            reason,
            shard_id: chunk.shard_id,
            proposals: chunk.last_validator_proposals.len(),
            gas_limit: chunk.gas_limit,
            is_new_chunk: chunk.is_new_chunk,
            is_first_block_with_chunk_of_version: chunk.is_first_block_with_chunk_of_version,
            height: block.height,
            block_hash: block.block_hash,
            prev_block_hash: block.prev_block_hash,
            block_timestamp: block.block_timestamp,
            gas_price: block.gas_price,
            challenges_result: block.challenges_result.clone(),
            random_seed: block.random_seed,
            congestion_shards: block.congestion_info.len(),
            receipts_from: receipts.iter().map(|r| r.block_hash).collect(),
            transactions: transactions.clone(),
        });
        let mut result = applied(150);
        result.congestion_info = self.congestion_info;
        Ok(result)
    }

    fn compute_outcomes_proof(&self, outcomes: &Vec<u8>) -> (CryptoHash, Vec<u8>) {
        (hash(outcomes.len() as u8 + 60), outcomes.iter().rev().cloned().collect())
    }

    fn save_flat_state_changes(
        &self,
        block_hash: CryptoHash,
        prev_hash: CryptoHash,
        height: u64,
        shard_uid: ShardUId,
        state_changes: &Vec<u8>,
    ) -> Result<StoreUpdate, Error> {
        self.check("save_flat_state_changes")?;
        self.flat_saved.borrow_mut().push((
            block_hash,
            prev_hash,
            height,
            shard_uid,
            state_changes.clone(),
        ));
        let mut writes = vec![shard_uid.version as u8, shard_uid.shard_id as u8];
        writes.extend_from_slice(state_changes);
        Ok(StoreUpdate { writes })
    }

    fn update_flat_storage_for_shard(
        &self,
        shard_uid: ShardUId,
        new_flat_head: CryptoHash,
    ) -> Result<(), Error> {
        self.check("update_flat_storage_for_shard")?;
        self.flat_moved.borrow_mut().push((shard_uid, new_flat_head));
        Ok(())
    }
}

fn chain_update<'a, 'x>(
    store: &'a mut ChainStore,
    epochs: &'x Epochs,
    runtime: &'x Runtime,
) -> ChainUpdate<'a, &'x Epochs, &'x Runtime> {
    ChainUpdate::new(store, epochs, runtime, DoomslugThresholdMode::TwoThirds, 100)
}

/// A store with a genesis block `1` at height 0, at which all tips stand.
fn store_with_genesis() -> ChainStore {
    let mut store = ChainStore::new(0);
    let genesis = header(1, 0, 0, 1, 0);
    let mut genesis = genesis;
    genesis.last_final_block = zero();
    let mut update = store.store_update();
    update.save_block_header(genesis);
    update.save_block(block(genesis));
    let tip = Tip::from_header(&genesis);
    update.save_head(&tip).unwrap();
    update.save_final_head(&tip);
    update.commit();
    store
}

/// Adds the header of a block without moving any tip.
fn add_header(store: &mut ChainStore, header: BlockHeader) {
    let mut update = store.store_update();
    update.save_block_header(header);
    update.save_block(block(header));
    update.commit();
}

/// Processes a block without shards.
fn process(store: &mut ChainStore, header: BlockHeader) -> Result<Option<Tip>, Error> {
    let epochs = Epochs::new(67);
    let runtime = Runtime::new();
    let mut update = chain_update(store, &epochs, &runtime);
    let moved = update.postprocess_block(&block(header), no_info(), vec![], false)?;
    update.commit()?;
    Ok(moved)
}

#[test]
fn empty_store_has_no_tips() {
    let store = ChainStore::new(7);
    assert_eq!(store.get_genesis_height(), 7);
    assert_eq!(store.head(), Err(Error::DBNotFound(Missing::Head)));
    assert_eq!(store.header_head(), Err(Error::DBNotFound(Missing::HeaderHead)));
    assert_eq!(store.final_head(), Err(Error::DBNotFound(Missing::FinalHead)));
    assert_eq!(store.get_block_header(&hash(1)), Err(Error::DBNotFound(Missing::BlockHeader)));
    assert_eq!(store.get_block(&hash(1)).err(), Some(Error::DBNotFound(Missing::Block)));
    assert_eq!(
        store.get_chunk_extra(&hash(1), &shard(0, 0)).err(),
        Some(Error::DBNotFound(Missing::ChunkExtra))
    );
    assert_eq!(
        store.get_block_hash_by_height(0),
        Err(Error::DBNotFound(Missing::BlockHashByHeight))
    );
    assert_eq!(store.get_block_refcount(&hash(1)), 0);
    assert!(!store.is_block_challenged(&hash(1)));
}

#[test]
fn commit_makes_writes_durable() {
    let mut store = store_with_genesis();
    let mut update = store.store_update();
    update.save_chunk_extra(&hash(1), &shard(0, 0), extra(5, 1, 2, &[]));
    assert_eq!(update.get_chunk_extra(&hash(1), &shard(0, 0)).unwrap().gas_used, 1);
    update.commit();
    assert_eq!(store.get_chunk_extra(&hash(1), &shard(0, 0)).unwrap().state_root, hash(5));
}

#[test]
fn dropped_update_leaves_the_store_as_it_was() {
    let mut store = store_with_genesis();
    {
        let epochs = Epochs::new(67);
        let runtime = Runtime::new();
        let mut update = chain_update(&mut store, &epochs, &runtime);
        let moved = update
            .postprocess_block(&block(header(2, 1, 1, 1, 1)), no_info(), vec![], false)
            .unwrap();
        assert_eq!(moved.unwrap().height, 1);
        assert_eq!(update.chain_store_update.head().unwrap().height, 1);
    }
    assert_eq!(store.head().unwrap().height, 0);
    assert_eq!(store.get_block_header(&hash(2)), Err(Error::DBNotFound(Missing::BlockHeader)));
    assert_eq!(store.get_block_refcount(&hash(1)), 0);
}

#[test]
fn update_reads_its_own_writes_over_the_store() {
    let mut store = store_with_genesis();
    let mut update = store.store_update();
    assert_eq!(update.get_block_header(&hash(1)).unwrap().height, 0);
    let mut replaced = header(1, 0, 0, 1, 0);
    replaced.raw_timestamp = 999;
    update.save_block_header(replaced);
    assert_eq!(update.get_block_header(&hash(1)).unwrap().raw_timestamp, 999);
    assert_eq!(update.get_previous_header(&header(2, 1, 1, 1, 1)).unwrap().raw_timestamp, 999);
    update.save_next_block_hash(&hash(1), hash(2));
    assert_eq!(update.get_next_block_hash(&hash(1)), Some(hash(2)));
    assert_eq!(update.get_next_block_hash(&hash(2)), None);
}

#[test]
fn header_below_the_header_head_moves_nothing() {
    let mut store = store_with_genesis();
    add_header(&mut store, header(12, 1, 12, 1, 1));
    {
        let mut update = store.store_update();
        update.save_header_head_if_not_challenged(&Tip::from_header(&header(12, 1, 12, 1, 1))).unwrap();
        update.commit();
    }
    let epochs = Epochs::new(67);
    let runtime = Runtime::new();
    let mut update = chain_update(&mut store, &epochs, &runtime);
    let moved = update.update_header_head_if_not_challenged(&header(10, 1, 10, 1, 1));
    assert_eq!(moved, Ok(None));
    assert_eq!(update.chain_store_update.header_head().unwrap().last_block_hash, hash(12));
    let moved = update.update_header_head_if_not_challenged(&header(13, 1, 12, 1, 1));
    assert_eq!(moved, Ok(None));
    update.commit().unwrap();
    assert_eq!(store.header_head().unwrap().height, 12);
}

#[test]
fn higher_header_moves_the_header_head() {
    let mut store = store_with_genesis();
    let epochs = Epochs::new(67);
    let runtime = Runtime::new();
    let mut update = chain_update(&mut store, &epochs, &runtime);
    let higher = header(5, 1, 3, 2, 1);
    let moved = update.update_header_head_if_not_challenged(&higher).unwrap();
    assert_eq!(
        moved,
        Some(Tip {
            height: 3,
            last_block_hash: hash(5),
            prev_block_hash: hash(1),
            epoch_id: EpochId(hash(2)),
            next_epoch_id: EpochId(hash(3)),
        })
    );
    assert_eq!(update.chain_store_update.header_head().unwrap(), moved.unwrap());
    assert_eq!(update.chain_store_update.head().unwrap().height, 0);
}

#[test]
fn header_head_needs_a_header_head() {
    let mut store = ChainStore::new(0);
    let epochs = Epochs::new(67);
    let runtime = Runtime::new();
    let mut update = chain_update(&mut store, &epochs, &runtime);
    assert_eq!(
        update.update_header_head_if_not_challenged(&header(5, 1, 3, 2, 1)),
        Err(Error::DBNotFound(Missing::HeaderHead))
    );
    assert_eq!(update.update_head(&header(5, 1, 3, 2, 1)), Err(Error::DBNotFound(Missing::FinalHead)));
}

#[test]
fn challenged_header_does_not_become_the_header_head() {
    let mut store = store_with_genesis();
    let epochs = Epochs::new(67);
    let runtime = Runtime::new();
    let mut update = chain_update(&mut store, &epochs, &runtime);
    update.mark_block_as_challenged(&hash(5), None).unwrap();
    assert_eq!(
        update.update_header_head_if_not_challenged(&header(5, 1, 3, 2, 1)),
        Err(Error::ChallengedBlockOnChain)
    );
    assert_eq!(update.chain_store_update.header_head().unwrap().height, 0);
    assert_eq!(update.update_head(&header(5, 1, 3, 2, 1)), Err(Error::ChallengedBlockOnChain));
    assert_eq!(update.chain_store_update.head().unwrap().height, 0);
}

#[test]
fn tips_never_move_back_without_a_challenge() {
    let mut store = store_with_genesis();
    let blocks = [
        header(2, 1, 1, 1, 1),
        header(3, 2, 2, 1, 1),
        header(4, 2, 2, 1, 2),
        header(5, 3, 3, 1, 2),
        header(6, 1, 1, 1, 1),
        header(7, 5, 4, 1, 3),
        header(8, 4, 3, 1, 2),
    ];
    let mut heights = (0u64, 0u64, 0u64);
    for header in blocks {
        process(&mut store, header).unwrap();
        let now = (
            store.header_head().unwrap().height,
            store.head().unwrap().height,
            store.final_head().unwrap().height,
        );
        assert!(now.0 >= heights.0 && now.1 >= heights.1 && now.2 >= heights.2);
        assert!(now.2 <= now.1);
        heights = now;
    }
    assert_eq!(heights, (4, 4, 2));
    assert_eq!(store.head().unwrap().last_block_hash, hash(7));
    assert_eq!(store.final_head().unwrap().last_block_hash, hash(3));
}

#[test]
fn block_that_does_not_raise_the_head_moves_no_tip() {
    let mut store = store_with_genesis();
    assert_eq!(process(&mut store, header(2, 1, 1, 1, 1)).unwrap().unwrap().height, 1);
    assert_eq!(process(&mut store, header(3, 1, 1, 1, 1)).unwrap(), None);
    assert_eq!(store.head().unwrap().last_block_hash, hash(2));
    assert_eq!(store.get_block_hash_by_height(1), Ok(hash(2)));
    assert_eq!(store.get_block_header(&hash(3)).unwrap().height, 1);
    assert_eq!(store.get_block_refcount(&hash(1)), 2);
}

#[test]
fn unknown_last_final_block_is_no_failure() {
    let mut store = store_with_genesis();
    let epochs = Epochs::new(67);
    let runtime = Runtime::new();
    let mut update = chain_update(&mut store, &epochs, &runtime);
    assert_eq!(update.update_final_head_from_block(&header(2, 1, 1, 1, 99)), Ok(None));
    let moved = update.update_head(&header(2, 1, 1, 1, 99)).unwrap();
    assert_eq!(moved.unwrap().last_block_hash, hash(2));
    assert_eq!(update.chain_store_update.final_head().unwrap().height, 0);
}

#[test]
fn final_head_follows_the_last_final_block() {
    let mut store = store_with_genesis();
    process(&mut store, header(2, 1, 1, 1, 1)).unwrap();
    process(&mut store, header(3, 2, 2, 1, 2)).unwrap();
    assert_eq!(store.final_head().unwrap().last_block_hash, hash(2));
    let epochs = Epochs::new(67);
    let runtime = Runtime::new();
    let mut update = chain_update(&mut store, &epochs, &runtime);
    assert_eq!(update.update_final_head_from_block(&header(4, 3, 3, 1, 1)), Ok(None));
    assert_eq!(
        update.update_final_head_from_block(&header(4, 3, 3, 1, 3)).unwrap().unwrap().height,
        2
    );
}

#[test]
fn challenge_of_unknown_block_only_marks_it() {
    let mut store = store_with_genesis();
    process(&mut store, header(2, 1, 1, 1, 1)).unwrap();
    let before = (store.head(), store.header_head(), store.final_head());
    let epochs = Epochs::new(67);
    let runtime = Runtime::new();
    let mut update = chain_update(&mut store, &epochs, &runtime);
    assert_eq!(update.mark_block_as_challenged(&hash(77), Some(&hash(2))), Ok(()));
    assert!(update.chain_store_update.is_block_challenged(&hash(77)));
    update.commit().unwrap();
    assert_eq!((store.head(), store.header_head(), store.final_head()), before);
    assert!(store.is_block_challenged(&hash(77)));
    assert_eq!(store.get_challenger(&hash(77)), Some(hash(2)));
    assert!(!store.is_block_challenged(&hash(2)));
    assert_eq!(store.get_challenger(&hash(2)), None);
}

#[test]
fn challenge_of_a_block_off_the_canonical_chain_only_marks_it() {
    let mut store = store_with_genesis();
    process(&mut store, header(2, 1, 1, 1, 1)).unwrap();
    process(&mut store, header(3, 1, 1, 1, 1)).unwrap();
    let epochs = Epochs::new(67);
    let runtime = Runtime::new();
    let mut update = chain_update(&mut store, &epochs, &runtime);
    assert_eq!(update.mark_block_as_challenged(&hash(3), None), Ok(()));
    update.commit().unwrap();
    assert_eq!(store.head().unwrap().last_block_hash, hash(2));
    assert!(store.is_block_challenged(&hash(3)));
    assert_eq!(store.get_challenger(&hash(3)), None);
}

#[test]
fn challenge_with_higher_challenger_moves_the_head_to_it() {
    let mut store = store_with_genesis();
    process(&mut store, header(2, 1, 1, 1, 1)).unwrap();
    process(&mut store, header(3, 2, 2, 1, 1)).unwrap();
    add_header(&mut store, header(9, 2, 5, 1, 2));
    let epochs = Epochs::new(67);
    let runtime = Runtime::new();
    let mut update = chain_update(&mut store, &epochs, &runtime);
    assert_eq!(update.mark_block_as_challenged(&hash(3), Some(&hash(9))), Ok(()));
    update.commit().unwrap();
    assert_eq!(store.head().unwrap(), Tip::from_header(&header(9, 2, 5, 1, 2)));
    assert_eq!(store.header_head().unwrap().last_block_hash, hash(9));
    assert_eq!(store.final_head().unwrap().last_block_hash, hash(2));
    assert_eq!(store.get_block_hash_by_height(5), Ok(hash(9)));
    assert!(store.is_block_challenged(&hash(3)));
}

#[test]
fn challenge_without_challenger_moves_the_head_to_the_predecessor() {
    let mut store = store_with_genesis();
    process(&mut store, header(2, 1, 1, 1, 1)).unwrap();
    process(&mut store, header(3, 2, 2, 1, 2)).unwrap();
    assert_eq!(store.final_head().unwrap().height, 1);
    let epochs = Epochs::new(67);
    let runtime = Runtime::new();
    let mut update = chain_update(&mut store, &epochs, &runtime);
    assert_eq!(update.mark_block_as_challenged(&hash(3), None), Ok(()));
    update.commit().unwrap();
    assert_eq!(store.head().unwrap().last_block_hash, hash(2));
    assert_eq!(store.head().unwrap().height, 1);
    assert_eq!(store.header_head().unwrap().height, 1);
    assert_eq!(store.final_head().unwrap().last_block_hash, hash(1));
}

#[test]
fn challenge_with_challenger_not_above_the_predecessor_moves_the_head_to_the_predecessor() {
    let mut store = store_with_genesis();
    process(&mut store, header(2, 1, 1, 1, 1)).unwrap();
    process(&mut store, header(3, 2, 2, 1, 1)).unwrap();
    add_header(&mut store, header(9, 1, 1, 1, 1));
    add_header(&mut store, header(8, 1, 0, 1, 1));
    for challenger in [9u8, 8u8] {
        let epochs = Epochs::new(67);
        let runtime = Runtime::new();
        let mut update = chain_update(&mut store, &epochs, &runtime);
        assert_eq!(update.mark_block_as_challenged(&hash(3), Some(&hash(challenger))), Ok(()));
        assert_eq!(update.chain_store_update.head().unwrap().last_block_hash, hash(2));
    }
}

#[test]
fn challenge_fails_where_a_header_it_needs_is_missing() {
    let mut store = store_with_genesis();
    process(&mut store, header(2, 1, 1, 1, 1)).unwrap();
    process(&mut store, header(3, 2, 2, 1, 1)).unwrap();
    let epochs = Epochs::new(67);
    let runtime = Runtime::new();
    let mut update = chain_update(&mut store, &epochs, &runtime);
    assert_eq!(
        update.mark_block_as_challenged(&hash(3), Some(&hash(50))),
        Err(Error::DBNotFound(Missing::BlockHeader))
    );
    drop(update);
    assert!(!store.is_block_challenged(&hash(3)));
    assert_eq!(store.head().unwrap().last_block_hash, hash(3));
}

#[test]
fn challenged_challenger_cannot_become_the_head() {
    let mut store = store_with_genesis();
    process(&mut store, header(2, 1, 1, 1, 1)).unwrap();
    process(&mut store, header(3, 2, 2, 1, 1)).unwrap();
    let epochs = Epochs::new(67);
    let runtime = Runtime::new();
    let mut update = chain_update(&mut store, &epochs, &runtime);
    assert_eq!(
        update.mark_block_as_challenged(&hash(3), Some(&hash(3))),
        Err(Error::ChallengedBlockOnChain)
    );
}

#[test]
fn block_stages_header_block_tips_and_bookkeeping() {
    let mut store = store_with_genesis();
    let epochs = Epochs::new(67);
    let runtime = Runtime::new();
    let new = header(2, 1, 1, 1, 1);
    let info = BlockPreprocessInfo {
        is_caught_up: false,
        state_sync_info: Some(StateSyncInfo {
            epoch_tail_hash: hash(2),
            shards: vec![(3, hash(30))],
        }),
        incoming_receipts: vec![(0, vec![1]), (1, vec![2, 2])],
        challenges_result: vec![7],
        challenged_blocks: vec![hash(90)],
    };
    let results = vec![(
        0,
        Ok(ShardUpdateResult::NewChunk(NewChunkResult {
            shard_uid: shard(0, 0),
            gas_limit: 500,
            apply_result: applied(20),
            resharding_results: None,
        })),
    )];
    let mut update = chain_update(&mut store, &epochs, &runtime);
    let moved = update.postprocess_block(&block(new), info, results, true).unwrap();
    assert_eq!(moved, Some(Tip::from_header(&new)));
    update.commit().unwrap();

    assert_eq!(store.get_block_header(&hash(2)), Ok(new));
    assert_eq!(store.get_block(&hash(2)).unwrap(), &block(new));
    assert_eq!(store.head().unwrap().last_block_hash, hash(2));
    assert_eq!(store.header_head().unwrap().last_block_hash, hash(2));
    assert_eq!(store.final_head().unwrap().last_block_hash, hash(1));
    assert_eq!(store.get_block_hash_by_height(1), Ok(hash(2)));
    assert_eq!(store.get_block_refcount(&hash(1)), 1);
    assert!(store.is_block_challenged(&hash(90)));
    assert_eq!(store.blocks_to_catchup(), &vec![(hash(1), hash(2))]);
    assert_eq!(store.state_sync_infos().len(), 1);
    assert_eq!(store.state_sync_infos()[0].epoch_tail_hash, hash(2));

    let checkpoint = store.get_chunk_extra(&hash(2), &shard(0, 0)).unwrap();
    assert_eq!(checkpoint.state_root, hash(20));
    assert_eq!(checkpoint.outcome_root, hash(62));
    assert_eq!(checkpoint.gas_used, 77);
    assert_eq!(checkpoint.gas_limit, 500);
    assert_eq!(checkpoint.balance_burnt, 88);
    assert_eq!(checkpoint.validator_proposals.len(), 1);
    assert_eq!(checkpoint.congestion_info, None);

    assert_eq!(
        store.get_record(&RecordKey::OutgoingReceipts { block_hash: hash(2), shard_id: 0 }),
        Some(&Record::OutgoingReceipts(vec![20, 4]))
    );
    assert_eq!(
        store.get_record(&RecordKey::OutcomesWithProofs { block_hash: hash(2), shard_id: 0 }),
        Some(&Record::OutcomesWithProofs { outcomes: vec![20, 3], proofs: vec![3, 20] })
    );
    assert_eq!(
        store.get_record(&RecordKey::StateTransitionData { block_hash: hash(2), shard_id: 0 }),
        Some(&Record::StateTransitionData {
            proof: Some(vec![20, 5]),
            applied_receipts_hash: hash(120),
        })
    );
    assert_eq!(
        store.get_record(&RecordKey::IncomingReceipts { block_hash: hash(2), shard_id: 1 }),
        Some(&Record::IncomingReceipts(vec![2, 2]))
    );
    assert_eq!(
        store.get_record(&RecordKey::IncomingReceipts { block_hash: hash(2), shard_id: 0 }),
        Some(&Record::IncomingReceipts(vec![1]))
    );
    assert_eq!(
        store.get_record(&RecordKey::BlockExtra { block_hash: hash(2) }),
        Some(&Record::BlockExtra { challenges_result: vec![7] })
    );
    assert_eq!(store.get_record(&RecordKey::BlockExtra { block_hash: hash(1) }), None);
    assert_eq!(store.trie_changes().len(), 1);
    assert_eq!(store.trie_changes()[0].state_changes, vec![20, 1]);
    assert_eq!(
        store.store_updates(),
        &vec![StoreUpdate { writes: vec![0, 0, 20, 1] }, StoreUpdate { writes: vec![42, 1] }]
    );
    assert_eq!(
        runtime.flat_saved.borrow().as_slice(),
        &[(hash(2), hash(1), 1, shard(0, 0), vec![20, 1])]
    );
    assert_eq!(epochs.proposals_seen.borrow().as_slice(), &[(hash(2), 0, 1)]);
}

#[test]
fn state_transition_data_is_kept_only_on_request() {
    let mut store = store_with_genesis();
    let epochs = Epochs::new(67);
    let runtime = Runtime::new();
    let mut update = chain_update(&mut store, &epochs, &runtime);
    let result = ShardUpdateResult::NewChunk(NewChunkResult {
        shard_uid: shard(0, 4),
        gas_limit: 500,
        apply_result: applied(20),
        resharding_results: None,
    });
    update.process_apply_chunk_result(&block(header(2, 1, 1, 1, 1)), result, false).unwrap();
    assert_eq!(
        update
            .chain_store_update
            .get_record(&RecordKey::StateTransitionData { block_hash: hash(2), shard_id: 4 }),
        None
    );
    assert!(update
        .chain_store_update
        .get_record(&RecordKey::OutgoingReceipts { block_hash: hash(2), shard_id: 4 })
        .is_some());
}

#[test]
fn last_finalized_height_is_read_from_the_final_block() {
    let mut store = store_with_genesis();
    process(&mut store, header(2, 1, 1, 1, 1)).unwrap();
    process(&mut store, header(3, 2, 2, 1, 2)).unwrap();
    let epochs = Epochs::new(67);
    let runtime = Runtime::new();
    let mut update = chain_update(&mut store, &epochs, &runtime);
    update.postprocess_block(&block(header(4, 3, 3, 1, 3)), no_info(), vec![], false).unwrap();
    let mut first = header(5, 4, 4, 1, 0);
    first.last_final_block = zero();
    update.postprocess_block(&block(first), no_info(), vec![], false).unwrap();
    assert_eq!(epochs.proposals_seen.borrow().as_slice(), &[(hash(4), 2, 1), (hash(5), 0, 1)]);
}

#[test]
fn block_with_unknown_last_final_block_is_refused() {
    let mut store = store_with_genesis();
    let epochs = Epochs::new(67);
    let runtime = Runtime::new();
    let mut update = chain_update(&mut store, &epochs, &runtime);
    assert_eq!(
        update.postprocess_block(&block(header(2, 1, 1, 1, 99)), no_info(), vec![], false),
        Err(Error::DBNotFound(Missing::BlockHeader))
    );
}

#[test]
fn failed_shard_fails_the_block_before_anything_is_staged() {
    let mut store = store_with_genesis();
    let epochs = Epochs::new(67);
    let runtime = Runtime::new();
    let results = vec![
        (
            0,
            Ok(ShardUpdateResult::NewChunk(NewChunkResult {
                shard_uid: shard(0, 0),
                gas_limit: 500,
                apply_result: applied(20),
                resharding_results: None,
            })),
        ),
        (1, Err(Error::Other("shard 1".to_string()))),
        (2, Err(Error::Other("shard 2".to_string()))),
    ];
    let mut update = chain_update(&mut store, &epochs, &runtime);
    let done = update.postprocess_block(&block(header(2, 1, 1, 1, 1)), no_info(), results, false);
    assert_eq!(done, Err(Error::Other("shard 1".to_string())));
    assert_eq!(
        update.chain_store_update.get_chunk_extra(&hash(2), &shard(0, 0)).err(),
        Some(Error::DBNotFound(Missing::ChunkExtra))
    );
    assert_eq!(update.chain_store_update.get_block_header(&hash(2)).is_err(), true);
    assert!(runtime.flat_saved.borrow().is_empty());
}

#[test]
fn failure_of_a_collaborator_fails_the_block() {
    for (epochs_fail, runtime_fail) in [
        ("get_epoch_id_from_prev_block", ""),
        ("get_epoch_protocol_version", ""),
        ("add_validator_proposals", ""),
        ("", "save_flat_state_changes"),
    ] {
        let mut store = store_with_genesis();
        let mut epochs = Epochs::new(67);
        epochs.fail = epochs_fail;
        let mut runtime = Runtime::new();
        runtime.fail = runtime_fail;
        let results = vec![(
            0,
            Ok(ShardUpdateResult::NewChunk(NewChunkResult {
                shard_uid: shard(0, 0),
                gas_limit: 500,
                apply_result: applied(20),
                resharding_results: None,
            })),
        )];
        let mut update = chain_update(&mut store, &epochs, &runtime);
        let done =
            update.postprocess_block(&block(header(2, 1, 1, 1, 1)), no_info(), results, false);
        assert_eq!(done, Err(Error::Other(format!("{epochs_fail}{runtime_fail} failed"))));
        drop(update);
        assert_eq!(store.head().unwrap().height, 0);
        assert!(store.get_chunk_extra(&hash(2), &shard(0, 0)).is_err());
    }
}

#[test]
fn staging_a_block_twice_commits_one_checkpoint_per_shard() {
    let mut once = store_with_genesis();
    let mut twice = store_with_genesis();
    let new = header(2, 1, 1, 1, 1);
    let result = || {
        ShardUpdateResult::NewChunk(NewChunkResult {
            shard_uid: shard(0, 0),
            gas_limit: 500,
            apply_result: applied(20),
            resharding_results: None,
        })
    };
    let epochs = Epochs::new(67);
    let runtime = Runtime::new();
    {
        let mut update = chain_update(&mut once, &epochs, &runtime);
        update.apply_chunk_postprocessing(&block(new), vec![result()], true).unwrap();
        update.commit().unwrap();
    }
    {
        let mut update = chain_update(&mut twice, &epochs, &runtime);
        update.apply_chunk_postprocessing(&block(new), vec![result()], true).unwrap();
        update.apply_chunk_postprocessing(&block(new), vec![result()], true).unwrap();
        update.commit().unwrap();
    }
    let a = once.get_chunk_extra(&hash(2), &shard(0, 0)).unwrap();
    let b = twice.get_chunk_extra(&hash(2), &shard(0, 0)).unwrap();
    assert_eq!(a, b);
    assert_eq!(b.gas_used, 77);
    assert_eq!(b.balance_burnt, 88);
    assert_eq!(
        once.get_record(&RecordKey::OutgoingReceipts { block_hash: hash(2), shard_id: 0 }),
        twice.get_record(&RecordKey::OutgoingReceipts { block_hash: hash(2), shard_id: 0 })
    );
}

#[test]
fn checkpoint_must_fit_the_protocol_version() {
    let with_info = Some(CongestionInfo {
        delayed_receipts_gas: 1,
        buffered_receipts_gas: 2,
        receipt_bytes: 3,
        allowed_shard: 4,
    });
    let make = |version: u32, info: Option<CongestionInfo>| {
        ChunkExtra::new(version, &hash(1), hash(2), vec![], 3, 4, 5, info)
    };
    assert!(make(67, None).is_ok());
    assert!(make(0, None).is_ok());
    assert_eq!(make(68, None), Err(Error::InternalDefect(Defect::CongestionInfoMismatch)));
    assert_eq!(make(67, with_info), Err(Error::InternalDefect(Defect::CongestionInfoMismatch)));
    let made = make(68, with_info).unwrap();
    assert_eq!(made.congestion_info, with_info);
    assert_eq!(made.state_root, hash(1));
    assert_eq!(made.outcome_root, hash(2));
    assert_eq!((made.gas_used, made.gas_limit, made.balance_burnt), (3, 4, 5));
    assert!(make(u32::MAX, with_info).is_ok());
}

#[test]
fn new_chunk_with_misfitting_congestion_info_is_refused() {
    let mut store = store_with_genesis();
    let epochs = Epochs::new(68);
    let runtime = Runtime::new();
    let mut update = chain_update(&mut store, &epochs, &runtime);
    let result = ShardUpdateResult::NewChunk(NewChunkResult {
        shard_uid: shard(0, 0),
        gas_limit: 500,
        apply_result: applied(20),
        resharding_results: None,
    });
    assert_eq!(
        update.process_apply_chunk_result(&block(header(2, 1, 1, 1, 1)), result, false),
        Err(Error::InternalDefect(Defect::CongestionInfoMismatch))
    );
}

#[test]
fn missing_chunk_carries_the_checkpoint_forward() {
    let mut store = store_with_genesis();
    {
        let mut update = store.store_update();
        update.save_chunk_extra(&hash(1), &shard(0, 0), extra(5, 11, 22, &["aaa", "bbb"]));
        update.commit();
    }
    let epochs = Epochs::new(67);
    let runtime = Runtime::new();
    let mut update = chain_update(&mut store, &epochs, &runtime);
    let result = ShardUpdateResult::OldChunk(OldChunkResult {
        shard_uid: shard(0, 0),
        apply_result: applied(30),
        resharding_results: None,
    });
    update.process_apply_chunk_result(&block(header(2, 1, 1, 1, 1)), result, true).unwrap();
    update.commit().unwrap();
    let mut expected = extra(5, 11, 22, &["aaa", "bbb"]);
    expected.state_root = hash(30);
    assert_eq!(store.get_chunk_extra(&hash(2), &shard(0, 0)).unwrap(), &expected);
    assert_eq!(store.get_chunk_extra(&hash(1), &shard(0, 0)).unwrap().state_root, hash(5));
    assert_eq!(store.trie_changes()[0].state_changes, vec![30, 1]);
    assert_eq!(store.store_updates(), &vec![StoreUpdate { writes: vec![0, 0, 30, 1] }]);
    assert_eq!(
        store.get_record(&RecordKey::StateTransitionData { block_hash: hash(2), shard_id: 0 }),
        Some(&Record::StateTransitionData {
            proof: Some(vec![30, 5]),
            applied_receipts_hash: hash(130),
        })
    );
    assert_eq!(
        store.get_record(&RecordKey::OutgoingReceipts { block_hash: hash(2), shard_id: 0 }),
        None
    );
}

#[test]
fn missing_chunk_without_a_checkpoint_before_is_refused() {
    let mut store = store_with_genesis();
    let epochs = Epochs::new(67);
    let runtime = Runtime::new();
    let mut update = chain_update(&mut store, &epochs, &runtime);
    let result = ShardUpdateResult::OldChunk(OldChunkResult {
        shard_uid: shard(0, 0),
        apply_result: applied(30),
        resharding_results: None,
    });
    assert_eq!(
        update.process_apply_chunk_result(&block(header(2, 1, 1, 1, 1)), result, true),
        Err(Error::DBNotFound(Missing::ChunkExtra))
    );
}

fn store_with_parent(gas_used: u64, balance_burnt: u128, accounts: &[&str]) -> ChainStore {
    let mut store = store_with_genesis();
    let mut update = store.store_update();
    update.save_chunk_extra(&hash(2), &shard(0, 0), extra(5, gas_used, balance_burnt, accounts));
    update.commit();
    store
}

#[test]
fn split_in_three_shares_gas_and_balance() {
    let mut store = store_with_parent(100, 7, &["zzz", "aaa", "bbb"]);
    let epochs = Epochs::new(67);
    let runtime = Runtime::new();
    let mut update = chain_update(&mut store, &epochs, &runtime);
    let result = ShardUpdateResult::Resharding(ReshardingResult {
        shard_uid: shard(0, 0),
        results: vec![child(1, 2, 12), child(1, 0, 10), child(1, 1, 11)],
    });
    update.process_apply_chunk_result(&block(header(2, 1, 1, 1, 1)), result, false).unwrap();
    update.commit().unwrap();
    let children: Vec<&ChunkExtra> =
        (0..3).map(|i| store.get_chunk_extra(&hash(2), &shard(1, i)).unwrap()).collect();
    assert_eq!(children.iter().map(|c| c.gas_used).collect::<Vec<u64>>(), vec![34, 33, 33]);
    assert_eq!(children.iter().map(|c| c.balance_burnt).collect::<Vec<u128>>(), vec![3, 2, 2]);
    assert_eq!(children.iter().map(|c| c.gas_used).sum::<u64>(), 100);
    assert_eq!(children.iter().map(|c| c.balance_burnt).sum::<u128>(), 7);
    assert_eq!(
        children.iter().map(|c| c.state_root).collect::<Vec<CryptoHash>>(),
        vec![hash(10), hash(11), hash(12)]
    );
    for c in &children {
        assert_eq!(c.outcome_root, hash(6));
        assert_eq!(c.gas_limit, 1_000);
        assert_eq!(c.validator_proposals.len(), 1);
    }
    assert_eq!(children[2].validator_proposals[0].account_id().as_str(), "zzz");
    assert_eq!(store.get_chunk_extra(&hash(2), &shard(0, 0)).unwrap().gas_used, 100);
    assert_eq!(
        store.trie_changes().iter().map(|t| t.state_changes.clone()).collect::<Vec<Vec<u8>>>(),
        vec![vec![10], vec![11], vec![12]]
    );
    assert_eq!(
        store.store_updates(),
        &vec![
            StoreUpdate { writes: vec![1, 0, 10] },
            StoreUpdate { writes: vec![1, 1, 11] },
            StoreUpdate { writes: vec![1, 2, 12] },
        ]
    );
    assert_eq!(
        runtime.flat_moved.borrow().as_slice(),
        &[(shard(1, 0), hash(1)), (shard(1, 1), hash(1)), (shard(1, 2), hash(1))]
    );
}

#[test]
fn split_does_not_depend_on_the_order_of_the_results() {
    let orders: [[u32; 3]; 3] = [[0, 1, 2], [2, 1, 0], [1, 2, 0]];
    let mut seen: Vec<Vec<(u64, u128, CryptoHash)>> = vec![];
    for order in orders {
        let mut store = store_with_parent(100, 7, &["zzz", "aaa", "bbb"]);
        let epochs = Epochs::new(67);
        let runtime = Runtime::new();
        let mut update = chain_update(&mut store, &epochs, &runtime);
        let results = order.iter().map(|i| child(1, *i, 10 + *i as u8)).collect();
        update
            .process_resharding_results(
                &block(header(2, 1, 1, 1, 1)),
                &shard(0, 0),
                ReshardingResults::ApplyReshardingResults(results),
            )
            .unwrap();
        update.commit().unwrap();
        seen.push(
            (0..3)
                .map(|i| {
                    let c = store.get_chunk_extra(&hash(2), &shard(1, i)).unwrap();
                    (c.gas_used, c.balance_burnt, c.state_root)
                })
                .collect(),
        );
    }
    assert_eq!(seen[0], seen[1]);
    assert_eq!(seen[0], seen[2]);
    assert_eq!(seen[0][0], (34, 3, hash(10)));
}

#[test]
fn flat_storage_stays_where_no_final_block_is_known() {
    let mut store = store_with_parent(9, 9, &[]);
    let epochs = Epochs::new(67);
    let runtime = Runtime::new();
    let mut update = chain_update(&mut store, &epochs, &runtime);
    let mut first = header(2, 1, 1, 1, 0);
    first.last_final_block = zero();
    update
        .process_resharding_results(
            &block(first),
            &shard(0, 0),
            ReshardingResults::ApplyReshardingResults(vec![
                child(1, 0, 10),
                child(1, 1, 11),
                child(1, 2, 12),
            ]),
        )
        .unwrap();
    assert!(runtime.flat_moved.borrow().is_empty());
    assert_eq!(runtime.flat_saved.borrow().len(), 3);
    assert_eq!(runtime.flat_saved.borrow()[1], (hash(2), hash(1), 1, shard(1, 1), vec![11]));
}

#[test]
fn split_that_fails_stages_nothing() {
    let cases: [(&str, &str, u32, usize, Error); 7] = [
        ("get_next_epoch_id_from_prev_block", "", 67, 3, Error::Other("get_next_epoch_id_from_prev_block failed".to_string())),
        ("get_shard_layout", "", 67, 3, Error::Other("get_shard_layout failed".to_string())),
        ("get_epoch_protocol_version", "", 67, 3, Error::Other("get_epoch_protocol_version failed".to_string())),
        ("", "save_flat_state_changes", 67, 3, Error::Other("save_flat_state_changes failed".to_string())),
        ("", "update_flat_storage_for_shard", 67, 3, Error::Other("update_flat_storage_for_shard failed".to_string())),
        ("", "", 68, 3, Error::CongestionControlWithResharding),
        ("", "", 67, 2, Error::InternalDefect(Defect::ChildResultCount)),
    ];
    for (epochs_fail, runtime_fail, version, n, expected) in cases {
        let mut store = store_with_parent(100, 7, &["aaa"]);
        let mut epochs = Epochs::new(version);
        epochs.fail = epochs_fail;
        let mut runtime = Runtime::new();
        runtime.fail = runtime_fail;
        let mut update = chain_update(&mut store, &epochs, &runtime);
        let results = (0..n as u32).map(|i| child(1, i, 10)).collect();
        let done = update.process_resharding_results(
            &block(header(2, 1, 1, 1, 1)),
            &shard(0, 0),
            ReshardingResults::ApplyReshardingResults(results),
        );
        assert_eq!(done, Err(expected));
        assert!(update.chain_store_update.get_chunk_extra(&hash(2), &shard(1, 0)).is_err());
        update.commit().unwrap();
        assert!(store.trie_changes().is_empty());
        assert!(store.store_updates().is_empty());
    }
}

#[test]
fn split_without_the_checkpoint_of_the_parent_is_refused() {
    let mut store = store_with_genesis();
    let epochs = Epochs::new(67);
    let runtime = Runtime::new();
    let mut update = chain_update(&mut store, &epochs, &runtime);
    let done = update.process_resharding_results(
        &block(header(2, 1, 1, 1, 1)),
        &shard(0, 0),
        ReshardingResults::ApplyReshardingResults(vec![child(1, 0, 10)]),
    );
    assert_eq!(done, Err(Error::DBNotFound(Missing::ChunkExtra)));
}

#[test]
fn state_changes_before_the_split_are_kept_for_replay() {
    let mut store = store_with_genesis();
    let epochs = Epochs::new(100);
    let runtime = Runtime::new();
    let mut update = chain_update(&mut store, &epochs, &runtime);
    update
        .process_resharding_results(
            &block(header(2, 1, 1, 1, 1)),
            &shard(3, 7),
            ReshardingResults::StoreReshardingResults(vec![4, 5, 6]),
        )
        .unwrap();
    update.commit().unwrap();
    assert_eq!(
        store.get_record(&RecordKey::StateChangesForResharding { block_hash: hash(2), shard_id: 7 }),
        Some(&Record::StateChangesForResharding(vec![4, 5, 6]))
    );
    assert!(store.trie_changes().is_empty());
    assert!(runtime.flat_saved.borrow().is_empty());
}

#[test]
fn new_chunk_of_a_shard_that_splits_stages_parent_and_children() {
    let mut store = store_with_genesis();
    let epochs = Epochs::new(67);
    let runtime = Runtime::new();
    let mut update = chain_update(&mut store, &epochs, &runtime);
    let mut result = applied(20);
    result.total_gas_burnt = 10;
    result.total_balance_burnt = 4;
    let result = ShardUpdateResult::NewChunk(NewChunkResult {
        shard_uid: shard(0, 0),
        gas_limit: 500,
        apply_result: result,
        resharding_results: Some(ReshardingResults::ApplyReshardingResults(vec![
            child(1, 1, 11),
            child(1, 2, 12),
            child(1, 0, 10),
        ])),
    });
    update.process_apply_chunk_result(&block(header(2, 1, 1, 1, 1)), result, false).unwrap();
    update.commit().unwrap();
    assert_eq!(store.get_chunk_extra(&hash(2), &shard(0, 0)).unwrap().gas_used, 10);
    let gas: Vec<u64> =
        (0..3).map(|i| store.get_chunk_extra(&hash(2), &shard(1, i)).unwrap().gas_used).collect();
    assert_eq!(gas, vec![4, 3, 3]);
    let balance: Vec<u128> = (0..3)
        .map(|i| store.get_chunk_extra(&hash(2), &shard(1, i)).unwrap().balance_burnt)
        .collect();
    assert_eq!(balance, vec![2, 1, 1]);
    assert_eq!(store.get_chunk_extra(&hash(2), &shard(1, 0)).unwrap().outcome_root, hash(62));
    assert_eq!(store.trie_changes().len(), 4);
}

#[test]
fn shard_whose_split_fails_stages_nothing() {
    for (epochs_fail, runtime_fail) in
        [("get_shard_layout", ""), ("", "update_flat_storage_for_shard")]
    {
        let mut store = store_with_genesis();
        {
            let mut update = store.store_update();
            update.save_chunk_extra(&hash(1), &shard(0, 0), extra(5, 11, 22, &[]));
            update.commit();
        }
        let mut epochs = Epochs::new(67);
        epochs.fail = epochs_fail;
        let mut runtime = Runtime::new();
        runtime.fail = runtime_fail;
        let mut update = chain_update(&mut store, &epochs, &runtime);
        let children = || {
            Some(ReshardingResults::ApplyReshardingResults(vec![
                child(1, 1, 11),
                child(1, 2, 12),
                child(1, 0, 10),
            ]))
        };
        let new_chunk = ShardUpdateResult::NewChunk(NewChunkResult {
            shard_uid: shard(0, 0),
            gas_limit: 500,
            apply_result: applied(20),
            resharding_results: children(),
        });
        let old_chunk = ShardUpdateResult::OldChunk(OldChunkResult {
            shard_uid: shard(0, 0),
            apply_result: applied(30),
            resharding_results: children(),
        });
        for result in [new_chunk, old_chunk] {
            let done =
                update.process_apply_chunk_result(&block(header(2, 1, 1, 1, 1)), result, true);
            assert_eq!(done, Err(Error::Other(format!("{epochs_fail}{runtime_fail} failed"))));
            assert!(update.chain_store_update.get_chunk_extra(&hash(2), &shard(0, 0)).is_err());
            assert!(update.chain_store_update.get_chunk_extra(&hash(2), &shard(1, 0)).is_err());
            assert_eq!(
                update
                    .chain_store_update
                    .get_record(&RecordKey::OutgoingReceipts { block_hash: hash(2), shard_id: 0 }),
                None
            );
        }
        update.commit().unwrap();
        assert!(store.trie_changes().is_empty());
        assert!(store.store_updates().is_empty());
    }
}

#[test]
fn first_failure_of_a_split_is_handed_on() {
    // The layout names three children: two results are a defect, whatever
    // the epoch manager would have answered for the protocol version.
    let two = || vec![child(1, 0, 10), child(1, 1, 11)];
    let three = || vec![child(1, 2, 12), child(1, 0, 10), child(1, 1, 11)];
    let cases: [(&str, &str, u32, bool, Error); 6] = [
        ("get_epoch_protocol_version", "", 68, false, Error::InternalDefect(Defect::ChildResultCount)),
        ("get_shard_layout", "", 68, false, Error::Other("get_shard_layout failed".to_string())),
        ("get_epoch_id_from_prev_block", "", 68, true, Error::Other("get_epoch_id_from_prev_block failed".to_string())),
        ("", "save_flat_state_changes", 68, true, Error::CongestionControlWithResharding),
        ("", "save_flat_state_changes", 67, true, Error::Other("save_flat_state_changes failed".to_string())),
        ("", "update_flat_storage_for_shard", 67, true, Error::Other("update_flat_storage_for_shard failed".to_string())),
    ];
    for (epochs_fail, runtime_fail, version, all_children, expected) in cases {
        let mut store = store_with_parent(100, 7, &["aaa"]);
        let mut epochs = Epochs::new(version);
        epochs.fail = epochs_fail;
        let mut runtime = Runtime::new();
        runtime.fail = runtime_fail;
        let mut update = chain_update(&mut store, &epochs, &runtime);
        let results = if all_children { three() } else { two() };
        let done = update.process_resharding_results(
            &block(header(2, 1, 1, 1, 1)),
            &shard(0, 0),
            ReshardingResults::ApplyReshardingResults(results),
        );
        assert_eq!(done, Err(expected));
    }
    // Flat storage is asked child by child, in the order of the children, and
    // no further once it has failed.
    let mut store = store_with_parent(100, 7, &[]);
    let epochs = Epochs::new(67);
    let mut runtime = Runtime::new();
    runtime.fail = "update_flat_storage_for_shard";
    let mut update = chain_update(&mut store, &epochs, &runtime);
    let done = update.process_resharding_results(
        &block(header(2, 1, 1, 1, 1)),
        &shard(0, 0),
        ReshardingResults::ApplyReshardingResults(three()),
    );
    assert!(done.is_err());
    assert_eq!(
        runtime.flat_saved.borrow().as_slice(),
        &[(hash(2), hash(1), 1, shard(1, 0), vec![10])]
    );
}

#[test]
fn first_failure_of_a_new_chunk_is_handed_on() {
    let cases: [(&str, &str, u32, Error); 5] = [
        ("get_epoch_id_from_prev_block", "save_flat_state_changes", 68, Error::Other("get_epoch_id_from_prev_block failed".to_string())),
        ("get_epoch_protocol_version", "save_flat_state_changes", 68, Error::Other("get_epoch_protocol_version failed".to_string())),
        ("", "save_flat_state_changes", 68, Error::InternalDefect(Defect::CongestionInfoMismatch)),
        ("get_shard_layout", "save_flat_state_changes", 67, Error::Other("save_flat_state_changes failed".to_string())),
        ("get_shard_layout", "", 67, Error::Other("get_shard_layout failed".to_string())),
    ];
    for (epochs_fail, runtime_fail, version, expected) in cases {
        let mut store = store_with_genesis();
        let mut epochs = Epochs::new(version);
        epochs.fail = epochs_fail;
        let mut runtime = Runtime::new();
        runtime.fail = runtime_fail;
        let mut update = chain_update(&mut store, &epochs, &runtime);
        let result = ShardUpdateResult::NewChunk(NewChunkResult {
            shard_uid: shard(0, 0),
            gas_limit: 500,
            apply_result: applied(20),
            resharding_results: Some(ReshardingResults::ApplyReshardingResults(vec![
                child(1, 0, 10),
                child(1, 1, 11),
                child(1, 2, 12),
            ])),
        });
        let done = update.process_apply_chunk_result(&block(header(2, 1, 1, 1, 1)), result, false);
        assert_eq!(done, Err(expected));
        assert!(update.chain_store_update.get_chunk_extra(&hash(2), &shard(0, 0)).is_err());
    }
}

#[test]
fn shards_before_a_failing_shard_are_staged() {
    let mut store = store_with_genesis();
    let epochs = Epochs::new(67);
    let runtime = Runtime::new();
    let mut update = chain_update(&mut store, &epochs, &runtime);
    let results = vec![
        ShardUpdateResult::NewChunk(NewChunkResult {
            shard_uid: shard(0, 0),
            gas_limit: 500,
            apply_result: applied(20),
            resharding_results: None,
        }),
        ShardUpdateResult::OldChunk(OldChunkResult {
            shard_uid: shard(0, 1),
            apply_result: applied(30),
            resharding_results: None,
        }),
        ShardUpdateResult::NewChunk(NewChunkResult {
            shard_uid: shard(0, 2),
            gas_limit: 500,
            apply_result: applied(40),
            resharding_results: None,
        }),
    ];
    let done = update.apply_chunk_postprocessing(&block(header(2, 1, 1, 1, 1)), results, false);
    assert_eq!(done, Err(Error::DBNotFound(Missing::ChunkExtra)));
    assert!(update.chain_store_update.get_chunk_extra(&hash(2), &shard(0, 0)).is_ok());
    assert!(update.chain_store_update.get_chunk_extra(&hash(2), &shard(0, 1)).is_err());
    assert!(update.chain_store_update.get_chunk_extra(&hash(2), &shard(0, 2)).is_err());
    assert_eq!(runtime.flat_saved.borrow().len(), 1);
    assert_eq!(
        update.apply_chunk_postprocessing(&block(header(2, 1, 1, 1, 1)), vec![], false),
        Ok(())
    );
}

#[test]
fn first_block_of_an_epoch_files_the_light_client_block_of_the_epoch_before() {
    let mut store = store_with_genesis();
    process(&mut store, header(2, 1, 1, 1, 1)).unwrap();
    process(&mut store, header(3, 2, 2, 1, 2)).unwrap();
    let epochs = Epochs::new(67);
    let runtime = Runtime::new();
    let mut update = chain_update(&mut store, &epochs, &runtime);
    let first_of_next = header(4, 3, 3, 2, 2);
    update.postprocess_block(&block(first_of_next), no_info(), vec![], false).unwrap();
    update.commit().unwrap();
    assert_eq!(
        store.get_record(&RecordKey::EpochLightClientBlock { epoch: hash(1) }),
        Some(&Record::EpochLightClientBlock(light_client_block(2)))
    );
    assert_eq!(store.get_record(&RecordKey::EpochLightClientBlock { epoch: hash(2) }), None);
    assert_eq!(store.get_next_block_hash(&hash(2)), Some(hash(3)));
    assert_eq!(epochs.next_hash_seen.borrow().as_slice(), &[Some(hash(3))]);
}

#[test]
fn no_light_client_block_within_an_epoch_or_without_a_final_block() {
    let mut store = store_with_genesis();
    process(&mut store, header(2, 1, 1, 1, 1)).unwrap();
    assert_eq!(store.get_record(&RecordKey::EpochLightClientBlock { epoch: hash(1) }), None);
    // The genesis block names no final block: the epoch switch right after it makes none.
    let mut other = store_with_genesis();
    process(&mut other, header(2, 1, 1, 5, 1)).unwrap();
    assert_eq!(other.get_record(&RecordKey::EpochLightClientBlock { epoch: hash(1) }), None);
    assert_eq!(other.get_next_block_hash(&hash(0)), None);
}

#[test]
fn no_light_client_block_where_the_head_does_not_move() {
    let mut store = store_with_genesis();
    process(&mut store, header(2, 1, 1, 1, 1)).unwrap();
    process(&mut store, header(3, 2, 2, 1, 2)).unwrap();
    assert_eq!(process(&mut store, header(4, 2, 2, 2, 2)).unwrap(), None);
    assert_eq!(store.get_record(&RecordKey::EpochLightClientBlock { epoch: hash(1) }), None);
}

#[test]
fn create_light_client_block_links_the_header_first() {
    let mut store = store_with_genesis();
    let mut epochs = Epochs::new(67);
    epochs.fail = "create_light_client_block";
    let runtime = Runtime::new();
    let mut update = chain_update(&mut store, &epochs, &runtime);
    let done = update.create_light_client_block(&header(3, 2, 2, 1, 1));
    assert_eq!(done, Err(Error::Other("create_light_client_block failed".to_string())));
    assert_eq!(update.chain_store_update.get_next_block_hash(&hash(2)), Some(hash(3)));
}

#[test]
fn orphan_header_without_predecessor_height_is_let_through() {
    let mut store = store_with_genesis();
    let mut epochs = Epochs::new(67);
    epochs.fail = "verify_approvals_and_threshold_orphan";
    let runtime = Runtime::new();
    let mut update = chain_update(&mut store, &epochs, &runtime);
    let mut orphan = header(9, 8, 9, 1, 1);
    orphan.prev_height = None;
    assert_eq!(update.verify_orphan_header_approvals(&orphan, &vec![1]), Ok(()));
    assert!(epochs.approvals_seen.borrow().is_empty());
    orphan.prev_height = Some(7);
    assert_eq!(
        update.verify_orphan_header_approvals(&orphan, &vec![1, 2]),
        Err(Error::Other("verify_approvals_and_threshold_orphan failed".to_string()))
    );
    assert_eq!(
        epochs.approvals_seen.borrow().as_slice(),
        &[(7, 9, DoomslugThresholdMode::TwoThirds, vec![1, 2])]
    );
}

#[test]
fn refcount_counts_the_blocks_on_a_block() {
    let mut store = store_with_genesis();
    let mut update = store.store_update();
    assert_eq!(update.get_block_refcount(&hash(1)), 0);
    update.inc_block_refcount(&hash(1));
    update.inc_block_refcount(&hash(1));
    update.inc_block_refcount(&hash(2));
    assert_eq!(update.get_block_refcount(&hash(1)), 2);
    update.commit();
    let mut update = store.store_update();
    update.inc_block_refcount(&hash(1));
    update.commit();
    assert_eq!(store.get_block_refcount(&hash(1)), 3);
    assert_eq!(store.get_block_refcount(&hash(2)), 1);
}

/// A chain 1 - 2 - 3 - 5 with heights 0, 1, 2, 4 and a fork 4 at height 2.
fn store_with_chain() -> ChainStore {
    let mut store = store_with_genesis();
    process(&mut store, header(2, 1, 1, 1, 1)).unwrap();
    process(&mut store, header(3, 2, 2, 1, 1)).unwrap();
    process(&mut store, header(4, 2, 2, 1, 1)).unwrap();
    process(&mut store, header(5, 3, 4, 1, 2)).unwrap();
    store
}

#[test]
fn walk_finds_the_header_at_a_height() {
    let mut store = store_with_chain();
    let update = store.store_update();
    assert_eq!(update.get_block_header_on_chain_by_height(&hash(5), 4).unwrap().hash, hash(5));
    assert_eq!(update.get_block_header_on_chain_by_height(&hash(5), 2).unwrap().hash, hash(3));
    assert_eq!(update.get_block_header_on_chain_by_height(&hash(4), 2).unwrap().hash, hash(4));
    assert_eq!(update.get_block_header_on_chain_by_height(&hash(5), 0).unwrap().hash, hash(1));
    assert_eq!(
        update.get_block_header_on_chain_by_height(&hash(5), 3),
        Err(Error::InvalidBlockHeight(2))
    );
    assert_eq!(
        update.get_block_header_on_chain_by_height(&hash(5), 9),
        Err(Error::InvalidBlockHeight(4))
    );
    assert_eq!(
        update.get_block_header_on_chain_by_height(&hash(66), 1),
        Err(Error::DBNotFound(Missing::BlockHeader))
    );
}

#[test]
fn walk_stops_at_a_predecessor_that_is_not_lower() {
    let mut store = store_with_genesis();
    add_header(&mut store, header(2, 3, 5, 1, 1));
    add_header(&mut store, header(3, 2, 5, 1, 1));
    let update = store.store_update();
    assert_eq!(
        update.get_block_header_on_chain_by_height(&hash(2), 1),
        Err(Error::InvalidBlockHeight(5))
    );
}

#[test]
fn finalize_on_the_height_of_the_sync_block_stops() {
    let mut store = store_with_chain();
    let epochs = Epochs::new(67);
    let runtime = Runtime::new();
    let mut update = chain_update(&mut store, &epochs, &runtime);
    assert_eq!(update.set_state_finalize_on_height(4, 0, hash(5)), Ok(false));
    assert!(runtime.applied.borrow().is_empty());
    update.commit().unwrap();
    assert!(store.get_chunk_extra(&hash(5), &shard(0, 0)).is_err());
    assert!(store.trie_changes().is_empty());
}

#[test]
fn finalize_on_a_height_off_the_chain_goes_on() {
    let mut store = store_with_chain();
    let epochs = Epochs::new(67);
    let runtime = Runtime::new();
    let mut update = chain_update(&mut store, &epochs, &runtime);
    assert_eq!(update.set_state_finalize_on_height(3, 0, hash(5)), Ok(true));
    assert_eq!(update.set_state_finalize_on_height(9, 0, hash(5)), Ok(true));
    assert_eq!(update.set_state_finalize_on_height(1, 0, hash(66)), Ok(true));
    assert!(runtime.applied.borrow().is_empty());
    assert!(runtime.flat_saved.borrow().is_empty());
    update.commit().unwrap();
    assert!(store.trie_changes().is_empty());
    assert_eq!(store.store_updates().len(), 4);
}

#[test]
fn finalize_on_a_height_before_the_sync_block_replays_the_block() {
    let mut store = store_with_chain();
    {
        let mut update = store.store_update();
        update.save_chunk_extra(&hash(2), &shard(0, 3), extra(5, 11, 22, &["aaa", "bbb"]));
        update.commit();
    }
    let epochs = Epochs::new(67);
    let runtime = Runtime::new();
    let mut update = chain_update(&mut store, &epochs, &runtime);
    assert_eq!(update.set_state_finalize_on_height(2, 3, hash(5)), Ok(true));
    update.commit().unwrap();
    let mut expected = extra(5, 11, 22, &["aaa", "bbb"]);
    expected.state_root = hash(150);
    assert_eq!(store.get_chunk_extra(&hash(3), &shard(0, 3)).unwrap(), &expected);
    assert_eq!(store.trie_changes()[0].state_changes, vec![150, 1]);
    assert_eq!(store.store_updates().len(), 5);
    assert_eq!(store.store_updates()[4], StoreUpdate { writes: vec![0, 3, 150, 1] });
    assert_eq!(
        runtime.applied.borrow().as_slice(),
        &[Applied {
            storage: RuntimeStorageConfig { state_root: hash(5), use_flat_storage: true },
            reason: ApplyChunkReason::UpdateTrackedShard,
            shard_id: 3,
            proposals: 2,
            gas_limit: 1_000,
            is_new_chunk: false,
            is_first_block_with_chunk_of_version: false,
            height: 2,
            block_hash: hash(3),
            prev_block_hash: hash(2),
            block_timestamp: 53,
            gas_price: 1_002,
            challenges_result: vec![9, 9],
            random_seed: hash(200),
            congestion_shards: 1,
            receipts_from: vec![],
            transactions: vec![],
        }]
    );
    assert_eq!(
        runtime.flat_saved.borrow().as_slice(),
        &[(hash(3), hash(2), 2, shard(0, 3), vec![150, 1])]
    );
}

#[test]
fn replay_that_fails_stages_nothing() {
    let cases: [(&str, &str, bool, Error); 4] = [
        ("shard_id_to_uid", "", true, Error::Other("shard_id_to_uid failed".to_string())),
        ("", "apply_chunk", true, Error::Other("apply_chunk failed".to_string())),
        ("", "save_flat_state_changes", true, Error::Other("save_flat_state_changes failed".to_string())),
        ("", "", false, Error::DBNotFound(Missing::ChunkExtra)),
    ];
    for (epochs_fail, runtime_fail, with_checkpoint, expected) in cases {
        let mut store = store_with_chain();
        if with_checkpoint {
            let mut update = store.store_update();
            update.save_chunk_extra(&hash(2), &shard(0, 3), extra(5, 11, 22, &[]));
            update.commit();
        }
        let mut epochs = Epochs::new(67);
        epochs.fail = epochs_fail;
        let mut runtime = Runtime::new();
        runtime.fail = runtime_fail;
        let mut update = chain_update(&mut store, &epochs, &runtime);
        assert_eq!(update.set_state_finalize_on_height(2, 3, hash(5)), Err(expected));
        update.commit().unwrap();
        assert!(store.get_chunk_extra(&hash(3), &shard(0, 3)).is_err());
        assert!(store.trie_changes().is_empty());
    }
}

#[test]
fn replay_of_a_block_that_was_not_saved_is_refused() {
    let mut store = store_with_genesis();
    {
        let mut update = store.store_update();
        update.save_block_header(header(2, 1, 1, 1, 1));
        update.save_block_header(header(3, 2, 2, 1, 1));
        update.commit();
    }
    let epochs = Epochs::new(67);
    let runtime = Runtime::new();
    let mut update = chain_update(&mut store, &epochs, &runtime);
    assert_eq!(
        update.set_state_finalize_on_height(1, 3, hash(3)),
        Err(Error::DBNotFound(Missing::Block))
    );
}

fn chunk_header(height_included: u64) -> ShardChunkHeader {
    ShardChunkHeader {
        chunk_hash: hash(70),
        prev_block_hash: hash(71),
        prev_state_root: hash(72),
        height_included,
        gas_limit: 640,
        prev_validator_proposals: vec![
            ValidatorStake::test("a.near".parse().unwrap()),
            ValidatorStake::test("b.near".parse().unwrap()),
            ValidatorStake::test("c.near".parse().unwrap()),
        ],
    }
}

fn receipts() -> Vec<ReceiptProofResponse> {
    vec![
        ReceiptProofResponse { block_hash: hash(3), proofs: vec![3] },
        ReceiptProofResponse { block_hash: hash(5), proofs: vec![5] },
        ReceiptProofResponse { block_hash: hash(1), proofs: vec![1] },
        ReceiptProofResponse { block_hash: hash(4), proofs: vec![4] },
    ]
}

fn snapshot_v2(height_included: u64) -> ShardStateSyncResponseHeader {
    ShardStateSyncResponseHeader::V2(ShardStateSyncResponseHeaderV2 {
        chunk: ShardChunk::V2(ShardChunkV2 {
            header: chunk_header(height_included),
            transactions: vec![8, 8],
            receipts: vec![],
        }),
        incoming_receipts_proofs: receipts(),
    })
}

fn snapshot_v1(height_included: u64) -> ShardStateSyncResponseHeader {
    ShardStateSyncResponseHeader::V1(ShardStateSyncResponseHeaderV1 {
        chunk: ShardChunkV1 {
            header: chunk_header(height_included),
            transactions: vec![8, 8],
            receipts: vec![],
        },
        incoming_receipts_proofs: receipts(),
    })
}

#[test]
fn finalize_applies_the_chunk_of_the_snapshot() {
    let mut store = store_with_chain();
    let epochs = Epochs::new(67);
    let runtime = Runtime::new();
    let mut update = chain_update(&mut store, &epochs, &runtime);
    assert_eq!(update.set_state_finalize(3, hash(5), snapshot_v2(2)), Ok(shard(0, 3)));
    update.commit().unwrap();

    assert_eq!(
        runtime.applied.borrow().as_slice(),
        &[Applied {
            storage: RuntimeStorageConfig { state_root: hash(72), use_flat_storage: true },
            reason: ApplyChunkReason::UpdateTrackedShard,
            shard_id: 3,
            proposals: 3,
            gas_limit: 640,
            is_new_chunk: true,
            is_first_block_with_chunk_of_version: false,
            height: 2,
            block_hash: hash(3),
            prev_block_hash: hash(71),
            block_timestamp: 53,
            gas_price: 1_002,
            challenges_result: vec![9, 9],
            random_seed: hash(200),
            congestion_shards: 1,
            receipts_from: vec![hash(3), hash(1), hash(4)],
            transactions: vec![8, 8],
        }]
    );
    let checkpoint = store.get_chunk_extra(&hash(3), &shard(0, 3)).unwrap();
    assert_eq!(checkpoint.state_root, hash(150));
    assert_eq!(checkpoint.outcome_root, hash(62));
    assert_eq!(checkpoint.gas_used, 77);
    assert_eq!(checkpoint.gas_limit, 640);
    assert_eq!(checkpoint.balance_burnt, 88);
    assert_eq!(checkpoint.validator_proposals.len(), 1);
    assert!(matches!(
        store.get_record(&RecordKey::Chunk { chunk_hash: hash(70) }),
        Some(Record::Chunk(ShardChunk::V2(_)))
    ));
    assert_eq!(
        store.get_record(&RecordKey::OutgoingReceipts { block_hash: hash(3), shard_id: 3 }),
        Some(&Record::OutgoingReceipts(vec![150, 4]))
    );
    assert_eq!(
        store.get_record(&RecordKey::OutcomesWithProofs { block_hash: hash(3), shard_id: 3 }),
        Some(&Record::OutcomesWithProofs { outcomes: vec![150, 3], proofs: vec![3, 150] })
    );
    for sender in [1u8, 3, 4] {
        assert_eq!(
            store.get_record(&RecordKey::IncomingReceipts { block_hash: hash(sender), shard_id: 3 }),
            Some(&Record::IncomingReceipts(vec![sender]))
        );
    }
    // The receipts that a later block sent are no part of the snapshot's chunk.
    assert_eq!(
        store.get_record(&RecordKey::IncomingReceipts { block_hash: hash(5), shard_id: 3 }),
        None
    );
    assert_eq!(store.trie_changes()[0].state_changes, vec![150, 1]);
    assert_eq!(store.store_updates().len(), 5);
    assert_eq!(store.store_updates()[4], StoreUpdate { writes: vec![0, 3, 150, 1] });
    assert_eq!(
        runtime.flat_saved.borrow().as_slice(),
        &[(hash(3), hash(71), 2, shard(0, 3), vec![150, 1])]
    );
}

#[test]
fn finalize_takes_both_encodings_of_the_snapshot_alike() {
    let mut seen = vec![];
    for snapshot in [snapshot_v1(2), snapshot_v2(2)] {
        let mut store = store_with_chain();
        let epochs = Epochs::new(67);
        let runtime = Runtime::new();
        let mut update = chain_update(&mut store, &epochs, &runtime);
        assert_eq!(update.set_state_finalize(3, hash(5), snapshot), Ok(shard(0, 3)));
        update.commit().unwrap();
        assert_eq!(store.get_chunk_extra(&hash(3), &shard(0, 3)).unwrap().gas_limit, 640);
        seen.push(runtime.applied.into_inner());
    }
    assert_eq!(seen[0], seen[1]);
    let mut store = store_with_chain();
    let epochs = Epochs::new(67);
    let runtime = Runtime::new();
    let mut update = chain_update(&mut store, &epochs, &runtime);
    update.set_state_finalize(3, hash(5), snapshot_v1(2)).unwrap();
    assert!(matches!(
        update.chain_store_update.get_record(&RecordKey::Chunk { chunk_hash: hash(70) }),
        Some(Record::Chunk(ShardChunk::V1(_)))
    ));
}

#[test]
fn finalize_at_genesis_takes_the_gas_price_of_genesis() {
    let mut store = store_with_chain();
    let epochs = Epochs::new(67);
    let runtime = Runtime::new();
    let mut update = chain_update(&mut store, &epochs, &runtime);
    update.set_state_finalize(3, hash(5), snapshot_v2(0)).unwrap();
    assert_eq!(runtime.applied.borrow()[0].gas_price, 1_001);
    assert_eq!(runtime.applied.borrow()[0].block_hash, hash(1));
    assert_eq!(runtime.applied.borrow()[0].receipts_from, vec![hash(1)]);
}

#[test]
fn finalize_fails_where_the_store_lacks_what_it_reads() {
    let mut store = store_with_chain();
    let epochs = Epochs::new(67);
    let runtime = Runtime::new();
    let mut update = chain_update(&mut store, &epochs, &runtime);
    assert_eq!(
        update.set_state_finalize(3, hash(5), snapshot_v2(3)),
        Err(Error::InvalidBlockHeight(2))
    );
    assert_eq!(
        update.set_state_finalize(3, hash(66), snapshot_v2(2)),
        Err(Error::DBNotFound(Missing::BlockHeader))
    );
    let mut unknown_sender = ShardStateSyncResponseHeaderV2 {
        chunk: ShardChunk::V2(ShardChunkV2 {
            header: chunk_header(2),
            transactions: vec![],
            receipts: vec![],
        }),
        incoming_receipts_proofs: receipts(),
    };
    unknown_sender.incoming_receipts_proofs.push(ReceiptProofResponse {
        block_hash: hash(66),
        proofs: vec![],
    });
    assert_eq!(
        update.set_state_finalize(3, hash(5), ShardStateSyncResponseHeader::V2(unknown_sender)),
        Err(Error::DBNotFound(Missing::BlockHeader))
    );
    assert!(runtime.applied.borrow().is_empty());
    update.commit().unwrap();
    assert_eq!(store.get_record(&RecordKey::Chunk { chunk_hash: hash(70) }), None);
}

#[test]
fn finalize_fails_with_its_collaborators() {
    let cases: [(&str, &str, u32, Error); 6] = [
        ("", "apply_chunk", 67, Error::Other("apply_chunk failed".to_string())),
        ("shard_id_to_uid", "", 67, Error::Other("shard_id_to_uid failed".to_string())),
        ("", "save_flat_state_changes", 67, Error::Other("save_flat_state_changes failed".to_string())),
        ("get_epoch_id", "", 67, Error::Other("get_epoch_id failed".to_string())),
        ("get_epoch_protocol_version", "", 67, Error::Other("get_epoch_protocol_version failed".to_string())),
        ("", "", 68, Error::InternalDefect(Defect::CongestionInfoMismatch)),
    ];
    for (epochs_fail, runtime_fail, version, expected) in cases {
        let mut store = store_with_chain();
        let mut epochs = Epochs::new(version);
        epochs.fail = epochs_fail;
        let mut runtime = Runtime::new();
        runtime.fail = runtime_fail;
        {
            let mut update = chain_update(&mut store, &epochs, &runtime);
            assert_eq!(update.set_state_finalize(3, hash(5), snapshot_v2(2)), Err(expected));
        }
        assert!(store.get_chunk_extra(&hash(3), &shard(0, 3)).is_err());
        assert_eq!(store.get_record(&RecordKey::Chunk { chunk_hash: hash(70) }), None);
    }
}

#[test]
fn finalize_keeps_congestion_info_under_congestion_control() {
    let mut store = store_with_chain();
    let epochs = Epochs::new(68);
    let mut runtime = Runtime::new();
    let info = CongestionInfo {
        delayed_receipts_gas: 10,
        buffered_receipts_gas: 20,
        receipt_bytes: 30,
        allowed_shard: 1,
    };
    runtime.congestion_info = Some(info);
    let mut update = chain_update(&mut store, &epochs, &runtime);
    update.set_state_finalize(3, hash(5), snapshot_v2(2)).unwrap();
    assert_eq!(
        update.chain_store_update.get_chunk_extra(&hash(3), &shard(0, 3)).unwrap().congestion_info,
        Some(info)
    );
}

#[test]
fn gauges_follow_the_tips() {
    let mut store = store_with_genesis();
    let epochs = Epochs::new(67);
    let runtime = Runtime::new();
    let mut update = chain_update(&mut store, &epochs, &runtime);
    assert_eq!(
        update.gauges,
        Gauges {
            header_head_height: None,
            block_height_head: None,
            block_ordinal_head: None,
            shard_layout_version: None,
            shard_layout_num_shards: None,
        }
    );
    update.update_header_head_if_not_challenged(&header(9, 1, 5, 1, 1)).unwrap();
    assert_eq!(update.gauges.header_head_height, Some(5));
    assert_eq!(update.gauges.block_height_head, None);
    update.postprocess_block(&block(header(2, 1, 1, 1, 1)), no_info(), vec![], false).unwrap();
    assert_eq!(
        update.gauges,
        Gauges {
            header_head_height: Some(5),
            block_height_head: Some(1),
            block_ordinal_head: Some(11),
            shard_layout_version: Some(1),
            shard_layout_num_shards: Some(3),
        }
    );
    assert_eq!(epochs.layouts_asked.borrow().as_slice(), &[hash(1)]);
    // A block that does not raise the head moves no gauge and asks for no layout.
    update.postprocess_block(&block(header(3, 1, 1, 1, 1)), no_info(), vec![], false).unwrap();
    assert_eq!(update.gauges.block_ordinal_head, Some(11));
    assert_eq!(epochs.layouts_asked.borrow().len(), 1);
    update.postprocess_block(&block(header(4, 2, 7, 1, 1)), no_info(), vec![], false).unwrap();
    assert_eq!(update.gauges.header_head_height, Some(7));
    assert_eq!(update.gauges.block_height_head, Some(7));
    assert_eq!(update.gauges.block_ordinal_head, Some(71));
    assert_eq!(epochs.layouts_asked.borrow().as_slice(), &[hash(1), hash(2)]);
}

#[test]
fn block_fails_where_the_layout_after_it_is_not_to_be_had() {
    let mut store = store_with_genesis();
    let mut epochs = Epochs::new(67);
    epochs.fail = "get_shard_layout_from_prev_block";
    let runtime = Runtime::new();
    let mut update = chain_update(&mut store, &epochs, &runtime);
    assert_eq!(
        update.postprocess_block(&block(header(2, 1, 1, 1, 1)), no_info(), vec![], false),
        Err(Error::Other("get_shard_layout_from_prev_block failed".to_string()))
    );
    assert_eq!(update.postprocess_block(&block(header(3, 1, 0, 1, 1)), no_info(), vec![], false), Ok(None));
}

#[test]
fn hashes_compare_by_their_bytes() {
    let mut bytes = [7u8; 32];
    let a = CryptoHash(bytes);
    bytes[31] = 8;
    let b = CryptoHash(bytes);
    assert!(a.same(&hash(7)));
    assert!(!a.same(&b));
    assert!(!b.same(&a));
    assert!(CryptoHash::default().is_default());
    assert!(zero().is_default());
    assert!(!b.is_default());
    assert_eq!(a.as_bytes(), &[7u8; 32]);
    assert!(EpochId(a).same(&EpochId(hash(7))));
    assert!(!EpochId(a).same(&EpochId(b)));
}

#[test]
fn shard_identities_order_by_version_then_index() {
    assert!(shard(0, 9).lt(&shard(1, 0)));
    assert!(shard(1, 0).lt(&shard(1, 1)));
    assert!(!shard(1, 1).lt(&shard(1, 1)));
    assert!(shard(1, 1).le(&shard(1, 1)));
    assert!(!shard(2, 0).le(&shard(1, 9)));
    assert_eq!(shard(4, 17).shard_id(), 17);
}
