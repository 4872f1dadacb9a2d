//! The collaborators of the pipeline: the epoch manager and the runtime with
//! its flat storage. The pipeline calls them and takes what they answer; it
//! claims nothing of their answers.

use vstd::prelude::*;
use near_primitives::shard_layout::ShardLayout;
use near_primitives::types::validator_stake::ValidatorStake;
use near_primitives::views::LightClientBlockView;
use crate::error::Error;
use crate::hash::{CryptoHash, EpochId};
use crate::records::StoreUpdate;
use crate::resharding::TrieChanges;
use crate::shard::{ShardId, ShardUId};
use crate::store::{ChainStoreUpdate, StoreView};
use crate::types::{
    Balance,
    BlockHeader,
    BlockHeight,
    CongestionInfo,
    Gas,
    ProtocolVersion,
    ShardCongestionInfo,
};

verus! {

/// How many approvals a block needs.
#[derive(Clone, Copy, Debug, PartialEq, Eq)]
pub enum DoomslugThresholdMode {
    NoApprovals,
    TwoThirds,
}

/// Why a chunk is applied.
#[derive(Clone, Copy, Debug, PartialEq, Eq)]
pub enum ApplyChunkReason {
    /// To keep up a shard that the node tracks.
    UpdateTrackedShard,
    /// To check the state witness of a chunk.
    ValidateChunkStateWitness,
}

/// Where the runtime reads the state from.
#[derive(Clone, Copy, Debug, PartialEq, Eq)]
pub struct RuntimeStorageConfig {
    pub state_root: CryptoHash,
    pub use_flat_storage: bool,
}

impl RuntimeStorageConfig {
    /// The configuration that reads the state at `state_root`.
    pub fn new(state_root: CryptoHash, use_flat_storage: bool) -> (r: RuntimeStorageConfig)
        ensures
            r == (RuntimeStorageConfig { state_root, use_flat_storage }),
    {
        RuntimeStorageConfig { state_root, use_flat_storage }
    }
}

/// The shard's side of applying a chunk.
#[derive(Debug)]
pub struct ApplyChunkShardContext<'a> {
    pub shard_id: ShardId,
    pub last_validator_proposals: &'a Vec<ValidatorStake>,
    pub gas_limit: Gas,
    pub is_new_chunk: bool,
    pub is_first_block_with_chunk_of_version: bool,
}

/// The shard's side of applying a chunk, as a value.
pub struct ApplyChunkShardContextView {
    pub shard_id: ShardId,
    pub last_validator_proposals: Seq<ValidatorStake>,
    pub gas_limit: Gas,
    pub is_new_chunk: bool,
    pub is_first_block_with_chunk_of_version: bool,
}

impl<'a> View for ApplyChunkShardContext<'a> {
    type V = ApplyChunkShardContextView;

    open spec fn view(&self) -> ApplyChunkShardContextView {
        ApplyChunkShardContextView {
            shard_id: self.shard_id,
            last_validator_proposals: self.last_validator_proposals@,
            gas_limit: self.gas_limit,
            is_new_chunk: self.is_new_chunk,
            is_first_block_with_chunk_of_version: self.is_first_block_with_chunk_of_version,
        }
    }
}

/// The block's side of applying a chunk.
#[derive(Debug)]
pub struct ApplyChunkBlockContext<'a> {
    pub height: BlockHeight,
    pub block_hash: CryptoHash,
    pub prev_block_hash: CryptoHash,
    pub block_timestamp: u64,
    pub gas_price: Balance,
    pub challenges_result: &'a Vec<u8>,
    pub random_seed: CryptoHash,
    pub congestion_info: &'a Vec<ShardCongestionInfo>,
}

/// The block's side of applying a chunk, as a value.
pub struct ApplyChunkBlockContextView {
    pub height: BlockHeight,
    pub block_hash: CryptoHash,
    pub prev_block_hash: CryptoHash,
    pub block_timestamp: u64,
    pub gas_price: Balance,
    pub challenges_result: Seq<u8>,
    pub random_seed: CryptoHash,
    pub congestion_info: Seq<ShardCongestionInfo>,
}

impl<'a> View for ApplyChunkBlockContext<'a> {
    type V = ApplyChunkBlockContextView;

    open spec fn view(&self) -> ApplyChunkBlockContextView {
        ApplyChunkBlockContextView {
            height: self.height,
            block_hash: self.block_hash,
            prev_block_hash: self.prev_block_hash,
            block_timestamp: self.block_timestamp,
            gas_price: self.gas_price,
            challenges_result: self.challenges_result@,
            random_seed: self.random_seed,
            congestion_info: self.congestion_info@,
        }
    }
}

/// What applying a chunk gave.
#[derive(Debug, PartialEq, Eq)]
pub struct ApplyChunkResult {
    pub trie_changes: TrieChanges,
    pub new_root: CryptoHash,
    /// The outcomes of the transactions and receipts, encoded.
    pub outcomes: Vec<u8>,
    /// The receipts sent on to other shards, encoded.
    pub outgoing_receipts: Vec<u8>,
    pub validator_proposals: Vec<ValidatorStake>,
    pub total_gas_burnt: Gas,
    pub total_balance_burnt: Balance,
    /// The part of the state that was touched, where it was recorded.
    pub proof: Option<Vec<u8>>,
    pub applied_receipts_hash: CryptoHash,
    pub congestion_info: Option<CongestionInfo>,
}

/// The receipts that a shard got with one block, with the proofs that they
/// were sent.
#[derive(Debug, PartialEq, Eq)]
pub struct ReceiptProofResponse {
    /// The block whose chunks sent the receipts.
    pub block_hash: CryptoHash,
    /// The receipts and proofs, encoded.
    pub proofs: Vec<u8>,
}

/// The receipts as values.
pub open spec fn deref_proofs(proofs: Seq<&ReceiptProofResponse>) -> Seq<ReceiptProofResponse> {
    proofs.map_values(|proof: &ReceiptProofResponse| *proof)
}

/// What the epoch manager is told of a block.
#[derive(Debug)]
pub struct BlockHeaderInfo<'a> {
    pub header: BlockHeader,
    pub last_finalized_height: BlockHeight,
    pub proposals: &'a Vec<ValidatorStake>,
}

/// What the epoch manager is told of a block, as a value.
pub struct BlockHeaderInfoView {
    pub header: BlockHeader,
    pub last_finalized_height: BlockHeight,
    pub proposals: Seq<ValidatorStake>,
}

impl<'a> View for BlockHeaderInfo<'a> {
    type V = BlockHeaderInfoView;

    open spec fn view(&self) -> BlockHeaderInfoView {
        BlockHeaderInfoView {
            header: self.header,
            last_finalized_height: self.last_finalized_height,
            proposals: self.proposals@,
        }
    }
}

impl<'a> BlockHeaderInfo<'a> {
    /// What the epoch manager is told of the block of `header`.
    pub fn new(
        header: &BlockHeader,
        last_finalized_height: BlockHeight,
        proposals: &'a Vec<ValidatorStake>,
    ) -> (r: BlockHeaderInfo<'a>)
        ensures
            r@ == (BlockHeaderInfoView {
                header: *header,
                last_finalized_height,
                proposals: proposals@,
            }),
    {
        BlockHeaderInfo { header: *header, last_finalized_height, proposals }
    }
}

/// The keeper of epochs, validators and shard layouts.
///
/// Each question comes with a predicate that says which answers the keeper may
/// give to it. The pipeline takes any answer; what it stages is stated for the
/// answers that were given. A keeper that says nothing of its answers leaves
/// the predicates as they are.
pub trait EpochManagerAdapter {
    /// Whether `answer` may be given for the epoch of a block.
    open spec fn epoch_id_answer(&self, block_hash: CryptoHash, answer: Result<EpochId, Error>) -> bool {
        true
    }

    /// Whether `answer` may be given for the epoch of the block that follows
    /// `parent_hash`.
    open spec fn epoch_id_from_prev_block_answer(
        &self,
        parent_hash: CryptoHash,
        answer: Result<EpochId, Error>,
    ) -> bool {
        true
    }

    /// Whether `answer` may be given for the epoch after the epoch of the block
    /// that follows `parent_hash`.
    open spec fn next_epoch_id_from_prev_block_answer(
        &self,
        parent_hash: CryptoHash,
        answer: Result<EpochId, Error>,
    ) -> bool {
        true
    }

    /// Whether `answer` may be given for the shard layout of an epoch.
    open spec fn shard_layout_answer(&self, epoch_id: EpochId, answer: Result<ShardLayout, Error>) -> bool {
        true
    }

    /// Whether `answer` may be given for the shard layout of the epoch of the
    /// block that follows `parent_hash`.
    open spec fn shard_layout_from_prev_block_answer(
        &self,
        parent_hash: CryptoHash,
        answer: Result<ShardLayout, Error>,
    ) -> bool {
        true
    }

    /// Whether `answer` may be given for the protocol version of an epoch.
    open spec fn epoch_protocol_version_answer(
        &self,
        epoch_id: EpochId,
        answer: Result<ProtocolVersion, Error>,
    ) -> bool {
        true
    }

    /// Whether `answer` may be given for the identity of a shard in an epoch.
    open spec fn shard_id_to_uid_answer(
        &self,
        shard_id: ShardId,
        epoch_id: EpochId,
        answer: Result<ShardUId, Error>,
    ) -> bool {
        true
    }

    /// Whether `answer` may be given when the proposals of a block are recorded.
    open spec fn validator_proposals_answer(
        &self,
        block_header_info: BlockHeaderInfoView,
        answer: Result<StoreUpdate, Error>,
    ) -> bool {
        true
    }

    /// Whether `answer` may be given when the approvals of an orphan are checked.
    open spec fn orphan_approvals_answer(
        &self,
        epoch_id: EpochId,
        threshold_mode: DoomslugThresholdMode,
        prev_block_hash: CryptoHash,
        prev_block_height: BlockHeight,
        block_height: BlockHeight,
        approvals: Seq<u8>,
        answer: Result<(), Error>,
    ) -> bool {
        true
    }

    /// Whether `answer` may be given for the light client block of the epoch
    /// that ends with `header`, on a store that holds `chain_store`.
    open spec fn light_client_block_answer(
        &self,
        header: BlockHeader,
        chain_store: StoreView,
        answer: Result<LightClientBlockView, Error>,
    ) -> bool {
        true
    }

    /// The epoch of a block.
    fn get_epoch_id(&self, block_hash: &CryptoHash) -> (r: Result<EpochId, Error>)
        ensures
            self.epoch_id_answer(*block_hash, r),
    ;

    /// The epoch of the block that follows `parent_hash`.
    fn get_epoch_id_from_prev_block(&self, parent_hash: &CryptoHash) -> (r: Result<EpochId, Error>)
        ensures
            self.epoch_id_from_prev_block_answer(*parent_hash, r),
    ;

    /// The epoch after the epoch of the block that follows `parent_hash`.
    fn get_next_epoch_id_from_prev_block(&self, parent_hash: &CryptoHash) -> (r: Result<
        EpochId,
        Error,
    >)
        ensures
            self.next_epoch_id_from_prev_block_answer(*parent_hash, r),
    ;

    /// The shard layout of an epoch.
    fn get_shard_layout(&self, epoch_id: &EpochId) -> (r: Result<ShardLayout, Error>)
        ensures
            self.shard_layout_answer(*epoch_id, r),
    ;

    /// The shard layout of the epoch of the block that follows `parent_hash`.
    fn get_shard_layout_from_prev_block(&self, parent_hash: &CryptoHash) -> (r: Result<
        ShardLayout,
        Error,
    >)
        ensures
            self.shard_layout_from_prev_block_answer(*parent_hash, r),
    ;

    /// The protocol version of an epoch.
    fn get_epoch_protocol_version(&self, epoch_id: &EpochId) -> (r: Result<ProtocolVersion, Error>)
        ensures
            self.epoch_protocol_version_answer(*epoch_id, r),
    ;

    /// The identity of a shard under the layout of an epoch.
    fn shard_id_to_uid(&self, shard_id: ShardId, epoch_id: &EpochId) -> (r: Result<ShardUId, Error>)
        ensures
            self.shard_id_to_uid_answer(shard_id, *epoch_id, r),
    ;

    /// Records the proposals of a block; the writes are to be committed with
    /// the block.
    fn add_validator_proposals(&self, block_header_info: BlockHeaderInfo<'_>) -> (r: Result<
        StoreUpdate,
        Error,
    >)
        ensures
            self.validator_proposals_answer(block_header_info@, r),
    ;

    /// Checks the approvals of a header whose predecessor is not known yet.
    fn verify_approvals_and_threshold_orphan(
        &self,
        epoch_id: &EpochId,
        threshold_mode: DoomslugThresholdMode,
        prev_block_hash: &CryptoHash,
        prev_block_height: BlockHeight,
        block_height: BlockHeight,
        approvals: &Vec<u8>,
    ) -> (r: Result<(), Error>)
        ensures
            self.orphan_approvals_answer(
                *epoch_id,
                threshold_mode,
                *prev_block_hash,
                prev_block_height,
                block_height,
                approvals@,
                r,
            ),
    ;

    /// The light client block of the epoch that ends with `header`, read from
    /// the store as the transaction sees it.
    fn create_light_client_block(
        &self,
        header: &BlockHeader,
        chain_store: &ChainStoreUpdate<'_>,
    ) -> (r: Result<LightClientBlockView, Error>)
        ensures
            self.light_client_block_answer(*header, chain_store@, r),
    ;
}

/// The runtime that applies chunks, with the flat storage it keeps.
///
/// Each request comes with a predicate that says which answers the runtime may
/// give to it, as for the epoch manager.
pub trait RuntimeAdapter {
    /// Whether `answer` may be given when a chunk is applied.
    open spec fn apply_chunk_answer(
        &self,
        storage: RuntimeStorageConfig,
        reason: ApplyChunkReason,
        chunk: ApplyChunkShardContextView,
        block: ApplyChunkBlockContextView,
        receipts: Seq<ReceiptProofResponse>,
        transactions: Seq<u8>,
        answer: Result<ApplyChunkResult, Error>,
    ) -> bool {
        true
    }

    /// Whether `answer` may be given for the root and the proofs of outcomes.
    open spec fn outcomes_proof_answer(&self, outcomes: Seq<u8>, answer: (CryptoHash, Vec<u8>)) -> bool {
        true
    }

    /// Whether `answer` may be given when the state changes of a shard in a
    /// block are indexed.
    open spec fn flat_state_changes_answer(
        &self,
        block_hash: CryptoHash,
        prev_hash: CryptoHash,
        height: BlockHeight,
        shard_uid: ShardUId,
        state_changes: Seq<u8>,
        answer: Result<StoreUpdate, Error>,
    ) -> bool {
        true
    }

    /// Whether `answer` may be given when the flat storage of a shard is moved
    /// up to a block.
    open spec fn flat_storage_update_answer(
        &self,
        shard_uid: ShardUId,
        new_flat_head: CryptoHash,
        answer: Result<(), Error>,
    ) -> bool {
        true
    }

    /// Applies the transactions of a chunk and the receipts that reached the
    /// shard to the state.
    fn apply_chunk(
        &self,
        storage: RuntimeStorageConfig,
        reason: ApplyChunkReason,
        chunk: ApplyChunkShardContext<'_>,
        block: ApplyChunkBlockContext<'_>,
        receipts: &Vec<&ReceiptProofResponse>,
        transactions: &Vec<u8>,
    ) -> (r: Result<ApplyChunkResult, Error>)
        ensures
            self.apply_chunk_answer(
                storage,
                reason,
                chunk@,
                block@,
                deref_proofs(receipts@),
                transactions@,
                r,
            ),
    ;

    /// The root over the outcomes and the proof of each, encoded.
    fn compute_outcomes_proof(&self, outcomes: &Vec<u8>) -> (r: (CryptoHash, Vec<u8>))
        ensures
            self.outcomes_proof_answer(outcomes@, r),
    ;

    /// Indexes the state changes of a shard in a block; the writes are to be
    /// committed with the block.
    fn save_flat_state_changes(
        &self,
        block_hash: CryptoHash,
        prev_hash: CryptoHash,
        height: BlockHeight,
        shard_uid: ShardUId,
        state_changes: &Vec<u8>,
    ) -> (r: Result<StoreUpdate, Error>)
        ensures
            self.flat_state_changes_answer(
                block_hash,
                prev_hash,
                height,
                shard_uid,
                state_changes@,
                r,
            ),
    ;

    /// Moves the flat storage of a shard up to a final block.
    fn update_flat_storage_for_shard(&self, shard_uid: ShardUId, new_flat_head: CryptoHash) -> (r:
        Result<(), Error>)
        ensures
            self.flat_storage_update_answer(shard_uid, new_flat_head, r),
    ;
}

impl<'x, T: EpochManagerAdapter> EpochManagerAdapter for &'x T {
    open spec fn epoch_id_answer(&self, block_hash: CryptoHash, answer: Result<EpochId, Error>) -> bool {
        (**self).epoch_id_answer(block_hash, answer)
    }

    open spec fn epoch_id_from_prev_block_answer(
        &self,
        parent_hash: CryptoHash,
        answer: Result<EpochId, Error>,
    ) -> bool {
        (**self).epoch_id_from_prev_block_answer(parent_hash, answer)
    }

    open spec fn next_epoch_id_from_prev_block_answer(
        &self,
        parent_hash: CryptoHash,
        answer: Result<EpochId, Error>,
    ) -> bool {
        (**self).next_epoch_id_from_prev_block_answer(parent_hash, answer)
    }

    open spec fn shard_layout_answer(&self, epoch_id: EpochId, answer: Result<ShardLayout, Error>) -> bool {
        (**self).shard_layout_answer(epoch_id, answer)
    }

    open spec fn shard_layout_from_prev_block_answer(
        &self,
        parent_hash: CryptoHash,
        answer: Result<ShardLayout, Error>,
    ) -> bool {
        (**self).shard_layout_from_prev_block_answer(parent_hash, answer)
    }

    open spec fn epoch_protocol_version_answer(
        &self,
        epoch_id: EpochId,
        answer: Result<ProtocolVersion, Error>,
    ) -> bool {
        (**self).epoch_protocol_version_answer(epoch_id, answer)
    }

    open spec fn shard_id_to_uid_answer(
        &self,
        shard_id: ShardId,
        epoch_id: EpochId,
        answer: Result<ShardUId, Error>,
    ) -> bool {
        (**self).shard_id_to_uid_answer(shard_id, epoch_id, answer)
    }

    open spec fn validator_proposals_answer(
        &self,
        block_header_info: BlockHeaderInfoView,
        answer: Result<StoreUpdate, Error>,
    ) -> bool {
        (**self).validator_proposals_answer(block_header_info, answer)
    }

    open spec fn orphan_approvals_answer(
        &self,
        epoch_id: EpochId,
        threshold_mode: DoomslugThresholdMode,
        prev_block_hash: CryptoHash,
        prev_block_height: BlockHeight,
        block_height: BlockHeight,
        approvals: Seq<u8>,
        answer: Result<(), Error>,
    ) -> bool {
        (**self).orphan_approvals_answer(
            epoch_id,
            threshold_mode,
            prev_block_hash,
            prev_block_height,
            block_height,
            approvals,
            answer,
        )
    }

    open spec fn light_client_block_answer(
        &self,
        header: BlockHeader,
        chain_store: StoreView,
        answer: Result<LightClientBlockView, Error>,
    ) -> bool {
        (**self).light_client_block_answer(header, chain_store, answer)
    }

    fn get_epoch_id(&self, block_hash: &CryptoHash) -> (r: Result<EpochId, Error>) {
        (**self).get_epoch_id(block_hash)
    }

    fn get_epoch_id_from_prev_block(&self, parent_hash: &CryptoHash) -> (r: Result<EpochId, Error>) {
        (**self).get_epoch_id_from_prev_block(parent_hash)
    }

    fn get_next_epoch_id_from_prev_block(&self, parent_hash: &CryptoHash) -> (r: Result<
        EpochId,
        Error,
    >) {
        (**self).get_next_epoch_id_from_prev_block(parent_hash)
    }

    fn get_shard_layout(&self, epoch_id: &EpochId) -> (r: Result<ShardLayout, Error>) {
        (**self).get_shard_layout(epoch_id)
    }

    fn get_shard_layout_from_prev_block(&self, parent_hash: &CryptoHash) -> (r: Result<
        ShardLayout,
        Error,
    >) {
        (**self).get_shard_layout_from_prev_block(parent_hash)
    }

    fn get_epoch_protocol_version(&self, epoch_id: &EpochId) -> (r: Result<ProtocolVersion, Error>) {
        (**self).get_epoch_protocol_version(epoch_id)
    }

    fn shard_id_to_uid(&self, shard_id: ShardId, epoch_id: &EpochId) -> (r: Result<ShardUId, Error>) {
        (**self).shard_id_to_uid(shard_id, epoch_id)
    }

    fn add_validator_proposals(&self, block_header_info: BlockHeaderInfo<'_>) -> (r: Result<
        StoreUpdate,
        Error,
    >) {
        (**self).add_validator_proposals(block_header_info)
    }

    fn verify_approvals_and_threshold_orphan(
        &self,
        epoch_id: &EpochId,
        threshold_mode: DoomslugThresholdMode,
        prev_block_hash: &CryptoHash,
        prev_block_height: BlockHeight,
        block_height: BlockHeight,
        approvals: &Vec<u8>,
    ) -> (r: Result<(), Error>) {
        (**self).verify_approvals_and_threshold_orphan(
            epoch_id,
            threshold_mode,
            prev_block_hash,
            prev_block_height,
            block_height,
            approvals,
        )
    }

    fn create_light_client_block(
        &self,
        header: &BlockHeader,
        chain_store: &ChainStoreUpdate<'_>,
    ) -> (r: Result<LightClientBlockView, Error>) {
        (**self).create_light_client_block(header, chain_store)
    }
}

impl<'x, T: RuntimeAdapter> RuntimeAdapter for &'x T {
    open spec fn apply_chunk_answer(
        &self,
        storage: RuntimeStorageConfig,
        reason: ApplyChunkReason,
        chunk: ApplyChunkShardContextView,
        block: ApplyChunkBlockContextView,
        receipts: Seq<ReceiptProofResponse>,
        transactions: Seq<u8>,
        answer: Result<ApplyChunkResult, Error>,
    ) -> bool {
        (**self).apply_chunk_answer(storage, reason, chunk, block, receipts, transactions, answer)
    }

    open spec fn outcomes_proof_answer(&self, outcomes: Seq<u8>, answer: (CryptoHash, Vec<u8>)) -> bool {
        (**self).outcomes_proof_answer(outcomes, answer)
    }

    open spec fn flat_state_changes_answer(
        &self,
        block_hash: CryptoHash,
        prev_hash: CryptoHash,
        height: BlockHeight,
        shard_uid: ShardUId,
        state_changes: Seq<u8>,
        answer: Result<StoreUpdate, Error>,
    ) -> bool {
        (**self).flat_state_changes_answer(
            block_hash,
            prev_hash,
            height,
            shard_uid,
            state_changes,
            answer,
        )
    }

    open spec fn flat_storage_update_answer(
        &self,
        shard_uid: ShardUId,
        new_flat_head: CryptoHash,
        answer: Result<(), Error>,
    ) -> bool {
        (**self).flat_storage_update_answer(shard_uid, new_flat_head, answer)
    }

    fn apply_chunk(
        &self,
        storage: RuntimeStorageConfig,
        reason: ApplyChunkReason,
        chunk: ApplyChunkShardContext<'_>,
        block: ApplyChunkBlockContext<'_>,
        receipts: &Vec<&ReceiptProofResponse>,
        transactions: &Vec<u8>,
    ) -> (r: Result<ApplyChunkResult, Error>) {
        (**self).apply_chunk(storage, reason, chunk, block, receipts, transactions)
    }

    fn compute_outcomes_proof(&self, outcomes: &Vec<u8>) -> (r: (CryptoHash, Vec<u8>)) {
        (**self).compute_outcomes_proof(outcomes)
    }

    fn save_flat_state_changes(
        &self,
        block_hash: CryptoHash,
        prev_hash: CryptoHash,
        height: BlockHeight,
        shard_uid: ShardUId,
        state_changes: &Vec<u8>,
    ) -> (r: Result<StoreUpdate, Error>) {
        (**self).save_flat_state_changes(block_hash, prev_hash, height, shard_uid, state_changes)
    }

    fn update_flat_storage_for_shard(&self, shard_uid: ShardUId, new_flat_head: CryptoHash) -> (r:
        Result<(), Error>) {
        (**self).update_flat_storage_for_shard(shard_uid, new_flat_head)
    }
}

} // verus!
