//! Bringing a shard up from a snapshot: the chunk of the snapshot is applied,
//! then every block from there to the sync block gets a checkpoint for the
//! shard, so that the shard has one for each block once the node tracks it.

use vstd::prelude::*;
use crate::adapters::{
    deref_proofs,
    ApplyChunkBlockContext,
    ApplyChunkBlockContextView,
    ApplyChunkReason,
    ApplyChunkResult,
    ApplyChunkShardContext,
    ApplyChunkShardContextView,
    EpochManagerAdapter,
    ReceiptProofResponse,
    RuntimeAdapter,
    RuntimeStorageConfig,
};
use crate::chain_update::ChainUpdate;
use crate::error::Error;
use crate::hash::{CryptoHash, EpochId};
use crate::records::{Record, RecordKey, ShardChunk, ShardChunkHeader, StoreUpdate};
use crate::results::ShardStateSyncResponseHeader;
use crate::shard::{ShardId, ShardUId};
use crate::store::{ChainStoreUpdate, StoreView};
use crate::types::{
    Balance,
    Block,
    BlockHeader,
    BlockHeight,
    BlockView,
    ChunkExtra,
    ChunkExtraView,
    ProtocolVersion,
};

verus! {

/// What is to be done for a shard at a height below the sync block.
pub enum HeightStep {
    /// No block at the height lies on the chain to the sync block: nothing to
    /// do, the next height is up.
    Skip,
    /// The block at the height is the sync block: nothing to do, and no
    /// further height either.
    Stop,
    /// The block at the height has no new chunk for the shard: the shard gets a
    /// checkpoint for it.
    Replay(BlockHeader),
}

/// What is to be done at `height` on the way to the sync block.
pub open spec fn height_step(store: StoreView, sync_hash: CryptoHash, height: BlockHeight) -> HeightStep {
    match store.get_block_header_on_chain_by_height(sync_hash, height) {
        Err(_) => HeightStep::Skip,
        Ok(header) => if header.hash == sync_hash {
            HeightStep::Stop
        } else {
            HeightStep::Replay(header)
        },
    }
}

/// At the height of the sync block the walk ends at the sync block itself:
/// nothing is replayed there, and no further height is to follow.
pub proof fn lemma_sync_height_stops(store: StoreView, sync_hash: CryptoHash)
    requires
        store.headers.contains_key(sync_hash),
        store.headers[sync_hash].hash == sync_hash,
    ensures
        height_step(store, sync_hash, store.headers[sync_hash].height) == HeightStep::Stop,
{
}

/// Above the sync block, and where the sync block is not known, there is
/// nothing to do at any height.
pub proof fn lemma_height_off_the_chain_skips(
    store: StoreView,
    sync_hash: CryptoHash,
    height: BlockHeight,
)
    requires
        store.headers.contains_key(sync_hash) ==> store.headers[sync_hash].height < height,
    ensures
        height_step(store, sync_hash, height) == HeightStep::Skip,
{
}

/// What the store lacks of what a replay reads before any collaborator is
/// asked, if it lacks any: the block, or the header of its predecessor.
pub open spec fn replay_lookup(store: StoreView, header: BlockHeader) -> Option<Error> {
    match store.get_block(header.hash) {
        Err(e) => Some(e),
        Ok(_) => match store.get_block_header(header.prev_hash) {
            Err(e) => Some(e),
            Ok(_) => None,
        },
    }
}

/// What the collaborators answered while a block without a chunk was replayed.
pub struct ReplayAnswers {
    /// The identity of the shard in the epoch of the block.
    pub shard_uid: ShardUId,
    /// What applying the block without a chunk gave.
    pub applied: ApplyChunkResult,
    /// The writes of flat storage for the state changes.
    pub flat: StoreUpdate,
}

/// Whether `answers` is what the collaborators gave when a block without a
/// chunk was replayed for a shard: the epoch manager was asked for the identity
/// of the shard in the epoch of the block, the runtime was asked to apply the
/// block as `spec_missing_chunk_contexts` says, without receipts and without
/// transactions, and flat storage was handed the state changes.
pub open spec fn replay_asked<E: EpochManagerAdapter, R: RuntimeAdapter>(
    epochs: E,
    runtime: R,
    store: StoreView,
    shard_id: ShardId,
    header: BlockHeader,
    height: BlockHeight,
    answers: ReplayAnswers,
) -> bool {
    &&& epochs.shard_id_to_uid_answer(shard_id, header.epoch_id, Ok(answers.shard_uid))
    &&& (store.get_block(header.hash) matches Ok(block) ==> (store.get_block_header(
        header.prev_hash,
    ) matches Ok(prev_header) ==> (store.get_chunk_extra(
        header.prev_hash,
        answers.shard_uid,
    ) matches Ok(chunk_extra) ==> {
        let contexts = spec_missing_chunk_contexts(
            shard_id,
            header,
            prev_header,
            block,
            chunk_extra,
        );
        runtime.apply_chunk_answer(
            contexts.0,
            ApplyChunkReason::UpdateTrackedShard,
            contexts.1,
            contexts.2,
            Seq::empty(),
            Seq::empty(),
            Ok(answers.applied),
        )
    })))
    &&& runtime.flat_state_changes_answer(
        header.hash,
        header.prev_hash,
        height,
        answers.shard_uid,
        answers.applied.trie_changes.state_changes@,
        Ok(answers.flat),
    )
}

/// The store after a block without a chunk is replayed for a shard: the
/// writes of flat storage, the trie changes, and the checkpoint before the
/// block with the new state root; nothing where the store lacks what the replay
/// reads.
pub open spec fn height_replayed(store: StoreView, header: BlockHeader, answers: ReplayAnswers) -> Option<
    StoreView,
> {
    if replay_lookup(store, header) is Some {
        None
    } else {
        match store.get_chunk_extra(header.prev_hash, answers.shard_uid) {
            Err(_) => None,
            Ok(chunk_extra) => Some(
                store.merge(answers.flat).save_trie_changes(
                    answers.applied.trie_changes,
                ).save_chunk_extra(
                    header.hash,
                    answers.shard_uid,
                    chunk_extra.with_state_root(answers.applied.new_root),
                ),
            ),
        }
    }
}

/// How a block without a new chunk for a shard is applied: on the state of the
/// checkpoint before it, with the proposals and the gas limit of that
/// checkpoint, at the gas price that the predecessor set.
pub open spec fn spec_missing_chunk_contexts(
    shard_id: ShardId,
    header: BlockHeader,
    prev_header: BlockHeader,
    block: BlockView,
    chunk_extra: ChunkExtraView,
) -> (RuntimeStorageConfig, ApplyChunkShardContextView, ApplyChunkBlockContextView) {
    (
        RuntimeStorageConfig { state_root: chunk_extra.state_root, use_flat_storage: true },
        ApplyChunkShardContextView {
            shard_id,
            last_validator_proposals: chunk_extra.validator_proposals,
            gas_limit: chunk_extra.gas_limit,
            is_new_chunk: false,
            is_first_block_with_chunk_of_version: false,
        },
        ApplyChunkBlockContextView {
            height: header.height,
            block_hash: header.hash,
            prev_block_hash: header.prev_hash,
            block_timestamp: header.raw_timestamp,
            gas_price: prev_header.next_gas_price,
            challenges_result: block.challenges_result,
            random_seed: header.random_value,
            congestion_info: block.congestion_info,
        },
    )
}

/// The storage, the shard's side and the block's side of applying a block
/// without a new chunk for a shard.
pub fn missing_chunk_contexts<'b>(
    shard_id: ShardId,
    header: &BlockHeader,
    prev_header: &BlockHeader,
    block: &'b Block,
    chunk_extra: &'b ChunkExtra,
) -> (r: (RuntimeStorageConfig, ApplyChunkShardContext<'b>, ApplyChunkBlockContext<'b>))
    ensures
        (r.0, r.1@, r.2@) == spec_missing_chunk_contexts(
            shard_id,
            *header,
            *prev_header,
            block@,
            chunk_extra@,
        ),
{
    (
        RuntimeStorageConfig::new(chunk_extra.state_root, true),
        ApplyChunkShardContext {
            shard_id,
            last_validator_proposals: &chunk_extra.validator_proposals,
            gas_limit: chunk_extra.gas_limit,
            is_new_chunk: false,
            is_first_block_with_chunk_of_version: false,
        },
        ApplyChunkBlockContext {
            height: header.height,
            block_hash: header.hash,
            prev_block_hash: header.prev_hash,
            block_timestamp: header.raw_timestamp,
            gas_price: prev_header.next_gas_price,
            challenges_result: &block.challenges_result,
            random_seed: header.random_value,
            congestion_info: &block.congestion_info,
        },
    )
}

/// How the chunk of a snapshot is applied: as a new chunk, on the state before
/// it, in the block that included it.
pub open spec fn spec_snapshot_chunk_contexts(
    shard_id: ShardId,
    chunk_header: ShardChunkHeader,
    block_header: BlockHeader,
    gas_price: Balance,
    block: BlockView,
) -> (RuntimeStorageConfig, ApplyChunkShardContextView, ApplyChunkBlockContextView) {
    (
        RuntimeStorageConfig { state_root: chunk_header.prev_state_root, use_flat_storage: true },
        ApplyChunkShardContextView {
            shard_id,
            last_validator_proposals: chunk_header.prev_validator_proposals@,
            gas_limit: chunk_header.gas_limit,
            is_new_chunk: true,
            is_first_block_with_chunk_of_version: false,
        },
        ApplyChunkBlockContextView {
            height: chunk_header.height_included,
            block_hash: block_header.hash,
            prev_block_hash: chunk_header.prev_block_hash,
            block_timestamp: block_header.raw_timestamp,
            gas_price,
            challenges_result: block.challenges_result,
            random_seed: block_header.random_value,
            congestion_info: block.congestion_info,
        },
    )
}

/// The storage, the shard's side and the block's side of applying the chunk of
/// a snapshot.
pub fn snapshot_chunk_contexts<'b>(
    shard_id: ShardId,
    chunk_header: &'b ShardChunkHeader,
    block_header: &BlockHeader,
    gas_price: Balance,
    block: &'b Block,
) -> (r: (RuntimeStorageConfig, ApplyChunkShardContext<'b>, ApplyChunkBlockContext<'b>))
    ensures
        (r.0, r.1@, r.2@) == spec_snapshot_chunk_contexts(
            shard_id,
            *chunk_header,
            *block_header,
            gas_price,
            block@,
        ),
{
    (
        RuntimeStorageConfig::new(chunk_header.prev_state_root, true),
        ApplyChunkShardContext {
            shard_id,
            last_validator_proposals: &chunk_header.prev_validator_proposals,
            gas_limit: chunk_header.gas_limit,
            // Whether this is the first block with a chunk of its version
            // matters under one past protocol version only.
            is_first_block_with_chunk_of_version: false,
            is_new_chunk: true,
        },
        ApplyChunkBlockContext {
            height: chunk_header.height_included,
            block_hash: block_header.hash,
            prev_block_hash: chunk_header.prev_block_hash,
            block_timestamp: block_header.raw_timestamp,
            gas_price,
            challenges_result: &block.challenges_result,
            random_seed: block_header.random_value,
            congestion_info: &block.congestion_info,
        },
    )
}

/// Whether the receipts of `proof` were sent by a block that is among
/// `headers` and that is no higher than `height`.
pub open spec fn sent_by(headers: Map<CryptoHash, BlockHeader>, height: BlockHeight) -> spec_fn(
    ReceiptProofResponse,
) -> bool {
    |proof: ReceiptProofResponse|
        headers.contains_key(proof.block_hash) && headers[proof.block_hash].height <= height
}

/// The first of the proofs whose block the store does not know, if there is one.
pub open spec fn first_unknown_sender(store: StoreView, proofs: Seq<ReceiptProofResponse>) -> Option<
    int,
>
    decreases proofs.len(),
{
    if proofs.len() == 0 {
        None
    } else if !store.headers.contains_key(proofs[0].block_hash) {
        Some(0)
    } else {
        match first_unknown_sender(store, proofs.drop_first()) {
            Some(i) => Some(i + 1),
            None => None,
        }
    }
}

/// The receipts that a shard had got when a chunk was included at `height`:
/// those sent by blocks up to that height, in their order. A block that the
/// store does not know fails the selection.
pub fn receipts_up_to<'b>(
    store: &ChainStoreUpdate<'_>,
    proofs: &'b Vec<ReceiptProofResponse>,
    height: BlockHeight,
) -> (r: Result<Vec<&'b ReceiptProofResponse>, Error>)
    ensures
        match first_unknown_sender(store@, proofs@) {
            Some(_) => r == Err::<Vec<&ReceiptProofResponse>, Error>(
                Error::DBNotFound(crate::error::Missing::BlockHeader),
            ),
            None => r is Ok && deref_proofs(r->Ok_0@) == proofs@.filter(sent_by(store@.headers, height)),
        },
{
    let mut kept: Vec<&'b ReceiptProofResponse> = Vec::new();
    let mut i: usize = 0;
    proof {
        reveal(Seq::filter);
        assert(proofs@.take(0) =~= Seq::<ReceiptProofResponse>::empty());
        assert(deref_proofs(kept@) =~= Seq::<ReceiptProofResponse>::empty());
        assert(proofs@.skip(0) =~= proofs@);
    }
    while i < proofs.len()
        invariant
            i <= proofs.len(),
            first_unknown_sender(store@, proofs@.take(i as int)) is None,
            first_unknown_sender(store@, proofs@) is Some <==> first_unknown_sender(
                store@,
                proofs@.skip(i as int),
            ) is Some,
            deref_proofs(kept@) == proofs@.take(i as int).filter(sent_by(store@.headers, height)),
        decreases proofs.len() - i,
    {
        let proof_response = &proofs[i];
        proof {
            let front = proofs@.take(i as int);
            front.lemma_filter_push(proofs@[i as int], sent_by(store@.headers, height));
            assert(front.push(proofs@[i as int]) =~= proofs@.take(i + 1));
            assert(proofs@.skip(i as int).drop_first() =~= proofs@.skip(i + 1));
            lemma_unknown_sender_push(store@, front, proofs@[i as int]);
        }
        let block_header = store.get_block_header(&proof_response.block_hash)?;
        if block_header.height <= height {
            proof {
                assert(deref_proofs(kept@.push(proof_response)) =~= deref_proofs(kept@).push(
                    *proof_response,
                ));
            }
            kept.push(proof_response);
        }
        i += 1;
    }
    proof {
        assert(proofs@.take(proofs@.len() as int) =~= proofs@);
        assert(proofs@.skip(proofs@.len() as int) =~= Seq::<ReceiptProofResponse>::empty());
    }
    Ok(kept)
}

/// A list whose senders are all known stays so with one more known sender, and
/// not with an unknown one.
proof fn lemma_unknown_sender_push(
    store: StoreView,
    proofs: Seq<ReceiptProofResponse>,
    proof_response: ReceiptProofResponse,
)
    requires
        first_unknown_sender(store, proofs) is None,
    ensures
        first_unknown_sender(store, proofs.push(proof_response)) is None
            <==> store.headers.contains_key(proof_response.block_hash),
    decreases proofs.len(),
{
    let pushed = proofs.push(proof_response);
    if proofs.len() == 0 {
        assert(pushed.drop_first() =~= proofs);
        assert(pushed[0] == proof_response);
    } else {
        assert(pushed[0] == proofs[0]);
        assert(store.headers.contains_key(proofs[0].block_hash));
        assert(first_unknown_sender(store, proofs.drop_first()) is None);
        lemma_unknown_sender_push(store, proofs.drop_first(), proof_response);
        assert(pushed.drop_first() =~= proofs.drop_first().push(proof_response));
    }
}

/// What the collaborators answered while the chunk of a snapshot was applied.
pub struct FinalizeAnswers {
    /// What applying the chunk gave.
    pub applied: ApplyChunkResult,
    /// The root over the outcomes of the chunk.
    pub outcome_root: CryptoHash,
    /// The proofs of the outcomes, encoded.
    pub outcome_proofs: Vec<u8>,
    /// The identity of the shard in the epoch of the block.
    pub shard_uid: ShardUId,
    /// The writes of flat storage for the state changes of the chunk.
    pub flat: StoreUpdate,
    /// The epoch of the block that included the chunk.
    pub epoch_id: EpochId,
    /// The protocol version of that epoch.
    pub protocol_version: ProtocolVersion,
}

/// The gas price that holds for the chunks of a block: what the predecessor
/// set, or what the block itself names where it is the first of the chain.
pub open spec fn gas_price_for(store: StoreView, header: BlockHeader) -> Result<Balance, Error> {
    if header.height == store.genesis_height {
        Ok(header.next_gas_price)
    } else {
        match store.get_block_header(header.prev_hash) {
            Ok(prev) => Ok(prev.next_gas_price),
            Err(e) => Err(e),
        }
    }
}

/// What the store knows of what applying the chunk of a snapshot reads, before
/// any collaborator is asked: the header of the block that included the chunk
/// on the chain to the sync block, or the first thing that is missing.
pub open spec fn finalize_lookup(
    store: StoreView,
    sync_hash: CryptoHash,
    snapshot: ShardStateSyncResponseHeader,
) -> Result<BlockHeader, Error> {
    match store.get_block_header_on_chain_by_height(
        sync_hash,
        snapshot.spec_chunk().spec_header().height_included,
    ) {
        Err(e) => Err(e),
        Ok(header) => {
            if first_unknown_sender(store, snapshot.spec_incoming_receipts_proofs()@) is Some {
                Err(Error::DBNotFound(crate::error::Missing::BlockHeader))
            } else {
                match gas_price_for(store, header) {
                    Err(e) => Err(e),
                    Ok(_) => match store.get_block(header.hash) {
                        Err(e) => Err(e),
                        Ok(_) => Ok(header),
                    },
                }
            }
        },
    }
}

/// Whether `answers` is what the collaborators gave when the chunk of a
/// snapshot was applied. The runtime was asked to apply the chunk as
/// `spec_snapshot_chunk_contexts` says, at the gas price that holds for the
/// block, with the receipts of the snapshot that were sent up to the height at
/// which the chunk was included, and with the transactions of the chunk; then
/// for the root and the proofs of the outcomes. The epoch manager was asked for
/// the identity of the shard and for the protocol version of the epoch of the
/// block, and flat storage was handed the state changes.
pub open spec fn finalize_asked<E: EpochManagerAdapter, R: RuntimeAdapter>(
    epochs: E,
    runtime: R,
    store: StoreView,
    shard_id: ShardId,
    sync_hash: CryptoHash,
    snapshot: ShardStateSyncResponseHeader,
    answers: FinalizeAnswers,
) -> bool {
    finalize_lookup(store, sync_hash, snapshot) matches Ok(header) ==> {
        let chunk = snapshot.spec_chunk();
        let chunk_header = chunk.spec_header();
        let contexts = spec_snapshot_chunk_contexts(
            shard_id,
            chunk_header,
            header,
            gas_price_for(store, header)->Ok_0,
            store.get_block(header.hash)->Ok_0,
        );
        &&& runtime.apply_chunk_answer(
            contexts.0,
            ApplyChunkReason::UpdateTrackedShard,
            contexts.1,
            contexts.2,
            snapshot.spec_incoming_receipts_proofs()@.filter(
                sent_by(store.headers, chunk_header.height_included),
            ),
            chunk.spec_transactions()@,
            Ok(answers.applied),
        )
        &&& runtime.outcomes_proof_answer(
            answers.applied.outcomes@,
            (answers.outcome_root, answers.outcome_proofs),
        )
        &&& epochs.shard_id_to_uid_answer(shard_id, header.epoch_id, Ok(answers.shard_uid))
        &&& runtime.flat_state_changes_answer(
            header.hash,
            chunk_header.prev_block_hash,
            chunk_header.height_included,
            answers.shard_uid,
            answers.applied.trie_changes.state_changes@,
            Ok(answers.flat),
        )
        &&& epochs.epoch_id_answer(header.hash, Ok(answers.epoch_id))
        &&& epochs.epoch_protocol_version_answer(answers.epoch_id, Ok(answers.protocol_version))
    }
}

/// The store with the first `k` of the receipts of a snapshot filed, each
/// under the block that sent it.
pub open spec fn snapshot_receipts_staged(
    store: StoreView,
    shard_id: ShardId,
    proofs: Seq<ReceiptProofResponse>,
    k: nat,
) -> StoreView
    decreases k,
{
    if k == 0 {
        store
    } else {
        snapshot_receipts_staged(store, shard_id, proofs, (k - 1) as nat).save_record(
            RecordKey::IncomingReceipts { block_hash: proofs[k - 1].block_hash, shard_id },
            Record::IncomingReceipts(proofs[k - 1].proofs),
        )
    }
}

/// The first `k` receipts are filed alike where the lists agree up to `k`.
proof fn lemma_snapshot_receipts_prefix(
    store: StoreView,
    shard_id: ShardId,
    a: Seq<ReceiptProofResponse>,
    b: Seq<ReceiptProofResponse>,
    k: nat,
)
    requires
        k <= a.len(),
        k <= b.len(),
        forall|i: int| 0 <= i < k ==> a[i] == b[i],
    ensures
        snapshot_receipts_staged(store, shard_id, a, k) == snapshot_receipts_staged(
            store,
            shard_id,
            b,
            k,
        ),
    decreases k,
{
    if k > 0 {
        lemma_snapshot_receipts_prefix(store, shard_id, a, b, (k - 1) as nat);
    }
}

/// The checkpoint of a shard after the chunk of its snapshot.
pub open spec fn snapshot_chunk_extra(chunk: ShardChunk, answers: FinalizeAnswers) -> ChunkExtraView {
    ChunkExtraView {
        state_root: answers.applied.new_root,
        outcome_root: answers.outcome_root,
        validator_proposals: answers.applied.validator_proposals@,
        gas_used: answers.applied.total_gas_burnt,
        gas_limit: chunk.spec_header().gas_limit,
        balance_burnt: answers.applied.total_balance_burnt,
        congestion_info: answers.applied.congestion_info,
    }
}

/// The store after the chunk of a snapshot is applied for a shard, and the
/// identity of the shard, given what the collaborators answered: the chunk,
/// the writes of flat storage, the trie changes, the checkpoint, the receipts
/// sent on, the outcomes with their proofs, and the receipts of the snapshot
/// that were sent up to the height at which the chunk was included. Nothing
/// where the store lacks what is read on the way, or the congestion info does
/// not fit the protocol version.
pub open spec fn state_finalized(
    store: StoreView,
    shard_id: ShardId,
    sync_hash: CryptoHash,
    snapshot: ShardStateSyncResponseHeader,
    answers: FinalizeAnswers,
) -> Option<(StoreView, ShardUId)> {
    let chunk = snapshot.spec_chunk();
    let proofs = snapshot.spec_incoming_receipts_proofs()@;
    match finalize_lookup(store, sync_hash, snapshot) {
        Err(_) => None,
        Ok(header) => {
            if !ChunkExtra::congestion_info_fits(
                answers.protocol_version,
                answers.applied.congestion_info,
            ) {
                None
            } else {
                let staged = store.save_record(
                    RecordKey::Chunk { chunk_hash: chunk.spec_header().chunk_hash },
                    Record::Chunk(chunk),
                ).merge(answers.flat).save_trie_changes(
                    answers.applied.trie_changes,
                ).save_chunk_extra(
                    header.hash,
                    answers.shard_uid,
                    snapshot_chunk_extra(chunk, answers),
                ).save_record(
                    RecordKey::OutgoingReceipts { block_hash: header.hash, shard_id },
                    Record::OutgoingReceipts(answers.applied.outgoing_receipts),
                ).save_record(
                    RecordKey::OutcomesWithProofs { block_hash: header.hash, shard_id },
                    Record::OutcomesWithProofs {
                        outcomes: answers.applied.outcomes,
                        proofs: answers.outcome_proofs,
                    },
                );
                let kept = proofs.filter(
                    sent_by(store.headers, chunk.spec_header().height_included),
                );
                Some((snapshot_receipts_staged(staged, shard_id, kept, kept.len()), answers.shard_uid))
            }
        },
    }
}

impl<'a, E: EpochManagerAdapter, R: RuntimeAdapter> ChainUpdate<'a, E, R> {
    /// The gas price that holds for the chunks of the block of `header`.
    fn gas_price_for(&self, header: &BlockHeader) -> (r: Result<Balance, Error>)
        ensures
            r == gas_price_for(self@, *header),
    {
        // The header of the predecessor is there during state sync: headers are
        // synced before.
        if header.height == self.chain_store_update.get_genesis_height() {
            Ok(header.next_gas_price)
        } else {
            Ok(self.chain_store_update.get_block_header(&header.prev_hash)?.next_gas_price)
        }
    }

    /// Applies the chunk of a snapshot in the block that included it.
    fn apply_snapshot_chunk(
        &self,
        shard_id: ShardId,
        block_header: &BlockHeader,
        chunk: &ShardChunk,
        incoming_receipts_proofs: &Vec<ReceiptProofResponse>,
    ) -> (r: Result<ApplyChunkResult, Error>)
        ensures
            first_unknown_sender(self@, incoming_receipts_proofs@) is Some ==> r == Err::<
                ApplyChunkResult,
                Error,
            >(Error::DBNotFound(crate::error::Missing::BlockHeader)),
            first_unknown_sender(self@, incoming_receipts_proofs@) is None ==> (gas_price_for(
                self@,
                *block_header,
            ) matches Err(e) ==> r == Err::<ApplyChunkResult, Error>(e)),
            first_unknown_sender(self@, incoming_receipts_proofs@) is None && gas_price_for(
                self@,
                *block_header,
            ) is Ok ==> (self@.get_block(block_header.hash) matches Err(e) ==> r == Err::<
                ApplyChunkResult,
                Error,
            >(e)),
            r is Ok ==> ({
                let contexts = spec_snapshot_chunk_contexts(
                    shard_id,
                    chunk.spec_header(),
                    *block_header,
                    gas_price_for(self@, *block_header)->Ok_0,
                    self@.get_block(block_header.hash)->Ok_0,
                );
                self.runtime_adapter.apply_chunk_answer(
                    contexts.0,
                    ApplyChunkReason::UpdateTrackedShard,
                    contexts.1,
                    contexts.2,
                    incoming_receipts_proofs@.filter(
                        sent_by(self@.headers, chunk.spec_header().height_included),
                    ),
                    chunk.spec_transactions()@,
                    r,
                )
            }),
    {
        // Getting actual incoming receipts.
        let receipt_proof_response = receipts_up_to(
            &self.chain_store_update,
            incoming_receipts_proofs,
            chunk.height_included(),
        )?;
        let gas_price = self.gas_price_for(block_header)?;
        let block = self.chain_store_update.get_block(&block_header.hash)?;
        let (storage, shard_context, block_context) = snapshot_chunk_contexts(
            shard_id,
            chunk.header(),
            block_header,
            gas_price,
            block,
        );
        self.runtime_adapter.apply_chunk(
            storage,
            ApplyChunkReason::UpdateTrackedShard,
            shard_context,
            block_context,
            &receipt_proof_response,
            chunk.transactions(),
        )
    }

    /// Files the receipts of a snapshot that were sent up to `height`, each
    /// under the block that sent it.
    fn save_snapshot_receipts(
        &mut self,
        shard_id: ShardId,
        incoming_receipts_proofs: Vec<ReceiptProofResponse>,
        height: BlockHeight,
    )
        ensures
            final(self).only_staged_since(*old(self)),
            final(self)@ == snapshot_receipts_staged(
                old(self)@,
                shard_id,
                incoming_receipts_proofs@.filter(sent_by(old(self)@.headers, height)),
                incoming_receipts_proofs@.filter(sent_by(old(self)@.headers, height)).len(),
            ),
    {
        let ghost all = incoming_receipts_proofs@;
        let ghost sent = sent_by(old(self)@.headers, height);
        let n: usize = incoming_receipts_proofs.len();
        let mut rest = incoming_receipts_proofs;
        let mut i: usize = 0;
        proof {
            reveal(Seq::filter);
            assert(all.skip(0) =~= all);
            assert(all.take(0) =~= Seq::<ReceiptProofResponse>::empty());
        }
        while i < n
            invariant
                i <= n,
                n == all.len(),
                rest@ == all.skip(i as int),
                sent == sent_by(old(self)@.headers, height),
                self@.headers == old(self)@.headers,
                self@ == snapshot_receipts_staged(
                    old(self)@,
                    shard_id,
                    all.take(i as int).filter(sent),
                    all.take(i as int).filter(sent).len(),
                ),
                self.only_staged_since(*old(self)),
            decreases n - i,
        {
            let receipt_proof_response = rest.remove(0);
            proof {
                let kept = all.take(i as int).filter(sent);
                assert(receipt_proof_response == all[i as int]);
                assert(rest@ =~= all.skip(i + 1));
                all.take(i as int).lemma_filter_push(receipt_proof_response, sent);
                assert(all.take(i as int).push(receipt_proof_response) =~= all.take(i + 1));
                lemma_snapshot_receipts_prefix(
                    old(self)@,
                    shard_id,
                    kept,
                    kept.push(receipt_proof_response),
                    kept.len(),
                );
            }
            let sender = self.chain_store_update.get_block_header(
                &receipt_proof_response.block_hash,
            );
            let keep = match sender {
                Ok(block_header) => block_header.height <= height,
                Err(_) => false,
            };
            if keep {
                self.chain_store_update.save_record(
                    RecordKey::IncomingReceipts {
                        block_hash: receipt_proof_response.block_hash,
                        shard_id,
                    },
                    Record::IncomingReceipts(receipt_proof_response.proofs),
                );
            }
            i += 1;
        }
        assert(all.take(n as int) =~= all);
    }

    /// Called when the state of a shard has been fetched: applies the chunk that
    /// the snapshot was taken at, in the block that included it on the chain to
    /// the sync block, and stages the results. Gives the identity of the shard.
    /// Where it fails, nothing is staged.
    pub fn set_state_finalize(
        &mut self,
        shard_id: ShardId,
        sync_hash: CryptoHash,
        shard_state_header: ShardStateSyncResponseHeader,
    ) -> (r: Result<ShardUId, Error>)
        ensures
            final(self).only_staged_since(*old(self)),
            r matches Ok(shard_uid) ==> exists|answers: FinalizeAnswers|
                finalize_asked(
                    old(self).epoch_manager,
                    old(self).runtime_adapter,
                    old(self)@,
                    shard_id,
                    sync_hash,
                    shard_state_header,
                    answers,
                ) && #[trigger] state_finalized(
                    old(self)@,
                    shard_id,
                    sync_hash,
                    shard_state_header,
                    answers,
                ) == Some((final(self)@, shard_uid)),
            finalize_lookup(old(self)@, sync_hash, shard_state_header) matches Err(e) ==> r == Err::<
                ShardUId,
                Error,
            >(e),
            r is Err ==> final(self)@ == old(self)@,
    {
        let (chunk, incoming_receipts_proofs) = shard_state_header.into_parts();

        let block_header = self.chain_store_update.get_block_header_on_chain_by_height(
            &sync_hash,
            chunk.height_included(),
        )?;

        let apply_result = self.apply_snapshot_chunk(
            shard_id,
            &block_header,
            &chunk,
            &incoming_receipts_proofs,
        )?;
        let ghost applied = apply_result;
        let ApplyChunkResult {
            trie_changes,
            new_root,
            outcomes,
            outgoing_receipts,
            validator_proposals,
            total_gas_burnt,
            total_balance_burnt,
            proof: _,
            applied_receipts_hash: _,
            congestion_info,
        } = apply_result;

        let (outcome_root, outcome_proofs) = self.runtime_adapter.compute_outcomes_proof(&outcomes);
        let ghost proofs_made = outcome_proofs;

        let gas_limit = chunk.header().gas_limit;
        let prev_block_hash = chunk.header().prev_block_hash;
        let height_included = chunk.header().height_included;
        let chunk_hash = chunk.chunk_hash();

        let shard_uid = self.epoch_manager.shard_id_to_uid(shard_id, &block_header.epoch_id)?;
        let store_update = self.runtime_adapter.save_flat_state_changes(
            block_header.hash,
            prev_block_hash,
            height_included,
            shard_uid,
            &trie_changes.state_changes,
        )?;
        let ghost flat = store_update;

        let epoch_id = self.epoch_manager.get_epoch_id(&block_header.hash)?;
        let protocol_version = self.epoch_manager.get_epoch_protocol_version(&epoch_id)?;

        let chunk_extra = ChunkExtra::new(
            protocol_version,
            &new_root,
            outcome_root,
            validator_proposals,
            total_gas_burnt,
            gas_limit,
            total_balance_burnt,
            congestion_info,
        )?;

        // All collaborators have answered: the results are staged.
        self.chain_store_update.save_record(RecordKey::Chunk { chunk_hash }, Record::Chunk(chunk));
        self.chain_store_update.merge(store_update);
        self.chain_store_update.save_trie_changes(trie_changes);
        self.chain_store_update.save_chunk_extra(&block_header.hash, &shard_uid, chunk_extra);

        self.chain_store_update.save_record(
            RecordKey::OutgoingReceipts { block_hash: block_header.hash, shard_id },
            Record::OutgoingReceipts(outgoing_receipts),
        );
        // Saving transaction results.
        self.chain_store_update.save_record(
            RecordKey::OutcomesWithProofs { block_hash: block_header.hash, shard_id },
            Record::OutcomesWithProofs { outcomes, proofs: outcome_proofs },
        );
        // Saving the incoming receipts that the chunk was applied with.
        self.save_snapshot_receipts(shard_id, incoming_receipts_proofs, height_included);
        proof {
            let answers = FinalizeAnswers {
                applied,
                outcome_root,
                outcome_proofs: proofs_made,
                shard_uid,
                flat,
                epoch_id,
                protocol_version,
            };
            assert(finalize_asked(
                old(self).epoch_manager,
                old(self).runtime_adapter,
                old(self)@,
                shard_id,
                sync_hash,
                shard_state_header,
                answers,
            ));
            assert(state_finalized(old(self)@, shard_id, sync_hash, shard_state_header, answers)
                == Some((self@, shard_uid)));
        }
        Ok(shard_uid)
    }

    /// Applies a block without a new chunk on the checkpoint before it. Gives
    /// what applying gave, a copy of that checkpoint, and the identity of the
    /// shard in the epoch of the block.
    fn apply_missing_chunk(&self, shard_id: ShardId, block_header: &BlockHeader) -> (r: Result<
        (ApplyChunkResult, ChunkExtra, ShardUId),
        Error,
    >)
        ensures
            r matches Ok(triple) ==> replay_lookup(self@, *block_header) is None
                && self@.get_chunk_extra(block_header.prev_hash, triple.2) == Ok::<
                ChunkExtraView,
                Error,
            >(triple.1@) && self.epoch_manager.shard_id_to_uid_answer(
                shard_id,
                block_header.epoch_id,
                Ok(triple.2),
            ) && ({
                let contexts = spec_missing_chunk_contexts(
                    shard_id,
                    *block_header,
                    self@.get_block_header(block_header.prev_hash)->Ok_0,
                    self@.get_block(block_header.hash)->Ok_0,
                    triple.1@,
                );
                self.runtime_adapter.apply_chunk_answer(
                    contexts.0,
                    ApplyChunkReason::UpdateTrackedShard,
                    contexts.1,
                    contexts.2,
                    Seq::empty(),
                    Seq::empty(),
                    Ok(triple.0),
                )
            }),
            replay_lookup(self@, *block_header) matches Some(e) ==> r == Err::<
                (ApplyChunkResult, ChunkExtra, ShardUId),
                Error,
            >(e),
    {
        let block = self.chain_store_update.get_block(&block_header.hash)?;

        let prev_hash = block_header.prev_hash;
        let prev_block_header = self.chain_store_update.get_block_header(&prev_hash)?;

        let shard_uid = self.epoch_manager.shard_id_to_uid(shard_id, &block_header.epoch_id)?;
        let chunk_extra = self.chain_store_update.get_chunk_extra(&prev_hash, &shard_uid)?;

        let (storage, shard_context, block_context) = missing_chunk_contexts(
            shard_id,
            block_header,
            &prev_block_header,
            block,
            chunk_extra,
        );
        let no_receipts: Vec<&ReceiptProofResponse> = Vec::new();
        let no_transactions: Vec<u8> = Vec::new();
        assert(deref_proofs(no_receipts@) =~= Seq::<ReceiptProofResponse>::empty());
        let apply_result = self.runtime_adapter.apply_chunk(
            storage,
            ApplyChunkReason::UpdateTrackedShard,
            shard_context,
            block_context,
            &no_receipts,
            &no_transactions,
        )?;
        Ok((apply_result, chunk_extra.clone_extra(), shard_uid))
    }

    /// Called for each height from the chunk of a snapshot up to the sync
    /// block: the shard had no new chunk there, and gets a checkpoint all the
    /// same. Says whether the next height is to follow: not after the sync
    /// block itself.
    pub fn set_state_finalize_on_height(
        &mut self,
        height: BlockHeight,
        shard_id: ShardId,
        sync_hash: CryptoHash,
    ) -> (r: Result<bool, Error>)
        ensures
            final(self).only_staged_since(*old(self)),
            match height_step(old(self)@, sync_hash, height) {
                HeightStep::Skip => r == Ok::<bool, Error>(true) && final(self)@ == old(self)@,
                HeightStep::Stop => r == Ok::<bool, Error>(false) && final(self)@ == old(self)@,
                HeightStep::Replay(header) => match r {
                    Ok(go_on) => go_on && exists|answers: ReplayAnswers|
                        replay_asked(
                            old(self).epoch_manager,
                            old(self).runtime_adapter,
                            old(self)@,
                            shard_id,
                            header,
                            height,
                            answers,
                        ) && #[trigger] height_replayed(old(self)@, header, answers) == Some(
                            final(self)@,
                        ),
                    Err(e) => final(self)@ == old(self)@ && (replay_lookup(
                        old(self)@,
                        header,
                    ) matches Some(missing) ==> e == missing),
                },
            },
    {
        let block_header_result = self.chain_store_update.get_block_header_on_chain_by_height(
            &sync_hash,
            height,
        );
        let block_header = match block_header_result {
            Err(_) => {
                // No such height, go ahead.
                return Ok(true);
            },
            Ok(block_header) => block_header,
        };
        if block_header.hash.same(&sync_hash) {
            // Don't continue
            return Ok(false);
        }
        let (apply_result, chunk_extra, shard_uid) = self.apply_missing_chunk(
            shard_id,
            &block_header,
        )?;
        let store_update = self.runtime_adapter.save_flat_state_changes(
            block_header.hash,
            block_header.prev_hash,
            height,
            shard_uid,
            &apply_result.trie_changes.state_changes,
        )?;
        let ghost answers = ReplayAnswers { shard_uid, applied: apply_result, flat: store_update };
        assert(replay_asked(
            self.epoch_manager,
            self.runtime_adapter,
            self@,
            shard_id,
            block_header,
            height,
            answers,
        ));
        self.chain_store_update.merge(store_update);
        self.chain_store_update.save_trie_changes(apply_result.trie_changes);

        // The chunk is missing but some fields may need to be updated anyway:
        // the checkpoint is a copy of the one before with the new state root.
        let new_chunk_extra = chunk_extra.with_state_root(apply_result.new_root);

        self.chain_store_update.save_chunk_extra(&block_header.hash, &shard_uid, new_chunk_extra);
        assert(height_replayed(old(self)@, block_header, answers) == Some(self@));
        Ok(true)
    }
}

} // verus!
