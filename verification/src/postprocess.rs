//! What processing a block stages, as a function of the store before, of what
//! was handed in, and of what the collaborators answered.

use vstd::prelude::*;
use near_primitives::shard_layout::ShardLayout;
use near_primitives::views::LightClientBlockView;
use crate::adapters::{ApplyChunkResult, BlockHeaderInfoView, EpochManagerAdapter, RuntimeAdapter};
use crate::error::{Defect, Error};
use crate::fork_choice;
use crate::gauges::Gauges;
use crate::hash::{CryptoHash, EpochId};
use crate::records::{Record, RecordKey, StoreUpdate};
use crate::resharding::{split_asked, split_refused, split_staged, SplitAnswers, SplitTrace};
use crate::results::{
    BlockPreprocessInfo,
    NewChunkResult,
    OldChunkResult,
    ReshardingResults,
    ShardUpdateResult,
};
use crate::shard::{ShardId, ShardUId};
use crate::store::StoreView;
use crate::types::{BlockHeader, BlockView, ChunkExtra, ChunkExtraView, ProtocolVersion, Tip};

verus! {

/// What the collaborators answered while the result of one shard was processed.
pub struct ShardAnswers {
    /// The epoch of the block.
    pub epoch_id: EpochId,
    /// The protocol version of the block's epoch.
    pub protocol_version: ProtocolVersion,
    /// The root over the outcomes of the chunk.
    pub outcome_root: CryptoHash,
    /// The proofs of the outcomes, encoded.
    pub outcome_proofs: Vec<u8>,
    /// The writes of flat storage for the state changes of the shard.
    pub flat: StoreUpdate,
    /// What was answered while the shard split, where it did.
    pub split: SplitAnswers,
}

/// The store with the proof of a state transition filed, where it is asked for.
pub open spec fn with_state_transition_data(
    store: StoreView,
    block_hash: CryptoHash,
    shard_id: ShardId,
    applied: ApplyChunkResult,
    save: bool,
) -> StoreView {
    if save {
        store.save_record(
            RecordKey::StateTransitionData { block_hash, shard_id },
            Record::StateTransitionData {
                proof: applied.proof,
                applied_receipts_hash: applied.applied_receipts_hash,
            },
        )
    } else {
        store
    }
}

/// The store with the resharding results of a shard staged, where it has any.
pub open spec fn with_resharding(
    store: StoreView,
    block_hash: CryptoHash,
    shard_uid: ShardUId,
    results: Option<ReshardingResults>,
    answers: SplitAnswers,
) -> Option<StoreView> {
    match results {
        None => Some(store),
        Some(results) => split_staged(store, block_hash, shard_uid, results, answers),
    }
}

/// The checkpoint of a shard after a new chunk.
pub open spec fn new_chunk_extra(result: NewChunkResult, outcome_root: CryptoHash) -> ChunkExtraView {
    ChunkExtraView {
        state_root: result.apply_result.new_root,
        outcome_root,
        validator_proposals: result.apply_result.validator_proposals@,
        gas_used: result.apply_result.total_gas_burnt,
        gas_limit: result.gas_limit,
        balance_burnt: result.apply_result.total_balance_burnt,
        congestion_info: result.apply_result.congestion_info,
    }
}

/// The store after the result of a shard with a new chunk: the checkpoint made
/// of the result, the writes of flat storage, the trie changes, the receipts
/// sent on, the outcomes with their proofs and, where asked for, the proof of
/// the transition; then the resharding results.
pub open spec fn new_chunk_staged(
    store: StoreView,
    block: BlockHeader,
    result: NewChunkResult,
    save_state_transition_data: bool,
    answers: ShardAnswers,
) -> Option<StoreView> {
    let applied = result.apply_result;
    let shard_id = result.shard_uid.spec_shard_id();
    if !ChunkExtra::congestion_info_fits(answers.protocol_version, applied.congestion_info) {
        None
    } else {
        let staged = store.save_chunk_extra(
            block.hash,
            result.shard_uid,
            new_chunk_extra(result, answers.outcome_root),
        ).merge(answers.flat).save_trie_changes(applied.trie_changes).save_record(
            RecordKey::OutgoingReceipts { block_hash: block.hash, shard_id },
            Record::OutgoingReceipts(applied.outgoing_receipts),
        ).save_record(
            RecordKey::OutcomesWithProofs { block_hash: block.hash, shard_id },
            Record::OutcomesWithProofs {
                outcomes: applied.outcomes,
                proofs: answers.outcome_proofs,
            },
        );
        with_resharding(
            with_state_transition_data(
                staged,
                block.hash,
                shard_id,
                applied,
                save_state_transition_data,
            ),
            block.hash,
            result.shard_uid,
            result.resharding_results,
            answers.split,
        )
    }
}

/// The store after the result of a shard whose chunk was missing: the
/// checkpoint before the block with the new state root, the writes of flat
/// storage, the trie changes and, where asked for, the proof of the
/// transition; then the resharding results.
pub open spec fn old_chunk_staged(
    store: StoreView,
    block: BlockHeader,
    result: OldChunkResult,
    save_state_transition_data: bool,
    answers: ShardAnswers,
) -> Option<StoreView> {
    let applied = result.apply_result;
    match store.get_chunk_extra(block.prev_hash, result.shard_uid) {
        Err(_) => None,
        Ok(old_extra) => {
            let staged = store.merge(answers.flat).save_chunk_extra(
                block.hash,
                result.shard_uid,
                old_extra.with_state_root(applied.new_root),
            ).save_trie_changes(applied.trie_changes);
            with_resharding(
                with_state_transition_data(
                    staged,
                    block.hash,
                    result.shard_uid.spec_shard_id(),
                    applied,
                    save_state_transition_data,
                ),
                block.hash,
                result.shard_uid,
                result.resharding_results,
                answers.split,
            )
        },
    }
}

/// The store after the result of one shard is processed, given what the
/// collaborators answered; nothing where the result cannot be processed with
/// these answers.
pub open spec fn shard_staged(
    store: StoreView,
    block: BlockHeader,
    result: ShardUpdateResult,
    save_state_transition_data: bool,
    answers: ShardAnswers,
) -> Option<StoreView> {
    match result {
        ShardUpdateResult::NewChunk(result) => new_chunk_staged(
            store,
            block,
            result,
            save_state_transition_data,
            answers,
        ),
        ShardUpdateResult::OldChunk(result) => old_chunk_staged(
            store,
            block,
            result,
            save_state_transition_data,
            answers,
        ),
        ShardUpdateResult::Resharding(result) => split_staged(
            store,
            block.hash,
            result.shard_uid,
            ReshardingResults::ApplyReshardingResults(result.results),
            answers.split,
        ),
    }
}

/// The store after the results of the first `k` shards are processed, in their
/// order.
pub open spec fn shards_staged(
    store: StoreView,
    block: BlockHeader,
    results: Seq<ShardUpdateResult>,
    save_state_transition_data: bool,
    answers: Seq<ShardAnswers>,
    k: nat,
) -> Option<StoreView>
    decreases k,
{
    if k == 0 {
        Some(store)
    } else {
        match shards_staged(
            store,
            block,
            results,
            save_state_transition_data,
            answers,
            (k - 1) as nat,
        ) {
            None => None,
            Some(staged) => shard_staged(
                staged,
                block,
                results[k - 1],
                save_state_transition_data,
                answers[k - 1],
            ),
        }
    }
}

/// Whether `answers` is what the collaborators gave when they were asked for
/// the resharding results of a shard, where it has any.
pub open spec fn resharding_asked<E: EpochManagerAdapter, R: RuntimeAdapter>(
    epochs: E,
    runtime: R,
    block: BlockHeader,
    results: Option<ReshardingResults>,
    answers: SplitAnswers,
) -> bool {
    match results {
        None => true,
        Some(results) => split_asked(epochs, runtime, block, results, answers),
    }
}

/// Whether `e` is the failure at which planning the resharding results of a
/// shard with the checkpoint `parent` ended. Only the children of a split can
/// fail to be planned.
pub open spec fn resharding_refused<E: EpochManagerAdapter, R: RuntimeAdapter>(
    epochs: E,
    runtime: R,
    block: BlockHeader,
    parent: ChunkExtraView,
    parent_shard_id: ShardId,
    results: Option<ReshardingResults>,
    trace: SplitTrace,
    e: Error,
) -> bool {
    results matches Some(ReshardingResults::ApplyReshardingResults(children)) && split_refused(
        epochs,
        runtime,
        block,
        parent,
        parent_shard_id,
        children@,
        trace,
        e,
    )
}

/// What the collaborators answered while the result of a shard with a new
/// chunk was processed, up to the first failure. The answer to a question that
/// was not asked has no meaning.
pub struct NewChunkTrace {
    /// The root over the outcomes of the chunk.
    pub outcome_root: CryptoHash,
    /// The proofs of the outcomes, encoded.
    pub outcome_proofs: Vec<u8>,
    /// What the epoch manager answered for the epoch of the block.
    pub epoch_id: Result<EpochId, Error>,
    /// What it answered for the protocol version of the block's epoch.
    pub protocol_version: Result<ProtocolVersion, Error>,
    /// What flat storage answered for the state changes of the shard.
    pub flat: Result<StoreUpdate, Error>,
    /// What was answered while the split of the shard was planned.
    pub split: SplitTrace,
}

/// Whether `e` is the failure at which processing the result of a shard with a
/// new chunk ended, given what the collaborators answered. In the order of the
/// questions: the epoch manager fails to give the epoch of the block or its
/// protocol version; the congestion info of the result does not fit the
/// protocol version; flat storage fails for the state changes of the shard;
/// the resharding results cannot be planned. A question is asked only where
/// nothing failed before it.
pub open spec fn new_chunk_refused<E: EpochManagerAdapter, R: RuntimeAdapter>(
    epochs: E,
    runtime: R,
    block: BlockHeader,
    result: NewChunkResult,
    trace: NewChunkTrace,
    e: Error,
) -> bool {
    &&& runtime.outcomes_proof_answer(
        result.apply_result.outcomes@,
        (trace.outcome_root, trace.outcome_proofs),
    )
    &&& epochs.epoch_id_from_prev_block_answer(block.prev_hash, trace.epoch_id)
    &&& match trace.epoch_id {
        Err(failure) => e == failure,
        Ok(epoch_id) => {
            &&& epochs.epoch_protocol_version_answer(epoch_id, trace.protocol_version)
            &&& match trace.protocol_version {
                Err(failure) => e == failure,
                Ok(protocol_version) => if !ChunkExtra::congestion_info_fits(
                    protocol_version,
                    result.apply_result.congestion_info,
                ) {
                    e == Error::InternalDefect(Defect::CongestionInfoMismatch)
                } else {
                    new_chunk_refused_by_storage(epochs, runtime, block, result, trace, e)
                },
            }
        },
    }
}

/// Whether `e` is the failure at which processing the result of a shard with a
/// new chunk ended once its checkpoint was made.
pub open spec fn new_chunk_refused_by_storage<E: EpochManagerAdapter, R: RuntimeAdapter>(
    epochs: E,
    runtime: R,
    block: BlockHeader,
    result: NewChunkResult,
    trace: NewChunkTrace,
    e: Error,
) -> bool {
    &&& runtime.flat_state_changes_answer(
        block.hash,
        block.prev_hash,
        block.height,
        result.shard_uid,
        result.apply_result.trie_changes.state_changes@,
        trace.flat,
    )
    &&& match trace.flat {
        Err(failure) => e == failure,
        Ok(_) => resharding_refused(
            epochs,
            runtime,
            block,
            new_chunk_extra(result, trace.outcome_root),
            result.shard_uid.spec_shard_id(),
            result.resharding_results,
            trace.split,
            e,
        ),
    }
}

/// Whether `answers` is what the collaborators gave when they were asked for
/// the result of one shard. For a new chunk, the runtime is asked for the root
/// and the proofs of the outcomes, the epoch manager for the protocol version
/// of the block's epoch, and flat storage is handed the state changes of the
/// shard in the block. For a missing chunk, flat storage alone is asked. Then
/// the resharding results ask what a split asks.
pub open spec fn shard_asked<E: EpochManagerAdapter, R: RuntimeAdapter>(
    epochs: E,
    runtime: R,
    block: BlockHeader,
    result: ShardUpdateResult,
    answers: ShardAnswers,
) -> bool {
    match result {
        ShardUpdateResult::NewChunk(result) => {
            &&& runtime.outcomes_proof_answer(
                result.apply_result.outcomes@,
                (answers.outcome_root, answers.outcome_proofs),
            )
            &&& epochs.epoch_id_from_prev_block_answer(block.prev_hash, Ok(answers.epoch_id))
            &&& epochs.epoch_protocol_version_answer(
                answers.epoch_id,
                Ok(answers.protocol_version),
            )
            &&& runtime.flat_state_changes_answer(
                block.hash,
                block.prev_hash,
                block.height,
                result.shard_uid,
                result.apply_result.trie_changes.state_changes@,
                Ok(answers.flat),
            )
            &&& resharding_asked(epochs, runtime, block, result.resharding_results, answers.split)
        },
        ShardUpdateResult::OldChunk(result) => {
            &&& runtime.flat_state_changes_answer(
                block.hash,
                block.prev_hash,
                block.height,
                result.shard_uid,
                result.apply_result.trie_changes.state_changes@,
                Ok(answers.flat),
            )
            &&& resharding_asked(epochs, runtime, block, result.resharding_results, answers.split)
        },
        ShardUpdateResult::Resharding(result) => split_asked(
            epochs,
            runtime,
            block,
            ReshardingResults::ApplyReshardingResults(result.results),
            answers.split,
        ),
    }
}

/// Whether `answers` holds, for each shard, what the collaborators gave when
/// they were asked for its result.
pub open spec fn shards_asked<E: EpochManagerAdapter, R: RuntimeAdapter>(
    epochs: E,
    runtime: R,
    block: BlockHeader,
    results: Seq<ShardUpdateResult>,
    answers: Seq<ShardAnswers>,
) -> bool {
    &&& answers.len() == results.len()
    &&& forall|i: int|
        0 <= i < results.len() ==> shard_asked(
            epochs,
            runtime,
            block,
            #[trigger] results[i],
            answers[i],
        )
}

/// The first `k` shards are staged alike where the answers agree up to `k`.
pub proof fn lemma_shards_staged_prefix(
    store: StoreView,
    block: BlockHeader,
    results: Seq<ShardUpdateResult>,
    save_state_transition_data: bool,
    a: Seq<ShardAnswers>,
    b: Seq<ShardAnswers>,
    k: nat,
)
    requires
        k <= a.len(),
        k <= b.len(),
        forall|i: int| 0 <= i < k ==> a[i] == b[i],
    ensures
        shards_staged(store, block, results, save_state_transition_data, a, k) == shards_staged(
            store,
            block,
            results,
            save_state_transition_data,
            b,
            k,
        ),
    decreases k,
{
    if k > 0 {
        lemma_shards_staged_prefix(
            store,
            block,
            results,
            save_state_transition_data,
            a,
            b,
            (k - 1) as nat,
        );
    }
}

/// What the collaborators answered while a block was processed. An answer to
/// a question that was not asked has no meaning.
pub struct BlockAnswers {
    /// What was answered for each shard, in the order of the results.
    pub shards: Seq<ShardAnswers>,
    /// What the epoch manager answered when it was told the block.
    pub validator_proposals: Result<StoreUpdate, Error>,
    /// What the epoch manager answered when it was asked for the light client
    /// block of the epoch that the block ends.
    pub light_client_block: Result<LightClientBlockView, Error>,
    /// What the epoch manager answered when it was asked for the shard layout
    /// after the predecessor of the block.
    pub shard_layout: Result<ShardLayout, Error>,
}

/// The first failure among the results of the shards, if any failed.
pub open spec fn first_error(results: Seq<(ShardId, Result<ShardUpdateResult, Error>)>) -> Option<
    Error,
>
    decreases results.len(),
{
    if results.len() == 0 {
        None
    } else {
        match results[0].1 {
            Err(e) => Some(e),
            Ok(_) => first_error(results.drop_first()),
        }
    }
}

/// The results of the shards, where none failed.
pub open spec fn shard_results(results: Seq<(ShardId, Result<ShardUpdateResult, Error>)>) -> Seq<
    ShardUpdateResult,
> {
    results.map_values(|pair: (ShardId, Result<ShardUpdateResult, Error>)| pair.1->Ok_0)
}

/// The store with the receipts that reach the first `k` shards filed.
pub open spec fn incoming_receipts_staged(
    store: StoreView,
    block_hash: CryptoHash,
    incoming: Seq<(ShardId, Vec<u8>)>,
    k: nat,
) -> StoreView
    decreases k,
{
    if k == 0 {
        store
    } else {
        incoming_receipts_staged(store, block_hash, incoming, (k - 1) as nat).save_record(
            RecordKey::IncomingReceipts { block_hash, shard_id: incoming[k - 1].0 },
            Record::IncomingReceipts(incoming[k - 1].1),
        )
    }
}

/// The store after the first `k` blocks that the block proves invalid are
/// marked, each with the block as its challenger; the failure where one of them
/// cannot be marked.
pub open spec fn challenges_staged(
    store: StoreView,
    challenged: Seq<CryptoHash>,
    challenger: CryptoHash,
    k: nat,
) -> (StoreView, Result<(), Error>)
    decreases k,
{
    if k == 0 {
        (store, Ok(()))
    } else {
        let (marked, done) = challenges_staged(store, challenged, challenger, (k - 1) as nat);
        if done is Err {
            (marked, done)
        } else {
            fork_choice::mark_block_as_challenged(marked, challenged[k - 1], Some(challenger))
        }
    }
}

/// The height of the last block that was final for `header`: the height of
/// genesis where the header names none.
pub open spec fn last_finalized_height(store: StoreView, header: BlockHeader) -> Result<u64, Error> {
    if header.last_final_block.is_zero() {
        Ok(store.genesis_height)
    } else {
        match store.get_block_header(header.last_final_block) {
            Ok(last_final) => Ok(last_final.height),
            Err(e) => Err(e),
        }
    }
}

/// Whether a block that became the head ends an epoch whose light client block
/// is to be made: it is the first block of its epoch, and its predecessor knew
/// a final block.
pub open spec fn ends_epoch(header: BlockHeader, prev: BlockHeader) -> bool {
    header.epoch_id != prev.epoch_id && !prev.last_final_block.is_zero()
}

/// The store after the bookkeeping of a block that became the head, and how
/// the bookkeeping ended. Where the block starts an epoch, the predecessor is
/// linked to from its own predecessor, and the light client block of the
/// epoch before is filed under that epoch, as the epoch manager gave it. The
/// bookkeeping fails where the header of the predecessor is missing and where
/// the epoch manager fails.
pub open spec fn epoch_end_outcome(
    store: StoreView,
    header: BlockHeader,
    light_client_block: Result<LightClientBlockView, Error>,
) -> (StoreView, Result<(), Error>) {
    match store.get_block_header(header.prev_hash) {
        Err(e) => (store, Err(e)),
        Ok(prev) => if ends_epoch(header, prev) {
            let linked = store.save_next_block_hash(prev.prev_hash, prev.hash);
            match light_client_block {
                Err(e) => (linked, Err(e)),
                Ok(made) => (
                    linked.save_record(
                        RecordKey::EpochLightClientBlock { epoch: prev.epoch_id.0 },
                        Record::EpochLightClientBlock(made),
                    ),
                    Ok(()),
                ),
            }
        } else {
            (store, Ok(()))
        },
    }
}

/// Whether `light_client_block` is what the epoch manager gave for a block that
/// became the head, where it was asked: it is asked where the block starts an
/// epoch, for the predecessor of the block, on the store in which the
/// predecessor is linked to from its own predecessor.
pub open spec fn epoch_end_asked<E: EpochManagerAdapter>(
    epochs: E,
    store: StoreView,
    header: BlockHeader,
    light_client_block: Result<LightClientBlockView, Error>,
) -> bool {
    store.get_block_header(header.prev_hash) matches Ok(prev) ==> (ends_epoch(header, prev)
        ==> epochs.light_client_block_answer(
        prev,
        store.save_next_block_hash(prev.prev_hash, prev.hash),
        light_client_block,
    ))
}

/// The store after the block itself is taken in, once its shards are staged:
/// the catch-up entry, the receipts that reach its shards, the request to sync
/// state, the outcome of its challenges, the marks of the blocks it proves
/// invalid, its header and the header head.
pub open spec fn block_recorded(store: StoreView, header: BlockHeader, info: BlockPreprocessInfo) -> (
    StoreView,
    Result<Option<Tip>, Error>,
) {
    let queued = if !info.is_caught_up {
        store.add_block_to_catchup(header.prev_hash, header.hash)
    } else {
        store
    };
    let with_receipts = incoming_receipts_staged(
        queued,
        header.hash,
        info.incoming_receipts@,
        info.incoming_receipts@.len(),
    );
    let with_sync = match info.state_sync_info {
        Some(sync) => with_receipts.add_state_sync_info(sync),
        None => with_receipts,
    };
    let with_extra = with_sync.save_record(
        RecordKey::BlockExtra { block_hash: header.hash },
        Record::BlockExtra { challenges_result: info.challenges_result },
    );
    let (marked, done) = challenges_staged(
        with_extra,
        info.challenged_blocks@,
        header.hash,
        info.challenged_blocks@.len(),
    );
    match done {
        Err(e) => (marked, Err(e)),
        Ok(_) => fork_choice::update_header_head(marked.save_block_header(header), header),
    }
}

/// The store after the block is saved and the head is brought up, once the
/// block is recorded and the epoch manager has answered.
pub open spec fn block_saved(
    store: StoreView,
    block: BlockView,
    validator_proposals: StoreUpdate,
) -> (StoreView, Result<Option<Tip>, Error>) {
    fork_choice::update_head(
        store.merge(validator_proposals).save_block(block).inc_block_refcount(
            block.header.prev_hash,
        ),
        block.header,
    )
}

/// The store after a block whose shards are staged is processed, and the
/// result: the tip that the head moved to, or the first failure. The block is
/// recorded; the epoch manager is told of it and its writes are taken in; the
/// block is saved and the head is brought up; where the head moved, the end of
/// an epoch is staged and the shard layout after the block is asked for.
pub open spec fn after_shards_outcome(
    with_shards: StoreView,
    block: BlockView,
    info: BlockPreprocessInfo,
    answers: BlockAnswers,
) -> (StoreView, Result<Option<Tip>, Error>) {
    let (recorded, header_moved) = block_recorded(with_shards, block.header, info);
    match (header_moved, last_finalized_height(recorded, block.header), answers.validator_proposals) {
        (Err(e), _, _) => (recorded, Err(e)),
        (Ok(_), Err(e), _) => (recorded, Err(e)),
        (Ok(_), Ok(_), Err(e)) => (recorded, Err(e)),
        (Ok(_), Ok(_), Ok(validator_proposals)) => {
            let (saved, head_moved) = block_saved(recorded, block, validator_proposals);
            match head_moved {
                Err(e) => (saved, Err(e)),
                Ok(None) => (saved, Ok(None)),
                Ok(Some(tip)) => {
                    let (done, ended) = epoch_end_outcome(
                        saved,
                        block.header,
                        answers.light_client_block,
                    );
                    match (ended, answers.shard_layout) {
                        (Err(e), _) => (done, Err(e)),
                        (Ok(_), Err(e)) => (done, Err(e)),
                        (Ok(_), Ok(_)) => (done, Ok(Some(tip))),
                    }
                },
            }
        },
    }
}

/// Whether `answers` is what the epoch manager gave when it was asked for a
/// block whose shards are staged. It is told the header of the block with the
/// height of its last final block and its proposals. Where the head moves to
/// the block, the end of an epoch asks what `epoch_end_asked` says, and then
/// the epoch manager is asked for the shard layout after the predecessor of
/// the block. A question is asked only where nothing failed before it.
pub open spec fn after_shards_asked<E: EpochManagerAdapter>(
    epochs: E,
    with_shards: StoreView,
    block: BlockView,
    info: BlockPreprocessInfo,
    answers: BlockAnswers,
) -> bool {
    let (recorded, header_moved) = block_recorded(with_shards, block.header, info);
    header_moved is Ok ==> (last_finalized_height(recorded, block.header) matches Ok(height) ==> {
        &&& epochs.validator_proposals_answer(
            BlockHeaderInfoView {
                header: block.header,
                last_finalized_height: height,
                proposals: block.validator_proposals,
            },
            answers.validator_proposals,
        )
        &&& answers.validator_proposals matches Ok(validator_proposals) ==> ({
            let (saved, head_moved) = block_saved(recorded, block, validator_proposals);
            head_moved matches Ok(Some(_)) ==> {
                &&& epoch_end_asked(epochs, saved, block.header, answers.light_client_block)
                &&& epoch_end_outcome(saved, block.header, answers.light_client_block).1 is Ok
                    ==> epochs.shard_layout_from_prev_block_answer(
                    saved.get_block_header(block.header.prev_hash)->Ok_0.hash,
                    answers.shard_layout,
                )
            }
        })
    })
}

/// The store after a block is processed and the result, given what the
/// collaborators answered; nothing where the shards cannot be staged with
/// these answers.
pub open spec fn block_outcome(
    store: StoreView,
    block: BlockView,
    results: Seq<ShardUpdateResult>,
    info: BlockPreprocessInfo,
    save_state_transition_data: bool,
    answers: BlockAnswers,
) -> Option<(StoreView, Result<Option<Tip>, Error>)> {
    match shards_staged(
        store,
        block.header,
        results,
        save_state_transition_data,
        answers.shards,
        results.len(),
    ) {
        None => None,
        Some(with_shards) => Some(after_shards_outcome(with_shards, block, info, answers)),
    }
}

/// The gauges after a block whose shards are staged is processed, however it
/// ended: the height of the header head where it moved, the height and the
/// ordinal of the head where it moved, and with the head the version and the
/// number of shards of the shard layout after the block, where the epoch
/// manager gave it.
pub open spec fn after_shards_gauges(
    gauges: Gauges,
    with_shards: StoreView,
    block: BlockView,
    info: BlockPreprocessInfo,
    answers: BlockAnswers,
) -> Gauges {
    let (recorded, header_moved) = block_recorded(with_shards, block.header, info);
    match (header_moved, last_finalized_height(recorded, block.header), answers.validator_proposals) {
        (Ok(header_tip), Ok(_), Ok(validator_proposals)) => {
            let (saved, head_moved) = block_saved(recorded, block, validator_proposals);
            let with_header = gauges.header_head_moved(header_tip);
            match head_moved {
                Err(_) => with_header,
                Ok(head_tip) => {
                    let with_head = with_header.head_moved(block.header, head_tip);
                    match (
                        head_tip,
                        epoch_end_outcome(saved, block.header, answers.light_client_block).1,
                        answers.shard_layout,
                    ) {
                        (Some(_), Ok(_), Ok(layout)) => with_head.shard_layout_is(layout),
                        _ => with_head,
                    }
                },
            }
        },
        (Ok(header_tip), _, _) => gauges.header_head_moved(header_tip),
        (Err(_), _, _) => gauges,
    }
}

/// The gauges after a block is processed.
pub open spec fn block_gauges(
    gauges: Gauges,
    store: StoreView,
    block: BlockView,
    results: Seq<ShardUpdateResult>,
    info: BlockPreprocessInfo,
    save_state_transition_data: bool,
    answers: BlockAnswers,
) -> Gauges {
    after_shards_gauges(
        gauges,
        shards_staged(
            store,
            block.header,
            results,
            save_state_transition_data,
            answers.shards,
            results.len(),
        )->Some_0,
        block,
        info,
        answers,
    )
}

/// Whether `answers` is what the collaborators gave when they were asked for a
/// block. Each shard asks what its result asks; then the epoch manager is asked
/// what `after_shards_asked` says.
pub open spec fn block_asked<E: EpochManagerAdapter, R: RuntimeAdapter>(
    epochs: E,
    runtime: R,
    store: StoreView,
    block: BlockView,
    results: Seq<ShardUpdateResult>,
    info: BlockPreprocessInfo,
    save_state_transition_data: bool,
    answers: BlockAnswers,
) -> bool {
    &&& shards_asked(epochs, runtime, block.header, results, answers.shards)
    &&& shards_staged(
        store,
        block.header,
        results,
        save_state_transition_data,
        answers.shards,
        results.len(),
    ) matches Some(with_shards) ==> after_shards_asked(epochs, with_shards, block, info, answers)
}

} // verus!
