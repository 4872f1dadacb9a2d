//! Staging the result of a shard once more changes no checkpoint.
//!
//! The checkpoints of a block are kept under the block and the shard, one for
//! each. Staging what was staged before writes the same checkpoints again:
//! nothing is counted twice.

use vstd::prelude::*;
use crate::hash::CryptoHash;
use crate::postprocess::{
    new_chunk_extra,
    new_chunk_staged,
    old_chunk_staged,
    shard_staged,
    shards_staged,
    with_resharding,
    with_state_transition_data,
    ShardAnswers,
};
use crate::records::{Record, RecordKey};
use crate::resharding::{
    resharded,
    sorted_by_shard,
    split_children,
    split_staged,
    staged_children,
    ApplyResultForResharding,
    ChildCheckpointView,
    SplitAnswers,
};
use crate::results::{NewChunkResult, OldChunkResult, ReshardingResults, ShardUpdateResult};
use crate::shard::ShardUId;
use crate::store::StoreView;
use crate::table::BlockShardUId;
use crate::types::{BlockHeader, ChunkExtraView};

verus! {

/// The checkpoints after the first `k` children are staged.
pub open spec fn children_extras(
    extras: Map<BlockShardUId, ChunkExtraView>,
    block_hash: CryptoHash,
    children: Seq<ChildCheckpointView>,
    k: nat,
) -> Map<BlockShardUId, ChunkExtraView>
    decreases k,
{
    if k == 0 {
        extras
    } else {
        children_extras(extras, block_hash, children, (k - 1) as nat).insert(
            BlockShardUId { block_hash, shard_uid: children[k - 1].shard_uid },
            children[k - 1].chunk_extra,
        )
    }
}

/// Whether `key` is the place of one of the first `k` children.
pub open spec fn is_child_key(
    block_hash: CryptoHash,
    children: Seq<ChildCheckpointView>,
    k: nat,
    key: BlockShardUId,
) -> bool {
    exists|i: int|
        0 <= i < k && key == (BlockShardUId {
            block_hash,
            shard_uid: (#[trigger] children[i]).shard_uid,
        })
}

/// Staging children touches the checkpoints as `children_extras` says.
proof fn lemma_staged_children_extras(
    store: StoreView,
    block_hash: CryptoHash,
    children: Seq<ChildCheckpointView>,
    k: nat,
)
    ensures
        staged_children(store, block_hash, children, k).chunk_extras == children_extras(
            store.chunk_extras,
            block_hash,
            children,
            k,
        ),
    decreases k,
{
    if k > 0 {
        lemma_staged_children_extras(store, block_hash, children, (k - 1) as nat);
    }
}

/// Staging children leaves the checkpoints at other places as they are.
proof fn lemma_children_extras_off_keys(
    extras: Map<BlockShardUId, ChunkExtraView>,
    block_hash: CryptoHash,
    children: Seq<ChildCheckpointView>,
    k: nat,
    key: BlockShardUId,
)
    requires
        !is_child_key(block_hash, children, k, key),
    ensures
        children_extras(extras, block_hash, children, k).contains_key(key) == extras.contains_key(
            key,
        ),
        children_extras(extras, block_hash, children, k)[key] == extras[key],
    decreases k,
{
    if k > 0 {
        assert(!is_child_key(block_hash, children, (k - 1) as nat, key)) by {
            if is_child_key(block_hash, children, (k - 1) as nat, key) {
                let i = choose|i: int|
                    0 <= i < k - 1 && key == (BlockShardUId {
                        block_hash,
                        shard_uid: (#[trigger] children[i]).shard_uid,
                    });
                assert(children[i].shard_uid == key.shard_uid);
            }
        }
        lemma_children_extras_off_keys(extras, block_hash, children, (k - 1) as nat, key);
        assert(key != (BlockShardUId { block_hash, shard_uid: children[k - 1].shard_uid })) by {
            if key == (BlockShardUId { block_hash, shard_uid: children[k - 1].shard_uid }) {
                assert(children[k - 1].shard_uid == key.shard_uid);
            }
        }
    }
}

/// What stands at the places of the children once they are staged does not
/// depend on what stood there before.
proof fn lemma_children_extras_on_keys(
    a: Map<BlockShardUId, ChunkExtraView>,
    b: Map<BlockShardUId, ChunkExtraView>,
    block_hash: CryptoHash,
    children: Seq<ChildCheckpointView>,
    k: nat,
    key: BlockShardUId,
)
    requires
        is_child_key(block_hash, children, k, key),
    ensures
        children_extras(a, block_hash, children, k).contains_key(key),
        children_extras(b, block_hash, children, k).contains_key(key),
        children_extras(a, block_hash, children, k)[key] == children_extras(
            b,
            block_hash,
            children,
            k,
        )[key],
    decreases k,
{
    if k > 0 {
        if key != (BlockShardUId { block_hash, shard_uid: children[k - 1].shard_uid }) {
            let i = choose|i: int|
                0 <= i < k && key == (BlockShardUId {
                    block_hash,
                    shard_uid: (#[trigger] children[i]).shard_uid,
                });
            assert(i < k - 1);
            lemma_children_extras_on_keys(a, b, block_hash, children, (k - 1) as nat, key);
        }
    }
}

/// Staging the same children once more changes no checkpoint.
proof fn lemma_children_extras_twice(
    extras: Map<BlockShardUId, ChunkExtraView>,
    block_hash: CryptoHash,
    children: Seq<ChildCheckpointView>,
    n: nat,
)
    ensures
        children_extras(
            children_extras(extras, block_hash, children, n),
            block_hash,
            children,
            n,
        ) == children_extras(extras, block_hash, children, n),
{
    let once = children_extras(extras, block_hash, children, n);
    let twice = children_extras(once, block_hash, children, n);
    assert forall|key: BlockShardUId| #[trigger]
        twice.dom().contains(key) == once.dom().contains(key) by {
        if is_child_key(block_hash, children, n, key) {
            lemma_children_extras_on_keys(once, extras, block_hash, children, n, key);
        } else {
            lemma_children_extras_off_keys(once, block_hash, children, n, key);
        }
    }
    assert forall|key: BlockShardUId| #[trigger] once.dom().contains(key) implies twice[key]
        == once[key] by {
        if is_child_key(block_hash, children, n, key) {
            lemma_children_extras_on_keys(once, extras, block_hash, children, n, key);
        } else {
            lemma_children_extras_off_keys(once, block_hash, children, n, key);
        }
    }
    assert(twice.dom() =~= once.dom());
    assert(twice =~= once);
}

/// No child of the split carries the identity of the shard that splits.
pub open spec fn children_apart(shard_uid: ShardUId, results: Seq<ApplyResultForResharding>) -> bool {
    forall|i: int| 0 <= i < results.len() ==> (#[trigger] results[i]).shard_uid != shard_uid
}

/// Whether the resharding results, where they hold children, hold none that
/// carries the identity of the shard that splits.
pub open spec fn split_apart(shard_uid: ShardUId, results: ReshardingResults) -> bool {
    match results {
        ReshardingResults::StoreReshardingResults(_) => true,
        ReshardingResults::ApplyReshardingResults(children) => children_apart(shard_uid, children@),
    }
}

/// Whether the result of a shard, where the shard splits, holds no child that
/// carries the identity of the shard.
pub open spec fn result_apart(result: ShardUpdateResult) -> bool {
    match result {
        ShardUpdateResult::NewChunk(result) => match result.resharding_results {
            Some(results) => split_apart(result.shard_uid, results),
            None => true,
        },
        ShardUpdateResult::OldChunk(result) => match result.resharding_results {
            Some(results) => split_apart(result.shard_uid, results),
            None => true,
        },
        ShardUpdateResult::Resharding(result) => children_apart(result.shard_uid, result.results@),
    }
}

/// Sorting keeps the children apart from their parent.
proof fn lemma_sorted_children_apart(shard_uid: ShardUId, results: Seq<ApplyResultForResharding>)
    requires
        children_apart(shard_uid, results),
    ensures
        children_apart(shard_uid, sorted_by_shard(results)),
        sorted_by_shard(results).len() == results.len(),
    decreases results.len(),
{
    if results.len() > 0 {
        let front = results.drop_last();
        assert forall|i: int| 0 <= i < front.len() implies (#[trigger] front[i]).shard_uid
            != shard_uid by {
            assert(front[i] == results[i]);
        }
        lemma_sorted_children_apart(shard_uid, front);
        crate::resharding::lemma_sorted_by_shard_uids(front);
        crate::resharding::lemma_insert_pos(
            crate::resharding::shard_uids(sorted_by_shard(front)),
            results.last().shard_uid,
        );
        assert(results.last() == results[results.len() - 1]);
    }
}

/// Staging the resharding results of a shard once more changes no checkpoint,
/// where no child carries the identity of the shard.
pub proof fn lemma_split_twice(
    store: StoreView,
    block_hash: CryptoHash,
    shard_uid: ShardUId,
    results: ReshardingResults,
    answers: SplitAnswers,
)
    requires
        split_apart(shard_uid, results),
        split_staged(store, block_hash, shard_uid, results, answers) is Some,
    ensures
        ({
            let once = split_staged(store, block_hash, shard_uid, results, answers)->Some_0;
            &&& split_staged(once, block_hash, shard_uid, results, answers) is Some
            &&& split_staged(once, block_hash, shard_uid, results, answers)->Some_0.chunk_extras
                == once.chunk_extras
            &&& once.get_chunk_extra(block_hash, shard_uid) == store.get_chunk_extra(
                block_hash,
                shard_uid,
            )
        }),
{
    match results {
        ReshardingResults::StoreReshardingResults(_) => {},
        ReshardingResults::ApplyReshardingResults(children) => {
            let parent = store.get_chunk_extra(block_hash, shard_uid)->Ok_0;
            let sorted = sorted_by_shard(children@);
            let staged = split_children(parent, answers.layout, sorted, answers.flat);
            let once = resharded(store, block_hash, parent, answers.layout, children@, answers.flat);
            let key = BlockShardUId { block_hash, shard_uid };
            lemma_sorted_children_apart(shard_uid, children@);
            lemma_staged_children_extras(store, block_hash, staged, sorted.len());
            assert(!is_child_key(block_hash, staged, sorted.len(), key)) by {
                if is_child_key(block_hash, staged, sorted.len(), key) {
                    let i = choose|i: int|
                        0 <= i < sorted.len() && key == (BlockShardUId {
                            block_hash,
                            shard_uid: (#[trigger] staged[i]).shard_uid,
                        });
                    assert(staged[i].shard_uid == sorted[i].shard_uid);
                    assert(sorted[i].shard_uid == key.shard_uid);
                }
            }
            lemma_children_extras_off_keys(
                store.chunk_extras,
                block_hash,
                staged,
                sorted.len(),
                key,
            );
            assert(once.get_chunk_extra(block_hash, shard_uid) == store.get_chunk_extra(
                block_hash,
                shard_uid,
            ));
            lemma_staged_children_extras(once, block_hash, staged, sorted.len());
            lemma_children_extras_twice(store.chunk_extras, block_hash, staged, sorted.len());
        },
    }
}

/// Staging the result of one shard once more, with the same answers of the
/// collaborators, can be done and changes no checkpoint: each shard has one
/// checkpoint for the block, with the gas and the burnt balance counted once.
/// This holds where no child of a split carries the identity of the shard that
/// splits.
pub proof fn lemma_staging_twice_counts_once(
    store: StoreView,
    block: BlockHeader,
    result: ShardUpdateResult,
    save_state_transition_data: bool,
    answers: ShardAnswers,
)
    requires
        result_apart(result),
        shard_staged(store, block, result, save_state_transition_data, answers) is Some,
    ensures
        ({
            let once = shard_staged(
                store,
                block,
                result,
                save_state_transition_data,
                answers,
            )->Some_0;
            &&& shard_staged(once, block, result, save_state_transition_data, answers) is Some
            &&& shard_staged(
                once,
                block,
                result,
                save_state_transition_data,
                answers,
            )->Some_0.chunk_extras == once.chunk_extras
        }),
{
    let once = shard_staged(store, block, result, save_state_transition_data, answers)->Some_0;
    match result {
        ShardUpdateResult::NewChunk(new_chunk) => {
            let applied = new_chunk.apply_result;
            let shard_id = new_chunk.shard_uid.spec_shard_id();
            let extra = crate::postprocess::new_chunk_extra(new_chunk, answers.outcome_root);
            let before_split = |from: StoreView|
                with_state_transition_data(
                    from.save_chunk_extra(block.hash, new_chunk.shard_uid, extra).merge(
                        answers.flat,
                    ).save_trie_changes(applied.trie_changes).save_record(
                        crate::records::RecordKey::OutgoingReceipts {
                            block_hash: block.hash,
                            shard_id,
                        },
                        crate::records::Record::OutgoingReceipts(applied.outgoing_receipts),
                    ).save_record(
                        crate::records::RecordKey::OutcomesWithProofs {
                            block_hash: block.hash,
                            shard_id,
                        },
                        crate::records::Record::OutcomesWithProofs {
                            outcomes: applied.outcomes,
                            proofs: answers.outcome_proofs,
                        },
                    ),
                    block.hash,
                    shard_id,
                    applied,
                    save_state_transition_data,
                );
            let first = before_split(store);
            let second = before_split(once);
            match new_chunk.resharding_results {
                None => {
                    assert(second.chunk_extras =~= once.chunk_extras);
                },
                Some(results) => {
                    lemma_split_restaged(
                        first,
                        second,
                        block.hash,
                        new_chunk.shard_uid,
                        results,
                        answers.split,
                        extra,
                    );
                },
            }
        },
        ShardUpdateResult::OldChunk(old_chunk) => {
            let applied = old_chunk.apply_result;
            let shard_id = old_chunk.shard_uid.spec_shard_id();
            let old_extra = store.get_chunk_extra(block.prev_hash, old_chunk.shard_uid)->Ok_0;
            let extra = old_extra.with_state_root(applied.new_root);
            let first = with_state_transition_data(
                store.merge(answers.flat).save_chunk_extra(
                    block.hash,
                    old_chunk.shard_uid,
                    extra,
                ).save_trie_changes(applied.trie_changes),
                block.hash,
                shard_id,
                applied,
                save_state_transition_data,
            );
            let key = BlockShardUId { block_hash: block.hash, shard_uid: old_chunk.shard_uid };
            let prev_key = BlockShardUId {
                block_hash: block.prev_hash,
                shard_uid: old_chunk.shard_uid,
            };
            // What the second pass reads as the checkpoint before the block.
            assert(once.get_chunk_extra(block.prev_hash, old_chunk.shard_uid) is Ok
                && once.get_chunk_extra(
                block.prev_hash,
                old_chunk.shard_uid,
            )->Ok_0.with_state_root(applied.new_root) == extra) by {
                match old_chunk.resharding_results {
                    None => {},
                    Some(results) => {
                        lemma_split_keeps(
                            first,
                            block.hash,
                            old_chunk.shard_uid,
                            results,
                            answers.split,
                            prev_key,
                        );
                    },
                }
                if prev_key == key {
                    assert(block.prev_hash == block.hash);
                }
            }
            let second = with_state_transition_data(
                once.merge(answers.flat).save_chunk_extra(
                    block.hash,
                    old_chunk.shard_uid,
                    extra,
                ).save_trie_changes(applied.trie_changes),
                block.hash,
                shard_id,
                applied,
                save_state_transition_data,
            );
            match old_chunk.resharding_results {
                None => {
                    assert(second.chunk_extras =~= once.chunk_extras);
                },
                Some(results) => {
                    lemma_split_restaged(
                        first,
                        second,
                        block.hash,
                        old_chunk.shard_uid,
                        results,
                        answers.split,
                        extra,
                    );
                },
            }
        },
        ShardUpdateResult::Resharding(resharding) => {
            lemma_split_twice(
                store,
                block.hash,
                resharding.shard_uid,
                ReshardingResults::ApplyReshardingResults(resharding.results),
                answers.split,
            );
        },
    }
}

/// Staging the resharding results of a shard leaves the checkpoints at places
/// that are not those of its children as they are.
proof fn lemma_split_keeps(
    store: StoreView,
    block_hash: CryptoHash,
    shard_uid: ShardUId,
    results: ReshardingResults,
    answers: SplitAnswers,
    key: BlockShardUId,
)
    requires
        split_apart(shard_uid, results),
        split_staged(store, block_hash, shard_uid, results, answers) is Some,
        key.shard_uid == shard_uid,
    ensures
        ({
            let once = split_staged(store, block_hash, shard_uid, results, answers)->Some_0;
            &&& once.chunk_extras.contains_key(key) == store.chunk_extras.contains_key(key)
            &&& once.chunk_extras[key] == store.chunk_extras[key]
        }),
{
    match results {
        ReshardingResults::StoreReshardingResults(_) => {},
        ReshardingResults::ApplyReshardingResults(children) => {
            let parent = store.get_chunk_extra(block_hash, shard_uid)->Ok_0;
            let sorted = sorted_by_shard(children@);
            let staged = split_children(parent, answers.layout, sorted, answers.flat);
            lemma_sorted_children_apart(shard_uid, children@);
            lemma_staged_children_extras(store, block_hash, staged, sorted.len());
            assert(!is_child_key(block_hash, staged, sorted.len(), key)) by {
                if is_child_key(block_hash, staged, sorted.len(), key) {
                    let i = choose|i: int|
                        0 <= i < sorted.len() && key == (BlockShardUId {
                            block_hash,
                            shard_uid: (#[trigger] staged[i]).shard_uid,
                        });
                    assert(staged[i].shard_uid == sorted[i].shard_uid);
                    assert(sorted[i].shard_uid == key.shard_uid);
                }
            }
            lemma_children_extras_off_keys(
                store.chunk_extras,
                block_hash,
                staged,
                sorted.len(),
                key,
            );
        },
    }
}

/// Where the checkpoint of the shard is staged anew before its resharding
/// results are, the checkpoints after the second pass are those after the
/// first.
proof fn lemma_split_restaged(
    first: StoreView,
    second: StoreView,
    block_hash: CryptoHash,
    shard_uid: ShardUId,
    results: ReshardingResults,
    answers: SplitAnswers,
    extra: ChunkExtraView,
)
    requires
        split_apart(shard_uid, results),
        split_staged(first, block_hash, shard_uid, results, answers) is Some,
        first.chunk_extras.contains_key(BlockShardUId { block_hash, shard_uid }),
        first.chunk_extras[BlockShardUId { block_hash, shard_uid }] == extra,
        second.chunk_extras == split_staged(
            first,
            block_hash,
            shard_uid,
            results,
            answers,
        )->Some_0.chunk_extras.insert(BlockShardUId { block_hash, shard_uid }, extra),
    ensures
        split_staged(second, block_hash, shard_uid, results, answers) is Some,
        split_staged(second, block_hash, shard_uid, results, answers)->Some_0.chunk_extras
            == split_staged(first, block_hash, shard_uid, results, answers)->Some_0.chunk_extras,
{
    let once = split_staged(first, block_hash, shard_uid, results, answers)->Some_0;
    let key = BlockShardUId { block_hash, shard_uid };
    lemma_split_keeps(first, block_hash, shard_uid, results, answers, key);
    assert(second.chunk_extras =~= once.chunk_extras);
    match results {
        ReshardingResults::StoreReshardingResults(_) => {},
        ReshardingResults::ApplyReshardingResults(children) => {
            let sorted = sorted_by_shard(children@);
            let staged = split_children(extra, answers.layout, sorted, answers.flat);
            lemma_staged_children_extras(first, block_hash, staged, sorted.len());
            lemma_staged_children_extras(second, block_hash, staged, sorted.len());
            lemma_children_extras_twice(first.chunk_extras, block_hash, staged, sorted.len());
        },
    }
}

/// Whether two sets of checkpoints hold the same for the shards in `shards`,
/// at every block.
#[verifier::opaque]
pub open spec fn agree_on(
    a: Map<BlockShardUId, ChunkExtraView>,
    b: Map<BlockShardUId, ChunkExtraView>,
    shards: Set<ShardUId>,
) -> bool {
    forall|key: BlockShardUId|
        shards.contains(key.shard_uid) ==> (#[trigger] a.contains_key(key)) == b.contains_key(key)
            && a[key] == b[key]
}

/// Whether two sets of checkpoints hold the same for the shards that are not
/// in `shards`, at every block.
#[verifier::opaque]
pub open spec fn agree_off(
    a: Map<BlockShardUId, ChunkExtraView>,
    b: Map<BlockShardUId, ChunkExtraView>,
    shards: Set<ShardUId>,
) -> bool {
    forall|key: BlockShardUId|
        !shards.contains(key.shard_uid) ==> (#[trigger] a.contains_key(key)) == b.contains_key(key)
            && a[key] == b[key]
}

/// The shards of the children of a split.
pub open spec fn child_shards(results: Seq<ApplyResultForResharding>) -> Set<ShardUId> {
    Set::new(|uid: ShardUId| exists|i: int| 0 <= i < results.len() && (#[trigger] results[i]).shard_uid == uid)
}

/// The shards of the children, where the resharding results hold children.
pub open spec fn split_shards(results: ReshardingResults) -> Set<ShardUId> {
    match results {
        ReshardingResults::StoreReshardingResults(_) => Set::empty(),
        ReshardingResults::ApplyReshardingResults(children) => child_shards(children@),
    }
}

/// The shards whose checkpoints the result of a shard reads or stages: the
/// shard itself and the children of its split.
pub open spec fn touched_shards(result: ShardUpdateResult) -> Set<ShardUId> {
    match result {
        ShardUpdateResult::NewChunk(result) => match result.resharding_results {
            Some(results) => split_shards(results).insert(result.shard_uid),
            None => set![result.shard_uid],
        },
        ShardUpdateResult::OldChunk(result) => match result.resharding_results {
            Some(results) => split_shards(results).insert(result.shard_uid),
            None => set![result.shard_uid],
        },
        ShardUpdateResult::Resharding(result) => child_shards(result.results@).insert(
            result.shard_uid,
        ),
    }
}

/// Sorting the children keeps their shards.
proof fn lemma_sorted_child_shards(results: Seq<ApplyResultForResharding>)
    ensures
        child_shards(sorted_by_shard(results)) == child_shards(results),
{
    broadcast use vstd::multiset::group_multiset_axioms;

    let sorted = sorted_by_shard(results);
    crate::resharding::lemma_sorted_by_shard_keeps(results);
    assert forall|uid: ShardUId| child_shards(sorted).contains(uid) == child_shards(
        results,
    ).contains(uid) by {
        if child_shards(sorted).contains(uid) {
            let i = choose|i: int| 0 <= i < sorted.len() && (#[trigger] sorted[i]).shard_uid == uid;
            vstd::seq_lib::to_multiset_contains(sorted, sorted[i]);
            vstd::seq_lib::to_multiset_contains(results, sorted[i]);
            assert(sorted.contains(sorted[i]));
            let j = choose|j: int| 0 <= j < results.len() && results[j] == sorted[i];
            assert(results[j].shard_uid == uid);
        }
        if child_shards(results).contains(uid) {
            let i = choose|i: int|
                0 <= i < results.len() && (#[trigger] results[i]).shard_uid == uid;
            vstd::seq_lib::to_multiset_contains(sorted, results[i]);
            vstd::seq_lib::to_multiset_contains(results, results[i]);
            assert(results.contains(results[i]));
            let j = choose|j: int| 0 <= j < sorted.len() && sorted[j] == results[i];
            assert(sorted[j].shard_uid == uid);
        }
    }
    assert(child_shards(sorted) =~= child_shards(results));
}

/// Staging resharding results stages checkpoints for the children alone, and
/// what it stages rests on the checkpoint of the shard that splits alone.
proof fn lemma_split_is_local(
    t: StoreView,
    u: StoreView,
    block_hash: CryptoHash,
    shard_uid: ShardUId,
    results: ReshardingResults,
    answers: SplitAnswers,
)
    requires
        agree_on(t.chunk_extras, u.chunk_extras, split_shards(results).insert(shard_uid)),
        split_staged(u, block_hash, shard_uid, results, answers) is Some,
    ensures
        split_staged(t, block_hash, shard_uid, results, answers) is Some,
        agree_on(
            split_staged(t, block_hash, shard_uid, results, answers)->Some_0.chunk_extras,
            split_staged(u, block_hash, shard_uid, results, answers)->Some_0.chunk_extras,
            split_shards(results).insert(shard_uid),
        ),
        agree_off(
            split_staged(t, block_hash, shard_uid, results, answers)->Some_0.chunk_extras,
            t.chunk_extras,
            split_shards(results),
        ),
{
    reveal(agree_on);
    reveal(agree_off);
    let shards = split_shards(results).insert(shard_uid);
    match results {
        ReshardingResults::StoreReshardingResults(_) => {},
        ReshardingResults::ApplyReshardingResults(children) => {
            let key = BlockShardUId { block_hash, shard_uid };
            assert(shards.contains(key.shard_uid));
            assert(t.chunk_extras.contains_key(key) == u.chunk_extras.contains_key(key));
            assert(t.get_chunk_extra(block_hash, shard_uid) == u.get_chunk_extra(
                block_hash,
                shard_uid,
            ));
            let parent = u.get_chunk_extra(block_hash, shard_uid)->Ok_0;
            let sorted = sorted_by_shard(children@);
            let staged = split_children(parent, answers.layout, sorted, answers.flat);
            lemma_sorted_child_shards(children@);
            lemma_staged_children_extras(t, block_hash, staged, sorted.len());
            lemma_staged_children_extras(u, block_hash, staged, sorted.len());
            let after_t = children_extras(t.chunk_extras, block_hash, staged, sorted.len());
            let after_u = children_extras(u.chunk_extras, block_hash, staged, sorted.len());
            assert forall|k: BlockShardUId|
                is_child_key(block_hash, staged, sorted.len(), k) implies child_shards(
                children@,
            ).contains(k.shard_uid) by {
                let i = choose|i: int|
                    0 <= i < sorted.len() && k == (BlockShardUId {
                        block_hash,
                        shard_uid: (#[trigger] staged[i]).shard_uid,
                    });
                assert(staged[i].shard_uid == sorted[i].shard_uid);
                assert(child_shards(sorted).contains(sorted[i].shard_uid));
            }
            assert forall|k: BlockShardUId| shards.contains(k.shard_uid) implies (
            #[trigger] after_t.contains_key(k)) == after_u.contains_key(k) && after_t[k]
                == after_u[k] by {
                if is_child_key(block_hash, staged, sorted.len(), k) {
                    lemma_children_extras_on_keys(
                        t.chunk_extras,
                        u.chunk_extras,
                        block_hash,
                        staged,
                        sorted.len(),
                        k,
                    );
                } else {
                    lemma_children_extras_off_keys(
                        t.chunk_extras,
                        block_hash,
                        staged,
                        sorted.len(),
                        k,
                    );
                    lemma_children_extras_off_keys(
                        u.chunk_extras,
                        block_hash,
                        staged,
                        sorted.len(),
                        k,
                    );
                    assert(t.chunk_extras.contains_key(k) == u.chunk_extras.contains_key(k));
                }
            }
            assert forall|k: BlockShardUId|
                !split_shards(results).contains(k.shard_uid) implies (
            #[trigger] after_t.contains_key(k)) == t.chunk_extras.contains_key(k) && after_t[k]
                == t.chunk_extras[k] by {
                lemma_children_extras_off_keys(
                    t.chunk_extras,
                    block_hash,
                    staged,
                    sorted.len(),
                    k,
                );
            }
        },
    }
}

/// Staging the resharding results of a shard, where it has any, is local in
/// the same way.
proof fn lemma_resharding_is_local(
    t: StoreView,
    u: StoreView,
    block_hash: CryptoHash,
    shard_uid: ShardUId,
    results: Option<ReshardingResults>,
    answers: SplitAnswers,
    shards: Set<ShardUId>,
)
    requires
        shards == (match results {
            Some(results) => split_shards(results).insert(shard_uid),
            None => set![shard_uid],
        }),
        agree_on(t.chunk_extras, u.chunk_extras, shards),
        with_resharding(u, block_hash, shard_uid, results, answers) is Some,
    ensures
        with_resharding(t, block_hash, shard_uid, results, answers) is Some,
        agree_on(
            with_resharding(t, block_hash, shard_uid, results, answers)->Some_0.chunk_extras,
            with_resharding(u, block_hash, shard_uid, results, answers)->Some_0.chunk_extras,
            shards,
        ),
        agree_off(
            with_resharding(t, block_hash, shard_uid, results, answers)->Some_0.chunk_extras,
            t.chunk_extras,
            shards,
        ),
{
    reveal(agree_on);
    reveal(agree_off);
    match results {
        None => {},
        Some(results) => {
            lemma_split_is_local(t, u, block_hash, shard_uid, results, answers);
        },
    }
}

/// Staging the result of a shard with a new chunk is local.
proof fn lemma_new_chunk_is_local(
    t: StoreView,
    u: StoreView,
    block: BlockHeader,
    new_chunk: NewChunkResult,
    save_state_transition_data: bool,
    answers: ShardAnswers,
)
    requires
        agree_on(
            t.chunk_extras,
            u.chunk_extras,
            touched_shards(ShardUpdateResult::NewChunk(new_chunk)),
        ),
        new_chunk_staged(u, block, new_chunk, save_state_transition_data, answers) is Some,
    ensures
        new_chunk_staged(t, block, new_chunk, save_state_transition_data, answers) is Some,
        agree_on(
            new_chunk_staged(
                t,
                block,
                new_chunk,
                save_state_transition_data,
                answers,
            )->Some_0.chunk_extras,
            new_chunk_staged(
                u,
                block,
                new_chunk,
                save_state_transition_data,
                answers,
            )->Some_0.chunk_extras,
            touched_shards(ShardUpdateResult::NewChunk(new_chunk)),
        ),
        agree_off(
            new_chunk_staged(
                t,
                block,
                new_chunk,
                save_state_transition_data,
                answers,
            )->Some_0.chunk_extras,
            t.chunk_extras,
            touched_shards(ShardUpdateResult::NewChunk(new_chunk)),
        ),
{
    reveal(agree_on);
    reveal(agree_off);
    let shards = touched_shards(ShardUpdateResult::NewChunk(new_chunk));
    let applied = new_chunk.apply_result;
    let shard_id = new_chunk.shard_uid.spec_shard_id();
    let extra = new_chunk_extra(new_chunk, answers.outcome_root);
    let before_split = |from: StoreView|
        with_state_transition_data(
            from.save_chunk_extra(block.hash, new_chunk.shard_uid, extra).merge(
                answers.flat,
            ).save_trie_changes(applied.trie_changes).save_record(
                RecordKey::OutgoingReceipts { block_hash: block.hash, shard_id },
                Record::OutgoingReceipts(applied.outgoing_receipts),
            ).save_record(
                RecordKey::OutcomesWithProofs { block_hash: block.hash, shard_id },
                Record::OutcomesWithProofs {
                    outcomes: applied.outcomes,
                    proofs: answers.outcome_proofs,
                },
            ),
            block.hash,
            shard_id,
            applied,
            save_state_transition_data,
        );
    let t1 = before_split(t);
    let u1 = before_split(u);
    assert(agree_on(t1.chunk_extras, u1.chunk_extras, shards));
    lemma_resharding_is_local(
        t1,
        u1,
        block.hash,
        new_chunk.shard_uid,
        new_chunk.resharding_results,
        answers.split,
        shards,
    );
    let written = BlockShardUId { block_hash: block.hash, shard_uid: new_chunk.shard_uid };
    let done = with_resharding(
        t1,
        block.hash,
        new_chunk.shard_uid,
        new_chunk.resharding_results,
        answers.split,
    )->Some_0;
    assert forall|key: BlockShardUId| !shards.contains(key.shard_uid) implies (
    #[trigger] done.chunk_extras.contains_key(key)) == t.chunk_extras.contains_key(key)
        && done.chunk_extras[key] == t.chunk_extras[key] by {
        assert(shards.contains(written.shard_uid));
        assert(key != written);
        assert(t1.chunk_extras.contains_key(key) == t.chunk_extras.contains_key(key));
        assert(t1.chunk_extras[key] == t.chunk_extras[key]);
    }
}

/// Staging the result of a shard whose chunk was missing is local.
proof fn lemma_old_chunk_is_local(
    t: StoreView,
    u: StoreView,
    block: BlockHeader,
    old_chunk: OldChunkResult,
    save_state_transition_data: bool,
    answers: ShardAnswers,
)
    requires
        agree_on(
            t.chunk_extras,
            u.chunk_extras,
            touched_shards(ShardUpdateResult::OldChunk(old_chunk)),
        ),
        old_chunk_staged(u, block, old_chunk, save_state_transition_data, answers) is Some,
    ensures
        old_chunk_staged(t, block, old_chunk, save_state_transition_data, answers) is Some,
        agree_on(
            old_chunk_staged(
                t,
                block,
                old_chunk,
                save_state_transition_data,
                answers,
            )->Some_0.chunk_extras,
            old_chunk_staged(
                u,
                block,
                old_chunk,
                save_state_transition_data,
                answers,
            )->Some_0.chunk_extras,
            touched_shards(ShardUpdateResult::OldChunk(old_chunk)),
        ),
        agree_off(
            old_chunk_staged(
                t,
                block,
                old_chunk,
                save_state_transition_data,
                answers,
            )->Some_0.chunk_extras,
            t.chunk_extras,
            touched_shards(ShardUpdateResult::OldChunk(old_chunk)),
        ),
{
    reveal(agree_on);
    reveal(agree_off);
    let shards = touched_shards(ShardUpdateResult::OldChunk(old_chunk));
    let applied = old_chunk.apply_result;
    let shard_id = old_chunk.shard_uid.spec_shard_id();
    let prev_key = BlockShardUId { block_hash: block.prev_hash, shard_uid: old_chunk.shard_uid };
    assert(shards.contains(prev_key.shard_uid));
    assert(t.chunk_extras.contains_key(prev_key) == u.chunk_extras.contains_key(prev_key));
    assert(t.get_chunk_extra(block.prev_hash, old_chunk.shard_uid) == u.get_chunk_extra(
        block.prev_hash,
        old_chunk.shard_uid,
    ));
    let old_extra = u.get_chunk_extra(block.prev_hash, old_chunk.shard_uid)->Ok_0;
    let extra = old_extra.with_state_root(applied.new_root);
    let before_split = |from: StoreView|
        with_state_transition_data(
            from.merge(answers.flat).save_chunk_extra(
                block.hash,
                old_chunk.shard_uid,
                extra,
            ).save_trie_changes(applied.trie_changes),
            block.hash,
            shard_id,
            applied,
            save_state_transition_data,
        );
    let t1 = before_split(t);
    let u1 = before_split(u);
    assert(agree_on(t1.chunk_extras, u1.chunk_extras, shards));
    lemma_resharding_is_local(
        t1,
        u1,
        block.hash,
        old_chunk.shard_uid,
        old_chunk.resharding_results,
        answers.split,
        shards,
    );
    let written = BlockShardUId { block_hash: block.hash, shard_uid: old_chunk.shard_uid };
    let done = with_resharding(
        t1,
        block.hash,
        old_chunk.shard_uid,
        old_chunk.resharding_results,
        answers.split,
    )->Some_0;
    assert forall|key: BlockShardUId| !shards.contains(key.shard_uid) implies (
    #[trigger] done.chunk_extras.contains_key(key)) == t.chunk_extras.contains_key(key)
        && done.chunk_extras[key] == t.chunk_extras[key] by {
        assert(shards.contains(written.shard_uid));
        assert(key != written);
        assert(t1.chunk_extras.contains_key(key) == t.chunk_extras.contains_key(key));
        assert(t1.chunk_extras[key] == t.chunk_extras[key]);
    }
}

/// What holds off some shards holds off more shards.
proof fn lemma_agree_off_wider(
    a: Map<BlockShardUId, ChunkExtraView>,
    b: Map<BlockShardUId, ChunkExtraView>,
    few: Set<ShardUId>,
    more: Set<ShardUId>,
)
    requires
        agree_off(a, b, few),
        few.subset_of(more),
    ensures
        agree_off(a, b, more),
{
    reveal(agree_off);
}

/// Staging the result of a shard stages checkpoints for the shards it touches
/// alone, and what it stages rests on the checkpoints of these shards alone.
proof fn lemma_shard_is_local(
    t: StoreView,
    u: StoreView,
    block: BlockHeader,
    result: ShardUpdateResult,
    save_state_transition_data: bool,
    answers: ShardAnswers,
)
    requires
        agree_on(t.chunk_extras, u.chunk_extras, touched_shards(result)),
        shard_staged(u, block, result, save_state_transition_data, answers) is Some,
    ensures
        shard_staged(t, block, result, save_state_transition_data, answers) is Some,
        agree_on(
            shard_staged(t, block, result, save_state_transition_data, answers)->Some_0.chunk_extras,
            shard_staged(u, block, result, save_state_transition_data, answers)->Some_0.chunk_extras,
            touched_shards(result),
        ),
        agree_off(
            shard_staged(t, block, result, save_state_transition_data, answers)->Some_0.chunk_extras,
            t.chunk_extras,
            touched_shards(result),
        ),
{
    match result {
        ShardUpdateResult::NewChunk(new_chunk) => {
            assert(result == ShardUpdateResult::NewChunk(new_chunk));
            lemma_new_chunk_is_local(
                t,
                u,
                block,
                new_chunk,
                save_state_transition_data,
                answers,
            );
            assert(shard_staged(t, block, result, save_state_transition_data, answers)
                == new_chunk_staged(t, block, new_chunk, save_state_transition_data, answers));
            assert(shard_staged(u, block, result, save_state_transition_data, answers)
                == new_chunk_staged(u, block, new_chunk, save_state_transition_data, answers));
        },
        ShardUpdateResult::OldChunk(old_chunk) => {
            assert(result == ShardUpdateResult::OldChunk(old_chunk));
            lemma_old_chunk_is_local(
                t,
                u,
                block,
                old_chunk,
                save_state_transition_data,
                answers,
            );
            assert(shard_staged(t, block, result, save_state_transition_data, answers)
                == old_chunk_staged(t, block, old_chunk, save_state_transition_data, answers));
            assert(shard_staged(u, block, result, save_state_transition_data, answers)
                == old_chunk_staged(u, block, old_chunk, save_state_transition_data, answers));
        },
        ShardUpdateResult::Resharding(resharding) => {
            let results = ReshardingResults::ApplyReshardingResults(resharding.results);
            assert(touched_shards(result) == split_shards(results).insert(resharding.shard_uid));
            lemma_split_is_local(
                t,
                u,
                block.hash,
                resharding.shard_uid,
                results,
                answers.split,
            );
            lemma_agree_off_wider(
                split_staged(
                    t,
                    block.hash,
                    resharding.shard_uid,
                    results,
                    answers.split,
                )->Some_0.chunk_extras,
                t.chunk_extras,
                split_shards(results),
                touched_shards(result),
            );
        },
    }
}

/// Whether each result keeps its children apart from its shard, and no two
/// results touch a shard in common.
pub open spec fn results_apart(results: Seq<ShardUpdateResult>) -> bool {
    &&& forall|i: int| 0 <= i < results.len() ==> result_apart(#[trigger] results[i])
    &&& forall|i: int, j: int|
        0 <= i < results.len() && 0 <= j < results.len() && i != j ==> touched_shards(
            #[trigger] results[i],
        ).disjoint(touched_shards(#[trigger] results[j]))
}

/// The results from the `from`-th on leave the checkpoints of the shards of
/// an earlier result as they are.
proof fn lemma_later_shards_keep(
    store: StoreView,
    block: BlockHeader,
    results: Seq<ShardUpdateResult>,
    save_state_transition_data: bool,
    answers: Seq<ShardAnswers>,
    i: int,
    k: nat,
)
    requires
        results_apart(results),
        0 <= i < k <= results.len(),
        shards_staged(store, block, results, save_state_transition_data, answers, k) is Some,
    ensures
        shards_staged(store, block, results, save_state_transition_data, answers, (i + 1) as nat)
            is Some,
        agree_on(
            shards_staged(
                store,
                block,
                results,
                save_state_transition_data,
                answers,
                k,
            )->Some_0.chunk_extras,
            shards_staged(
                store,
                block,
                results,
                save_state_transition_data,
                answers,
                (i + 1) as nat,
            )->Some_0.chunk_extras,
            touched_shards(results[i]),
        ),
    decreases k,
{
    reveal(agree_on);
    reveal(agree_off);
    if k > i + 1 {
        let before = shards_staged(
            store,
            block,
            results,
            save_state_transition_data,
            answers,
            (k - 1) as nat,
        )->Some_0;
        lemma_later_shards_keep(
            store,
            block,
            results,
            save_state_transition_data,
            answers,
            i,
            (k - 1) as nat,
        );
        lemma_shard_is_local(
            before,
            before,
            block,
            results[k - 1],
            save_state_transition_data,
            answers[k - 1],
        );
        assert(touched_shards(results[i]).disjoint(touched_shards(results[k - 1])));
    }
}

/// The states that the first pass goes through: each is staged from the store.
proof fn lemma_prefix_is_staged(
    store: StoreView,
    block: BlockHeader,
    results: Seq<ShardUpdateResult>,
    save_state_transition_data: bool,
    answers: Seq<ShardAnswers>,
    i: nat,
    k: nat,
)
    requires
        i <= k,
        shards_staged(store, block, results, save_state_transition_data, answers, k) is Some,
    ensures
        shards_staged(store, block, results, save_state_transition_data, answers, i) is Some,
    decreases k,
{
    if i < k {
        lemma_prefix_is_staged(
            store,
            block,
            results,
            save_state_transition_data,
            answers,
            i,
            (k - 1) as nat,
        );
    }
}

/// Staging the first `k` results once more on top of what all of them staged
/// can be done and changes no checkpoint.
proof fn lemma_second_pass(
    store: StoreView,
    block: BlockHeader,
    results: Seq<ShardUpdateResult>,
    save_state_transition_data: bool,
    answers: Seq<ShardAnswers>,
    k: nat,
)
    requires
        results_apart(results),
        k <= results.len(),
        shards_staged(
            store,
            block,
            results,
            save_state_transition_data,
            answers,
            results.len(),
        ) is Some,
    ensures
        ({
            let once = shards_staged(
                store,
                block,
                results,
                save_state_transition_data,
                answers,
                results.len(),
            )->Some_0;
            &&& shards_staged(once, block, results, save_state_transition_data, answers, k) is Some
            &&& shards_staged(
                once,
                block,
                results,
                save_state_transition_data,
                answers,
                k,
            )->Some_0.chunk_extras == once.chunk_extras
        }),
    decreases k,
{
    reveal(agree_on);
    reveal(agree_off);
    let n = results.len();
    let once = shards_staged(store, block, results, save_state_transition_data, answers, n)->Some_0;
    if k > 0 {
        let i = k - 1;
        lemma_second_pass(
            store,
            block,
            results,
            save_state_transition_data,
            answers,
            (k - 1) as nat,
        );
        // The second pass before the result, and the first pass before and after it.
        let again = shards_staged(
            once,
            block,
            results,
            save_state_transition_data,
            answers,
            (k - 1) as nat,
        )->Some_0;
        lemma_prefix_is_staged(
            store,
            block,
            results,
            save_state_transition_data,
            answers,
            k,
            n,
        );
        lemma_prefix_is_staged(
            store,
            block,
            results,
            save_state_transition_data,
            answers,
            (k - 1) as nat,
            n,
        );
        let first_before = shards_staged(
            store,
            block,
            results,
            save_state_transition_data,
            answers,
            (k - 1) as nat,
        )->Some_0;
        let first_after = shards_staged(
            store,
            block,
            results,
            save_state_transition_data,
            answers,
            k,
        )->Some_0;
        lemma_later_shards_keep(
            store,
            block,
            results,
            save_state_transition_data,
            answers,
            i,
            n,
        );
        // Staged on top of itself, the result changes no checkpoint.
        lemma_staging_twice_counts_once(
            first_before,
            block,
            results[i],
            save_state_transition_data,
            answers[i],
        );
        let twice = shard_staged(
            first_after,
            block,
            results[i],
            save_state_transition_data,
            answers[i],
        )->Some_0;
        // The second pass sees, for the shards of the result, what the first
        // pass left right after it.
        assert(agree_on(again.chunk_extras, first_after.chunk_extras, touched_shards(results[i])));
        lemma_shard_is_local(
            again,
            first_after,
            block,
            results[i],
            save_state_transition_data,
            answers[i],
        );
        let next = shard_staged(
            again,
            block,
            results[i],
            save_state_transition_data,
            answers[i],
        )->Some_0;
        assert forall|key: BlockShardUId| #[trigger]
            next.chunk_extras.dom().contains(key) == once.chunk_extras.dom().contains(key) by {
            if touched_shards(results[i]).contains(key.shard_uid) {
                assert(next.chunk_extras.contains_key(key) == twice.chunk_extras.contains_key(key));
                assert(again.chunk_extras.contains_key(key) == first_after.chunk_extras.contains_key(
                    key,
                ));
            } else {
                assert(next.chunk_extras.contains_key(key) == again.chunk_extras.contains_key(key));
            }
        }
        assert forall|key: BlockShardUId| #[trigger]
            once.chunk_extras.dom().contains(key) implies next.chunk_extras[key]
            == once.chunk_extras[key] by {
            if touched_shards(results[i]).contains(key.shard_uid) {
                assert(next.chunk_extras.contains_key(key) == twice.chunk_extras.contains_key(key));
                assert(again.chunk_extras.contains_key(key) == first_after.chunk_extras.contains_key(
                    key,
                ));
            } else {
                assert(next.chunk_extras.contains_key(key) == again.chunk_extras.contains_key(key));
            }
        }
        assert(next.chunk_extras.dom() =~= once.chunk_extras.dom());
        assert(next.chunk_extras =~= once.chunk_extras);
    }
}

/// Staging the results of a block once more, with the same answers of the
/// collaborators, can be done and changes no checkpoint: after two passes
/// every shard has the one checkpoint for the block that it had after one,
/// with the gas and the burnt balance counted once. This holds where no two
/// results touch a shard in common and no child of a split carries the
/// identity of the shard that splits.
pub proof fn lemma_staging_a_block_twice_counts_once(
    store: StoreView,
    block: BlockHeader,
    results: Seq<ShardUpdateResult>,
    save_state_transition_data: bool,
    answers: Seq<ShardAnswers>,
)
    requires
        results_apart(results),
        shards_staged(
            store,
            block,
            results,
            save_state_transition_data,
            answers,
            results.len(),
        ) is Some,
    ensures
        ({
            let once = shards_staged(
                store,
                block,
                results,
                save_state_transition_data,
                answers,
                results.len(),
            )->Some_0;
            &&& shards_staged(
                once,
                block,
                results,
                save_state_transition_data,
                answers,
                results.len(),
            ) is Some
            &&& shards_staged(
                once,
                block,
                results,
                save_state_transition_data,
                answers,
                results.len(),
            )->Some_0.chunk_extras == once.chunk_extras
        }),
{
    lemma_second_pass(store, block, results, save_state_transition_data, answers, results.len());
}

} // verus!
