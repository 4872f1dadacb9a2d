//! The update of the chain for one block: everything is staged in one
//! transaction, which the owner commits or drops.

use vstd::prelude::*;
use near_primitives::shard_layout::ShardLayout;
use near_primitives::views::LightClientBlockView;
use crate::adapters::{
    ApplyChunkResult,
    BlockHeaderInfo,
    DoomslugThresholdMode,
    EpochManagerAdapter,
    RuntimeAdapter,
};
use crate::error::Error;
use crate::fork_choice;
use crate::gauges::Gauges;
use crate::hash::CryptoHash;
use crate::records::{Record, RecordKey, StoreUpdate};
use crate::resharding::{
    check_split,
    child_indexed,
    child_views,
    children_failed,
    lemma_sorted_by_shard_uids,
    plan_matches,
    sort_by_shard_uid,
    split_asked,
    split_checkpoint,
    split_children,
    split_planned,
    split_refused,
    split_staged,
    stage_children,
    stage_planned,
    ApplyResultForResharding,
    ChildAnswer,
    ChildCheckpoint,
    PlannedSplit,
    SplitAnswers,
    SplitTrace,
};
use crate::postprocess::{
    new_chunk_extra,
    block_asked,
    block_gauges,
    block_outcome,
    block_recorded,
    block_saved,
    challenges_staged,
    epoch_end_asked,
    epoch_end_outcome,
    first_error,
    incoming_receipts_staged,
    last_finalized_height,
    lemma_shards_staged_prefix,
    new_chunk_refused,
    new_chunk_staged,
    old_chunk_staged,
    resharding_asked,
    resharding_refused,
    shard_asked,
    shard_results,
    shard_staged,
    shards_asked,
    shards_staged,
    with_resharding,
    BlockAnswers,
    NewChunkTrace,
    ShardAnswers,
};
use crate::results::{
    BlockPreprocessInfo,
    NewChunkResult,
    OldChunkResult,
    ReshardingResults,
    ShardUpdateResult,
};
use crate::shard::{ShardId, ShardUId};
use crate::store::{ChainStore, ChainStoreUpdate, StoreView};
use crate::types::{
    Block,
    BlockHeader,
    BlockHeight,
    BlockView,
    ChunkExtra,
    ChunkExtraView,
    Tip,
};

verus! {

/// What is needed to process a block and to accept or reject it. Nothing
/// reaches the store before `commit`: to reject the block, drop the update.
pub struct ChainUpdate<'a, E: EpochManagerAdapter, R: RuntimeAdapter> {
    pub epoch_manager: E,
    pub runtime_adapter: R,
    pub chain_store_update: ChainStoreUpdate<'a>,
    pub doomslug_threshold_mode: DoomslugThresholdMode,
    pub transaction_validity_period: BlockHeight,
    /// What the gauges of block processing were last set to by this update.
    pub gauges: Gauges,
}

impl<'a, E: EpochManagerAdapter, R: RuntimeAdapter> View for ChainUpdate<'a, E, R> {
    type V = StoreView;

    /// The store as the transaction of the update sees it.
    open spec fn view(&self) -> StoreView {
        self.chain_store_update@
    }
}

impl<'a, E: EpochManagerAdapter, R: RuntimeAdapter> ChainUpdate<'a, E, R> {
    /// Whether `self` is `before` but for what is staged and for the gauges:
    /// the store underneath and the collaborators are the same.
    pub open spec fn only_staged_and_gauged_since(&self, before: Self) -> bool {
        &&& self.chain_store_update.base == before.chain_store_update.base
        &&& self.epoch_manager == before.epoch_manager
        &&& self.runtime_adapter == before.runtime_adapter
        &&& self.doomslug_threshold_mode == before.doomslug_threshold_mode
        &&& self.transaction_validity_period == before.transaction_validity_period
    }

    /// Whether `self` is `before` but for what is staged.
    pub open spec fn only_staged_since(&self, before: Self) -> bool {
        self.only_staged_and_gauged_since(before) && self.gauges == before.gauges
    }

    /// An update on `chain_store`, with nothing staged.
    pub fn new(
        chain_store: &'a mut ChainStore,
        epoch_manager: E,
        runtime_adapter: R,
        doomslug_threshold_mode: DoomslugThresholdMode,
        transaction_validity_period: BlockHeight,
    ) -> (update: Self)
        ensures
            update@ == old(chain_store)@,
            update.chain_store_update.committed() == old(chain_store)@,
            *final(update.chain_store_update.base) == *final(chain_store),
            update.epoch_manager == epoch_manager,
            update.runtime_adapter == runtime_adapter,
            update.doomslug_threshold_mode == doomslug_threshold_mode,
            update.transaction_validity_period == transaction_validity_period,
            update.gauges == Gauges::unset(),
    {
        let chain_store_update: ChainStoreUpdate<'_> = chain_store.store_update();
        Self::new_impl(
            epoch_manager,
            runtime_adapter,
            doomslug_threshold_mode,
            transaction_validity_period,
            chain_store_update,
        )
    }

    fn new_impl(
        epoch_manager: E,
        runtime_adapter: R,
        doomslug_threshold_mode: DoomslugThresholdMode,
        transaction_validity_period: BlockHeight,
        chain_store_update: ChainStoreUpdate<'a>,
    ) -> (update: Self)
        ensures
            update.chain_store_update == chain_store_update,
            update.epoch_manager == epoch_manager,
            update.runtime_adapter == runtime_adapter,
            update.doomslug_threshold_mode == doomslug_threshold_mode,
            update.transaction_validity_period == transaction_validity_period,
            update.gauges == Gauges::unset(),
    {
        ChainUpdate {
            epoch_manager,
            runtime_adapter,
            chain_store_update,
            doomslug_threshold_mode,
            transaction_validity_period,
            gauges: Gauges::new(),
        }
    }

    /// Commits what the update staged to the store.
    pub fn commit(self) -> (r: Result<(), Error>)
        ensures
            r is Ok,
            final(self.chain_store_update.base)@ == self@,
    {
        self.chain_store_update.commit();
        Ok(())
    }

    /// Moves the header head to `header` if it is higher.
    pub fn update_header_head_if_not_challenged(&mut self, header: &BlockHeader) -> (r: Result<
        Option<Tip>,
        Error,
    >)
        ensures
            (final(self)@, r) == fork_choice::update_header_head(old(self)@, *header),
            final(self).only_staged_and_gauged_since(*old(self)),
            final(self).gauges == (match r {
                Ok(moved) => old(self).gauges.header_head_moved(moved),
                Err(_) => old(self).gauges,
            }),
    {
        let header_head = self.chain_store_update.header_head()?;
        if header.height > header_head.height {
            let tip = Tip::from_header(header);
            self.chain_store_update.save_header_head_if_not_challenged(&tip)?;
            self.gauges.header_head_height = Some(tip.height);
            Ok(Some(tip))
        } else {
            Ok(None)
        }
    }

    /// Moves the final head to the block that `header` names as last final, if
    /// that block is known and higher.
    pub fn update_final_head_from_block(&mut self, header: &BlockHeader) -> (r: Result<
        Option<Tip>,
        Error,
    >)
        ensures
            (final(self)@, r) == fork_choice::update_final_head(old(self)@, *header),
            final(self).only_staged_since(*old(self)),
    {
        let final_head = self.chain_store_update.final_head()?;
        let last_final_block_header = match self.chain_store_update.get_block_header(
            &header.last_final_block,
        ) {
            Ok(final_header) => final_header,
            Err(Error::DBNotFound(_)) => {
                return Ok(None);
            },
            Err(err) => {
                return Err(err);
            },
        };
        if last_final_block_header.height > final_head.height {
            let tip = Tip::from_header(&last_final_block_header);
            self.chain_store_update.save_final_head(&tip);
            Ok(Some(tip))
        } else {
            Ok(None)
        }
    }

    /// Moves the head to `header` if it is higher, whether it extends the head
    /// or a fork; the final head is brought up first.
    pub fn update_head(&mut self, header: &BlockHeader) -> (r: Result<Option<Tip>, Error>)
        ensures
            (final(self)@, r) == fork_choice::update_head(old(self)@, *header),
            final(self).only_staged_and_gauged_since(*old(self)),
            final(self).gauges == (match r {
                Ok(moved) => old(self).gauges.head_moved(*header, moved),
                Err(_) => old(self).gauges,
            }),
    {
        self.update_final_head_from_block(header)?;
        let head = self.chain_store_update.head()?;
        if header.height > head.height {
            let tip = Tip::from_header(header);
            self.chain_store_update.save_body_head(&tip)?;
            self.gauges.block_height_head = Some(tip.height);
            self.gauges.block_ordinal_head = Some(header.block_ordinal);
            Ok(Some(tip))
        } else {
            Ok(None)
        }
    }

    /// Marks a block as invalid and, where it was on the canonical chain,
    /// moves the tips off it.
    pub fn mark_block_as_challenged(
        &mut self,
        block_hash: &CryptoHash,
        challenger_hash: Option<&CryptoHash>,
    ) -> (r: Result<(), Error>)
        ensures
            (final(self)@, r) == fork_choice::mark_block_as_challenged(
                old(self)@,
                *block_hash,
                match challenger_hash {
                    Some(hash) => Some(*hash),
                    None => None,
                },
            ),
            final(self).only_staged_since(*old(self)),
    {
        let challenger = match challenger_hash {
            Some(hash) => Some(*hash),
            None => None,
        };
        let block_header = match self.chain_store_update.get_block_header(block_hash) {
            Ok(block_header) => block_header,
            Err(e) => match e {
                Error::DBNotFound(_) => {
                    // The block wasn't seen yet, still challenge is good.
                    self.chain_store_update.save_challenged_block(*block_hash, challenger);
                    return Ok(());
                },
                _ => {
                    return Err(e);
                },
            },
        };

        let cur_block_at_same_height = match self.chain_store_update.get_block_hash_by_height(
            block_header.height,
        ) {
            Ok(bh) => Some(bh),
            Err(e) => match e {
                Error::DBNotFound(_) => None,
                _ => {
                    return Err(e);
                },
            },
        };

        self.chain_store_update.save_challenged_block(*block_hash, challenger);

        // If the block being invalidated is on the canonical chain, update head
        let on_canonical_chain = match cur_block_at_same_height {
            Some(hash) => hash.same(block_hash),
            None => false,
        };
        if on_canonical_chain {
            // Only two candidates are considered for the new head: the challenger
            // and the block immediately preceding the block being challenged.
            let prev_header = self.chain_store_update.get_block_header(&block_header.prev_hash)?;
            let prev_height = prev_header.height;
            let new_head_header = if let Some(hash) = challenger_hash {
                let challenger_header = self.chain_store_update.get_block_header(hash)?;
                if challenger_header.height > prev_height {
                    challenger_header
                } else {
                    prev_header
                }
            } else {
                prev_header
            };
            let last_final_block = new_head_header.last_final_block;

            let tip = Tip::from_header(&new_head_header);
            self.chain_store_update.save_head(&tip)?;
            let new_final_header = self.chain_store_update.get_block_header(&last_final_block)?;
            self.chain_store_update.save_final_head(&Tip::from_header(&new_final_header));
        }
        Ok(())
    }

    /// Asks flat storage to index the state changes of each child of a split
    /// and, where the block knows a final block, to move the child's flat
    /// storage up to it. Gives what is to be staged for each child. The first
    /// failure of flat storage ends the work and is handed on.
    fn index_children(
        &self,
        header: &BlockHeader,
        sorted: Vec<ApplyResultForResharding>,
        extras: Vec<ChunkExtra>,
    ) -> (r: Result<Vec<ChildCheckpoint>, Error>)
        requires
            sorted.len() == extras.len(),
        ensures
            r matches Ok(children) ==> children.len() == sorted.len() && forall|i: int|
                0 <= i < children.len() ==> {
                    &&& (#[trigger] children[i]).shard_uid == sorted[i].shard_uid
                    &&& children[i].chunk_extra == extras[i]
                    &&& children[i].trie_changes == sorted[i].trie_changes
                    &&& child_indexed(
                        self.runtime_adapter,
                        *header,
                        sorted[i],
                        children[i].flat_state_changes,
                    )
                },
            r matches Err(e) ==> exists|flat: Seq<StoreUpdate>, failed: ChildAnswer| #[trigger]
                children_failed(self.runtime_adapter, *header, sorted@, flat, failed, e),
            sorted.len() == 0 ==> r is Ok,
    {
        let ghost all_results = sorted@;
        let ghost all_extras = extras@;
        let ghost mut flat: Seq<StoreUpdate> = Seq::empty();
        let n: usize = sorted.len();
        let mut results = sorted;
        let mut extras = extras;
        let mut children: Vec<ChildCheckpoint> = Vec::new();
        let mut i: usize = 0;
        assert(all_results.skip(0) =~= all_results);
        assert(all_extras.skip(0) =~= all_extras);
        while i < n
            invariant
                i <= n,
                n == all_results.len(),
                n == all_extras.len(),
                all_results == sorted@,
                results@ == all_results.skip(i as int),
                extras@ == all_extras.skip(i as int),
                children.len() == i,
                flat.len() == i,
                forall|k: int|
                    0 <= k < i ==> {
                        &&& (#[trigger] children[k]).shard_uid == all_results[k].shard_uid
                        &&& children[k].chunk_extra == all_extras[k]
                        &&& children[k].trie_changes == all_results[k].trie_changes
                        &&& children[k].flat_state_changes == flat[k]
                    },
                forall|k: int|
                    0 <= k < i ==> child_indexed(
                        self.runtime_adapter,
                        *header,
                        #[trigger] all_results[k],
                        flat[k],
                    ),
            decreases n - i,
        {
            let result = results.remove(0);
            let chunk_extra = extras.remove(0);
            assert(result == all_results[i as int]);
            assert(chunk_extra == all_extras[i as int]);
            assert(results@ =~= all_results.skip(i + 1));
            assert(extras@ =~= all_extras.skip(i + 1));
            let indexed = self.runtime_adapter.save_flat_state_changes(
                header.hash,
                header.prev_hash,
                header.height,
                result.shard_uid,
                &result.trie_changes.state_changes,
            );
            let ghost answer = ChildAnswer { indexed, moved: Ok(()) };
            let store_update = match indexed {
                Ok(store_update) => store_update,
                Err(e) => {
                    assert(children_failed(
                        self.runtime_adapter,
                        *header,
                        all_results,
                        flat,
                        answer,
                        e,
                    ));
                    return Err(e);
                },
            };
            if !header.last_final_block.is_default() {
                // A shard that has just split has no missing chunk, so its flat
                // storage can move up to the final block at once.
                let moved = self.runtime_adapter.update_flat_storage_for_shard(
                    result.shard_uid,
                    header.last_final_block,
                );
                match moved {
                    Ok(done) => {
                        assert(done == ());
                    },
                    Err(e) => {
                        assert(children_failed(
                            self.runtime_adapter,
                            *header,
                            all_results,
                            flat,
                            ChildAnswer { moved, ..answer },
                            e,
                        ));
                        return Err(e);
                    },
                }
            }
            proof {
                assert(child_indexed(self.runtime_adapter, *header, result, store_update));
                let before = flat;
                flat = flat.push(store_update);
                assert forall|k: int| 0 <= k < i + 1 implies child_indexed(
                    self.runtime_adapter,
                    *header,
                    #[trigger] all_results[k],
                    flat[k],
                ) by {
                    if k < i {
                        assert(flat[k] == before[k]);
                    }
                }
            }
            children.push(
                ChildCheckpoint {
                    shard_uid: result.shard_uid,
                    chunk_extra,
                    trie_changes: result.trie_changes,
                    flat_state_changes: store_update,
                },
            );
            i += 1;
        }
        Ok(children)
    }

    /// Asks the collaborators what the split of a shard with the checkpoint
    /// `parent` needs, and gives what is to be staged for each child. Nothing
    /// is staged. The first failure ends the work and is handed on: that of a
    /// collaborator as it came, that of the layout or of the protocol version
    /// as the defect that it is.
    fn plan_split(
        &self,
        block: &Block,
        shard_uid: &ShardUId,
        parent: &ChunkExtra,
        results: Vec<ApplyResultForResharding>,
    ) -> (r: Result<Vec<ChildCheckpoint>, Error>)
        ensures
            r matches Ok(children) ==> exists|answers: SplitAnswers|
                split_asked(
                    self.epoch_manager,
                    self.runtime_adapter,
                    block.header,
                    ReshardingResults::ApplyReshardingResults(results),
                    answers,
                ) && #[trigger] split_planned(
                    parent@,
                    shard_uid.spec_shard_id(),
                    results@,
                    answers,
                ) == Some(child_views(children@)),
            r matches Err(e) ==> exists|trace: SplitTrace| #[trigger]
                split_refused(
                    self.epoch_manager,
                    self.runtime_adapter,
                    block.header,
                    parent@,
                    shard_uid.spec_shard_id(),
                    results@,
                    trace,
                    e,
                ),
    {
        let prev_hash = block.header.prev_hash;
        let ghost given = results@;
        let ghost whole = ReshardingResults::ApplyReshardingResults(results);
        let mut results = results;
        // Sort the results so that the gas reassignment is deterministic.
        sort_by_shard_uid(&mut results);
        proof {
            lemma_sorted_by_shard_uids(given);
        }
        let results = results;
        let ghost sorted = results@;
        let ghost mut trace = SplitTrace {
            next_epoch_id: arbitrary(),
            layout: arbitrary(),
            epoch_id: arbitrary(),
            protocol_version: arbitrary(),
            flat: Seq::empty(),
            failed: arbitrary(),
        };

        let asked = self.epoch_manager.get_next_epoch_id_from_prev_block(&prev_hash);
        proof {
            trace = SplitTrace { next_epoch_id: asked, ..trace };
        }
        let next_epoch_id = match asked {
            Ok(next_epoch_id) => next_epoch_id,
            Err(e) => {
                assert(split_refused(
                    self.epoch_manager,
                    self.runtime_adapter,
                    block.header,
                    parent@,
                    shard_uid.spec_shard_id(),
                    given,
                    trace,
                    e,
                ));
                return Err(e);
            },
        };
        let asked = self.epoch_manager.get_shard_layout(&next_epoch_id);
        proof {
            trace = SplitTrace { layout: asked, ..trace };
        }
        let next_epoch_shard_layout = match asked {
            Ok(layout) => layout,
            Err(e) => {
                assert(split_refused(
                    self.epoch_manager,
                    self.runtime_adapter,
                    block.header,
                    parent@,
                    shard_uid.spec_shard_id(),
                    given,
                    trace,
                    e,
                ));
                return Err(e);
            },
        };
        let routes = match check_split(
            parent,
            &next_epoch_shard_layout,
            shard_uid.shard_id(),
            results.len(),
        ) {
            Ok(routes) => routes,
            Err(e) => {
                assert(split_refused(
                    self.epoch_manager,
                    self.runtime_adapter,
                    block.header,
                    parent@,
                    shard_uid.spec_shard_id(),
                    given,
                    trace,
                    e,
                ));
                return Err(e);
            },
        };

        let asked = self.epoch_manager.get_epoch_id_from_prev_block(&prev_hash);
        proof {
            trace = SplitTrace { epoch_id: asked, ..trace };
        }
        let epoch_id = match asked {
            Ok(epoch_id) => epoch_id,
            Err(e) => {
                assert(split_refused(
                    self.epoch_manager,
                    self.runtime_adapter,
                    block.header,
                    parent@,
                    shard_uid.spec_shard_id(),
                    given,
                    trace,
                    e,
                ));
                return Err(e);
            },
        };
        let asked = self.epoch_manager.get_epoch_protocol_version(&epoch_id);
        proof {
            trace = SplitTrace { protocol_version: asked, ..trace };
        }
        let protocol_version = match asked {
            Ok(protocol_version) => protocol_version,
            Err(e) => {
                assert(split_refused(
                    self.epoch_manager,
                    self.runtime_adapter,
                    block.header,
                    parent@,
                    shard_uid.spec_shard_id(),
                    given,
                    trace,
                    e,
                ));
                return Err(e);
            },
        };

        // The outcome root of the parent goes to every child: outcome proofs
        // are made under the layout before the split.
        let extras = match split_checkpoint(
            parent,
            &routes,
            &next_epoch_shard_layout,
            &results,
            protocol_version,
        ) {
            Ok(extras) => extras,
            Err(e) => {
                assert(split_refused(
                    self.epoch_manager,
                    self.runtime_adapter,
                    block.header,
                    parent@,
                    shard_uid.spec_shard_id(),
                    given,
                    trace,
                    e,
                ));
                return Err(e);
            },
        };
        let children = match self.index_children(&block.header, results, extras) {
            Ok(children) => children,
            Err(e) => {
                proof {
                    let (flat, failed) = choose|flat: Seq<StoreUpdate>, failed: ChildAnswer| #[trigger]
                        children_failed(
                            self.runtime_adapter,
                            block.header,
                            sorted,
                            flat,
                            failed,
                            e,
                        );
                    trace = SplitTrace { flat, failed, ..trace };
                    assert(split_refused(
                        self.epoch_manager,
                        self.runtime_adapter,
                        block.header,
                        parent@,
                        shard_uid.spec_shard_id(),
                        given,
                        trace,
                        e,
                    ));
                }
                return Err(e);
            },
        };
        proof {
            let flat = Seq::new(children@.len(), |i: int| children@[i].flat_state_changes);
            let answers = SplitAnswers {
                next_epoch_id,
                layout: next_epoch_shard_layout,
                epoch_id,
                protocol_version,
                flat,
            };
            assert(split_asked(
                self.epoch_manager,
                self.runtime_adapter,
                block.header,
                whole,
                answers,
            ));
            assert(child_views(children@) =~= split_children(
                parent@,
                next_epoch_shard_layout,
                sorted,
                flat,
            ));
            assert(split_planned(parent@, shard_uid.spec_shard_id(), given, answers) == Some(
                child_views(children@),
            ));
        }
        Ok(children)
    }

    /// Asks the collaborators what the resharding results of a shard with the
    /// checkpoint `parent` need, where it has any, and gives what is to be
    /// staged for them. Nothing is staged. Only the children of a split can
    /// fail to be planned: the failure is handed on.
    fn plan_resharding(
        &self,
        block: &Block,
        shard_uid: &ShardUId,
        parent: &ChunkExtra,
        resharding_results: Option<ReshardingResults>,
    ) -> (r: Result<PlannedSplit, Error>)
        ensures
            r matches Ok(planned) ==> exists|answers: SplitAnswers|
                resharding_asked(
                    self.epoch_manager,
                    self.runtime_adapter,
                    block.header,
                    resharding_results,
                    answers,
                ) && #[trigger] plan_matches(
                    parent@,
                    shard_uid.spec_shard_id(),
                    resharding_results,
                    answers,
                    planned,
                ),
            r matches Err(e) ==> exists|trace: SplitTrace| #[trigger]
                resharding_refused(
                    self.epoch_manager,
                    self.runtime_adapter,
                    block.header,
                    parent@,
                    shard_uid.spec_shard_id(),
                    resharding_results,
                    trace,
                    e,
                ),
            !(resharding_results matches Some(ReshardingResults::ApplyReshardingResults(_)))
                ==> r is Ok,
    {
        let ghost nothing_asked = SplitAnswers {
            next_epoch_id: arbitrary(),
            layout: arbitrary(),
            epoch_id: arbitrary(),
            protocol_version: 0,
            flat: Seq::empty(),
        };
        match resharding_results {
            None => {
                assert(plan_matches(
                    parent@,
                    shard_uid.spec_shard_id(),
                    resharding_results,
                    nothing_asked,
                    PlannedSplit::Nothing,
                ));
                Ok(PlannedSplit::Nothing)
            },
            Some(ReshardingResults::StoreReshardingResults(state_changes)) => {
                assert(plan_matches(
                    parent@,
                    shard_uid.spec_shard_id(),
                    resharding_results,
                    nothing_asked,
                    PlannedSplit::Store(state_changes),
                ));
                Ok(PlannedSplit::Store(state_changes))
            },
            Some(ReshardingResults::ApplyReshardingResults(results)) => {
                let children = match self.plan_split(block, shard_uid, parent, results) {
                    Ok(children) => children,
                    Err(e) => {
                        proof {
                            let trace = choose|trace: SplitTrace| #[trigger]
                                split_refused(
                                    self.epoch_manager,
                                    self.runtime_adapter,
                                    block.header,
                                    parent@,
                                    shard_uid.spec_shard_id(),
                                    results@,
                                    trace,
                                    e,
                                );
                            assert(resharding_refused(
                                self.epoch_manager,
                                self.runtime_adapter,
                                block.header,
                                parent@,
                                shard_uid.spec_shard_id(),
                                resharding_results,
                                trace,
                                e,
                            ));
                        }
                        return Err(e);
                    },
                };
                proof {
                    let answers = choose|answers: SplitAnswers|
                        split_asked(
                            self.epoch_manager,
                            self.runtime_adapter,
                            block.header,
                            ReshardingResults::ApplyReshardingResults(results),
                            answers,
                        ) && #[trigger] split_planned(
                            parent@,
                            shard_uid.spec_shard_id(),
                            results@,
                            answers,
                        ) == Some(child_views(children@));
                    assert(plan_matches(
                        parent@,
                        shard_uid.spec_shard_id(),
                        resharding_results,
                        answers,
                        PlannedSplit::Apply(children),
                    ));
                }
                Ok(PlannedSplit::Apply(children))
            },
        }
    }

    /// Stages what a shard that splits hands on: the state changes to replay
    /// later, or the checkpoint and the trie changes of each child. Where it
    /// fails, nothing is staged.
    pub fn process_resharding_results(
        &mut self,
        block: &Block,
        shard_uid: &ShardUId,
        resharding_results: ReshardingResults,
    ) -> (r: Result<(), Error>)
        ensures
            final(self).only_staged_since(*old(self)),
            r is Ok ==> exists|answers: SplitAnswers|
                split_asked(
                    old(self).epoch_manager,
                    old(self).runtime_adapter,
                    block.header,
                    resharding_results,
                    answers,
                ) && #[trigger] split_staged(
                    old(self)@,
                    block.header.hash,
                    *shard_uid,
                    resharding_results,
                    answers,
                ) == Some(final(self)@),
            r is Err ==> final(self)@ == old(self)@,
            resharding_results is StoreReshardingResults ==> r is Ok,
            resharding_results is ApplyReshardingResults ==> (old(self)@.get_chunk_extra(
                block.header.hash,
                *shard_uid,
            ) matches Err(e) ==> r == Err::<(), Error>(e)),
    {
        let block_hash = block.header.hash;
        match resharding_results {
            ReshardingResults::ApplyReshardingResults(results) => {
                let chunk_extra = match self.chain_store_update.get_chunk_extra(
                    &block_hash,
                    shard_uid,
                ) {
                    Ok(extra) => extra.clone_extra(),
                    Err(e) => {
                        return Err(e);
                    },
                };
                let children = self.plan_split(block, shard_uid, &chunk_extra, results)?;
                proof {
                    let answers = choose|answers: SplitAnswers|
                        split_asked(
                            self.epoch_manager,
                            self.runtime_adapter,
                            block.header,
                            ReshardingResults::ApplyReshardingResults(results),
                            answers,
                        ) && #[trigger] split_planned(
                            chunk_extra@,
                            shard_uid.spec_shard_id(),
                            results@,
                            answers,
                        ) == Some(child_views(children@));
                    lemma_sorted_by_shard_uids(results@);
                    assert(child_views(children@).len() == children@.len());
                    assert(old(self)@.get_chunk_extra(block_hash, *shard_uid) == Ok::<
                        ChunkExtraView,
                        Error,
                    >(chunk_extra@));
                    assert(split_staged(
                        old(self)@,
                        block.header.hash,
                        *shard_uid,
                        resharding_results,
                        answers,
                    ) == Some(
                        crate::resharding::staged_children(
                            old(self)@,
                            block_hash,
                            child_views(children@),
                            children@.len(),
                        ),
                    ));
                }
                stage_children(&mut self.chain_store_update, &block_hash, children);
            },
            ReshardingResults::StoreReshardingResults(state_changes) => {
                self.chain_store_update.save_record(
                    RecordKey::StateChangesForResharding {
                        block_hash,
                        shard_id: shard_uid.shard_id(),
                    },
                    Record::StateChangesForResharding(state_changes),
                );
                proof {
                    let answers = SplitAnswers {
                        next_epoch_id: arbitrary(),
                        layout: arbitrary(),
                        epoch_id: arbitrary(),
                        protocol_version: 0,
                        flat: Seq::empty(),
                    };
                    assert(split_staged(
                        old(self)@,
                        block.header.hash,
                        *shard_uid,
                        resharding_results,
                        answers,
                    ) == Some(self@));
                }
            },
        }
        Ok(())
    }

    /// Stages the result of a shard that had a new chunk in the block. Where
    /// it fails, nothing is staged, and the first failure is handed on: that
    /// of a collaborator as it came, that of the result as the defect that it
    /// is.
    fn process_new_chunk(
        &mut self,
        block: &Block,
        result: NewChunkResult,
        should_save_state_transition_data: bool,
    ) -> (r: Result<(), Error>)
        ensures
            final(self).only_staged_since(*old(self)),
            r is Ok ==> exists|answers: ShardAnswers|
                shard_asked(
                    old(self).epoch_manager,
                    old(self).runtime_adapter,
                    block.header,
                    ShardUpdateResult::NewChunk(result),
                    answers,
                ) && #[trigger] new_chunk_staged(
                    old(self)@,
                    block.header,
                    result,
                    should_save_state_transition_data,
                    answers,
                ) == Some(final(self)@),
            r is Err ==> final(self)@ == old(self)@,
            r matches Err(e) ==> exists|trace: NewChunkTrace| #[trigger]
                new_chunk_refused(
                    old(self).epoch_manager,
                    old(self).runtime_adapter,
                    block.header,
                    result,
                    trace,
                    e,
                ),
    {
        let block_hash = block.header.hash;
        let prev_hash = block.header.prev_hash;
        let height = block.header.height;
        let NewChunkResult { gas_limit, shard_uid, apply_result, resharding_results } = result;
        let ApplyChunkResult {
            trie_changes,
            new_root,
            outcomes,
            outgoing_receipts,
            validator_proposals,
            total_gas_burnt,
            total_balance_burnt,
            proof,
            applied_receipts_hash,
            congestion_info,
        } = apply_result;
        let (outcome_root, outcome_paths) = self.runtime_adapter.compute_outcomes_proof(&outcomes);
        let shard_id = shard_uid.shard_id();
        let ghost outcome_proofs = outcome_paths;
        let ghost mut trace = NewChunkTrace {
            outcome_root,
            outcome_proofs,
            epoch_id: arbitrary(),
            protocol_version: arbitrary(),
            flat: arbitrary(),
            split: arbitrary(),
        };

        let asked = self.epoch_manager.get_epoch_id_from_prev_block(&prev_hash);
        proof {
            trace = NewChunkTrace { epoch_id: asked, ..trace };
        }
        let epoch_id = match asked {
            Ok(epoch_id) => epoch_id,
            Err(e) => {
                assert(new_chunk_refused(
                    self.epoch_manager,
                    self.runtime_adapter,
                    block.header,
                    result,
                    trace,
                    e,
                ));
                return Err(e);
            },
        };
        let asked = self.epoch_manager.get_epoch_protocol_version(&epoch_id);
        proof {
            trace = NewChunkTrace { protocol_version: asked, ..trace };
        }
        let protocol_version = match asked {
            Ok(protocol_version) => protocol_version,
            Err(e) => {
                assert(new_chunk_refused(
                    self.epoch_manager,
                    self.runtime_adapter,
                    block.header,
                    result,
                    trace,
                    e,
                ));
                return Err(e);
            },
        };

        let chunk_extra = match ChunkExtra::new(
            protocol_version,
            &new_root,
            outcome_root,
            validator_proposals,
            total_gas_burnt,
            gas_limit,
            total_balance_burnt,
            congestion_info,
        ) {
            Ok(chunk_extra) => chunk_extra,
            Err(e) => {
                assert(new_chunk_refused(
                    self.epoch_manager,
                    self.runtime_adapter,
                    block.header,
                    result,
                    trace,
                    e,
                ));
                return Err(e);
            },
        };
        let ghost extra = chunk_extra@;
        assert(extra == new_chunk_extra(result, outcome_root));
        let asked = self.runtime_adapter.save_flat_state_changes(
            block_hash,
            prev_hash,
            height,
            shard_uid,
            &trie_changes.state_changes,
        );
        proof {
            trace = NewChunkTrace { flat: asked, ..trace };
        }
        let store_update = match asked {
            Ok(store_update) => store_update,
            Err(e) => {
                assert(new_chunk_refused(
                    self.epoch_manager,
                    self.runtime_adapter,
                    block.header,
                    result,
                    trace,
                    e,
                ));
                return Err(e);
            },
        };
        let planned = match self.plan_resharding(
            block,
            &shard_uid,
            &chunk_extra,
            resharding_results,
        ) {
            Ok(planned) => planned,
            Err(e) => {
                proof {
                    let split = choose|split: SplitTrace| #[trigger]
                        resharding_refused(
                            self.epoch_manager,
                            self.runtime_adapter,
                            block.header,
                            extra,
                            shard_uid.spec_shard_id(),
                            resharding_results,
                            split,
                            e,
                        );
                    trace = NewChunkTrace { split, ..trace };
                    assert(new_chunk_refused(
                        self.epoch_manager,
                        self.runtime_adapter,
                        block.header,
                        result,
                        trace,
                        e,
                    ));
                }
                return Err(e);
            },
        };
        let ghost flat = store_update;

        // Save state root after applying transactions.
        self.chain_store_update.save_chunk_extra(&block_hash, &shard_uid, chunk_extra);
        self.chain_store_update.merge(store_update);
        self.chain_store_update.save_trie_changes(trie_changes);
        self.chain_store_update.save_record(
            RecordKey::OutgoingReceipts { block_hash, shard_id },
            Record::OutgoingReceipts(outgoing_receipts),
        );
        // Save receipt and transaction results.
        self.chain_store_update.save_record(
            RecordKey::OutcomesWithProofs { block_hash, shard_id },
            Record::OutcomesWithProofs { outcomes, proofs: outcome_paths },
        );
        if should_save_state_transition_data {
            self.chain_store_update.save_record(
                RecordKey::StateTransitionData { block_hash, shard_id },
                Record::StateTransitionData { proof, applied_receipts_hash },
            );
        }
        let ghost staged = self@;
        stage_planned(&mut self.chain_store_update, &block_hash, &shard_uid, planned);
        proof {
            let split = choose|answers: SplitAnswers|
                resharding_asked(
                    old(self).epoch_manager,
                    old(self).runtime_adapter,
                    block.header,
                    resharding_results,
                    answers,
                ) && #[trigger] plan_matches(
                    extra,
                    shard_uid.spec_shard_id(),
                    resharding_results,
                    answers,
                    planned,
                );
            assert(staged.get_chunk_extra(block_hash, shard_uid) == Ok::<ChunkExtraView, Error>(
                extra,
            ));
            assert(with_resharding(staged, block_hash, shard_uid, resharding_results, split)
                == Some(self@)) by {
                match resharding_results {
                    Some(ReshardingResults::ApplyReshardingResults(results)) => {
                        let children = planned->Apply_0;
                        lemma_sorted_by_shard_uids(results@);
                        assert(child_views(children@).len() == children@.len());
                    },
                    _ => {},
                }
            }
            let answers = ShardAnswers {
                epoch_id,
                protocol_version,
                outcome_root,
                outcome_proofs,
                flat,
                split,
            };
            assert(shard_asked(
                old(self).epoch_manager,
                old(self).runtime_adapter,
                block.header,
                ShardUpdateResult::NewChunk(result),
                answers,
            ));
            assert(new_chunk_staged(
                old(self)@,
                block.header,
                result,
                should_save_state_transition_data,
                answers,
            ) == Some(self@));
        }
        Ok(())
    }

    /// Stages the result of a shard whose chunk was missing in the block. Some
    /// fields of its checkpoint change all the same: the checkpoint before the
    /// block is copied and gets the new state root. Where it fails, nothing is
    /// staged.
    fn process_old_chunk(
        &mut self,
        block: &Block,
        result: OldChunkResult,
        should_save_state_transition_data: bool,
    ) -> (r: Result<(), Error>)
        ensures
            final(self).only_staged_since(*old(self)),
            r is Ok ==> exists|answers: ShardAnswers|
                shard_asked(
                    old(self).epoch_manager,
                    old(self).runtime_adapter,
                    block.header,
                    ShardUpdateResult::OldChunk(result),
                    answers,
                ) && #[trigger] old_chunk_staged(
                    old(self)@,
                    block.header,
                    result,
                    should_save_state_transition_data,
                    answers,
                ) == Some(final(self)@),
            r is Err ==> final(self)@ == old(self)@,
            old(self)@.get_chunk_extra(block.header.prev_hash, result.shard_uid) matches Err(e)
                ==> r == Err::<(), Error>(e),
    {
        let block_hash = block.header.hash;
        let prev_hash = block.header.prev_hash;
        let height = block.header.height;
        let OldChunkResult { shard_uid, apply_result, resharding_results } = result;
        let ApplyChunkResult {
            trie_changes,
            new_root,
            outcomes: _,
            outgoing_receipts: _,
            validator_proposals: _,
            total_gas_burnt: _,
            total_balance_burnt: _,
            proof,
            applied_receipts_hash,
            congestion_info: _,
        } = apply_result;
        let new_extra = match self.chain_store_update.get_chunk_extra(&prev_hash, &shard_uid) {
            Ok(old_extra) => old_extra.with_state_root(new_root),
            Err(e) => {
                return Err(e);
            },
        };

        let store_update = self.runtime_adapter.save_flat_state_changes(
            block_hash,
            prev_hash,
            height,
            shard_uid,
            &trie_changes.state_changes,
        )?;
        let planned = self.plan_resharding(block, &shard_uid, &new_extra, resharding_results)?;
        let ghost flat = store_update;
        let ghost extra = new_extra@;
        self.chain_store_update.merge(store_update);

        self.chain_store_update.save_chunk_extra(&block_hash, &shard_uid, new_extra);
        self.chain_store_update.save_trie_changes(trie_changes);
        if should_save_state_transition_data {
            self.chain_store_update.save_record(
                RecordKey::StateTransitionData { block_hash, shard_id: shard_uid.shard_id() },
                Record::StateTransitionData { proof, applied_receipts_hash },
            );
        }
        let ghost staged = self@;
        stage_planned(&mut self.chain_store_update, &block_hash, &shard_uid, planned);
        proof {
            let split = choose|answers: SplitAnswers|
                resharding_asked(
                    old(self).epoch_manager,
                    old(self).runtime_adapter,
                    block.header,
                    resharding_results,
                    answers,
                ) && #[trigger] plan_matches(
                    extra,
                    shard_uid.spec_shard_id(),
                    resharding_results,
                    answers,
                    planned,
                );
            assert(staged.get_chunk_extra(block_hash, shard_uid) == Ok::<ChunkExtraView, Error>(
                extra,
            ));
            assert(with_resharding(staged, block_hash, shard_uid, resharding_results, split)
                == Some(self@)) by {
                match resharding_results {
                    Some(ReshardingResults::ApplyReshardingResults(results)) => {
                        let children = planned->Apply_0;
                        lemma_sorted_by_shard_uids(results@);
                        assert(child_views(children@).len() == children@.len());
                    },
                    _ => {},
                }
            }
            let answers = ShardAnswers {
                epoch_id: arbitrary(),
                protocol_version: 0,
                outcome_root: arbitrary(),
                outcome_proofs: arbitrary(),
                flat,
                split,
            };
            assert(shard_asked(
                old(self).epoch_manager,
                old(self).runtime_adapter,
                block.header,
                ShardUpdateResult::OldChunk(result),
                answers,
            ));
            assert(old_chunk_staged(
                old(self)@,
                block.header,
                result,
                should_save_state_transition_data,
                answers,
            ) == Some(self@));
        }
        Ok(())
    }

    /// Stages the result of processing one shard for the block. Where it
    /// fails, nothing is staged.
    pub fn process_apply_chunk_result(
        &mut self,
        block: &Block,
        result: ShardUpdateResult,
        should_save_state_transition_data: bool,
    ) -> (r: Result<(), Error>)
        ensures
            final(self).only_staged_since(*old(self)),
            r is Ok ==> exists|answers: ShardAnswers|
                shard_asked(
                    old(self).epoch_manager,
                    old(self).runtime_adapter,
                    block.header,
                    result,
                    answers,
                ) && #[trigger] shard_staged(
                    old(self)@,
                    block.header,
                    result,
                    should_save_state_transition_data,
                    answers,
                ) == Some(final(self)@),
            result matches ShardUpdateResult::OldChunk(old_chunk) ==> (old(self)@.get_chunk_extra(
                block.header.prev_hash,
                old_chunk.shard_uid,
            ) matches Err(e) ==> r == Err::<(), Error>(e)),
            r is Err ==> final(self)@ == old(self)@,
    {
        match result {
            ShardUpdateResult::NewChunk(new_chunk) => {
                self.process_new_chunk(block, new_chunk, should_save_state_transition_data)?;
                proof {
                    let answers = choose|answers: ShardAnswers|
                        shard_asked(
                            old(self).epoch_manager,
                            old(self).runtime_adapter,
                            block.header,
                            ShardUpdateResult::NewChunk(new_chunk),
                            answers,
                        ) && #[trigger] new_chunk_staged(
                            old(self)@,
                            block.header,
                            new_chunk,
                            should_save_state_transition_data,
                            answers,
                        ) == Some(self@);
                    assert(shard_staged(
                        old(self)@,
                        block.header,
                        result,
                        should_save_state_transition_data,
                        answers,
                    ) == Some(self@));
                }
            },
            ShardUpdateResult::OldChunk(old_chunk) => {
                self.process_old_chunk(block, old_chunk, should_save_state_transition_data)?;
                proof {
                    let answers = choose|answers: ShardAnswers|
                        shard_asked(
                            old(self).epoch_manager,
                            old(self).runtime_adapter,
                            block.header,
                            ShardUpdateResult::OldChunk(old_chunk),
                            answers,
                        ) && #[trigger] old_chunk_staged(
                            old(self)@,
                            block.header,
                            old_chunk,
                            should_save_state_transition_data,
                            answers,
                        ) == Some(self@);
                    assert(shard_staged(
                        old(self)@,
                        block.header,
                        result,
                        should_save_state_transition_data,
                        answers,
                    ) == Some(self@));
                }
            },
            ShardUpdateResult::Resharding(resharding) => {
                let ghost results = ReshardingResults::ApplyReshardingResults(resharding.results);
                self.process_resharding_results(
                    block,
                    &resharding.shard_uid,
                    ReshardingResults::ApplyReshardingResults(resharding.results),
                )?;
                proof {
                    let split = choose|answers: SplitAnswers|
                        split_asked(
                            old(self).epoch_manager,
                            old(self).runtime_adapter,
                            block.header,
                            results,
                            answers,
                        ) && #[trigger] split_staged(
                            old(self)@,
                            block.header.hash,
                            resharding.shard_uid,
                            results,
                            answers,
                        ) == Some(self@);
                    let answers = ShardAnswers {
                        epoch_id: arbitrary(),
                        protocol_version: 0,
                        outcome_root: arbitrary(),
                        outcome_proofs: arbitrary(),
                        flat: arbitrary(),
                        split,
                    };
                    assert(shard_staged(
                        old(self)@,
                        block.header,
                        result,
                        should_save_state_transition_data,
                        answers,
                    ) == Some(self@));
                }
            },
        };
        Ok(())
    }

    /// Stages the results of all the shards of the block, in their order. The
    /// first shard that cannot be staged ends the work: the shards before it
    /// are staged, and nothing of it or of those after it.
    pub fn apply_chunk_postprocessing(
        &mut self,
        block: &Block,
        apply_results: Vec<ShardUpdateResult>,
        should_save_state_transition_data: bool,
    ) -> (r: Result<(), Error>)
        ensures
            final(self).only_staged_since(*old(self)),
            r is Ok ==> exists|answers: Seq<ShardAnswers>|
                shards_asked(
                    old(self).epoch_manager,
                    old(self).runtime_adapter,
                    block.header,
                    apply_results@,
                    answers,
                ) && #[trigger] shards_staged(
                    old(self)@,
                    block.header,
                    apply_results@,
                    should_save_state_transition_data,
                    answers,
                    apply_results@.len(),
                ) == Some(final(self)@),
            apply_results@.len() == 0 ==> r is Ok,
            r is Err ==> exists|k: nat, answers: Seq<ShardAnswers>|
                k < apply_results@.len() && shards_asked(
                    old(self).epoch_manager,
                    old(self).runtime_adapter,
                    block.header,
                    apply_results@.take(k as int),
                    answers,
                ) && #[trigger] shards_staged(
                    old(self)@,
                    block.header,
                    apply_results@,
                    should_save_state_transition_data,
                    answers,
                    k,
                ) == Some(final(self)@),
    {
        let ghost all = apply_results@;
        let ghost mut answers: Seq<ShardAnswers> = Seq::empty();
        let n: usize = apply_results.len();
        let mut rest = apply_results;
        let mut i: usize = 0;
        assert(all.skip(0) =~= all);
        while i < n
            invariant
                i <= n,
                n == all.len(),
                all == apply_results@,
                rest@ == all.skip(i as int),
                answers.len() == i,
                forall|k: int|
                    0 <= k < i ==> shard_asked(
                        old(self).epoch_manager,
                        old(self).runtime_adapter,
                        block.header,
                        #[trigger] all[k],
                        answers[k],
                    ),
                shards_staged(
                    old(self)@,
                    block.header,
                    all,
                    should_save_state_transition_data,
                    answers,
                    i as nat,
                ) == Some(self@),
                self.only_staged_since(*old(self)),
            decreases n - i,
        {
            let result = rest.remove(0);
            assert(result == all[i as int]);
            assert(rest@ =~= all.skip(i + 1));
            let ghost before = self@;
            self.process_apply_chunk_result(block, result, should_save_state_transition_data)?;
            proof {
                let answer = choose|answer: ShardAnswers|
                    shard_asked(
                        old(self).epoch_manager,
                        old(self).runtime_adapter,
                        block.header,
                        result,
                        answer,
                    ) && #[trigger] shard_staged(
                        before,
                        block.header,
                        result,
                        should_save_state_transition_data,
                        answer,
                    ) == Some(self@);
                lemma_shards_staged_prefix(
                    old(self)@,
                    block.header,
                    all,
                    should_save_state_transition_data,
                    answers,
                    answers.push(answer),
                    i as nat,
                );
                answers = answers.push(answer);
            }
            i += 1;
        }
        Ok(())
    }

    /// Files the receipts that reach each shard with the block.
    fn save_incoming_receipts(
        &mut self,
        block_hash: &CryptoHash,
        incoming_receipts: Vec<(ShardId, Vec<u8>)>,
    )
        ensures
            final(self).only_staged_since(*old(self)),
            final(self)@ == incoming_receipts_staged(
                old(self)@,
                *block_hash,
                incoming_receipts@,
                incoming_receipts@.len(),
            ),
    {
        let ghost all = incoming_receipts@;
        let n: usize = incoming_receipts.len();
        let mut rest = incoming_receipts;
        let mut i: usize = 0;
        assert(all.skip(0) =~= all);
        while i < n
            invariant
                i <= n,
                n == all.len(),
                rest@ == all.skip(i as int),
                self@ == incoming_receipts_staged(old(self)@, *block_hash, all, i as nat),
                self.only_staged_since(*old(self)),
            decreases n - i,
        {
            let (shard_id, receipt_proofs) = rest.remove(0);
            assert((shard_id, receipt_proofs) == all[i as int]);
            assert(rest@ =~= all.skip(i + 1));
            self.chain_store_update.save_record(
                RecordKey::IncomingReceipts { block_hash: *block_hash, shard_id },
                Record::IncomingReceipts(receipt_proofs),
            );
            i += 1;
        }
    }

    /// Marks the blocks that the block proves invalid, each with the block as
    /// its challenger.
    fn mark_challenged_blocks(&mut self, challenged_blocks: &Vec<CryptoHash>, challenger: &CryptoHash) -> (r:
        Result<(), Error>)
        ensures
            final(self).only_staged_since(*old(self)),
            (final(self)@, r) == challenges_staged(
                old(self)@,
                challenged_blocks@,
                *challenger,
                challenged_blocks@.len(),
            ),
    {
        let mut i: usize = 0;
        while i < challenged_blocks.len()
            invariant
                i <= challenged_blocks.len(),
                (self@, Ok::<(), Error>(())) == challenges_staged(
                    old(self)@,
                    challenged_blocks@,
                    *challenger,
                    i as nat,
                ),
                self.only_staged_since(*old(self)),
            decreases challenged_blocks.len() - i,
        {
            let done = self.mark_block_as_challenged(&challenged_blocks[i], Some(challenger));
            i += 1;
            if let Err(e) = done {
                proof {
                    lemma_challenges_stop(
                        old(self)@,
                        challenged_blocks@,
                        *challenger,
                        i as nat,
                        challenged_blocks@.len(),
                    );
                }
                return Err(e);
            }
        }
        Ok(())
    }

    /// Takes the block itself in: the catch-up entry, the receipts that reach
    /// its shards, the request to sync state, the outcome of its challenges,
    /// the marks of the blocks it proves invalid, its header and the header head.
    fn record_block(&mut self, header: &BlockHeader, info: BlockPreprocessInfo) -> (r: Result<
        Option<Tip>,
        Error,
    >)
        ensures
            final(self).only_staged_and_gauged_since(*old(self)),
            (final(self)@, r) == block_recorded(old(self)@, *header, info),
            final(self).gauges == (match r {
                Ok(moved) => old(self).gauges.header_head_moved(moved),
                Err(_) => old(self).gauges,
            }),
    {
        let BlockPreprocessInfo {
            is_caught_up,
            state_sync_info,
            incoming_receipts,
            challenges_result,
            challenged_blocks,
        } = info;

        if !is_caught_up {
            self.chain_store_update.add_block_to_catchup(header.prev_hash, header.hash);
        }
        self.save_incoming_receipts(&header.hash, incoming_receipts);
        if let Some(state_sync_info) = state_sync_info {
            self.chain_store_update.add_state_sync_info(state_sync_info);
        }
        self.chain_store_update.save_record(
            RecordKey::BlockExtra { block_hash: header.hash },
            Record::BlockExtra { challenges_result },
        );
        self.mark_challenged_blocks(&challenged_blocks, &header.hash)?;

        self.chain_store_update.save_block_header(*header);
        self.update_header_head_if_not_challenged(header)
    }

    /// The height of the last block that was final for `header`.
    fn last_finalized_height(&self, header: &BlockHeader) -> (r: Result<BlockHeight, Error>)
        ensures
            r == last_finalized_height(self@, *header),
    {
        if header.last_final_block.is_default() {
            Ok(self.chain_store_update.get_genesis_height())
        } else {
            Ok(self.chain_store_update.get_block_header(&header.last_final_block)?.height)
        }
    }

    /// Saves the block with the writes of the epoch manager for it, counts it
    /// on its predecessor and brings the head up.
    fn save_block_and_update_head(&mut self, block: &Block, validator_proposals: StoreUpdate) -> (r:
        Result<Option<Tip>, Error>)
        ensures
            final(self).only_staged_and_gauged_since(*old(self)),
            (final(self)@, r) == block_saved(old(self)@, block@, validator_proposals),
            final(self).gauges == (match r {
                Ok(moved) => old(self).gauges.head_moved(block.header, moved),
                Err(_) => old(self).gauges,
            }),
    {
        self.chain_store_update.merge(validator_proposals);
        // The block is saved even if it is not on the canonical chain.
        self.chain_store_update.save_block(block.clone_block());
        self.chain_store_update.inc_block_refcount(&block.header.prev_hash);
        // Update the chain head if it's the new tip
        self.update_head(&block.header)
    }

    /// The bookkeeping of a block that became the head. Where the block starts
    /// an epoch, the light client block of the epoch before is made. It is made
    /// from the predecessor: the links to the next block that it rests on are
    /// filled for blocks of the canonical chain only, and the new block is on
    /// it only now.
    fn stage_epoch_end(&mut self, header: &BlockHeader) -> (r: Result<(), Error>)
        ensures
            final(self).only_staged_since(*old(self)),
            exists|light_client_block: Result<LightClientBlockView, Error>|
                epoch_end_asked(old(self).epoch_manager, old(self)@, *header, light_client_block)
                    && #[trigger] epoch_end_outcome(old(self)@, *header, light_client_block) == (
                    final(self)@,
                    r,
                ),
    {
        let prev = match self.chain_store_update.get_previous_header(header) {
            Ok(prev) => prev,
            Err(e) => {
                assert(epoch_end_outcome(old(self)@, *header, arbitrary()) == (self@, Err::<(), Error>(e)));
                return Err(e);
            },
        };
        let prev_epoch_id = prev.epoch_id;
        if !header.epoch_id.same(&prev_epoch_id) && !prev.last_final_block.is_default() {
            let made = self.create_light_client_block(&prev);
            let ghost answer = made;
            let light_client_block = match made {
                Ok(light_client_block) => light_client_block,
                Err(e) => {
                    assert(epoch_end_outcome(old(self)@, *header, answer) == (
                        self@,
                        Err::<(), Error>(e),
                    ));
                    return Err(e);
                },
            };
            self.chain_store_update.save_record(
                RecordKey::EpochLightClientBlock { epoch: prev_epoch_id.0 },
                Record::EpochLightClientBlock(light_client_block),
            );
            assert(epoch_end_outcome(old(self)@, *header, answer) == (self@, Ok::<(), Error>(())));
        } else {
            assert(epoch_end_outcome(old(self)@, *header, arbitrary()) == (self@, Ok::<(), Error>(())));
        }
        Ok(())
    }

    /// Asks the epoch manager for the shard layout after the predecessor of a
    /// block that became the head, and sets the gauges of the layout.
    fn refresh_shard_layout_gauges(&mut self, header: &BlockHeader) -> (r: Result<(), Error>)
        requires
            old(self)@.get_block_header(header.prev_hash) is Ok,
        ensures
            final(self).only_staged_and_gauged_since(*old(self)),
            final(self)@ == old(self)@,
            exists|shard_layout: Result<ShardLayout, Error>|
                old(self).epoch_manager.shard_layout_from_prev_block_answer(
                    old(self)@.get_block_header(header.prev_hash)->Ok_0.hash,
                    shard_layout,
                ) && match #[trigger] layout_refreshed(shard_layout) {
                    Ok(layout) => r is Ok && final(self).gauges == old(self).gauges.shard_layout_is(
                        layout,
                    ),
                    Err(e) => r == Err::<(), Error>(e) && final(self).gauges == old(self).gauges,
                },
    {
        let prev = match self.chain_store_update.get_previous_header(header) {
            Ok(prev) => prev,
            Err(e) => {
                return Err(e);
            },
        };
        let asked = self.epoch_manager.get_shard_layout_from_prev_block(&prev.hash);
        let ghost answer = asked;
        match asked {
            Ok(layout) => {
                self.gauges.set_shard_layout(&layout);
                assert(layout_refreshed(answer) == Ok::<ShardLayout, Error>(layout));
                Ok(())
            },
            Err(e) => {
                assert(layout_refreshed(answer) == Err::<ShardLayout, Error>(e));
                Err(e)
            },
        }
    }

    /// The last step of processing a block: the results of applying its chunks
    /// and what was learned of it beforehand are staged, and the tips are
    /// brought up. A shard that failed fails the block before anything is
    /// staged. Where the head moves to the block, the gauges of the shard
    /// layout are set anew. Gives the tip that the head moved to, if it moved.
    pub fn postprocess_block(
        &mut self,
        block: &Block,
        block_preprocess_info: BlockPreprocessInfo,
        apply_chunks_results: Vec<(ShardId, Result<ShardUpdateResult, Error>)>,
        should_save_state_transition_data: bool,
    ) -> (r: Result<Option<Tip>, Error>)
        ensures
            final(self).only_staged_and_gauged_since(*old(self)),
            first_error(apply_chunks_results@) matches Some(e) ==> r == Err::<Option<Tip>, Error>(e)
                && final(self)@ == old(self)@ && final(self).gauges == old(self).gauges,
            first_error(apply_chunks_results@) is None ==> (r is Err && exists|
                k: nat,
                answers: Seq<ShardAnswers>,
            |
                k < apply_chunks_results@.len() && shards_asked(
                    old(self).epoch_manager,
                    old(self).runtime_adapter,
                    block.header,
                    shard_results(apply_chunks_results@).take(k as int),
                    answers,
                ) && #[trigger] shards_staged(
                    old(self)@,
                    block.header,
                    shard_results(apply_chunks_results@),
                    should_save_state_transition_data,
                    answers,
                    k,
                ) == Some(final(self)@) && final(self).gauges == old(self).gauges) || exists|
                answers: BlockAnswers,
            |
                block_asked(
                    old(self).epoch_manager,
                    old(self).runtime_adapter,
                    old(self)@,
                    block@,
                    shard_results(apply_chunks_results@),
                    block_preprocess_info,
                    should_save_state_transition_data,
                    answers,
                ) && #[trigger] block_outcome(
                    old(self)@,
                    block@,
                    shard_results(apply_chunks_results@),
                    block_preprocess_info,
                    should_save_state_transition_data,
                    answers,
                ) == Some((final(self)@, r)) && final(self).gauges == block_gauges(
                    old(self).gauges,
                    old(self)@,
                    block@,
                    shard_results(apply_chunks_results@),
                    block_preprocess_info,
                    should_save_state_transition_data,
                    answers,
                ),
    {
        let results = collect_results(apply_chunks_results)?;
        let ghost given = results@;
        self.apply_chunk_postprocessing(block, results, should_save_state_transition_data)?;
        let ghost with_shards = self@;
        let ghost shards = choose|answers: Seq<ShardAnswers>|
            shards_asked(
                old(self).epoch_manager,
                old(self).runtime_adapter,
                block.header,
                given,
                answers,
            ) && #[trigger] shards_staged(
                old(self)@,
                block.header,
                given,
                should_save_state_transition_data,
                answers,
                given.len(),
            ) == Some(with_shards);
        let ghost mut answers = BlockAnswers {
            shards,
            validator_proposals: arbitrary(),
            light_client_block: arbitrary(),
            shard_layout: arbitrary(),
        };

        if let Err(e) = self.record_block(&block.header, block_preprocess_info) {
            proof {
                self.lemma_block_answered(
                    *old(self),
                    block@,
                    given,
                    block_preprocess_info,
                    should_save_state_transition_data,
                    answers,
                    Err(e),
                );
            }
            return Err(e);
        }

        // If block checks out, record validator proposals for given block.
        let last_finalized_height = match self.last_finalized_height(&block.header) {
            Ok(height) => height,
            Err(e) => {
                proof {
                    self.lemma_block_answered(
                        *old(self),
                        block@,
                        given,
                        block_preprocess_info,
                        should_save_state_transition_data,
                        answers,
                        Err(e),
                    );
                }
                return Err(e);
            },
        };
        let told = self.epoch_manager.add_validator_proposals(
            BlockHeaderInfo::new(&block.header, last_finalized_height, &block.validator_proposals),
        );
        proof {
            answers = BlockAnswers { validator_proposals: told, ..answers };
        }
        let epoch_manager_update = match told {
            Ok(update) => update,
            Err(e) => {
                proof {
                    self.lemma_block_answered(
                        *old(self),
                        block@,
                        given,
                        block_preprocess_info,
                        should_save_state_transition_data,
                        answers,
                        Err(e),
                    );
                }
                return Err(e);
            },
        };

        let res = match self.save_block_and_update_head(block, epoch_manager_update) {
            Ok(res) => res,
            Err(e) => {
                proof {
                    self.lemma_block_answered(
                        *old(self),
                        block@,
                        given,
                        block_preprocess_info,
                        should_save_state_transition_data,
                        answers,
                        Err(e),
                    );
                }
                return Err(e);
            },
        };
        let ghost saved = self@;

        if res.is_some() {
            // On the epoch switch record the epoch light client block.
            let ended = self.stage_epoch_end(&block.header);
            proof {
                let light_client_block = choose|
                    light_client_block: Result<LightClientBlockView, Error>,
                |
                    epoch_end_asked(
                        old(self).epoch_manager,
                        saved,
                        block.header,
                        light_client_block,
                    ) && #[trigger] epoch_end_outcome(saved, block.header, light_client_block) == (
                        self@,
                        ended,
                    );
                answers = BlockAnswers { light_client_block, ..answers };
            }
            if let Err(e) = ended {
                proof {
                    self.lemma_block_answered(
                        *old(self),
                        block@,
                        given,
                        block_preprocess_info,
                        should_save_state_transition_data,
                        answers,
                        Err(e),
                    );
                }
                return Err(e);
            }
            let ghost gauges_before = self.gauges;
            let refreshed = self.refresh_shard_layout_gauges(&block.header);
            proof {
                let shard_layout = choose|shard_layout: Result<ShardLayout, Error>|
                    old(self).epoch_manager.shard_layout_from_prev_block_answer(
                        saved.get_block_header(block.header.prev_hash)->Ok_0.hash,
                        shard_layout,
                    ) && match #[trigger] layout_refreshed(shard_layout) {
                        Ok(layout) => refreshed is Ok && self.gauges
                            == gauges_before.shard_layout_is(layout),
                        Err(e) => refreshed == Err::<(), Error>(e) && self.gauges == gauges_before,
                    };
                answers = BlockAnswers { shard_layout, ..answers };
            }
            if let Err(e) = refreshed {
                proof {
                    self.lemma_block_answered(
                        *old(self),
                        block@,
                        given,
                        block_preprocess_info,
                        should_save_state_transition_data,
                        answers,
                        Err(e),
                    );
                }
                return Err(e);
            }
        }
        proof {
            self.lemma_block_answered(
                *old(self),
                block@,
                given,
                block_preprocess_info,
                should_save_state_transition_data,
                answers,
                Ok(res),
            );
        }
        Ok(res)
    }

    /// Answers that are as asked and lead to the store and the result at hand
    /// are answers as the contract of `postprocess_block` asks for them.
    proof fn lemma_block_answered(
        self,
        before: Self,
        block: BlockView,
        results: Seq<ShardUpdateResult>,
        info: BlockPreprocessInfo,
        save_state_transition_data: bool,
        answers: BlockAnswers,
        r: Result<Option<Tip>, Error>,
    )
        requires
            block_asked(
                before.epoch_manager,
                before.runtime_adapter,
                before@,
                block,
                results,
                info,
                save_state_transition_data,
                answers,
            ),
            block_outcome(before@, block, results, info, save_state_transition_data, answers) == Some(
                (self@, r),
            ),
            self.gauges == block_gauges(
                before.gauges,
                before@,
                block,
                results,
                info,
                save_state_transition_data,
                answers,
            ),
        ensures
            exists|answers: BlockAnswers|
                block_asked(
                    before.epoch_manager,
                    before.runtime_adapter,
                    before@,
                    block,
                    results,
                    info,
                    save_state_transition_data,
                    answers,
                ) && #[trigger] block_outcome(
                    before@,
                    block,
                    results,
                    info,
                    save_state_transition_data,
                    answers,
                ) == Some((self@, r)) && self.gauges == block_gauges(
                    before.gauges,
                    before@,
                    block,
                    results,
                    info,
                    save_state_transition_data,
                    answers,
                ),
    {
    }

    /// The light client block of the epoch that ends with `header`. The link
    /// from the predecessor of `header` to `header` is staged first, since it
    /// may not be set yet.
    pub fn create_light_client_block(&mut self, header: &BlockHeader) -> (r: Result<
        LightClientBlockView,
        Error,
    >)
        ensures
            final(self).only_staged_since(*old(self)),
            final(self)@ == old(self)@.save_next_block_hash(header.prev_hash, header.hash),
            old(self).epoch_manager.light_client_block_answer(*header, final(self)@, r),
    {
        // First update the last next_block, since it might not be set yet
        self.chain_store_update.save_next_block_hash(&header.prev_hash, header.hash);

        self.epoch_manager.create_light_client_block(header, &self.chain_store_update)
    }

    /// Checks the approvals of a header whose predecessor is not known yet. A
    /// header that does not record the height of its predecessor is let through.
    pub fn verify_orphan_header_approvals(&mut self, header: &BlockHeader, approvals: &Vec<u8>) -> (r:
        Result<(), Error>)
        ensures
            final(self).only_staged_since(*old(self)),
            final(self)@ == old(self)@,
            match header.prev_height {
                None => r is Ok,
                Some(prev_height) => old(self).epoch_manager.orphan_approvals_answer(
                    header.epoch_id,
                    old(self).doomslug_threshold_mode,
                    header.prev_hash,
                    prev_height,
                    header.height,
                    approvals@,
                    r,
                ),
            },
    {
        let prev_hash = header.prev_hash;
        let prev_height = match header.prev_height {
            None => {
                // this will accept orphans of the first header versions
                return Ok(());
            },
            Some(prev_height) => prev_height,
        };
        let height = header.height;
        let epoch_id = header.epoch_id;
        self.epoch_manager.verify_approvals_and_threshold_orphan(
            &epoch_id,
            self.doomslug_threshold_mode,
            &prev_hash,
            prev_height,
            height,
            approvals,
        )
    }
}

/// What the epoch manager answered when it was asked for a shard layout.
pub open spec fn layout_refreshed(answer: Result<ShardLayout, Error>) -> Result<ShardLayout, Error> {
    answer
}

/// Once a block cannot be marked, the failure stands whatever follows.
proof fn lemma_challenges_stop(
    store: StoreView,
    challenged: Seq<CryptoHash>,
    challenger: CryptoHash,
    k: nat,
    n: nat,
)
    requires
        k <= n,
        challenges_staged(store, challenged, challenger, k).1 is Err,
    ensures
        challenges_staged(store, challenged, challenger, n) == challenges_staged(
            store,
            challenged,
            challenger,
            k,
        ),
    decreases n - k,
{
    if k < n {
        lemma_challenges_stop(store, challenged, challenger, k, (n - 1) as nat);
    }
}

/// The results of the shards, or the first failure among them.
pub fn collect_results(apply_chunks_results: Vec<(ShardId, Result<ShardUpdateResult, Error>)>) -> (r:
    Result<Vec<ShardUpdateResult>, Error>)
    ensures
        match first_error(apply_chunks_results@) {
            Some(e) => r == Err::<Vec<ShardUpdateResult>, Error>(e),
            None => r is Ok && r->Ok_0@ == shard_results(apply_chunks_results@),
        },
{
    let ghost all = apply_chunks_results@;
    let n: usize = apply_chunks_results.len();
    let mut rest = apply_chunks_results;
    let mut results: Vec<ShardUpdateResult> = Vec::new();
    let mut i: usize = 0;
    assert(all.skip(0) =~= all);
    assert(shard_results(all).take(0) =~= Seq::<ShardUpdateResult>::empty());
    while i < n
        invariant
            i <= n,
            n == all.len(),
            all == apply_chunks_results@,
            rest@ == all.skip(i as int),
            first_error(all) == first_error(rest@),
            results@ == shard_results(all).take(i as int),
        decreases n - i,
    {
        let ghost before = rest@;
        let (_, result) = rest.remove(0);
        assert(before[0].1 == result);
        assert(before.drop_first() =~= rest@);
        assert(rest@ =~= all.skip(i + 1));
        match result {
            Err(e) => {
                return Err(e);
            },
            Ok(result) => {
                assert(shard_results(all).take(i + 1) =~= shard_results(all).take(i as int).push(
                    result,
                ));
                results.push(result);
            },
        }
        i += 1;
    }
    assert(shard_results(all).take(n as int) =~= shard_results(all));
    Ok(results)
}

} // verus!
