//! Which block each of the three tips points at.
//!
//! A tip moves forward when a block is higher than the tip. It moves back only
//! when a block of the canonical chain is proven invalid.

use vstd::prelude::*;
use crate::error::{Error, Missing};
use crate::hash::CryptoHash;
use crate::store::StoreView;
use crate::types::{BlockHeader, Tip};

verus! {

/// The header head after a header is accepted: it moves to the header where
/// the header is higher, and stays otherwise. The move is refused for a
/// challenged block, and nothing can be decided without a header head.
pub open spec fn update_header_head(store: StoreView, header: BlockHeader) -> (
    StoreView,
    Result<Option<Tip>, Error>,
) {
    match store.header_head {
        None => (store, Err(Error::DBNotFound(Missing::HeaderHead))),
        Some(header_head) => {
            if header.height > header_head.height {
                let tip = Tip::spec_from_header(header);
                let (moved, done) = store.save_header_head_if_not_challenged(tip);
                match done {
                    Ok(_) => (moved, Ok(Some(tip))),
                    Err(e) => (store, Err(e)),
                }
            } else {
                (store, Ok(None))
            }
        },
    }
}

/// The final head after a block is accepted: it moves to the block that the
/// new block names as last final, where that block is known and higher.
pub open spec fn update_final_head(store: StoreView, header: BlockHeader) -> (
    StoreView,
    Result<Option<Tip>, Error>,
) {
    match store.final_head {
        None => (store, Err(Error::DBNotFound(Missing::FinalHead))),
        Some(final_head) => {
            match store.get_block_header(header.last_final_block) {
                Err(_) => (store, Ok(None)),
                Ok(last_final) => {
                    if last_final.height > final_head.height {
                        let tip = Tip::spec_from_header(last_final);
                        (store.save_final_head(tip), Ok(Some(tip)))
                    } else {
                        (store, Ok(None))
                    }
                },
            }
        },
    }
}

/// The head after a block is accepted and applied: first the final head is
/// brought up, then the head moves to the block where the block is higher.
pub open spec fn update_head(store: StoreView, header: BlockHeader) -> (
    StoreView,
    Result<Option<Tip>, Error>,
) {
    let (with_final, final_moved) = update_final_head(store, header);
    match final_moved {
        Err(e) => (with_final, Err(e)),
        Ok(_) => {
            match with_final.head {
                None => (with_final, Err(Error::DBNotFound(Missing::Head))),
                Some(head) => {
                    if header.height > head.height {
                        let tip = Tip::spec_from_header(header);
                        let (moved, done) = with_final.save_body_head(tip);
                        match done {
                            Ok(_) => (moved, Ok(Some(tip))),
                            Err(e) => (with_final, Err(e)),
                        }
                    } else {
                        (with_final, Ok(None))
                    }
                },
            }
        },
    }
}

/// The block that becomes the head when a block of the canonical chain is
/// proven invalid: the challenger where there is one and it is higher than the
/// predecessor of the invalid block, the predecessor otherwise.
pub open spec fn head_after_challenge(prev: BlockHeader, challenger: Option<BlockHeader>) -> BlockHeader {
    match challenger {
        Some(c) => if c.height > prev.height {
            c
        } else {
            prev
        },
        None => prev,
    }
}

/// The store after a block is proven invalid. The block is marked, with the
/// block that carried the proof. Where it was
/// the canonical block at its height, head and header head move to
/// `head_after_challenge`, and the final head to the block that the new head
/// names as last final.
pub open spec fn mark_block_as_challenged(
    store: StoreView,
    block_hash: CryptoHash,
    challenger_hash: Option<CryptoHash>,
) -> (StoreView, Result<(), Error>) {
    let marked = store.save_challenged_block(block_hash, challenger_hash);
    match store.get_block_header(block_hash) {
        Err(_) => (marked, Ok(())),
        Ok(header) => {
            if store.get_block_hash_by_height(header.height) != Ok::<CryptoHash, Error>(block_hash) {
                (marked, Ok(()))
            } else {
                match marked.get_block_header(header.prev_hash) {
                    Err(e) => (marked, Err(e)),
                    Ok(prev) => {
                        let challenger = match challenger_hash {
                            Some(hash) => match marked.get_block_header(hash) {
                                Ok(c) => Ok(Some(c)),
                                Err(e) => Err(e),
                            },
                            None => Ok(None),
                        };
                        match challenger {
                            Err(e) => (marked, Err(e)),
                            Ok(challenger) => {
                                let new_head = head_after_challenge(prev, challenger);
                                let (moved, done) = marked.save_head(Tip::spec_from_header(new_head));
                                match done {
                                    Err(e) => (marked, Err(e)),
                                    Ok(_) => match moved.get_block_header(
                                        new_head.last_final_block,
                                    ) {
                                        Err(e) => (moved, Err(e)),
                                        Ok(last_final) => (
                                            moved.save_final_head(Tip::spec_from_header(last_final)),
                                            Ok(()),
                                        ),
                                    },
                                }
                            },
                        }
                    },
                }
            }
        },
    }
}

/// `after` is no lower than `before`, and set where `before` is.
pub open spec fn not_lower(before: Option<Tip>, after: Option<Tip>) -> bool {
    match before {
        Some(b) => after is Some && after->Some_0.height >= b.height,
        None => true,
    }
}

/// The final head is no higher than the head, where both are set.
pub open spec fn final_within_head(store: StoreView) -> bool {
    store.final_head is Some && store.head is Some ==> store.final_head->Some_0.height
        <= store.head->Some_0.height
}

/// The block that `header` names as last final, where the store knows it, is
/// no higher than `header`: it is the header itself or one of its ancestors.
pub open spec fn last_final_within(store: StoreView, header: BlockHeader) -> bool {
    store.headers.contains_key(header.last_final_block) ==> store.headers[header.last_final_block].height
        <= header.height
}

/// An update of the tips that is no challenge.
pub enum TipUpdate {
    /// A header was accepted.
    Header(BlockHeader),
    /// A block was accepted and applied.
    Block(BlockHeader),
}

/// The store after one update of the tips is committed. An update that fails
/// is not committed and leaves the store as it was.
pub open spec fn step(store: StoreView, update: TipUpdate) -> StoreView {
    let (after, done) = match update {
        TipUpdate::Header(header) => update_header_head(store, header),
        TipUpdate::Block(header) => update_head(store, header),
    };
    if done is Ok {
        after
    } else {
        store
    }
}

/// The store after a sequence of updates of the tips.
pub open spec fn run(store: StoreView, updates: Seq<TipUpdate>) -> StoreView
    decreases updates.len(),
{
    if updates.len() == 0 {
        store
    } else {
        step(run(store, updates.drop_last()), updates.last())
    }
}

/// Whether every block of the updates names a last final block that is no
/// higher than itself. The headers of a store never change once saved, and the
/// updates save none, so this is asked of the store at the start.
pub open spec fn last_finals_within(store: StoreView, updates: Seq<TipUpdate>) -> bool {
    forall|i: int|
        0 <= i < updates.len() ==> match #[trigger] updates[i] {
            TipUpdate::Block(header) => last_final_within(store, header),
            TipUpdate::Header(_) => true,
        }
}

/// One update that is no challenge moves no tip back, touches no header, and
/// keeps the final head within the head.
pub proof fn lemma_step_moves_forward(store: StoreView, update: TipUpdate)
    ensures
        not_lower(store.header_head, step(store, update).header_head),
        not_lower(store.head, step(store, update).head),
        not_lower(store.final_head, step(store, update).final_head),
        step(store, update).headers == store.headers,
        final_within_head(store) && (update matches TipUpdate::Block(header) ==> last_final_within(
            store,
            header,
        )) ==> final_within_head(step(store, update)),
{
}

/// No sequence of updates that are no challenges moves a tip back: the header
/// head, the head and the final head are each no lower after it than before.
pub proof fn lemma_tips_move_forward(store: StoreView, updates: Seq<TipUpdate>)
    ensures
        not_lower(store.header_head, run(store, updates).header_head),
        not_lower(store.head, run(store, updates).head),
        not_lower(store.final_head, run(store, updates).final_head),
        run(store, updates).headers == store.headers,
    decreases updates.len(),
{
    if updates.len() > 0 {
        lemma_tips_move_forward(store, updates.drop_last());
        lemma_step_moves_forward(run(store, updates.drop_last()), updates.last());
    }
}

/// The final head stays within the head over any sequence of updates that are
/// no challenges, where every block names a last final block no higher than
/// itself.
pub proof fn lemma_final_stays_within_head(store: StoreView, updates: Seq<TipUpdate>)
    requires
        final_within_head(store),
        last_finals_within(store, updates),
    ensures
        final_within_head(run(store, updates)),
    decreases updates.len(),
{
    if updates.len() > 0 {
        let front = updates.drop_last();
        assert forall|i: int| 0 <= i < front.len() implies match #[trigger] front[i] {
            TipUpdate::Block(header) => last_final_within(store, header),
            TipUpdate::Header(_) => true,
        } by {
            assert(front[i] == updates[i]);
        }
        lemma_final_stays_within_head(store, front);
        lemma_tips_move_forward(store, front);
        assert(updates.last() == updates[updates.len() - 1]);
        lemma_step_moves_forward(run(store, front), updates.last());
    }
}

/// A header that is not above the header head leaves the store as it is and
/// moves nothing.
pub proof fn lemma_low_header_moves_nothing(store: StoreView, header: BlockHeader)
    requires
        store.header_head is Some,
        header.height <= store.header_head->Some_0.height,
    ensures
        update_header_head(store, header) == (store, Ok::<Option<Tip>, Error>(None)),
{
}

/// Marking a block that the store does not know moves no tip and records the
/// mark.
pub proof fn lemma_challenge_of_unknown_block(
    store: StoreView,
    block_hash: CryptoHash,
    challenger_hash: Option<CryptoHash>,
)
    requires
        !store.headers.contains_key(block_hash),
    ensures
        mark_block_as_challenged(store, block_hash, challenger_hash).1 is Ok,
        mark_block_as_challenged(store, block_hash, challenger_hash).0
            == store.save_challenged_block(block_hash, challenger_hash),
        mark_block_as_challenged(store, block_hash, challenger_hash).0.head == store.head,
        mark_block_as_challenged(store, block_hash, challenger_hash).0.header_head
            == store.header_head,
        mark_block_as_challenged(store, block_hash, challenger_hash).0.final_head
            == store.final_head,
        mark_block_as_challenged(store, block_hash, challenger_hash).0.challenged_blocks.contains_key(
            block_hash,
        ),
{
}

/// Marking a block of the canonical chain, where it succeeds, moves the head:
/// to the challenger where there is one and it is strictly higher than the
/// predecessor of the marked block, to the predecessor otherwise. The header
/// head moves with it, and the final head goes to the block that the new head
/// names as last final.
pub proof fn lemma_challenge_of_canonical_block(
    store: StoreView,
    block_hash: CryptoHash,
    challenger_hash: Option<CryptoHash>,
)
    requires
        store.headers.contains_key(block_hash),
        store.get_block_hash_by_height(store.headers[block_hash].height) == Ok::<CryptoHash, Error>(
            block_hash,
        ),
        mark_block_as_challenged(store, block_hash, challenger_hash).1 is Ok,
    ensures
        ({
            let after = mark_block_as_challenged(store, block_hash, challenger_hash).0;
            let prev_hash = store.headers[block_hash].prev_hash;
            let higher_challenger = challenger_hash is Some && store.headers[challenger_hash->Some_0].height
                > store.headers[prev_hash].height;
            let new_head = if higher_challenger {
                store.headers[challenger_hash->Some_0]
            } else {
                store.headers[prev_hash]
            };
            &&& store.headers.contains_key(prev_hash)
            &&& challenger_hash is Some ==> store.headers.contains_key(challenger_hash->Some_0)
            &&& after.head == Some(Tip::spec_from_header(new_head))
            &&& after.header_head == Some(Tip::spec_from_header(new_head))
            &&& store.headers.contains_key(new_head.last_final_block)
            &&& after.final_head == Some(
                Tip::spec_from_header(store.headers[new_head.last_final_block]),
            )
            &&& after.challenged_blocks.contains_key(block_hash)
        }),
{
}

} // verus!
