//! How the checkpoint of a shard that splits is shared among its children.
//!
//! The children are taken in the order of their shard identities. Gas and
//! burnt balance are split evenly; what does not divide goes, one unit each, to
//! the first children in that order. Each proposal goes to the child that owns
//! its account under the next epoch's layout.

use vstd::prelude::*;
use vstd::relations::{sorted_by, total_ordering};
use vstd::seq_lib::{lemma_sorted_unique, to_multiset_insert};
use near_primitives::shard_layout::ShardLayout;
use near_primitives::types::validator_stake::ValidatorStake;
use crate::adapters::{EpochManagerAdapter, RuntimeAdapter};
use crate::error::{Defect, Error};
use crate::hash::{CryptoHash, EpochId};
use crate::records::{Record, RecordKey, StoreUpdate};
use crate::results::ReshardingResults;
use crate::shard::{
    account_id_to_shard_uid,
    children_shard_ids,
    layout_children,
    layout_num_shards,
    num_shards,
    proposal_shard,
    ShardId,
    ShardUId,
};
use crate::store::{ChainStoreUpdate, StoreView};
use crate::types::{
    congestion_control_enabled,
    Balance,
    BlockHeader,
    ChunkExtra,
    ChunkExtraView,
    Gas,
    ProtocolVersion,
    CONGESTION_CONTROL_VERSION,
};

verus! {

/// The changes that applying a chunk made to a shard's state.
#[derive(Debug, PartialEq, Eq)]
pub struct TrieChanges {
    /// The key-value changes, encoded: what flat storage indexes.
    pub state_changes: Vec<u8>,
    /// The changes to the nodes of the trie, encoded.
    pub node_changes: Vec<u8>,
}

/// The state of one child shard after its share of the parent's changes.
#[derive(Debug, PartialEq, Eq)]
pub struct ApplyResultForResharding {
    pub shard_uid: ShardUId,
    pub trie_changes: TrieChanges,
    pub new_root: CryptoHash,
}

/// The share of child `i` when `total` is split among `n` children: the
/// quotient, and one more for the first `total % n` children.
pub open spec fn share(total: nat, n: nat, i: nat) -> nat {
    total / n + if i < total % n {
        1nat
    } else {
        0nat
    }
}

/// The shares of the first `k` children, added up.
pub open spec fn shares_sum(total: nat, n: nat, k: nat) -> nat
    decreases k,
{
    if k == 0 {
        0
    } else {
        shares_sum(total, n, (k - 1) as nat) + share(total, n, (k - 1) as nat)
    }
}

/// The first `k` shares add up to `k` quotients and as many units of the
/// remainder as there are children among the first `k` that get one.
pub proof fn lemma_shares_sum_prefix(total: nat, n: nat, k: nat)
    requires
        n >= 1,
    ensures
        shares_sum(total, n, k) == k * (total / n) + if k < total % n {
            k
        } else {
            total % n
        },
    decreases k,
{
    if k > 0 {
        let q = total / n;
        let before = (k - 1) as nat;
        lemma_shares_sum_prefix(total, n, before);
        assert(k * q == before * q + q) by (nonlinear_arith)
            requires
                before + 1 == k,
        ;
    } else {
        assert(k * (total / n) == 0) by (nonlinear_arith)
            requires
                k == 0,
        ;
    }
}

/// Nothing is lost in a split: the shares of all `n` children add up to the total.
pub proof fn lemma_shares_sum_total(total: nat, n: nat)
    requires
        n >= 1,
    ensures
        shares_sum(total, n, n) == total,
{
    lemma_shares_sum_prefix(total, n, n);
    assert(total == n * (total / n) + total % n) by (nonlinear_arith)
        requires
            n >= 1,
    ;
    assert(total % n < n) by (nonlinear_arith)
        requires
            n >= 1,
    ;
}

/// No share is larger than the total.
pub proof fn lemma_share_bounded(total: nat, n: nat, i: nat)
    requires
        n >= 1,
    ensures
        share(total, n, i) <= total,
{
    assert(total == n * (total / n) + total % n) by (nonlinear_arith)
        requires
            n >= 1,
    ;
    assert(n * (total / n) >= total / n) by (nonlinear_arith)
        requires
            n >= 1,
    ;
    if i < total % n {
        if n == 1 {
            assert(total % n < n) by (nonlinear_arith)
                requires
                    n >= 1,
            ;
        } else {
            assert(n * (total / n) >= 2 * (total / n)) by (nonlinear_arith)
                requires
                    n >= 2,
            ;
            if total / n == 0 {
            }
        }
    }
}

/// The gas that child `i` of `n` is charged with.
pub fn gas_share(total: Gas, n: u64, i: u64) -> (r: Gas)
    requires
        n >= 1,
    ensures
        r == share(total as nat, n as nat, i as nat),
{
    proof {
        lemma_share_bounded(total as nat, n as nat, i as nat);
    }
    let quotient: u64 = total / n;
    if i < total % n {
        quotient + 1
    } else {
        quotient
    }
}

/// The burnt balance that child `i` of `n` is charged with.
pub fn balance_share(total: Balance, n: u64, i: u64) -> (r: Balance)
    requires
        n >= 1,
    ensures
        r == share(total as nat, n as nat, i as nat),
{
    proof {
        lemma_share_bounded(total as nat, n as nat, i as nat);
    }
    let quotient: u128 = total / (n as u128);
    if (i as u128) < total % (n as u128) {
        quotient + 1
    } else {
        quotient
    }
}

/// The shard identities of a list of child results, in its order.
pub open spec fn shard_uids(results: Seq<ApplyResultForResharding>) -> Seq<ShardUId> {
    results.map_values(|r: ApplyResultForResharding| r.shard_uid)
}

/// Where a shard identity goes into an ordered list: behind the last one that
/// is not larger.
pub open spec fn insert_pos(uids: Seq<ShardUId>, uid: ShardUId) -> int
    decreases uids.len(),
{
    if uids.len() == 0 {
        0
    } else if uids.last().spec_le(uid) {
        uids.len() as int
    } else {
        insert_pos(uids.drop_last(), uid)
    }
}

/// Shard identities in order. Equal ones keep the order they came in.
pub open spec fn sorted_uids(uids: Seq<ShardUId>) -> Seq<ShardUId>
    decreases uids.len(),
{
    if uids.len() == 0 {
        uids
    } else {
        let front = sorted_uids(uids.drop_last());
        front.insert(insert_pos(front, uids.last()), uids.last())
    }
}

/// Child results in the order of their shard identities. Results of one shard
/// keep the order they came in.
pub open spec fn sorted_by_shard(results: Seq<ApplyResultForResharding>) -> Seq<
    ApplyResultForResharding,
>
    decreases results.len(),
{
    if results.len() == 0 {
        results
    } else {
        let front = sorted_by_shard(results.drop_last());
        front.insert(insert_pos(shard_uids(front), results.last().shard_uid), results.last())
    }
}

/// The order of shard identities as a relation.
pub open spec fn uid_le() -> spec_fn(ShardUId, ShardUId) -> bool {
    |a: ShardUId, b: ShardUId| a.spec_le(b)
}

/// Shard identities are totally ordered.
pub proof fn lemma_uid_order_total()
    ensures
        total_ordering(uid_le()),
{
    let le = uid_le();
    assert forall|a: ShardUId, b: ShardUId| #[trigger] le(a, b) && le(b, a) implies a == b by {}
    assert forall|a: ShardUId, b: ShardUId, c: ShardUId| #[trigger]
        le(a, b) && #[trigger] le(b, c) implies le(a, c) by {}
    assert forall|a: ShardUId, b: ShardUId| #[trigger] le(a, b) || #[trigger] le(b, a) by {}
    assert forall|a: ShardUId| #[trigger] le(a, a) by {}
}

/// The place found by `insert_pos` parts the list: up to it nothing larger
/// than `uid` directly before it, from it on only larger ones.
pub proof fn lemma_insert_pos(uids: Seq<ShardUId>, uid: ShardUId)
    ensures
        0 <= insert_pos(uids, uid) <= uids.len(),
        insert_pos(uids, uid) > 0 ==> uids[insert_pos(uids, uid) - 1].spec_le(uid),
        forall|j: int| insert_pos(uids, uid) <= j < uids.len() ==> !(#[trigger] uids[j]).spec_le(uid),
    decreases uids.len(),
{
    if uids.len() > 0 && !uids.last().spec_le(uid) {
        let front = uids.drop_last();
        lemma_insert_pos(front, uid);
        assert forall|j: int| insert_pos(uids, uid) <= j < uids.len() implies !(
        #[trigger] uids[j]).spec_le(uid) by {
            if j < front.len() {
                assert(uids[j] == front[j]);
            }
        }
    }
}

/// `sorted_uids` gives an ordered list of the same identities.
pub proof fn lemma_sorted_uids(uids: Seq<ShardUId>)
    ensures
        sorted_uids(uids).len() == uids.len(),
        sorted_by(sorted_uids(uids), uid_le()),
        sorted_uids(uids).to_multiset() == uids.to_multiset(),
    decreases uids.len(),
{
    if uids.len() > 0 {
        let front = sorted_uids(uids.drop_last());
        let x = uids.last();
        let p = insert_pos(front, x);
        lemma_sorted_uids(uids.drop_last());
        lemma_insert_pos(front, x);
        let out = front.insert(p, x);
        assert forall|i: int, j: int| 0 <= i < j < out.len() implies uid_le()(out[i], out[j]) by {
            if j < p {
                assert(uid_le()(front[i], front[j]));
            } else if j == p {
                assert(uid_le()(front[i], front[p - 1]) || i == p - 1);
            } else if i < p {
                assert(uid_le()(front[i], front[j - 1]));
            } else if i == p {
                assert(!front[j - 1].spec_le(x));
            } else {
                assert(uid_le()(front[i - 1], front[j - 1]));
            }
        }
        to_multiset_insert(front, p, x);
        assert(uids =~= uids.drop_last().push(x));
        vstd::seq_lib::to_multiset_build(uids.drop_last(), x);
    }
}

/// Sorting the results and reading off the shard identities is sorting the
/// shard identities.
pub proof fn lemma_sorted_by_shard_uids(results: Seq<ApplyResultForResharding>)
    ensures
        sorted_by_shard(results).len() == results.len(),
        shard_uids(sorted_by_shard(results)) == sorted_uids(shard_uids(results)),
    decreases results.len(),
{
    if results.len() > 0 {
        let front = sorted_by_shard(results.drop_last());
        lemma_sorted_by_shard_uids(results.drop_last());
        assert(shard_uids(results).drop_last() =~= shard_uids(results.drop_last()));
        let p = insert_pos(shard_uids(front), results.last().shard_uid);
        lemma_insert_pos(shard_uids(front), results.last().shard_uid);
        assert(shard_uids(front.insert(p, results.last())) =~= shard_uids(front).insert(
            p,
            results.last().shard_uid,
        ));
    } else {
        assert(shard_uids(results) =~= Seq::<ShardUId>::empty());
    }
}

/// Sorting keeps every result.
pub proof fn lemma_sorted_by_shard_keeps(results: Seq<ApplyResultForResharding>)
    ensures
        sorted_by_shard(results).to_multiset() == results.to_multiset(),
    decreases results.len(),
{
    if results.len() > 0 {
        let front = sorted_by_shard(results.drop_last());
        lemma_sorted_by_shard_keeps(results.drop_last());
        lemma_sorted_by_shard_uids(results.drop_last());
        let p = insert_pos(shard_uids(front), results.last().shard_uid);
        lemma_insert_pos(shard_uids(front), results.last().shard_uid);
        to_multiset_insert(front, p, results.last());
        assert(results =~= results.drop_last().push(results.last()));
        vstd::seq_lib::to_multiset_build(results.drop_last(), results.last());
    }
}

/// The order in which the children are taken does not depend on the order in
/// which their results came: two lists with the same shard identities, however
/// shuffled, have the same shard identity at every place once sorted. With
/// `share`, which goes by the place alone, every child is charged the same.
pub proof fn lemma_order_of_children_is_canonical(
    a: Seq<ApplyResultForResharding>,
    b: Seq<ApplyResultForResharding>,
)
    requires
        shard_uids(a).to_multiset() == shard_uids(b).to_multiset(),
    ensures
        shard_uids(sorted_by_shard(a)) == shard_uids(sorted_by_shard(b)),
{
    lemma_sorted_by_shard_uids(a);
    lemma_sorted_by_shard_uids(b);
    lemma_sorted_uids(shard_uids(a));
    lemma_sorted_uids(shard_uids(b));
    lemma_uid_order_total();
    lemma_sorted_unique(sorted_uids(shard_uids(a)), sorted_uids(shard_uids(b)), uid_le());
}

/// The place at which a result of shard `uid` goes into an ordered list.
fn find_insert_pos(sorted: &Vec<ApplyResultForResharding>, uid: &ShardUId) -> (j: usize)
    ensures
        j == insert_pos(shard_uids(sorted@), *uid),
{
    let ghost uids = shard_uids(sorted@);
    let mut j: usize = sorted.len();
    assert(uids.take(j as int) =~= uids);
    while j > 0 && !sorted[j - 1].shard_uid.le(uid)
        invariant
            j <= sorted.len(),
            uids == shard_uids(sorted@),
            insert_pos(uids, *uid) == insert_pos(uids.take(j as int), *uid),
        decreases j,
    {
        assert(uids.take(j as int).drop_last() =~= uids.take(j - 1));
        j -= 1;
    }
    j
}

/// Two lists of the same elements still have the same elements once one
/// property is read off each element.
proof fn lemma_map_keeps_elements<A, B>(s: Seq<A>, t: Seq<A>, f: spec_fn(A) -> B)
    requires
        s.to_multiset() == t.to_multiset(),
    ensures
        s.map_values(f).to_multiset() == t.map_values(f).to_multiset(),
    decreases s.len(),
{
    broadcast use vstd::multiset::group_multiset_axioms;

    vstd::seq_lib::to_multiset_len(s);
    vstd::seq_lib::to_multiset_len(t);
    if s.len() == 0 {
        assert(s.map_values(f) =~= t.map_values(f));
    } else {
        let x = s.last();
        let front = s.drop_last();
        assert(s =~= front.push(x));
        vstd::seq_lib::to_multiset_build(front, x);
        vstd::seq_lib::to_multiset_contains(t, x);
        assert(t.to_multiset().count(x) > 0);
        let j = choose|j: int| 0 <= j < t.len() && t[j] == x;
        let rest = t.remove(j);
        vstd::seq_lib::to_multiset_remove(t, j);
        assert(front.to_multiset() =~= rest.to_multiset());
        lemma_map_keeps_elements(front, rest, f);
        assert(s.map_values(f) =~= front.map_values(f).push(f(x)));
        assert(t.map_values(f) =~= rest.map_values(f).insert(j, f(x)));
        vstd::seq_lib::to_multiset_build(front.map_values(f), f(x));
        to_multiset_insert(rest.map_values(f), j, f(x));
    }
}

/// No two results are of one shard.
pub open spec fn distinct_shards(results: Seq<ApplyResultForResharding>) -> bool {
    forall|i: int, j: int|
        0 <= i < results.len() && 0 <= j < results.len() && i != j ==> results[i].shard_uid
            != results[j].shard_uid
}

/// The order in which the results of the children came does not matter: two
/// lists of the same results, however shuffled, are the same list once sorted,
/// where each child has one result. What is made of the sorted list, the
/// checkpoint of every child with its share, is then the same too.
pub proof fn lemma_shuffled_children_sort_alike(
    a: Seq<ApplyResultForResharding>,
    b: Seq<ApplyResultForResharding>,
)
    requires
        a.to_multiset() == b.to_multiset(),
        distinct_shards(a),
    ensures
        sorted_by_shard(a) == sorted_by_shard(b),
{
    broadcast use vstd::multiset::group_multiset_axioms;

    let uid = |r: ApplyResultForResharding| r.shard_uid;
    let sa = sorted_by_shard(a);
    let sb = sorted_by_shard(b);
    lemma_map_keeps_elements(a, b, uid);
    lemma_order_of_children_is_canonical(a, b);
    lemma_sorted_by_shard_keeps(a);
    lemma_sorted_by_shard_keeps(b);
    lemma_sorted_by_shard_uids(a);
    lemma_sorted_by_shard_uids(b);
    lemma_sorted_uids(shard_uids(a));
    // The shard identities of the sorted results are pairwise distinct.
    assert(shard_uids(a).no_duplicates());
    shard_uids(a).lemma_multiset_has_no_duplicates();
    shard_uids(sa).lemma_multiset_has_no_duplicates_conv();
    assert forall|i: int| 0 <= i < sa.len() implies sa[i] == sb[i] by {
        vstd::seq_lib::to_multiset_contains(sa, sa[i]);
        vstd::seq_lib::to_multiset_contains(sb, sa[i]);
        assert(sa.contains(sa[i]));
        let j = choose|j: int| 0 <= j < sb.len() && sb[j] == sa[i];
        assert(shard_uids(sb)[j] == shard_uids(sa)[i]);
        assert(shard_uids(sb)[i] == shard_uids(sa)[i]);
        if i != j {
            assert(shard_uids(sa)[j] == shard_uids(sa)[i]);
        }
    }
    assert(sa =~= sb);
}

/// Puts the child results in the order of their shard identities.
pub fn sort_by_shard_uid(results: &mut Vec<ApplyResultForResharding>)
    ensures
        final(results)@ == sorted_by_shard(old(results)@),
{
    let ghost input = results@;
    let n: usize = results.len();
    let mut out: Vec<ApplyResultForResharding> = Vec::new();
    let mut i: usize = 0;
    assert(input.take(0) =~= Seq::<ApplyResultForResharding>::empty());
    assert(input.skip(0) =~= input);
    while i < n
        invariant
            i <= n,
            n == input.len(),
            out@ == sorted_by_shard(input.take(i as int)),
            results@ == input.skip(i as int),
        decreases n - i,
    {
        let x = results.remove(0);
        let j = find_insert_pos(&out, &x.shard_uid);
        proof {
            lemma_insert_pos(shard_uids(out@), x.shard_uid);
            lemma_sorted_by_shard_uids(input.take(i as int));
            assert(input.take(i + 1).drop_last() =~= input.take(i as int));
            assert(results@ =~= input.skip(i + 1));
        }
        out.insert(j, x);
        i += 1;
    }
    assert(input.take(n as int) =~= input);
    *results = out;
}

/// Whether a proposal goes to the shard `uid` under `layout`.
pub open spec fn routed_to(layout: ShardLayout, uid: ShardUId) -> spec_fn(ValidatorStake) -> bool {
    |proposal: ValidatorStake| proposal_shard(proposal, layout) == uid
}

/// The proposals of the parent that child `i` takes over: those whose account
/// the child owns, in the parent's order. Where two results name one shard, the
/// first of them takes the proposals and the other none.
pub open spec fn child_proposals(
    proposals: Seq<ValidatorStake>,
    layout: ShardLayout,
    uids: Seq<ShardUId>,
    i: int,
) -> Seq<ValidatorStake> {
    if i > 0 && uids[i - 1] == uids[i] {
        Seq::empty()
    } else {
        proposals.filter(routed_to(layout, uids[i]))
    }
}

/// The checkpoint of child `i` of the children `sorted`: its own state root,
/// its share of the parent's gas and burnt balance, its part of the parent's
/// proposals, and the parent's outcome root and gas limit as they are.
pub open spec fn child_extra(
    parent: ChunkExtraView,
    layout: ShardLayout,
    sorted: Seq<ApplyResultForResharding>,
    i: int,
) -> ChunkExtraView {
    ChunkExtraView {
        state_root: sorted[i].new_root,
        outcome_root: parent.outcome_root,
        validator_proposals: child_proposals(
            parent.validator_proposals,
            layout,
            shard_uids(sorted),
            i,
        ),
        gas_used: share(parent.gas_used as nat, sorted.len(), i as nat) as u64,
        gas_limit: parent.gas_limit,
        balance_burnt: share(parent.balance_burnt as nat, sorted.len(), i as nat) as u128,
        congestion_info: None,
    }
}

/// The gas of the first `k` checkpoints, added up.
pub open spec fn gas_sum(extras: Seq<ChunkExtraView>, k: nat) -> nat
    decreases k,
{
    if k == 0 {
        0
    } else {
        gas_sum(extras, (k - 1) as nat) + extras[k - 1].gas_used as nat
    }
}

/// The burnt balance of the first `k` checkpoints, added up.
pub open spec fn balance_sum(extras: Seq<ChunkExtraView>, k: nat) -> nat
    decreases k,
{
    if k == 0 {
        0
    } else {
        balance_sum(extras, (k - 1) as nat) + extras[k - 1].balance_burnt as nat
    }
}

/// The checkpoints of all the children.
pub open spec fn child_extras(
    parent: ChunkExtraView,
    layout: ShardLayout,
    sorted: Seq<ApplyResultForResharding>,
) -> Seq<ChunkExtraView> {
    Seq::new(sorted.len(), |i: int| child_extra(parent, layout, sorted, i))
}

/// The first `k` children are charged what the first `k` shares add up to.
proof fn lemma_sums_are_shares(
    parent: ChunkExtraView,
    layout: ShardLayout,
    sorted: Seq<ApplyResultForResharding>,
    k: nat,
)
    requires
        k <= sorted.len(),
    ensures
        gas_sum(child_extras(parent, layout, sorted), k) == shares_sum(
            parent.gas_used as nat,
            sorted.len(),
            k,
        ),
        balance_sum(child_extras(parent, layout, sorted), k) == shares_sum(
            parent.balance_burnt as nat,
            sorted.len(),
            k,
        ),
    decreases k,
{
    if k > 0 {
        lemma_sums_are_shares(parent, layout, sorted, (k - 1) as nat);
        lemma_share_bounded(parent.gas_used as nat, sorted.len(), (k - 1) as nat);
        lemma_share_bounded(parent.balance_burnt as nat, sorted.len(), (k - 1) as nat);
    }
}

/// A split loses nothing and adds nothing: the gas of the children adds up to
/// the gas of the parent, and so does the burnt balance, for any number of
/// children from one on and any totals.
pub proof fn lemma_split_conserves(
    parent: ChunkExtraView,
    layout: ShardLayout,
    sorted: Seq<ApplyResultForResharding>,
)
    requires
        sorted.len() >= 1,
    ensures
        gas_sum(child_extras(parent, layout, sorted), sorted.len()) == parent.gas_used,
        balance_sum(child_extras(parent, layout, sorted), sorted.len()) == parent.balance_burnt,
{
    lemma_sums_are_shares(parent, layout, sorted, sorted.len());
    lemma_shares_sum_total(parent.gas_used as nat, sorted.len());
    lemma_shares_sum_total(parent.balance_burnt as nat, sorted.len());
}

/// Why the layout of the next epoch does not let `n_results` children take over
/// a parent, if it does not: it has no place for the parent's proposals, it
/// names no children of the parent, or it names another number of them.
pub open spec fn split_defect(
    parent: ChunkExtraView,
    layout: ShardLayout,
    parent_shard_id: ShardId,
    n_results: nat,
) -> Option<Defect> {
    if parent.validator_proposals.len() > 0 && layout_num_shards(layout) == 0 {
        Some(Defect::InvalidShardLayout)
    } else {
        match layout_children(layout, parent_shard_id) {
            None => Some(Defect::InvalidShardLayout),
            Some(children) => if children.len() == 0 {
                Some(Defect::InvalidShardLayout)
            } else if children.len() != n_results {
                Some(Defect::ChildResultCount)
            } else {
                None
            },
        }
    }
}

/// The shard of each proposal under `layout`, in the order of the proposals.
pub fn route_proposals(proposals: &Vec<ValidatorStake>, layout: &ShardLayout) -> (routes: Vec<
    ShardUId,
>)
    requires
        proposals.len() > 0 ==> layout_num_shards(*layout) > 0,
    ensures
        routes.len() == proposals.len(),
        forall|j: int|
            0 <= j < routes.len() ==> #[trigger] routes[j] == proposal_shard(proposals[j], *layout),
{
    let mut routes: Vec<ShardUId> = Vec::new();
    let mut j: usize = 0;
    while j < proposals.len()
        invariant
            j <= proposals.len(),
            proposals.len() > 0 ==> layout_num_shards(*layout) > 0,
            routes.len() == j,
            forall|k: int|
                0 <= k < j ==> #[trigger] routes[k] == proposal_shard(proposals[k], *layout),
        decreases proposals.len() - j,
    {
        routes.push(account_id_to_shard_uid(&proposals[j], layout));
        j += 1;
    }
    routes
}

/// Checks that the layout lets `n_results` children take over the parent, and
/// routes the parent's proposals.
pub fn check_split(
    parent: &ChunkExtra,
    layout: &ShardLayout,
    parent_shard_id: ShardId,
    n_results: usize,
) -> (r: Result<Vec<ShardUId>, Error>)
    ensures
        match split_defect(parent@, *layout, parent_shard_id, n_results as nat) {
            Some(defect) => r == Err::<Vec<ShardUId>, Error>(Error::InternalDefect(defect)),
            None => r is Ok && r->Ok_0.len() == parent.validator_proposals.len() && forall|j: int|
                0 <= j < r->Ok_0.len() ==> #[trigger] r->Ok_0[j] == proposal_shard(
                    parent.validator_proposals[j],
                    *layout,
                ),
        },
{
    if parent.validator_proposals.len() > 0 && num_shards(layout) == 0 {
        return Err(Error::InternalDefect(Defect::InvalidShardLayout));
    }
    let routes = route_proposals(&parent.validator_proposals, layout);
    let num_split_shards: usize = match children_shard_ids(layout, parent_shard_id) {
        Some(children) => children.len(),
        None => {
            return Err(Error::InternalDefect(Defect::InvalidShardLayout));
        },
    };
    if num_split_shards == 0 {
        return Err(Error::InternalDefect(Defect::InvalidShardLayout));
    }
    // The gas and balance distribution assumes that there is a result for every child.
    if num_split_shards != n_results {
        return Err(Error::InternalDefect(Defect::ChildResultCount));
    }
    Ok(routes)
}

/// The proposals that were routed to `uid`, in their order.
fn proposals_routed_to(
    proposals: &Vec<ValidatorStake>,
    routes: &Vec<ShardUId>,
    layout: &ShardLayout,
    uid: ShardUId,
) -> (out: Vec<ValidatorStake>)
    requires
        routes.len() == proposals.len(),
        forall|j: int|
            0 <= j < routes.len() ==> #[trigger] routes[j] == proposal_shard(proposals[j], *layout),
    ensures
        out@ == proposals@.filter(routed_to(*layout, uid)),
{
    let mut out: Vec<ValidatorStake> = Vec::new();
    let mut j: usize = 0;
    assert(proposals@.take(0) =~= Seq::<ValidatorStake>::empty());
    proof {
        reveal(Seq::filter);
    }
    while j < proposals.len()
        invariant
            j <= proposals.len(),
            routes.len() == proposals.len(),
            forall|k: int|
                0 <= k < routes.len() ==> #[trigger] routes[k] == proposal_shard(
                    proposals[k],
                    *layout,
                ),
            out@ == proposals@.take(j as int).filter(routed_to(*layout, uid)),
        decreases proposals.len() - j,
    {
        proof {
            let front = proposals@.take(j as int);
            front.lemma_filter_push(proposals[j as int], routed_to(*layout, uid));
            assert(front.push(proposals[j as int]) =~= proposals@.take(j + 1));
            assert(routes[j as int] == proposal_shard(proposals[j as int], *layout));
        }
        if routes[j] == uid {
            out.push(proposals[j].clone());
        }
        j += 1;
    }
    assert(proposals@.take(proposals.len() as int) =~= proposals@);
    out
}

/// The checkpoints of the children of a parent that splits, in the order of the
/// children. A protocol version with congestion control is refused.
pub fn split_checkpoint(
    parent: &ChunkExtra,
    routes: &Vec<ShardUId>,
    layout: &ShardLayout,
    sorted: &Vec<ApplyResultForResharding>,
    protocol_version: ProtocolVersion,
) -> (r: Result<Vec<ChunkExtra>, Error>)
    requires
        sorted.len() >= 1,
        routes.len() == parent.validator_proposals.len(),
        forall|j: int|
            0 <= j < routes.len() ==> #[trigger] routes[j] == proposal_shard(
                parent.validator_proposals[j],
                *layout,
            ),
    ensures
        protocol_version >= CONGESTION_CONTROL_VERSION ==> r == Err::<Vec<ChunkExtra>, Error>(
            Error::CongestionControlWithResharding,
        ),
        protocol_version < CONGESTION_CONTROL_VERSION ==> r is Ok && r->Ok_0.len() == sorted.len()
            && forall|i: int|
            0 <= i < sorted.len() ==> (#[trigger] r->Ok_0[i])@ == child_extra(
                parent@,
                *layout,
                sorted@,
                i,
            ),
{
    if congestion_control_enabled(protocol_version) {
        return Err(Error::CongestionControlWithResharding);
    }
    let n: usize = sorted.len();
    let mut extras: Vec<ChunkExtra> = Vec::new();
    let mut i: usize = 0;
    while i < n
        invariant
            i <= n,
            n == sorted.len(),
            n >= 1,
            protocol_version < CONGESTION_CONTROL_VERSION,
            routes.len() == parent.validator_proposals.len(),
            forall|j: int|
                0 <= j < routes.len() ==> #[trigger] routes[j] == proposal_shard(
                    parent.validator_proposals[j],
                    *layout,
                ),
            extras.len() == i,
            forall|k: int|
                0 <= k < i ==> (#[trigger] extras[k])@ == child_extra(parent@, *layout, sorted@, k),
        decreases n - i,
    {
        let uid = sorted[i].shard_uid;
        let proposals = if i > 0 && sorted[i - 1].shard_uid == uid {
            Vec::new()
        } else {
            proposals_routed_to(&parent.validator_proposals, routes, layout, uid)
        };
        let gas_burnt = gas_share(parent.gas_used, n as u64, i as u64);
        let balance_burnt = balance_share(parent.balance_burnt, n as u64, i as u64);
        let made = ChunkExtra::new(
            protocol_version,
            &sorted[i].new_root,
            parent.outcome_root,
            proposals,
            gas_burnt,
            parent.gas_limit,
            balance_burnt,
            None,
        );
        let extra = match made {
            Ok(extra) => extra,
            Err(e) => {
                return Err(e);
            },
        };
        assert(extra@ == child_extra(parent@, *layout, sorted@, i as int));
        extras.push(extra);
        i += 1;
    }
    Ok(extras)
}

/// What is staged for one child of a shard that splits.
#[derive(Debug, PartialEq, Eq)]
pub struct ChildCheckpoint {
    pub shard_uid: ShardUId,
    pub chunk_extra: ChunkExtra,
    pub trie_changes: TrieChanges,
    /// The writes of flat storage for the child's state changes.
    pub flat_state_changes: StoreUpdate,
}

/// What is staged for one child, as a value.
pub struct ChildCheckpointView {
    pub shard_uid: ShardUId,
    pub chunk_extra: ChunkExtraView,
    pub trie_changes: TrieChanges,
    pub flat_state_changes: StoreUpdate,
}

impl View for ChildCheckpoint {
    type V = ChildCheckpointView;

    open spec fn view(&self) -> ChildCheckpointView {
        ChildCheckpointView {
            shard_uid: self.shard_uid,
            chunk_extra: self.chunk_extra@,
            trie_changes: self.trie_changes,
            flat_state_changes: self.flat_state_changes,
        }
    }
}

/// The children as values, in their order.
pub open spec fn child_views(children: Seq<ChildCheckpoint>) -> Seq<ChildCheckpointView> {
    children.map_values(|child: ChildCheckpoint| child@)
}

/// The store after the first `k` children are staged, in their order: for each
/// the writes of flat storage, its checkpoint under its shard, and its trie
/// changes.
pub open spec fn staged_children(
    store: StoreView,
    block_hash: CryptoHash,
    children: Seq<ChildCheckpointView>,
    k: nat,
) -> StoreView
    decreases k,
{
    if k == 0 {
        store
    } else {
        let child = children[k - 1];
        staged_children(store, block_hash, children, (k - 1) as nat).merge(
            child.flat_state_changes,
        ).save_chunk_extra(block_hash, child.shard_uid, child.chunk_extra).save_trie_changes(
            child.trie_changes,
        )
    }
}

/// Stages the checkpoints of the children of a shard that splits.
pub fn stage_children(
    store: &mut ChainStoreUpdate<'_>,
    block_hash: &CryptoHash,
    children: Vec<ChildCheckpoint>,
)
    ensures
        final(store)@ == staged_children(
            old(store)@,
            *block_hash,
            child_views(children@),
            children@.len(),
        ),
        final(store).base == old(store).base,
{
    let ghost all = children@;
    let n: usize = children.len();
    let mut rest = children;
    let mut i: usize = 0;
    assert(all.skip(0) =~= all);
    while i < n
        invariant
            i <= n,
            n == all.len(),
            rest@ == all.skip(i as int),
            store@ == staged_children(old(store)@, *block_hash, child_views(all), i as nat),
            store.base == old(store).base,
        decreases n - i,
    {
        let child = rest.remove(0);
        assert(child == all[i as int]);
        assert(rest@ =~= all.skip(i + 1));
        store.merge(child.flat_state_changes);
        store.save_chunk_extra(block_hash, &child.shard_uid, child.chunk_extra);
        store.save_trie_changes(child.trie_changes);
        i += 1;
    }
}

/// What is staged for the children `sorted` of a parent, given the writes that
/// flat storage answered for each.
pub open spec fn split_children(
    parent: ChunkExtraView,
    layout: ShardLayout,
    sorted: Seq<ApplyResultForResharding>,
    flat: Seq<StoreUpdate>,
) -> Seq<ChildCheckpointView> {
    Seq::new(
        sorted.len(),
        |i: int|
            ChildCheckpointView {
                shard_uid: sorted[i].shard_uid,
                chunk_extra: child_extra(parent, layout, sorted, i),
                trie_changes: sorted[i].trie_changes,
                flat_state_changes: flat[i],
            },
    )
}

/// The store after a shard has split in a block: the children are taken in the
/// order of their shard identities, and each is staged with its checkpoint.
pub open spec fn resharded(
    store: StoreView,
    block_hash: CryptoHash,
    parent: ChunkExtraView,
    layout: ShardLayout,
    results: Seq<ApplyResultForResharding>,
    flat: Seq<StoreUpdate>,
) -> StoreView {
    let sorted = sorted_by_shard(results);
    staged_children(
        store,
        block_hash,
        split_children(parent, layout, sorted, flat),
        sorted.len(),
    )
}

/// What the collaborators answered while a shard split.
pub struct SplitAnswers {
    /// The epoch after the epoch of the block.
    pub next_epoch_id: EpochId,
    /// The layout of that epoch.
    pub layout: ShardLayout,
    /// The epoch of the block.
    pub epoch_id: EpochId,
    /// The protocol version of the block's epoch.
    pub protocol_version: ProtocolVersion,
    /// The writes of flat storage for each child, in the order of the children.
    pub flat: Seq<StoreUpdate>,
}

/// Whether flat storage was asked to index the state changes of a child in the
/// block and answered with `flat`, and, where the block knows a final block,
/// was asked to move the flat storage of the child up to it and did.
pub open spec fn child_indexed<R: RuntimeAdapter>(
    runtime: R,
    block: BlockHeader,
    child: ApplyResultForResharding,
    flat: StoreUpdate,
) -> bool {
    &&& runtime.flat_state_changes_answer(
        block.hash,
        block.prev_hash,
        block.height,
        child.shard_uid,
        child.trie_changes.state_changes@,
        Ok(flat),
    )
    &&& !block.last_final_block.is_zero() ==> runtime.flat_storage_update_answer(
        child.shard_uid,
        block.last_final_block,
        Ok(()),
    )
}

/// What flat storage answered for one child of a split. The answer to a
/// question that was not asked has no meaning.
pub struct ChildAnswer {
    /// What it answered when it was asked to index the state changes.
    pub indexed: Result<StoreUpdate, Error>,
    /// What it answered when it was asked to move the flat storage of the child.
    pub moved: Result<(), Error>,
}

/// Whether `answer` is what flat storage gave for a child: it is asked to
/// index the state changes of the child in the block and, where it did and
/// the block knows a final block, to move the flat storage of the child up to
/// that block.
pub open spec fn child_answered<R: RuntimeAdapter>(
    runtime: R,
    block: BlockHeader,
    child: ApplyResultForResharding,
    answer: ChildAnswer,
) -> bool {
    &&& runtime.flat_state_changes_answer(
        block.hash,
        block.prev_hash,
        block.height,
        child.shard_uid,
        child.trie_changes.state_changes@,
        answer.indexed,
    )
    &&& answer.indexed is Ok && !block.last_final_block.is_zero()
        ==> runtime.flat_storage_update_answer(
        child.shard_uid,
        block.last_final_block,
        answer.moved,
    )
}

/// The failure that flat storage answered for a child, if it answered one.
pub open spec fn child_failure(block: BlockHeader, answer: ChildAnswer) -> Option<Error> {
    match answer.indexed {
        Err(e) => Some(e),
        Ok(_) => if block.last_final_block.is_zero() {
            None
        } else {
            match answer.moved {
                Err(e) => Some(e),
                Ok(_) => None,
            }
        },
    }
}

/// Whether `e` is the failure at which the children of a split stopped being
/// asked for: flat storage answered `flat` for the children before, in their
/// order, and failed with `e` for the next child.
pub open spec fn children_failed<R: RuntimeAdapter>(
    runtime: R,
    block: BlockHeader,
    sorted: Seq<ApplyResultForResharding>,
    flat: Seq<StoreUpdate>,
    failed: ChildAnswer,
    e: Error,
) -> bool {
    &&& flat.len() < sorted.len()
    &&& forall|i: int|
        0 <= i < flat.len() ==> child_indexed(runtime, block, #[trigger] sorted[i], flat[i])
    &&& child_answered(runtime, block, sorted[flat.len() as int], failed)
    &&& child_failure(block, failed) == Some(e)
}

/// What the collaborators answered while a split was planned, up to the first
/// failure. The answer to a question that was not asked has no meaning.
pub struct SplitTrace {
    /// What the epoch manager answered for the epoch after the block's.
    pub next_epoch_id: Result<EpochId, Error>,
    /// What it answered for the layout of that epoch.
    pub layout: Result<ShardLayout, Error>,
    /// What it answered for the epoch of the block.
    pub epoch_id: Result<EpochId, Error>,
    /// What it answered for the protocol version of the block's epoch.
    pub protocol_version: Result<ProtocolVersion, Error>,
    /// The writes of flat storage for the children for which it did not fail.
    pub flat: Seq<StoreUpdate>,
    /// What flat storage answered for the child for which it failed.
    pub failed: ChildAnswer,
}

/// Whether `e` is the failure at which planning the split of a shard with the
/// checkpoint `parent` ended, given what the collaborators answered. In the
/// order of the questions: the epoch manager fails to give the epoch after the
/// block's or its layout; the layout does not let the children take over the
/// parent; the epoch manager fails to give the epoch of the block or its
/// protocol version; the protocol version has congestion control; flat storage
/// fails for a child. A question is asked only where nothing failed before it.
pub open spec fn split_refused<E: EpochManagerAdapter, R: RuntimeAdapter>(
    epochs: E,
    runtime: R,
    block: BlockHeader,
    parent: ChunkExtraView,
    parent_shard_id: ShardId,
    results: Seq<ApplyResultForResharding>,
    trace: SplitTrace,
    e: Error,
) -> bool {
    &&& epochs.next_epoch_id_from_prev_block_answer(block.prev_hash, trace.next_epoch_id)
    &&& match trace.next_epoch_id {
        Err(failure) => e == failure,
        Ok(next_epoch_id) => {
            &&& epochs.shard_layout_answer(next_epoch_id, trace.layout)
            &&& match trace.layout {
                Err(failure) => e == failure,
                Ok(layout) => match split_defect(
                    parent,
                    layout,
                    parent_shard_id,
                    results.len(),
                ) {
                    Some(defect) => e == Error::InternalDefect(defect),
                    None => split_refused_by_version(epochs, runtime, block, results, trace, e),
                },
            }
        },
    }
}

/// Whether `e` is the failure at which planning a split ended once the layout
/// was found to let the children take over the parent.
pub open spec fn split_refused_by_version<E: EpochManagerAdapter, R: RuntimeAdapter>(
    epochs: E,
    runtime: R,
    block: BlockHeader,
    results: Seq<ApplyResultForResharding>,
    trace: SplitTrace,
    e: Error,
) -> bool {
    &&& epochs.epoch_id_from_prev_block_answer(block.prev_hash, trace.epoch_id)
    &&& match trace.epoch_id {
        Err(failure) => e == failure,
        Ok(epoch_id) => {
            &&& epochs.epoch_protocol_version_answer(epoch_id, trace.protocol_version)
            &&& match trace.protocol_version {
                Err(failure) => e == failure,
                Ok(protocol_version) => if protocol_version >= CONGESTION_CONTROL_VERSION {
                    e == Error::CongestionControlWithResharding
                } else {
                    children_failed(
                        runtime,
                        block,
                        sorted_by_shard(results),
                        trace.flat,
                        trace.failed,
                        e,
                    )
                },
            }
        },
    }
}

/// Whether `answers` is what the collaborators gave when they were asked for a
/// split: the epoch manager for the layout of the epoch after the block's and
/// for the protocol version of the block's epoch, flat storage for each child
/// in the order of the children. State changes that wait for the split ask
/// nothing.
pub open spec fn split_asked<E: EpochManagerAdapter, R: RuntimeAdapter>(
    epochs: E,
    runtime: R,
    block: BlockHeader,
    results: ReshardingResults,
    answers: SplitAnswers,
) -> bool {
    match results {
        ReshardingResults::StoreReshardingResults(_) => true,
        ReshardingResults::ApplyReshardingResults(children) => {
            let sorted = sorted_by_shard(children@);
            &&& epochs.next_epoch_id_from_prev_block_answer(
                block.prev_hash,
                Ok(answers.next_epoch_id),
            )
            &&& epochs.shard_layout_answer(answers.next_epoch_id, Ok(answers.layout))
            &&& epochs.epoch_id_from_prev_block_answer(block.prev_hash, Ok(answers.epoch_id))
            &&& epochs.epoch_protocol_version_answer(
                answers.epoch_id,
                Ok(answers.protocol_version),
            )
            &&& answers.flat.len() == sorted.len()
            &&& forall|i: int|
                0 <= i < sorted.len() ==> child_indexed(
                    runtime,
                    block,
                    #[trigger] sorted[i],
                    answers.flat[i],
                )
        },
    }
}

/// The store after the resharding results of a shard are processed, given what
/// the collaborators answered; nothing where the results cannot be processed
/// with these answers. State changes that wait for the split are filed under
/// the block and the parent. Children of a split are staged as `resharded` says.
pub open spec fn split_staged(
    store: StoreView,
    block_hash: CryptoHash,
    shard_uid: ShardUId,
    results: ReshardingResults,
    answers: SplitAnswers,
) -> Option<StoreView> {
    match results {
        ReshardingResults::StoreReshardingResults(state_changes) => Some(
            store.save_record(
                RecordKey::StateChangesForResharding {
                    block_hash,
                    shard_id: shard_uid.spec_shard_id(),
                },
                Record::StateChangesForResharding(state_changes),
            ),
        ),
        ReshardingResults::ApplyReshardingResults(children) => {
            match store.get_chunk_extra(block_hash, shard_uid) {
                Err(_) => None,
                Ok(parent) => {
                    if split_defect(
                        parent,
                        answers.layout,
                        shard_uid.spec_shard_id(),
                        children@.len(),
                    ) is Some || answers.protocol_version >= CONGESTION_CONTROL_VERSION
                        || answers.flat.len() != children@.len() {
                        None
                    } else {
                        Some(
                            resharded(
                                store,
                                block_hash,
                                parent,
                                answers.layout,
                                children@,
                                answers.flat,
                            ),
                        )
                    }
                },
            }
        },
    }
}

/// What is staged for the children of a split, given the checkpoint of the
/// shard that splits and what the collaborators answered; nothing where the
/// split cannot be made with these answers.
pub open spec fn split_planned(
    parent: ChunkExtraView,
    parent_shard_id: ShardId,
    results: Seq<ApplyResultForResharding>,
    answers: SplitAnswers,
) -> Option<Seq<ChildCheckpointView>> {
    if split_defect(parent, answers.layout, parent_shard_id, results.len()) is Some
        || answers.protocol_version >= CONGESTION_CONTROL_VERSION || answers.flat.len()
        != results.len() {
        None
    } else {
        Some(split_children(parent, answers.layout, sorted_by_shard(results), answers.flat))
    }
}

/// What is to be staged for the resharding results of a shard, once the
/// collaborators have answered.
#[derive(Debug, PartialEq, Eq)]
pub enum PlannedSplit {
    /// The shard has no resharding results.
    Nothing,
    /// The state changes to keep for replay.
    Store(Vec<u8>),
    /// The children of the split, in their order.
    Apply(Vec<ChildCheckpoint>),
}

/// Whether `planned` is what is to be staged for the resharding results of a
/// shard with the checkpoint `parent`, given what the collaborators answered.
pub open spec fn plan_matches(
    parent: ChunkExtraView,
    parent_shard_id: ShardId,
    results: Option<ReshardingResults>,
    answers: SplitAnswers,
    planned: PlannedSplit,
) -> bool {
    match results {
        None => planned is Nothing,
        Some(ReshardingResults::StoreReshardingResults(state_changes)) => planned
            == PlannedSplit::Store(state_changes),
        Some(ReshardingResults::ApplyReshardingResults(children)) => planned matches PlannedSplit::Apply(
            staged,
        ) && split_planned(parent, parent_shard_id, children@, answers) == Some(
            child_views(staged@),
        ),
    }
}

/// The store after what was planned for the resharding results of a shard is
/// staged.
pub open spec fn planned_staged(
    store: StoreView,
    block_hash: CryptoHash,
    shard_uid: ShardUId,
    planned: PlannedSplit,
) -> StoreView {
    match planned {
        PlannedSplit::Nothing => store,
        PlannedSplit::Store(state_changes) => store.save_record(
            RecordKey::StateChangesForResharding { block_hash, shard_id: shard_uid.spec_shard_id() },
            Record::StateChangesForResharding(state_changes),
        ),
        PlannedSplit::Apply(children) => staged_children(
            store,
            block_hash,
            child_views(children@),
            children@.len(),
        ),
    }
}

/// Stages what was planned for the resharding results of a shard.
pub fn stage_planned(
    store: &mut ChainStoreUpdate<'_>,
    block_hash: &CryptoHash,
    shard_uid: &ShardUId,
    planned: PlannedSplit,
)
    ensures
        final(store)@ == planned_staged(old(store)@, *block_hash, *shard_uid, planned),
        final(store).base == old(store).base,
{
    match planned {
        PlannedSplit::Nothing => {},
        PlannedSplit::Store(state_changes) => {
            store.save_record(
                RecordKey::StateChangesForResharding {
                    block_hash: *block_hash,
                    shard_id: shard_uid.shard_id(),
                },
                Record::StateChangesForResharding(state_changes),
            );
        },
        PlannedSplit::Apply(children) => {
            stage_children(store, block_hash, children);
        },
    }
}

} // verus!
