//! Shard identities, their order, and what a shard layout decides.

use vstd::prelude::*;
use near_primitives::shard_layout::ShardLayout;
use near_primitives::types::validator_stake::ValidatorStake;

verus! {

/// The index of a shard within one layout.
pub type ShardId = u64;

/// Identity of a shard: the version of the layout it belongs to and its index there.
#[derive(Clone, Copy, Debug, PartialEq, Eq, PartialOrd, Ord, Hash, Structural)]
pub struct ShardUId {
    pub version: u32,
    pub shard_id: u32,
}

impl View for ShardUId {
    type V = ShardUId;

    open spec fn view(&self) -> ShardUId {
        *self
    }
}

impl ShardUId {
    /// The order of shard identities: by layout version, then by index.
    pub open spec fn spec_lt(self, other: ShardUId) -> bool {
        self.version < other.version || (self.version == other.version && self.shard_id
            < other.shard_id)
    }

    /// `spec_lt` or equal.
    pub open spec fn spec_le(self, other: ShardUId) -> bool {
        self.spec_lt(other) || self == other
    }

    /// The index of the shard as a shard id.
    pub open spec fn spec_shard_id(self) -> ShardId {
        self.shard_id as u64
    }

    /// Whether `self` comes strictly before `other`.
    pub fn lt(&self, other: &ShardUId) -> (r: bool)
        ensures
            r == self.spec_lt(*other),
    {
        self.version < other.version || (self.version == other.version && self.shard_id
            < other.shard_id)
    }

    /// Whether `self` comes before `other` or is `other`.
    pub fn le(&self, other: &ShardUId) -> (r: bool)
        ensures
            r == self.spec_le(*other),
    {
        !other.lt(self)
    }

    /// The index of the shard as a shard id.
    pub fn shard_id(&self) -> (r: ShardId)
        ensures
            r == self.spec_shard_id(),
    {
        self.shard_id as u64
    }
}

/// The layout of an epoch's shards, as the epoch manager hands it out. The
/// library carries it and asks it four questions, below.
#[verifier::external_type_specification]
#[verifier::external_body]
pub struct ExShardLayout(near_primitives::shard_layout::ShardLayout);

/// A validator's proposal to change its stake. The library carries proposals
/// and routes each to a shard by its account.
#[verifier::external_type_specification]
#[verifier::external_body]
pub struct ExValidatorStake(near_primitives::types::validator_stake::ValidatorStake);

/// `ValidatorStake::clone`: the derived clone, which yields an equal proposal.
pub assume_specification[ <ValidatorStake as Clone>::clone ](proposal: &ValidatorStake) -> (r:
    ValidatorStake)
    ensures
        r == *proposal,
;

/// The version of a layout.
pub uninterp spec fn layout_version(layout: ShardLayout) -> u32;

/// How many shards a layout has.
pub uninterp spec fn layout_num_shards(layout: ShardLayout) -> nat;

/// The shard ids that a layout gives as the children of a shard of the layout
/// before it, in the layout's order; `None` where the layout records no split
/// of that shard.
pub uninterp spec fn layout_children(layout: ShardLayout, parent_shard_id: ShardId) -> Option<
    Seq<ShardId>,
>;

/// The shard that owns the account of a proposal under a layout.
pub uninterp spec fn proposal_shard(proposal: ValidatorStake, layout: ShardLayout) -> ShardUId;

/// `ShardLayout::version`: the version of the layout.
#[verifier::external_body]
pub(crate) fn shard_layout_version(layout: &ShardLayout) -> (version: u32)
    ensures
        version == layout_version(*layout),
{
    layout.version()
}

/// `ShardLayout::shard_ids`, counted: the number of shards of the layout.
#[verifier::external_body]
pub(crate) fn num_shards(layout: &ShardLayout) -> (n: usize)
    ensures
        n == layout_num_shards(*layout),
{
    layout.shard_ids().count()
}

/// `ShardLayout::get_children_shards_ids`: the children of `parent_shard_id`
/// as the layout's split map lists them, `None` where it lists none.
#[verifier::external_body]
pub(crate) fn children_shard_ids(layout: &ShardLayout, parent_shard_id: ShardId) -> (r: Option<
    Vec<ShardId>,
>)
    ensures
        r.is_some() == layout_children(*layout, parent_shard_id).is_some(),
        r matches Some(ids) ==> ids@ == layout_children(*layout, parent_shard_id).unwrap(),
{
    layout.get_children_shards_ids(parent_shard_id)
}

/// `near_primitives::shard_layout::account_id_to_shard_uid` on the account of
/// the proposal. A layout without shards has no place for any account, and the
/// outside function divides by the number of shards: such a layout is left out.
#[verifier::external_body]
pub(crate) fn account_id_to_shard_uid(proposal: &ValidatorStake, layout: &ShardLayout) -> (uid:
    ShardUId)
    requires
        layout_num_shards(*layout) > 0,
    ensures
        uid == proposal_shard(*proposal, *layout),
{
    let uid = near_primitives::shard_layout::account_id_to_shard_uid(proposal.account_id(), layout);
    ShardUId { version: uid.version, shard_id: uid.shard_id }
}

} // verus!
