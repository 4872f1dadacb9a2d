//! The plain data that the pipeline reads and writes: headers, blocks, tips
//! and shard checkpoints.

use vstd::prelude::*;
use near_primitives::types::validator_stake::ValidatorStake;
use near_primitives::version::ProtocolFeature;
use crate::error::{Defect, Error};
use crate::hash::{CryptoHash, EpochId};

verus! {

/// The height of a block: its distance from the first block of the chain.
pub type BlockHeight = u64;

/// An amount of gas.
pub type Gas = u64;

/// An amount of tokens.
pub type Balance = u128;

/// The version of the protocol that an epoch runs.
pub type ProtocolVersion = u32;

/// The first protocol version under which shards account for congestion.
pub const CONGESTION_CONTROL_VERSION: ProtocolVersion = 68;

/// What the pipeline reads of a block header.
#[derive(Clone, Copy, Debug, PartialEq, Eq)]
pub struct BlockHeader {
    pub hash: CryptoHash,
    pub prev_hash: CryptoHash,
    pub height: BlockHeight,
    /// The height of the predecessor, where the header records it.
    pub prev_height: Option<BlockHeight>,
    pub epoch_id: EpochId,
    pub next_epoch_id: EpochId,
    /// The last block known to be final when this one was made; all zero where
    /// none was.
    pub last_final_block: CryptoHash,
    /// The gas price that holds for the chunks of the next block.
    pub next_gas_price: Balance,
    pub raw_timestamp: u64,
    pub random_value: CryptoHash,
    /// The number of the block on its chain.
    pub block_ordinal: u64,
}

impl View for BlockHeader {
    type V = BlockHeader;

    open spec fn view(&self) -> BlockHeader {
        *self
    }
}

/// A position in the chain: a block, its height, its predecessor and its epoch.
#[derive(Clone, Copy, Debug, PartialEq, Eq)]
pub struct Tip {
    pub height: BlockHeight,
    pub last_block_hash: CryptoHash,
    pub prev_block_hash: CryptoHash,
    pub epoch_id: EpochId,
    pub next_epoch_id: EpochId,
}

impl Tip {
    /// The tip that points at the block of `header`.
    pub open spec fn spec_from_header(header: BlockHeader) -> Tip {
        Tip {
            height: header.height,
            last_block_hash: header.hash,
            prev_block_hash: header.prev_hash,
            epoch_id: header.epoch_id,
            next_epoch_id: header.next_epoch_id,
        }
    }

    /// The tip that points at the block of `header`.
    pub fn from_header(header: &BlockHeader) -> (tip: Tip)
        ensures
            tip == Tip::spec_from_header(*header),
    {
        Tip {
            height: header.height,
            last_block_hash: header.hash,
            prev_block_hash: header.prev_hash,
            epoch_id: header.epoch_id,
            next_epoch_id: header.next_epoch_id,
        }
    }
}

/// How congested a shard is after a chunk.
#[derive(Clone, Copy, Debug, PartialEq, Eq)]
pub struct CongestionInfo {
    pub delayed_receipts_gas: u128,
    pub buffered_receipts_gas: u128,
    pub receipt_bytes: u64,
    pub allowed_shard: u16,
}

/// The congestion of one shard as a block records it.
#[derive(Clone, Copy, Debug, PartialEq, Eq)]
pub struct ShardCongestionInfo {
    pub shard_id: u64,
    pub congestion_info: CongestionInfo,
    pub missed_chunks_count: u64,
}

/// A copy of a byte string.
pub fn clone_bytes(bytes: &Vec<u8>) -> (r: Vec<u8>)
    ensures
        r@ == bytes@,
{
    let mut r: Vec<u8> = Vec::new();
    let mut i: usize = 0;
    while i < bytes.len()
        invariant
            i <= bytes.len(),
            r@ == bytes@.take(i as int),
        decreases bytes.len() - i,
    {
        r.push(bytes[i]);
        i += 1;
    }
    assert(bytes@.take(bytes.len() as int) =~= bytes@);
    r
}

/// A copy of a list of proposals.
pub fn clone_proposals(proposals: &Vec<ValidatorStake>) -> (r: Vec<ValidatorStake>)
    ensures
        r@ == proposals@,
{
    let mut r: Vec<ValidatorStake> = Vec::new();
    let mut i: usize = 0;
    while i < proposals.len()
        invariant
            i <= proposals.len(),
            r@ == proposals@.take(i as int),
        decreases proposals.len() - i,
    {
        r.push(proposals[i].clone());
        i += 1;
    }
    assert(proposals@.take(proposals.len() as int) =~= proposals@);
    r
}

/// A copy of a block's congestion records.
pub fn clone_congestion(infos: &Vec<ShardCongestionInfo>) -> (r: Vec<ShardCongestionInfo>)
    ensures
        r@ == infos@,
{
    let mut r: Vec<ShardCongestionInfo> = Vec::new();
    let mut i: usize = 0;
    while i < infos.len()
        invariant
            i <= infos.len(),
            r@ == infos@.take(i as int),
        decreases infos.len() - i,
    {
        r.push(infos[i]);
        i += 1;
    }
    assert(infos@.take(infos.len() as int) =~= infos@);
    r
}

/// A block: its header and what the pipeline hands on of its body.
#[derive(Debug, PartialEq, Eq)]
pub struct Block {
    pub header: BlockHeader,
    /// The stake changes that the block's chunks proposed.
    pub validator_proposals: Vec<ValidatorStake>,
    /// The outcome of the challenges that the block carries, encoded.
    pub challenges_result: Vec<u8>,
    /// The congestion of each shard, by shard id.
    pub congestion_info: Vec<ShardCongestionInfo>,
    /// The rest of the body, encoded.
    pub body: Vec<u8>,
}

/// A block as a value.
pub struct BlockView {
    pub header: BlockHeader,
    pub validator_proposals: Seq<ValidatorStake>,
    pub challenges_result: Seq<u8>,
    pub congestion_info: Seq<ShardCongestionInfo>,
    pub body: Seq<u8>,
}

impl View for Block {
    type V = BlockView;

    open spec fn view(&self) -> BlockView {
        BlockView {
            header: self.header,
            validator_proposals: self.validator_proposals@,
            challenges_result: self.challenges_result@,
            congestion_info: self.congestion_info@,
            body: self.body@,
        }
    }
}

impl Block {
    /// The header of the block.
    pub fn header(&self) -> (r: &BlockHeader)
        ensures
            *r == self.header,
    {
        &self.header
    }

    /// The hash of the block.
    pub fn hash(&self) -> (r: &CryptoHash)
        ensures
            *r == self.header.hash,
    {
        &self.header.hash
    }

    /// A copy of the block.
    pub fn clone_block(&self) -> (r: Block)
        ensures
            r@ == self@,
    {
        Block {
            header: self.header,
            validator_proposals: clone_proposals(&self.validator_proposals),
            challenges_result: clone_bytes(&self.challenges_result),
            congestion_info: clone_congestion(&self.congestion_info),
            body: clone_bytes(&self.body),
        }
    }
}

/// `ProtocolFeature::CongestionControl.enabled`: whether shards account for
/// congestion under a protocol version, which is from version 68 on.
#[verifier::external_body]
pub(crate) fn congestion_control_enabled(protocol_version: ProtocolVersion) -> (enabled: bool)
    ensures
        enabled == (protocol_version >= CONGESTION_CONTROL_VERSION),
{
    ProtocolFeature::CongestionControl.enabled(protocol_version)
}

/// The checkpoint of one shard after one block.
#[derive(Debug, PartialEq, Eq)]
pub struct ChunkExtra {
    pub state_root: CryptoHash,
    pub outcome_root: CryptoHash,
    pub validator_proposals: Vec<ValidatorStake>,
    pub gas_used: Gas,
    pub gas_limit: Gas,
    pub balance_burnt: Balance,
    /// Present from the protocol version with congestion control on.
    pub congestion_info: Option<CongestionInfo>,
}

/// A shard checkpoint as a value.
pub struct ChunkExtraView {
    pub state_root: CryptoHash,
    pub outcome_root: CryptoHash,
    pub validator_proposals: Seq<ValidatorStake>,
    pub gas_used: Gas,
    pub gas_limit: Gas,
    pub balance_burnt: Balance,
    pub congestion_info: Option<CongestionInfo>,
}

impl View for ChunkExtra {
    type V = ChunkExtraView;

    open spec fn view(&self) -> ChunkExtraView {
        ChunkExtraView {
            state_root: self.state_root,
            outcome_root: self.outcome_root,
            validator_proposals: self.validator_proposals@,
            gas_used: self.gas_used,
            gas_limit: self.gas_limit,
            balance_burnt: self.balance_burnt,
            congestion_info: self.congestion_info,
        }
    }
}

impl ChunkExtraView {
    /// The same checkpoint with another state root.
    pub open spec fn with_state_root(self, state_root: CryptoHash) -> ChunkExtraView {
        ChunkExtraView { state_root, ..self }
    }
}

impl ChunkExtra {
    /// Whether a checkpoint under `protocol_version` may hold `congestion_info`:
    /// it holds one exactly from the version with congestion control on.
    pub open spec fn congestion_info_fits(
        protocol_version: ProtocolVersion,
        congestion_info: Option<CongestionInfo>,
    ) -> bool {
        congestion_info.is_some() == (protocol_version >= CONGESTION_CONTROL_VERSION)
    }

    /// The checkpoint made of the given parts. It is refused where the
    /// congestion info does not fit the protocol version.
    pub fn new(
        protocol_version: ProtocolVersion,
        state_root: &CryptoHash,
        outcome_root: CryptoHash,
        validator_proposals: Vec<ValidatorStake>,
        gas_used: Gas,
        gas_limit: Gas,
        balance_burnt: Balance,
        congestion_info: Option<CongestionInfo>,
    ) -> (r: Result<ChunkExtra, Error>)
        ensures
            ChunkExtra::congestion_info_fits(protocol_version, congestion_info) ==> r is Ok && r->Ok_0@
                == (ChunkExtraView {
                state_root: *state_root,
                outcome_root,
                validator_proposals: validator_proposals@,
                gas_used,
                gas_limit,
                balance_burnt,
                congestion_info,
            }),
            !ChunkExtra::congestion_info_fits(protocol_version, congestion_info) ==> r == Err::<
                ChunkExtra,
                Error,
            >(Error::InternalDefect(Defect::CongestionInfoMismatch)),
    {
        let enabled = congestion_control_enabled(protocol_version);
        if enabled != congestion_info.is_some() {
            return Err(Error::InternalDefect(Defect::CongestionInfoMismatch));
        }
        Ok(
            ChunkExtra {
                state_root: *state_root,
                outcome_root,
                validator_proposals,
                gas_used,
                gas_limit,
                balance_burnt,
                congestion_info,
            },
        )
    }

    /// A copy of the checkpoint.
    pub fn clone_extra(&self) -> (r: ChunkExtra)
        ensures
            r@ == self@,
    {
        ChunkExtra {
            state_root: self.state_root,
            outcome_root: self.outcome_root,
            validator_proposals: clone_proposals(&self.validator_proposals),
            gas_used: self.gas_used,
            gas_limit: self.gas_limit,
            balance_burnt: self.balance_burnt,
            congestion_info: self.congestion_info,
        }
    }

    /// A copy of the checkpoint with another state root: what a block without a
    /// new chunk leaves of the checkpoint before it.
    pub fn with_state_root(&self, state_root: CryptoHash) -> (r: ChunkExtra)
        ensures
            r@ == self@.with_state_root(state_root),
    {
        ChunkExtra {
            state_root,
            outcome_root: self.outcome_root,
            validator_proposals: clone_proposals(&self.validator_proposals),
            gas_used: self.gas_used,
            gas_limit: self.gas_limit,
            balance_burnt: self.balance_burnt,
            congestion_info: self.congestion_info,
        }
    }
}

} // verus!
