//! The records that the pipeline writes and never reads back: receipts,
//! outcomes, proofs and the like, kept as they were handed in.

use vstd::prelude::*;
use near_primitives::types::validator_stake::ValidatorStake;
use near_primitives::views::LightClientBlockView;
use crate::hash::CryptoHash;
use crate::shard::ShardId;
use crate::table::Key;
use crate::types::{BlockHeight, Gas};

verus! {

/// The summary of an epoch's last final block that light clients ask for. The
/// pipeline stores the one it is handed.
#[verifier::external_type_specification]
#[verifier::external_body]
pub struct ExLightClientBlockView(near_primitives::views::LightClientBlockView);

/// Raw writes that a collaborator wants committed together with a transaction.
#[derive(Debug, PartialEq, Eq)]
pub struct StoreUpdate {
    pub writes: Vec<u8>,
}

/// A request to bring shards up from a snapshot at the start of an epoch.
#[derive(Debug, PartialEq, Eq)]
pub struct StateSyncInfo {
    /// The first block of the epoch.
    pub epoch_tail_hash: CryptoHash,
    /// The shards to fetch, each with the hash of its chunk.
    pub shards: Vec<(ShardId, CryptoHash)>,
}

/// What the pipeline reads of a chunk header.
#[derive(Debug, PartialEq, Eq)]
pub struct ShardChunkHeader {
    pub chunk_hash: CryptoHash,
    pub prev_block_hash: CryptoHash,
    pub prev_state_root: CryptoHash,
    /// The height of the block that included the chunk.
    pub height_included: BlockHeight,
    pub gas_limit: Gas,
    pub prev_validator_proposals: Vec<ValidatorStake>,
}

/// A chunk in its first encoding.
#[derive(Debug, PartialEq, Eq)]
pub struct ShardChunkV1 {
    pub header: ShardChunkHeader,
    /// The transactions of the chunk, encoded.
    pub transactions: Vec<u8>,
    /// The receipts that the chunk sends on, encoded.
    pub receipts: Vec<u8>,
}

/// A chunk in its second encoding.
#[derive(Debug, PartialEq, Eq)]
pub struct ShardChunkV2 {
    pub header: ShardChunkHeader,
    /// The transactions of the chunk, encoded.
    pub transactions: Vec<u8>,
    /// The receipts that the chunk sends on, encoded.
    pub receipts: Vec<u8>,
}

/// A chunk: the transactions of one shard for one block.
#[derive(Debug, PartialEq, Eq)]
pub enum ShardChunk {
    V1(ShardChunkV1),
    V2(ShardChunkV2),
}

impl ShardChunk {
    /// The header of the chunk, whatever its encoding.
    pub open spec fn spec_header(self) -> ShardChunkHeader {
        match self {
            ShardChunk::V1(chunk) => chunk.header,
            ShardChunk::V2(chunk) => chunk.header,
        }
    }

    /// The transactions of the chunk, whatever its encoding.
    pub open spec fn spec_transactions(self) -> Vec<u8> {
        match self {
            ShardChunk::V1(chunk) => chunk.transactions,
            ShardChunk::V2(chunk) => chunk.transactions,
        }
    }

    /// The header of the chunk.
    pub fn header(&self) -> (r: &ShardChunkHeader)
        ensures
            *r == self.spec_header(),
    {
        match self {
            ShardChunk::V1(chunk) => &chunk.header,
            ShardChunk::V2(chunk) => &chunk.header,
        }
    }

    /// The height of the block that included the chunk.
    pub fn height_included(&self) -> (r: BlockHeight)
        ensures
            r == self.spec_header().height_included,
    {
        self.header().height_included
    }

    /// The chunk's hash.
    pub fn chunk_hash(&self) -> (r: CryptoHash)
        ensures
            r == self.spec_header().chunk_hash,
    {
        self.header().chunk_hash
    }

    /// The transactions of the chunk, encoded.
    pub fn transactions(&self) -> (r: &Vec<u8>)
        ensures
            *r == self.spec_transactions(),
    {
        match self {
            ShardChunk::V1(chunk) => &chunk.transactions,
            ShardChunk::V2(chunk) => &chunk.transactions,
        }
    }
}

/// What a record is filed under.
#[derive(Clone, Copy, Debug, PartialEq, Eq)]
pub enum RecordKey {
    /// The receipts that a shard sent on in a block.
    OutgoingReceipts { block_hash: CryptoHash, shard_id: ShardId },
    /// The outcomes of a shard's chunk in a block, with their proofs.
    OutcomesWithProofs { block_hash: CryptoHash, shard_id: ShardId },
    /// What a validator without the state needs to check a chunk.
    StateTransitionData { block_hash: CryptoHash, shard_id: ShardId },
    /// The receipts that reach a shard with a block.
    IncomingReceipts { block_hash: CryptoHash, shard_id: ShardId },
    /// The state changes of a shard that is about to split, kept for replay.
    StateChangesForResharding { block_hash: CryptoHash, shard_id: ShardId },
    /// What processing a block added to it.
    BlockExtra { block_hash: CryptoHash },
    /// The light client block of an epoch.
    EpochLightClientBlock { epoch: CryptoHash },
    /// A chunk, by its hash.
    Chunk { chunk_hash: CryptoHash },
}

impl Key for RecordKey {
    fn key_eq(&self, other: &Self) -> (r: bool) {
        match (*self, *other) {
            (
                RecordKey::OutgoingReceipts { block_hash: a, shard_id: s },
                RecordKey::OutgoingReceipts { block_hash: b, shard_id: t },
            ) => a.same(&b) && s == t,
            (
                RecordKey::OutcomesWithProofs { block_hash: a, shard_id: s },
                RecordKey::OutcomesWithProofs { block_hash: b, shard_id: t },
            ) => a.same(&b) && s == t,
            (
                RecordKey::StateTransitionData { block_hash: a, shard_id: s },
                RecordKey::StateTransitionData { block_hash: b, shard_id: t },
            ) => a.same(&b) && s == t,
            (
                RecordKey::IncomingReceipts { block_hash: a, shard_id: s },
                RecordKey::IncomingReceipts { block_hash: b, shard_id: t },
            ) => a.same(&b) && s == t,
            (
                RecordKey::StateChangesForResharding { block_hash: a, shard_id: s },
                RecordKey::StateChangesForResharding { block_hash: b, shard_id: t },
            ) => a.same(&b) && s == t,
            (RecordKey::BlockExtra { block_hash: a }, RecordKey::BlockExtra { block_hash: b }) => a.same(
                &b,
            ),
            (
                RecordKey::EpochLightClientBlock { epoch: a },
                RecordKey::EpochLightClientBlock { epoch: b },
            ) => a.same(&b),
            (RecordKey::Chunk { chunk_hash: a }, RecordKey::Chunk { chunk_hash: b }) => a.same(&b),
            _ => false,
        }
    }
}

/// A record that the pipeline writes and never reads back.
#[derive(Debug, PartialEq, Eq)]
pub enum Record {
    /// Receipts, encoded.
    OutgoingReceipts(Vec<u8>),
    /// Outcomes and the proof of each, encoded.
    OutcomesWithProofs { outcomes: Vec<u8>, proofs: Vec<u8> },
    /// The part of the state that a chunk touched, if it was recorded, and the
    /// hash of the receipts that were applied.
    StateTransitionData { proof: Option<Vec<u8>>, applied_receipts_hash: CryptoHash },
    /// Receipts with the proofs that they were sent, encoded.
    IncomingReceipts(Vec<u8>),
    /// State changes, encoded.
    StateChangesForResharding(Vec<u8>),
    /// The outcome of the challenges that a block carries, encoded.
    BlockExtra { challenges_result: Vec<u8> },
    /// The light client block of an epoch.
    EpochLightClientBlock(LightClientBlockView),
    /// A chunk.
    Chunk(ShardChunk),
}

impl View for Record {
    type V = Record;

    open spec fn view(&self) -> Record {
        *self
    }
}

} // verus!
