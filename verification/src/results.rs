//! What the pipeline is handed for a block: the result of each shard and what
//! was learned of the block before its chunks were applied.

use vstd::prelude::*;
use crate::adapters::{ApplyChunkResult, ReceiptProofResponse};
use crate::hash::CryptoHash;
use crate::records::{ShardChunk, ShardChunkV1, StateSyncInfo};
use crate::resharding::ApplyResultForResharding;
use crate::shard::{ShardId, ShardUId};
use crate::types::Gas;

verus! {

/// What a shard that splits hands on.
#[derive(Debug, PartialEq, Eq)]
pub enum ReshardingResults {
    /// The split is not reached yet: the state changes, encoded, to replay later.
    StoreReshardingResults(Vec<u8>),
    /// The state of each child after the split.
    ApplyReshardingResults(Vec<ApplyResultForResharding>),
}

/// The result of a shard that had a new chunk in the block.
#[derive(Debug, PartialEq, Eq)]
pub struct NewChunkResult {
    pub shard_uid: ShardUId,
    pub gas_limit: Gas,
    pub apply_result: ApplyChunkResult,
    pub resharding_results: Option<ReshardingResults>,
}

/// The result of a shard whose chunk was missing in the block.
#[derive(Debug, PartialEq, Eq)]
pub struct OldChunkResult {
    pub shard_uid: ShardUId,
    /// What applying the block without a chunk gave.
    pub apply_result: ApplyChunkResult,
    pub resharding_results: Option<ReshardingResults>,
}

/// The result of a shard that is being split and has no checkpoint of its own
/// in the block.
#[derive(Debug, PartialEq, Eq)]
pub struct ReshardingResult {
    pub shard_uid: ShardUId,
    pub results: Vec<ApplyResultForResharding>,
}

/// The result of processing one shard for one block.
#[derive(Debug, PartialEq, Eq)]
pub enum ShardUpdateResult {
    NewChunk(NewChunkResult),
    OldChunk(OldChunkResult),
    Resharding(ReshardingResult),
}

/// What was learned of a block before its chunks were applied.
#[derive(Debug, PartialEq, Eq)]
pub struct BlockPreprocessInfo {
    /// Whether the node had caught up on every shard when the block came.
    pub is_caught_up: bool,
    /// Shards to bring up from a snapshot, where the block starts an epoch.
    pub state_sync_info: Option<StateSyncInfo>,
    /// The receipts that reach each shard with the block, encoded.
    pub incoming_receipts: Vec<(ShardId, Vec<u8>)>,
    /// The outcome of the challenges that the block carries, encoded.
    pub challenges_result: Vec<u8>,
    /// The blocks that the challenges of the block prove invalid.
    pub challenged_blocks: Vec<CryptoHash>,
}

/// The header of a shard's snapshot in its first encoding.
#[derive(Debug, PartialEq, Eq)]
pub struct ShardStateSyncResponseHeaderV1 {
    pub chunk: ShardChunkV1,
    pub incoming_receipts_proofs: Vec<ReceiptProofResponse>,
}

/// The header of a shard's snapshot in its second encoding.
#[derive(Debug, PartialEq, Eq)]
pub struct ShardStateSyncResponseHeaderV2 {
    pub chunk: ShardChunk,
    pub incoming_receipts_proofs: Vec<ReceiptProofResponse>,
}

/// The header of a shard's snapshot: the chunk the snapshot was taken at and
/// the receipts that reached the shard up to it.
#[derive(Debug, PartialEq, Eq)]
pub enum ShardStateSyncResponseHeader {
    V1(ShardStateSyncResponseHeaderV1),
    V2(ShardStateSyncResponseHeaderV2),
}

impl ShardStateSyncResponseHeader {
    /// The chunk of the snapshot, whatever the encoding of the header.
    pub open spec fn spec_chunk(self) -> ShardChunk {
        match self {
            ShardStateSyncResponseHeader::V1(header) => ShardChunk::V1(header.chunk),
            ShardStateSyncResponseHeader::V2(header) => header.chunk,
        }
    }

    /// The receipts of the snapshot, whatever the encoding of the header.
    pub open spec fn spec_incoming_receipts_proofs(self) -> Vec<ReceiptProofResponse> {
        match self {
            ShardStateSyncResponseHeader::V1(header) => header.incoming_receipts_proofs,
            ShardStateSyncResponseHeader::V2(header) => header.incoming_receipts_proofs,
        }
    }

    /// Parts the header into its chunk and its receipts.
    pub fn into_parts(self) -> (r: (ShardChunk, Vec<ReceiptProofResponse>))
        ensures
            r.0 == self.spec_chunk(),
            r.1 == self.spec_incoming_receipts_proofs(),
    {
        match self {
            ShardStateSyncResponseHeader::V1(header) => (
                ShardChunk::V1(header.chunk),
                header.incoming_receipts_proofs,
            ),
            ShardStateSyncResponseHeader::V2(header) => (
                header.chunk,
                header.incoming_receipts_proofs,
            ),
        }
    }
}

} // verus!
