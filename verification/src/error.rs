//! Why an update of the chain is refused.

use vstd::prelude::*;

verus! {

/// The record kinds that a lookup can miss.
#[derive(Clone, Copy, Debug, PartialEq, Eq)]
pub enum Missing {
    /// A block header, by block hash.
    BlockHeader,
    /// A block, by block hash.
    Block,
    /// A shard checkpoint, by block hash and shard.
    ChunkExtra,
    /// The canonical block hash at a height.
    BlockHashByHeight,
    /// The head of the applied chain.
    Head,
    /// The head of the header chain.
    HeaderHead,
    /// The head of the final chain.
    FinalHead,
}

/// A broken invariant of the data that was handed in. Retrying does not mend it.
#[derive(Clone, Copy, Debug, PartialEq, Eq)]
pub enum Defect {
    /// The next epoch's layout does not name the children of the shard that splits,
    /// names none, or cannot place an account.
    InvalidShardLayout,
    /// The number of child results differs from the number of children in the layout.
    ChildResultCount,
    /// The congestion info of a shard checkpoint is present under a protocol version
    /// without congestion control, or absent under one with it.
    CongestionInfoMismatch,
}

/// Why an update of the chain is refused.
#[derive(Debug, PartialEq, Eq)]
pub enum Error {
    /// A record that had to be read is not in the store.
    DBNotFound(Missing),
    /// No block at the height asked for lies on the chain that was walked; the
    /// height of the block at which the walk stopped is given.
    InvalidBlockHeight(u64),
    /// A block that is marked as challenged would become a chain tip.
    ChallengedBlockOnChain,
    /// A shard split under a protocol version with congestion control: how the
    /// congestion of the parent is shared among the children is not defined.
    CongestionControlWithResharding,
    /// An invariant of the input does not hold.
    InternalDefect(Defect),
    /// A collaborator (execution, epochs, flat storage) reported a failure.
    Other(String),
}

} // verus!
