//! The commit pipeline of a sharded chain's state.
//!
//! The results of applying every shard's chunk for a block are folded into one
//! staged transaction over the chain store: shard checkpoints, the three chain
//! tips, challenge markers and the records of a shard that is being brought up
//! from a snapshot. Nothing reaches the store before the transaction commits.

pub mod hash;
pub mod error;
pub mod shard;
pub mod types;
pub mod resharding;
pub mod table;
pub mod records;
pub mod store;
pub mod adapters;
pub mod gauges;
pub mod results;
pub mod fork_choice;
pub mod postprocess;
pub mod chain_update;
pub mod state_sync;
pub mod idempotence;

pub use crate::adapters::{EpochManagerAdapter, RuntimeAdapter};
pub use crate::chain_update::ChainUpdate;
pub use crate::error::Error;
pub use crate::hash::{CryptoHash, EpochId};
pub use crate::shard::ShardUId;
pub use crate::store::{ChainStore, ChainStoreUpdate};
pub use crate::types::{Block, BlockHeader, ChunkExtra, Tip};
