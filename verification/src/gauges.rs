//! The gauges that processing a block moves. An update keeps their values;
//! whoever owns the update publishes them.

use vstd::prelude::*;
use near_primitives::shard_layout::ShardLayout;
use crate::shard::{layout_num_shards, layout_version, num_shards, shard_layout_version};
use crate::types::{BlockHeader, Tip};

verus! {

/// What the gauges were last set to; nothing for a gauge that was not set.
#[derive(Clone, Copy, Debug, PartialEq, Eq)]
pub struct Gauges {
    /// The height of the header head.
    pub header_head_height: Option<u64>,
    /// The height of the head.
    pub block_height_head: Option<u64>,
    /// The ordinal of the head.
    pub block_ordinal_head: Option<u64>,
    /// The version of the shard layout after the head.
    pub shard_layout_version: Option<u32>,
    /// The number of shards of the shard layout after the head.
    pub shard_layout_num_shards: Option<usize>,
}

impl Gauges {
    /// No gauge set.
    pub open spec fn unset() -> Gauges {
        Gauges {
            header_head_height: None,
            block_height_head: None,
            block_ordinal_head: None,
            shard_layout_version: None,
            shard_layout_num_shards: None,
        }
    }

    /// The gauges once the header head has moved to `moved`, if it has.
    pub open spec fn header_head_moved(self, moved: Option<Tip>) -> Gauges {
        match moved {
            Some(tip) => Gauges { header_head_height: Some(tip.height), ..self },
            None => self,
        }
    }

    /// The gauges once the head has moved to the block of `header`, if it has.
    pub open spec fn head_moved(self, header: BlockHeader, moved: Option<Tip>) -> Gauges {
        match moved {
            Some(tip) => Gauges {
                block_height_head: Some(tip.height),
                block_ordinal_head: Some(header.block_ordinal),
                ..self
            },
            None => self,
        }
    }

    /// The gauges once the shard layout after the head is `layout`.
    pub open spec fn shard_layout_is(self, layout: ShardLayout) -> Gauges {
        Gauges {
            shard_layout_version: Some(layout_version(layout)),
            shard_layout_num_shards: Some(layout_num_shards(layout) as usize),
            ..self
        }
    }

    /// No gauge set.
    pub fn new() -> (gauges: Gauges)
        ensures
            gauges == Gauges::unset(),
    {
        Gauges {
            header_head_height: None,
            block_height_head: None,
            block_ordinal_head: None,
            shard_layout_version: None,
            shard_layout_num_shards: None,
        }
    }

    /// Sets the gauges of the shard layout.
    pub fn set_shard_layout(&mut self, layout: &ShardLayout)
        ensures
            *final(self) == old(self).shard_layout_is(*layout),
    {
        self.shard_layout_version = Some(shard_layout_version(layout));
        self.shard_layout_num_shards = Some(num_shards(layout));
    }
}

} // verus!
