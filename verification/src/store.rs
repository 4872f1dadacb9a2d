//! The chain store and the transaction that stages writes to it.
//!
//! A `ChainStore` holds what has been committed. A `ChainStoreUpdate` borrows
//! the store, reads through to it, and keeps every write to itself until
//! `commit`. Dropping the update leaves the store as it was.

use vstd::prelude::*;
use crate::error::{Error, Missing};
use crate::hash::CryptoHash;
use crate::records::{Record, RecordKey, StateSyncInfo, StoreUpdate};
use crate::resharding::TrieChanges;
use crate::shard::ShardUId;
use crate::table::{BlockShardUId, Table};
use crate::types::{Block, BlockHeader, BlockHeight, BlockView, ChunkExtra, ChunkExtraView, Tip};

verus! {

/// The content of a store, or of a store as a transaction sees it.
#[verifier::ext_equal]
pub struct StoreView {
    pub genesis_height: BlockHeight,
    /// The furthest block whose chunks are applied.
    pub head: Option<Tip>,
    /// The furthest header.
    pub header_head: Option<Tip>,
    /// The furthest final block.
    pub final_head: Option<Tip>,
    pub headers: Map<CryptoHash, BlockHeader>,
    pub blocks: Map<CryptoHash, BlockView>,
    /// The checkpoint of each shard after each block.
    pub chunk_extras: Map<BlockShardUId, ChunkExtraView>,
    /// The block of the canonical chain at a height.
    pub block_hash_by_height: Map<BlockHeight, CryptoHash>,
    /// The blocks that were proven invalid, each with the block that carried
    /// the proof, where one did.
    pub challenged_blocks: Map<CryptoHash, Option<CryptoHash>>,
    /// How many blocks build on a block.
    pub block_refcounts: Map<CryptoHash, u64>,
    /// The canonical successor of a block.
    pub next_block_hashes: Map<CryptoHash, CryptoHash>,
    pub records: Map<RecordKey, Record>,
    pub trie_changes: Seq<TrieChanges>,
    pub store_updates: Seq<StoreUpdate>,
    /// Blocks to apply again once the node has caught up, each with its predecessor.
    pub blocks_to_catchup: Seq<(CryptoHash, CryptoHash)>,
    pub state_sync_infos: Seq<StateSyncInfo>,
}

/// The later of two values of a slot that may be unset.
pub open spec fn or_else<T>(staged: Option<T>, base: Option<T>) -> Option<T> {
    if staged is Some {
        staged
    } else {
        base
    }
}

impl StoreView {
    /// The store with nothing in it.
    pub open spec fn empty(genesis_height: BlockHeight) -> StoreView {
        StoreView {
            genesis_height,
            head: None,
            header_head: None,
            final_head: None,
            headers: Map::empty(),
            blocks: Map::empty(),
            chunk_extras: Map::empty(),
            block_hash_by_height: Map::empty(),
            challenged_blocks: Map::empty(),
            block_refcounts: Map::empty(),
            next_block_hashes: Map::empty(),
            records: Map::empty(),
            trie_changes: Seq::empty(),
            store_updates: Seq::empty(),
            blocks_to_catchup: Seq::empty(),
            state_sync_infos: Seq::empty(),
        }
    }

    /// This store with the writes of `staged` on top.
    pub open spec fn overlay(self, staged: StoreView) -> StoreView {
        StoreView {
            genesis_height: self.genesis_height,
            head: or_else(staged.head, self.head),
            header_head: or_else(staged.header_head, self.header_head),
            final_head: or_else(staged.final_head, self.final_head),
            headers: self.headers.union_prefer_right(staged.headers),
            blocks: self.blocks.union_prefer_right(staged.blocks),
            chunk_extras: self.chunk_extras.union_prefer_right(staged.chunk_extras),
            block_hash_by_height: self.block_hash_by_height.union_prefer_right(
                staged.block_hash_by_height,
            ),
            challenged_blocks: self.challenged_blocks.union_prefer_right(staged.challenged_blocks),
            block_refcounts: self.block_refcounts.union_prefer_right(staged.block_refcounts),
            next_block_hashes: self.next_block_hashes.union_prefer_right(staged.next_block_hashes),
            records: self.records.union_prefer_right(staged.records),
            trie_changes: self.trie_changes + staged.trie_changes,
            store_updates: self.store_updates + staged.store_updates,
            blocks_to_catchup: self.blocks_to_catchup + staged.blocks_to_catchup,
            state_sync_infos: self.state_sync_infos + staged.state_sync_infos,
        }
    }

    /// The header of a block, or that it is missing.
    pub open spec fn get_block_header(self, hash: CryptoHash) -> Result<BlockHeader, Error> {
        if self.headers.contains_key(hash) {
            Ok(self.headers[hash])
        } else {
            Err(Error::DBNotFound(Missing::BlockHeader))
        }
    }

    /// The canonical block at a height, or that there is none.
    pub open spec fn get_block_hash_by_height(self, height: BlockHeight) -> Result<
        CryptoHash,
        Error,
    > {
        if self.block_hash_by_height.contains_key(height) {
            Ok(self.block_hash_by_height[height])
        } else {
            Err(Error::DBNotFound(Missing::BlockHashByHeight))
        }
    }

    /// The checkpoint of a shard after a block, or that it is missing.
    pub open spec fn get_chunk_extra(self, block_hash: CryptoHash, shard_uid: ShardUId) -> Result<
        ChunkExtraView,
        Error,
    > {
        let key = BlockShardUId { block_hash, shard_uid };
        if self.chunk_extras.contains_key(key) {
            Ok(self.chunk_extras[key])
        } else {
            Err(Error::DBNotFound(Missing::ChunkExtra))
        }
    }

    /// A block, or that it is missing.
    pub open spec fn get_block(self, hash: CryptoHash) -> Result<BlockView, Error> {
        if self.blocks.contains_key(hash) {
            Ok(self.blocks[hash])
        } else {
            Err(Error::DBNotFound(Missing::Block))
        }
    }

    /// A tip, or that it was never set.
    pub open spec fn tip_or(tip: Option<Tip>, missing: Missing) -> Result<Tip, Error> {
        match tip {
            Some(t) => Ok(t),
            None => Err(Error::DBNotFound(missing)),
        }
    }

    /// How far the walk from `hash` has to go down: the height of its header.
    pub open spec fn height_of(self, hash: CryptoHash) -> nat {
        if self.headers.contains_key(hash) {
            self.headers[hash].height as nat
        } else {
            0
        }
    }

    /// The header at `height` on the chain that ends in the block `hash`: the
    /// walk goes from header to predecessor while the height is above
    /// `height`. It fails where a header is missing, where the chain passes
    /// `height` without a block at it, and where a predecessor is not lower
    /// than its successor.
    pub open spec fn get_block_header_on_chain_by_height(
        self,
        hash: CryptoHash,
        height: BlockHeight,
    ) -> Result<BlockHeader, Error>
        decreases self.height_of(hash),
    {
        if !self.headers.contains_key(hash) {
            Err(Error::DBNotFound(Missing::BlockHeader))
        } else {
            let header = self.headers[hash];
            if header.height > height {
                if !self.headers.contains_key(header.prev_hash) {
                    Err(Error::DBNotFound(Missing::BlockHeader))
                } else if self.headers[header.prev_hash].height >= header.height {
                    Err(Error::InvalidBlockHeight(self.headers[header.prev_hash].height))
                } else {
                    self.get_block_header_on_chain_by_height(header.prev_hash, height)
                }
            } else if header.height < height {
                Err(Error::InvalidBlockHeight(header.height))
            } else {
                Ok(header)
            }
        }
    }

    /// Files a header under its hash.
    pub open spec fn save_block_header(self, header: BlockHeader) -> StoreView {
        StoreView { headers: self.headers.insert(header.hash, header), ..self }
    }

    /// Files a block under the hash of its header.
    pub open spec fn save_block(self, block: BlockView) -> StoreView {
        StoreView { blocks: self.blocks.insert(block.header.hash, block), ..self }
    }

    /// Files the checkpoint of a shard after a block, in place of what was
    /// there.
    pub open spec fn save_chunk_extra(
        self,
        block_hash: CryptoHash,
        shard_uid: ShardUId,
        chunk_extra: ChunkExtraView,
    ) -> StoreView {
        StoreView {
            chunk_extras: self.chunk_extras.insert(
                BlockShardUId { block_hash, shard_uid },
                chunk_extra,
            ),
            ..self
        }
    }

    /// Files `record` under `key`, in place of what was there.
    pub open spec fn save_record(self, key: RecordKey, record: Record) -> StoreView {
        StoreView { records: self.records.insert(key, record), ..self }
    }

    /// Adds trie changes to those to be written.
    pub open spec fn save_trie_changes(self, trie_changes: TrieChanges) -> StoreView {
        StoreView { trie_changes: self.trie_changes.push(trie_changes), ..self }
    }

    /// Takes the writes of a collaborator into the transaction.
    pub open spec fn merge(self, store_update: StoreUpdate) -> StoreView {
        StoreView { store_updates: self.store_updates.push(store_update), ..self }
    }

    /// Notes that the block `hash` on `prev_hash` is to be applied again once
    /// the node has caught up.
    pub open spec fn add_block_to_catchup(self, prev_hash: CryptoHash, hash: CryptoHash) -> StoreView {
        StoreView { blocks_to_catchup: self.blocks_to_catchup.push((prev_hash, hash)), ..self }
    }

    /// Adds a request to bring shards up from a snapshot.
    pub open spec fn add_state_sync_info(self, info: StateSyncInfo) -> StoreView {
        StoreView { state_sync_infos: self.state_sync_infos.push(info), ..self }
    }

    /// Files `next` as the canonical successor of `hash`.
    pub open spec fn save_next_block_hash(self, hash: CryptoHash, next: CryptoHash) -> StoreView {
        StoreView { next_block_hashes: self.next_block_hashes.insert(hash, next), ..self }
    }

    /// Marks a block as proven invalid, with the block that carried the proof.
    pub open spec fn save_challenged_block(
        self,
        hash: CryptoHash,
        challenger: Option<CryptoHash>,
    ) -> StoreView {
        StoreView { challenged_blocks: self.challenged_blocks.insert(hash, challenger), ..self }
    }

    /// The number of blocks known to build on a block.
    pub open spec fn block_refcount(self, hash: CryptoHash) -> u64 {
        if self.block_refcounts.contains_key(hash) {
            self.block_refcounts[hash]
        } else {
            0
        }
    }

    /// One more block builds on `hash`. The count stays at the largest number
    /// once it has reached it.
    pub open spec fn inc_block_refcount(self, hash: CryptoHash) -> StoreView {
        let count = self.block_refcount(hash);
        StoreView {
            block_refcounts: self.block_refcounts.insert(
                hash,
                if count == u64::MAX {
                    count
                } else {
                    (count + 1) as u64
                },
            ),
            ..self
        }
    }

    /// Moves the final head to `tip`.
    pub open spec fn save_final_head(self, tip: Tip) -> StoreView {
        StoreView { final_head: Some(tip), ..self }
    }

    /// The header head moves to `tip`, unless the block of `tip` is challenged.
    pub open spec fn save_header_head_if_not_challenged(self, tip: Tip) -> (
        StoreView,
        Result<(), Error>,
    ) {
        if self.challenged_blocks.contains_key(tip.last_block_hash) {
            (self, Err(Error::ChallengedBlockOnChain))
        } else {
            (StoreView { header_head: Some(tip), ..self }, Ok(()))
        }
    }

    /// The head moves to `tip` and the block of `tip` becomes the canonical one
    /// at its height, unless that block is challenged.
    pub open spec fn save_body_head(self, tip: Tip) -> (StoreView, Result<(), Error>) {
        if self.challenged_blocks.contains_key(tip.last_block_hash) {
            (self, Err(Error::ChallengedBlockOnChain))
        } else {
            (
                StoreView {
                    head: Some(tip),
                    block_hash_by_height: self.block_hash_by_height.insert(
                        tip.height,
                        tip.last_block_hash,
                    ),
                    ..self
                },
                Ok(()),
            )
        }
    }

    /// Both the head and the header head move to `tip`, unless the block of
    /// `tip` is challenged.
    pub open spec fn save_head(self, tip: Tip) -> (StoreView, Result<(), Error>) {
        let (with_body, done) = self.save_body_head(tip);
        if done is Err {
            (self, done)
        } else {
            with_body.save_header_head_if_not_challenged(tip)
        }
    }
}

/// What has been committed of the chain.
pub struct ChainStore {
    genesis_height: BlockHeight,
    head: Option<Tip>,
    header_head: Option<Tip>,
    final_head: Option<Tip>,
    headers: Table<CryptoHash, BlockHeader>,
    blocks: Table<CryptoHash, Block>,
    chunk_extras: Table<BlockShardUId, ChunkExtra>,
    block_hash_by_height: Table<BlockHeight, CryptoHash>,
    challenged_blocks: Table<CryptoHash, Option<CryptoHash>>,
    block_refcounts: Table<CryptoHash, u64>,
    next_block_hashes: Table<CryptoHash, CryptoHash>,
    records: Table<RecordKey, Record>,
    trie_changes: Vec<TrieChanges>,
    store_updates: Vec<StoreUpdate>,
    blocks_to_catchup: Vec<(CryptoHash, CryptoHash)>,
    state_sync_infos: Vec<StateSyncInfo>,
}

impl View for ChainStore {
    type V = StoreView;

    closed spec fn view(&self) -> StoreView {
        StoreView {
            genesis_height: self.genesis_height,
            head: self.head,
            header_head: self.header_head,
            final_head: self.final_head,
            headers: self.headers@,
            blocks: self.blocks@,
            chunk_extras: self.chunk_extras@,
            block_hash_by_height: self.block_hash_by_height@,
            challenged_blocks: self.challenged_blocks@,
            block_refcounts: self.block_refcounts@,
            next_block_hashes: self.next_block_hashes@,
            records: self.records@,
            trie_changes: self.trie_changes@,
            store_updates: self.store_updates@,
            blocks_to_catchup: self.blocks_to_catchup@,
            state_sync_infos: self.state_sync_infos@,
        }
    }
}

/// The tip in a slot, or that the slot was never set.
fn tip_or(tip: &Option<Tip>, missing: Missing) -> (r: Result<Tip, Error>)
    ensures
        r == StoreView::tip_or(*tip, missing),
{
    match tip {
        Some(t) => Ok(*t),
        None => Err(Error::DBNotFound(missing)),
    }
}

impl ChainStore {
    /// A store without blocks, for a chain that starts at `genesis_height`.
    pub fn new(genesis_height: BlockHeight) -> (store: ChainStore)
        ensures
            store@ == StoreView::empty(genesis_height),
    {
        let store = ChainStore {
            genesis_height,
            head: None,
            header_head: None,
            final_head: None,
            headers: Table::new(),
            blocks: Table::new(),
            chunk_extras: Table::new(),
            block_hash_by_height: Table::new(),
            challenged_blocks: Table::new(),
            block_refcounts: Table::new(),
            next_block_hashes: Table::new(),
            records: Table::new(),
            trie_changes: Vec::new(),
            store_updates: Vec::new(),
            blocks_to_catchup: Vec::new(),
            state_sync_infos: Vec::new(),
        };
        assert(store@ =~= StoreView::empty(genesis_height));
        store
    }

    /// A transaction on this store.
    pub fn store_update(&mut self) -> (update: ChainStoreUpdate<'_>)
        ensures
            update@ == old(self)@,
            update.committed() == old(self)@,
            *final(update.base) == *final(self),
    {
        ChainStoreUpdate::new(self)
    }

    /// The height at which the chain starts.
    pub fn get_genesis_height(&self) -> (r: BlockHeight)
        ensures
            r == self@.genesis_height,
    {
        self.genesis_height
    }

    /// The head, or that it was never set.
    pub fn head(&self) -> (r: Result<Tip, Error>)
        ensures
            r == StoreView::tip_or(self@.head, Missing::Head),
    {
        tip_or(&self.head, Missing::Head)
    }

    /// The header head, or that it was never set.
    pub fn header_head(&self) -> (r: Result<Tip, Error>)
        ensures
            r == StoreView::tip_or(self@.header_head, Missing::HeaderHead),
    {
        tip_or(&self.header_head, Missing::HeaderHead)
    }

    /// The final head, or that it was never set.
    pub fn final_head(&self) -> (r: Result<Tip, Error>)
        ensures
            r == StoreView::tip_or(self@.final_head, Missing::FinalHead),
    {
        tip_or(&self.final_head, Missing::FinalHead)
    }

    /// The header of a block, or that it is missing.
    pub fn get_block_header(&self, hash: &CryptoHash) -> (r: Result<BlockHeader, Error>)
        ensures
            r == self@.get_block_header(*hash),
    {
        match self.headers.get(hash) {
            Some(header) => Ok(*header),
            None => Err(Error::DBNotFound(Missing::BlockHeader)),
        }
    }

    /// A block, or that it is missing.
    pub fn get_block(&self, hash: &CryptoHash) -> (r: Result<&Block, Error>)
        ensures
            match r {
                Ok(block) => self@.get_block(*hash) == Ok::<BlockView, Error>(block@),
                Err(e) => self@.get_block(*hash) == Err::<BlockView, Error>(e),
            },
    {
        match self.blocks.get(hash) {
            Some(block) => Ok(block),
            None => Err(Error::DBNotFound(Missing::Block)),
        }
    }

    /// The checkpoint of a shard after a block, or that it is missing.
    pub fn get_chunk_extra(&self, block_hash: &CryptoHash, shard_uid: &ShardUId) -> (r: Result<
        &ChunkExtra,
        Error,
    >)
        ensures
            match r {
                Ok(extra) => self@.get_chunk_extra(*block_hash, *shard_uid) == Ok::<
                    ChunkExtraView,
                    Error,
                >(extra@),
                Err(e) => self@.get_chunk_extra(*block_hash, *shard_uid) == Err::<
                    ChunkExtraView,
                    Error,
                >(e),
            },
    {
        let key = BlockShardUId { block_hash: *block_hash, shard_uid: *shard_uid };
        match self.chunk_extras.get(&key) {
            Some(extra) => Ok(extra),
            None => Err(Error::DBNotFound(Missing::ChunkExtra)),
        }
    }

    /// The block of the canonical chain at a height, or that there is none.
    pub fn get_block_hash_by_height(&self, height: BlockHeight) -> (r: Result<CryptoHash, Error>)
        ensures
            r == self@.get_block_hash_by_height(height),
    {
        match self.block_hash_by_height.get(&height) {
            Some(hash) => Ok(*hash),
            None => Err(Error::DBNotFound(Missing::BlockHashByHeight)),
        }
    }

    /// Whether a block is marked as proven invalid.
    pub fn is_block_challenged(&self, hash: &CryptoHash) -> (r: bool)
        ensures
            r == self@.challenged_blocks.contains_key(*hash),
    {
        self.challenged_blocks.contains_key(hash)
    }

    /// The block that carried the proof against a block, where the block is
    /// marked and a block carried the proof.
    pub fn get_challenger(&self, hash: &CryptoHash) -> (r: Option<CryptoHash>)
        ensures
            r == (if self@.challenged_blocks.contains_key(*hash) {
                self@.challenged_blocks[*hash]
            } else {
                None
            }),
    {
        match self.challenged_blocks.get(hash) {
            Some(challenger) => *challenger,
            None => None,
        }
    }

    /// How many blocks are known to build on a block.
    pub fn get_block_refcount(&self, hash: &CryptoHash) -> (r: u64)
        ensures
            r == self@.block_refcount(*hash),
    {
        match self.block_refcounts.get(hash) {
            Some(count) => *count,
            None => 0,
        }
    }

    /// The canonical successor of a block, where one is filed.
    pub fn get_next_block_hash(&self, hash: &CryptoHash) -> (r: Option<CryptoHash>)
        ensures
            r.is_some() == self@.next_block_hashes.contains_key(*hash),
            r matches Some(next) ==> next == self@.next_block_hashes[*hash],
    {
        match self.next_block_hashes.get(hash) {
            Some(next) => Some(*next),
            None => None,
        }
    }

    /// The record under `key`, where one is filed.
    pub fn get_record(&self, key: &RecordKey) -> (r: Option<&Record>)
        ensures
            r.is_some() == self@.records.contains_key(*key),
            r matches Some(record) ==> *record == self@.records[*key],
    {
        self.records.get(key)
    }

    /// The trie changes to be written, in the order they came.
    pub fn trie_changes(&self) -> (r: &Vec<TrieChanges>)
        ensures
            r@ == self@.trie_changes,
    {
        &self.trie_changes
    }

    /// The writes of collaborators, in the order they came.
    pub fn store_updates(&self) -> (r: &Vec<StoreUpdate>)
        ensures
            r@ == self@.store_updates,
    {
        &self.store_updates
    }

    /// The blocks to be applied again, each with its predecessor.
    pub fn blocks_to_catchup(&self) -> (r: &Vec<(CryptoHash, CryptoHash)>)
        ensures
            r@ == self@.blocks_to_catchup,
    {
        &self.blocks_to_catchup
    }

    /// The requests to bring shards up from a snapshot.
    pub fn state_sync_infos(&self) -> (r: &Vec<StateSyncInfo>)
        ensures
            r@ == self@.state_sync_infos,
    {
        &self.state_sync_infos
    }

    /// Takes over what `staged` holds, on top of what is here.
    fn absorb(&mut self, staged: ChainStore)
        ensures
            final(self)@ == old(self)@.overlay(staged@),
    {
        let ChainStore {
            genesis_height: _,
            head,
            header_head,
            final_head,
            headers,
            blocks,
            chunk_extras,
            block_hash_by_height,
            challenged_blocks,
            block_refcounts,
            next_block_hashes,
            records,
            trie_changes: mut trie_changes,
            store_updates: mut store_updates,
            blocks_to_catchup: mut blocks_to_catchup,
            state_sync_infos: mut state_sync_infos,
        } = staged;
        if head.is_some() {
            self.head = head;
        }
        if header_head.is_some() {
            self.header_head = header_head;
        }
        if final_head.is_some() {
            self.final_head = final_head;
        }
        self.headers.absorb(headers);
        self.blocks.absorb(blocks);
        self.chunk_extras.absorb(chunk_extras);
        self.block_hash_by_height.absorb(block_hash_by_height);
        self.challenged_blocks.absorb(challenged_blocks);
        self.block_refcounts.absorb(block_refcounts);
        self.next_block_hashes.absorb(next_block_hashes);
        self.records.absorb(records);
        self.trie_changes.append(&mut trie_changes);
        self.store_updates.append(&mut store_updates);
        self.blocks_to_catchup.append(&mut blocks_to_catchup);
        self.state_sync_infos.append(&mut state_sync_infos);
        assert(final(self)@ =~= old(self)@.overlay(staged@));
    }
}

/// A transaction on a chain store: it reads what is committed with its own
/// writes on top, and keeps its writes until `commit`.
pub struct ChainStoreUpdate<'a> {
    /// The store that the transaction will commit to.
    pub base: &'a mut ChainStore,
    /// The writes of the transaction.
    pub staged: ChainStore,
}

impl<'a> View for ChainStoreUpdate<'a> {
    type V = StoreView;

    /// The store as the transaction sees it.
    closed spec fn view(&self) -> StoreView {
        (*self.base)@.overlay(self.staged@)
    }
}

impl<'a> ChainStoreUpdate<'a> {
    /// What is committed: the transaction does not change it before `commit`.
    pub open spec fn committed(&self) -> StoreView {
        (*self.base)@
    }

    /// A transaction on `store`, with no writes yet.
    pub fn new(store: &'a mut ChainStore) -> (update: Self)
        ensures
            update@ == old(store)@,
            update.committed() == old(store)@,
            *final(update.base) == *final(store),
    {
        let staged = ChainStore::new(store.genesis_height);
        let update = ChainStoreUpdate { base: store, staged };
        assert(update@ =~= old(store)@);
        update
    }

    /// Writes everything staged to the store.
    pub fn commit(self)
        ensures
            final(self.base)@ == self@,
    {
        let ChainStoreUpdate { base, staged } = self;
        base.absorb(staged);
    }

    /// The height at which the chain starts.
    pub fn get_genesis_height(&self) -> (r: BlockHeight)
        ensures
            r == self@.genesis_height,
    {
        self.base.genesis_height
    }

    /// The head, or that it was never set.
    pub fn head(&self) -> (r: Result<Tip, Error>)
        ensures
            r == StoreView::tip_or(self@.head, Missing::Head),
    {
        if self.staged.head.is_some() {
            tip_or(&self.staged.head, Missing::Head)
        } else {
            tip_or(&self.base.head, Missing::Head)
        }
    }

    /// The header head, or that it was never set.
    pub fn header_head(&self) -> (r: Result<Tip, Error>)
        ensures
            r == StoreView::tip_or(self@.header_head, Missing::HeaderHead),
    {
        if self.staged.header_head.is_some() {
            tip_or(&self.staged.header_head, Missing::HeaderHead)
        } else {
            tip_or(&self.base.header_head, Missing::HeaderHead)
        }
    }

    /// The final head, or that it was never set.
    pub fn final_head(&self) -> (r: Result<Tip, Error>)
        ensures
            r == StoreView::tip_or(self@.final_head, Missing::FinalHead),
    {
        if self.staged.final_head.is_some() {
            tip_or(&self.staged.final_head, Missing::FinalHead)
        } else {
            tip_or(&self.base.final_head, Missing::FinalHead)
        }
    }

    /// The header of a block, or that it is missing.
    pub fn get_block_header(&self, hash: &CryptoHash) -> (r: Result<BlockHeader, Error>)
        ensures
            r == self@.get_block_header(*hash),
    {
        match self.staged.headers.get(hash) {
            Some(header) => Ok(*header),
            None => self.base.get_block_header(hash),
        }
    }

    /// The header of the predecessor of `header`.
    pub fn get_previous_header(&self, header: &BlockHeader) -> (r: Result<BlockHeader, Error>)
        ensures
            r == self@.get_block_header(header.prev_hash),
    {
        self.get_block_header(&header.prev_hash)
    }

    /// A block, or that it is missing.
    pub fn get_block(&self, hash: &CryptoHash) -> (r: Result<&Block, Error>)
        ensures
            match r {
                Ok(block) => self@.get_block(*hash) == Ok::<BlockView, Error>(block@),
                Err(e) => self@.get_block(*hash) == Err::<BlockView, Error>(e),
            },
    {
        match self.staged.blocks.get(hash) {
            Some(block) => Ok(block),
            None => self.base.get_block(hash),
        }
    }

    /// The checkpoint of a shard after a block, or that it is missing.
    pub fn get_chunk_extra(&self, block_hash: &CryptoHash, shard_uid: &ShardUId) -> (r: Result<
        &ChunkExtra,
        Error,
    >)
        ensures
            match r {
                Ok(extra) => self@.get_chunk_extra(*block_hash, *shard_uid) == Ok::<
                    ChunkExtraView,
                    Error,
                >(extra@),
                Err(e) => self@.get_chunk_extra(*block_hash, *shard_uid) == Err::<
                    ChunkExtraView,
                    Error,
                >(e),
            },
    {
        let key = BlockShardUId { block_hash: *block_hash, shard_uid: *shard_uid };
        match self.staged.chunk_extras.get(&key) {
            Some(extra) => Ok(extra),
            None => self.base.get_chunk_extra(block_hash, shard_uid),
        }
    }

    /// The block of the canonical chain at a height, or that there is none.
    pub fn get_block_hash_by_height(&self, height: BlockHeight) -> (r: Result<CryptoHash, Error>)
        ensures
            r == self@.get_block_hash_by_height(height),
    {
        match self.staged.block_hash_by_height.get(&height) {
            Some(hash) => Ok(*hash),
            None => self.base.get_block_hash_by_height(height),
        }
    }

    /// Whether a block is marked as proven invalid.
    pub fn is_block_challenged(&self, hash: &CryptoHash) -> (r: bool)
        ensures
            r == self@.challenged_blocks.contains_key(*hash),
    {
        self.staged.is_block_challenged(hash) || self.base.is_block_challenged(hash)
    }

    /// How many blocks are known to build on a block.
    pub fn get_block_refcount(&self, hash: &CryptoHash) -> (r: u64)
        ensures
            r == self@.block_refcount(*hash),
    {
        match self.staged.block_refcounts.get(hash) {
            Some(count) => *count,
            None => self.base.get_block_refcount(hash),
        }
    }

    /// The canonical successor of a block, where one is filed.
    pub fn get_next_block_hash(&self, hash: &CryptoHash) -> (r: Option<CryptoHash>)
        ensures
            r.is_some() == self@.next_block_hashes.contains_key(*hash),
            r matches Some(next) ==> next == self@.next_block_hashes[*hash],
    {
        match self.staged.next_block_hashes.get(hash) {
            Some(next) => Some(*next),
            None => self.base.get_next_block_hash(hash),
        }
    }

    /// The record under `key`, where one is filed.
    pub fn get_record(&self, key: &RecordKey) -> (r: Option<&Record>)
        ensures
            r.is_some() == self@.records.contains_key(*key),
            r matches Some(record) ==> *record == self@.records[*key],
    {
        match self.staged.records.get(key) {
            Some(record) => Some(record),
            None => self.base.get_record(key),
        }
    }

    /// The header at `height` on the chain that ends in the block `sync_hash`.
    pub fn get_block_header_on_chain_by_height(
        &self,
        sync_hash: &CryptoHash,
        height: BlockHeight,
    ) -> (r: Result<BlockHeader, Error>)
        ensures
            r == self@.get_block_header_on_chain_by_height(*sync_hash, height),
    {
        let mut hash: CryptoHash = *sync_hash;
        let mut header: BlockHeader = match self.get_block_header(sync_hash) {
            Ok(header) => header,
            Err(e) => {
                return Err(e);
            },
        };
        while header.height > height
            invariant
                self@.headers.contains_key(hash),
                header == self@.headers[hash],
                self@.get_block_header_on_chain_by_height(*sync_hash, height)
                    == self@.get_block_header_on_chain_by_height(hash, height),
            decreases header.height,
        {
            match self.get_block_header(&header.prev_hash) {
                Err(e) => {
                    return Err(e);
                },
                Ok(prev) => {
                    if prev.height >= header.height {
                        return Err(Error::InvalidBlockHeight(prev.height));
                    }
                    hash = header.prev_hash;
                    header = prev;
                },
            }
        }
        if header.height < height {
            return Err(Error::InvalidBlockHeight(header.height));
        }
        Ok(header)
    }

    /// Files a header under its hash.
    pub fn save_block_header(&mut self, header: BlockHeader)
        ensures
            final(self)@ == old(self)@.save_block_header(header),
            final(self).base == old(self).base,
    {
        self.staged.headers.insert(header.hash, header);
        assert(final(self)@ =~= old(self)@.save_block_header(header));
    }

    /// Files a block under the hash of its header.
    pub fn save_block(&mut self, block: Block)
        ensures
            final(self)@ == old(self)@.save_block(block@),
            final(self).base == old(self).base,
    {
        self.staged.blocks.insert(block.header.hash, block);
        assert(final(self)@ =~= old(self)@.save_block(block@));
    }

    /// Files the checkpoint of a shard after a block, in place of what was
    /// there.
    pub fn save_chunk_extra(
        &mut self,
        block_hash: &CryptoHash,
        shard_uid: &ShardUId,
        chunk_extra: ChunkExtra,
    )
        ensures
            final(self)@ == old(self)@.save_chunk_extra(*block_hash, *shard_uid, chunk_extra@),
            final(self).base == old(self).base,
    {
        let key = BlockShardUId { block_hash: *block_hash, shard_uid: *shard_uid };
        self.staged.chunk_extras.insert(key, chunk_extra);
        assert(final(self)@ =~= old(self)@.save_chunk_extra(*block_hash, *shard_uid, chunk_extra@));
    }

    /// Files `record` under `key`, in place of what was there.
    pub fn save_record(&mut self, key: RecordKey, record: Record)
        ensures
            final(self)@ == old(self)@.save_record(key, record),
            final(self).base == old(self).base,
    {
        self.staged.records.insert(key, record);
        assert(final(self)@ =~= old(self)@.save_record(key, record));
    }

    /// Adds trie changes to those to be written.
    pub fn save_trie_changes(&mut self, trie_changes: TrieChanges)
        ensures
            final(self)@ == old(self)@.save_trie_changes(trie_changes),
            final(self).base == old(self).base,
    {
        self.staged.trie_changes.push(trie_changes);
        assert(final(self)@ =~= old(self)@.save_trie_changes(trie_changes));
    }

    /// Takes the writes of a collaborator into the transaction.
    pub fn merge(&mut self, store_update: StoreUpdate)
        ensures
            final(self)@ == old(self)@.merge(store_update),
            final(self).base == old(self).base,
    {
        self.staged.store_updates.push(store_update);
        assert(final(self)@ =~= old(self)@.merge(store_update));
    }

    /// Notes that the block `hash` on `prev_hash` is to be applied again once
    /// the node has caught up.
    pub fn add_block_to_catchup(&mut self, prev_hash: CryptoHash, hash: CryptoHash)
        ensures
            final(self)@ == old(self)@.add_block_to_catchup(prev_hash, hash),
            final(self).base == old(self).base,
    {
        self.staged.blocks_to_catchup.push((prev_hash, hash));
        assert(final(self)@ =~= old(self)@.add_block_to_catchup(prev_hash, hash));
    }

    /// Adds a request to bring shards up from a snapshot.
    pub fn add_state_sync_info(&mut self, info: StateSyncInfo)
        ensures
            final(self)@ == old(self)@.add_state_sync_info(info),
            final(self).base == old(self).base,
    {
        self.staged.state_sync_infos.push(info);
        assert(final(self)@ =~= old(self)@.add_state_sync_info(info));
    }

    /// Files `next` as the canonical successor of `hash`.
    pub fn save_next_block_hash(&mut self, hash: &CryptoHash, next: CryptoHash)
        ensures
            final(self)@ == old(self)@.save_next_block_hash(*hash, next),
            final(self).base == old(self).base,
    {
        self.staged.next_block_hashes.insert(*hash, next);
        assert(final(self)@ =~= old(self)@.save_next_block_hash(*hash, next));
    }

    /// Marks a block as proven invalid, with the block that carried the proof.
    pub fn save_challenged_block(&mut self, hash: CryptoHash, challenger: Option<CryptoHash>)
        ensures
            final(self)@ == old(self)@.save_challenged_block(hash, challenger),
            final(self).base == old(self).base,
    {
        self.staged.challenged_blocks.insert(hash, challenger);
        assert(final(self)@ =~= old(self)@.save_challenged_block(hash, challenger));
    }

    /// Counts one more block that builds on `hash`.
    pub fn inc_block_refcount(&mut self, hash: &CryptoHash)
        ensures
            final(self)@ == old(self)@.inc_block_refcount(*hash),
            final(self).base == old(self).base,
    {
        let count = self.get_block_refcount(hash);
        let raised = if count == u64::MAX {
            count
        } else {
            count + 1
        };
        self.staged.block_refcounts.insert(*hash, raised);
        assert(final(self)@ =~= old(self)@.inc_block_refcount(*hash));
    }

    /// Moves the final head to `tip`.
    pub fn save_final_head(&mut self, tip: &Tip)
        ensures
            final(self)@ == old(self)@.save_final_head(*tip),
            final(self).base == old(self).base,
    {
        self.staged.final_head = Some(*tip);
        assert(final(self)@ =~= old(self)@.save_final_head(*tip));
    }

    /// Moves the header head to `tip`, unless the block of `tip` is challenged.
    pub fn save_header_head_if_not_challenged(&mut self, tip: &Tip) -> (r: Result<(), Error>)
        ensures
            (final(self)@, r) == old(self)@.save_header_head_if_not_challenged(*tip),
            final(self).base == old(self).base,
    {
        if self.is_block_challenged(&tip.last_block_hash) {
            return Err(Error::ChallengedBlockOnChain);
        }
        self.staged.header_head = Some(*tip);
        assert(final(self)@ =~= old(self)@.save_header_head_if_not_challenged(*tip).0);
        Ok(())
    }

    /// Moves the head to `tip` and makes the block of `tip` the canonical one at
    /// its height, unless that block is challenged.
    pub fn save_body_head(&mut self, tip: &Tip) -> (r: Result<(), Error>)
        ensures
            (final(self)@, r) == old(self)@.save_body_head(*tip),
            final(self).base == old(self).base,
    {
        if self.is_block_challenged(&tip.last_block_hash) {
            return Err(Error::ChallengedBlockOnChain);
        }
        self.staged.head = Some(*tip);
        self.staged.block_hash_by_height.insert(tip.height, tip.last_block_hash);
        assert(final(self)@ =~= old(self)@.save_body_head(*tip).0);
        Ok(())
    }

    /// Moves both the head and the header head to `tip`, unless the block of
    /// `tip` is challenged.
    pub fn save_head(&mut self, tip: &Tip) -> (r: Result<(), Error>)
        ensures
            (final(self)@, r) == old(self)@.save_head(*tip),
            final(self).base == old(self).base,
    {
        if self.is_block_challenged(&tip.last_block_hash) {
            return Err(Error::ChallengedBlockOnChain);
        }
        self.staged.head = Some(*tip);
        self.staged.block_hash_by_height.insert(tip.height, tip.last_block_hash);
        self.staged.header_head = Some(*tip);
        assert(final(self)@ =~= old(self)@.save_head(*tip).0);
        Ok(())
    }
}

} // verus!
