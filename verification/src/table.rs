//! A small keyed table: what the store keeps of one kind of record.
//!
//! A table holds at most one value for a key. Its view is the map from the
//! keys it holds to the views of their values.

use vstd::prelude::*;
use crate::hash::CryptoHash;
use crate::shard::ShardUId;

verus! {

/// A key of a table: a plain value whose equality can be computed.
pub trait Key: Copy {
    /// Whether the two keys are the same value.
    fn key_eq(&self, other: &Self) -> (r: bool)
        ensures
            r == (*self == *other),
    ;
}

impl Key for CryptoHash {
    fn key_eq(&self, other: &Self) -> (r: bool) {
        self.same(other)
    }
}

impl Key for u64 {
    fn key_eq(&self, other: &Self) -> (r: bool) {
        *self == *other
    }
}

/// A block and one of its shards, by shard identity.
#[derive(Clone, Copy, Debug, PartialEq, Eq)]
pub struct BlockShardUId {
    pub block_hash: CryptoHash,
    pub shard_uid: ShardUId,
}

impl Key for BlockShardUId {
    fn key_eq(&self, other: &Self) -> (r: bool) {
        self.block_hash.same(&other.block_hash) && self.shard_uid == other.shard_uid
    }
}

/// The map that a list of entries stands for. Where a key occurs more than
/// once, its first entry counts.
spec fn map_of<K, V: View>(entries: Seq<(K, V)>) -> Map<K, V::V>
    decreases entries.len(),
{
    if entries.len() == 0 {
        Map::empty()
    } else {
        map_of(entries.drop_first()).insert(entries[0].0, entries[0].1@)
    }
}

/// Whether `key` is the key of none of the first `n` entries.
spec fn absent_before<K, V>(entries: Seq<(K, V)>, key: K, n: int) -> bool {
    forall|j: int| 0 <= j < n && j < entries.len() ==> (#[trigger] entries[j]).0 != key
}

/// A key that no entry has is not in the map.
proof fn lemma_map_of_absent<K, V: View>(entries: Seq<(K, V)>, key: K)
    requires
        absent_before(entries, key, entries.len() as int),
    ensures
        !map_of(entries).contains_key(key),
    decreases entries.len(),
{
    if entries.len() > 0 {
        let rest = entries.drop_first();
        assert forall|j: int| 0 <= j < rest.len() implies (#[trigger] rest[j]).0 != key by {
            assert(entries[j + 1].0 != key);
        }
        lemma_map_of_absent(rest, key);
        assert(entries[0].0 != key);
    }
}

/// The first entry with a key gives the key's value in the map.
proof fn lemma_map_of_first<K, V: View>(entries: Seq<(K, V)>, key: K, i: int)
    requires
        0 <= i < entries.len(),
        entries[i].0 == key,
        absent_before(entries, key, i),
    ensures
        map_of(entries).contains_key(key),
        map_of(entries)[key] == entries[i].1@,
    decreases i,
{
    if i > 0 {
        let rest = entries.drop_first();
        assert forall|j: int| 0 <= j < i - 1 && j < rest.len() implies (#[trigger] rest[j]).0
            != key by {
            assert(entries[j + 1].0 != key);
        }
        lemma_map_of_first(rest, key, i - 1);
        assert(entries[0].0 != key);
    }
}

/// One more entry at the end, under a key that no entry has, adds that entry
/// to the map.
proof fn lemma_map_of_push<K, V: View>(entries: Seq<(K, V)>, key: K, value: V)
    requires
        absent_before(entries, key, entries.len() as int),
    ensures
        map_of(entries.push((key, value))) == map_of(entries).insert(key, value@),
    decreases entries.len(),
{
    let pushed = entries.push((key, value));
    if entries.len() == 0 {
        assert(pushed.drop_first() =~= entries);
        assert(pushed[0] == (key, value));
    } else {
        let rest = entries.drop_first();
        assert forall|j: int| 0 <= j < rest.len() implies (#[trigger] rest[j]).0 != key by {
            assert(entries[j + 1].0 != key);
        }
        lemma_map_of_push(rest, key, value);
        assert(pushed.drop_first() =~= rest.push((key, value)));
        assert(entries[0].0 != key);
        assert(map_of(pushed) =~= map_of(entries).insert(key, value@));
    }
}

/// Another value in the first entry with a key replaces the key's value in
/// the map.
proof fn lemma_map_of_update<K, V: View>(entries: Seq<(K, V)>, key: K, i: int, value: V)
    requires
        0 <= i < entries.len(),
        entries[i].0 == key,
        absent_before(entries, key, i),
    ensures
        map_of(entries.update(i, (key, value))) == map_of(entries).insert(key, value@),
    decreases i,
{
    let updated = entries.update(i, (key, value));
    if i == 0 {
        assert(updated.drop_first() =~= entries.drop_first());
        assert(map_of(updated) =~= map_of(entries).insert(key, value@));
    } else {
        let rest = entries.drop_first();
        assert forall|j: int| 0 <= j < i - 1 && j < rest.len() implies (#[trigger] rest[j]).0
            != key by {
            assert(entries[j + 1].0 != key);
        }
        lemma_map_of_update(rest, key, i - 1, value);
        assert(updated.drop_first() =~= rest.update(i - 1, (key, value)));
        assert(entries[0].0 != key);
        assert(map_of(updated) =~= map_of(entries).insert(key, value@));
    }
}

/// A keyed table of records.
pub struct Table<K: Key, V: View> {
    entries: Vec<(K, V)>,
}

impl<K: Key, V: View> View for Table<K, V> {
    type V = Map<K, V::V>;

    closed spec fn view(&self) -> Map<K, V::V> {
        map_of(self.entries@)
    }
}

impl<K: Key, V: View> Table<K, V> {
    /// The table without entries.
    pub fn new() -> (table: Self)
        ensures
            table@ == Map::<K, V::V>::empty(),
    {
        Table { entries: Vec::new() }
    }

    /// The place of the first entry with `key`, if there is one.
    fn position(&self, key: &K) -> (r: Option<usize>)
        ensures
            match r {
                Some(i) => i < self.entries@.len() && self.entries@[i as int].0 == *key
                    && absent_before(self.entries@, *key, i as int),
                None => absent_before(self.entries@, *key, self.entries@.len() as int),
            },
    {
        let mut i: usize = 0;
        while i < self.entries.len()
            invariant
                i <= self.entries@.len(),
                absent_before(self.entries@, *key, i as int),
            decreases self.entries@.len() - i,
        {
            if self.entries[i].0.key_eq(key) {
                return Some(i);
            }
            i += 1;
        }
        None
    }

    /// The value under `key`, if the table holds one.
    pub fn get(&self, key: &K) -> (r: Option<&V>)
        ensures
            match r {
                Some(value) => self@.contains_key(*key) && self@[*key] == value@,
                None => !self@.contains_key(*key),
            },
    {
        match self.position(key) {
            Some(i) => {
                proof {
                    lemma_map_of_first(self.entries@, *key, i as int);
                }
                Some(&self.entries[i].1)
            },
            None => {
                proof {
                    lemma_map_of_absent(self.entries@, *key);
                }
                None
            },
        }
    }

    /// Whether the table holds a value under `key`.
    pub fn contains_key(&self, key: &K) -> (r: bool)
        ensures
            r == self@.contains_key(*key),
    {
        self.get(key).is_some()
    }

    /// Puts `value` under `key`, in place of what was there.
    pub fn insert(&mut self, key: K, value: V)
        ensures
            final(self)@ == old(self)@.insert(key, value@),
    {
        match self.position(&key) {
            Some(i) => {
                proof {
                    lemma_map_of_update(self.entries@, key, i as int, value);
                }
                self.entries.set(i, (key, value));
            },
            None => {
                proof {
                    lemma_map_of_push(self.entries@, key, value);
                }
                self.entries.push((key, value));
            },
        }
    }

    /// Takes over every entry of `other`, in place of what was there under
    /// the same key.
    pub fn absorb(&mut self, other: Table<K, V>)
        ensures
            final(self)@ == old(self)@.union_prefer_right(other@),
    {
        let ghost start = self@;
        let ghost all = other.entries@;
        let mut rest = other.entries;
        assert(all.skip(all.len() as int) =~= Seq::<(K, V)>::empty());
        assert(start.union_prefer_right(Map::<K, V::V>::empty()) =~= start);
        while rest.len() > 0
            invariant
                rest@.len() <= all.len(),
                rest@ == all.take(rest@.len() as int),
                self@ == start.union_prefer_right(map_of(all.skip(rest@.len() as int))),
            decreases rest@.len(),
        {
            let ghost m = rest@.len() as int;
            let (key, value) = rest.pop().unwrap();
            proof {
                assert((key, value) == all[m - 1]);
                assert(all.skip(m - 1).drop_first() =~= all.skip(m));
                assert(start.union_prefer_right(map_of(all.skip(m))).insert(key, value@)
                    =~= start.union_prefer_right(map_of(all.skip(m - 1))));
                assert(rest@ =~= all.take(m - 1));
            }
            self.insert(key, value);
        }
        assert(all.skip(0) =~= all);
    }
}

} // verus!
