//! The store behind the registry: a finite map from name keys to owners.
//!
//! Keys are digests, so their leading bytes are spread evenly. The table
//! files each key under the word made of its first eight bytes and keeps the
//! few keys that share a word together in one bucket.

use std::collections::HashMap;
use vstd::prelude::*;
use crate::bucket::Bucket;
use crate::ident::{NameKey, OwnerId};

verus! {

broadcast use vstd::std_specs::hash::group_hash_axioms;

/// The word under which a key is filed: its first eight bytes, the first one
/// lowest.
pub open spec fn bucket_of(name: NameKey) -> u64 {
    let b = name.bytes;
    (b[0] as u64) | ((b[1] as u64) << 8) | ((b[2] as u64) << 16) | ((b[3] as u64) << 24) | ((
    b[4] as u64) << 32) | ((b[5] as u64) << 40) | ((b[6] as u64) << 48) | ((b[7] as u64) << 56)
}

/// Computes `bucket_of`.
pub fn bucket_word(name: &NameKey) -> (word: u64)
    ensures
        word == bucket_of(*name),
{
    let b = &name.bytes;
    (b[0] as u64) | ((b[1] as u64) << 8) | ((b[2] as u64) << 16) | ((b[3] as u64) << 24) | ((
    b[4] as u64) << 32) | ((b[5] as u64) << 40) | ((b[6] as u64) << 48) | ((b[7] as u64) << 56)
}

/// The map that a set of buckets stands for: a key is looked up in the
/// bucket of its word and nowhere else.
pub open spec fn table_map(buckets: Map<u64, Bucket>) -> Map<NameKey, OwnerId> {
    Map::new(
        |k: NameKey| buckets.contains_key(bucket_of(k)) && buckets[bucket_of(k)]@.contains_key(k),
        |k: NameKey| buckets[bucket_of(k)]@[k],
    )
}

/// A finite map from name keys to owners.
pub struct NameTable {
    buckets: HashMap<u64, Bucket>,
}

impl View for NameTable {
    type V = Map<NameKey, OwnerId>;

    closed spec fn view(&self) -> Map<NameKey, OwnerId> {
        table_map(self.buckets@)
    }
}

impl NameTable {
    /// The empty table.
    pub fn new() -> (table: NameTable)
        ensures
            table@ == Map::<NameKey, OwnerId>::empty(),
    {
        let table = NameTable { buckets: HashMap::new() };
        proof {
            assert(table@ =~= Map::<NameKey, OwnerId>::empty());
        }
        table
    }

    /// The owner stored under `name`, or `None` where the key is absent.
    pub fn get(&self, name: &NameKey) -> (owner: Option<OwnerId>)
        ensures
            owner == (if self@.contains_key(*name) {
                Some(self@[*name])
            } else {
                None
            }),
    {
        let word = bucket_word(name);
        match self.buckets.get(&word) {
            Some(bucket) => bucket.get(name),
            None => None,
        }
    }

    /// Whether `name` is stored.
    pub fn contains(&self, name: &NameKey) -> (present: bool)
        ensures
            present == self@.contains_key(*name),
    {
        let word = bucket_word(name);
        match self.buckets.get(&word) {
            Some(bucket) => bucket.contains(name),
            None => false,
        }
    }

    /// Stores `owner` under `name`, in place of whatever was stored there.
    pub fn insert(&mut self, name: NameKey, owner: OwnerId)
        ensures
            final(self)@ == old(self)@.insert(name, owner),
    {
        let word = bucket_word(&name);
        let mut bucket = match self.buckets.remove(&word) {
            Some(found) => found,
            None => Bucket::new(),
        };
        bucket.insert(name, owner);
        self.buckets.insert(word, bucket);
        proof {
            assert(self@ =~= old(self)@.insert(name, owner));
        }
    }

    /// Drops `name` and what was stored under it; an absent key changes nothing.
    pub fn remove(&mut self, name: &NameKey)
        ensures
            final(self)@ == old(self)@.remove(*name),
    {
        let word = bucket_word(name);
        match self.buckets.remove(&word) {
            Some(found) => {
                let mut bucket = found;
                bucket.remove(name);
                let ghost rest = bucket@;
                if !bucket.is_empty() {
                    self.buckets.insert(word, bucket);
                }
                proof {
                    assert forall|k: NameKey| #[trigger]
                        self@.contains_key(k) == old(self)@.remove(*name).contains_key(k) by {
                        if bucket_of(k) == word {
                            assert(rest.contains_key(k) == (k != *name && found@.contains_key(k)));
                        }
                    }
                    assert(self@ =~= old(self)@.remove(*name));
                }
            },
            None => {
                proof {
                    assert(self@ =~= old(self)@.remove(*name));
                }
            },
        }
    }
}

} // verus!
