//! A small map from name keys to owners, kept as a list of entries in which
//! no key occurs twice. The table of names is made of these.

use vstd::prelude::*;
use crate::ident::{NameKey, OwnerId};

verus! {

/// One stored pair: a name and the identity that owns it.
#[derive(Clone, Copy, Debug)]
pub struct Entry {
    pub name: NameKey,
    pub owner: OwnerId,
}

/// Some entry of `s` carries the key `k`.
pub open spec fn has_name(s: Seq<Entry>, k: NameKey) -> bool {
    exists|i: int| 0 <= i < s.len() && #[trigger] s[i].name == k
}

/// An index at which `s` carries the key `k`, where there is one.
pub open spec fn index_of(s: Seq<Entry>, k: NameKey) -> int {
    choose|i: int| 0 <= i < s.len() && #[trigger] s[i].name == k
}

/// No key occurs in two entries of `s`.
pub open spec fn distinct_names(s: Seq<Entry>) -> bool {
    forall|i: int, j: int|
        0 <= i < j < s.len() ==> (#[trigger] s[i]).name != (#[trigger] s[j]).name
}

/// The map that a list of entries stands for.
pub open spec fn entries_map(s: Seq<Entry>) -> Map<NameKey, OwnerId> {
    Map::new(|k: NameKey| has_name(s, k), |k: NameKey| s[index_of(s, k)].owner)
}

/// In a list without repeated keys, the entry at `i` is what the map holds
/// under that entry's key.
pub proof fn lemma_entry_is_mapped(s: Seq<Entry>, i: int)
    requires
        distinct_names(s),
        0 <= i < s.len(),
    ensures
        entries_map(s).dom().contains(s[i].name),
        entries_map(s)[s[i].name] == s[i].owner,
{
    let k = s[i].name;
    assert(has_name(s, k));
    let j = index_of(s, k);
    assert(0 <= j < s.len() && s[j].name == k);
    if j < i {
        assert(s[j].name != s[i].name);
    } else if i < j {
        assert(s[i].name != s[j].name);
    }
}

/// Writing `entry` over the entry that carries its key stores its owner
/// under that key and leaves the other keys alone.
pub proof fn lemma_update_stores(s: Seq<Entry>, i: int, entry: Entry)
    requires
        distinct_names(s),
        0 <= i < s.len(),
        s[i].name == entry.name,
    ensures
        distinct_names(s.update(i, entry)),
        entries_map(s.update(i, entry)) == entries_map(s).insert(entry.name, entry.owner),
{
    let t = s.update(i, entry);
    assert forall|a: int, b: int| 0 <= a < b < t.len() implies (#[trigger] t[a]).name != (
    #[trigger] t[b]).name by {
        assert(s[a].name != s[b].name);
    }
    assert forall|k: NameKey| has_name(t, k) == has_name(s, k) by {
        if has_name(s, k) {
            assert(t[index_of(s, k)].name == k);
        }
        if has_name(t, k) {
            assert(s[index_of(t, k)].name == k);
        }
    }
    assert forall|k: NameKey| has_name(t, k) implies #[trigger] entries_map(t)[k] == (if k
        == entry.name {
        entry.owner
    } else {
        entries_map(s)[k]
    }) by {
        let j = index_of(t, k);
        lemma_entry_is_mapped(t, j);
        lemma_entry_is_mapped(s, j);
    }
    assert(entries_map(t) =~= entries_map(s).insert(entry.name, entry.owner));
}

/// Appending an entry whose key is new stores its owner under that key and
/// leaves the other keys alone.
pub proof fn lemma_push_stores(s: Seq<Entry>, entry: Entry)
    requires
        distinct_names(s),
        !has_name(s, entry.name),
    ensures
        distinct_names(s.push(entry)),
        entries_map(s.push(entry)) == entries_map(s).insert(entry.name, entry.owner),
{
    let t = s.push(entry);
    assert forall|a: int, b: int| 0 <= a < b < t.len() implies (#[trigger] t[a]).name != (
    #[trigger] t[b]).name by {
        if b < s.len() {
            assert(s[a].name != s[b].name);
        } else {
            assert(s[a].name != entry.name);
        }
    }
    assert forall|k: NameKey| has_name(t, k) == (k == entry.name || has_name(s, k)) by {
        if has_name(t, k) {
            let j = index_of(t, k);
            if j < s.len() {
                assert(s[j].name == k);
            }
        }
        if has_name(s, k) {
            assert(t[index_of(s, k)].name == k);
        }
        if k == entry.name {
            assert(t[s.len() as int].name == k);
        }
    }
    assert forall|k: NameKey| has_name(t, k) implies #[trigger] entries_map(t)[k] == (if k
        == entry.name {
        entry.owner
    } else {
        entries_map(s)[k]
    }) by {
        let j = index_of(t, k);
        lemma_entry_is_mapped(t, j);
        if j < s.len() {
            assert(s[j].name == k);
            lemma_entry_is_mapped(s, j);
        }
    }
    assert(entries_map(t) =~= entries_map(s).insert(entry.name, entry.owner));
}

/// Moving the last entry into place `i` and shortening the list by one drops
/// the key that stood at `i` and leaves the other keys alone.
pub proof fn lemma_swap_remove_drops(s: Seq<Entry>, i: int)
    requires
        distinct_names(s),
        0 <= i < s.len(),
    ensures
        distinct_names(s.update(i, s.last()).drop_last()),
        entries_map(s.update(i, s.last()).drop_last()) == entries_map(s).remove(s[i].name),
{
    let t = s.update(i, s.last()).drop_last();
    let last = s.len() - 1;
    let name = s[i].name;
    assert forall|a: int| 0 <= a < t.len() implies #[trigger] t[a] == (if a == i {
        s[last]
    } else {
        s[a]
    }) by {}
    assert forall|a: int, b: int| 0 <= a < b < t.len() implies (#[trigger] t[a]).name != (
    #[trigger] t[b]).name by {
        let a0 = if a == i { last } else { a };
        let b0 = if b == i { last } else { b };
        if a0 < b0 {
            assert(s[a0].name != s[b0].name);
        } else {
            assert(s[b0].name != s[a0].name);
        }
    }
    assert forall|k: NameKey| has_name(t, k) == (k != name && has_name(s, k)) by {
        if has_name(t, k) {
            let j = index_of(t, k);
            let j0 = if j == i { last } else { j };
            assert(s[j0].name == k);
            if j0 < i {
                assert(s[j0].name != s[i].name);
            } else {
                assert(s[i].name != s[j0].name);
            }
        }
        if k != name && has_name(s, k) {
            let j = index_of(s, k);
            if j == last {
                assert(t[i].name == k);
            } else {
                assert(t[j].name == k);
            }
        }
    }
    assert forall|k: NameKey| has_name(t, k) implies #[trigger] entries_map(t)[k] == entries_map(
        s,
    )[k] by {
        let j = index_of(t, k);
        let j0 = if j == i { last } else { j };
        lemma_entry_is_mapped(t, j);
        lemma_entry_is_mapped(s, j0);
    }
    assert(entries_map(t) =~= entries_map(s).remove(name));
}

/// A finite map from name keys to owners, searched entry by entry.
pub struct Bucket {
    entries: Vec<Entry>,
}

impl View for Bucket {
    type V = Map<NameKey, OwnerId>;

    closed spec fn view(&self) -> Map<NameKey, OwnerId> {
        entries_map(self.entries@)
    }
}

impl Bucket {
    #[verifier::type_invariant]
    spec fn well_formed(self) -> bool {
        distinct_names(self.entries@)
    }

    /// The empty bucket.
    pub fn new() -> (bucket: Bucket)
        ensures
            bucket@ == Map::<NameKey, OwnerId>::empty(),
    {
        let bucket = Bucket { entries: Vec::new() };
        proof {
            assert(bucket@ =~= Map::<NameKey, OwnerId>::empty());
        }
        bucket
    }

    /// Where `name` is stored, if it is.
    fn position(&self, name: &NameKey) -> (at: Option<usize>)
        ensures
            match at {
                Some(i) => i < self.entries@.len() && self.entries@[i as int].name == *name,
                None => !has_name(self.entries@, *name),
            },
    {
        let mut i: usize = 0;
        while i < self.entries.len()
            invariant
                i <= self.entries@.len(),
                forall|j: int| 0 <= j < i ==> (#[trigger] self.entries@[j]).name != *name,
            decreases self.entries@.len() - i,
        {
            if self.entries[i].name == *name {
                return Some(i);
            }
            i += 1;
        }
        None
    }

    /// The owner stored under `name`, or `None` where the key is absent.
    pub fn get(&self, name: &NameKey) -> (owner: Option<OwnerId>)
        ensures
            owner == (if self@.contains_key(*name) {
                Some(self@[*name])
            } else {
                None
            }),
    {
        proof {
            use_type_invariant(self);
        }
        match self.position(name) {
            Some(i) => {
                proof {
                    lemma_entry_is_mapped(self.entries@, i as int);
                }
                Some(self.entries[i].owner)
            },
            None => None,
        }
    }

    /// Whether `name` is stored.
    pub fn contains(&self, name: &NameKey) -> (present: bool)
        ensures
            present == self@.contains_key(*name),
    {
        self.position(name).is_some()
    }

    /// Stores `owner` under `name`, in place of whatever was stored there.
    pub fn insert(&mut self, name: NameKey, owner: OwnerId)
        ensures
            final(self)@ == old(self)@.insert(name, owner),
    {
        proof {
            use_type_invariant(&*self);
        }
        let entry = Entry { name, owner };
        let at = self.position(&name);
        let mut entries: Vec<Entry> = Vec::new();
        core::mem::swap(&mut self.entries, &mut entries);
        match at {
            Some(i) => {
                proof {
                    lemma_update_stores(entries@, i as int, entry);
                }
                entries[i] = entry;
            },
            None => {
                proof {
                    lemma_push_stores(entries@, entry);
                }
                entries.push(entry);
            },
        }
        core::mem::swap(&mut self.entries, &mut entries);
    }

    /// Drops `name` and what was stored under it; an absent key changes nothing.
    pub fn remove(&mut self, name: &NameKey)
        ensures
            final(self)@ == old(self)@.remove(*name),
    {
        proof {
            use_type_invariant(&*self);
        }
        match self.position(name) {
            Some(i) => {
                let mut entries: Vec<Entry> = Vec::new();
                core::mem::swap(&mut self.entries, &mut entries);
                proof {
                    lemma_swap_remove_drops(entries@, i as int);
                }
                entries.swap_remove(i);
                core::mem::swap(&mut self.entries, &mut entries);
            },
            None => {
                proof {
                    assert(self@ =~= self@.remove(*name));
                }
            },
        }
    }

    /// Whether nothing is stored.
    pub fn is_empty(&self) -> (empty: bool)
        ensures
            empty == (self@ == Map::<NameKey, OwnerId>::empty()),
    {
        proof {
            use_type_invariant(self);
            if self.entries@.len() > 0 {
                lemma_entry_is_mapped(self.entries@, 0);
            } else {
                assert(self@ =~= Map::<NameKey, OwnerId>::empty());
            }
        }
        self.entries.len() == 0
    }
}

} // verus!
