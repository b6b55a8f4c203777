//! A keyed store held in memory: the registry's only storage primitive.
//!
//! A `Table` maps keys to values and offers `get`, `contains`, `insert` and
//! `remove`. Its view is a `Map`; no order of the keys can be observed. The
//! entries are kept in a list, so a lookup takes time in proportion to
//! their number.

use vstd::prelude::*;
use vstd::seq_lib::seq_to_set_is_finite;
use crate::types::{bytes_equal, Address};

verus! {

/// A type that can key a [`Table`]: its values can be compared at run time,
/// and the comparison agrees with equality in specifications.
pub trait Key: Sized {
    /// Whether the two keys are equal.
    fn same(&self, other: &Self) -> (same: bool)
        ensures
            same == (*self == *other),
    ;
}

impl Key for u128 {
    fn same(&self, other: &Self) -> (same: bool) {
        *self == *other
    }
}

impl Key for u32 {
    fn same(&self, other: &Self) -> (same: bool) {
        *self == *other
    }
}

impl Key for Address {
    fn same(&self, other: &Self) -> (same: bool) {
        *self == *other
    }
}

impl Key for [u8; 32] {
    fn same(&self, other: &Self) -> (same: bool) {
        bytes_equal(self, other)
    }
}

impl<A: Key, B: Key> Key for (A, B) {
    fn same(&self, other: &Self) -> (same: bool) {
        self.0.same(&other.0) && self.1.same(&other.1)
    }
}

/// A finite map from `K` to `V`, kept as a list of entries with distinct keys.
pub struct Table<K, V> {
    entries: Vec<(K, V)>,
}

/// Whether `key` stands at some index of `entries`.
spec fn has_key<K, V>(entries: Seq<(K, V)>, key: K) -> bool {
    exists|i: int| 0 <= i < entries.len() && (#[trigger] entries[i]).0 == key
}

/// An index of `entries` at which `key` stands, where there is one.
spec fn index_of_key<K, V>(entries: Seq<(K, V)>, key: K) -> int {
    choose|i: int| 0 <= i < entries.len() && (#[trigger] entries[i]).0 == key
}

/// No key stands at two indices of `entries`.
spec fn distinct_keys<K, V>(entries: Seq<(K, V)>) -> bool {
    forall|i: int, j: int|
        0 <= i < j < entries.len() ==> (#[trigger] entries[i]).0 != (#[trigger] entries[j]).0
}

/// The map that a list of entries with distinct keys stands for.
spec fn entries_map<K, V>(entries: Seq<(K, V)>) -> Map<K, V> {
    Map::new(|k: K| has_key(entries, k), |k: K| entries[index_of_key(entries, k)].1)
}

impl<K, V> Table<K, V> {
    /// The table's invariant: no key is stored twice.
    #[verifier::type_invariant]
    spec fn distinct(&self) -> bool {
        distinct_keys(self.entries@)
    }

    /// The map that the table holds.
    pub closed spec fn view(&self) -> Map<K, V> {
        entries_map(self.entries@)
    }

    /// A table holds finitely many keys, and no more than a list can hold.
    pub proof fn lemma_size(&self)
        ensures
            self@.dom().finite(),
            self@.dom().len() <= usize::MAX,
    {
        let keys = self.entries@.map_values(|entry: (K, V)| entry.0);
        assert(self@.dom() =~= keys.to_set()) by {
            assert forall|key: K| self@.dom().contains(key) <==> keys.to_set().contains(key) by {
                if has_key(self.entries@, key) {
                    let i = index_of_key(self.entries@, key);
                    assert(keys[i] == key);
                }
            }
        }
        seq_to_set_is_finite(keys);
        keys.lemma_cardinality_of_set();
        assert(keys.len() == self.entries.len());
    }
}

impl<K: Key, V> Table<K, V> {
    /// An empty table.
    pub fn new() -> (table: Self)
        ensures
            table@ == Map::<K, V>::empty(),
    {
        let table = Table { entries: Vec::new() };
        table
    }

    /// The index of the entry of `key`, if it has one.
    fn position(&self, key: &K) -> (found: Option<usize>)
        ensures
            match found {
                Some(i) => i < self.entries@.len() && self.entries@[i as int].0 == *key,
                None => !has_key(self.entries@, *key),
            },
    {
        let mut i: usize = 0;
        while i < self.entries.len()
            invariant
                0 <= i <= self.entries@.len(),
                forall|j: int| 0 <= j < i ==> (#[trigger] self.entries@[j]).0 != *key,
            decreases self.entries@.len() - i,
        {
            if self.entries[i].0.same(key) {
                return Some(i);
            }
            i += 1;
        }
        None
    }

    /// Whether a value is stored under `key`.
    pub fn contains(&self, key: &K) -> (present: bool)
        ensures
            present == self@.contains_key(*key),
    {
        self.position(key).is_some()
    }

    /// The value stored under `key`, if there is one.
    pub fn get(&self, key: &K) -> (value: Option<&V>)
        ensures
            match value {
                Some(v) => self@.contains_key(*key) && *v == self@[*key],
                None => !self@.contains_key(*key),
            },
    {
        proof {
            use_type_invariant(self);
        }
        match self.position(key) {
            Some(i) => {
                Some(&self.entries[i].1)
            },
            None => None,
        }
    }

    /// Stores `value` under `key`, in place of what was stored there.
    pub fn insert(&mut self, key: K, value: V)
        ensures
            final(self)@ == old(self)@.insert(key, value),
    {
        proof {
            use_type_invariant(&*self);
        }
        let ghost before = self.entries@;
        let found = self.position(&key);
        // The list leaves the table while it changes, and comes back with
        // distinct keys.
        let mut entries: Vec<(K, V)> = Vec::new();
        core::mem::swap(&mut entries, &mut self.entries);
        match found {
            Some(i) => {
                entries[i] = (key, value);
            },
            None => {
                entries.push((key, value));
            },
        }
        self.entries = entries;
        proof {
            let after = self.entries@;
            assert forall|k: K| #[trigger] has_key(after, k) <==> (k == key || has_key(before, k)) by {
                if has_key(before, k) {
                    let j = index_of_key(before, k);
                    assert(after[j].0 == k);
                }
                if k == key && !has_key(before, key) {
                    assert(after[before.len() as int].0 == key);
                }
            }
            assert(self@ =~= old(self)@.insert(key, value));
        }
    }

    /// Removes what is stored under `key`, if anything.
    pub fn remove(&mut self, key: &K)
        ensures
            final(self)@ == old(self)@.remove(*key),
    {
        proof {
            use_type_invariant(&*self);
        }
        let ghost before = self.entries@;
        match self.position(key) {
            Some(i) => {
                let mut entries: Vec<(K, V)> = Vec::new();
                core::mem::swap(&mut entries, &mut self.entries);
                entries.swap_remove(i);
                self.entries = entries;
                proof {
                    let after = self.entries@;
                    let last = before.len() - 1;
                    assert forall|k: K| #[trigger] has_key(after, k) <==> (k != *key && has_key(before, k)) by {
                        if has_key(after, k) {
                            let j = index_of_key(after, k);
                            assert(before[if j == i { last } else { j }].0 == k);
                        }
                        if k != *key && has_key(before, k) {
                            let j = index_of_key(before, k);
                            if j == last {
                                assert(after[i as int].0 == k);
                            } else {
                                assert(after[j].0 == k);
                            }
                        }
                    }
                    assert(self@ =~= old(self)@.remove(*key));
                }
            },
            None => {
                assert(self@ =~= old(self)@.remove(*key));
            },
        }
    }
}

} // verus!
