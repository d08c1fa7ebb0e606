//! One index of the registry: values under 128-bit keys, kept in key order.

use vstd::prelude::*;

verus! {

/// Whether the keys of a run of entries rise strictly.
pub open spec fn keys_rise<V>(entries: Seq<(u128, V)>) -> bool {
    forall|i: int, j: int| 0 <= i < j < entries.len() ==> entries[i].0 < entries[j].0
}

/// Whether a run of entries lists a map: every key once, in rising order, each
/// with the value the map holds under it.
pub open spec fn lists<V>(entries: Seq<(u128, V)>, map: Map<u128, V>) -> bool {
    &&& keys_rise(entries)
    &&& forall|i: int|
        0 <= i < entries.len() ==> map.contains_key(#[trigger] entries[i].0) && map[entries[i].0]
            == entries[i].1
    &&& forall|k: u128|
        map.contains_key(k) ==> exists|i: int| 0 <= i < entries.len() && #[trigger] entries[i].0 == k
}

pub struct Index<V> {
    entries: Vec<(u128, V)>,
}

impl<V: Copy> View for Index<V> {
    type V = Map<u128, V>;

    closed spec fn view(&self) -> Map<u128, V> {
        Map::new(
            |k: u128| exists|i: int| 0 <= i < self.entries@.len() && self.entries@[i].0 == k,
            |k: u128|
                self.entries@[choose|i: int| 0 <= i < self.entries@.len() && self.entries@[i].0 == k].1,
        )
    }
}

impl<V> Index<V> {
    #[verifier::type_invariant]
    spec fn ordered(&self) -> bool {
        keys_rise(self.entries@)
    }
}

impl<V: Copy> Index<V> {
    proof fn lemma_lists(&self)
        requires
            keys_rise(self.entries@),
        ensures
            lists(self.entries@, self@),
    {
        let entries = self.entries@;
        assert forall|i: int| 0 <= i < entries.len() implies self@.contains_key(
            #[trigger] entries[i].0,
        ) && self@[entries[i].0] == entries[i].1 by {
            let k = entries[i].0;
            let j = choose|j: int| 0 <= j < entries.len() && entries[j].0 == k;
            assert(i == j) by {
                if i < j {
                    assert(entries[i].0 < entries[j].0);
                } else if j < i {
                    assert(entries[j].0 < entries[i].0);
                }
            }
        }
    }

    /// An index that holds nothing.
    pub fn new() -> (index: Index<V>)
        ensures
            index@ == Map::<u128, V>::empty(),
    {
        let index = Index { entries: Vec::new() };
        assert(index@ =~= Map::<u128, V>::empty());
        index
    }

    /// The place of the first entry whose key is not below `key`, and whether
    /// that entry has the key itself.
    fn search(&self, key: u128) -> (found: (usize, bool))
        ensures
            found.0 <= self.entries@.len(),
            forall|i: int| 0 <= i < found.0 ==> self.entries@[i].0 < key,
            found.1 ==> found.0 < self.entries@.len() && self.entries@[found.0 as int].0 == key,
            !found.1 ==> forall|i: int| found.0 <= i < self.entries@.len() ==> self.entries@[i].0 > key,
            keys_rise(self.entries@),
    {
        proof {
            use_type_invariant(self);
        }
        let mut at: usize = 0;
        while at < self.entries.len()
            invariant
                at <= self.entries@.len(),
                keys_rise(self.entries@),
                forall|i: int| 0 <= i < at ==> self.entries@[i].0 < key,
            decreases self.entries@.len() - at,
        {
            let k = self.entries[at].0;
            if k == key {
                return (at, true);
            }
            if k > key {
                return (at, false);
            }
            at += 1;
        }
        (at, false)
    }

    /// The value under a key.
    pub fn get(&self, key: u128) -> (value: Option<V>)
        ensures
            value == if self@.contains_key(key) {
                Some(self@[key])
            } else {
                None
            },
    {
        let (at, found) = self.search(key);
        proof {
            self.lemma_lists();
        }
        if found {
            Some(self.entries[at].1)
        } else {
            None
        }
    }

    /// Whether a key is present.
    pub fn contains_key(&self, key: u128) -> (present: bool)
        ensures
            present == self@.contains_key(key),
    {
        let (at, found) = self.search(key);
        proof {
            self.lemma_lists();
        }
        found
    }

    /// Puts a value under a key, in place of the one that may be there.
    pub fn set(&mut self, key: u128, value: V)
        ensures
            final(self)@ == old(self)@.insert(key, value),
    {
        let (at, found) = self.search(key);
        let ghost before = self.entries@;
        proof {
            self.lemma_lists();
        }
        let mut entries: Vec<(u128, V)> = Vec::new();
        core::mem::swap(&mut self.entries, &mut entries);
        if found {
            entries.set(at, (key, value));
        } else {
            entries.insert(at, (key, value));
        }
        assert(keys_rise(entries@));
        self.entries = entries;
        proof {
            let after = self.entries@;
            assert(keys_rise(after));
            self.lemma_lists();
            assert forall|k: u128| old(self)@.insert(key, value).contains_key(k) implies self@.contains_key(
                k,
            ) by {
                if k == key {
                    assert(after[at as int].0 == key);
                } else {
                    let i = choose|i: int| 0 <= i < before.len() && before[i].0 == k;
                    if found || i < at {
                        assert(after[i].0 == k);
                    } else {
                        assert(after[i + 1].0 == k);
                    }
                }
            }
            assert forall|k: u128| self@.contains_key(k) implies old(self)@.insert(
                key,
                value,
            ).contains_key(k) && old(self)@.insert(key, value)[k] == self@[k] by {
                let i = choose|i: int| 0 <= i < after.len() && after[i].0 == k;
                assert(self@[after[i].0] == after[i].1);
                if i == at {
                } else if found || i < at {
                    assert(before[i].0 == k);
                    assert(old(self)@[before[i].0] == before[i].1);
                } else {
                    assert(before[i - 1].0 == k);
                    assert(old(self)@[before[i - 1].0] == before[i - 1].1);
                }
            }
            assert(self@ =~= old(self)@.insert(key, value));
        }
    }

    /// Takes a key and its value out.
    pub fn del(&mut self, key: u128)
        ensures
            final(self)@ == old(self)@.remove(key),
    {
        let (at, found) = self.search(key);
        let ghost before = self.entries@;
        proof {
            self.lemma_lists();
        }
        let mut entries: Vec<(u128, V)> = Vec::new();
        core::mem::swap(&mut self.entries, &mut entries);
        if found {
            entries.remove(at);
        }
        assert(keys_rise(entries@));
        self.entries = entries;
        proof {
            let after = self.entries@;
            assert(keys_rise(after));
            self.lemma_lists();
            assert forall|k: u128| old(self)@.remove(key).contains_key(k) implies self@.contains_key(
                k,
            ) by {
                let i = choose|i: int| 0 <= i < before.len() && before[i].0 == k;
                if !found || i < at {
                    assert(after[i].0 == k);
                } else {
                    assert(after[i - 1].0 == k);
                }
            }
            assert forall|k: u128| self@.contains_key(k) implies old(self)@.remove(key).contains_key(
                k,
            ) && old(self)@.remove(key)[k] == self@[k] by {
                let i = choose|i: int| 0 <= i < after.len() && after[i].0 == k;
                assert(self@[after[i].0] == after[i].1);
                if !found || i < at {
                    assert(before[i].0 == k);
                    assert(old(self)@[before[i].0] == before[i].1);
                } else {
                    assert(before[i + 1].0 == k);
                    assert(old(self)@[before[i + 1].0] == before[i + 1].1);
                }
            }
            assert(self@ =~= old(self)@.remove(key));
        }
    }

    /// All entries, in the order of their keys.
    pub fn scan(&self) -> (entries: Vec<(u128, V)>)
        ensures
            lists(entries@, self@),
    {
        proof {
            use_type_invariant(self);
            self.lemma_lists();
        }
        let mut entries: Vec<(u128, V)> = Vec::new();
        let mut i: usize = 0;
        while i < self.entries.len()
            invariant
                i <= self.entries@.len(),
                entries@ == self.entries@.take(i as int),
            decreases self.entries@.len() - i,
        {
            entries.push(self.entries[i]);
            assert(self.entries@.take(i + 1) == self.entries@.take(i as int).push(
                self.entries@[i as int],
            ));
            i += 1;
        }
        assert(self.entries@.take(self.entries@.len() as int) == self.entries@);
        entries
    }
}

} // verus!
