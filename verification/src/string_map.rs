//! A small map from strings to values that remembers the order in which its
//! keys came.
//!
//! Rooms, peers and pings number a handful, so the map is a vector of
//! entries in which no key stands twice. Its view is a [`Map`]; the order of
//! the entries is what a walk over the map follows.

use vstd::prelude::*;

verus! {

/// One key with its value.
#[derive(Debug)]
pub struct Entry<V> {
    pub key: String,
    pub value: V,
}

/// Whether `entries` lists `map`: no key twice, the keys are the domain, and
/// each key stands beside its value.
pub open spec fn lists<V>(entries: Seq<(Seq<char>, V)>, map: Map<Seq<char>, V>) -> bool {
    &&& forall|i: int, j: int|
        0 <= i < j < entries.len() ==> (#[trigger] entries[i]).0 != (#[trigger] entries[j]).0
    &&& forall|i: int|
        0 <= i < entries.len() ==> map.contains_pair(
            (#[trigger] entries[i]).0,
            entries[i].1,
        )
    &&& forall|key: Seq<char>| #[trigger]
        map.contains_key(key) ==> exists|i: int|
            0 <= i < entries.len() && (#[trigger] entries[i]).0 == key
}

/// The keys of `entries`, in their order.
pub open spec fn keys_of<V>(entries: Seq<(Seq<char>, V)>) -> Seq<Seq<char>> {
    entries.map_values(|entry: (Seq<char>, V)| entry.0)
}

/// The position of `key` among `entries`, if it is there.
pub open spec fn position_of<V>(entries: Seq<(Seq<char>, V)>, key: Seq<char>) -> Option<int> {
    if exists|i: int| 0 <= i < entries.len() && (#[trigger] entries[i]).0 == key {
        Some(choose|i: int| 0 <= i < entries.len() && (#[trigger] entries[i]).0 == key)
    } else {
        None
    }
}

/// A map from strings to values, in the order of first insertion.
#[derive(Debug)]
pub struct StringMap<V> {
    entries: Vec<Entry<V>>,
}

impl<V> StringMap<V> {
    /// The entries in their order.
    pub closed spec fn entries(&self) -> Seq<(Seq<char>, V)> {
        Seq::new(self.entries@.len(), |i: int| (self.entries@[i].key@, self.entries@[i].value))
    }

    #[verifier::type_invariant]
    spec fn inv(&self) -> bool {
        forall|i: int, j: int|
            0 <= i < j < self.entries@.len() ==> (#[trigger] self.entries@[i]).key@
                != (#[trigger] self.entries@[j]).key@
    }
}

impl<V> View for StringMap<V> {
    type V = Map<Seq<char>, V>;

    closed spec fn view(&self) -> Map<Seq<char>, V> {
        let entries = self.entries();
        Map::new(
            |key: Seq<char>| exists|i: int| 0 <= i < entries.len() && (#[trigger] entries[i]).0 == key,
            |key: Seq<char>|
                entries[choose|i: int| 0 <= i < entries.len() && (#[trigger] entries[i]).0 == key].1,
        )
    }
}

impl<V> StringMap<V> {
    /// The entries list the map.
    proof fn lemma_lists(&self)
        requires
            self.inv(),
        ensures
            lists(self.entries(), self@),
    {
        let entries = self.entries();
        assert forall|i: int| 0 <= i < entries.len() implies self@.contains_pair(
            (#[trigger] entries[i]).0,
            entries[i].1,
        ) by {
            let key = entries[i].0;
            let found = choose|j: int| 0 <= j < entries.len() && (#[trigger] entries[j]).0 == key;
            assert(self.entries@[i].key@ == key);
            assert(self.entries@[found].key@ == key);
            if found < i {
                assert(self.entries@[found].key@ != self.entries@[i].key@);
            } else if i < found {
                assert(self.entries@[i].key@ != self.entries@[found].key@);
            }
        }
        assert forall|i: int, j: int| 0 <= i < j < entries.len() implies (#[trigger] entries[i]).0
            != (#[trigger] entries[j]).0 by {
            assert(self.entries@[i].key@ != self.entries@[j].key@);
        }
    }

    /// A map without entries.
    pub fn new() -> (map: Self)
        ensures
            map@ == Map::<Seq<char>, V>::empty(),
            map.entries() == Seq::<(Seq<char>, V)>::empty(),
    {
        let map = StringMap { entries: Vec::new() };
        proof {
            assert(map.entries() =~= Seq::<(Seq<char>, V)>::empty());
            assert(map@ =~= Map::<Seq<char>, V>::empty());
        }
        map
    }

    /// The number of entries.
    pub fn len(&self) -> (n: usize)
        ensures
            n == self.entries().len(),
            lists(self.entries(), self@),
    {
        proof {
            use_type_invariant(self);
            self.lemma_lists();
        }
        self.entries.len()
    }

    /// The key of the entry at position `i`.
    pub fn key_at(&self, i: usize) -> (key: &String)
        requires
            i < self.entries().len(),
        ensures
            key@ == self.entries()[i as int].0,
            lists(self.entries(), self@),
    {
        proof {
            use_type_invariant(self);
            self.lemma_lists();
        }
        &self.entries[i].key
    }

    /// The value of the entry at position `i`.
    pub fn value_at(&self, i: usize) -> (value: &V)
        requires
            i < self.entries().len(),
        ensures
            *value == self.entries()[i as int].1,
            lists(self.entries(), self@),
    {
        proof {
            use_type_invariant(self);
            self.lemma_lists();
        }
        &self.entries[i].value
    }

    /// The position of `key`, if the map holds it.
    pub fn index_of(&self, key: &str) -> (found: Option<usize>)
        ensures
            lists(self.entries(), self@),
            found is Some <==> self@.contains_key(key@),
            found matches Some(i) ==> i < self.entries().len() && self.entries()[i as int].0
                == key@ && self.entries()[i as int].1 == self@[key@],
    {
        proof {
            use_type_invariant(self);
            self.lemma_lists();
        }
        let mut i: usize = 0;
        while i < self.entries.len()
            invariant
                i <= self.entries@.len(),
                lists(self.entries(), self@),
                self.entries().len() == self.entries@.len(),
                forall|j: int| 0 <= j < i ==> (#[trigger] self.entries()[j]).0 != key@,
            decreases self.entries@.len() - i,
        {
            if *self.entries[i].key.as_str() == *key {
                assert(self.entries()[i as int].0 == key@);
                return Some(i);
            }
            assert(self.entries()[i as int].0 != key@);
            i = i + 1;
        }
        None
    }

    /// Whether the map holds `key`.
    pub fn contains_key(&self, key: &str) -> (held: bool)
        ensures
            held == self@.contains_key(key@),
            lists(self.entries(), self@),
    {
        self.index_of(key).is_some()
    }

    /// The value that stands beside `key`, if the map holds it.
    pub fn get(&self, key: &str) -> (value: Option<&V>)
        ensures
            value is Some <==> self@.contains_key(key@),
            value matches Some(v) ==> *v == self@[key@],
            lists(self.entries(), self@),
    {
        match self.index_of(key) {
            Some(i) => Some(self.value_at(i)),
            None => None,
        }
    }

    /// Puts `value` beside `key`. A key that the map holds keeps its place
    /// and gives its former value back; a new key comes last.
    pub fn insert(&mut self, key: String, value: V) -> (former: Option<V>)
        ensures
            final(self)@ == old(self)@.insert(key@, value),
            former == if old(self)@.contains_key(key@) {
                Some(old(self)@[key@])
            } else {
                None::<V>
            },
            final(self).entries() == match position_of(old(self).entries(), key@) {
                Some(i) => old(self).entries().update(i, (key@, value)),
                None => old(self).entries().push((key@, value)),
            },
            lists(old(self).entries(), old(self)@),
            lists(final(self).entries(), final(self)@),
    {
        let found = self.index_of(key.as_str());
        let ghost before = old(self).entries();
        let ghost before_map = old(self)@;
        proof {
            use_type_invariant(&*self);
        }
        let mut entries: Vec<Entry<V>> = Vec::new();
        core::mem::swap(&mut self.entries, &mut entries);
        let ghost fresh = Entry { key, value };
        let former = match found {
            Some(i) => {
                let replaced = entries.remove(i);
                entries.insert(i, Entry { key, value });
                proof {
                    assert(position_of(before, fresh.key@) is Some);
                    let chosen = position_of(before, fresh.key@)->0;
                    if chosen < i {
                        assert(before[chosen].0 != before[i as int].0);
                    } else if i < chosen {
                        assert(before[i as int].0 != before[chosen].0);
                    }
                }
                Some(replaced.value)
            },
            None => {
                entries.push(Entry { key, value });
                proof {
                    if position_of(before, fresh.key@) is Some {
                        let chosen = position_of(before, fresh.key@)->0;
                        assert(before[chosen].0 == fresh.key@);
                        assert(before_map.contains_pair(before[chosen].0, before[chosen].1));
                    }
                }
                None
            },
        };
        proof {
            assert forall|i: int, j: int| 0 <= i < j < entries@.len() implies (
            #[trigger] entries@[i]).key@ != (#[trigger] entries@[j]).key@ by {
                if found is Some {
                    assert(before[i].0 != before[j].0);
                } else {
                    if j < before.len() {
                        assert(before[i].0 != before[j].0);
                    } else {
                        assert(before[i].0 == entries@[i].key@);
                        assert(before_map.contains_pair(before[i].0, before[i].1));
                    }
                }
            }
        }
        self.entries = entries;
        proof {
            let after = self.entries();
            let expected = match position_of(before, fresh.key@) {
                Some(i) => before.update(i, (fresh.key@, fresh.value)),
                None => before.push((fresh.key@, fresh.value)),
            };
            assert(after =~= expected);
            self.lemma_lists();
            let target = before_map.insert(fresh.key@, fresh.value);
            assert forall|k: Seq<char>| self@.contains_key(k) <==> target.contains_key(k) by {
                if self@.contains_key(k) {
                    let i = choose|i: int| 0 <= i < after.len() && (#[trigger] after[i]).0 == k;
                    if k != fresh.key@ {
                        assert(before[i].0 == k);
                        assert(before_map.contains_pair(before[i].0, before[i].1));
                    }
                }
                if target.contains_key(k) && k != fresh.key@ {
                    let i = choose|i: int| 0 <= i < before.len() && (#[trigger] before[i]).0 == k;
                    assert(after[i].0 == k);
                    assert(self@.contains_pair(after[i].0, after[i].1));
                }
                if k == fresh.key@ {
                    let at = match found {
                        Some(i) => i as int,
                        None => before.len() as int,
                    };
                    assert(after[at].0 == k);
                    assert(self@.contains_pair(after[at].0, after[at].1));
                }
            }
            assert forall|k: Seq<char>| self@.contains_key(k) implies self@[k] == target[k] by {
                let i = choose|i: int| 0 <= i < after.len() && (#[trigger] after[i]).0 == k;
                assert(self@.contains_pair(after[i].0, after[i].1));
                if k != fresh.key@ {
                    assert(before[i].0 == k);
                    assert(before_map.contains_pair(before[i].0, before[i].1));
                }
            }
            assert(self@ =~= target);
        }
        former
    }

    /// Takes `key` out, with the value that stood beside it. The other
    /// entries keep their order.
    pub fn remove(&mut self, key: &str) -> (former: Option<V>)
        ensures
            final(self)@ == old(self)@.remove(key@),
            former == if old(self)@.contains_key(key@) {
                Some(old(self)@[key@])
            } else {
                None::<V>
            },
            final(self).entries() == match position_of(old(self).entries(), key@) {
                Some(i) => old(self).entries().remove(i),
                None => old(self).entries(),
            },
            lists(old(self).entries(), old(self)@),
            lists(final(self).entries(), final(self)@),
    {
        let found = self.index_of(key);
        let ghost before = old(self).entries();
        let ghost before_map = old(self)@;
        proof {
            use_type_invariant(&*self);
        }
        match found {
            None => {
                proof {
                    if position_of(before, key@) is Some {
                        let chosen = position_of(before, key@)->0;
                        assert(before_map.contains_pair(before[chosen].0, before[chosen].1));
                    }
                    assert(self@ =~= before_map.remove(key@));
                }
                None
            },
            Some(at) => {
                let mut entries: Vec<Entry<V>> = Vec::new();
                core::mem::swap(&mut self.entries, &mut entries);
                let removed = entries.remove(at);
                proof {
                    let chosen = position_of(before, key@)->0;
                    if chosen < at {
                        assert(before[chosen].0 != before[at as int].0);
                    } else if at < chosen {
                        assert(before[at as int].0 != before[chosen].0);
                    }
                    assert forall|i: int, j: int| 0 <= i < j < entries@.len() implies (
                    #[trigger] entries@[i]).key@ != (#[trigger] entries@[j]).key@ by {
                        let from_i = if i < at {
                            i
                        } else {
                            i + 1
                        };
                        let from_j = if j < at {
                            j
                        } else {
                            j + 1
                        };
                        assert(before[from_i].0 != before[from_j].0);
                    }
                }
                self.entries = entries;
                proof {
                    let after = self.entries();
                    assert(after =~= before.remove(at as int));
                    self.lemma_lists();
                    let target = before_map.remove(key@);
                    assert forall|k: Seq<char>| self@.contains_key(k) <==> target.contains_key(
                        k,
                    ) by {
                        if self@.contains_key(k) {
                            let i = choose|i: int|
                                0 <= i < after.len() && (#[trigger] after[i]).0 == k;
                            let from = if i < at {
                                i
                            } else {
                                i + 1
                            };
                            assert(before[from].0 == k);
                            assert(before_map.contains_pair(before[from].0, before[from].1));
                            if from < at {
                                assert(before[from].0 != before[at as int].0);
                            } else {
                                assert(before[at as int].0 != before[from].0);
                            }
                        }
                        if target.contains_key(k) {
                            let i = choose|i: int|
                                0 <= i < before.len() && (#[trigger] before[i]).0 == k;
                            let to = if i < at {
                                i
                            } else {
                                i - 1
                            };
                            assert(after[to].0 == k);
                            assert(self@.contains_pair(after[to].0, after[to].1));
                        }
                    }
                    assert forall|k: Seq<char>| self@.contains_key(k) implies self@[k]
                        == target[k] by {
                        let i = choose|i: int| 0 <= i < after.len() && (#[trigger] after[i]).0 == k;
                        assert(self@.contains_pair(after[i].0, after[i].1));
                        let from = if i < at {
                            i
                        } else {
                            i + 1
                        };
                        assert(before[from].0 == k);
                        assert(before_map.contains_pair(before[from].0, before[from].1));
                    }
                    assert(self@ =~= target);
                }
                Some(removed.value)
            },
        }
    }

    /// Takes every entry out.
    pub fn clear(&mut self)
        ensures
            final(self)@ == Map::<Seq<char>, V>::empty(),
            final(self).entries() == Seq::<(Seq<char>, V)>::empty(),
    {
        self.entries = Vec::new();
        proof {
            assert(self.entries() =~= Seq::<(Seq<char>, V)>::empty());
            assert(self@ =~= Map::<Seq<char>, V>::empty());
        }
    }
}

} // verus!
