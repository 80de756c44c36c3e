//! A map from text keys to values, kept as a list in which no key occurs twice.

use vstd::prelude::*;
use vstd::string::*;
use std::sync::Arc;
use crate::text::str_equal;
use crate::tls::share;

verus! {

/// One key with its value.
struct Entry<V> {
    key: String,
    value: V,
}

/// A map from text keys to values. Keys are listed in the order in which they
/// first came in.
pub struct StringMap<V> {
    entries: Vec<Entry<V>>,
}

impl<V> StringMap<V> {
    /// The keys, in the order of the list.
    pub closed spec fn key_seq(&self) -> Seq<Seq<char>> {
        Seq::new(self.entries.len() as nat, |i: int| self.entries[i].key@)
    }

    /// The values, in the order of the list.
    pub closed spec fn value_seq(&self) -> Seq<V> {
        Seq::new(self.entries.len() as nat, |i: int| self.entries[i].value)
    }

    /// No key occurs twice.
    pub closed spec fn wf(&self) -> bool {
        self.key_seq().no_duplicates()
    }

    /// The map that the list stands for.
    pub closed spec fn view(&self) -> Map<Seq<char>, V> {
        Map::new(
            |k: Seq<char>| self.key_seq().contains(k),
            |k: Seq<char>| self.value_seq()[self.key_seq().index_of(k)],
        )
    }

    /// The list and the map hold the same keys with the same values.
    pub proof fn lemma_listing(&self)
        requires
            self.wf(),
        ensures
            self.key_seq().len() == self.value_seq().len(),
            self.key_seq().no_duplicates(),
            self@.dom() == self.key_seq().to_set(),
            forall|i: int|
                0 <= i < self.key_seq().len() ==> self@.contains_key(#[trigger] self.key_seq()[i])
                    && self@[self.key_seq()[i]] == self.value_seq()[i],
    {
        assert(self@.dom() =~= self.key_seq().to_set());
        assert forall|i: int| 0 <= i < self.key_seq().len() implies self@.contains_key(
            #[trigger] self.key_seq()[i],
        ) && self@[self.key_seq()[i]] == self.value_seq()[i] by {
            let k = self.key_seq()[i];
            assert(self.key_seq().contains(k));
            let j = self.key_seq().index_of(k);
            assert(self.key_seq()[j] == k);
        }
    }

    /// Two lists with the same keys and values in the same order stand for
    /// the same map.
    pub proof fn lemma_same_listing(&self, other: &Self)
        requires
            self.key_seq() == other.key_seq(),
            self.value_seq() == other.value_seq(),
        ensures
            self@ == other@,
            self.wf() == other.wf(),
    {
    }

    /// An empty map.
    pub fn new() -> (m: Self)
        ensures
            m.wf(),
            m@ == Map::<Seq<char>, V>::empty(),
            m.key_seq().len() == 0,
    {
        let m = StringMap { entries: Vec::new() };
        assert(m@ =~= Map::<Seq<char>, V>::empty());
        m
    }

    /// The number of keys.
    pub fn len(&self) -> (n: usize)
        ensures
            n == self.key_seq().len(),
            n == self.value_seq().len(),
    {
        self.entries.len()
    }

    /// The key at place `i` of the list.
    pub fn key_at(&self, i: usize) -> (k: &str)
        requires
            i < self.key_seq().len(),
        ensures
            k@ == self.key_seq()[i as int],
    {
        self.entries[i].key.as_str()
    }

    /// The value at place `i` of the list.
    pub fn value_at(&self, i: usize) -> (v: &V)
        requires
            i < self.value_seq().len(),
        ensures
            *v == self.value_seq()[i as int],
    {
        &self.entries[i].value
    }

    /// The value at place `i` of the list, to be changed in place.
    pub fn value_at_mut(&mut self, i: usize) -> (v: &mut V)
        requires
            i < old(self).value_seq().len(),
        ensures
            *v == old(self).value_seq()[i as int],
            final(self).key_seq() == old(self).key_seq(),
            final(self).value_seq() == old(self).value_seq().update(i as int, *final(v)),
    {
        &mut self.entries[i].value
    }

    /// The place of `key` in the list, if it is a key.
    fn find(&self, key: &str) -> (r: Option<usize>)
        ensures
            match r {
                Some(i) => i < self.key_seq().len() && self.key_seq()[i as int] == key@,
                None => !self.key_seq().contains(key@),
            },
    {
        let mut i: usize = 0;
        while i < self.entries.len()
            invariant
                i <= self.entries.len(),
                forall|k: int| 0 <= k < i ==> self.key_seq()[k] != key@,
            decreases self.entries.len() - i,
        {
            if str_equal(self.entries[i].key.as_str(), key) {
                return Some(i);
            }
            i = i + 1;
        }
        None
    }

    /// Whether `key` is a key of the map.
    pub fn contains_key(&self, key: &str) -> (r: bool)
        ensures
            r == self@.contains_key(key@),
    {
        self.find(key).is_some()
    }

    /// The value of `key`, if it is a key of the map.
    pub fn get(&self, key: &str) -> (r: Option<&V>)
        requires
            self.wf(),
        ensures
            match r {
                Some(v) => self@.contains_key(key@) && *v == self@[key@],
                None => !self@.contains_key(key@),
            },
    {
        match self.find(key) {
            Some(i) => {
                proof {
                    self.lemma_listing();
                }
                Some(&self.entries[i].value)
            },
            None => None,
        }
    }

    /// Gives `key` the value `value`, and hands back the value it had.
    pub fn insert(&mut self, key: String, value: V) -> (previous: Option<V>)
        requires
            old(self).wf(),
        ensures
            final(self).wf(),
            final(self)@ == old(self)@.insert(key@, value),
            match previous {
                Some(v) => old(self)@.contains_key(key@) && v == old(self)@[key@],
                None => !old(self)@.contains_key(key@),
            },
            old(self)@.contains_key(key@) ==> final(self).key_seq() == old(self).key_seq(),
            !old(self)@.contains_key(key@) ==> final(self).key_seq() == old(self).key_seq().push(
                key@,
            ),
    {
        let ghost before = *self;
        proof {
            before.lemma_listing();
        }
        match self.find(key.as_str()) {
            Some(i) => {
                let replaced = self.entries.remove(i);
                self.entries.insert(i, Entry { key, value });
                proof {
                    assert(self.key_seq() =~= before.key_seq());
                    assert(self.value_seq() =~= before.value_seq().update(i as int, value));
                    self.lemma_listing();
                    assert forall|k: Seq<char>| self@.contains_key(k) implies #[trigger] self@[k]
                        == before@.insert(key@, value)[k] by {
                        let j = self.key_seq().index_of(k);
                        assert(self.key_seq()[j] == k);
                    }
                    assert(self@ =~= before@.insert(key@, value));
                }
                Some(replaced.value)
            },
            None => {
                let ghost n = self.entries.len() as int;
                self.entries.push(Entry { key, value });
                proof {
                    assert(self.key_seq() =~= before.key_seq().push(key@));
                    assert(self.value_seq() =~= before.value_seq().push(value));
                    assert forall|a: int, b: int|
                        0 <= a < self.key_seq().len() && 0 <= b < self.key_seq().len() && a
                            != b implies self.key_seq()[a] != self.key_seq()[b] by {
                        if a < n && b < n {
                            assert(before.key_seq()[a] != before.key_seq()[b]);
                        } else if a < n {
                            assert(before.key_seq().contains(before.key_seq()[a]));
                        } else {
                            assert(before.key_seq().contains(before.key_seq()[b]));
                        }
                    }
                    self.lemma_listing();
                    assert forall|k: Seq<char>| self@.contains_key(k) implies #[trigger] self@[k]
                        == before@.insert(key@, value)[k] by {
                        let j = self.key_seq().index_of(k);
                        assert(self.key_seq()[j] == k);
                        if j < n {
                            assert(before.key_seq()[j] == k);
                        }
                    }
                    assert forall|k: Seq<char>| before@.insert(key@, value).contains_key(
                        k,
                    ) implies self@.contains_key(k) by {
                        if k == key@ {
                            assert(self.key_seq()[n] == k);
                        } else {
                            let j = before.key_seq().index_of(k);
                            assert(self.key_seq()[j] == k);
                        }
                    }
                    assert(self@ =~= before@.insert(key@, value));
                }
                None
            },
        }
    }

    /// Takes `key` out of the map, and hands back the value it had.
    pub fn remove(&mut self, key: &str) -> (previous: Option<V>)
        requires
            old(self).wf(),
        ensures
            final(self).wf(),
            final(self)@ == old(self)@.remove(key@),
            match previous {
                Some(v) => old(self)@.contains_key(key@) && v == old(self)@[key@],
                None => !old(self)@.contains_key(key@),
            },
    {
        let ghost before = *self;
        proof {
            before.lemma_listing();
        }
        match self.find(key) {
            Some(i) => {
                let removed = self.entries.remove(i);
                proof {
                    assert(self.key_seq() =~= before.key_seq().remove(i as int));
                    assert(self.value_seq() =~= before.value_seq().remove(i as int));
                    assert forall|a: int, b: int|
                        0 <= a < self.key_seq().len() && 0 <= b < self.key_seq().len() && a
                            != b implies self.key_seq()[a] != self.key_seq()[b] by {
                        let a0 = if a < i { a } else { a + 1 };
                        let b0 = if b < i { b } else { b + 1 };
                        assert(before.key_seq()[a0] != before.key_seq()[b0]);
                    }
                    self.lemma_listing();
                    assert forall|k: Seq<char>| self@.contains_key(k) implies before@.remove(
                        key@,
                    ).contains_key(k) && #[trigger] self@[k] == before@.remove(key@)[k] by {
                        let j = self.key_seq().index_of(k);
                        assert(self.key_seq()[j] == k);
                        let j0 = if j < i { j } else { j + 1 };
                        assert(before.key_seq()[j0] == k);
                    }
                    assert forall|k: Seq<char>| before@.remove(key@).contains_key(
                        k,
                    ) implies self@.contains_key(k) by {
                        let j = before.key_seq().index_of(k);
                        assert(before.key_seq()[j] == k);
                        let j1 = if j < i { j } else { j - 1 };
                        assert(self.key_seq()[j1] == k);
                    }
                    assert(self@ =~= before@.remove(key@));
                }
                Some(removed.value)
            },
            None => {
                proof {
                    assert(self@ =~= before@.remove(key@));
                }
                None
            },
        }
    }
}

impl<T> StringMap<Arc<T>> {
    /// A map with the same keys in the same order, each with another handle
    /// on the same value.
    pub fn share_all(&self) -> (copy: Self)
        ensures
            copy.key_seq() == self.key_seq(),
            copy.value_seq() == self.value_seq(),
            copy@ == self@,
            copy.wf() == self.wf(),
    {
        let mut entries: Vec<Entry<Arc<T>>> = Vec::new();
        let mut i: usize = 0;
        while i < self.entries.len()
            invariant
                i <= self.entries.len(),
                entries.len() == i,
                forall|k: int|
                    0 <= k < i ==> (#[trigger] entries[k]).key@ == self.entries[k].key@
                        && entries[k].value == self.entries[k].value,
            decreases self.entries.len() - i,
        {
            let key = self.entries[i].key.clone();
            let value = share(&self.entries[i].value);
            entries.push(Entry { key, value });
            i = i + 1;
        }
        let copy = StringMap { entries };
        proof {
            assert(copy.key_seq() =~= self.key_seq());
            assert(copy.value_seq() =~= self.value_seq());
            copy.lemma_same_listing(self);
        }
        copy
    }
}

} // verus!
