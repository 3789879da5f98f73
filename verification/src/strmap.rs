//! An association list keyed by strings, kept in insertion order.

use crate::model::{texts, Text};
use vstd::prelude::*;

verus! {

/// A finite mapping from strings to values, stored as two parallel vectors.
/// No key occurs twice.
pub struct StrMap<V> {
    keys: Vec<String>,
    vals: Vec<V>,
}

impl<V> StrMap<V> {
    /// The keys, in the order in which they were first inserted.
    pub closed spec fn keys(&self) -> Seq<Text> {
        self.keys@.map_values(|s: String| s@)
    }

    /// The values, each at the position of its key.
    pub closed spec fn values(&self) -> Seq<V> {
        self.vals@
    }

    /// Keys and values pair up, and no key occurs twice.
    pub open spec fn wf(&self) -> bool {
        &&& self.keys().len() == self.values().len()
        &&& self.keys().no_duplicates()
    }

    /// The mapping that the list represents.
    pub open spec fn as_map(&self) -> Map<Text, V> {
        Map::new(
            |k: Text| self.keys().contains(k),
            |k: Text| self.values()[self.keys().index_of(k)],
        )
    }

    /// The keys of the mapping are the keys of the list, and they are
    /// finitely many.
    pub proof fn lemma_domain(&self)
        requires
            self.wf(),
        ensures
            self.as_map().dom() == self.keys().to_set(),
            self.as_map().dom().finite(),
            self.as_map().dom().len() == self.keys().len(),
            forall|i: int|
                0 <= i < self.keys().len() ==> self.as_map().contains_key(#[trigger] self.keys()[i])
                    && self.as_map()[self.keys()[i]] == self.values()[i],
    {
        self.keys().unique_seq_to_set();
        assert(self.as_map().dom() =~= self.keys().to_set());
    }

    /// An empty list.
    pub fn new() -> (m: Self)
        ensures
            m.wf(),
            m.keys() == Seq::<Text>::empty(),
            m.values() == Seq::<V>::empty(),
            m.as_map() == Map::<Text, V>::empty(),
    {
        let m = StrMap { keys: Vec::new(), vals: Vec::new() };
        assert(m.keys() =~= Seq::<Text>::empty());
        assert(m.as_map() =~= Map::<Text, V>::empty());
        m
    }

    /// The number of entries.
    pub fn len(&self) -> (n: usize)
        requires
            self.wf(),
        ensures
            n == self.keys().len(),
            n == self.as_map().dom().len(),
            self.as_map().dom().finite(),
    {
        proof {
            self.keys().unique_seq_to_set();
            assert(self.as_map().dom() =~= self.keys().to_set());
        }
        self.keys.len()
    }

    /// The position of `key`, if it is present.
    pub fn position(&self, key: &String) -> (r: Option<usize>)
        requires
            self.wf(),
        ensures
            match r {
                Some(i) => i < self.keys().len() && self.keys()[i as int] == key@,
                None => !self.keys().contains(key@),
            },
            r is Some <==> self.as_map().contains_key(key@),
    {
        let mut i: usize = 0;
        while i < self.keys.len()
            invariant
                i <= self.keys.len(),
                forall|j: int| 0 <= j < i ==> self.keys()[j] != key@,
            decreases self.keys.len() - i,
        {
            if self.keys[i] == *key {
                assert(self.keys()[i as int] == key@);
                return Some(i);
            }
            i += 1;
        }
        None
    }

    /// The value at position `i`, mutably.
    pub fn value_at_mut(&mut self, i: usize) -> (v: &mut V)
        requires
            old(self).wf(),
            i < old(self).keys().len(),
        ensures
            *v == old(self).values()[i as int],
            final(self).wf(),
            final(self).keys() == old(self).keys(),
            final(self).values() == old(self).values().update(i as int, *final(v)),
            final(self).as_map() == old(self).as_map().insert(old(self).keys()[i as int], *final(v)),
    {
        &mut self.vals[i]
    }

    /// The key at position `i`.
    pub fn key_at(&self, i: usize) -> (k: &String)
        requires
            self.wf(),
            i < self.keys().len(),
        ensures
            k@ == self.keys()[i as int],
    {
        &self.keys[i]
    }

    /// The value at position `i`.
    pub fn value_at(&self, i: usize) -> (v: &V)
        requires
            self.wf(),
            i < self.keys().len(),
        ensures
            *v == self.values()[i as int],
            self.as_map().contains_key(self.keys()[i as int]),
            *v == self.as_map()[self.keys()[i as int]],
    {
        &self.vals[i]
    }

    /// Appends an entry under a key that is not yet present.
    pub fn push(&mut self, key: String, value: V)
        requires
            old(self).wf(),
            !old(self).keys().contains(key@),
        ensures
            final(self).wf(),
            final(self).keys() == old(self).keys().push(key@),
            final(self).values() == old(self).values().push(value),
            final(self).as_map() == old(self).as_map().insert(key@, value),
    {
        let ghost before = *self;
        self.keys.push(key);
        self.vals.push(value);
        proof {
            assert(self.keys() =~= before.keys().push(key@));
            let ks = self.keys();
            assert forall|k: Text| #[trigger] ks.contains(k) implies before.keys().contains(k) || k
                == key@ by {
                let j = choose|j: int| 0 <= j < ks.len() && ks[j] == k;
                if j < before.keys().len() {
                    assert(before.keys()[j] == k);
                }
            }
            assert forall|k: Text| before.keys().contains(k) implies #[trigger] ks.contains(k)
                && ks.index_of(k) == before.keys().index_of(k) by {
                let j = before.keys().index_of(k);
                assert(ks[j] == k);
            }
            assert(ks[ks.len() - 1] == key@);
            assert(self.as_map() =~= before.as_map().insert(key@, value));
        }
    }

    /// Removes the entry at position `i` and returns its value. The entries
    /// behind it move up by one.
    pub fn remove_at(&mut self, i: usize) -> (v: V)
        requires
            old(self).wf(),
            i < old(self).keys().len(),
        ensures
            v == old(self).values()[i as int],
            final(self).wf(),
            final(self).keys() == old(self).keys().remove(i as int),
            final(self).values() == old(self).values().remove(i as int),
            final(self).as_map() == old(self).as_map().remove(old(self).keys()[i as int]),
    {
        let ghost before = *self;
        self.keys.remove(i);
        let v = self.vals.remove(i);
        proof {
            let ks = self.keys();
            let bs = before.keys();
            assert(ks =~= bs.remove(i as int));
            assert forall|k: Text| #[trigger] ks.contains(k) implies bs.contains(k) && k != bs[i as int]
                && self.values()[ks.index_of(k)] == before.values()[bs.index_of(k)] by {
                let j = ks.index_of(k);
                if j < i {
                    assert(bs[j] == k);
                } else {
                    assert(bs[j + 1] == k);
                }
            }
            assert forall|k: Text| bs.contains(k) && k != bs[i as int] implies #[trigger] ks.contains(
                k,
            ) by {
                let j = bs.index_of(k);
                if j < i {
                    assert(ks[j] == k);
                } else {
                    assert(ks[j - 1] == k);
                }
            }
            assert(self.as_map() =~= before.as_map().remove(bs[i as int]));
        }
        v
    }

    /// The keys as owned strings, in insertion order.
    pub fn key_list(&self) -> (names: Vec<String>)
        requires
            self.wf(),
        ensures
            texts(names@) == self.keys(),
    {
        let mut names: Vec<String> = Vec::new();
        let mut i: usize = 0;
        while i < self.keys.len()
            invariant
                i <= self.keys.len(),
                names@.len() == i,
                forall|j: int| 0 <= j < i ==> names@[j]@ == self.keys()[j],
            decreases self.keys.len() - i,
        {
            names.push(self.keys[i].clone());
            i += 1;
        }
        assert(texts(names@) =~= self.keys());
        names
    }
}

} // verus!
