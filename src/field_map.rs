//! A string-to-string map bound to one storage partition.
use vstd::prelude::*;

use crate::assoc::{
    assoc_map, lemma_assoc_dom, lemma_assoc_len, lemma_assoc_push, lemma_assoc_update, lemma_assoc_value,
    lemma_unique_push, unique_keys,
};
use crate::storage_key::{StorageKeyModel, StorageKeys};

verus! {

/// The pairs of string views held by a vector of string pairs.
pub open spec fn view_pairs(v: Seq<(String, String)>) -> Seq<(Seq<char>, Seq<char>)> {
    Seq::new(v.len(), |i: int| (v[i].0@, v[i].1@))
}

/// The map that a vector of string pairs denotes, later pairs winning.
pub open spec fn pairs_map(v: Seq<(String, String)>) -> Map<Seq<char>, Seq<char>> {
    assoc_map(view_pairs(v))
}

/// A named, persistent mapping from strings to strings.
///
/// Its abstract value is a `Map`; each key is held once.
pub struct FieldMap {
    partition: StorageKeys,
    entries: Vec<(String, String)>,
}

impl View for FieldMap {
    type V = Map<Seq<char>, Seq<char>>;

    closed spec fn view(&self) -> Map<Seq<char>, Seq<char>> {
        pairs_map(self.entries@)
    }
}

impl FieldMap {
    #[verifier::type_invariant]
    spec fn keys_unique(&self) -> bool {
        unique_keys(view_pairs(self.entries@))
    }

    /// The partition this map is stored under.
    pub closed spec fn partition_model(&self) -> StorageKeyModel {
        self.partition@
    }

    /// An empty map stored under `partition`.
    pub fn new(partition: StorageKeys) -> (r: FieldMap)
        ensures
            r@ == Map::<Seq<char>, Seq<char>>::empty(),
            r.partition_model() == partition@,
    {
        let r = FieldMap { partition, entries: Vec::new() };
        assert(view_pairs(r.entries@) =~= Seq::<(Seq<char>, Seq<char>)>::empty());
        r
    }

    /// The key of the partition this map is stored under.
    pub fn partition(&self) -> (r: &StorageKeys)
        ensures
            r@ == self.partition_model(),
    {
        &self.partition
    }

    /// The number of keys held.
    pub fn len(&self) -> (r: usize)
        ensures
            r == self@.len(),
    {
        proof {
            use_type_invariant(self);
            lemma_assoc_len(view_pairs(self.entries@));
        }
        self.entries.len()
    }

    /// The position of `key` among the entries, if it is held.
    fn find(&self, key: &String) -> (r: Option<usize>)
        ensures
            match r {
                Some(i) => i < self.entries@.len() && self.entries@[i as int].0@ == key@,
                None => !self@.contains_key(key@),
            },
    {
        let mut i: usize = 0;
        while i < self.entries.len()
            invariant
                i <= self.entries@.len(),
                forall|j: int| 0 <= j < i ==> self.entries@[j].0@ != key@,
            decreases self.entries@.len() - i,
        {
            if self.entries[i].0 == *key {
                return Some(i);
            }
            i = i + 1;
        }
        proof {
            let p = view_pairs(self.entries@);
            lemma_assoc_dom(p, key@);
            assert forall|j: int| 0 <= j < p.len() implies p[j].0 != key@ by {
                assert(p[j].0 == self.entries@[j].0@);
            }
        }
        None
    }

    /// Whether `key` is held.
    pub fn contains_key(&self, key: &String) -> (r: bool)
        ensures
            r == self@.contains_key(key@),
    {
        proof {
            use_type_invariant(self);
        }
        match self.find(key) {
            Some(i) => {
                proof {
                    lemma_assoc_value(view_pairs(self.entries@), i as int);
                }
                true
            },
            None => false,
        }
    }

    /// The value held under `key`, if any.
    pub fn get(&self, key: &String) -> (r: Option<String>)
        ensures
            match r {
                Some(v) => self@.contains_key(key@) && v@ == self@[key@],
                None => !self@.contains_key(key@),
            },
    {
        proof {
            use_type_invariant(self);
        }
        match self.find(key) {
            Some(i) => {
                proof {
                    lemma_assoc_value(view_pairs(self.entries@), i as int);
                }
                Some(self.entries[i].1.clone())
            },
            None => None,
        }
    }

    /// The value held under `key`, or the empty string where none is.
    pub fn get_or_empty(&self, key: &String) -> (r: String)
        ensures
            self@.contains_key(key@) ==> r@ == self@[key@],
            !self@.contains_key(key@) ==> r@ == Seq::<char>::empty(),
    {
        match self.get(key) {
            Some(v) => v,
            None => String::new(),
        }
    }

    /// Sets the value under `key`, adding the key where it is new.
    pub fn insert(&mut self, key: String, value: String)
        ensures
            final(self)@ == old(self)@.insert(key@, value@),
            final(self).partition_model() == old(self).partition_model(),
    {
        proof {
            use_type_invariant(&*self);
        }
        let ghost before = view_pairs(self.entries@);
        let found = self.find(&key);
        let mut entries: Vec<(String, String)> = Vec::new();
        std::mem::swap(&mut self.entries, &mut entries);
        match found {
            Some(i) => {
                proof {
                    lemma_assoc_update(before, i as int, value@);
                }
                entries.set(i, (key, value));
                assert(view_pairs(entries@) =~= before.update(i as int, (before[i as int].0, value@)));
            },
            None => {
                proof {
                    lemma_assoc_push(before, key@, value@);
                    lemma_unique_push(before, key@, value@);
                }
                entries.push((key, value));
                assert(view_pairs(entries@) =~= before.push((key@, value@)));
            },
        }
        std::mem::swap(&mut self.entries, &mut entries);
    }

    /// Sets every pair of `pairs` in turn: keys that `pairs` does not name
    /// keep their values.
    pub fn set_all(&mut self, pairs: Vec<(String, String)>)
        ensures
            final(self)@ == old(self)@.union_prefer_right(pairs_map(pairs@)),
            final(self).partition_model() == old(self).partition_model(),
    {
        let ghost p = view_pairs(pairs@);
        let mut i: usize = 0;
        while i < pairs.len()
            invariant
                i <= pairs@.len(),
                p == view_pairs(pairs@),
                self@ == old(self)@.union_prefer_right(assoc_map(p.subrange(0, i as int))),
                self.partition_model() == old(self).partition_model(),
            decreases pairs@.len() - i,
        {
            let ghost prev = self@;
            let key = pairs[i].0.clone();
            let value = pairs[i].1.clone();
            self.insert(key, value);
            proof {
                let sub = p.subrange(0, i as int);
                assert(p.subrange(0, i + 1) =~= sub.push((key@, value@)));
                lemma_assoc_push(sub, key@, value@);
                assert(self@ =~= old(self)@.union_prefer_right(assoc_map(p.subrange(0, i + 1))));
            }
            i = i + 1;
        }
        assert(p.subrange(0, pairs@.len() as int) =~= p);
    }

    /// Every pair held, each key once, in the order of the entries.
    pub fn to_vec(&self) -> (r: Vec<(String, String)>)
        ensures
            unique_keys(view_pairs(r@)),
            pairs_map(r@) == self@,
    {
        proof {
            use_type_invariant(self);
        }
        let mut r: Vec<(String, String)> = Vec::new();
        let mut i: usize = 0;
        while i < self.entries.len()
            invariant
                i <= self.entries@.len(),
                view_pairs(r@) =~= view_pairs(self.entries@).subrange(0, i as int),
            decreases self.entries@.len() - i,
        {
            let ghost prev = r@;
            r.push((self.entries[i].0.clone(), self.entries[i].1.clone()));
            proof {
                let whole = view_pairs(self.entries@);
                assert(view_pairs(r@) =~= view_pairs(prev).push(whole[i as int]));
                assert(whole.subrange(0, i + 1) =~= whole.subrange(0, i as int).push(whole[i as int]));
            }
            i = i + 1;
        }
        assert(view_pairs(r@) =~= view_pairs(self.entries@));
        r
    }

    /// A copy of this map, under the same partition.
    pub fn duplicate(&self) -> (r: FieldMap)
        ensures
            r@ == self@,
            r.partition_model() == self.partition_model(),
    {
        proof {
            use_type_invariant(self);
        }
        let entries = self.to_vec();
        FieldMap { partition: self.partition.duplicate(), entries }
    }
}

} // verus!
