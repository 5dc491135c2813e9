//! A map from names to records that carry their own name.
use vstd::prelude::*;

use crate::assoc::{
    assoc_map, lemma_assoc_dom, lemma_assoc_push, lemma_assoc_remove, lemma_assoc_update,
    lemma_assoc_value, lemma_unique_push, unique_keys,
};
use crate::storage_key::{StorageKeyModel, StorageKeys};

verus! {

/// A record that is filed under its own name.
pub trait Named: View + Sized {
    /// The name the record is filed under.
    spec fn spec_name(&self) -> Seq<char>;

    /// The name the record is filed under.
    fn name_ref(&self) -> (r: &String)
        ensures
            r@ == self.spec_name(),
    ;
}

/// The name/value pairs of a sequence of records.
pub open spec fn named_pairs<T: Named>(items: Seq<T>) -> Seq<(Seq<char>, T::V)> {
    Seq::new(items.len(), |i: int| (items[i].spec_name(), items[i]@))
}

/// Records indexed by their names, each name held once.
///
/// Its abstract value maps each name to the abstract value of its record.
pub struct NamedMap<T: Named> {
    partition: StorageKeys,
    items: Vec<T>,
}

impl<T: Named> View for NamedMap<T> {
    type V = Map<Seq<char>, T::V>;

    closed spec fn view(&self) -> Map<Seq<char>, T::V> {
        assoc_map(named_pairs(self.items@))
    }
}

impl<T: Named> NamedMap<T> {
    #[verifier::type_invariant]
    spec fn names_unique(&self) -> bool {
        unique_keys(named_pairs(self.items@))
    }

    /// The partition this index is stored under.
    pub closed spec fn partition_model(&self) -> StorageKeyModel {
        self.partition@
    }

    /// An empty index stored under `partition`.
    pub fn new(partition: StorageKeys) -> (r: NamedMap<T>)
        ensures
            r@ == Map::<Seq<char>, T::V>::empty(),
            r.partition_model() == partition@,
    {
        let r = NamedMap { partition, items: Vec::new() };
        assert(named_pairs(r.items@) =~= Seq::<(Seq<char>, T::V)>::empty());
        r
    }

    /// The key of the partition this index is stored under.
    pub fn partition(&self) -> (r: &StorageKeys)
        ensures
            r@ == self.partition_model(),
    {
        &self.partition
    }

    /// Every record held, each name once.
    pub fn values(&self) -> (r: &Vec<T>)
        ensures
            unique_keys(named_pairs(r@)),
            assoc_map(named_pairs(r@)) == self@,
    {
        proof {
            use_type_invariant(self);
        }
        &self.items
    }

    /// The position of the record named `name`, if one is held.
    fn find(&self, name: &String) -> (r: Option<usize>)
        ensures
            match r {
                Some(i) => i < self.items@.len() && self.items@[i as int].spec_name() == name@,
                None => !self@.contains_key(name@),
            },
    {
        let mut i: usize = 0;
        while i < self.items.len()
            invariant
                i <= self.items@.len(),
                forall|j: int| 0 <= j < i ==> self.items@[j].spec_name() != name@,
            decreases self.items@.len() - i,
        {
            if *self.items[i].name_ref() == *name {
                return Some(i);
            }
            i = i + 1;
        }
        proof {
            let p = named_pairs(self.items@);
            lemma_assoc_dom(p, name@);
            assert forall|j: int| 0 <= j < p.len() implies p[j].0 != name@ by {
                assert(p[j].0 == self.items@[j].spec_name());
            }
        }
        None
    }

    /// Whether a record named `name` is held.
    pub fn contains_key(&self, name: &String) -> (r: bool)
        ensures
            r == self@.contains_key(name@),
    {
        proof {
            use_type_invariant(self);
        }
        match self.find(name) {
            Some(i) => {
                proof {
                    lemma_assoc_value(named_pairs(self.items@), i as int);
                }
                true
            },
            None => false,
        }
    }

    /// The record named `name`, if one is held.
    pub fn get(&self, name: &String) -> (r: Option<&T>)
        ensures
            match r {
                Some(t) => self@.contains_key(name@) && t@ == self@[name@] && t.spec_name()
                    == name@,
                None => !self@.contains_key(name@),
            },
    {
        proof {
            use_type_invariant(self);
        }
        match self.find(name) {
            Some(i) => {
                proof {
                    lemma_assoc_value(named_pairs(self.items@), i as int);
                }
                Some(&self.items[i])
            },
            None => None,
        }
    }

    /// Files `item` under its name, replacing a record of the same name.
    pub fn insert(&mut self, item: T)
        ensures
            final(self)@ == old(self)@.insert(item.spec_name(), item@),
            final(self).partition_model() == old(self).partition_model(),
    {
        proof {
            use_type_invariant(&*self);
        }
        let ghost before = named_pairs(self.items@);
        let ghost key = item.spec_name();
        let found = self.find(item.name_ref());
        let mut items: Vec<T> = Vec::new();
        std::mem::swap(&mut self.items, &mut items);
        match found {
            Some(i) => {
                proof {
                    lemma_assoc_update(before, i as int, item@);
                }
                items.set(i, item);
                assert(named_pairs(items@) =~= before.update(i as int, (before[i as int].0, item@)));
            },
            None => {
                proof {
                    lemma_assoc_push(before, key, item@);
                    lemma_unique_push(before, key, item@);
                }
                items.push(item);
                assert(named_pairs(items@) =~= before.push((key, item@)));
            },
        }
        std::mem::swap(&mut self.items, &mut items);
    }

    /// Takes out the record named `name`, if one is held.
    pub fn remove(&mut self, name: &String) -> (r: Option<T>)
        ensures
            match r {
                Some(t) => old(self)@.contains_key(name@) && t@ == old(self)@[name@]
                    && t.spec_name() == name@ && final(self)@ == old(self)@.remove(name@),
                None => !old(self)@.contains_key(name@) && final(self)@ == old(self)@,
            },
            final(self).partition_model() == old(self).partition_model(),
    {
        proof {
            use_type_invariant(&*self);
        }
        let ghost before = named_pairs(self.items@);
        match self.find(name) {
            Some(i) => {
                proof {
                    lemma_assoc_value(before, i as int);
                    lemma_assoc_remove(before, i as int);
                }
                let mut items: Vec<T> = Vec::new();
                std::mem::swap(&mut self.items, &mut items);
                let t = items.remove(i);
                assert(named_pairs(items@) =~= before.remove(i as int));
                std::mem::swap(&mut self.items, &mut items);
                Some(t)
            },
            None => None,
        }
    }
}

} // verus!
