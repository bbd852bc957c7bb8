//! Objects: maps from string keys to values.

use vstd::prelude::*;
use crate::entries::{
    distinct_keys, entries_map, has_key, lemma_entries_map_at, lemma_entries_map_empty,
    lemma_entries_map_len, lemma_entries_map_push, lemma_entries_map_update,
};
use crate::value::{value_pairs, Value, ValueView};

verus! {

/// A map from keys to values. The members are stored in a row, in the order in which their
/// keys were first inserted, and no key is stored twice.
#[derive(Debug)]
pub struct Object {
    pub(crate) entries: Vec<(String, Value)>,
}

impl View for Object {
    type V = Map<Seq<char>, ValueView>;

    /// What the object means: the map from each key to the meaning of the value under it.
    open(crate) spec fn view(&self) -> Map<Seq<char>, ValueView>
        decreases self, 1int,
    {
        entries_map(value_pairs(self.entries@))
    }
}

impl Object {
    /// No key is stored twice.
    #[verifier::type_invariant]
    spec fn keys_are_distinct(&self) -> bool {
        distinct_keys(value_pairs(self.entries@))
    }

    /// An object over the given members.
    pub(crate) fn from_entries(entries: Vec<(String, Value)>) -> (r: Object)
        requires
            distinct_keys(value_pairs(entries@)),
        ensures
            r.entries == entries,
    {
        Object { entries }
    }

    /// The row of members that the object is stored as.
    pub open(crate) spec fn stored(&self) -> Vec<(String, Value)> {
        self.entries
    }

    /// The members, each with its key, in the order in which the keys were first inserted.
    /// No key stands twice, and read as a map the row is the object.
    pub fn members(&self) -> (r: &Vec<(String, Value)>)
        ensures
            *r == self.stored(),
            distinct_keys(value_pairs(r@)),
            entries_map(value_pairs(r@)) == self@,
    {
        proof {
            use_type_invariant(self);
        }
        &self.entries
    }

    /// The object without members.
    pub fn new() -> (r: Object)
        ensures
            r@ == Map::<Seq<char>, ValueView>::empty(),
    {
        let r = Object { entries: Vec::new() };
        proof {
            lemma_entries_map_empty::<ValueView>();
        }
        r
    }

    /// The number of members.
    pub fn len(&self) -> (r: usize)
        ensures
            self@.dom().finite(),
            r == self@.len(),
    {
        proof {
            use_type_invariant(self);
            lemma_entries_map_len(value_pairs(self.entries@));
        }
        self.entries.len()
    }

    /// Where in a row the key stands.
    pub(crate) fn position(entries: &Vec<(String, Value)>, key: &String) -> (r: Option<usize>)
        ensures
            match r {
                Some(i) => i < entries.len() && entries[i as int].0@ == key@,
                None => !has_key(value_pairs(entries@), key@),
            },
    {
        let mut i: usize = 0;
        while i < entries.len()
            invariant
                i <= entries.len(),
                forall|j: int| 0 <= j < i ==> entries[j].0@ != key@,
            decreases entries.len() - i,
        {
            if entries[i].0 == *key {
                return Some(i);
            }
            i += 1;
        }
        None
    }

    /// The value under a key, if the object has the key.
    pub fn get(&self, key: &str) -> (r: Option<&Value>)
        ensures
            match r {
                Some(value) => self@.dom().contains(key@) && value@ == self@[key@],
                None => !self@.dom().contains(key@),
            },
    {
        proof {
            use_type_invariant(self);
        }
        let owned = key.to_owned();
        match Self::position(&self.entries, &owned) {
            Some(i) => {
                proof {
                    lemma_entries_map_at(value_pairs(self.entries@), i as int);
                }
                Some(&self.entries[i].1)
            },
            None => None,
        }
    }

    /// Puts a value under a key. A key that the object has keeps its place and gets the new
    /// value, and the value that it had is returned.
    pub fn insert(&mut self, key: String, value: Value) -> (r: Option<Value>)
        ensures
            final(self)@ == old(self)@.insert(key@, value@),
            match r {
                Some(previous) => old(self)@.dom().contains(key@) && previous@ == old(self)@[key@],
                None => !old(self)@.dom().contains(key@),
            },
    {
        proof {
            use_type_invariant(&*self);
        }
        let mut entries: Vec<(String, Value)> = Vec::new();
        std::mem::swap(&mut entries, &mut self.entries);
        let ghost before = value_pairs(entries@);
        let r = match Self::position(&entries, &key) {
            Some(i) => {
                let (stored, previous) = entries.remove(i);
                proof {
                    lemma_entries_map_at(before, i as int);
                    lemma_entries_map_update(before, i as int, value@);
                }
                entries.insert(i, (stored, value));
                assert(value_pairs(entries@) =~= before.update(i as int, (before[i as int].0, value@)));
                Some(previous)
            },
            None => {
                proof {
                    lemma_entries_map_push(before, key@, value@);
                }
                entries.push((key, value));
                assert(value_pairs(entries@) =~= before.push((key@, value@)));
                None
            },
        };
        self.entries = entries;
        r
    }
}

impl Clone for Object {
    /// A deep copy: an object that means the same and shares nothing with `self`.
    fn clone(&self) -> (r: Object)
        ensures
            r@ == self@,
        decreases self,
    {
        proof {
            use_type_invariant(self);
        }
        let mut entries: Vec<(String, Value)> = Vec::new();
        let mut i: usize = 0;
        while i < self.entries.len()
            invariant
                i <= self.entries.len(),
                entries.len() == i,
                forall|j: int|
                    0 <= j < i ==> entries[j].0@ == self.entries[j].0@ && entries[j].1@
                        == self.entries[j].1@,
            decreases self.entries.len() - i,
        {
            let key = self.entries[i].0.clone();
            let value = self.entries[i].1.clone();
            entries.push((key, value));
            i += 1;
        }
        assert(value_pairs(entries@) =~= value_pairs(self.entries@));
        Object { entries }
    }
}

} // verus!
