//! A table from string keys to values of any type.
//!
//! The table keeps its entries in the order in which their keys first came,
//! and finds an entry through a hash index. Inserting under a key that the
//! table already holds replaces the value and keeps the entry's place.
use vstd::prelude::*;
use vstd::hash_map::StringHashMap;
use crate::text::texts;

verus! {

/// A table from string keys to values.
pub struct Table<V> {
    keys: Vec<String>,
    values: Vec<V>,
    index: StringHashMap<usize>,
}

impl<V> View for Table<V> {
    type V = Map<Seq<char>, V>;

    closed spec fn view(&self) -> Map<Seq<char>, V> {
        Map::new(
            |k: Seq<char>| self.index@.contains_key(k),
            |k: Seq<char>| self.values@[self.index@[k] as int],
        )
    }
}

impl<V> Table<V> {
    /// The index names each entry's place, and nothing else.
    pub closed spec fn wf(&self) -> bool {
        &&& self.keys@.len() == self.values@.len()
        &&& forall|i: int|
            0 <= i < self.keys@.len() ==> self.index@.contains_key(#[trigger] self.keys@[i]@)
                && self.index@[self.keys@[i]@] == i
        &&& forall|k: Seq<char>| #[trigger]
            self.index@.contains_key(k) ==> self.index@[k] < self.keys@.len()
                && self.keys@[self.index@[k] as int]@ == k
    }

    /// The keys in the order in which they first came.
    pub closed spec fn key_list(&self) -> Seq<Seq<char>> {
        texts(self.keys@)
    }

    /// The key list holds each key of the table once, and nothing else.
    pub proof fn lemma_key_list(&self)
        requires
            self.wf(),
        ensures
            self.key_list().no_duplicates(),
            forall|k: Seq<char>| self.key_list().contains(k) <==> self@.contains_key(k),
    {
        assert forall|k: Seq<char>| self.key_list().contains(k) <==> self@.contains_key(k) by {
            if self.key_list().contains(k) {
                let i = choose|i: int| 0 <= i < self.key_list().len() && self.key_list()[i] == k;
                assert(self.keys@[i]@ == k);
            }
            if self@.contains_key(k) {
                assert(self.key_list()[self.index@[k] as int] == k);
            }
        }
        assert forall|i: int, j: int|
            0 <= i < self.key_list().len() && 0 <= j < self.key_list().len() && i != j implies self.key_list()[i]
            != self.key_list()[j] by {
            assert(self.index@[self.keys@[i]@] == i);
            assert(self.index@[self.keys@[j]@] == j);
        }
    }

    /// The empty table.
    pub fn new() -> (table: Table<V>)
        ensures
            table.wf(),
            table@ == Map::<Seq<char>, V>::empty(),
            table.key_list() == Seq::<Seq<char>>::empty(),
    {
        let table = Table { keys: Vec::new(), values: Vec::new(), index: StringHashMap::new() };
        assert(table@ =~= Map::<Seq<char>, V>::empty());
        assert(table.key_list() =~= Seq::<Seq<char>>::empty());
        table
    }

    /// The number of entries.
    pub fn len(&self) -> (n: usize)
        ensures
            n == self.key_list().len(),
    {
        self.keys.len()
    }

    /// The key of the `i`-th entry.
    pub fn key_at(&self, i: usize) -> (key: &String)
        requires
            i < self.key_list().len(),
        ensures
            key@ == self.key_list()[i as int],
    {
        &self.keys[i]
    }

    /// The value of the `i`-th entry.
    pub fn value_at(&self, i: usize) -> (value: &V)
        requires
            self.wf(),
            i < self.key_list().len(),
        ensures
            self@.contains_key(self.key_list()[i as int]),
            *value == self@[self.key_list()[i as int]],
    {
        assert(self.index@[self.keys@[i as int]@] == i);
        &self.values[i]
    }

    /// The value stored under `key`, if there is one.
    pub fn get(&self, key: &str) -> (value: Option<&V>)
        requires
            self.wf(),
        ensures
            value is Some <==> self@.contains_key(key@),
            value matches Some(v) ==> *v == self@[key@],
    {
        match self.index.get(key) {
            Some(place) => Some(&self.values[*place]),
            None => None,
        }
    }

    /// Stores `value` under `key`, in place of what was stored there.
    pub fn insert(&mut self, key: String, value: V)
        requires
            old(self).wf(),
        ensures
            final(self).wf(),
            final(self)@ == old(self)@.insert(key@, value),
            final(self).key_list() == if old(self)@.contains_key(key@) {
                old(self).key_list()
            } else {
                old(self).key_list().push(key@)
            },
    {
        let found = match self.index.get(key.as_str()) {
            Some(place) => Some(*place),
            None => None,
        };
        match found {
            Some(place) => {
                self.values.set(place, value);
                assert(self@ =~= old(self)@.insert(key@, value));
            },
            None => {
                let place = self.keys.len();
                let ghost key_text = key@;
                self.index.insert(key.clone(), place);
                self.keys.push(key);
                self.values.push(value);
                assert(self@ =~= old(self)@.insert(key_text, value));
                assert(texts(self.keys@) =~= texts(old(self).keys@).push(key_text));
            },
        }
    }
}

} // verus!
