//! A table from opaque string keys to display strings: the localisation
//! table. The library only looks texts up in it and tolerates absence.
use vstd::prelude::*;
use crate::table::Table;

verus! {

/// A table from keys to display strings.
pub struct Lexicon {
    table: Table<String>,
}

impl View for Lexicon {
    type V = Map<Seq<char>, Seq<char>>;

    closed spec fn view(&self) -> Map<Seq<char>, Seq<char>> {
        Map::new(|k: Seq<char>| self.table@.contains_key(k), |k: Seq<char>| self.table@[k]@)
    }
}

/// The text stored under `key`, or the empty text where there is none.
pub open spec fn lookup(table: Map<Seq<char>, Seq<char>>, key: Seq<char>) -> Seq<char> {
    if table.contains_key(key) {
        table[key]
    } else {
        Seq::empty()
    }
}

/// The text stored under `key`, or `key` itself where there is none.
pub open spec fn localised(table: Map<Seq<char>, Seq<char>>, key: Seq<char>) -> Seq<char> {
    if table.contains_key(key) {
        table[key]
    } else {
        key
    }
}

/// The keys of a table after the first `n` entries of another table have
/// been stored in it: the keys that are new to it come behind its own, in
/// their order.
pub open spec fn merged_keys(
    keys: Seq<Seq<char>>,
    table: Map<Seq<char>, Seq<char>>,
    others: Seq<Seq<char>>,
    n: int,
) -> Seq<Seq<char>>
    decreases n,
{
    if n <= 0 {
        keys
    } else if table.contains_key(others[n - 1]) {
        merged_keys(keys, table, others, n - 1)
    } else {
        merged_keys(keys, table, others, n - 1).push(others[n - 1])
    }
}

impl Lexicon {
    /// The table underneath is well formed.
    pub closed spec fn wf(&self) -> bool {
        self.table.wf()
    }

    /// The keys in the order in which they first came.
    pub closed spec fn key_list(&self) -> Seq<Seq<char>> {
        self.table.key_list()
    }

    /// The key list holds each key of the table once, and nothing else.
    pub proof fn lemma_key_list(&self)
        requires
            self.wf(),
        ensures
            self.key_list().no_duplicates(),
            forall|k: Seq<char>| self.key_list().contains(k) <==> self@.contains_key(k),
    {
        self.table.lemma_key_list();
    }

    /// The empty table.
    pub fn new() -> (lexicon: Lexicon)
        ensures
            lexicon.wf(),
            lexicon@ == Map::<Seq<char>, Seq<char>>::empty(),
            lexicon.key_list() == Seq::<Seq<char>>::empty(),
    {
        let lexicon = Lexicon { table: Table::new() };
        assert(lexicon@ =~= Map::<Seq<char>, Seq<char>>::empty());
        lexicon
    }

    /// The number of entries.
    pub fn len(&self) -> (n: usize)
        ensures
            n == self.key_list().len(),
    {
        self.table.len()
    }

    /// The key of the `i`-th entry.
    pub fn key_at(&self, i: usize) -> (key: &String)
        requires
            i < self.key_list().len(),
        ensures
            key@ == self.key_list()[i as int],
    {
        self.table.key_at(i)
    }

    /// The value of the `i`-th entry.
    pub fn value_at(&self, i: usize) -> (value: &String)
        requires
            self.wf(),
            i < self.key_list().len(),
        ensures
            self@.contains_key(self.key_list()[i as int]),
            value@ == self@[self.key_list()[i as int]],
    {
        self.table.value_at(i)
    }

    /// The value stored under `key`, if there is one.
    pub fn get(&self, key: &str) -> (value: Option<&String>)
        requires
            self.wf(),
        ensures
            value is Some <==> self@.contains_key(key@),
            value matches Some(v) ==> v@ == self@[key@],
    {
        self.table.get(key)
    }

    /// The text stored under `key`, or the empty text where there is none.
    pub fn text(&self, key: &str) -> (text: String)
        requires
            self.wf(),
        ensures
            text@ == lookup(self@, key@),
    {
        match self.get(key) {
            Some(value) => value.clone(),
            None => String::new(),
        }
    }

    /// Stores `value` under `key`, in place of what was stored there.
    pub fn insert(&mut self, key: String, value: String)
        requires
            old(self).wf(),
        ensures
            final(self).wf(),
            final(self)@ == old(self)@.insert(key@, value@),
            final(self).key_list() == if old(self)@.contains_key(key@) {
                old(self).key_list()
            } else {
                old(self).key_list().push(key@)
            },
    {
        self.table.insert(key, value);
        assert(self@ =~= old(self)@.insert(key@, value@));
    }

    /// Stores every entry of `other`, in place of what was stored under the
    /// same key.
    pub fn extend(&mut self, other: &Lexicon)
        requires
            old(self).wf(),
            other.wf(),
        ensures
            final(self).wf(),
            final(self)@ == old(self)@.union_prefer_right(other@),
            final(self).key_list() == merged_keys(
                old(self).key_list(),
                old(self)@,
                other.key_list(),
                other.key_list().len() as int,
            ),
    {
        let mut i: usize = 0;
        proof {
            other.lemma_key_list();
        }
        while i < other.len()
            invariant
                i <= other.key_list().len(),
                other.wf(),
                self.wf(),
                other.key_list().no_duplicates(),
                self.key_list() == merged_keys(
                    old(self).key_list(),
                    old(self)@,
                    other.key_list(),
                    i as int,
                ),
                forall|k: Seq<char>| other.key_list().contains(k) <==> other@.contains_key(k),
                forall|k: Seq<char>| #[trigger]
                    self@.contains_key(k) <==> old(self)@.contains_key(k) || other.key_list().take(
                        i as int,
                    ).contains(k),
                forall|k: Seq<char>| #[trigger]
                    self@.contains_key(k) ==> self@[k] == if other.key_list().take(
                        i as int,
                    ).contains(k) {
                        other@[k]
                    } else {
                        old(self)@[k]
                    },
            decreases other.key_list().len() - i,
        {
            let ghost done = other.key_list().take(i as int);
            let ghost k0 = other.key_list()[i as int];
            let key = other.key_at(i).clone();
            let value = other.value_at(i).clone();
            proof {
                if done.contains(k0) {
                    let j = choose|j: int| 0 <= j < done.len() && done[j] == k0;
                    assert(other.key_list()[j] == other.key_list()[i as int]);
                }
            }
            self.insert(key, value);
            proof {
                let next = other.key_list().take(i + 1);
                assert(next =~= done.push(k0));
                assert forall|k: Seq<char>| next.contains(k) <==> (done.contains(k) || k == k0) by {
                    if next.contains(k) {
                        let j = choose|j: int| 0 <= j < next.len() && next[j] == k;
                        if j < i {
                            assert(done[j] == k);
                        }
                    }
                    if done.contains(k) {
                        let j = choose|j: int| 0 <= j < done.len() && done[j] == k;
                        assert(next[j] == k);
                    }
                    if k == k0 {
                        assert(next[i as int] == k);
                    }
                }
            }
            i += 1;
        }
        proof {
            assert(other.key_list().take(i as int) =~= other.key_list());
            assert(self@ =~= old(self)@.union_prefer_right(other@));
        }
    }
}

} // verus!
