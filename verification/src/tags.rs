//! A set of distinct strings, kept in the order in which they were first
//! inserted.
use vstd::prelude::*;
use crate::text::{contains_text, texts};

verus! {

/// A set of strings, held as a list in which no text occurs twice.
pub struct TagSet {
    items: Vec<String>,
}

impl View for TagSet {
    type V = Set<Seq<char>>;

    closed spec fn view(&self) -> Set<Seq<char>> {
        texts(self.items@).to_set()
    }
}

/// A listing with the first `n` members of another listing added: each
/// behind the others, unless the listing holds it already.
pub open spec fn extended(listing: Seq<Seq<char>>, others: Seq<Seq<char>>, n: int) -> Seq<
    Seq<char>,
>
    decreases n,
{
    if n <= 0 {
        listing
    } else if extended(listing, others, n - 1).contains(others[n - 1]) {
        extended(listing, others, n - 1)
    } else {
        extended(listing, others, n - 1).push(others[n - 1])
    }
}

impl TagSet {
    /// No text occurs twice in the list.
    pub closed spec fn wf(&self) -> bool {
        texts(self.items@).no_duplicates()
    }

    /// The members in insertion order.
    pub closed spec fn listing(&self) -> Seq<Seq<char>> {
        texts(self.items@)
    }

    /// The listing holds each member once, and nothing else.
    pub proof fn lemma_listing(&self)
        requires
            self.wf(),
        ensures
            self.listing().no_duplicates(),
            self.listing().to_set() == self@,
            self@.finite(),
            self@.len() == self.listing().len(),
    {
        self.listing().unique_seq_to_set();
    }

    /// The empty set.
    pub fn new() -> (set: TagSet)
        ensures
            set.wf(),
            set@ == Set::<Seq<char>>::empty(),
            set.listing() == Seq::<Seq<char>>::empty(),
    {
        let set = TagSet { items: Vec::new() };
        assert(texts(set.items@) =~= Seq::<Seq<char>>::empty());
        assert(texts(set.items@).to_set() =~= Set::<Seq<char>>::empty());
        set
    }

    /// Whether `tag` is a member.
    pub fn contains(&self, tag: &str) -> (found: bool)
        ensures
            found == self@.contains(tag@),
    {
        contains_text(&self.items, tag)
    }

    /// Adds `tag`; returns whether it was new.
    pub fn insert(&mut self, tag: String) -> (fresh: bool)
        requires
            old(self).wf(),
        ensures
            final(self).wf(),
            final(self)@ == old(self)@.insert(tag@),
            fresh == !old(self)@.contains(tag@),
            fresh == !old(self).listing().contains(tag@),
            final(self).listing() == if fresh {
                old(self).listing().push(tag@)
            } else {
                old(self).listing()
            },
    {
        if contains_text(&self.items, tag.as_str()) {
            assert(self@.insert(tag@) =~= self@);
            false
        } else {
            let ghost before = texts(self.items@);
            self.items.push(tag);
            proof {
                assert(texts(self.items@) =~= before.push(tag@));
                before.lemma_push_to_set_commute(tag@);
            }
            true
        }
    }

    /// The number of members.
    pub fn len(&self) -> (n: usize)
        requires
            self.wf(),
        ensures
            self@.finite(),
            n == self@.len(),
    {
        proof {
            texts(self.items@).unique_seq_to_set();
        }
        self.items.len()
    }

    /// Whether the set has no member.
    pub fn is_empty(&self) -> (empty: bool)
        ensures
            empty == (self@ == Set::<Seq<char>>::empty()),
    {
        proof {
            if self.items@.len() > 0 {
                assert(texts(self.items@)[0] == self.items@[0]@);
                assert(self@.contains(texts(self.items@)[0]));
            } else {
                assert(self@ =~= Set::<Seq<char>>::empty());
            }
        }
        self.items.len() == 0
    }

    /// The members as a list, in insertion order.
    pub fn items(&self) -> (items: &Vec<String>)
        ensures
            texts(items@) == self.listing(),
    {
        &self.items
    }

    /// Adds every member of `other`.
    pub fn extend(&mut self, other: &TagSet)
        requires
            old(self).wf(),
        ensures
            final(self).wf(),
            final(self)@ == old(self)@.union(other@),
            final(self).listing() == extended(
                old(self).listing(),
                other.listing(),
                other.listing().len() as int,
            ),
    {
        let mut i: usize = 0;
        while i < other.items.len()
            invariant
                i <= other.items.len(),
                self.wf(),
                self.listing() == extended(old(self).listing(), other.listing(), i as int),
                self@ == old(self)@.union(texts(other.items@).take(i as int).to_set()),
            decreases other.items.len() - i,
        {
            let ghost done = texts(other.items@).take(i as int);
            let tag = other.items[i].clone();
            self.insert(tag);
            proof {
                assert(texts(other.items@).take(i + 1) =~= done.push(other.items@[i as int]@));
                done.lemma_push_to_set_commute(other.items@[i as int]@);
                assert(self@ =~= old(self)@.union(texts(other.items@).take(i + 1).to_set()));
            }
            i += 1;
        }
        assert(texts(other.items@).take(i as int) =~= texts(other.items@));
    }
}

} // verus!
