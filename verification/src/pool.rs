//! Pools and claims: the ownership transfer that the hierarchy assembler is
//! built on, stated once for every level.
//!
//! A pool is a list of units, each with an identifier. A claim walks a list
//! of references; each reference takes the first unit with that identifier
//! out of the pool, and a reference that finds none is recorded as
//! unresolved. Memberships are counted with multisets: the sum, over a list
//! of units, of a bag that each unit contributes.
use vstd::prelude::*;
use vstd::multiset::Multiset;

verus! {

/// The sum of the bags that the units of `items` contribute.
pub open spec fn bag_sum<T, K>(items: Seq<T>, bag: spec_fn(T) -> Multiset<K>) -> Multiset<K>
    decreases items.len(),
{
    if items.len() == 0 {
        Multiset::empty()
    } else {
        bag_sum(items.drop_last(), bag).add(bag(items.last()))
    }
}

/// A unit appended to a list adds its own bag to the sum.
pub proof fn lemma_bag_sum_push<T, K>(items: Seq<T>, unit: T, bag: spec_fn(T) -> Multiset<K>)
    ensures
        bag_sum(items.push(unit), bag) == bag_sum(items, bag).add(bag(unit)),
{
    assert(items.push(unit).drop_last() =~= items);
}

/// A unit taken out of a list takes its own bag out of the sum.
pub proof fn lemma_bag_sum_remove<T, K>(items: Seq<T>, i: int, bag: spec_fn(T) -> Multiset<K>)
    requires
        0 <= i < items.len(),
    ensures
        bag_sum(items, bag) == bag_sum(items.remove(i), bag).add(bag(items[i])),
    decreases items.len(),
{
    if i == items.len() - 1 {
        assert(items.remove(i) =~= items.drop_last());
    } else {
        lemma_bag_sum_remove(items.drop_last(), i, bag);
        assert(items.remove(i).drop_last() =~= items.drop_last().remove(i));
        assert(items.remove(i).last() == items.last());
        assert(bag_sum(items, bag) =~= bag_sum(items.remove(i), bag).add(bag(items[i])));
    }
}

/// What the sum counts is counted by the bag of some unit.
pub proof fn lemma_bag_sum_member<T, K>(items: Seq<T>, bag: spec_fn(T) -> Multiset<K>, key: K)
    requires
        bag_sum(items, bag).count(key) > 0,
    ensures
        exists|i: int| 0 <= i < items.len() && bag(#[trigger] items[i]).count(key) > 0,
    decreases items.len(),
{
    if items.len() > 0 {
        if bag(items.last()).count(key) > 0 {
            assert(items[items.len() - 1] == items.last());
        } else {
            lemma_bag_sum_member(items.drop_last(), bag, key);
            let i = choose|i: int|
                0 <= i < items.drop_last().len() && bag(#[trigger] items.drop_last()[i]).count(key)
                    > 0;
            assert(items[i] == items.drop_last()[i]);
        }
    }
}

/// The outcome of a claim.
pub struct Claim<T> {
    /// The units that the references took, in the order of the references.
    pub taken: Seq<T>,
    /// What is left of the pool.
    pub pool: Seq<T>,
    /// The references that found no unit, in order.
    pub unresolved: Seq<Seq<char>>,
}

/// The place of the first unit of `pool` whose identifier is `wanted`.
pub open spec fn position<T>(pool: Seq<T>, id_of: spec_fn(T) -> Seq<char>, wanted: Seq<char>)
    -> Option<int> {
    pool.map_values(id_of).index_of_first(wanted)
}

/// Whether `pool` holds a unit whose identifier is `wanted`.
pub open spec fn holds<T>(pool: Seq<T>, id_of: spec_fn(T) -> Seq<char>, wanted: Seq<char>)
    -> bool {
    pool.map_values(id_of).contains(wanted)
}

/// What `position` says, spelled out.
pub proof fn lemma_position<T>(pool: Seq<T>, id_of: spec_fn(T) -> Seq<char>, wanted: Seq<char>)
    ensures
        match position(pool, id_of, wanted) {
            Some(i) => 0 <= i < pool.len() && id_of(pool[i]) == wanted && forall|j: int|
                0 <= j < i ==> id_of(#[trigger] pool[j]) != wanted,
            None => forall|j: int| 0 <= j < pool.len() ==> id_of(#[trigger] pool[j]) != wanted,
        },
        position(pool, id_of, wanted) is Some <==> holds(pool, id_of, wanted),
{
    let ids = pool.map_values(id_of);
    ids.index_of_first_ensures(wanted);
    match position(pool, id_of, wanted) {
        Some(i) => {
            assert forall|j: int| 0 <= j < i implies id_of(#[trigger] pool[j]) != wanted by {
                assert(ids[j] != wanted);
            }
        },
        None => {
            assert forall|j: int| 0 <= j < pool.len() implies id_of(#[trigger] pool[j])
                != wanted by {
                assert(ids[j] == id_of(pool[j]));
            }
        },
    }
}

/// Walks `references` in order and takes each unit that one of them names
/// out of `pool`.
pub open spec fn claim<T>(
    references: Seq<Seq<char>>,
    pool: Seq<T>,
    id_of: spec_fn(T) -> Seq<char>,
) -> Claim<T>
    decreases references.len(),
{
    if references.len() == 0 {
        Claim { taken: Seq::empty(), pool, unresolved: Seq::empty() }
    } else {
        let before = claim(references.drop_last(), pool, id_of);
        match position(before.pool, id_of, references.last()) {
            Some(i) => Claim {
                taken: before.taken.push(before.pool[i]),
                pool: before.pool.remove(i),
                unresolved: before.unresolved,
            },
            None => Claim {
                taken: before.taken,
                pool: before.pool,
                unresolved: before.unresolved.push(references.last()),
            },
        }
    }
}

/// A claim moves units and loses none: what was taken and what is left add
/// up to the pool.
pub proof fn lemma_claim_conserves<T, K>(
    references: Seq<Seq<char>>,
    pool: Seq<T>,
    id_of: spec_fn(T) -> Seq<char>,
    bag: spec_fn(T) -> Multiset<K>,
)
    ensures
        bag_sum(claim(references, pool, id_of).taken, bag).add(
            bag_sum(claim(references, pool, id_of).pool, bag),
        ) == bag_sum(pool, bag),
    decreases references.len(),
{
    let after = claim(references, pool, id_of);
    if references.len() == 0 {
        assert(bag_sum(after.taken, bag).add(bag_sum(after.pool, bag)) =~= bag_sum(pool, bag));
    } else {
        let before = claim(references.drop_last(), pool, id_of);
        lemma_claim_conserves(references.drop_last(), pool, id_of, bag);
        lemma_position(before.pool, id_of, references.last());
        match position(before.pool, id_of, references.last()) {
            Some(i) => {
                lemma_bag_sum_push(before.taken, before.pool[i], bag);
                lemma_bag_sum_remove(before.pool, i, bag);
                assert(bag_sum(after.taken, bag).add(bag_sum(after.pool, bag)) =~= bag_sum(
                    before.taken,
                    bag,
                ).add(bag_sum(before.pool, bag)));
            },
            None => {},
        }
    }
}

/// Every unit that a claim took, and every unit that it left, was in the
/// pool.
pub proof fn lemma_claim_from_pool<T>(
    references: Seq<Seq<char>>,
    pool: Seq<T>,
    id_of: spec_fn(T) -> Seq<char>,
)
    ensures
        forall|k: int|
            0 <= k < claim(references, pool, id_of).taken.len() ==> pool.contains(
                #[trigger] claim(references, pool, id_of).taken[k],
            ),
        forall|k: int|
            0 <= k < claim(references, pool, id_of).pool.len() ==> pool.contains(
                #[trigger] claim(references, pool, id_of).pool[k],
            ),
    decreases references.len(),
{
    let after = claim(references, pool, id_of);
    if references.len() == 0 {
    } else {
        let before = claim(references.drop_last(), pool, id_of);
        lemma_claim_from_pool(references.drop_last(), pool, id_of);
        lemma_position(before.pool, id_of, references.last());
        match position(before.pool, id_of, references.last()) {
            Some(i) => {
                assert forall|k: int| 0 <= k < after.taken.len() implies pool.contains(
                    #[trigger] after.taken[k],
                ) by {
                    if k < before.taken.len() {
                        assert(after.taken[k] == before.taken[k]);
                    } else {
                        assert(after.taken[k] == before.pool[i]);
                    }
                }
                assert forall|k: int| 0 <= k < after.pool.len() implies pool.contains(
                    #[trigger] after.pool[k],
                ) by {
                    if k < i {
                        assert(after.pool[k] == before.pool[k]);
                    } else {
                        assert(after.pool[k] == before.pool[k + 1]);
                    }
                }
            },
            None => {},
        }
    }
}

/// A claim accounts for every reference and every unit: each reference
/// either takes a unit or is recorded as unresolved, and each unit is either
/// taken or left.
pub proof fn lemma_claim_accounts<T>(
    references: Seq<Seq<char>>,
    pool: Seq<T>,
    id_of: spec_fn(T) -> Seq<char>,
)
    ensures
        claim(references, pool, id_of).taken.len() + claim(references, pool, id_of).unresolved.len()
            == references.len(),
        claim(references, pool, id_of).taken.len() + claim(references, pool, id_of).pool.len()
            == pool.len(),
        forall|k: int|
            0 <= k < claim(references, pool, id_of).taken.len() ==> references.contains(
                id_of(#[trigger] claim(references, pool, id_of).taken[k]),
            ),
        forall|k: int|
            0 <= k < claim(references, pool, id_of).unresolved.len() ==> references.contains(
                #[trigger] claim(references, pool, id_of).unresolved[k],
            ),
    decreases references.len(),
{
    let after = claim(references, pool, id_of);
    if references.len() > 0 {
        let shorter = references.drop_last();
        let before = claim(shorter, pool, id_of);
        lemma_claim_accounts(shorter, pool, id_of);
        lemma_position(before.pool, id_of, references.last());
        assert(references[references.len() - 1] == references.last());
        assert forall|t: Seq<char>| shorter.contains(t) implies references.contains(t) by {
            let j = choose|j: int| 0 <= j < shorter.len() && shorter[j] == t;
            assert(references[j] == t);
        }
        assert forall|k: int| 0 <= k < after.taken.len() implies references.contains(
            id_of(#[trigger] after.taken[k]),
        ) by {
            if k < before.taken.len() {
                assert(after.taken[k] == before.taken[k]);
                assert(shorter.contains(id_of(before.taken[k])));
            }
        }
        assert forall|k: int| 0 <= k < after.unresolved.len() implies references.contains(
            #[trigger] after.unresolved[k],
        ) by {
            if k < before.unresolved.len() {
                assert(after.unresolved[k] == before.unresolved[k]);
                assert(shorter.contains(before.unresolved[k]));
            }
        }
    }
}

} // verus!
