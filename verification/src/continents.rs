//! Continents: which continent each province lies on, and the provinces of
//! each continent.
//!
//! The assignment of provinces to continents is kept as a list in ascending
//! order of the province identifiers, each identifier once. A province that
//! several continents list lies on the last that lists it.
use vstd::prelude::*;
use crate::document::{Document, Entry, numbers_in, read_numbers};
use crate::text::text_eq;

verus! {

/// The models of a list of assignments, in order.
pub open spec fn view_assignments(list: Seq<(u64, String)>) -> Seq<(u64, Seq<char>)> {
    list.map_values(|e: (u64, String)| (e.0, e.1@))
}

/// Whether the identifiers of a list of assignments strictly ascend.
pub open spec fn ascending(list: Seq<(u64, Seq<char>)>) -> bool {
    forall|i: int, j: int| 0 <= i < j < list.len() ==> list[i].0 < list[j].0
}

/// The number of assignments at the start of the list whose identifier is
/// less than `id`.
pub open spec fn rank(list: Seq<(u64, Seq<char>)>, id: u64) -> int
    decreases list.len(),
{
    if list.len() == 0 || list.first().0 >= id {
        0
    } else {
        1 + rank(list.drop_first(), id)
    }
}

/// The list with the province `id` assigned to `continent`: in the place of
/// its earlier assignment, or in the place that keeps the list ascending.
pub open spec fn assign(list: Seq<(u64, Seq<char>)>, id: u64, continent: Seq<char>) -> Seq<
    (u64, Seq<char>),
> {
    let place = rank(list, id);
    if place < list.len() && list[place].0 == id {
        list.update(place, (id, continent))
    } else {
        list.insert(place, (id, continent))
    }
}

/// The list with each of `ids` assigned to `continent`, in order.
pub open spec fn assign_all(list: Seq<(u64, Seq<char>)>, ids: Seq<u64>, continent: Seq<char>)
    -> Seq<(u64, Seq<char>)>
    decreases ids.len(),
{
    if ids.len() == 0 {
        list
    } else {
        assign(assign_all(list, ids.drop_last(), continent), ids.last(), continent)
    }
}

/// The assignments that the continent file gives: each top-level field
/// names a continent, and the numbers among its bare values are its
/// provinces.
pub open spec fn continents_of(document: Seq<Entry>) -> Seq<(u64, Seq<char>)>
    decreases document.len(),
{
    if document.len() == 0 {
        Seq::empty()
    } else {
        match document.last().value.array() {
            Some(values) => assign_all(
                continents_of(document.drop_last()),
                numbers_in(values),
                document.last().key,
            ),
            None => continents_of(document.drop_last()),
        }
    }
}

/// The rank is the first place whose identifier is not less than `id`.
proof fn lemma_rank(list: Seq<(u64, Seq<char>)>, id: u64, place: int)
    requires
        0 <= place <= list.len(),
        forall|j: int| 0 <= j < place ==> list[j].0 < id,
        place < list.len() ==> list[place].0 >= id,
    ensures
        rank(list, id) == place,
    decreases list.len(),
{
    if place > 0 {
        assert(list.first().0 < id);
        let rest = list.drop_first();
        assert forall|j: int| 0 <= j < place - 1 implies rest[j].0 < id by {
            assert(rest[j] == list[j + 1]);
        }
        if place - 1 < rest.len() {
            assert(rest[place - 1] == list[place]);
        }
        lemma_rank(rest, id, place - 1);
    }
}

/// The rank lies within the list, everything before it is less than `id`
/// and what stands at it is not.
proof fn lemma_rank_splits(list: Seq<(u64, Seq<char>)>, id: u64)
    ensures
        0 <= rank(list, id) <= list.len(),
        forall|j: int| 0 <= j < rank(list, id) ==> list[j].0 < id,
        rank(list, id) < list.len() ==> list[rank(list, id)].0 >= id,
    decreases list.len(),
{
    if list.len() == 0 || list.first().0 >= id {
    } else {
        let rest = list.drop_first();
        lemma_rank_splits(rest, id);
        assert forall|j: int| 0 <= j < rank(list, id) implies list[j].0 < id by {
            if j > 0 {
                assert(rest[j - 1] == list[j]);
            }
        }
        if rank(list, id) < list.len() {
            assert(rest[rank(rest, id)] == list[rank(list, id)]);
        }
    }
}

/// An assignment keeps an ascending list ascending.
pub proof fn lemma_assign_ascending(list: Seq<(u64, Seq<char>)>, id: u64, continent: Seq<char>)
    requires
        ascending(list),
    ensures
        ascending(assign(list, id, continent)),
{
    lemma_rank_splits(list, id);
    let place = rank(list, id);
    let after = assign(list, id, continent);
    assert forall|i: int, j: int| 0 <= i < j < after.len() implies after[i].0 < after[j].0 by {
        if place < list.len() && list[place].0 == id {
            assert(after[i].0 == list[i].0);
            assert(after[j].0 == list[j].0);
        } else {
            if i < place {
                assert(after[i] == list[i]);
            } else if i > place {
                assert(after[i] == list[i - 1]);
            }
            if j < place {
                assert(after[j] == list[j]);
            } else if j > place {
                assert(after[j] == list[j - 1]);
            }
        }
    }
}

/// Assigning a list of provinces keeps an ascending list ascending.
pub proof fn lemma_assign_all_ascending(
    list: Seq<(u64, Seq<char>)>,
    ids: Seq<u64>,
    continent: Seq<char>,
)
    requires
        ascending(list),
    ensures
        ascending(assign_all(list, ids, continent)),
    decreases ids.len(),
{
    if ids.len() > 0 {
        lemma_assign_all_ascending(list, ids.drop_last(), continent);
        lemma_assign_ascending(assign_all(list, ids.drop_last(), continent), ids.last(), continent);
    }
}

/// The assignments of the continent file ascend.
pub proof fn lemma_continents_ascending(document: Seq<Entry>)
    ensures
        ascending(continents_of(document)),
    decreases document.len(),
{
    if document.len() > 0 {
        lemma_continents_ascending(document.drop_last());
        match document.last().value.array() {
            Some(values) => {
                lemma_assign_all_ascending(
                    continents_of(document.drop_last()),
                    numbers_in(values),
                    document.last().key,
                );
            },
            None => {},
        }
    }
}

fn assign_province(list: &mut Vec<(u64, String)>, id: u64, continent: String)
    ensures
        view_assignments(final(list)@) == assign(view_assignments(old(list)@), id, continent@),
{
    let ghost before = view_assignments(list@);
    let mut place: usize = 0;
    while place < list.len() && list[place].0 < id
        invariant
            place <= list.len(),
            list@ == old(list)@,
            before == view_assignments(list@),
            forall|j: int| 0 <= j < place ==> before[j].0 < id,
        decreases list.len() - place,
    {
        assert(before[place as int].0 == list@[place as int].0);
        place += 1;
    }
    proof {
        if place < list.len() {
            assert(before[place as int].0 == list@[place as int].0);
        }
        lemma_rank(before, id, place as int);
    }
    if place < list.len() && list[place].0 == id {
        list.set(place, (id, continent));
        assert(view_assignments(list@) =~= before.update(place as int, (id, continent@)));
    } else {
        list.insert(place, (id, continent));
        assert(view_assignments(list@) =~= before.insert(place as int, (id, continent@)));
    }
}

/// Reads the continent file: for each province the continent that it lies
/// on, in ascending order of the province identifiers.
pub fn parse_continents(document: &Document) -> (list: Vec<(u64, String)>)
    ensures
        view_assignments(list@) == continents_of(document@),
        ascending(view_assignments(list@)),
{
    let ghost entries = document@;
    let mut list: Vec<(u64, String)> = Vec::new();
    let mut i: usize = 0;
    assert(view_assignments(list@) =~= Seq::<(u64, Seq<char>)>::empty());
    while i < document.fields.len()
        invariant
            i <= document.fields.len(),
            entries == document@,
            view_assignments(list@) == continents_of(entries.take(i as int)),
        decreases document.fields.len() - i,
    {
        assert(entries.take(i + 1).drop_last() =~= entries.take(i as int));
        let field = &document.fields[i];
        match field.value.as_array() {
            Some(values) => {
                let ids = read_numbers(values);
                let ghost start = view_assignments(list@);
                let mut k: usize = 0;
                while k < ids.len()
                    invariant
                        k <= ids.len(),
                        view_assignments(list@) == assign_all(start, ids@.take(k as int), field.key@),
                    decreases ids.len() - k,
                {
                    assert(ids@.take(k + 1).drop_last() =~= ids@.take(k as int));
                    assign_province(&mut list, ids[k], field.key.clone());
                    k += 1;
                }
                assert(ids@.take(k as int) =~= ids@);
            },
            None => {},
        }
        i += 1;
    }
    assert(entries.take(i as int) =~= entries);
    proof {
        lemma_continents_ascending(entries);
    }
    list
}

/// The models of a list of groups, in order.
pub open spec fn view_groups(groups: Seq<(String, Vec<u64>)>) -> Seq<(Seq<char>, Seq<u64>)> {
    groups.map_values(|g: (String, Vec<u64>)| (g.0@, g.1@))
}

/// The place of the first group of the continent `continent`.
pub open spec fn group_of(groups: Seq<(Seq<char>, Seq<u64>)>, continent: Seq<char>) -> Option<int>
    decreases groups.len(),
{
    if groups.len() == 0 {
        None
    } else {
        match group_of(groups.drop_last(), continent) {
            Some(i) => Some(i),
            None => if groups.last().0 == continent {
                Some(groups.len() - 1)
            } else {
                None
            },
        }
    }
}

/// The groups with the province `id` added to the group of `continent`; the
/// group is added where there is none.
pub open spec fn grouped(groups: Seq<(Seq<char>, Seq<u64>)>, id: u64, continent: Seq<char>)
    -> Seq<(Seq<char>, Seq<u64>)> {
    match group_of(groups, continent) {
        Some(i) => groups.update(i, (continent, groups[i].1.push(id))),
        None => groups.push((continent, seq![id])),
    }
}

/// The provinces of each continent: the assignments read in order, each
/// province added to the group of its continent.
pub open spec fn inverse_of(list: Seq<(u64, Seq<char>)>) -> Seq<(Seq<char>, Seq<u64>)>
    decreases list.len(),
{
    if list.len() == 0 {
        Seq::empty()
    } else {
        grouped(inverse_of(list.drop_last()), list.last().0, list.last().1)
    }
}

/// A group found among the first `n` groups is the group found among all.
proof fn lemma_group_found(groups: Seq<(Seq<char>, Seq<u64>)>, continent: Seq<char>, n: int)
    requires
        0 <= n <= groups.len(),
        group_of(groups.take(n), continent) is Some,
    ensures
        group_of(groups, continent) == group_of(groups.take(n), continent),
    decreases groups.len() - n,
{
    if n == groups.len() {
        assert(groups.take(n) =~= groups);
    } else {
        assert(groups.take(n + 1).drop_last() =~= groups.take(n));
        lemma_group_found(groups, continent, n + 1);
    }
}

fn add_to_group(groups: &mut Vec<(String, Vec<u64>)>, id: u64, continent: &String)
    ensures
        view_groups(final(groups)@) == grouped(view_groups(old(groups)@), id, continent@),
{
    let ghost before = view_groups(groups@);
    let mut i: usize = 0;
    assert(before.take(0) =~= Seq::<(Seq<char>, Seq<u64>)>::empty());
    while i < groups.len()
        invariant
            i <= groups.len(),
            groups@ == old(groups)@,
            before == view_groups(groups@),
            group_of(before.take(i as int), continent@) is None,
        decreases groups.len() - i,
    {
        assert(before.take(i + 1).drop_last() =~= before.take(i as int));
        assert(before.take(i + 1).last() == (groups@[i as int].0@, groups@[i as int].1@));
        if text_eq(groups[i].0.as_str(), continent.as_str()) {
            proof {
                lemma_group_found(before, continent@, i + 1);
            }
            let (name, mut ids) = groups.remove(i);
            assert(view_groups(groups@) =~= before.remove(i as int));
            ids.push(id);
            let ghost changed = (name@, ids@);
            groups.insert(i, (name, ids));
            assert(view_groups(groups@) =~= before.update(i as int, changed));
            return ;
        }
        i += 1;
    }
    assert(before.take(i as int) =~= before);
    let mut ids: Vec<u64> = Vec::new();
    ids.push(id);
    assert(ids@ =~= seq![id]);
    groups.push((continent.clone(), ids));
    assert(view_groups(groups@) =~= before.push((continent@, seq![id])));
}

/// Turns the assignments round: for each continent its provinces, in the
/// order of the assignments.
pub fn parse_continents_inverse(continents: &Vec<(u64, String)>) -> (groups: Vec<
    (String, Vec<u64>),
>)
    ensures
        view_groups(groups@) == inverse_of(view_assignments(continents@)),
{
    let ghost list = view_assignments(continents@);
    let mut groups: Vec<(String, Vec<u64>)> = Vec::new();
    let mut i: usize = 0;
    assert(view_groups(groups@) =~= Seq::<(Seq<char>, Seq<u64>)>::empty());
    while i < continents.len()
        invariant
            i <= continents.len(),
            list == view_assignments(continents@),
            view_groups(groups@) == inverse_of(list.take(i as int)),
        decreases continents.len() - i,
    {
        assert(list.take(i + 1).drop_last() =~= list.take(i as int));
        assert(list.take(i + 1).last() == (continents@[i as int].0, continents@[i as int].1@));
        add_to_group(&mut groups, continents[i].0, &continents[i].1);
        i += 1;
    }
    assert(list.take(i as int) =~= list);
    groups
}

} // verus!
