//! Ordering texts: the order of the standard library, which compares texts
//! character by character, and the sorts that rest on it.
use vstd::prelude::*;
use crate::countries::{Country, CountryView, view_countries};
use crate::text::texts;

verus! {

/// Whether `a` comes before `b` or equals it, comparing character by
/// character: the first difference decides, and a text comes before every
/// text that it starts.
pub open spec fn text_le(a: Seq<char>, b: Seq<char>) -> bool
    decreases a.len(),
{
    if a.len() == 0 {
        true
    } else if b.len() == 0 {
        false
    } else if a.first() == b.first() {
        text_le(a.drop_first(), b.drop_first())
    } else {
        a.first() < b.first()
    }
}

/// Whether a list of texts ascends.
pub open spec fn ascending_texts(list: Seq<Seq<char>>) -> bool {
    forall|i: int, j: int| 0 <= i <= j < list.len() ==> text_le(list[i], list[j])
}

/// The tags of a list of countries, in order.
pub open spec fn tags_of(countries: Seq<CountryView>) -> Seq<Seq<char>> {
    countries.map_values(|c: CountryView| c.tag)
}

/// The countries of a list that have the tag `tag`, in order.
pub open spec fn with_tag(countries: Seq<CountryView>, tag: Seq<char>) -> Seq<CountryView> {
    countries.filter(|c: CountryView| c.tag == tag)
}

/// A list without the items that repeat the item before them.
pub open spec fn without_repeats(list: Seq<Seq<char>>) -> Seq<Seq<char>>
    decreases list.len(),
{
    if list.len() <= 1 {
        list
    } else if list.last() == list.drop_last().last() {
        without_repeats(list.drop_last())
    } else {
        without_repeats(list.drop_last()).push(list.last())
    }
}

/// Trusted: `slice::sort` from the standard library, on strings. The
/// contract says what the documentation promises: the list holds the same
/// texts as before, each as often as before, and ascends in the order of
/// strings, which compares them byte by byte and so character by character.
#[verifier::external_body]
pub(crate) fn sort_texts(list: &mut Vec<String>)
    ensures
        texts(final(list)@).to_multiset() == texts(old(list)@).to_multiset(),
        ascending_texts(texts(final(list)@)),
{
    list.sort();
}

/// Trusted: `Vec::dedup` from the standard library, on strings. The contract
/// says what the documentation promises: of each run of equal texts the
/// first stays.
#[verifier::external_body]
pub(crate) fn drop_repeats(list: &mut Vec<String>)
    ensures
        texts(final(list)@) == without_repeats(texts(old(list)@)),
{
    list.dedup();
}

/// Trusted: `slice::sort_by` from the standard library, on countries, with
/// the order of their tags. The contract says what the documentation
/// promises: the list holds the same countries as before, each as often as
/// before, their tags ascend in the order of strings, and countries with
/// the same tag keep their order.
#[verifier::external_body]
pub(crate) fn sort_countries(list: &mut Vec<Country>)
    ensures
        view_countries(final(list)@).to_multiset() == view_countries(old(list)@).to_multiset(),
        ascending_texts(tags_of(view_countries(final(list)@))),
        forall|tag: Seq<char>|
            with_tag(view_countries(final(list)@), tag) == with_tag(
                view_countries(old(list)@),
                tag,
            ),
{
    list.sort_by(|a, b| a.tag.cmp(&b.tag));
}

/// Sorts countries by their tags; countries with the same tag keep their
/// order.
pub fn sort_by_tag(countries: &mut Vec<Country>)
    ensures
        view_countries(final(countries)@).to_multiset() == view_countries(
            old(countries)@,
        ).to_multiset(),
        ascending_texts(tags_of(view_countries(final(countries)@))),
        forall|tag: Seq<char>|
            with_tag(view_countries(final(countries)@), tag) == with_tag(
                view_countries(old(countries)@),
                tag,
            ),
{
    sort_countries(countries);
}

} // verus!
