//! Finding items by a part of their name, whatever the case of the letters.

use vstd::prelude::*;
use crate::model::ItemMapping;

verus! {

/// The lowercase form of a text, as `str::to_lowercase` gives it.
pub uninterp spec fn lowercased(text: Seq<char>) -> Seq<char>;

/// Whether `needle` stands somewhere in `text` as one unbroken run of
/// characters. The empty needle stands in every text.
pub open spec fn occurs_in(needle: Seq<char>, text: Seq<char>) -> bool {
    exists|at: int| 0 <= at <= text.len() && needle.is_prefix_of(#[trigger] text.skip(at))
}

/// Calls `str::to_lowercase`: the result is the lowercase form of `text`
/// under the Unicode rules that the standard library follows, a function of
/// the characters of `text` alone.
#[verifier::external_body]
fn lowercase(text: &str) -> (lower: String)
    ensures
        lower@ == lowercased(text@),
{
    text.to_lowercase()
}

/// Calls `str::contains` with a string as the pattern: true exactly if
/// `needle` matches a part of `text`.
#[verifier::external_body]
fn contains(text: &str, needle: &str) -> (found: bool)
    ensures
        found == occurs_in(needle@, text@),
{
    text.contains(needle)
}

/// The test an item has to pass for a query whose lowercase form is
/// `lower_query`: the lowercase form of its name contains it.
pub open spec fn selected(lower_query: Seq<char>) -> spec_fn(ItemMapping) -> bool {
    |mapping: ItemMapping| occurs_in(lower_query, lowercased(mapping.name@))
}

/// The items that `query` names: those whose name contains the query once
/// both are in lowercase, in the order of `mappings`.
pub open spec fn matching(query: Seq<char>, mappings: Seq<ItemMapping>) -> Seq<ItemMapping> {
    mappings.filter(selected(lowercased(query)))
}

/// The items behind a list of references.
pub open spec fn entries(found: Seq<&ItemMapping>) -> Seq<ItemMapping> {
    found.map_values(|mapping: &ItemMapping| *mapping)
}

/// The characters of each text of a list.
pub open spec fn texts(list: Seq<String>) -> Seq<Seq<char>> {
    list.map_values(|text: String| text@)
}

/// The names of `mappings` in lowercase.
pub open spec fn lowercased_names(mappings: Seq<ItemMapping>) -> Seq<Seq<char>> {
    mappings.map_values(|mapping: ItemMapping| lowercased(mapping.name@))
}

/// The positions, in rising order, of the texts of `names` that contain
/// `query`.
pub open spec fn hits(query: Seq<char>, names: Seq<Seq<char>>) -> Seq<int>
    decreases names.len(),
{
    if names.len() == 0 {
        Seq::empty()
    } else {
        let before = hits(query, names.drop_last());
        if occurs_in(query, names.last()) {
            before.push(names.len() - 1)
        } else {
            before
        }
    }
}

/// Every hit is a position in the list.
pub proof fn lemma_hits_in_range(query: Seq<char>, names: Seq<Seq<char>>)
    ensures
        forall|k: int| 0 <= k < hits(query, names).len() ==> 0 <= #[trigger] hits(query, names)[k]
            < names.len(),
    decreases names.len(),
{
    if names.len() > 0 {
        lemma_hits_in_range(query, names.drop_last());
        let before = hits(query, names.drop_last());
        assert forall|k: int| 0 <= k < hits(query, names).len() implies 0 <= #[trigger] hits(
            query,
            names,
        )[k] < names.len() by {
            if k < before.len() {
                assert(hits(query, names)[k] == before[k]);
            }
        }
    }
}

/// The items at the hits among the lowercase names are the items that the
/// query names.
pub proof fn lemma_hits_are_matching(lower_query: Seq<char>, mappings: Seq<ItemMapping>)
    ensures
        hits(lower_query, lowercased_names(mappings)).map_values(|at: int| mappings[at])
            == mappings.filter(selected(lower_query)),
    decreases mappings.len(),
{
    reveal(Seq::filter);
    let names = lowercased_names(mappings);
    if mappings.len() > 0 {
        let shorter = mappings.drop_last();
        lemma_hits_are_matching(lower_query, shorter);
        lemma_hits_in_range(lower_query, lowercased_names(shorter));
        assert(names.drop_last() =~= lowercased_names(shorter));
        let before = hits(lower_query, names.drop_last());
        assert(before.map_values(|at: int| mappings[at]) =~= before.map_values(
            |at: int| shorter[at],
        ));
        if occurs_in(lower_query, names.last()) {
            assert(before.push(names.len() - 1).map_values(|at: int| mappings[at])
                =~= before.map_values(|at: int| mappings[at]).push(mappings.last()));
        }
    } else {
        assert(hits(lower_query, names).map_values(|at: int| mappings[at]) =~= mappings);
    }
}

/// Finds, among names already in lowercase, those that contain a query
/// already in lowercase, and gives their positions in rising order.
pub fn find_hits(lower_query: &str, lower_names: &[String]) -> (found: Vec<usize>)
    ensures
        found@.map_values(|at: usize| at as int) == hits(lower_query@, texts(lower_names@)),
        forall|k: int| 0 <= k < found.len() ==> #[trigger] found[k] < lower_names.len(),
{
    let mut found: Vec<usize> = Vec::new();
    let mut i: usize = 0;
    assert(texts(lower_names@).take(0) =~= Seq::empty());
    while i < lower_names.len()
        invariant
            i <= lower_names.len(),
            found@.map_values(|at: usize| at as int) == hits(
                lower_query@,
                texts(lower_names@).take(i as int),
            ),
            forall|k: int| 0 <= k < found.len() ==> #[trigger] found[k] < i,
        decreases lower_names.len() - i,
    {
        let ghost before = found@;
        assert(texts(lower_names@).take(i + 1).drop_last() =~= texts(lower_names@).take(i as int));
        assert(texts(lower_names@).take(i + 1).last() == lower_names@[i as int]@);
        if contains(lower_names[i].as_str(), lower_query) {
            found.push(i);
            assert(found@.map_values(|at: usize| at as int) =~= before.map_values(
                |at: usize| at as int,
            ).push(i as int));
        }
        i += 1;
    }
    assert(texts(lower_names@).take(i as int) =~= texts(lower_names@));
    found
}

/// The names of `mappings` in lowercase, in their order.
fn lowercase_names(mappings: &[ItemMapping]) -> (names: Vec<String>)
    ensures
        texts(names@) == lowercased_names(mappings@),
{
    let mut names: Vec<String> = Vec::new();
    let mut i: usize = 0;
    while i < mappings.len()
        invariant
            i <= mappings.len(),
            names.len() == i,
            forall|k: int| 0 <= k < i ==> (#[trigger] names[k])@ == lowercased(mappings[k].name@),
        decreases mappings.len() - i,
    {
        names.push(lowercase(mappings[i].name.as_str()));
        i += 1;
    }
    assert(texts(names@) =~= lowercased_names(mappings@));
    names
}

/// Finds the items whose name contains `name`, letter case aside. No match
/// is no error: the result is then empty.
pub fn get_matching_items<'a>(name: &str, mappings: &'a [ItemMapping]) -> (found: Vec<
    &'a ItemMapping,
>)
    ensures
        entries(found@) == matching(name@, mappings@),
{
    let lower = lowercase(name);
    let lower_names = lowercase_names(mappings);
    let at = find_hits(lower.as_str(), lower_names.as_slice());
    let ghost places = at@.map_values(|at: usize| at as int);
    proof {
        lemma_hits_are_matching(lower@, mappings@);
    }
    let mut found: Vec<&'a ItemMapping> = Vec::new();
    let mut i: usize = 0;
    while i < at.len()
        invariant
            i <= at.len(),
            found.len() == i,
            lower_names.len() == mappings.len(),
            forall|k: int| 0 <= k < at.len() ==> #[trigger] at[k] < lower_names.len(),
            forall|k: int| 0 <= k < i ==> *(#[trigger] found[k]) == mappings[at[k] as int],
        decreases at.len() - i,
    {
        found.push(&mappings[at[i]]);
        i += 1;
    }
    assert(entries(found@) =~= places.map_values(|at: int| mappings@[at]));
    found
}

/// Letter case in the query does not count: two queries with the same
/// lowercase form name the same items, in the same order.
pub proof fn lemma_matching_ignores_query_case(
    first: Seq<char>,
    second: Seq<char>,
    mappings: Seq<ItemMapping>,
)
    requires
        lowercased(first) == lowercased(second),
    ensures
        matching(first, mappings) == matching(second, mappings),
{
}

/// Every item found is one of `mappings` and passes the test, and every item
/// of `mappings` that passes is found.
pub proof fn lemma_matching_is_exact(query: Seq<char>, mappings: Seq<ItemMapping>)
    ensures
        forall|i: int|
            0 <= i < matching(query, mappings).len() ==> mappings.contains(
                #[trigger] matching(query, mappings)[i],
            ) && selected(lowercased(query))(matching(query, mappings)[i]),
        forall|i: int|
            0 <= i < mappings.len() && selected(lowercased(query))(#[trigger] mappings[i])
                ==> matching(query, mappings).contains(mappings[i]),
{
    broadcast use vstd::seq_lib::group_filter_ensures;

    let test = selected(lowercased(query));
    assert forall|i: int| 0 <= i < matching(query, mappings).len() implies mappings.contains(
        #[trigger] matching(query, mappings)[i],
    ) && test(matching(query, mappings)[i]) by {
        let found = mappings.filter(test);
        assert(found.contains(found[i]));
        mappings.lemma_filter_contains_rev(test, found[i]);
    }
}

} // verus!
