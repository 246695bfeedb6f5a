//! Case-sensitive substring matching over sequences of characters.
//!
//! A name matches a query when the query is not empty and occurs in the name
//! as a contiguous run of characters. Characters are compared exactly: there
//! is no case folding and no normalisation.

use vstd::prelude::*;

verus! {

/// Whether `needle` occurs in `hay` starting at position `at`.
pub open spec fn occurs_at(needle: Seq<char>, hay: Seq<char>, at: int) -> bool {
    &&& 0 <= at
    &&& at + needle.len() <= hay.len()
    &&& hay.subrange(at, at + needle.len()) == needle
}

/// Whether `needle` is a contiguous run of characters somewhere in `hay`.
pub open spec fn is_substring(needle: Seq<char>, hay: Seq<char>) -> bool {
    exists|at: int| occurs_at(needle, hay, at)
}

/// Whether an application called `name` is a result for `query`: the query
/// is not empty and is a substring of the name.
pub open spec fn name_matches(name: Seq<char>, query: Seq<char>) -> bool {
    query.len() > 0 && is_substring(query, name)
}

/// The names that are results for `query`, in the order in which `names`
/// lists them.
pub open spec fn matching_names(names: Seq<Seq<char>>, query: Seq<char>) -> Seq<Seq<char>> {
    names.filter(|name: Seq<char>| name_matches(name, query))
}

/// The characters of `text`, in order.
pub fn chars_of(text: &str) -> (chars: Vec<char>)
    ensures
        chars@ == text@,
{
    let mut chars: Vec<char> = Vec::new();
    for c in it: text.chars()
        invariant
            chars@ == it.seq().take(it.index() as int),
            it.seq() == text@,
    {
        chars.push(c);
    }
    chars
}

/// Compares `needle` with the characters of `hay` that start at `at`.
fn matches_at(hay: &[char], needle: &[char], at: usize) -> (found: bool)
    requires
        at + needle@.len() <= hay@.len(),
    ensures
        found == occurs_at(needle@, hay@, at as int),
{
    let hay_len: usize = hay.len();
    let mut k: usize = 0;
    while k < needle.len()
        invariant
            k <= needle@.len(),
            at + needle@.len() <= hay@.len(),
            hay_len == hay@.len(),
            forall|j: int| 0 <= j < k ==> hay@[at + j] == needle@[j],
        decreases needle@.len() - k,
    {
        if hay[at + k] != needle[k] {
            assert(hay@.subrange(at as int, at + needle@.len())[k as int] != needle@[k as int]);
            return false;
        }
        k += 1;
    }
    assert(hay@.subrange(at as int, at + needle@.len()) =~= needle@);
    true
}

/// Looks for `needle` in `hay`, trying each starting position from the left.
pub fn contains_chars(hay: &[char], needle: &[char]) -> (found: bool)
    ensures
        found == is_substring(needle@, hay@),
{
    if needle.len() > hay.len() {
        return false;
    }
    let last: usize = hay.len() - needle.len();
    let mut at: usize = 0;
    loop
        invariant
            at <= last,
            last == hay@.len() - needle@.len(),
            forall|p: int| 0 <= p < at ==> !occurs_at(needle@, hay@, p),
        decreases last - at,
    {
        if matches_at(hay, needle, at) {
            return true;
        }
        if at == last {
            return false;
        }
        at += 1;
    }
}

/// Whether `needle` is a substring of `hay`.
pub fn contains(hay: &str, needle: &str) -> (found: bool)
    ensures
        found == is_substring(needle@, hay@),
{
    let hay_chars = chars_of(hay);
    let needle_chars = chars_of(needle);
    contains_chars(hay_chars.as_slice(), needle_chars.as_slice())
}

/// No name is a result for the empty query.
pub proof fn lemma_empty_query_matches_nothing(names: Seq<Seq<char>>)
    ensures
        matching_names(names, Seq::<char>::empty()) == Seq::<Seq<char>>::empty(),
{
    let query = Seq::<char>::empty();
    let pred = |name: Seq<char>| name_matches(name, query);
    names.lemma_all_neg_filter_empty(pred);
    assert(names.filter(pred) =~= Seq::<Seq<char>>::empty());
}

/// Whether `picks` lists, from first to last, exactly the positions of
/// `names` that hold a result for `query`.
pub open spec fn selects_results(picks: Seq<int>, names: Seq<Seq<char>>, query: Seq<char>) -> bool {
    &&& forall|i: int| 0 <= i < picks.len() ==> 0 <= #[trigger] picks[i] < names.len()
    &&& forall|i: int| 0 <= i < picks.len() ==> name_matches(names[#[trigger] picks[i]], query)
    &&& forall|i: int, j: int| 0 <= i < j < picks.len() ==> picks[i] < picks[j]
    &&& forall|k: int|
        0 <= k < names.len() && name_matches(#[trigger] names[k], query) ==> picks.contains(k)
}

/// The matching names are exactly the names that are results for the query,
/// each as often as the registry lists it and in registry order: row `i` is
/// the name at position `picks[i]`, where `picks` runs in increasing order
/// through every position that holds a result and through no other.
pub proof fn lemma_matching_names_exact(names: Seq<Seq<char>>, query: Seq<char>) -> (picks: Seq<
    int,
>)
    ensures
        selects_results(picks, names, query),
        matching_names(names, query).len() == picks.len(),
        forall|i: int|
            0 <= i < picks.len() ==> #[trigger] matching_names(names, query)[i] == names[picks[i]],
    decreases names.len(),
{
    reveal(Seq::filter);
    if names.len() == 0 {
        Seq::empty()
    } else {
        let rest = names.drop_last();
        let last = names.len() - 1;
        let rest_picks = lemma_matching_names_exact(rest, query);
        let rest_rows = matching_names(rest, query);
        assert forall|i: int| 0 <= i < rest_picks.len() implies names[#[trigger] rest_picks[i]]
            == rest_rows[i] by {
            assert(rest_rows[i] == rest[rest_picks[i]]);
        }
        if name_matches(names.last(), query) {
            let picks = rest_picks.push(last);
            assert(matching_names(names, query) == rest_rows.push(names.last()));
            assert forall|k: int|
                0 <= k < names.len() && name_matches(#[trigger] names[k], query) implies picks.contains(
                k,
            ) by {
                if k < last {
                    assert(name_matches(rest[k], query));
                    let i = choose|i: int| 0 <= i < rest_picks.len() && rest_picks[i] == k;
                    assert(picks[i] == k);
                } else {
                    assert(picks[rest_picks.len() as int] == k);
                }
            }
            picks
        } else {
            assert(matching_names(names, query) == rest_rows);
            assert forall|k: int|
                0 <= k < names.len() && name_matches(
                    #[trigger] names[k],
                    query,
                ) implies rest_picks.contains(k) by {
                assert(name_matches(rest[k], query));
            }
            rest_picks
        }
    }
}

/// A name is among the matching names exactly when the registry lists it
/// and it is a result for the query.
pub proof fn lemma_matching_names_membership(
    names: Seq<Seq<char>>,
    query: Seq<char>,
    name: Seq<char>,
)
    ensures
        matching_names(names, query).contains(name) <==> names.contains(name) && name_matches(
            name,
            query,
        ),
{
    let rows = matching_names(names, query);
    let picks = lemma_matching_names_exact(names, query);
    if rows.contains(name) {
        let i = choose|i: int| 0 <= i < rows.len() && rows[i] == name;
        assert(rows[i] == names[picks[i]]);
    }
    if names.contains(name) && name_matches(name, query) {
        let k = choose|k: int| 0 <= k < names.len() && names[k] == name;
        assert(name_matches(names[k], query));
        let i = choose|i: int| 0 <= i < picks.len() && picks[i] == k;
        assert(rows[i] == name);
    }
}

} // verus!
