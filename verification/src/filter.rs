//! The filter engine: which keys of a list a query lets through.

use vstd::prelude::*;
use crate::text::{contains, contains_seq, lowercase_of, to_lowercase};

verus! {

/// The character sequences of a list of texts.
pub open spec fn views(keys: Seq<String>) -> Seq<Seq<char>> {
    keys.map_values(|s: String| s@)
}

/// A key matches a query when the key's lowercase form contains the query's
/// lowercase form.
pub open spec fn key_matches(key: Seq<char>, query: Seq<char>) -> bool {
    contains_seq(lowercase_of(key), lowercase_of(query))
}

/// The keys of `keys` that match `query`, in their order in `keys`.
pub open spec fn filter_spec(keys: Seq<Seq<char>>, query: Seq<char>) -> Seq<Seq<char>> {
    keys.filter(|k: Seq<char>| key_matches(k, query))
}

/// The positions in `keys` of the keys that match `query`, in rising order.
pub open spec fn matching_positions(keys: Seq<Seq<char>>, query: Seq<char>) -> Seq<int>
    decreases keys.len(),
{
    if keys.len() == 0 {
        Seq::empty()
    } else if key_matches(keys.last(), query) {
        matching_positions(keys.drop_last(), query).push(keys.len() - 1)
    } else {
        matching_positions(keys.drop_last(), query)
    }
}

/// The keys whose companion text in `folded` contains `needle`, in order.
/// Lists of different lengths have no companions, and nothing is kept.
pub open spec fn keep_spec(keys: Seq<Seq<char>>, folded: Seq<Seq<char>>, needle: Seq<char>) -> Seq<
    Seq<char>,
>
    decreases keys.len(),
{
    if keys.len() == 0 || folded.len() != keys.len() {
        Seq::empty()
    } else if contains_seq(folded.last(), needle) {
        keep_spec(keys.drop_last(), folded.drop_last(), needle).push(keys.last())
    } else {
        keep_spec(keys.drop_last(), folded.drop_last(), needle)
    }
}

/// Keeping by lowercase companions is filtering by `key_matches`.
pub proof fn lemma_keep_is_filter(keys: Seq<Seq<char>>, query: Seq<char>)
    ensures
        keep_spec(keys, keys.map_values(|k: Seq<char>| lowercase_of(k)), lowercase_of(query))
            == filter_spec(keys, query),
    decreases keys.len(),
{
    let folded = keys.map_values(|k: Seq<char>| lowercase_of(k));
    reveal(Seq::filter);
    if keys.len() > 0 {
        lemma_keep_is_filter(keys.drop_last(), query);
        assert(folded.drop_last() =~= keys.drop_last().map_values(|k: Seq<char>| lowercase_of(k)));
        assert(folded.last() == lowercase_of(keys.last()));
    }
}

/// Copies a list of texts.
pub fn clone_keys(keys: &Vec<String>) -> (r: Vec<String>)
    ensures
        views(r@) == views(keys@),
{
    let mut out: Vec<String> = Vec::new();
    let mut i: usize = 0;
    while i < keys.len()
        invariant
            i <= keys.len(),
            views(out@) == views(keys@.take(i as int)),
        decreases keys.len() - i,
    {
        let ghost before = views(out@);
        out.push(keys[i].clone());
        proof {
            assert(views(out@) =~= before.push(keys@[i as int]@));
            assert(before.push(keys@[i as int]@) =~= views(keys@.take(i as int + 1)));
        }
        i += 1;
    }
    proof {
        assert(keys@.take(i as int) =~= keys@);
    }
    out
}

/// Keeps each key whose companion in `folded` contains `needle`, in order.
/// `folded` holds one text per key, at the key's index; where the two lists
/// differ in length, nothing is kept.
pub fn keep_containing(keys: &Vec<String>, folded: &Vec<String>, needle: &str) -> (r: Vec<String>)
    ensures
        views(r@) == keep_spec(views(keys@), views(folded@), needle@),
{
    let mut out: Vec<String> = Vec::new();
    if keys.len() != folded.len() {
        assert(views(out@) =~= Seq::<Seq<char>>::empty());
        return out;
    }
    let mut i: usize = 0;
    while i < keys.len()
        invariant
            i <= keys.len(),
            keys.len() == folded.len(),
            views(out@) == keep_spec(
                views(keys@.take(i as int)),
                views(folded@.take(i as int)),
                needle@,
            ),
        decreases keys.len() - i,
    {
        let hit = contains(folded[i].as_str(), needle);
        let ghost before = views(out@);
        proof {
            let k1 = views(keys@.take(i as int + 1));
            let f1 = views(folded@.take(i as int + 1));
            assert(k1.drop_last() =~= views(keys@.take(i as int)));
            assert(f1.drop_last() =~= views(folded@.take(i as int)));
            assert(k1.last() == keys@[i as int]@);
            assert(f1.last() == folded@[i as int]@);
        }
        if hit {
            out.push(keys[i].clone());
            proof {
                assert(views(out@) =~= before.push(keys@[i as int]@));
            }
        }
        i += 1;
    }
    proof {
        assert(keys@.take(i as int) =~= keys@);
        assert(folded@.take(i as int) =~= folded@);
    }
    out
}

/// The visible subset of `full` under `query`: the keys whose lowercase form
/// contains the lowercase form of the query, in the order of `full`. An empty
/// query lets every key through; callers that show the full list then need not
/// call this at all.
pub fn apply_filter(full: &Vec<String>, query: &str) -> (r: Vec<String>)
    ensures
        views(r@) == filter_spec(views(full@), query@),
{
    let needle = to_lowercase(query);
    let mut folded: Vec<String> = Vec::new();
    let mut i: usize = 0;
    while i < full.len()
        invariant
            i <= full.len(),
            folded.len() == i,
            forall|j: int| 0 <= j < i ==> (#[trigger] folded@[j])@ == lowercase_of(full@[j]@),
        decreases full.len() - i,
    {
        folded.push(to_lowercase(full[i].as_str()));
        i += 1;
    }
    let r = keep_containing(full, &folded, needle.as_str());
    proof {
        assert(views(folded@) =~= views(full@).map_values(|k: Seq<char>| lowercase_of(k)));
        lemma_keep_is_filter(views(full@), query@);
    }
    r
}

} // verus!
