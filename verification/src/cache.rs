//! The detail cache: what has been learned of each key since the key list
//! was last loaded.

use vstd::prelude::*;
use crate::details::{DetailsView, KeyDetails};
use crate::fetch::{begin_spec, Fetch, FetchView};

verus! {

/// One remembered key with its details.
pub struct Entry {
    key: String,
    details: KeyDetails,
}

/// The details of the last entry for `key`, if there is one.
pub closed spec fn lookup(entries: Seq<Entry>, key: Seq<char>) -> Option<DetailsView>
    decreases entries.len(),
{
    if entries.len() == 0 {
        None
    } else if entries.last().key@ == key {
        Some(entries.last().details@)
    } else {
        lookup(entries.drop_last(), key)
    }
}

proof fn lemma_lookup_absent(entries: Seq<Entry>, key: Seq<char>)
    requires
        forall|j: int| 0 <= j < entries.len() ==> (#[trigger] entries[j]).key@ != key,
    ensures
        lookup(entries, key).is_none(),
    decreases entries.len(),
{
    if entries.len() > 0 {
        lemma_lookup_absent(entries.drop_last(), key);
    }
}

proof fn lemma_lookup_at(entries: Seq<Entry>, key: Seq<char>, i: int)
    requires
        0 <= i < entries.len(),
        entries[i].key@ == key,
        forall|j: int| i < j < entries.len() ==> (#[trigger] entries[j]).key@ != key,
    ensures
        lookup(entries, key) == Some(entries[i].details@),
    decreases entries.len(),
{
    if i < entries.len() - 1 {
        lemma_lookup_at(entries.drop_last(), key, i);
    }
}

proof fn lemma_lookup_update(entries: Seq<Entry>, i: int, entry: Entry, key: Seq<char>)
    requires
        0 <= i < entries.len(),
        entries[i].key@ == entry.key@,
    ensures
        key != entry.key@ ==> lookup(entries.update(i, entry), key) == lookup(entries, key),
    decreases entries.len(),
{
    let after = entries.update(i, entry);
    if i < entries.len() - 1 {
        assert(after.drop_last() =~= entries.drop_last().update(i, entry));
        lemma_lookup_update(entries.drop_last(), i, entry, key);
    } else {
        assert(after.drop_last() =~= entries.drop_last());
    }
}

/// What the cache says of a key.
pub enum Lookup<'a> {
    /// The cache knows the key: here are its details, and the store is not
    /// asked.
    Hit(&'a KeyDetails),
    /// The cache does not know the key: here is the fetch that gathers its
    /// details from the store.
    Miss(Fetch),
}

/// The mathematical value of a `Lookup`.
pub enum LookupView {
    Hit(DetailsView),
    Miss(FetchView),
}

impl<'a> View for Lookup<'a> {
    type V = LookupView;

    open spec fn view(&self) -> LookupView {
        match self {
            Lookup::Hit(d) => LookupView::Hit(d@),
            Lookup::Miss(f) => LookupView::Miss(f@),
        }
    }
}

/// What a cache says of `key`: its details where it knows the key, else a
/// fresh fetch for it.
pub open spec fn ensure_spec(cache: Map<Seq<char>, DetailsView>, key: Seq<char>) -> LookupView {
    if cache.contains_key(key) {
        LookupView::Hit(cache[key])
    } else {
        LookupView::Miss(begin_spec(key))
    }
}

/// Details by key. A key is stored at most once, so it has at most one set
/// of details at a time.
pub struct DetailCache {
    entries: Vec<Entry>,
}

impl View for DetailCache {
    type V = Map<Seq<char>, DetailsView>;

    closed spec fn view(&self) -> Map<Seq<char>, DetailsView> {
        Map::new(
            |k: Seq<char>| lookup(self.entries@, k).is_some(),
            |k: Seq<char>| lookup(self.entries@, k).unwrap(),
        )
    }
}

impl DetailCache {
    /// No key is stored twice.
    pub closed spec fn wf(&self) -> bool {
        forall|i: int, j: int|
            #![trigger self.entries@[i], self.entries@[j]]
            0 <= i < j < self.entries.len() ==> self.entries@[i].key@ != self.entries@[j].key@
    }

    /// A cache that knows no key.
    pub fn new() -> (r: DetailCache)
        ensures
            r.wf(),
            r@ == Map::<Seq<char>, DetailsView>::empty(),
    {
        let r = DetailCache { entries: Vec::new() };
        assert(r@ =~= Map::<Seq<char>, DetailsView>::empty());
        r
    }

    fn position(&self, key: &str) -> (r: Option<usize>)
        ensures
            match r {
                Some(i) => i < self.entries.len() && lookup(self.entries@, key@) == Some(
                    self.entries@[i as int].details@,
                ) && self.entries@[i as int].key@ == key@ && forall|j: int|
                    i < j < self.entries.len() ==> (#[trigger] self.entries@[j]).key@ != key@,
                None => lookup(self.entries@, key@).is_none() && forall|j: int|
                    0 <= j < self.entries.len() ==> (#[trigger] self.entries@[j]).key@ != key@,
            },
    {
        let wanted = key.to_owned();
        let mut i: usize = self.entries.len();
        while i > 0
            invariant
                i <= self.entries.len(),
                wanted@ == key@,
                forall|j: int| i <= j < self.entries.len() ==> (#[trigger] self.entries@[j]).key@ != key@,
            decreases i,
        {
            i -= 1;
            if self.entries[i].key == wanted {
                proof {
                    lemma_lookup_at(self.entries@, key@, i as int);
                }
                return Some(i);
            }
        }
        proof {
            lemma_lookup_absent(self.entries@, key@);
        }
        None
    }

    /// The details remembered for `key`, if any.
    pub fn get(&self, key: &str) -> (r: Option<&KeyDetails>)
        ensures
            match r {
                Some(d) => self@.contains_key(key@) && d@ == self@[key@],
                None => !self@.contains_key(key@),
            },
    {
        match self.position(key) {
            Some(i) => Some(&self.entries[i].details),
            None => None,
        }
    }

    /// The details of `key` from the cache, or the fetch that is to gather
    /// them. The cache itself is not changed: details enter it with `insert`
    /// once a fetch is done, and a fetch that fails leaves it as it was.
    pub fn ensure_details(&self, key: String) -> (r: Lookup<'_>)
        ensures
            r@ == ensure_spec(self@, key@),
    {
        match self.position(key.as_str()) {
            Some(i) => Lookup::Hit(&self.entries[i].details),
            None => Lookup::Miss(Fetch::begin(key)),
        }
    }

    /// Whether details are remembered for `key`.
    pub fn contains(&self, key: &str) -> (r: bool)
        ensures
            r == self@.contains_key(key@),
    {
        self.position(key).is_some()
    }

    /// Remembers `details` for `key`, in place of what was remembered for it
    /// before. Other keys keep their details.
    pub fn insert(&mut self, key: String, details: KeyDetails)
        requires
            old(self).wf(),
        ensures
            final(self).wf(),
            final(self)@ == old(self)@.insert(key@, details@),
    {
        let ghost before = self.entries@;
        let ghost k = key@;
        let ghost d = details@;
        let found = self.position(key.as_str());
        let entry = Entry { key, details };
        match found {
            Some(i) => {
                self.entries.set(i, entry);
                proof {
                    lemma_lookup_at(self.entries@, k, i as int);
                    assert forall|other: Seq<char>| other != k implies lookup(
                        self.entries@,
                        other,
                    ) == lookup(before, other) by {
                        lemma_lookup_update(before, i as int, entry, other);
                    }
                }
            },
            None => {
                self.entries.push(entry);
                proof {
                    assert(self.entries@.drop_last() =~= before);
                }
            },
        }
        proof {
            assert(final(self)@ =~= old(self)@.insert(k, d));
        }
    }

    /// Forgets every key.
    pub fn clear(&mut self)
        ensures
            final(self).wf(),
            final(self)@ == Map::<Seq<char>, DetailsView>::empty(),
    {
        self.entries.clear();
        assert(final(self)@ =~= Map::<Seq<char>, DetailsView>::empty());
    }

    /// Whether the cache knows no key.
    pub fn is_empty(&self) -> (r: bool)
        ensures
            r == (self@ == Map::<Seq<char>, DetailsView>::empty()),
    {
        let r = self.entries.len() == 0;
        proof {
            if r {
                assert(self@ =~= Map::<Seq<char>, DetailsView>::empty());
            } else {
                assert(self@.contains_key(self.entries@.last().key@));
            }
        }
        r
    }
}

} // verus!
