//! Laws of the browser: what holds of every state and of every run of
//! events, stated over the values that the contracts speak of.

use vstd::prelude::*;
use crate::browser::{Action, AppView, Event, Key, Mode};
use crate::cache::{ensure_spec, LookupView};
use crate::details::DetailsView;
use crate::fetch::{advance_spec, begin_spec, FetchView, Outcome, Reply, Request};
use crate::filter::{filter_spec, key_matches, matching_positions};

verus! {

impl AppView {
    /// The state after a run of key presses, taken in order.
    pub open spec fn after_keys(self, keys: Seq<Key>) -> AppView
        decreases keys.len(),
    {
        if keys.len() == 0 {
            self
        } else {
            self.after_keys(keys.drop_last()).after_key(keys.last())
        }
    }
}

/// A run of `Up` and `Down` presses.
pub open spec fn only_arrows(keys: Seq<Key>) -> bool {
    forall|i: int| 0 <= i < keys.len() ==> (#[trigger] keys[i]) == Key::Up || keys[i] == Key::Down
}

/// The filter keeps exactly the matching keys: a key is in the result if
/// and only if it is in the list and matches, and the result is never
/// longer than the list.
pub proof fn lemma_filter_keeps_the_matching_keys(keys: Seq<Seq<char>>, query: Seq<char>)
    ensures
        filter_spec(keys, query).len() <= keys.len(),
        forall|k: Seq<char>|
            filter_spec(keys, query).contains(k) <==> keys.contains(k) && key_matches(k, query),
{
    let pred = |k: Seq<char>| key_matches(k, query);
    keys.lemma_filter_len(pred);
    assert forall|k: Seq<char>| filter_spec(keys, query).contains(k) <==> keys.contains(k)
        && key_matches(k, query) by {
        if filter_spec(keys, query).contains(k) {
            let i = choose|i: int|
                0 <= i < keys.filter(pred).len() && keys.filter(pred)[i] == k;
            keys.lemma_filter_pred(pred, i);
            keys.lemma_filter_contains_rev(pred, k);
        }
        if keys.contains(k) && key_matches(k, query) {
            let j = choose|j: int| 0 <= j < keys.len() && keys[j] == k;
            keys.lemma_filter_contains(pred, j);
        }
    }
}

/// The filter yields a subsequence of the list, in the order of the list:
/// its result is the list read at the positions of the matching keys, and
/// those positions rise, lie in the list, and leave no matching key out.
pub proof fn lemma_filter_is_an_ordered_subsequence(keys: Seq<Seq<char>>, query: Seq<char>)
    ensures
        matching_positions(keys, query).len() == filter_spec(keys, query).len(),
        forall|i: int|
            0 <= i < matching_positions(keys, query).len() ==> {
                let at = #[trigger] matching_positions(keys, query)[i];
                &&& 0 <= at < keys.len()
                &&& key_matches(keys[at], query)
                &&& filter_spec(keys, query)[i] == keys[at]
            },
        forall|i: int, j: int|
            0 <= i < j < matching_positions(keys, query).len() ==> matching_positions(
                keys,
                query,
            )[i] < matching_positions(keys, query)[j],
        forall|k: int|
            0 <= k < keys.len() && key_matches(#[trigger] keys[k], query) ==> matching_positions(
                keys,
                query,
            ).contains(k),
    decreases keys.len(),
{
    reveal(Seq::filter);
    let pos = matching_positions(keys, query);
    if keys.len() > 0 {
        let front = keys.drop_last();
        let before = matching_positions(front, query);
        lemma_filter_is_an_ordered_subsequence(front, query);
        assert forall|i: int| 0 <= i < pos.len() implies {
            let at = #[trigger] pos[i];
            &&& 0 <= at < keys.len()
            &&& key_matches(keys[at], query)
            &&& filter_spec(keys, query)[i] == keys[at]
        } by {
            if i < before.len() {
                assert(pos[i] == before[i]);
                assert(front[before[i]] == keys[before[i]]);
                assert(filter_spec(keys, query)[i] == filter_spec(front, query)[i]);
            }
        }
        assert forall|i: int, j: int| 0 <= i < j < pos.len() implies pos[i] < pos[j] by {
            assert(pos[i] == before[i]);
            if j < before.len() {
                assert(pos[j] == before[j]);
            }
        }
        assert forall|k: int|
            0 <= k < keys.len() && key_matches(#[trigger] keys[k], query) implies pos.contains(
            k,
        ) by {
            if k < front.len() {
                assert(front[k] == keys[k]);
                assert(before.contains(k));
                let w = choose|w: int| 0 <= w < before.len() && before[w] == k;
                assert(pos[w] == k);
            } else {
                assert(pos[pos.len() - 1] == k);
            }
        }
    }
}

/// A fetch is one round trip pattern: it asks for the type first and for the
/// time to live second, its third question is neither of the two, and the
/// answer to the third question ends it.
pub proof fn lemma_fetch_asks_at_most_three_questions(
    key: Seq<char>,
    first: Reply,
    second: Reply,
    third: Reply,
)
    ensures
        begin_spec(key).next == Request::Type,
        match advance_spec(begin_spec(key), first) {
            Outcome::Ask(f1) => f1.key == key && f1.next == Request::Ttl && (match advance_spec(
                f1,
                second,
            ) {
                Outcome::Ask(f2) => f2.key == key && f2.next != Request::Type && f2.next
                    != Request::Ttl && !(advance_spec(f2, third) is Ask),
                _ => true,
            }),
            _ => true,
        },
{
}

/// A fetch that is done speaks of its own key, and a failure of the store
/// ends a fetch at any stage with the store's text.
pub proof fn lemma_fetch_keeps_its_key(f: FetchView, reply: Reply)
    ensures
        match advance_spec(f, reply) {
            Outcome::Ask(next) => next.key == f.key,
            Outcome::Done(key, _) => key == f.key,
            Outcome::Failed(_) => true,
        },
        reply matches Reply::Failed(m) ==> advance_spec(f, reply) == Outcome::Failed(m@),
{
}

/// Asking the cache twice costs one fetch: once the details of a key have
/// entered the cache, the cache answers for that key with those details and
/// hands out no fetch, whatever enters it for other keys afterwards.
pub proof fn lemma_cache_answers_after_insert(
    cache: Map<Seq<char>, DetailsView>,
    key: Seq<char>,
    d: DetailsView,
    other: Seq<char>,
    e: DetailsView,
)
    ensures
        ensure_spec(cache.insert(key, d), key) == LookupView::Hit(d),
        other != key ==> ensure_spec(cache.insert(key, d).insert(other, e), key) == LookupView::Hit(
            d,
        ),
        !cache.contains_key(key) ==> ensure_spec(cache, key) == LookupView::Miss(begin_spec(key)),
{
}

/// A fetch that fails caches nothing: the status line takes the failure,
/// and the keys, the query, the selection, the view and the cache stay as
/// they were.
pub proof fn lemma_failed_fetch_caches_nothing(
    v: AppView,
    fetch: FetchView,
    reply: Reply,
    message: Seq<char>,
)
    requires
        advance_spec(fetch, reply) == Outcome::Failed(message),
    ensures
        v.answered(fetch, reply) == (AppView { status: message, ..v }),
{
}

/// Nothing breaks the selection: in a state whose selection points into
/// the active list, the state after any event has one that does.
pub proof fn lemma_event_keeps_selection_valid(v: AppView, event: Event)
    requires
        v.valid(),
    ensures
        v.after_event(event).valid(),
{
}

/// No key press breaks the selection either.
pub proof fn lemma_key_keeps_selection_valid(v: AppView, key: Key)
    requires
        v.valid(),
    ensures
        v.after_key(key).valid(),
{
}

/// Moving through a list that is not empty always leaves a key selected,
/// and the list itself as it was: after any run of one or more `Up` and
/// `Down` presses in the list view, the selection is an index into the
/// active list.
pub proof fn lemma_arrows_keep_selection_in_bounds(v: AppView, keys: Seq<Key>)
    requires
        v.valid(),
        v.mode == Mode::Listing,
        v.visible().len() > 0,
        keys.len() > 0,
        only_arrows(keys),
    ensures
        v.after_keys(keys).visible() == v.visible(),
        v.after_keys(keys).mode == Mode::Listing,
        match v.after_keys(keys).selection {
            Some(i) => i < v.visible().len(),
            None => false,
        },
    decreases keys.len(),
{
    let front = keys.drop_last();
    assert(keys.last() == Key::Up || keys.last() == Key::Down);
    if front.len() > 0 {
        assert(only_arrows(front)) by {
            assert forall|i: int| 0 <= i < front.len() implies (#[trigger] front[i]) == Key::Up
                || front[i] == Key::Down by {
                assert(front[i] == keys[i]);
            }
        }
        lemma_arrows_keep_selection_in_bounds(v, front);
    } else {
        assert(v.after_keys(front) == v);
    }
}

/// The list wraps around at both ends: `Up` on the first key selects the
/// last, `Down` on the last key selects the first. With nothing selected,
/// `Up` selects the last key and `Down` the first.
pub proof fn lemma_selection_wraps_around(v: AppView)
    requires
        v.valid(),
        v.mode == Mode::Listing,
        0 < v.visible().len() <= usize::MAX,
    ensures
        v.selection == Some(0usize) ==> v.after_key(Key::Up).selection == Some(
            (v.visible().len() - 1) as usize,
        ),
        v.selection == Some((v.visible().len() - 1) as usize) ==> v.after_key(Key::Down).selection
            == Some(0usize),
        v.selection.is_none() ==> v.after_key(Key::Up).selection == Some(
            (v.visible().len() - 1) as usize,
        ) && v.after_key(Key::Down).selection == Some(0usize),
{
}

/// The detail view opens only on a selected key: a key press that leads
/// from the list view to the detail view is `Enter`, pressed while a key of
/// the active list was selected and the cache knew it.
pub proof fn lemma_detail_opens_on_a_selection(v: AppView, key: Key)
    requires
        v.mode == Mode::Listing,
        v.after_key(key).mode == Mode::Detail,
    ensures
        key == Key::Enter,
        v.selection.is_some(),
        v.selected_key().is_some(),
        v.cache.contains_key(v.selected_key().unwrap()),
        v.after_key(key).selection == v.selection,
{
}

/// No event opens the detail view without a selection: whatever leads from
/// the list view to the detail view found a key of the active list
/// selected, leaves it selected, and shows the details of that key.
pub proof fn lemma_detail_is_reached_from_a_selection(v: AppView, event: Event)
    requires
        v.mode == Mode::Listing,
        v.after_event(event).mode == Mode::Detail,
    ensures
        v.selection.is_some(),
        v.selected_key().is_some(),
        v.after_event(event).selection == v.selection,
        v.after_event(event).selected_key() == v.selected_key(),
        v.after_event(event).shown().is_some(),
        v.after_event(event).scroll == 0,
{
}

/// `Esc` always leads to the list view and leaves the keys, the query, the
/// selection, the cache and the status line as they were.
pub proof fn lemma_esc_returns_to_the_list(v: AppView)
    ensures
        v.after_key(Key::Esc).mode == Mode::Listing,
        v.after_key(Key::Esc).keys == v.keys,
        v.after_key(Key::Esc).query == v.query,
        v.after_key(Key::Esc).selection == v.selection,
        v.after_key(Key::Esc).visible() == v.visible(),
        v.after_key(Key::Esc).cache == v.cache,
        v.after_key(Key::Esc).status == v.status,
        v.command_for(Key::Esc) == Action::Continue,
{
}

/// Details are fetched once: after the details of the selected key have
/// arrived, leaving the detail view and pressing `Enter` on the key again
/// asks nothing of the store and shows the same details.
pub proof fn lemma_details_are_fetched_once(v: AppView, key: Seq<char>, d: DetailsView)
    requires
        v.mode == Mode::Listing,
        v.selected_key() == Some(key),
    ensures
        v.learned(key, d).shown() == Some(d),
        v.learned(key, d).after_key(Key::Esc).command_for(Key::Enter) == Action::Continue,
        v.learned(key, d).after_key(Key::Esc).after_key(Key::Enter).shown() == Some(d),
{
}

/// While the cache knows the selected key, `Enter` never asks the store.
pub proof fn lemma_known_key_needs_no_fetch(v: AppView)
    requires
        v.selected_key().is_some(),
        v.cache.contains_key(v.selected_key().unwrap()),
    ensures
        v.command_for(Key::Enter) == Action::Continue,
{
}

/// A freshly loaded key list shows no details: whatever was open, the cache
/// is empty and nothing is selected, so the frame is that of the list.
pub proof fn lemma_reload_shows_no_details(v: AppView, keys: Seq<Seq<char>>)
    ensures
        v.loaded(keys).cache == Map::<Seq<char>, DetailsView>::empty(),
        v.loaded(keys).selection.is_none(),
        v.loaded(keys).shown().is_none(),
        v.loaded(keys).valid(),
{
}

/// The selection is dropped whenever the active list changes: when a
/// character joins the query, when one leaves it, and when the keys are
/// loaded anew.
pub proof fn lemma_selection_dropped_when_the_list_changes(
    v: AppView,
    c: char,
    keys: Seq<Seq<char>>,
)
    requires
        v.mode == Mode::Listing,
        c != 'Q',
        c != 'R',
    ensures
        v.after_key(Key::Char(c)).selection.is_none(),
        v.after_key(Key::Char(c)).query == v.query.push(c),
        v.after_key(Key::Backspace).selection.is_none(),
        v.loaded(keys).selection.is_none(),
{
}

} // verus!
