//! Stepping a list selection, as the list widget of the terminal library
//! steps it. The widget knows no length: it moves the index by one and leaves
//! the bounds to whoever knows the list.

use vstd::prelude::*;
use ratatui::widgets::ListState;

verus! {

/// The selection after one step towards the end: the first item when
/// nothing was selected, else the next index, which stops at the largest
/// number.
pub open spec fn next_spec(selected: Option<usize>) -> Option<usize> {
    match selected {
        Some(i) => if i < usize::MAX {
            Some((i + 1) as usize)
        } else {
            Some(i)
        },
        None => Some(0usize),
    }
}

/// The selection after one step towards the start: the largest number when
/// nothing was selected, else the index before, which stops at zero.
pub open spec fn previous_spec(selected: Option<usize>) -> Option<usize> {
    match selected {
        Some(i) => if i > 0 {
            Some((i - 1) as usize)
        } else {
            Some(i)
        },
        None => Some(usize::MAX),
    }
}

/// Calls `ListState::select_next` on a list state with the selection
/// `selected`, and reads the selection back. Trusted: the state then selects
/// `selected + 1`, saturating, or `0` where nothing was selected.
#[verifier::external_body]
pub(crate) fn select_next(selected: Option<usize>) -> (r: Option<usize>)
    ensures
        r == next_spec(selected),
{
    let mut state = ListState::default().with_selected(selected);
    state.select_next();
    state.selected()
}

/// Calls `ListState::select_previous` on a list state with the selection
/// `selected`, and reads the selection back. Trusted: the state then selects
/// `selected - 1`, saturating, or `usize::MAX` where nothing was selected.
#[verifier::external_body]
pub(crate) fn select_previous(selected: Option<usize>) -> (r: Option<usize>)
    ensures
        r == previous_spec(selected),
{
    let mut state = ListState::default().with_selected(selected);
    state.select_previous();
    state.selected()
}

} // verus!
