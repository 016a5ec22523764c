//! The queue panel: its selection and the marks in front of each row.
use vstd::prelude::*;

use crate::ui::list_state::{next_selection, previous_selection, wrap_next, wrap_previous, ListState};
use crate::text::string_from_chars;
use crate::ui::playlist_view::selection_for_count;

verus! {

/// State for the queue view panel.
pub struct QueueViewState {
    pub list_state: ListState,
    pub item_count: usize,
}

/// The selection after removing the selected row from a list that then has
/// `new_count` rows.
pub open spec fn selection_after_removal(idx: usize, new_count: usize) -> Option<usize> {
    if new_count == 0 {
        None
    } else if idx >= new_count {
        Some((new_count - 1) as usize)
    } else {
        Some(idx)
    }
}

impl QueueViewState {
    /// How many rows the panel shows.
    pub open spec fn len(&self) -> usize {
        self.item_count
    }

    pub fn new() -> (r: Self)
        ensures
            r.list_state.sel() is None,
            r.len() == 0,
    {
        Self { list_state: ListState::new(), item_count: 0 }
    }

    pub fn set_count(&mut self, count: usize)
        ensures
            final(self).len() == count,
            final(self).list_state.sel() == selection_for_count(old(self).list_state.sel(), count, true),
    {
        self.item_count = count;
        if count > 0 && self.list_state.selected().is_none() {
            self.list_state.select(Some(0));
        } else if count == 0 {
            self.list_state.select(None);
        }
    }

    pub fn next(&mut self)
        ensures
            final(self).len() == old(self).len(),
            final(self).list_state.sel() == wrap_next(old(self).list_state.sel(), old(self).len()),
    {
        let s = next_selection(self.list_state.selected(), self.item_count);
        self.list_state.select(s);
    }

    pub fn previous(&mut self)
        ensures
            final(self).len() == old(self).len(),
            final(self).list_state.sel() == wrap_previous(old(self).list_state.sel(), old(self).len()),
    {
        let s = previous_selection(self.list_state.selected(), self.item_count);
        self.list_state.select(s);
    }

    pub fn selected(&self) -> (r: Option<usize>)
        ensures
            r == self.list_state.sel(),
    {
        self.list_state.selected()
    }

    /// Move selected item up in the visual list. Returns the row it was on.
    pub fn move_selection_up(&mut self) -> (r: Option<usize>)
        ensures
            final(self).len() == old(self).len(),
            old(self).list_state.sel() matches Some(i) ==> (i > 0 ==> r == Some(i)
                && final(self).list_state.sel() == Some((i - 1) as usize)),
            !(old(self).list_state.sel() matches Some(i) && i > 0) ==> r is None
                && final(self).list_state == old(self).list_state,
    {
        if let Some(idx) = self.list_state.selected() {
            if idx > 0 {
                let new_idx = idx - 1;
                self.list_state.select(Some(new_idx));
                return Some(idx);
            }
        }
        None
    }

    /// Move selected item down in the visual list. Returns the row it was on.
    pub fn move_selection_down(&mut self) -> (r: Option<usize>)
        ensures
            final(self).len() == old(self).len(),
            old(self).list_state.sel() matches Some(i) ==> (i + 1 < old(self).len() ==> r == Some(i)
                && final(self).list_state.sel() == Some((i + 1) as usize)),
            !(old(self).list_state.sel() matches Some(i) && i + 1 < old(self).len()) ==> r is None
                && final(self).list_state == old(self).list_state,
    {
        if let Some(idx) = self.list_state.selected() {
            if idx < self.item_count && idx + 1 < self.item_count {
                let new_idx = idx + 1;
                self.list_state.select(Some(new_idx));
                return Some(idx);
            }
        }
        None
    }

    /// Remove the selected item. Adjusts selection. Returns the removed row.
    pub fn remove_selected(&mut self) -> (r: Option<usize>)
        ensures
            old(self).list_state.sel() matches Some(i) ==> (old(self).len() > 0 ==> r == Some(i)
                && final(self).len() == old(self).len() - 1 && final(self).list_state.sel()
                == selection_after_removal(i, (old(self).len() - 1) as usize)),
            !(old(self).list_state.sel() matches Some(i) && old(self).len() > 0) ==> r is None
                && final(self).len() == old(self).len() && final(self).list_state
                == old(self).list_state,
    {
        if let Some(idx) = self.list_state.selected() {
            if self.item_count == 0 {
                return None;
            }
            self.item_count -= 1;
            if self.item_count == 0 {
                self.list_state.select(None);
            } else if idx >= self.item_count {
                self.list_state.select(Some(self.item_count - 1));
            }
            return Some(idx);
        }
        None
    }
}

/// A two-column mark: `mark` and a space when `on`, two spaces otherwise.
pub open spec fn row_mark_spec(on: bool, mark: char) -> Seq<char> {
    if on {
        seq![mark, ' ']
    } else {
        seq![' ', ' ']
    }
}

/// A two-column row mark.
fn row_mark(on: bool, mark: char) -> (r: String)
    ensures
        r@ == row_mark_spec(on, mark),
{
    let mut v: Vec<char> = Vec::new();
    if on {
        v.push(mark);
    } else {
        v.push(' ');
    }
    v.push(' ');
    assert(v@ =~= row_mark_spec(on, mark));
    string_from_chars(&v)
}

/// The marks in front of queue row `i`: a play triangle when it is the
/// current item, then a heart when it is a favorite.
pub fn queue_row_marks(i: usize, current: Option<usize>, favorite: bool) -> (r: (String, String))
    ensures
        r.0@ == row_mark_spec(current == Some(i), '\u{25B6}'),
        r.1@ == row_mark_spec(favorite, '\u{2665}'),
{
    (row_mark(current == Some(i), '\u{25B6}'), row_mark(favorite, '\u{2665}'))
}

/// The mark in front of a song row of the sidebar: a heart for a favorite.
pub fn favorite_mark(favorite: bool) -> (r: String)
    ensures
        r@ == row_mark_spec(favorite, '\u{2665}'),
{
    row_mark(favorite, '\u{2665}')
}

} // verus!
