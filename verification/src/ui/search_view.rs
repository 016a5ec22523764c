//! The search panel: the result selection, the text of each result row and
//! the status line under the results.
use vstd::prelude::*;

use crate::app::SearchState;
use crate::config::playlist::PlaylistEntry;
use crate::playlist::models::{duration_text, Song};
use crate::text::{push_str, string_from_chars};

use crate::ui::list_state::{next_selection, previous_selection, wrap_next, wrap_previous, ListState};

verus! {

/// State for the search results panel.
pub struct SearchViewState {
    pub list_state: ListState,
    pub item_count: usize,
}

/// The selection after the result list became `count` long: the first row when
/// nothing was selected, nothing for an empty list, the last row when the
/// selection fell off the end.
pub open spec fn clamped_selection(sel: Option<usize>, count: usize) -> Option<usize> {
    if count > 0 && sel is None {
        Some(0)
    } else if count == 0 {
        None
    } else if sel->0 >= count {
        Some((count - 1) as usize)
    } else {
        sel
    }
}

impl SearchViewState {
    /// How many rows the panel shows.
    pub open spec fn len(&self) -> usize {
        self.item_count
    }

    pub fn new() -> (r: Self)
        ensures
            r.list_state.sel() == Some(0usize),
            r.len() == 0,
    {
        let mut list_state = ListState::new();
        list_state.select(Some(0));
        Self { list_state, item_count: 0 }
    }

    pub fn set_count(&mut self, count: usize)
        ensures
            final(self).len() == count,
            final(self).list_state.sel() == clamped_selection(old(self).list_state.sel(), count),
    {
        self.item_count = count;
        if count > 0 && self.list_state.selected().is_none() {
            self.list_state.select(Some(0));
        } else if count == 0 {
            self.list_state.select(None);
        } else if let Some(selected) = self.list_state.selected() {
            if selected >= count {
                self.list_state.select(Some(count - 1));
            }
        }
    }

    pub fn next(&mut self)
        ensures
            final(self).len() == old(self).len(),
            final(self).list_state.sel() == wrap_next(old(self).list_state.sel(), old(self).len()),
    {
        let s = next_selection(self.list_state.selected(), self.item_count);
        self.list_state.select(s);
    }

    pub fn previous(&mut self)
        ensures
            final(self).len() == old(self).len(),
            final(self).list_state.sel() == wrap_previous(old(self).list_state.sel(), old(self).len()),
    {
        let s = previous_selection(self.list_state.selected(), self.item_count);
        self.list_state.select(s);
    }

    pub fn selected(&self) -> (r: Option<usize>)
        ensures
            r == self.list_state.sel(),
    {
        self.list_state.selected()
    }
}

/// The line under the search results.
#[derive(Debug, PartialEq, Eq)]
pub enum StatusLine {
    /// The error message.
    Error(String),
    /// `Searching...`
    Searching,
    /// The status message.
    Status(String),
    /// `Type a query and press Enter`
    TypeQuery,
    /// `No results`
    NoResults,
    /// `Cached results`
    Cached,
    /// Nothing to say.
    Blank,
}

/// The status line for `s`: an error first, then the loading mark, then the
/// status message; with no results a hint, else whether they came from the cache.
pub open spec fn status_line_spec(s: SearchState) -> StatusLine {
    match s.error {
        Some(e) => StatusLine::Error(e),
        None => if s.is_loading {
            StatusLine::Searching
        } else {
            match s.status {
                Some(m) => StatusLine::Status(m),
                None => if s.results@.len() == 0 {
                    if s.query@.len() == 0 {
                        StatusLine::TypeQuery
                    } else {
                        StatusLine::NoResults
                    }
                } else if s.cache_hit {
                    StatusLine::Cached
                } else {
                    StatusLine::Blank
                },
            }
        },
    }
}

/// The line under the search results.
pub fn status_line(s: &SearchState) -> (r: StatusLine)
    ensures
        r == status_line_spec(*s),
{
    match &s.error {
        Some(e) => StatusLine::Error(e.clone()),
        None => if s.is_loading {
            StatusLine::Searching
        } else {
            match &s.status {
                Some(m) => StatusLine::Status(m.clone()),
                None => if s.results.len() == 0 {
                    if s.query.as_str().is_empty() {
                        StatusLine::TypeQuery
                    } else {
                        StatusLine::NoResults
                    }
                } else if s.cache_hit {
                    StatusLine::Cached
                } else {
                    StatusLine::Blank
                },
            }
        },
    }
}

/// The second part of a result row: the duration, after the artist when
/// there is one.
pub open spec fn result_subtitle_spec(song: Song) -> Seq<char> {
    if song.artist@.len() == 0 {
        duration_text(song.duration)
    } else {
        song.artist@ + " - "@ + duration_text(song.duration)
    }
}

/// The second part of a result row.
pub fn result_subtitle(song: &Song) -> (r: String)
    ensures
        r@ == result_subtitle_spec(*song),
{
    let duration = song.duration_display();
    if song.artist.as_str().is_empty() {
        return duration;
    }
    let mut v: Vec<char> = Vec::new();
    push_str(&mut v, song.artist.as_str());
    push_str(&mut v, " - ");
    push_str(&mut v, duration.as_str());
    assert(v@ =~= song.artist@ + " - "@ + duration_text(song.duration));
    string_from_chars(&v)
}

/// The hint on adding a result: the name of the playlist at `selected`, or
/// `(no playlist)` when there is none.
pub open spec fn add_hint_spec(playlists: Seq<PlaylistEntry>, selected: usize) -> Seq<char> {
    "add to "@ + (if selected < playlists.len() {
        playlists[selected as int].name@
    } else {
        "(no playlist)"@
    }) + "  "@
}

/// The hint on adding a result to the playlist at `selected`.
pub fn add_hint(playlists: &[PlaylistEntry], selected: usize) -> (r: String)
    ensures
        r@ == add_hint_spec(playlists@, selected),
{
    let mut v: Vec<char> = Vec::new();
    push_str(&mut v, "add to ");
    if selected < playlists.len() {
        push_str(&mut v, playlists[selected].name.as_str());
    } else {
        push_str(&mut v, "(no playlist)");
    }
    push_str(&mut v, "  ");
    assert(v@ =~= add_hint_spec(playlists@, selected));
    string_from_chars(&v)
}

} // verus!
