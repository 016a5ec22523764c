//! The sidebar: the playlist list above the song list of the selected playlist.
use vstd::prelude::*;

use crate::audio::preload::views;
use crate::config::playlist::PlaylistEntry;
use crate::text::{decimal_spec, push_decimal, push_str, string_from_chars};
use crate::ui::list_state::{next_selection, previous_selection, wrap_next, wrap_previous, ListState};

verus! {

/// Which pane within the sidebar is focused.
#[derive(Debug, Clone, Copy, PartialEq, Eq, Structural)]
pub enum SidebarFocus {
    Playlists,
    Songs,
}

/// State for the sidebar: playlist list + song list.
pub struct PlaylistViewState {
    pub focus: SidebarFocus,
    pub playlist_state: ListState,
    pub song_state: ListState,
    pub playlist_count: usize,
    pub song_count: usize,
}

/// The selection of a list after its length became `count`: the first row is
/// selected when the list is not empty and nothing was selected, and nothing
/// is selected in an empty list when `clear_if_empty` holds.
pub open spec fn selection_for_count(sel: Option<usize>, count: usize, clear_if_empty: bool) -> Option<usize> {
    if count > 0 && sel is None {
        Some(0)
    } else if count == 0 && clear_if_empty {
        None
    } else {
        sel
    }
}

impl PlaylistViewState {
    /// How many playlists the list shows.
    pub open spec fn playlists_len(&self) -> usize {
        self.playlist_count
    }

    /// How many songs the list shows.
    pub open spec fn songs_len(&self) -> usize {
        self.song_count
    }

    pub fn new() -> (r: Self)
        ensures
            r.focus == SidebarFocus::Playlists,
            r.playlist_state.sel() == Some(0usize),
            r.song_state.sel() is None,
            r.playlists_len() == 0,
            r.songs_len() == 0,
    {
        let mut playlist_state = ListState::new();
        playlist_state.select(Some(0));
        Self {
            focus: SidebarFocus::Playlists,
            playlist_state,
            song_state: ListState::new(),
            playlist_count: 0,
            song_count: 0,
        }
    }

    pub fn set_playlist_count(&mut self, count: usize)
        ensures
            final(self).playlists_len() == count,
            final(self).songs_len() == old(self).songs_len(),
            final(self).playlist_state.sel() == selection_for_count(old(self).playlist_state.sel(), count, false),
            final(self).song_state == old(self).song_state,
            final(self).focus == old(self).focus,
    {
        self.playlist_count = count;
        if count > 0 && self.playlist_state.selected().is_none() {
            self.playlist_state.select(Some(0));
        }
    }

    pub fn set_song_count(&mut self, count: usize)
        ensures
            final(self).songs_len() == count,
            final(self).playlists_len() == old(self).playlists_len(),
            final(self).song_state.sel() == selection_for_count(old(self).song_state.sel(), count, true),
            final(self).playlist_state == old(self).playlist_state,
            final(self).focus == old(self).focus,
    {
        self.song_count = count;
        if count > 0 && self.song_state.selected().is_none() {
            self.song_state.select(Some(0));
        } else if count == 0 {
            self.song_state.select(None);
        }
    }

    pub fn selected_playlist(&self) -> (r: Option<usize>)
        ensures
            r == self.playlist_state.sel(),
    {
        self.playlist_state.selected()
    }

    pub fn selected_song(&self) -> (r: Option<usize>)
        ensures
            r == self.song_state.sel(),
    {
        self.song_state.selected()
    }

    /// Moves down in the focused list, wrapping round.
    pub fn next(&mut self)
        ensures
            final(self).focus == old(self).focus,
            final(self).playlists_len() == old(self).playlists_len(),
            final(self).songs_len() == old(self).songs_len(),
            old(self).focus == SidebarFocus::Playlists ==> final(self).playlist_state.sel() == wrap_next(
                old(self).playlist_state.sel(),
                old(self).playlists_len(),
            ) && final(self).song_state == old(self).song_state,
            old(self).focus == SidebarFocus::Songs ==> final(self).song_state.sel() == wrap_next(
                old(self).song_state.sel(),
                old(self).songs_len(),
            ) && final(self).playlist_state == old(self).playlist_state,
    {
        match self.focus {
            SidebarFocus::Playlists => {
                let s = next_selection(self.playlist_state.selected(), self.playlist_count);
                self.playlist_state.select(s);
            },
            SidebarFocus::Songs => {
                let s = next_selection(self.song_state.selected(), self.song_count);
                self.song_state.select(s);
            },
        }
    }

    /// Moves up in the focused list, wrapping round.
    pub fn previous(&mut self)
        ensures
            final(self).focus == old(self).focus,
            final(self).playlists_len() == old(self).playlists_len(),
            final(self).songs_len() == old(self).songs_len(),
            old(self).focus == SidebarFocus::Playlists ==> final(self).playlist_state.sel()
                == wrap_previous(old(self).playlist_state.sel(), old(self).playlists_len())
                && final(self).song_state == old(self).song_state,
            old(self).focus == SidebarFocus::Songs ==> final(self).song_state.sel() == wrap_previous(
                old(self).song_state.sel(),
                old(self).songs_len(),
            ) && final(self).playlist_state == old(self).playlist_state,
    {
        match self.focus {
            SidebarFocus::Playlists => {
                let s = previous_selection(self.playlist_state.selected(), self.playlist_count);
                self.playlist_state.select(s);
            },
            SidebarFocus::Songs => {
                let s = previous_selection(self.song_state.selected(), self.song_count);
                self.song_state.select(s);
            },
        }
    }

    /// Switches focus between the playlist list and the song list.
    pub fn toggle_focus(&mut self)
        ensures
            final(self).focus == if old(self).focus == SidebarFocus::Playlists {
                SidebarFocus::Songs
            } else {
                SidebarFocus::Playlists
            },
            final(self).playlist_state == old(self).playlist_state,
            final(self).song_state == old(self).song_state,
            final(self).playlists_len() == old(self).playlists_len(),
            final(self).songs_len() == old(self).songs_len(),
    {
        self.focus = match self.focus {
            SidebarFocus::Playlists => SidebarFocus::Songs,
            SidebarFocus::Songs => SidebarFocus::Playlists,
        };
    }
}

/// The row of the favorites list after the playlists: a star, `Favoritos`
/// and the number of favorites in brackets.
pub open spec fn favorites_row_spec(count: nat) -> Seq<char> {
    seq!['\u{2605}'] + " Favoritos ("@ + decimal_spec(count) + ")"@
}

/// The names the sidebar lists: the configured playlists, then the favorites row.
pub fn sidebar_playlist_names(playlists: &[PlaylistEntry], favorites_count: usize) -> (r: Vec<String>)
    requires
        favorites_count <= u64::MAX,
    ensures
        views(r@) == playlists@.map_values(|p: PlaylistEntry| p.name@).push(
            favorites_row_spec(favorites_count as nat),
        ),
{
    let mut r: Vec<String> = Vec::new();
    let mut i: usize = 0;
    while i < playlists.len()
        invariant
            i <= playlists@.len(),
            views(r@) == playlists@.take(i as int).map_values(|p: PlaylistEntry| p.name@),
        decreases playlists@.len() - i,
    {
        let name = playlists[i].name.clone();
        let ghost before = r@;
        r.push(name);
        proof {
            let t = playlists@.take(i + 1).map_values(|p: PlaylistEntry| p.name@);
            assert(playlists@.take(i + 1).drop_last() =~= playlists@.take(i as int));
            assert(views(before).len() == i);
            assert(before.len() == i);
            assert(r@.len() == i + 1);
            assert(views(r@).len() == t.len());
            assert forall|k: int| 0 <= k < t.len() implies views(r@)[k] == t[k] by {
                if k < i {
                    assert(views(r@)[k] == views(before)[k]);
                } else {
                    assert(views(r@)[k] == name@);
                }
            }
            assert(views(r@) =~= t);
        }
        i += 1;
    }
    assert(playlists@.take(playlists@.len() as int) =~= playlists@);
    let mut row: Vec<char> = Vec::new();
    row.push('\u{2605}');
    push_str(&mut row, " Favoritos (");
    push_decimal(&mut row, favorites_count as u64);
    push_str(&mut row, ")");
    assert(row@ =~= favorites_row_spec(favorites_count as nat));
    let ghost before = r@;
    r.push(string_from_chars(&row));
    assert(views(r@) =~= views(before).push(favorites_row_spec(favorites_count as nat)));
    r
}

} // verus!
