//! Application-wide state: screens, repeat mode, search state and the `App` itself.
use vstd::prelude::*;

use crate::audio::queue::{PlaybackQueue, QueueItem};
use crate::config::playlist::PlaylistEntry;
use crate::config::settings::{expand_tilde, tilde_expansion_of, Settings};
use crate::playlist::favorites::Favorites;
use crate::playlist::models::{watch_url, Playlist, Song};

verus! {

/// Represents the different screens/modes of the application.
#[derive(Debug, Clone, Copy, PartialEq, Eq, Structural)]
pub enum AppScreen {
    Main,
    Help,
    Search,
    QueueView,
}

/// Playback repeat mode.
#[derive(Debug, Clone, Copy, Default, PartialEq, Eq, Structural)]
pub enum RepeatMode {
    #[default]
    Off,
    One,
    All,
}

} // verus!

verus! {

/// State of the search screen.
#[derive(Debug)]
pub struct SearchState {
    pub query: String,
    pub results: Vec<Song>,
    pub is_loading: bool,
    pub error: Option<String>,
    pub status: Option<String>,
    pub cache_hit: bool,
    pub last_query: String,
}

impl SearchState {
    /// Records how saving a playlist after adding a search result went:
    /// `failure` holds the error text when it failed.
    pub fn record_playlist_save(&mut self, failure: Option<String>)
        ensures
            match failure {
                None => final(self).error is None && (final(self).status matches Some(m) && m@
                    == "Added to playlist"@),
                Some(e) => (final(self).error matches Some(m) && m@ == "Failed to save playlist: "@
                    + e@) && final(self).status == old(self).status,
            },
            final(self).query == old(self).query,
            final(self).results == old(self).results,
            final(self).is_loading == old(self).is_loading,
            final(self).cache_hit == old(self).cache_hit,
            final(self).last_query == old(self).last_query,
    {
        match failure {
            None => {
                self.error = None;
                self.status = Some("Added to playlist".to_string());
            },
            Some(e) => {
                let mut m = "Failed to save playlist: ".to_string();
                m.append(e.as_str());
                self.error = Some(m);
            },
        }
    }

    pub fn new() -> (r: Self)
        ensures
            r.query@.len() == 0,
            r.results@.len() == 0,
            !r.is_loading,
            r.error is None,
            r.status is None,
            !r.cache_hit,
            r.last_query@.len() == 0,
    {
        Self {
            query: String::new(),
            results: Vec::new(),
            is_loading: false,
            error: None,
            status: None,
            cache_hit: false,
            last_query: String::new(),
        }
    }

    /// Clears the loading flag and the messages; the query and results stay.
    pub fn clear_status(&mut self)
        ensures
            !final(self).is_loading,
            final(self).error is None,
            final(self).status is None,
            !final(self).cache_hit,
            final(self).query == old(self).query,
            final(self).results == old(self).results,
            final(self).last_query == old(self).last_query,
    {
        self.is_loading = false;
        self.error = None;
        self.status = None;
        self.cache_hit = false;
    }
}

/// Central application state.
pub struct App {
    pub settings: Settings,
    pub playlists: Vec<PlaylistEntry>,
    pub screen: AppScreen,
    pub running: bool,
    pub shuffle: bool,
    pub repeat: RepeatMode,
    pub volume: u8,
    pub selected_playlist: usize,
    /// Cached synced playlists with full song data.
    pub cached_playlists: Vec<Playlist>,
    /// Playback queue.
    pub queue: PlaybackQueue,
    /// Favorites manager.
    pub favorites: Favorites,
    /// Whether audio is currently playing.
    pub is_playing: bool,
    /// Whether the visualizer is visible (vs logo).
    pub show_visualizer: bool,
    /// Search state for YouTube Music queries.
    pub search: SearchState,
}

/// The repeat mode that follows `r` in the cycle off, all, one.
pub open spec fn next_repeat(r: RepeatMode) -> RepeatMode {
    match r {
        RepeatMode::Off => RepeatMode::All,
        RepeatMode::All => RepeatMode::One,
        RepeatMode::One => RepeatMode::Off,
    }
}

/// The songs of all playlists, one playlist after the other.
pub open spec fn all_songs(pls: Seq<Playlist>) -> Seq<Song>
    decreases pls.len(),
{
    if pls.len() == 0 {
        Seq::empty()
    } else {
        all_songs(pls.drop_last()) + pls.last().songs@
    }
}

/// The songs of all playlists whose id is among `favs`, in playlist order.
pub open spec fn favorite_songs_spec(pls: Seq<Playlist>, favs: Set<Seq<char>>) -> Seq<Song> {
    all_songs(pls).filter(|s: Song| favs.contains(s.video_id@))
}

/// The queue entry made for a song.
pub open spec fn queue_item_for(song: Song, item: QueueItem) -> bool {
    &&& item.id@ == song.video_id@
    &&& item.title@ == song.title@
    &&& item.url@ == watch_url(song.video_id@)
    &&& item.duration == song.duration
}

/// Where the favorites file lives: `~/.termtube/favorites.json` with the
/// home directory filled in when it is known.
pub fn favorites_path() -> (r: String)
    ensures
        tilde_expansion_of("~/.termtube/favorites.json"@, r@),
{
    expand_tilde("~/.termtube/favorites.json")
}

impl App {
    /// The invariants of the queue and the favorites hold.
    pub open spec fn wf(&self) -> bool {
        self.queue.wf() && self.favorites.wf()
    }

    /// A fresh application state with the given settings, playlists and the
    /// favorites loaded by the caller.
    pub fn new(settings: Settings, playlists: Vec<PlaylistEntry>, favorites: Favorites) -> (r: Self)
        requires
            favorites.wf(),
        ensures
            r.wf(),
            r.settings == settings,
            r.playlists@ == playlists@,
            r.screen == AppScreen::Main,
            r.running,
            !r.shuffle,
            r.repeat == RepeatMode::Off,
            r.volume == 80,
            r.selected_playlist == 0,
            r.cached_playlists@.len() == 0,
            r.queue@.items.len() == 0,
            r.queue@.index is None,
            r.favorites == favorites,
            !r.is_playing,
            r.show_visualizer,
            r.search.query@.len() == 0,
            r.search.results@.len() == 0,
    {
        Self {
            settings,
            playlists,
            screen: AppScreen::Main,
            running: true,
            shuffle: false,
            repeat: RepeatMode::Off,
            volume: 80,
            selected_playlist: 0,
            cached_playlists: Vec::new(),
            queue: PlaybackQueue::new(),
            favorites,
            is_playing: false,
            show_visualizer: true,
            search: SearchState::new(),
        }
    }

    pub fn quit(&mut self)
        ensures
            !final(self).running,
            *final(self) == (App { running: false, ..*old(self) }),
    {
        self.running = false;
    }

    pub fn toggle_shuffle(&mut self)
        ensures
            *final(self) == (App { shuffle: !old(self).shuffle, ..*old(self) }),
    {
        self.shuffle = !self.shuffle;
    }

    pub fn toggle_visualizer(&mut self)
        ensures
            *final(self) == (App { show_visualizer: !old(self).show_visualizer, ..*old(self) }),
    {
        self.show_visualizer = !self.show_visualizer;
    }

    /// Cycles the repeat mode: off, all, one, off.
    pub fn cycle_repeat(&mut self)
        ensures
            *final(self) == (App { repeat: next_repeat(old(self).repeat), ..*old(self) }),
    {
        self.repeat = match self.repeat {
            RepeatMode::Off => RepeatMode::All,
            RepeatMode::All => RepeatMode::One,
            RepeatMode::One => RepeatMode::Off,
        };
    }

    /// Raises the volume by 5, up to 100.
    pub fn volume_up(&mut self)
        ensures
            final(self).volume == if old(self).volume + 5 > 100 {
                100
            } else {
                old(self).volume + 5
            },
            *final(self) == (App { volume: final(self).volume, ..*old(self) }),
    {
        let v: u16 = self.volume as u16 + 5;
        self.volume = if v > 100 {
            100
        } else {
            v as u8
        };
    }

    /// Lowers the volume by 5, down to 0.
    pub fn volume_down(&mut self)
        ensures
            final(self).volume == if old(self).volume < 5 {
                0
            } else {
                old(self).volume - 5
            },
            *final(self) == (App { volume: final(self).volume, ..*old(self) }),
    {
        self.volume = self.volume.saturating_sub(5);
    }

    /// Get the songs for the currently selected playlist.
    pub fn current_playlist_songs(&self) -> (r: &[Song])
        ensures
            r@ == if self.selected_playlist < self.cached_playlists@.len() {
                self.cached_playlists@[self.selected_playlist as int].songs@
            } else {
                Seq::empty()
            },
    {
        if self.selected_playlist < self.cached_playlists.len() {
            self.cached_playlists[self.selected_playlist].songs.as_slice()
        } else {
            &[]
        }
    }

    /// Get all favorite songs from all cached playlists.
    pub fn favorite_songs(&self) -> (r: Vec<&Song>)
        requires
            self.wf(),
        ensures
            r@.map_values(|s: &Song| *s) == favorite_songs_spec(self.cached_playlists@, self.favorites@),
    {
        let ghost pred = |s: Song| self.favorites@.contains(s.video_id@);
        let mut r: Vec<&Song> = Vec::new();
        let mut p: usize = 0;
        while p < self.cached_playlists.len()
            invariant
                self.wf(),
                p <= self.cached_playlists@.len(),
                pred == (|s: Song| self.favorites@.contains(s.video_id@)),
                r@.map_values(|s: &Song| *s) == all_songs(self.cached_playlists@.take(p as int)).filter(pred),
            decreases self.cached_playlists@.len() - p,
        {
            let songs = &self.cached_playlists[p].songs;
            let ghost before = all_songs(self.cached_playlists@.take(p as int));
            assert(self.cached_playlists@.take(p + 1).drop_last() =~= self.cached_playlists@.take(p as int));
            assert(all_songs(self.cached_playlists@.take(p + 1)) == before + songs@);
            let mut i: usize = 0;
            while i < songs.len()
                invariant
                    self.wf(),
                    i <= songs@.len(),
                    pred == (|s: Song| self.favorites@.contains(s.video_id@)),
                    r@.map_values(|s: &Song| *s) == (before + songs@.take(i as int)).filter(pred),
                decreases songs@.len() - i,
            {
                let s = &songs[i];
                let fav = self.favorites.is_favorite(s.video_id.as_str());
                proof {
                    reveal_with_fuel(Seq::<_>::filter, 1);
                    let whole = before + songs@.take(i + 1);
                    assert(whole.drop_last() =~= before + songs@.take(i as int));
                    assert(whole.last() == *s);
                    assert(pred(*s) == fav);
                }
                if fav {
                    r.push(s);
                }
                proof {
                    assert(r@.map_values(|s: &Song| *s) =~= (before + songs@.take(i + 1)).filter(pred));
                }
                i += 1;
            }
            assert(songs@.take(songs@.len() as int) =~= songs@);
            p += 1;
        }
        assert(self.cached_playlists@.take(self.cached_playlists@.len() as int) =~= self.cached_playlists@);
        assert(pred =~= (|s: Song| self.favorites@.contains(s.video_id@)));
        r
    }

    /// Add a song to the playback queue.
    pub fn add_to_queue(&mut self, song: &Song)
        requires
            old(self).wf(),
        ensures
            final(self).wf(),
            final(self).queue@.items.len() == old(self).queue@.items.len() + 1,
            final(self).queue@.items.drop_last() == old(self).queue@.items,
            queue_item_for(*song, final(self).queue@.items.last()),
            final(self).queue@.index == old(self).queue@.index,
            final(self).queue@.history == old(self).queue@.history,
            final(self).favorites == old(self).favorites,
            *final(self) == (App { queue: final(self).queue, ..*old(self) }),
    {
        let item = QueueItem {
            id: song.video_id.clone(),
            title: song.title.clone(),
            url: song.url(),
            duration: song.duration,
        };
        self.queue.enqueue(item);
        assert(self.queue@.items.drop_last() =~= old(self).queue@.items);
    }

    /// Toggle favorite for a song; returns whether it is now a favorite.
    /// Saving the favorites file is left to the caller.
    pub fn toggle_favorite(&mut self, video_id: &str) -> (now_favorite: bool)
        requires
            old(self).wf(),
        ensures
            final(self).wf(),
            now_favorite == !old(self).favorites@.contains(video_id@),
            final(self).favorites@ == if old(self).favorites@.contains(video_id@) {
                old(self).favorites@.remove(video_id@)
            } else {
                old(self).favorites@.insert(video_id@)
            },
            final(self).favorites.path() == old(self).favorites.path(),
            final(self).queue == old(self).queue,
            *final(self) == (App { favorites: final(self).favorites, ..*old(self) }),
    {
        self.favorites.toggle(video_id)
    }

    /// Get queue item titles for display.
    pub fn queue_titles(&self) -> (r: Vec<String>)
        ensures
            r@.len() == self.queue@.items.len(),
            forall|k: int| 0 <= k < r@.len() ==> #[trigger] r@[k]@ == self.queue@.items[k].title@,
    {
        let items = self.queue.items();
        let mut r: Vec<String> = Vec::new();
        let mut i: usize = 0;
        while i < items.len()
            invariant
                items@ == self.queue@.items,
                i <= items@.len(),
                r@.len() == i,
                forall|k: int| 0 <= k < i ==> #[trigger] r@[k]@ == items@[k].title@,
            decreases items@.len() - i,
        {
            r.push(items[i].title.clone());
            i += 1;
        }
        r
    }

    /// Current queue index (for highlight in queue view).
    pub fn queue_current_index(&self) -> (r: Option<usize>)
        ensures
            r == self.queue@.index,
    {
        self.queue.current_index()
    }
}

} // verus!
