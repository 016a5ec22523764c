//! The interactive session: the application state together with the panel
//! states and the play state, and what each user action does to them.
//!
//! An action changes the state and returns the outside work it calls for
//! (start playing a song, pause, preload, run a search, save a file); the
//! caller performs that work and reports back where the outcome matters.
use vstd::prelude::*;

use crate::app::{App, AppScreen, RepeatMode, SearchState};
use crate::config::settings::GeneralSettings;
use crate::audio::queue::{move_down_spec, move_up_spec, remove_spec};
use crate::input::handler::{apply_action, apply_action_spec, Action};
use crate::play_state::{
    find_song, fresh_shuffle_cycle, pool_candidates, preload_targets, preload_urls, saturating_add_u64, saturating_sub, song_position,
    PlaybackClock, PlayState, PRELOAD_SIZE,
};
use crate::playlist::models::Song;
use crate::text::{str_chars, string_from_chars, string_push, trim_chars, trim_spec};
use crate::ui::list_state::{wrap_next, wrap_previous};
use crate::ui::playlist_view::{selection_for_count, PlaylistViewState, SidebarFocus};
use crate::ui::queue_view::QueueViewState;
use crate::ui::search_view::{clamped_selection, SearchViewState};

verus! {

/// The outside work an action calls for.
#[derive(Debug)]
pub enum Effect {
    /// Start playing this song; report the outcome with `record_play_result`.
    Play(Song),
    /// Pause the audio output.
    Pause,
    /// Resume the audio output.
    Resume,
    /// Stop the audio output: nothing is left to play.
    Stop,
    /// Hand these URLs to the preloader, in order.
    Preload(Vec<String>),
    /// Look the (trimmed) query up; report the outcome with `finish_search`.
    RunSearch(String),
    /// Save the favorites file.
    SaveFavorites,
    /// Save the cached playlist at this index and the playlist index;
    /// report the outcome with `SearchState::record_playlist_save`.
    SavePlaylist(usize),
}

/// What the audio engine reports before an action, and when the action came.
#[derive(Debug, Clone, Copy)]
pub struct EngineStatus {
    /// A song is loaded (playing or paused).
    pub active: bool,
    pub paused: bool,
    /// The time of the action, in milliseconds on the caller's monotonic clock.
    pub now_ms: u64,
}

/// How a search lookup ended.
pub enum SearchOutcome {
    /// The cache held fresh results.
    CacheHit(Vec<Song>),
    /// The results were fetched.
    Fetched(Vec<Song>),
    /// The lookup failed with this message.
    Failed(String),
}

/// Everything the interface works on.
pub struct Session {
    pub app: App,
    pub sidebar: PlaylistViewState,
    pub queue_view: QueueViewState,
    pub search_view: SearchViewState,
    pub play: PlayState,
}

/// Whether `u` holds exactly the URLs `t`.
pub open spec fn urls_match(u: Seq<String>, t: Seq<Seq<char>>) -> bool {
    u.len() == t.len() && forall|k: int| 0 <= k < u.len() ==> #[trigger] u[k]@ == t[k]
}

/// Whether `e` is the preload of the first `target` upcoming songs of `s`.
pub open spec fn is_preload_of(e: Effect, s: Session, target: usize) -> bool {
    e matches Effect::Preload(u) && urls_match(u@, preload_targets(s.play.upcoming@, target))
}

/// Whether the search should run on Enter: there is a query, and it differs
/// from the one the results are for, or there are no results yet.
pub open spec fn should_search_spec(s: SearchState) -> bool {
    let q = trim_spec(s.query@);
    q.len() > 0 && (s.results@.len() == 0 || s.last_query@ != q)
}

/// The selected search result, if the selection points at one.
pub open spec fn selected_result(s: Session) -> Option<Song> {
    match s.search_view.list_state.sel() {
        Some(i) => if i < s.app.search.results@.len() {
            Some(s.app.search.results@[i as int])
        } else {
            None
        },
        None => None,
    }
}

/// The songs of the selected playlist (empty if none is cached there).
pub open spec fn current_songs(a: App) -> Seq<Song> {
    if a.selected_playlist < a.cached_playlists@.len() {
        a.cached_playlists@[a.selected_playlist as int].songs@
    } else {
        Seq::empty()
    }
}

/// The selected song of the sidebar, if the selection points at one.
pub open spec fn selected_song_of(s: Session) -> Option<Song> {
    match s.sidebar.song_state.sel() {
        Some(i) => if i < current_songs(s.app).len() {
            Some(current_songs(s.app)[i as int])
        } else {
            None
        },
        None => None,
    }
}

/// The sidebar song selection after following the playing song `song`: its
/// row is selected when the listed playlist holds it.
pub open spec fn sidebar_follows(o: PlaylistViewState, n: PlaylistViewState, a: App, song: Song) -> bool {
    &&& n.focus == o.focus
    &&& n.playlist_state == o.playlist_state
    &&& n.playlist_count == o.playlist_count
    &&& n.song_count == o.song_count
    &&& match song_position(current_songs(a), song.video_id@) {
        Some(p) => n.song_state.sel() == Some(p as usize),
        None => n.song_state == o.song_state,
    }
}

/// The session is consistent: the application invariants hold and the
/// shuffle pool points into the source playlist.
pub open spec fn session_wf(s: Session) -> bool {
    &&& s.app.wf()
    &&& s.play.source_playlist < s.app.cached_playlists@.len() ==> forall|k: int|
        0 <= k < s.play.shuffle_pool@.len() ==> #[trigger] s.play.shuffle_pool@[k]
            < s.app.cached_playlists@[s.play.source_playlist as int].songs@.len()
}

/// The search state after the query was edited: results and messages cleared.
pub open spec fn search_edited(o: SearchState, n: SearchState) -> bool {
    &&& n.results@.len() == 0
    &&& n.last_query@.len() == 0
    &&& !n.is_loading
    &&& n.error is None
    &&& n.status is None
    &&& !n.cache_hit
}

/// What navigating up (`up`) or down does: the list of the current screen moves.
pub open spec fn navigate_post(o: Session, n: Session, up: bool) -> bool {
    &&& n.app == o.app
    &&& n.play == o.play
    &&& if o.app.screen == AppScreen::QueueView {
        &&& n.sidebar == o.sidebar
        &&& n.search_view == o.search_view
        &&& n.queue_view.item_count == o.queue_view.item_count
        &&& n.queue_view.list_state.sel() == if up {
            wrap_previous(o.queue_view.list_state.sel(), o.queue_view.item_count)
        } else {
            wrap_next(o.queue_view.list_state.sel(), o.queue_view.item_count)
        }
    } else if o.app.screen == AppScreen::Search {
        &&& n.sidebar == o.sidebar
        &&& n.queue_view == o.queue_view
        &&& n.search_view.item_count == o.search_view.item_count
        &&& n.search_view.list_state.sel() == if up {
            wrap_previous(o.search_view.list_state.sel(), o.search_view.item_count)
        } else {
            wrap_next(o.search_view.list_state.sel(), o.search_view.item_count)
        }
    } else {
        &&& n.queue_view == o.queue_view
        &&& n.search_view == o.search_view
        &&& n.sidebar.focus == o.sidebar.focus
        &&& n.sidebar.playlist_count == o.sidebar.playlist_count
        &&& n.sidebar.song_count == o.sidebar.song_count
        &&& if o.sidebar.focus == SidebarFocus::Playlists {
            &&& n.sidebar.song_state == o.sidebar.song_state
            &&& n.sidebar.playlist_state.sel() == if up {
                wrap_previous(o.sidebar.playlist_state.sel(), o.sidebar.playlist_count)
            } else {
                wrap_next(o.sidebar.playlist_state.sel(), o.sidebar.playlist_count)
            }
        } else {
            &&& n.sidebar.playlist_state == o.sidebar.playlist_state
            &&& n.sidebar.song_state.sel() == if up {
                wrap_previous(o.sidebar.song_state.sel(), o.sidebar.song_count)
            } else {
                wrap_next(o.sidebar.song_state.sel(), o.sidebar.song_count)
            }
        }
    }
}

/// What starting playback at the selected sidebar song does to the play
/// state and which effects it asks for.
pub open spec fn started_from_selection(o: Session, n: Session, fx: Seq<Effect>, target: usize) -> bool {
    let song = selected_song_of(o).unwrap();
    &&& n.play.history@.len() == 0
    &&& n.play.source_playlist == o.app.selected_playlist
    &&& n.play.current_song == o.play.current_song
    &&& fx.len() == 2
    &&& fx[0] == Effect::Play(song)
    &&& is_preload_of(fx[1], n, target)
}

impl Session {
    /// A session around `app` with fresh panel and play states; the sidebar
    /// lists the configured playlists.
    pub fn new(app: App) -> (s: Self)
        requires
            app.wf(),
        ensures
            session_wf(s),
            s.app == app,
            s.sidebar.playlist_count == app.playlists@.len(),
            s.sidebar.playlist_state.sel() == Some(0usize),
            s.sidebar.song_state.sel() is None,
            s.sidebar.focus == SidebarFocus::Playlists,
            s.queue_view.list_state.sel() is None,
            s.search_view.list_state.sel() == Some(0usize),
            s.play.current_song is None,
            s.play.upcoming@.len() == 0,
            s.play.history@.len() == 0,
    {
        let mut sidebar = PlaylistViewState::new();
        sidebar.set_playlist_count(app.playlists.len());
        Session {
            app,
            sidebar,
            queue_view: QueueViewState::new(),
            search_view: SearchViewState::new(),
            play: PlayState::new(),
        }
    }

    /// Records how starting `song` went: on success it is the current song
    /// and playback is on; otherwise nothing is current and playback is off.
    /// `now_ms` is when playback started, on the caller's monotonic clock.
    pub fn record_play_result(&mut self, song: Song, started: bool, now_ms: u64)
        ensures
            final(self).app == (App { is_playing: started, ..old(self).app }),
            final(self).play.current_song == if started {
                Some(song)
            } else {
                None
            },
            final(self).play.clock == if started {
                PlaybackClock { started_at: Some(now_ms), paused_ms: 0, pause_began: None }
            } else {
                PlaybackClock { started_at: None, paused_ms: 0, pause_began: None }
            },
            final(self).play.upcoming == old(self).play.upcoming,
            final(self).play.history == old(self).play.history,
            final(self).play.shuffle_pool == old(self).play.shuffle_pool,
            final(self).play.source_playlist == old(self).play.source_playlist,
            final(self).play.next_linear_index == old(self).play.next_linear_index,
            final(self).sidebar == old(self).sidebar,
            final(self).queue_view == old(self).queue_view,
            final(self).search_view == old(self).search_view,
    {
        self.app.is_playing = started;
        self.play.current_song = if started {
            Some(song)
        } else {
            None
        };
        self.play.clock = if started {
            PlaybackClock::started(now_ms)
        } else {
            PlaybackClock::stopped()
        };
    }

    /// Records that playback stopped with nothing current.
    fn record_stopped(&mut self)
        ensures
            final(self).app == (App { is_playing: false, ..old(self).app }),
            final(self).play.current_song is None,
            final(self).play.clock == (PlaybackClock { started_at: None, ..old(self).play.clock }),
            final(self).play.upcoming == old(self).play.upcoming,
            final(self).play.history == old(self).play.history,
            final(self).play.shuffle_pool == old(self).play.shuffle_pool,
            final(self).play.source_playlist == old(self).play.source_playlist,
            final(self).play.next_linear_index == old(self).play.next_linear_index,
            final(self).sidebar == old(self).sidebar,
            final(self).queue_view == old(self).queue_view,
            final(self).search_view == old(self).search_view,
    {
        self.app.is_playing = false;
        self.play.current_song = None;
        self.play.clock.started_at = None;
    }

    /// Selects the row of `song` in the sidebar's song list when the listed
    /// playlist holds it.
    fn sync_sidebar_selection(&mut self, song: &Song)
        ensures
            sidebar_follows(old(self).sidebar, final(self).sidebar, old(self).app, *song),
            final(self).app == old(self).app,
            final(self).play == old(self).play,
            final(self).queue_view == old(self).queue_view,
            final(self).search_view == old(self).search_view,
    {
        let songs = self.app.current_playlist_songs();
        if let Some(idx) = find_song(songs, &song.video_id) {
            self.sidebar.song_state.select(Some(idx));
        }
    }

    fn navigate(&mut self, up: bool)
        ensures
            navigate_post(*old(self), *final(self), up),
    {
        if self.app.screen == AppScreen::QueueView {
            if up {
                self.queue_view.previous();
            } else {
                self.queue_view.next();
            }
        } else if self.app.screen == AppScreen::Search {
            if up {
                self.search_view.previous();
            } else {
                self.search_view.next();
            }
        } else {
            if up {
                self.sidebar.previous();
            } else {
                self.sidebar.next();
            }
        }
    }

    /// The search result under the selection, if any.
    fn selected_search_song(&self) -> (r: Option<Song>)
        ensures
            r == selected_result(*self),
    {
        match self.search_view.selected() {
            Some(idx) => if idx < self.app.search.results.len() {
                Some(self.app.search.results[idx].clone())
            } else {
                None
            },
            None => None,
        }
    }

    /// The song under the sidebar's song selection, if any.
    fn selected_sidebar_song(&self) -> (r: Option<(usize, Song)>)
        ensures
            match r {
                Some((i, s)) => selected_song_of(*self) == Some(s) && self.sidebar.song_state.sel() == Some(i)
                    && i < current_songs(self.app).len(),
                None => selected_song_of(*self) is None,
            },
    {
        match self.sidebar.selected_song() {
            Some(idx) => {
                let songs = self.app.current_playlist_songs();
                if idx < songs.len() {
                    Some((idx, songs[idx].clone()))
                } else {
                    None
                }
            },
            None => None,
        }
    }

    /// Starts playback at the selected sidebar song (the selection must point
    /// at a song).
    fn start_selected(&mut self, idx: usize, song: Song, preload_target: usize) -> (fx: Vec<Effect>)
        requires
            session_wf(*old(self)),
            selected_song_of(*old(self)) == Some(song),
            old(self).sidebar.song_state.sel() == Some(idx),
            idx < current_songs(old(self).app).len(),
        ensures
            session_wf(*final(self)),
            started_from_selection(*old(self), *final(self), fx@, preload_target),
            play_started_at(*old(self), *final(self), idx),
            final(self).app == old(self).app,
            final(self).sidebar == old(self).sidebar,
            final(self).queue_view == old(self).queue_view,
            final(self).search_view == old(self).search_view,
    {
        let songs = self.app.current_playlist_songs();
        self.play.start_from(songs, idx, self.app.selected_playlist, self.app.shuffle, self.app.repeat);
        let mut fx: Vec<Effect> = Vec::new();
        fx.push(Effect::Play(song));
        fx.push(Effect::Preload(preload_urls(&self.play.upcoming, preload_target)));
        fx
    }
}

/// Whether the search should run on Enter.
pub fn should_execute_search(search: &SearchState) -> (b: bool)
    ensures
        b == should_search_spec(*search),
{
    let q = trim_chars(&str_chars(search.query.as_str()));
    if q.len() == 0 {
        return false;
    }
    if search.results.len() == 0 {
        return true;
    }
    let qs = string_from_chars(&q);
    search.last_query != qs
}

/// Removes the last character of `s`, if any.
fn pop_char(s: &mut String)
    ensures
        final(s)@ == if old(s)@.len() > 0 {
            old(s)@.drop_last()
        } else {
            old(s)@
        },
{
    let mut v = str_chars(s.as_str());
    if v.len() > 0 {
        v.pop();
        *s = string_from_chars(&v);
    }
}

/// The panel states and the play state are as they were.
pub open spec fn panels_same(o: Session, n: Session) -> bool {
    &&& n.sidebar == o.sidebar
    &&& n.queue_view == o.queue_view
    &&& n.search_view == o.search_view
    &&& n.play == o.play
}

/// The play state after starting the selected sidebar song at row `idx`.
pub open spec fn play_started_at(o: Session, n: Session, idx: usize) -> bool {
    &&& !o.app.shuffle ==> n.play.upcoming@ == crate::play_state::linear_window(
        current_songs(o.app),
        idx + 1,
        PRELOAD_SIZE as nat,
        o.app.repeat,
    ) && n.play.shuffle_pool@.len() == 0 && n.play.next_linear_index
        == crate::play_state::saturating_add(idx, (1 + PRELOAD_SIZE) as usize)
    &&& o.app.shuffle ==> n.play.upcoming@.len() <= PRELOAD_SIZE && (forall|k: int|
        0 <= k < n.play.upcoming@.len() ==> current_songs(o.app).contains(
            #[trigger] n.play.upcoming@[k],
        ))
    &&& o.app.shuffle && o.app.repeat != RepeatMode::All ==> fresh_shuffle_cycle(
        current_songs(o.app),
        current_songs(o.app)[idx as int],
        n.play.upcoming@,
        n.play.shuffle_pool@,
    )
    &&& o.app.shuffle && o.app.repeat == RepeatMode::All ==> n.play.upcoming@.len() == PRELOAD_SIZE
        || pool_candidates(
        current_songs(o.app),
        Some(current_songs(o.app)[idx as int]),
        n.play.upcoming@,
        current_songs(o.app).len(),
    ).len() == 0
}

/// What Enter does.
pub open spec fn select_post(o: Session, n: Session, fx: Seq<Effect>, target: usize) -> bool {
    if o.app.screen == AppScreen::Search {
        if should_search_spec(o.app.search) {
            &&& n.app == (App { search: n.app.search, ..o.app })
            &&& panels_same(o, n)
            &&& n.app.search.query == o.app.search.query
            &&& n.app.search.results == o.app.search.results
            &&& n.app.search.last_query == o.app.search.last_query
            &&& n.app.search.is_loading
            &&& n.app.search.error is None
            &&& n.app.search.status is None
            &&& !n.app.search.cache_hit
            &&& fx.len() == 1
            &&& fx[0] matches Effect::RunSearch(q) && q@ == trim_spec(o.app.search.query@)
        } else {
            match selected_result(o) {
                Some(song) => {
                    &&& n.app == o.app
                    &&& n.sidebar == o.sidebar
                    &&& n.queue_view == o.queue_view
                    &&& n.search_view == o.search_view
                    &&& n.play.current_song == o.play.current_song
                    &&& n.play.history@.len() == 0
                    &&& n.play.upcoming@.len() == 0
                    &&& n.play.shuffle_pool@.len() == 0
                    &&& n.play.source_playlist == usize::MAX
                    &&& n.play.next_linear_index == 0
                    &&& fx == seq![Effect::Play(song)]
                },
                None => n == o && fx.len() == 0,
            }
        }
    } else if o.sidebar.focus == SidebarFocus::Songs {
        match selected_song_of(o) {
            Some(_) => {
                &&& started_from_selection(o, n, fx, target)
                &&& play_started_at(o, n, o.sidebar.song_state.sel()->0)
                &&& n.app == o.app
                &&& n.sidebar == o.sidebar
                &&& n.queue_view == o.queue_view
                &&& n.search_view == o.search_view
            },
            None => n == o && fx.len() == 0,
        }
    } else {
        &&& fx.len() == 0
        &&& match o.sidebar.playlist_state.sel() {
            Some(idx) => {
                &&& n.app == (App { selected_playlist: idx, ..o.app })
                &&& n.play == o.play
                &&& n.queue_view == o.queue_view
                &&& n.search_view == o.search_view
                &&& n.sidebar.focus == o.sidebar.focus
                &&& n.sidebar.playlist_state == o.sidebar.playlist_state
                &&& n.sidebar.playlist_count == o.sidebar.playlist_count
                &&& n.sidebar.song_count == current_songs(n.app).len()
                &&& n.sidebar.song_state.sel() == selection_for_count(
                    o.sidebar.song_state.sel(),
                    current_songs(n.app).len() as usize,
                    true,
                )
            },
            None => n == o,
        }
    }
}

/// What play/pause does.
pub open spec fn play_pause_post(o: Session, n: Session, fx: Seq<Effect>, engine: EngineStatus, target: usize) -> bool {
    if engine.active {
        &&& n.sidebar == o.sidebar
        &&& n.queue_view == o.queue_view
        &&& n.search_view == o.search_view
        &&& n.play == (PlayState { clock: n.play.clock, ..o.play })
        &&& if engine.paused {
            &&& n.app == (App { is_playing: true, ..o.app })
            &&& n.play.clock == match o.play.clock.pause_began {
                Some(p) => PlaybackClock {
                    pause_began: None,
                    paused_ms: saturating_add_u64(o.play.clock.paused_ms, saturating_sub(engine.now_ms, p)),
                    ..o.play.clock
                },
                None => o.play.clock,
            }
            &&& fx == seq![Effect::Resume]
        } else {
            &&& n.app == (App { is_playing: false, ..o.app })
            &&& n.play.clock == (PlaybackClock { pause_began: Some(engine.now_ms), ..o.play.clock })
            &&& fx == seq![Effect::Pause]
        }
    } else {
        match selected_song_of(o) {
            Some(_) => {
                &&& started_from_selection(o, n, fx, target)
                &&& play_started_at(o, n, o.sidebar.song_state.sel()->0)
                &&& n.app == o.app
                &&& n.sidebar == o.sidebar
                &&& n.queue_view == o.queue_view
                &&& n.search_view == o.search_view
            },
            None => n == o && fx.len() == 0,
        }
    }
}

/// How the upcoming songs are topped up by one after "next" took the first
/// of them (`o` before, `n` after): nothing changes without a valid source
/// playlist or with an empty one; in order, the next linear song is added;
/// shuffled, the next pooled song is added, and with repeat-all an exhausted
/// pool is rebuilt so that one is added unless every song is already coming up.
/// In order at the last possible position nothing is added.
pub open spec fn refilled_after_next(o: Session, n: Session) -> bool {
    let rest = o.play.upcoming@.drop_first();
    let src = o.play.source_playlist;
    if src >= o.app.cached_playlists@.len() || o.app.cached_playlists@[src as int].songs@.len() == 0 || (
    !o.app.shuffle && o.play.next_linear_index == usize::MAX) {
        &&& n.play.upcoming@ == rest
        &&& n.play.next_linear_index == o.play.next_linear_index
        &&& n.play.shuffle_pool@ == o.play.shuffle_pool@
    } else {
        let songs = o.app.cached_playlists@[src as int].songs@;
        if !o.app.shuffle {
            let (added, next) = crate::play_state::linear_refill(
                songs,
                o.play.next_linear_index as int,
                1,
                o.app.repeat,
            );
            &&& n.play.upcoming@ == rest + added
            &&& n.play.next_linear_index == next
            &&& n.play.shuffle_pool@ == o.play.shuffle_pool@
        } else if o.app.repeat != RepeatMode::All {
            let take: int = if o.play.shuffle_pool@.len() < 1 {
                0
            } else {
                1
            };
            &&& n.play.upcoming@ == rest + crate::play_state::songs_at(songs, o.play.shuffle_pool@.take(take))
            &&& n.play.shuffle_pool@ == o.play.shuffle_pool@.skip(take)
            &&& n.play.next_linear_index == o.play.next_linear_index
        } else {
            &&& crate::play_state::extends(rest, n.play.upcoming@)
            &&& n.play.next_linear_index == o.play.next_linear_index
            &&& (n.play.upcoming@.len() == rest.len() + 1 || crate::play_state::pool_candidates(
                songs,
                None,
                n.play.upcoming@,
                songs.len(),
            ).len() == 0)
        }
    }
}

/// What "next" does.
pub open spec fn next_post(o: Session, n: Session, fx: Seq<Effect>, target: usize) -> bool {
    if o.app.repeat == RepeatMode::One {
        match o.play.current_song {
            Some(song) => {
                &&& n.app == o.app
                &&& n.play == o.play
                &&& n.queue_view == o.queue_view
                &&& n.search_view == o.search_view
                &&& sidebar_follows(o.sidebar, n.sidebar, o.app, song)
                &&& fx == seq![Effect::Play(song)]
            },
            None => n == o && fx.len() == 0,
        }
    } else if o.play.upcoming@.len() > 0 {
        let song = o.play.upcoming@[0];
        &&& n.app == o.app
        &&& n.queue_view == o.queue_view
        &&& n.search_view == o.search_view
        &&& n.play.current_song is None
        &&& n.play.history@ == match o.play.current_song {
            Some(c) => o.play.history@.push(c),
            None => o.play.history@,
        }
        &&& n.play.source_playlist == o.play.source_playlist
        &&& crate::play_state::extends(o.play.upcoming@.drop_first(), n.play.upcoming@)
        &&& n.play.upcoming@.len() <= o.play.upcoming@.len()
        &&& refilled_after_next(o, n)
        &&& sidebar_follows(o.sidebar, n.sidebar, o.app, song)
        &&& fx.len() == 2
        &&& fx[0] == Effect::Play(song)
        &&& is_preload_of(fx[1], n, target)
    } else {
        n == o && fx.len() == 0
    }
}

/// The upcoming songs after the current song `cur` went back in front of
/// them, keeping at most `PRELOAD_SIZE`.
pub open spec fn upcoming_after_back(cur: Song, upcoming: Seq<Song>) -> Seq<Song> {
    let l = seq![cur] + upcoming;
    if l.len() > PRELOAD_SIZE {
        l.take(PRELOAD_SIZE as int)
    } else {
        l
    }
}

/// What "previous" does.
pub open spec fn previous_post(o: Session, n: Session, fx: Seq<Effect>, target: usize) -> bool {
    if o.play.history@.len() > 0 {
        let song = o.play.history@.last();
        &&& n.app == o.app
        &&& n.queue_view == o.queue_view
        &&& n.search_view == o.search_view
        &&& n.play.history@ == o.play.history@.drop_last()
        &&& n.play.current_song is None
        &&& n.play.upcoming@ == match o.play.current_song {
            Some(c) => upcoming_after_back(c, o.play.upcoming@),
            None => o.play.upcoming@,
        }
        &&& n.play.shuffle_pool == o.play.shuffle_pool
        &&& n.play.source_playlist == o.play.source_playlist
        &&& n.play.next_linear_index == o.play.next_linear_index
        &&& sidebar_follows(o.sidebar, n.sidebar, o.app, song)
        &&& fx.len() == 2
        &&& fx[0] == Effect::Play(song)
        &&& is_preload_of(fx[1], n, target)
    } else {
        n == o && fx.len() == 0
    }
}

/// The id whose favorite mark a toggle on the current screen changes.
pub open spec fn favorite_target(o: Session) -> Option<Seq<char>> {
    if o.app.screen == AppScreen::QueueView {
        match o.queue_view.list_state.sel() {
            Some(i) => if i < o.app.queue@.items.len() {
                Some(o.app.queue@.items[i as int].id@)
            } else {
                None
            },
            None => None,
        }
    } else if o.app.screen == AppScreen::Search {
        match selected_result(o) {
            Some(s) => Some(s.video_id@),
            None => None,
        }
    } else {
        match selected_song_of(o) {
            Some(s) => Some(s.video_id@),
            None => None,
        }
    }
}

/// What toggling a favorite does.
pub open spec fn toggle_favorite_post(o: Session, n: Session, fx: Seq<Effect>) -> bool {
    match favorite_target(o) {
        Some(id) => {
            &&& panels_same(o, n)
            &&& n.app == (App { favorites: n.app.favorites, ..o.app })
            &&& n.app.favorites@ == if o.app.favorites@.contains(id) {
                o.app.favorites@.remove(id)
            } else {
                o.app.favorites@.insert(id)
            }
            &&& n.app.favorites.path() == o.app.favorites.path()
            &&& fx == seq![Effect::SaveFavorites]
        },
        None => n == o && fx.len() == 0,
    }
}

/// What toggling shuffle does.
pub open spec fn toggle_shuffle_post(o: Session, n: Session, fx: Seq<Effect>, target: usize) -> bool {
    let songs_known = o.play.source_playlist < o.app.cached_playlists@.len()
        && o.app.cached_playlists@[o.play.source_playlist as int].songs@.len() > 0;
    &&& n.app == (App { shuffle: !o.app.shuffle, ..o.app })
    &&& n.sidebar == o.sidebar
    &&& n.queue_view == o.queue_view
    &&& n.search_view == o.search_view
    &&& if o.play.current_song is None || !songs_known {
        n.play == o.play && fx.len() == 0
    } else {
        let songs = o.app.cached_playlists@[o.play.source_playlist as int].songs@;
        let cur = o.play.current_song->0;
        &&& n.play.current_song == o.play.current_song
        &&& n.play.history@ == o.play.history@
        &&& n.play.source_playlist == o.play.source_playlist
        &&& (!o.app.shuffle ==> n.play.upcoming@.len() <= PRELOAD_SIZE && forall|k: int|
            0 <= k < n.play.upcoming@.len() ==> songs.contains(#[trigger] n.play.upcoming@[k]))
        &&& (!o.app.shuffle && o.app.repeat != RepeatMode::All ==> fresh_shuffle_cycle(
            songs,
            cur,
            n.play.upcoming@,
            n.play.shuffle_pool@,
        ))
        &&& (!o.app.shuffle && o.app.repeat == RepeatMode::All ==> n.play.upcoming@.len() == PRELOAD_SIZE
            || pool_candidates(songs, Some(cur), n.play.upcoming@, songs.len()).len() == 0)
        &&& (o.app.shuffle ==> n.play.shuffle_pool@.len() == 0 && match song_position(
            songs,
            cur.video_id@,
        ) {
            Some(p) => n.play.upcoming@ == crate::play_state::linear_window(
                songs,
                p + 1,
                PRELOAD_SIZE as nat,
                o.app.repeat,
            ),
            None => n.play.upcoming@.len() == 0,
        })
        &&& fx.len() == 1
        &&& is_preload_of(fx[0], n, target)
    }
}

/// The song that "add to queue" adds on the current screen.
pub open spec fn queue_target(o: Session) -> Option<Song> {
    if o.app.screen == AppScreen::Search {
        selected_result(o)
    } else {
        selected_song_of(o)
    }
}

/// What "add to queue" does.
pub open spec fn add_to_queue_post(o: Session, n: Session, fx: Seq<Effect>) -> bool {
    &&& fx.len() == 0
    &&& match queue_target(o) {
        Some(song) => {
            &&& n.app == (App { queue: n.app.queue, ..o.app })
            &&& n.app.queue@.items.len() == o.app.queue@.items.len() + 1
            &&& n.app.queue@.items.drop_last() == o.app.queue@.items
            &&& crate::app::queue_item_for(song, n.app.queue@.items.last())
            &&& n.app.queue@.index == o.app.queue@.index
            &&& n.app.queue@.history == o.app.queue@.history
            &&& n.sidebar == o.sidebar
            &&& n.search_view == o.search_view
            &&& n.play == o.play
            &&& n.queue_view.item_count == n.app.queue@.items.len()
            &&& n.queue_view.list_state.sel() == selection_for_count(
                o.queue_view.list_state.sel(),
                n.app.queue@.items.len() as usize,
                true,
            )
        },
        None => n == o,
    }
}

/// Whether the playlist already holds a song with this id.
pub open spec fn playlist_has_id(songs: Seq<Song>, id: Seq<char>) -> bool {
    exists|k: int| 0 <= k < songs.len() && (#[trigger] songs[k]).video_id@ == id
}

/// What "add to playlist" does (only on the search screen).
pub open spec fn add_to_playlist_post(o: Session, n: Session, fx: Seq<Effect>) -> bool {
    if o.app.screen != AppScreen::Search || selected_result(o) is None {
        n == o && fx.len() == 0
    } else {
        let song = selected_result(o)->0;
        let sel = o.app.selected_playlist;
        &&& n.play == o.play
        &&& n.queue_view == o.queue_view
        &&& n.search_view == o.search_view
        &&& n.sidebar.focus == o.sidebar.focus
        &&& n.sidebar.playlist_state == o.sidebar.playlist_state
        &&& n.sidebar.playlist_count == o.sidebar.playlist_count
        &&& n.sidebar.song_count == current_songs(n.app).len()
        &&& n.sidebar.song_state.sel() == selection_for_count(
            o.sidebar.song_state.sel(),
            current_songs(n.app).len() as usize,
            true,
        )
        &&& if sel >= o.app.cached_playlists@.len() {
            &&& n.app == (App { search: n.app.search, ..o.app })
            &&& n.app.search == (SearchState { error: n.app.search.error, ..o.app.search })
            &&& n.app.search.error matches Some(e) && e@ == "Select a playlist to add results"@
            &&& fx.len() == 0
        } else if playlist_has_id(o.app.cached_playlists@[sel as int].songs@, song.video_id@) {
            &&& n.app == (App { search: n.app.search, ..o.app })
            &&& n.app.search == (SearchState { error: n.app.search.error, ..o.app.search })
            &&& n.app.search.error matches Some(e) && e@ == "Song already in playlist"@
            &&& fx.len() == 0
        } else {
            &&& n.app == (App { cached_playlists: n.app.cached_playlists, ..o.app })
            &&& n.app.cached_playlists@.len() == o.app.cached_playlists@.len()
            &&& forall|k: int|
                0 <= k < o.app.cached_playlists@.len() && k != sel ==> #[trigger] n.app.cached_playlists@[k]
                    == o.app.cached_playlists@[k]
            &&& n.app.cached_playlists@[sel as int].name == o.app.cached_playlists@[sel as int].name
            &&& n.app.cached_playlists@[sel as int].url == o.app.cached_playlists@[sel as int].url
            &&& n.app.cached_playlists@[sel as int].songs@ == o.app.cached_playlists@[sel as int].songs@.push(song)
            &&& fx == seq![Effect::SavePlaylist(sel)]
        }
    }
}

/// What the queue reordering and removal keys do.
pub open spec fn queue_edit_post(o: Session, n: Session, fx: Seq<Effect>, action: Action) -> bool {
    &&& fx.len() == 0
    &&& n.sidebar == o.sidebar
    &&& n.search_view == o.search_view
    &&& n.play == o.play
    &&& n.app == (App { queue: n.app.queue, ..o.app })
    &&& match (action, o.queue_view.list_state.sel()) {
        (Action::QueueMoveUp, Some(i)) => if i > 0 {
            &&& n.queue_view.list_state.sel() == Some((i - 1) as usize)
            &&& n.queue_view.item_count == o.queue_view.item_count
            &&& n.app.queue@ == move_up_spec(o.app.queue@, i).0
        } else {
            n.queue_view == o.queue_view && n.app.queue == o.app.queue
        },
        (Action::QueueMoveDown, Some(i)) => if i + 1 < o.queue_view.item_count {
            &&& n.queue_view.list_state.sel() == Some((i + 1) as usize)
            &&& n.queue_view.item_count == o.queue_view.item_count
            &&& n.app.queue@ == move_down_spec(o.app.queue@, i).0
        } else {
            n.queue_view == o.queue_view && n.app.queue == o.app.queue
        },
        (Action::QueueRemove, Some(i)) => if o.queue_view.item_count > 0 {
            &&& n.queue_view.item_count == o.queue_view.item_count - 1
            &&& n.queue_view.list_state.sel() == crate::ui::queue_view::selection_after_removal(
                i,
                (o.queue_view.item_count - 1) as usize,
            )
            &&& if i < o.app.queue@.items.len() {
                n.app.queue@ == remove_spec(o.app.queue@, i)
            } else {
                n.app.queue@ == o.app.queue@
            }
        } else {
            n.queue_view == o.queue_view && n.app.queue == o.app.queue
        },
        _ => n.queue_view == o.queue_view && n.app.queue == o.app.queue,
    }
}

/// What opening the search screen does.
pub open spec fn open_search_post(o: Session, n: Session, fx: Seq<Effect>) -> bool {
    &&& fx.len() == 0
    &&& n.sidebar == o.sidebar
    &&& n.queue_view == o.queue_view
    &&& n.play == o.play
    &&& n.app == (App { screen: AppScreen::Search, search: n.app.search, ..o.app })
    &&& n.app.search.query == o.app.search.query
    &&& n.app.search.results == o.app.search.results
    &&& n.app.search.last_query == o.app.search.last_query
    &&& !n.app.search.is_loading
    &&& n.app.search.error is None
    &&& n.app.search.status is None
    &&& !n.app.search.cache_hit
    &&& n.search_view.item_count == o.app.search.results@.len()
    &&& n.search_view.list_state.sel() == if o.app.search.results@.len() > 0 {
        Some(0usize)
    } else {
        None
    }
}

/// What editing the query does: `query` is the new query text.
pub open spec fn edit_query_post(o: Session, n: Session, fx: Seq<Effect>, query: Seq<char>) -> bool {
    &&& fx.len() == 0
    &&& n.sidebar == o.sidebar
    &&& n.queue_view == o.queue_view
    &&& n.play == o.play
    &&& n.app == (App { search: n.app.search, ..o.app })
    &&& n.app.search.query@ == query
    &&& search_edited(o.app.search, n.app.search)
    &&& n.search_view.item_count == 0
    &&& n.search_view.list_state.sel() is None
}

/// What an action does to the session and which effects it asks for.
pub open spec fn handle_action_spec(
    o: Session,
    n: Session,
    action: Action,
    engine: EngineStatus,
    target: usize,
    fx: Seq<Effect>,
) -> bool {
    match action {
        Action::NavigateUp => navigate_post(o, n, true) && fx.len() == 0,
        Action::NavigateDown => navigate_post(o, n, false) && fx.len() == 0,
        Action::ToggleFocus => {
            &&& fx.len() == 0
            &&& n.app == o.app
            &&& n.play == o.play
            &&& n.queue_view == o.queue_view
            &&& n.search_view == o.search_view
            &&& if o.app.screen != AppScreen::Search {
                &&& n.sidebar.focus == if o.sidebar.focus == SidebarFocus::Playlists {
                    SidebarFocus::Songs
                } else {
                    SidebarFocus::Playlists
                }
                &&& n.sidebar.playlist_state == o.sidebar.playlist_state
                &&& n.sidebar.song_state == o.sidebar.song_state
                &&& n.sidebar.playlist_count == o.sidebar.playlist_count
                &&& n.sidebar.song_count == o.sidebar.song_count
            } else {
                n.sidebar == o.sidebar
            }
        },
        Action::Select => select_post(o, n, fx, target),
        Action::PlayPause => play_pause_post(o, n, fx, engine, target),
        Action::Next => next_post(o, n, fx, target),
        Action::Previous => previous_post(o, n, fx, target),
        Action::ToggleFavorite => toggle_favorite_post(o, n, fx),
        Action::ToggleShuffle => toggle_shuffle_post(o, n, fx, target),
        Action::AddToQueue => add_to_queue_post(o, n, fx),
        Action::AddToPlaylist => add_to_playlist_post(o, n, fx),
        Action::QueueMoveUp => queue_edit_post(o, n, fx, action),
        Action::QueueMoveDown => queue_edit_post(o, n, fx, action),
        Action::QueueRemove => queue_edit_post(o, n, fx, action),
        Action::Search => open_search_post(o, n, fx),
        Action::SearchInput(c) => edit_query_post(o, n, fx, o.app.search.query@.push(c)),
        Action::SearchBackspace => edit_query_post(
            o,
            n,
            fx,
            if o.app.search.query@.len() > 0 {
                o.app.search.query@.drop_last()
            } else {
                o.app.search.query@
            },
        ),
        Action::SearchClear => edit_query_post(o, n, fx, Seq::empty()),
        _ => n.app == apply_action_spec(o.app, action) && panels_same(o, n) && fx.len() == 0,
    }
}

impl Session {
    /// Starts a search for the trimmed query: returns it, with the state
    /// marked as loading, or `None` with an error message when it is empty.
    pub fn begin_search(&mut self) -> (q: Option<String>)
        ensures
            final(self).sidebar == old(self).sidebar,
            final(self).queue_view == old(self).queue_view,
            final(self).search_view == old(self).search_view,
            final(self).play == old(self).play,
            final(self).app == (App { search: final(self).app.search, ..old(self).app }),
            final(self).app.search.query == old(self).app.search.query,
            final(self).app.search.results == old(self).app.search.results,
            final(self).app.search.last_query == old(self).app.search.last_query,
            trim_spec(old(self).app.search.query@).len() == 0 ==> q is None
                && final(self).app.search == (SearchState { error: final(self).app.search.error, ..old(self).app.search })
                && (final(self).app.search.error matches Some(e) && e@ == "Type a search query"@),
            trim_spec(old(self).app.search.query@).len() > 0 ==> (q matches Some(t) && t@ == trim_spec(old(self).app.search.query@))
                && final(self).app.search.is_loading && final(self).app.search.error is None
                && final(self).app.search.status is None && !final(self).app.search.cache_hit,
    {
        let q = trim_chars(&str_chars(self.app.search.query.as_str()));
        if q.len() == 0 {
            self.app.search.error = Some("Type a search query".to_string());
            return None;
        }
        self.app.search.clear_status();
        self.app.search.is_loading = true;
        Some(string_from_chars(&q))
    }

    /// Records how the search for `query` ended, and points the result list
    /// at its first row when there are results.
    pub fn finish_search(&mut self, query: String, outcome: SearchOutcome)
        ensures
            final(self).sidebar == old(self).sidebar,
            final(self).queue_view == old(self).queue_view,
            final(self).play == old(self).play,
            final(self).app == (App { search: final(self).app.search, ..old(self).app }),
            final(self).app.search.query == old(self).app.search.query,
            !final(self).app.search.is_loading,
            final(self).app.search.last_query == query,
            match outcome {
                SearchOutcome::CacheHit(r) => final(self).app.search.results@ == r@
                    && final(self).app.search.cache_hit
                    && final(self).app.search.error == old(self).app.search.error
                    && final(self).app.search.status == old(self).app.search.status,
                SearchOutcome::Fetched(r) => final(self).app.search.results@ == r@
                    && !final(self).app.search.cache_hit && final(self).app.search.error is None
                    && final(self).app.search.status is None,
                SearchOutcome::Failed(m) => final(self).app.search.results@.len() == 0
                    && final(self).app.search.error == Some(m)
                    && final(self).app.search.cache_hit == old(self).app.search.cache_hit
                    && final(self).app.search.status == old(self).app.search.status,
            },
            final(self).search_view.item_count == final(self).app.search.results@.len(),
            final(self).search_view.list_state.sel() == if final(self).app.search.results@.len() > 0 {
                Some(0usize)
            } else {
                clamped_selection(old(self).search_view.list_state.sel(), 0)
            },
    {
        match outcome {
            SearchOutcome::CacheHit(results) => {
                self.app.search.results = results;
                self.app.search.cache_hit = true;
            },
            SearchOutcome::Fetched(results) => {
                self.app.search.results = results;
                self.app.search.cache_hit = false;
                self.app.search.error = None;
                self.app.search.status = None;
            },
            SearchOutcome::Failed(message) => {
                self.app.search.results = Vec::new();
                self.app.search.error = Some(message);
            },
        }
        self.app.search.is_loading = false;
        self.app.search.last_query = query;
        self.search_view.set_count(self.app.search.results.len());
        if self.app.search.results.len() > 0 {
            self.search_view.list_state.select(Some(0));
        }
    }

    fn on_select(&mut self, preload_target: usize) -> (fx: Vec<Effect>)
        requires
            session_wf(*old(self)),
        ensures
            session_wf(*final(self)),
            select_post(*old(self), *final(self), fx@, preload_target),
    {
        if self.app.screen == AppScreen::Search {
            if should_execute_search(&self.app.search) {
                let mut fx: Vec<Effect> = Vec::new();
                if let Some(q) = self.begin_search() {
                    fx.push(Effect::RunSearch(q));
                }
                return fx;
            }
            let mut fx: Vec<Effect> = Vec::new();
            if let Some(song) = self.selected_search_song() {
                self.play.history.clear();
                self.play.upcoming.clear();
                self.play.shuffle_pool.clear();
                self.play.source_playlist = usize::MAX;
                self.play.next_linear_index = 0;
                fx.push(Effect::Play(song));
            }
            return fx;
        }
        if self.sidebar.focus == SidebarFocus::Songs {
            match self.selected_sidebar_song() {
                Some((idx, song)) => {
                    return self.start_selected(idx, song, preload_target);
                },
                None => {
                    return Vec::new();
                },
            }
        }
        if let Some(idx) = self.sidebar.selected_playlist() {
            self.app.selected_playlist = idx;
            let song_count = self.app.current_playlist_songs().len();
            self.sidebar.set_song_count(song_count);
        }
        Vec::new()
    }

    fn on_play_pause(&mut self, engine: EngineStatus, preload_target: usize) -> (fx: Vec<Effect>)
        requires
            session_wf(*old(self)),
        ensures
            session_wf(*final(self)),
            play_pause_post(*old(self), *final(self), fx@, engine, preload_target),
    {
        let mut fx: Vec<Effect> = Vec::new();
        if engine.active {
            if engine.paused {
                self.play.clock.resume(engine.now_ms);
                self.app.is_playing = true;
                fx.push(Effect::Resume);
            } else {
                self.play.clock.pause(engine.now_ms);
                self.app.is_playing = false;
                fx.push(Effect::Pause);
            }
            return fx;
        }
        match self.selected_sidebar_song() {
            Some((idx, song)) => self.start_selected(idx, song, preload_target),
            None => fx,
        }
    }
}

impl Session {
    fn on_next(&mut self, preload_target: usize) -> (fx: Vec<Effect>)
        requires
            session_wf(*old(self)),
        ensures
            session_wf(*final(self)),
            next_post(*old(self), *final(self), fx@, preload_target),
    {
        let mut fx: Vec<Effect> = Vec::new();
        if self.app.repeat == RepeatMode::One {
            if let Some(song) = &self.play.current_song {
                let song = song.clone();
                self.sync_sidebar_selection(&song);
                let ghost gs = song;
                fx.push(Effect::Play(song));
                assert(fx@ =~= seq![Effect::Play(gs)]);
            }
            return fx;
        }
        if self.play.upcoming.len() == 0 {
            return fx;
        }
        let ghost up0 = self.play.upcoming@;
        match self.play.upcoming.pop_front() {
            Some(next_song) => {
                if let Some(cur) = &self.play.current_song {
                    let c = cur.clone();
                    self.play.history.push(c);
                }
                self.play.current_song = None;
                let ghost up1 = self.play.upcoming@;
                assert(up1 =~= up0.drop_first());
                assert(up1.take(up1.len() as int) =~= up1);
                if self.app.shuffle || self.play.next_linear_index < usize::MAX {
                    self.play.refill_upcoming(&self.app, 1);
                    proof {
                        let src = self.play.source_playlist;
                        if src < self.app.cached_playlists@.len() && !self.app.shuffle {
                            let songs = self.app.cached_playlists@[src as int].songs@;
                            let r = crate::play_state::linear_refill(songs, old(self).play.next_linear_index as int, 1, self.app.repeat);
                            let r0 = crate::play_state::linear_refill(songs, old(self).play.next_linear_index as int, 0, self.app.repeat);
                            assert(r0.0.len() == 0);
                            assert(r.0.len() <= 1);
                            assert(self.play.upcoming@.take(up1.len() as int) =~= up1);
                        }
                    }
                } else {
                    assert(up1.take(up1.len() as int) =~= up1);
                }
                self.sync_sidebar_selection(&next_song);
                fx.push(Effect::Play(next_song));
                fx.push(Effect::Preload(preload_urls(&self.play.upcoming, preload_target)));
                fx
            },
            None => fx,
        }
    }

    fn on_previous(&mut self, preload_target: usize) -> (fx: Vec<Effect>)
        requires
            session_wf(*old(self)),
        ensures
            session_wf(*final(self)),
            previous_post(*old(self), *final(self), fx@, preload_target),
    {
        let mut fx: Vec<Effect> = Vec::new();
        if self.play.history.len() == 0 {
            return fx;
        }
        match self.play.history.pop() {
            Some(prev) => {
                if let Some(cur) = &self.play.current_song {
                    let c = cur.clone();
                    let ghost l = seq![c] + old(self).play.upcoming@;
                    self.play.upcoming.push_front(c);
                    while self.play.upcoming.len() > PRELOAD_SIZE
                        invariant
                            l.len() > PRELOAD_SIZE ==> self.play.upcoming@.len() >= PRELOAD_SIZE,
                            self.play.upcoming@ == l.take(self.play.upcoming@.len() as int),
                            self.play.upcoming@.len() <= l.len(),
                            l.len() <= PRELOAD_SIZE ==> self.play.upcoming@ == l,
                            self.app == old(self).app,
                            self.sidebar == old(self).sidebar,
                            self.queue_view == old(self).queue_view,
                            self.search_view == old(self).search_view,
                            self.play.shuffle_pool == old(self).play.shuffle_pool,
                            self.play.source_playlist == old(self).play.source_playlist,
                            self.play.next_linear_index == old(self).play.next_linear_index,
                            self.play.history@ == old(self).play.history@.drop_last(),
                        decreases self.play.upcoming@.len(),
                    {
                        self.play.upcoming.pop_back();
                        assert(self.play.upcoming@ =~= l.take(self.play.upcoming@.len() as int));
                    }
                    assert(l.take(l.len() as int) =~= l);
                }
                self.play.current_song = None;
                self.sync_sidebar_selection(&prev);
                fx.push(Effect::Play(prev));
                fx.push(Effect::Preload(preload_urls(&self.play.upcoming, preload_target)));
                fx
            },
            None => fx,
        }
    }

    fn on_toggle_favorite(&mut self) -> (fx: Vec<Effect>)
        requires
            session_wf(*old(self)),
        ensures
            session_wf(*final(self)),
            toggle_favorite_post(*old(self), *final(self), fx@),
    {
        let mut fx: Vec<Effect> = Vec::new();
        let target: Option<String> = if self.app.screen == AppScreen::QueueView {
            match self.queue_view.selected() {
                Some(idx) => if idx < self.app.queue.len() {
                    Some(self.app.queue.items()[idx].id.clone())
                } else {
                    None
                },
                None => None,
            }
        } else if self.app.screen == AppScreen::Search {
            match self.selected_search_song() {
                Some(s) => Some(s.video_id),
                None => None,
            }
        } else {
            match self.selected_sidebar_song() {
                Some((_, s)) => Some(s.video_id),
                None => None,
            }
        };
        match target {
            Some(id) => {
                self.app.toggle_favorite(id.as_str());
                fx.push(Effect::SaveFavorites);
                fx
            },
            None => fx,
        }
    }

    fn on_toggle_shuffle(&mut self, preload_target: usize) -> (fx: Vec<Effect>)
        requires
            session_wf(*old(self)),
        ensures
            session_wf(*final(self)),
            toggle_shuffle_post(*old(self), *final(self), fx@, preload_target),
    {
        let mut fx: Vec<Effect> = Vec::new();
        self.app.toggle_shuffle();
        let current = match &self.play.current_song {
            Some(c) => c.clone(),
            None => {
                return fx;
            },
        };
        let src = self.play.source_playlist;
        if src >= self.app.cached_playlists.len() {
            return fx;
        }
        let songs = crate::playlist::models::clone_songs(&self.app.cached_playlists[src].songs);
        if songs.len() == 0 {
            return fx;
        }
        if self.app.shuffle {
            self.play.upcoming.clear();
            self.play.shuffle_pool = crate::play_state::build_shuffle_pool(&songs, Some(&current), &self.play.upcoming);
            self.play.fill_upcoming_from_pool(&songs, Some(&current), PRELOAD_SIZE, self.app.repeat);
        } else {
            self.play.shuffle_pool.clear();
            self.play.rebuild_linear_upcoming(&songs, &current, self.app.repeat);
        }
        fx.push(Effect::Preload(preload_urls(&self.play.upcoming, preload_target)));
        fx
    }

    fn on_add_to_queue(&mut self) -> (fx: Vec<Effect>)
        requires
            session_wf(*old(self)),
        ensures
            session_wf(*final(self)),
            add_to_queue_post(*old(self), *final(self), fx@),
    {
        let song = if self.app.screen == AppScreen::Search {
            self.selected_search_song()
        } else {
            match self.selected_sidebar_song() {
                Some((_, s)) => Some(s),
                None => None,
            }
        };
        if let Some(song) = song {
            self.app.add_to_queue(&song);
            self.queue_view.set_count(self.app.queue.len());
        }
        Vec::new()
    }

    /// Adds a search result to the selected cached playlist, unless no
    /// playlist is selected or it already holds the song.
    fn add_song_to_selected_playlist(&mut self, song: &Song) -> (fx: Vec<Effect>)
        requires
            session_wf(*old(self)),
        ensures
            session_wf(*final(self)),
            final(self).play == old(self).play,
            final(self).sidebar == old(self).sidebar,
            final(self).queue_view == old(self).queue_view,
            final(self).search_view == old(self).search_view,
            ({
                let sel = old(self).app.selected_playlist;
                let o = *old(self);
                let n = *final(self);
                if sel >= o.app.cached_playlists@.len() {
                    &&& n.app == (App { search: n.app.search, ..o.app })
                    &&& n.app.search == (SearchState { error: n.app.search.error, ..o.app.search })
                    &&& n.app.search.error matches Some(e) && e@ == "Select a playlist to add results"@
                    &&& fx@.len() == 0
                } else if playlist_has_id(o.app.cached_playlists@[sel as int].songs@, song.video_id@) {
                    &&& n.app == (App { search: n.app.search, ..o.app })
                    &&& n.app.search == (SearchState { error: n.app.search.error, ..o.app.search })
                    &&& n.app.search.error matches Some(e) && e@ == "Song already in playlist"@
                    &&& fx@.len() == 0
                } else {
                    &&& n.app == (App { cached_playlists: n.app.cached_playlists, ..o.app })
                    &&& n.app.cached_playlists@.len() == o.app.cached_playlists@.len()
                    &&& forall|k: int|
                        0 <= k < o.app.cached_playlists@.len() && k != sel ==> #[trigger] n.app.cached_playlists@[k]
                            == o.app.cached_playlists@[k]
                    &&& n.app.cached_playlists@[sel as int].name == o.app.cached_playlists@[sel as int].name
                    &&& n.app.cached_playlists@[sel as int].url == o.app.cached_playlists@[sel as int].url
                    &&& n.app.cached_playlists@[sel as int].songs@ == o.app.cached_playlists@[sel as int].songs@.push(*song)
                    &&& fx@ == seq![Effect::SavePlaylist(sel)]
                }
            }),
    {
        let mut fx: Vec<Effect> = Vec::new();
        let sel = self.app.selected_playlist;
        if sel >= self.app.cached_playlists.len() {
            self.app.search.error = Some("Select a playlist to add results".to_string());
            return fx;
        }
        if find_song(&self.app.cached_playlists[sel].songs, &song.video_id).is_some() {
            self.app.search.error = Some("Song already in playlist".to_string());
            return fx;
        }
        let ghost o = *old(self);
        self.app.cached_playlists[sel].songs.push(song.clone());
        proof {
            let src = self.play.source_playlist;
            if src < self.app.cached_playlists@.len() {
                assert forall|k: int| 0 <= k < self.play.shuffle_pool@.len() implies #[trigger] self.play.shuffle_pool@[k]
                    < self.app.cached_playlists@[src as int].songs@.len() by {
                    assert(o.play.shuffle_pool@[k] < o.app.cached_playlists@[src as int].songs@.len());
                }
            }
        }
        fx.push(Effect::SavePlaylist(sel));
        fx
    }

    fn on_add_to_playlist(&mut self) -> (fx: Vec<Effect>)
        requires
            session_wf(*old(self)),
        ensures
            session_wf(*final(self)),
            add_to_playlist_post(*old(self), *final(self), fx@),
    {
        if self.app.screen != AppScreen::Search {
            return Vec::new();
        }
        match self.selected_search_song() {
            Some(song) => {
                let fx = self.add_song_to_selected_playlist(&song);
                let song_count = self.app.current_playlist_songs().len();
                self.sidebar.set_song_count(song_count);
                fx
            },
            None => Vec::new(),
        }
    }

    fn on_queue_edit(&mut self, action: Action) -> (fx: Vec<Effect>)
        requires
            session_wf(*old(self)),
            action == Action::QueueMoveUp || action == Action::QueueMoveDown || action == Action::QueueRemove,
        ensures
            session_wf(*final(self)),
            queue_edit_post(*old(self), *final(self), fx@, action),
    {
        match action {
            Action::QueueMoveUp => {
                if let Some(idx) = self.queue_view.move_selection_up() {
                    self.app.queue.move_up(idx);
                }
            },
            Action::QueueMoveDown => {
                if let Some(idx) = self.queue_view.move_selection_down() {
                    self.app.queue.move_down(idx);
                }
            },
            _ => {
                if let Some(idx) = self.queue_view.remove_selected() {
                    self.app.queue.remove(idx);
                }
            },
        }
        Vec::new()
    }

    fn on_open_search(&mut self) -> (fx: Vec<Effect>)
        ensures
            open_search_post(*old(self), *final(self), fx@),
    {
        self.app.screen = AppScreen::Search;
        self.app.search.clear_status();
        self.search_view.set_count(self.app.search.results.len());
        if self.app.search.results.len() > 0 {
            self.search_view.list_state.select(Some(0));
        }
        Vec::new()
    }

    /// Replaces the query and clears the results and messages.
    fn set_query(&mut self, query: String) -> (fx: Vec<Effect>)
        ensures
            edit_query_post(*old(self), *final(self), fx@, query@),
    {
        self.app.search.query = query;
        self.app.search.results = Vec::new();
        self.app.search.last_query = String::new();
        self.app.search.clear_status();
        self.search_view.set_count(0);
        Vec::new()
    }

    /// Handles one user action: changes the session and returns the outside
    /// work to perform, in order.
    pub fn handle_action(&mut self, action: Action, engine: EngineStatus, preload_target: usize) -> (fx: Vec<Effect>)
        requires
            session_wf(*old(self)),
        ensures
            session_wf(*final(self)),
            handle_action_spec(*old(self), *final(self), action, engine, preload_target, fx@),
    {
        match action {
            Action::NavigateUp => {
                self.navigate(true);
                Vec::new()
            },
            Action::NavigateDown => {
                self.navigate(false);
                Vec::new()
            },
            Action::ToggleFocus => {
                if self.app.screen != AppScreen::Search {
                    self.sidebar.toggle_focus();
                }
                Vec::new()
            },
            Action::Select => self.on_select(preload_target),
            Action::PlayPause => self.on_play_pause(engine, preload_target),
            Action::Next => self.on_next(preload_target),
            Action::Previous => self.on_previous(preload_target),
            Action::ToggleFavorite => self.on_toggle_favorite(),
            Action::ToggleShuffle => self.on_toggle_shuffle(preload_target),
            Action::AddToQueue => self.on_add_to_queue(),
            Action::AddToPlaylist => self.on_add_to_playlist(),
            Action::QueueMoveUp => self.on_queue_edit(action),
            Action::QueueMoveDown => self.on_queue_edit(action),
            Action::QueueRemove => self.on_queue_edit(action),
            Action::Search => self.on_open_search(),
            Action::SearchInput(ch) => {
                let q = string_push(&self.app.search.query, ch);
                self.set_query(q)
            },
            Action::SearchBackspace => {
                let mut q = self.app.search.query.clone();
                pop_char(&mut q);
                self.set_query(q)
            },
            Action::SearchClear => self.set_query(String::new()),
            other => {
                apply_action(&mut self.app, other);
                Vec::new()
            },
        }
    }
}

/// What the end of the playing song does: the next song starts as with
/// "next"; with nothing left to play, playback stops.
pub open spec fn song_finished_post(o: Session, n: Session, fx: Seq<Effect>, target: usize) -> bool {
    if o.app.repeat != RepeatMode::One && o.play.upcoming@.len() == 0 {
        &&& n.app == (App { is_playing: false, ..o.app })
        &&& n.play.current_song is None
        &&& n.play.clock == (PlaybackClock { started_at: None, ..o.play.clock })
        &&& n.play.upcoming == o.play.upcoming
        &&& n.play.history == o.play.history
        &&& n.play.shuffle_pool == o.play.shuffle_pool
        &&& n.play.source_playlist == o.play.source_playlist
        &&& n.play.next_linear_index == o.play.next_linear_index
        &&& n.sidebar == o.sidebar
        &&& n.queue_view == o.queue_view
        &&& n.search_view == o.search_view
        &&& fx == seq![Effect::Stop]
    } else {
        next_post(o, n, fx, target)
    }
}

impl Session {
    /// Handles the end of the playing song (reported by the audio engine
    /// while it is active and not paused).
    pub fn song_finished(&mut self, preload_target: usize) -> (fx: Vec<Effect>)
        requires
            session_wf(*old(self)),
        ensures
            session_wf(*final(self)),
            song_finished_post(*old(self), *final(self), fx@, preload_target),
    {
        if self.app.repeat != RepeatMode::One && self.play.upcoming.len() == 0 {
            self.record_stopped();
            let mut fx: Vec<Effect> = Vec::new();
            fx.push(Effect::Stop);
            assert(fx@ =~= seq![Effect::Stop]);
            return fx;
        }
        self.on_next(preload_target)
    }
}

/// How many search results a lookup asks for.
pub const SEARCH_LIMIT: usize = 10;

/// How long cached search results stay fresh, in seconds.
pub const SEARCH_CACHE_TTL_SECS: u64 = 600;

/// How many upcoming songs are handed to the preloader: the configured
/// count, but never fewer than the songs kept ready.
pub fn preload_target_for(general: &GeneralSettings) -> (r: usize)
    ensures
        r == if general.preload_count as usize > PRELOAD_SIZE {
            general.preload_count as usize
        } else {
            PRELOAD_SIZE
        },
{
    let n = general.preload_count as usize;
    if n > PRELOAD_SIZE {
        n
    } else {
        PRELOAD_SIZE
    }
}

/// "Previous" right after "next" plays again the song that was playing
/// before "next": `o` is the session before "next", `n` after it, `m` the
/// same session once the new song's start was recorded (the history is kept)
/// and `p` after "previous".
pub proof fn law_previous_after_next(
    o: Session,
    n: Session,
    m: Session,
    p: Session,
    fx_next: Seq<Effect>,
    fx_prev: Seq<Effect>,
    target: usize,
)
    requires
        o.app.repeat != RepeatMode::One,
        o.play.upcoming@.len() > 0,
        o.play.current_song is Some,
        next_post(o, n, fx_next, target),
        m.play.history@ == n.play.history@,
        previous_post(m, p, fx_prev, target),
    ensures
        fx_prev.len() > 0,
        fx_prev[0] == Effect::Play(o.play.current_song->0),
        p.play.history@ == o.play.history@,
{
    assert(m.play.history@.len() > 0);
    assert(m.play.history@.drop_last() =~= o.play.history@);
}

/// The favorites after toggling `id`: added when absent, removed when present.
pub open spec fn toggled(favs: Set<Seq<char>>, id: Seq<char>) -> Set<Seq<char>> {
    if favs.contains(id) {
        favs.remove(id)
    } else {
        favs.insert(id)
    }
}

/// Toggling a favorite acts on the row the current screen selects: the
/// selected search result on the search screen, the selected queue item on
/// the queue screen, and the selected sidebar song otherwise. Exactly that
/// id changes membership, and the favorites are saved.
pub proof fn law_toggle_favorite_acts_on_the_selection(o: Session, n: Session, fx: Seq<Effect>)
    requires
        toggle_favorite_post(o, n, fx),
    ensures
        o.app.screen == AppScreen::Search ==> match selected_result(o) {
            Some(s) => n.app.favorites@ == toggled(o.app.favorites@, s.video_id@) && fx == seq![Effect::SaveFavorites],
            None => n.app.favorites == o.app.favorites && fx.len() == 0,
        },
        o.app.screen == AppScreen::QueueView ==> match o.queue_view.list_state.sel() {
            Some(i) => if i < o.app.queue@.items.len() {
                n.app.favorites@ == toggled(o.app.favorites@, o.app.queue@.items[i as int].id@)
                    && fx == seq![Effect::SaveFavorites]
            } else {
                n.app.favorites == o.app.favorites && fx.len() == 0
            },
            None => n.app.favorites == o.app.favorites && fx.len() == 0,
        },
        o.app.screen != AppScreen::Search && o.app.screen != AppScreen::QueueView ==> match selected_song_of(o) {
            Some(s) => n.app.favorites@ == toggled(o.app.favorites@, s.video_id@) && fx == seq![Effect::SaveFavorites],
            None => n.app.favorites == o.app.favorites && fx.len() == 0,
        },
{
}

} // verus!
