use termtube::app::{App, AppScreen, RepeatMode};
use termtube::config::playlist::PlaylistEntry;
use termtube::config::settings::{GeneralSettings, Settings};
use termtube::input::handler::Action;
use termtube::play_state::{PlaybackClock, PRELOAD_SIZE};
use termtube::playlist::favorites::Favorites;
use termtube::playlist::models::{Playlist, Song};
use termtube::session::{
    preload_target_for, should_execute_search, Effect, EngineStatus, SearchOutcome, Session,
};
use termtube::ui::playlist_view::SidebarFocus;

fn song(id: &str) -> Song {
    Song {
        title: format!("Song {id}"),
        video_id: id.to_string(),
        duration: Some(100),
        artist: String::new(),
        local_path: None,
        download_status: None,
    }
}

fn idle() -> EngineStatus {
    EngineStatus { active: false, paused: false, now_ms: 0 }
}

fn session_with(n: usize) -> Session {
    let playlists = vec![PlaylistEntry { name: "mix".into(), url: "https://youtube.com/p".into() }];
    let mut app = App::new(Settings::default(), playlists, Favorites::empty("f.json".into()));
    app.cached_playlists.push(Playlist {
        name: "mix".into(),
        url: "https://youtube.com/p".into(),
        songs: (0..n).map(|i| song(&format!("s{i}"))).collect(),
    });
    Session::new(app)
}

fn played(fx: &[Effect]) -> Option<String> {
    match fx.first() {
        Some(Effect::Play(s)) => Some(s.video_id.clone()),
        _ => None,
    }
}

fn start_first_song(s: &mut Session) {
    s.handle_action(Action::Select, idle(), 5);
    s.handle_action(Action::ToggleFocus, idle(), 5);
    assert_eq!(s.sidebar.focus, SidebarFocus::Songs);
    let fx = s.handle_action(Action::Select, idle(), 5);
    assert_eq!(played(&fx).as_deref(), Some("s0"));
    let song = s.app.cached_playlists[0].songs[0].clone();
    s.record_play_result(song, true, 1000);
}

#[test]
fn selecting_a_song_plays_it_and_preloads_the_next() {
    let mut s = session_with(8);
    s.handle_action(Action::Select, idle(), 5);
    s.handle_action(Action::ToggleFocus, idle(), 5);
    let fx = s.handle_action(Action::Select, idle(), 3);
    assert_eq!(fx.len(), 2);
    assert_eq!(played(&fx).as_deref(), Some("s0"));
    match &fx[1] {
        Effect::Preload(urls) => {
            assert_eq!(urls.len(), 3);
            assert_eq!(urls[0], "https://www.youtube.com/watch?v=s1");
        }
        other => panic!("unexpected effect {other:?}"),
    }
    let ids: Vec<&str> = s.play.upcoming.iter().map(|x| x.video_id.as_str()).collect();
    assert_eq!(ids, vec!["s1", "s2", "s3", "s4", "s5"]);
    assert_eq!(s.play.next_linear_index, 1 + PRELOAD_SIZE);
}

#[test]
fn next_then_previous_returns_to_the_song() {
    let mut s = session_with(8);
    start_first_song(&mut s);
    let fx = s.handle_action(Action::Next, idle(), 5);
    assert_eq!(played(&fx).as_deref(), Some("s1"));
    let ids: Vec<&str> = s.play.upcoming.iter().map(|x| x.video_id.as_str()).collect();
    assert_eq!(ids, vec!["s2", "s3", "s4", "s5", "s6"]);
    assert_eq!(s.sidebar.selected_song(), Some(1));
    s.record_play_result(song("s1"), true, 2000);
    let fx = s.handle_action(Action::Previous, idle(), 5);
    assert_eq!(played(&fx).as_deref(), Some("s0"));
    let ids: Vec<&str> = s.play.upcoming.iter().map(|x| x.video_id.as_str()).collect();
    assert_eq!(ids, vec!["s1", "s2", "s3", "s4", "s5"]);
    assert!(s.play.history.is_empty());
}

#[test]
fn previous_without_history_does_nothing() {
    let mut s = session_with(3);
    start_first_song(&mut s);
    let fx = s.handle_action(Action::Previous, idle(), 5);
    assert!(fx.is_empty());
}

#[test]
fn repeat_one_replays_the_current_song() {
    let mut s = session_with(3);
    start_first_song(&mut s);
    s.handle_action(Action::CycleRepeat, idle(), 5);
    s.handle_action(Action::CycleRepeat, idle(), 5);
    assert_eq!(s.app.repeat, RepeatMode::One);
    let fx = s.handle_action(Action::Next, idle(), 5);
    assert_eq!(played(&fx).as_deref(), Some("s0"));
    assert_eq!(fx.len(), 1);
}

#[test]
fn the_end_of_the_last_song_stops() {
    let mut s = session_with(1);
    start_first_song(&mut s);
    assert!(s.play.upcoming.is_empty());
    let fx = s.song_finished(5);
    assert!(matches!(fx.as_slice(), [Effect::Stop]));
    assert!(!s.app.is_playing);
    assert!(s.play.current_song.is_none());
}

#[test]
fn the_end_of_a_song_moves_on() {
    let mut s = session_with(3);
    start_first_song(&mut s);
    let fx = s.song_finished(5);
    assert_eq!(played(&fx).as_deref(), Some("s1"));
    assert_eq!(s.play.history.len(), 1);
}

#[test]
fn play_pause_tracks_the_clock() {
    let mut s = session_with(3);
    start_first_song(&mut s);
    assert_eq!(s.play.clock, PlaybackClock { started_at: Some(1000), paused_ms: 0, pause_began: None });
    let fx = s.handle_action(Action::PlayPause, EngineStatus { active: true, paused: false, now_ms: 5000 }, 5);
    assert!(matches!(fx.as_slice(), [Effect::Pause]));
    assert!(!s.app.is_playing);
    assert_eq!(s.play.clock.elapsed_secs(9000), 4);
    let fx = s.handle_action(Action::PlayPause, EngineStatus { active: true, paused: true, now_ms: 9000 }, 5);
    assert!(matches!(fx.as_slice(), [Effect::Resume]));
    assert!(s.app.is_playing);
    assert_eq!(s.play.clock.paused_ms, 4000);
    assert_eq!(s.play.clock.elapsed_secs(12000), 7);
}

#[test]
fn shuffle_draws_upcoming_songs_from_the_playlist() {
    let mut s = session_with(10);
    start_first_song(&mut s);
    let fx = s.handle_action(Action::ToggleShuffle, idle(), 5);
    assert!(s.app.shuffle);
    assert!(matches!(fx.as_slice(), [Effect::Preload(_)]));
    assert_eq!(s.play.upcoming.len(), PRELOAD_SIZE);
    for up in s.play.upcoming.iter() {
        assert_ne!(up.video_id, "s0");
    }
    s.handle_action(Action::ToggleShuffle, idle(), 5);
    assert!(!s.app.shuffle);
    let ids: Vec<&str> = s.play.upcoming.iter().map(|x| x.video_id.as_str()).collect();
    assert_eq!(ids, vec!["s1", "s2", "s3", "s4", "s5"]);
}

#[test]
fn favorites_and_queue_from_the_sidebar() {
    let mut s = session_with(3);
    s.handle_action(Action::Select, idle(), 5);
    s.handle_action(Action::ToggleFocus, idle(), 5);
    s.handle_action(Action::NavigateDown, idle(), 5);
    let fx = s.handle_action(Action::ToggleFavorite, idle(), 5);
    assert!(matches!(fx.as_slice(), [Effect::SaveFavorites]));
    assert!(s.app.favorites.is_favorite("s1"));
    s.handle_action(Action::AddToQueue, idle(), 5);
    assert_eq!(s.app.queue.len(), 1);
    assert_eq!(s.queue_view.item_count, 1);
    assert_eq!(s.app.queue.items()[0].id, "s1");
}

#[test]
fn search_flow() {
    let mut s = session_with(2);
    s.handle_action(Action::Search, idle(), 5);
    assert_eq!(s.app.screen, AppScreen::Search);
    let fx = s.handle_action(Action::Select, idle(), 5);
    assert!(fx.is_empty());
    for c in "  lofi ".chars() {
        s.handle_action(Action::SearchInput(c), idle(), 5);
    }
    s.handle_action(Action::SearchInput('x'), idle(), 5);
    s.handle_action(Action::SearchBackspace, idle(), 5);
    assert_eq!(s.app.search.query, "  lofi ");
    assert!(should_execute_search(&s.app.search));
    let fx = s.handle_action(Action::Select, idle(), 5);
    match fx.as_slice() {
        [Effect::RunSearch(q)] => assert_eq!(q, "lofi"),
        other => panic!("unexpected effects {other:?}"),
    }
    assert!(s.app.search.is_loading);
    s.finish_search("lofi".to_string(), SearchOutcome::Fetched(vec![song("r1"), song("r2")]));
    assert!(!s.app.search.is_loading);
    assert_eq!(s.app.search.last_query, "lofi");
    assert_eq!(s.search_view.selected(), Some(0));
    assert!(!should_execute_search(&s.app.search));
    let fx = s.handle_action(Action::Select, idle(), 5);
    assert_eq!(played(&fx).as_deref(), Some("r1"));
    assert_eq!(s.play.source_playlist, usize::MAX);
    let fx = s.handle_action(Action::AddToPlaylist, idle(), 5);
    assert!(matches!(fx.as_slice(), [Effect::SavePlaylist(0)]));
    assert_eq!(s.app.cached_playlists[0].songs.len(), 3);
    let fx = s.handle_action(Action::AddToPlaylist, idle(), 5);
    assert!(fx.is_empty());
    assert_eq!(s.app.search.error.as_deref(), Some("Song already in playlist"));
    s.handle_action(Action::SearchClear, idle(), 5);
    assert_eq!(s.app.search.query, "");
    assert!(s.app.search.results.is_empty());
}

#[test]
fn failed_search_and_empty_query() {
    let mut s = session_with(1);
    s.app.screen = AppScreen::Search;
    s.app.search.query = "   ".to_string();
    assert_eq!(s.begin_search(), None);
    assert_eq!(s.app.search.error.as_deref(), Some("Type a search query"));
    s.finish_search("q".to_string(), SearchOutcome::Failed("Search failed: boom".to_string()));
    assert!(s.app.search.results.is_empty());
    assert_eq!(s.app.search.error.as_deref(), Some("Search failed: boom"));
    s.finish_search("q".to_string(), SearchOutcome::CacheHit(vec![song("c")]));
    assert!(s.app.search.cache_hit);
}

#[test]
fn queue_edits_follow_the_selection() {
    let mut s = session_with(3);
    for id in ["a", "b", "c"] {
        s.app.add_to_queue(&song(id));
    }
    s.queue_view.set_count(3);
    s.app.screen = AppScreen::QueueView;
    s.handle_action(Action::NavigateDown, idle(), 5);
    s.handle_action(Action::QueueMoveUp, idle(), 5);
    let ids: Vec<&str> = s.app.queue.items().iter().map(|x| x.id.as_str()).collect();
    assert_eq!(ids, vec!["b", "a", "c"]);
    assert_eq!(s.queue_view.selected(), Some(0));
    s.handle_action(Action::QueueRemove, idle(), 5);
    let ids: Vec<&str> = s.app.queue.items().iter().map(|x| x.id.as_str()).collect();
    assert_eq!(ids, vec!["a", "c"]);
}

#[test]
fn preload_target_is_at_least_the_window() {
    let mut g = GeneralSettings::default();
    g.preload_count = 2;
    assert_eq!(preload_target_for(&g), PRELOAD_SIZE);
    g.preload_count = 9;
    assert_eq!(preload_target_for(&g), 9);
}

#[test]
fn paused_time_does_not_advance() {
    let clock = PlaybackClock { started_at: Some(0), paused_ms: 1000, pause_began: Some(5000) };
    assert_eq!(clock.elapsed_secs(6000), 4);
    assert_eq!(clock.elapsed_secs(60000), 4);
}

#[test]
fn shuffle_with_repeat_all_keeps_playing() {
    let mut s = session_with(3);
    s.handle_action(Action::ToggleShuffle, idle(), 5);
    s.handle_action(Action::CycleRepeat, idle(), 5);
    assert!(s.app.shuffle);
    assert_eq!(s.app.repeat, RepeatMode::All);
    start_first_song(&mut s);
    for _ in 0..10 {
        let fx = s.handle_action(Action::Next, idle(), 5);
        let id = played(&fx).expect("a song plays next");
        s.record_play_result(song(&id), true, 0);
        assert!(!s.play.upcoming.is_empty());
    }
}

#[test]
fn next_in_order_tops_up_the_window() {
    let mut s = session_with(7);
    start_first_song(&mut s);
    for expected in ["s1", "s2"] {
        let fx = s.handle_action(Action::Next, idle(), 5);
        assert_eq!(played(&fx).as_deref(), Some(expected));
        s.record_play_result(song(expected), true, 0);
    }
    let ids: Vec<&str> = s.play.upcoming.iter().map(|x| x.video_id.as_str()).collect();
    assert_eq!(ids, vec!["s3", "s4", "s5", "s6"]);
}
