use termtube::app::{App, AppScreen, RepeatMode, SearchState};
use termtube::config::playlist::PlaylistEntry;
use termtube::config::settings::Settings;
use termtube::playlist::favorites::Favorites;
use termtube::playlist::models::{Playlist, Song};

fn test_app() -> App {
    App::new(Settings::default(), vec![], Favorites::empty("favorites.json".to_string()))
}

fn song(title: &str, id: &str, duration: Option<u64>, artist: &str) -> Song {
    Song {
        title: title.into(),
        video_id: id.into(),
        duration,
        artist: artist.into(),
        local_path: None,
        download_status: None,
    }
}

#[test]
fn test_initial_state() {
    let app = test_app();
    assert!(app.running);
    assert!(!app.shuffle);
    assert_eq!(app.repeat, RepeatMode::Off);
    assert_eq!(app.volume, 80);
    assert_eq!(app.screen, AppScreen::Main);
}

#[test]
fn test_quit() {
    let mut app = test_app();
    app.quit();
    assert!(!app.running);
}

#[test]
fn test_toggle_shuffle() {
    let mut app = test_app();
    assert!(!app.shuffle);
    app.toggle_shuffle();
    assert!(app.shuffle);
    app.toggle_shuffle();
    assert!(!app.shuffle);
}

#[test]
fn test_cycle_repeat() {
    let mut app = test_app();
    assert_eq!(app.repeat, RepeatMode::Off);
    app.cycle_repeat();
    assert_eq!(app.repeat, RepeatMode::All);
    app.cycle_repeat();
    assert_eq!(app.repeat, RepeatMode::One);
    app.cycle_repeat();
    assert_eq!(app.repeat, RepeatMode::Off);
}

#[test]
fn test_volume_bounds() {
    let mut app = test_app();
    app.volume = 100;
    app.volume_up();
    assert_eq!(app.volume, 100);

    app.volume = 0;
    app.volume_down();
    assert_eq!(app.volume, 0);
}

#[test]
fn test_volume_up_down() {
    let mut app = test_app();
    let initial = app.volume;
    app.volume_up();
    assert_eq!(app.volume, initial + 5);
    app.volume_down();
    assert_eq!(app.volume, initial);
}

#[test]
fn test_current_playlist_songs_empty() {
    let app = test_app();
    assert!(app.current_playlist_songs().is_empty());
}

#[test]
fn test_current_playlist_songs_with_data() {
    let mut app = test_app();
    app.cached_playlists.push(Playlist {
        name: "test".into(),
        url: "https://example.com".into(),
        songs: vec![song("Song 1", "vid1", Some(120), "Artist")],
    });
    app.selected_playlist = 0;
    assert_eq!(app.current_playlist_songs().len(), 1);
    assert_eq!(app.current_playlist_songs()[0].title, "Song 1");
}

#[test]
fn test_add_to_queue() {
    let mut app = test_app();
    let s = song("Test Song", "abc123", Some(180), "Test");
    app.add_to_queue(&s);
    assert_eq!(app.queue.len(), 1);
    assert_eq!(app.queue_titles(), vec!["Test Song"]);
}

#[test]
fn test_toggle_favorite() {
    let mut app = test_app();
    let is_fav = app.toggle_favorite("vid1");
    assert!(is_fav);
    assert!(app.favorites.is_favorite("vid1"));

    let is_fav = app.toggle_favorite("vid1");
    assert!(!is_fav);
    assert!(!app.favorites.is_favorite("vid1"));
}

#[test]
fn test_favorite_songs() {
    let mut app = test_app();
    app.cached_playlists.push(Playlist {
        name: "test".into(),
        url: "https://example.com".into(),
        songs: vec![song("Song A", "a", Some(100), ""), song("Song B", "b", Some(200), "")],
    });
    app.toggle_favorite("a");
    let favs = app.favorite_songs();
    assert_eq!(favs.len(), 1);
    assert_eq!(favs[0].video_id, "a");
}

#[test]
fn test_queue_current_index_none_initially() {
    let app = test_app();
    assert_eq!(app.queue_current_index(), None);
}

#[test]
fn test_initial_state_has_queue_and_favorites() {
    let app = test_app();
    assert!(app.queue.is_empty());
    assert_eq!(app.favorites.count(), 0);
    assert!(app.cached_playlists.is_empty());
    assert!(!app.is_playing);
}

#[test]
fn test_search_screen_switch_and_query_input() {
    let settings = Settings::default();
    let playlists = vec![PlaylistEntry {
        name: "Test".to_string(),
        url: "https://yt.com/playlist?list=123".to_string(),
    }];
    let mut app = App::new(settings, playlists, Favorites::empty("favorites.json".to_string()));
    assert_eq!(app.screen, AppScreen::Main);
    app.screen = AppScreen::Search;
    app.search.query = "lofi".to_string();
    assert_eq!(app.screen, AppScreen::Search);
    assert_eq!(app.search.query, "lofi");
    app.search.query.clear();
    assert_eq!(app.search.query, "");
}

#[test]
fn test_search_state_clear_status() {
    let mut state = SearchState {
        query: "test".to_string(),
        results: vec![],
        is_loading: true,
        error: Some("err".to_string()),
        status: Some("status".to_string()),
        cache_hit: true,
        last_query: "test".to_string(),
    };
    state.clear_status();
    assert!(!state.is_loading);
    assert!(state.error.is_none());
    assert!(state.status.is_none());
    assert!(!state.cache_hit);
}

#[test]
fn add_to_queue_builds_the_watch_url() {
    let mut app = test_app();
    app.add_to_queue(&song("T", "xyz", None, ""));
    let item = &app.queue.items()[0];
    assert_eq!(item.id, "xyz");
    assert_eq!(item.url, "https://www.youtube.com/watch?v=xyz");
    assert_eq!(item.duration, None);
}

#[test]
fn favorite_songs_follow_playlist_order() {
    let mut app = test_app();
    app.cached_playlists.push(Playlist {
        name: "one".into(),
        url: "u1".into(),
        songs: vec![song("A", "a", None, ""), song("B", "b", None, "")],
    });
    app.cached_playlists.push(Playlist {
        name: "two".into(),
        url: "u2".into(),
        songs: vec![song("C", "c", None, ""), song("A again", "a", None, "")],
    });
    app.toggle_favorite("a");
    app.toggle_favorite("c");
    let titles: Vec<&str> = app.favorite_songs().iter().map(|s| s.title.as_str()).collect();
    assert_eq!(titles, vec!["A", "C", "A again"]);
}

#[test]
fn search_state_new_is_empty() {
    let s = SearchState::new();
    assert_eq!(s.query, "");
    assert!(s.results.is_empty());
    assert!(!s.is_loading);
    assert!(s.error.is_none());
    assert!(s.status.is_none());
    assert!(!s.cache_hit);
    assert_eq!(s.last_query, "");
}

#[test]
fn record_playlist_save_outcomes() {
    let mut s = SearchState::new();
    s.record_playlist_save(None);
    assert_eq!(s.status.as_deref(), Some("Added to playlist"));
    assert!(s.error.is_none());
    s.record_playlist_save(Some("disk full".to_string()));
    assert_eq!(s.error.as_deref(), Some("Failed to save playlist: disk full"));
}
