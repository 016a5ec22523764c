use termtube::config::playlist::PlaylistEntry;
use termtube::playlist::favorites::Favorites;
use termtube::playlist::manager::PlaylistManager;
use termtube::playlist::models::{DownloadStatus, Playlist, PlaylistIndex, Song};

fn song(title: &str, id: &str, duration: Option<u64>) -> Song {
    Song {
        title: title.into(),
        video_id: id.into(),
        duration,
        artist: String::new(),
        local_path: None,
        download_status: None,
    }
}

#[test]
fn test_song_url() {
    let song = Song {
        title: "Test".into(),
        video_id: "dQw4w9WgXcQ".into(),
        duration: Some(212),
        artist: "Rick Astley".into(),
        local_path: None,
        download_status: None,
    };
    assert_eq!(song.url(), "https://www.youtube.com/watch?v=dQw4w9WgXcQ");
}

#[test]
fn test_duration_display() {
    let song = Song {
        title: "T".into(),
        video_id: "x".into(),
        duration: Some(185),
        artist: String::new(),
        local_path: None,
        download_status: None,
    };
    assert_eq!(song.duration_display(), "03:05");
}

#[test]
fn test_duration_display_none() {
    let song = Song {
        title: "T".into(),
        video_id: "x".into(),
        duration: None,
        artist: String::new(),
        local_path: None,
        download_status: None,
    };
    assert_eq!(song.duration_display(), "--:--");
}

#[test]
fn test_playlist_index() {
    let playlists = vec![
        Playlist {
            name: "lofi".into(),
            url: "https://www.youtube.com/playlist?list=PL1".into(),
            songs: vec![
                Song {
                    title: "a".into(),
                    video_id: "1".into(),
                    duration: Some(60),
                    artist: String::new(),
                    local_path: None,
                    download_status: None,
                },
                Song {
                    title: "b".into(),
                    video_id: "2".into(),
                    duration: Some(120),
                    artist: String::new(),
                    local_path: None,
                    download_status: None,
                },
            ],
        },
        Playlist {
            name: "empty".into(),
            url: "https://www.youtube.com/playlist?list=PL2".into(),
            songs: vec![],
        },
    ];
    let index = PlaylistIndex::from_playlists(&playlists);
    assert_eq!(index.entries.len(), 2);
    assert_eq!(index.entries[0].song_count, 2);
    assert_eq!(index.entries[1].song_count, 0);
}

#[test]
fn test_toggle_add_remove() {
    let mut favs = Favorites::empty("favorites.json".to_string());

    assert!(!favs.is_favorite("abc"));
    assert_eq!(favs.count(), 0);

    let is_fav = favs.toggle("abc");
    assert!(is_fav);
    assert!(favs.is_favorite("abc"));
    assert_eq!(favs.count(), 1);

    let is_fav = favs.toggle("abc");
    assert!(!is_fav);
    assert!(!favs.is_favorite("abc"));
    assert_eq!(favs.count(), 0);
}

#[test]
fn favorites_from_list_drops_repeats() {
    let favs = Favorites::from_list(
        "f.json".to_string(),
        vec!["a".to_string(), "b".to_string(), "a".to_string()],
    );
    assert_eq!(favs.count(), 2);
    assert!(favs.is_favorite("a"));
    assert!(favs.is_favorite("b"));
    assert_eq!(favs.path_str(), "f.json");
    let mut all: Vec<String> = favs.all().to_vec();
    all.sort();
    assert_eq!(all, vec!["a".to_string(), "b".to_string()]);
}

#[test]
fn favorites_toggle_twice_restores() {
    let mut favs = Favorites::from_list("f.json".to_string(), vec!["x".to_string()]);
    favs.toggle("y");
    favs.toggle("y");
    assert_eq!(favs.count(), 1);
    assert!(favs.is_favorite("x"));
    assert!(!favs.is_favorite("y"));
}

#[test]
fn song_titles_and_local_files() {
    let mut s = song("Tune", "t", None);
    assert_eq!(s.display_title(), "Tune");
    assert!(!s.is_local());
    s.download_status = Some(DownloadStatus::Downloading);
    assert_eq!(s.display_title(), "dwn>_ Tune");
    s.local_path = Some("/music/tune.opus".to_string());
    assert_eq!(s.display_title(), "dwn>_ Tune (local)");
    assert!(s.is_local());
    s.validate_local_path(true);
    assert_eq!(s.local_path.as_deref(), Some("/music/tune.opus"));
    s.validate_local_path(false);
    assert_eq!(s.local_path, None);
    s.local_path = Some(String::new());
    assert!(!s.is_local());
}

#[test]
fn manager_forgets_missing_local_files() {
    let manager = PlaylistManager::new("/base");
    let mut pl = Playlist {
        name: "p".into(),
        url: "u".into(),
        songs: vec![song("a", "1", None), song("b", "2", None), song("c", "3", None)],
    };
    pl.songs[0].local_path = Some("/x/a".into());
    pl.songs[2].local_path = Some("/x/c".into());
    let changed = manager.validate_playlist_local_paths(&mut pl, &[true, false, false]);
    assert!(changed);
    assert_eq!(pl.songs[0].local_path.as_deref(), Some("/x/a"));
    assert_eq!(pl.songs[2].local_path, None);
    let changed = manager.validate_playlist_local_paths(&mut pl, &[true, false, false]);
    assert!(!changed);
}

#[test]
fn manager_paths() {
    let manager = PlaylistManager::new("/base");
    assert_eq!(manager.playlists_dir(), "/base/playlists");
    assert_eq!(manager.index_path(), "/base/playlists.json");
    assert_eq!(manager.playlist_cache_path("lofi"), "/base/playlists/lofi.json");
}

#[test]
fn manager_collects_loaded_and_synced_playlists() {
    let manager = PlaylistManager::new("/base");
    let p = |n: &str| Playlist { name: n.into(), url: "u".into(), songs: vec![] };
    let loaded = manager.load_all_cached(vec![Some(p("a")), None, Some(p("c"))]);
    let names: Vec<&str> = loaded.iter().map(|x| x.name.as_str()).collect();
    assert_eq!(names, vec!["a", "c"]);

    let synced = PlaylistManager::synced_playlists(vec![
        (Some(p("fresh")), None),
        (None, Some(p("cached"))),
        (None, None),
        (Some(p("new")), Some(p("old"))),
    ]);
    let names: Vec<&str> = synced.iter().map(|x| x.name.as_str()).collect();
    assert_eq!(names, vec!["fresh", "cached", "new"]);

    let entries = vec![PlaylistEntry { name: "a".into(), url: "u".into() }];
    assert!(PlaylistManager::cache_is_complete(&entries, &loaded[..1]));
    assert!(!PlaylistManager::cache_is_complete(&entries, &loaded));
}

#[test]
fn favorites_file_content() {
    let f = Favorites::load("f.json".to_string(), None).unwrap();
    assert_eq!(f.count(), 0);
    let f = Favorites::load("f.json".to_string(), Some("  \n".to_string())).unwrap();
    assert_eq!(f.count(), 0);
    let f = Favorites::load("f.json".to_string(), Some(" [\"a\", \"b\", \"a\"] \n".to_string())).unwrap();
    assert_eq!(f.count(), 2);
    assert!(f.is_favorite("a") && f.is_favorite("b"));
    assert!(matches!(
        Favorites::load("f.json".to_string(), Some("{not json".to_string())),
        Err(termtube::playlist::favorites::FavoritesError::Json(_))
    ));
    let text = f.saved_content().unwrap();
    let back = Favorites::load("f.json".to_string(), Some(text)).unwrap();
    assert_eq!(back.count(), 2);
    assert!(back.is_favorite("a") && back.is_favorite("b"));
}

#[test]
fn favorites_path_ends_in_the_termtube_dir() {
    let p = termtube::app::favorites_path();
    assert!(p.ends_with("/.termtube/favorites.json"));
}

#[test]
fn test_save_and_load() {
    let tmp = tempfile::TempDir::new().unwrap();
    let path = tmp.path().join("favorites.json").display().to_string();

    let saved = {
        let mut favs = Favorites::load(path.clone(), None).unwrap();
        favs.toggle("id1");
        favs.toggle("id2");
        favs.toggle("id3");
        favs.saved_content().unwrap()
    };

    let favs = Favorites::load(path, Some(saved)).unwrap();
    assert_eq!(favs.count(), 3);
    assert!(favs.is_favorite("id1"));
    assert!(favs.is_favorite("id2"));
    assert!(favs.is_favorite("id3"));
}

#[test]
fn test_load_nonexistent_starts_empty() {
    let tmp = tempfile::TempDir::new().unwrap();
    let path = tmp.path().join("does_not_exist.json");
    assert!(!path.exists());
    let favs = Favorites::load(path.display().to_string(), None).unwrap();
    assert_eq!(favs.count(), 0);
}
