use std::hash::BuildHasher;
use termtube::search::{cache_key, SearchCache};
use termtube::sync::fetcher::{
    entry_artist, normalize_url, output_records, playlist_fetch_args, search_args, song_from_record,
};

#[test]
fn test_search_cache_key_uniqueness() {
    let k1 = cache_key("lofi beats");
    let k2 = cache_key("LOFI BEATS");
    let k3 = cache_key("lofi  beats");
    let k4 = cache_key("different query");
    assert_eq!(k1, k2);
    assert_eq!(k1, k3);
    assert_ne!(k1, k4);
}

#[test]
fn cache_key_shape() {
    let h = hash_text("lofi beats");
    assert_eq!(cache_key("  lofi beats "), format!("lofi_beats-{h:016x}"));
    let h2 = hash_text("!!!");
    assert_eq!(cache_key("!!!"), format!("query-{h2:016x}"));
    let long = "a".repeat(60);
    let key = cache_key(&long);
    assert!(key.starts_with(&format!("{}-", "a".repeat(40))));
    assert_eq!(cache_key("a-b_c"), format!("a_b_c-{:016x}", hash_text("a-b_c")));
}

#[test]
fn cache_paths_and_freshness() {
    let cache = SearchCache::new("/tmp/cachebase");
    assert_eq!(cache.cache_dir(), "/tmp/cachebase/search");
    let path = cache.cache_path("lofi");
    assert_eq!(path, format!("/tmp/cachebase/search/{}.json", cache_key("lofi")));
    assert!(SearchCache::entry_is_fresh("lofi", 100, "lofi", 150, 600));
    assert!(!SearchCache::entry_is_fresh("lofi", 100, "lofi", 800, 600));
    assert!(!SearchCache::entry_is_fresh("lofi", 100, "other", 150, 600));
    assert!(!SearchCache::entry_is_fresh("lofi", 100, "lofi", 100, 0));
    assert!(SearchCache::entry_is_fresh("lofi", 200, "lofi", 100, 1));
}

#[test]
fn urls_are_normalized() {
    assert_eq!(
        normalize_url("https://music.youtube.com/playlist?list=PL1"),
        "https://www.youtube.com/playlist?list=PL1"
    );
    assert_eq!(normalize_url("https://youtube.com/x"), "https://youtube.com/x");
}

#[test]
fn output_records_skip_blank_lines() {
    let out = "\n{\"id\": \"a1\", \"title\": \"Song\"}\n\n  {\"id\": \"b2\"}  \r\n";
    let records = output_records(out);
    assert_eq!(records, vec!["{\"id\": \"a1\", \"title\": \"Song\"}", "{\"id\": \"b2\"}"]);
    assert!(output_records("").is_empty());
}

#[test]
fn records_become_songs() {
    let s = song_from_record(
        "dQw4w9WgXcQ".to_string(),
        Some("Never Gonna Give You Up".to_string()),
        Some(212),
        Some("Rick Astley".to_string()),
        None,
    );
    assert_eq!(s.video_id, "dQw4w9WgXcQ");
    assert_eq!(s.title, "Never Gonna Give You Up");
    assert_eq!(s.duration, Some(212));
    assert_eq!(s.artist, "Rick Astley");
    let s = song_from_record("x1".to_string(), None, None, None, Some("Chan".to_string()));
    assert_eq!(s.title, "Unknown");
    assert_eq!(s.artist, "Chan");
    assert_eq!(entry_artist(&None, &None), "");
    assert_eq!(entry_artist(&Some("U".into()), &Some("C".into())), "U");
}

#[test]
fn fetch_arguments() {
    assert_eq!(
        playlist_fetch_args("https://music.youtube.com/playlist?list=P", None),
        vec![
            "--flat-playlist",
            "--dump-json",
            "--no-warnings",
            "--ignore-errors",
            "https://www.youtube.com/playlist?list=P"
        ]
    );
    assert_eq!(
        search_args("lofi beats", Some("/c.txt"), 10),
        vec![
            "--flat-playlist",
            "--dump-json",
            "--no-warnings",
            "--ignore-errors",
            "--cookies",
            "/c.txt",
            "ytsearch10:lofi beats"
        ]
    );
}

/// The hash a fresh `DefaultHasher` gives to a string.
fn hash_text(s: &str) -> u64 {
    std::hash::BuildHasherDefault::<std::collections::hash_map::DefaultHasher>::default().hash_one(s)
}
