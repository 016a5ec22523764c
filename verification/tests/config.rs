use termtube::config::cookies::{validate_cookies_content, CookiesError};
use termtube::config::playlist::{parse_playlist_content, PlaylistConfigError, PlaylistEntry};
use termtube::config::settings::Settings;

#[test]
fn test_valid_netscape_header() {
    let content = "# Netscape HTTP Cookie File\n\
        .youtube.com\tTRUE\t/\tTRUE\t0\tSID\tabc123\n";
    assert!(validate_cookies_content(content).is_ok());
}

#[test]
fn test_valid_cookie_lines_no_header() {
    let content = ".youtube.com\tTRUE\t/\tTRUE\t0\tSID\tabc123\n";
    assert!(validate_cookies_content(content).is_ok());
}

#[test]
fn test_empty_file() {
    let content = "";
    assert!(validate_cookies_content(content).is_err());
}

#[test]
fn test_invalid_format() {
    let content = "this is not a cookies file\njust some random text\n";
    assert!(validate_cookies_content(content).is_err());
}

#[test]
fn test_only_comments() {
    let content = "# Just a comment\n# Another comment\n";
    assert!(validate_cookies_content(content).is_err());
}

#[test]
fn cookies_error_is_invalid_format() {
    let result = validate_cookies_content("random\n");
    assert!(matches!(result, Err(CookiesError::InvalidFormat)));
}

#[test]
fn cookies_http_only_header_is_accepted() {
    assert!(validate_cookies_content("# HTTP Cookie File\n").is_ok());
}

#[test]
fn test_parse_valid_playlist() {
    let content = "\
lofi-beats|https://www.youtube.com/playlist?list=PLxxxxxx
synthwave|https://music.youtube.com/playlist?list=PLyyyyyy
";
    let entries = parse_playlist_content(content).unwrap();
    assert_eq!(entries.len(), 2);
    assert_eq!(entries[0].name, "lofi-beats");
    assert_eq!(entries[0].url, "https://www.youtube.com/playlist?list=PLxxxxxx");
    assert_eq!(entries[1].name, "synthwave");
    assert_eq!(entries[1].url, "https://music.youtube.com/playlist?list=PLyyyyyy");
}

#[test]
fn test_skip_comments_and_blanks() {
    let content = "\
# This is a comment
lofi-beats|https://www.youtube.com/playlist?list=PLxxxxxx

# Another comment

synthwave|https://music.youtube.com/playlist?list=PLyyyyyy
";
    let entries = parse_playlist_content(content).unwrap();
    assert_eq!(entries.len(), 2);
}

#[test]
fn test_invalid_format_no_pipe() {
    let content = "lofi-beats https://www.youtube.com/playlist?list=PLxxxxxx";
    let result = parse_playlist_content(content);
    assert!(result.is_err());
    assert!(matches!(result.unwrap_err(), PlaylistConfigError::InvalidFormat { .. }));
}

#[test]
fn test_empty_name() {
    let content = "|https://www.youtube.com/playlist?list=PLxxxxxx";
    let result = parse_playlist_content(content);
    assert!(result.is_err());
    assert!(matches!(result.unwrap_err(), PlaylistConfigError::EmptyName(_)));
}

#[test]
fn test_invalid_url() {
    let content = "lofi|https://example.com/not-youtube";
    let result = parse_playlist_content(content);
    assert!(result.is_err());
    assert!(matches!(result.unwrap_err(), PlaylistConfigError::InvalidUrl { .. }));
}

#[test]
fn test_display_format() {
    let entry = PlaylistEntry {
        name: "lofi".to_string(),
        url: "https://www.youtube.com/playlist?list=PL123".to_string(),
    };
    assert_eq!(entry.to_string(), "lofi|https://www.youtube.com/playlist?list=PL123");
}

#[test]
fn test_empty_content() {
    let entries = parse_playlist_content("").unwrap();
    assert!(entries.is_empty());
}

#[test]
fn test_whitespace_trimming() {
    let content = "  lofi-beats  |  https://www.youtube.com/playlist?list=PLxxxxxx  ";
    let entries = parse_playlist_content(content).unwrap();
    assert_eq!(entries[0].name, "lofi-beats");
    assert_eq!(entries[0].url, "https://www.youtube.com/playlist?list=PLxxxxxx");
}

#[test]
fn playlist_error_line_numbers_count_from_one() {
    let content = "# header\nok|https://youtube.com/x\nbroken line\n";
    match parse_playlist_content(content) {
        Err(PlaylistConfigError::InvalidFormat { line, content }) => {
            assert_eq!(line, 3);
            assert_eq!(content, "broken line");
        }
        other => panic!("unexpected result: {other:?}"),
    }
    match parse_playlist_content("a|https://example.com") {
        Err(PlaylistConfigError::InvalidUrl { line, url }) => {
            assert_eq!(line, 1);
            assert_eq!(url, "https://example.com");
        }
        other => panic!("unexpected result: {other:?}"),
    }
    match parse_playlist_content("\n  |https://youtube.com/x") {
        Err(PlaylistConfigError::EmptyName(line)) => assert_eq!(line, 2),
        other => panic!("unexpected result: {other:?}"),
    }
}

#[test]
fn playlist_entry_written_reads_back() {
    let entry = PlaylistEntry {
        name: "chill".to_string(),
        url: "https://music.youtube.com/playlist?list=PLz".to_string(),
    };
    let entries = parse_playlist_content(&entry.to_string()).unwrap();
    assert_eq!(entries, vec![entry]);
}

#[test]
fn playlist_url_may_hold_a_pipe() {
    let entries = parse_playlist_content("a|https://youtube.com/x|y").unwrap();
    assert_eq!(entries[0].name, "a");
    assert_eq!(entries[0].url, "https://youtube.com/x|y");
}

#[test]
fn test_default_settings() {
    let settings = Settings::default();
    assert_eq!(settings.general.preload_count, 5);
    assert_eq!(settings.visualizer.bars, 24);
    assert_eq!(settings.keybindings.quit, "q");
    assert_eq!(settings.theme.visualizer_colors.len(), 3);
}

#[test]
fn test_resolve_tilde_paths() {
    let mut settings = Settings::default();
    settings.resolve_paths();
    assert!(!settings.general.cache_dir.contains('~'));
    assert!(settings.general.cache_dir.starts_with('/'));
}

#[test]
fn settings_defaults_match_documented_values() {
    let s = Settings::default();
    assert_eq!(s.general.cache_dir, "~/.termtube/cache");
    assert_eq!(s.general.log_file, "~/.termtube/termtube.log");
    assert_eq!(s.paths.cookies, "~/.termtube/cookies.txt");
    assert_eq!(s.paths.playlists, "~/.termtube/playlist.txt");
    assert_eq!(s.theme.name, "default");
    assert_eq!(s.theme.primary, "#61afef");
    assert_eq!(s.theme.secondary, "#c678dd");
    assert_eq!(s.theme.visualizer_colors, vec!["#98c379", "#e5c07b", "#e06c75"]);
    assert_eq!(s.visualizer.fps, 30);
    assert_eq!(s.visualizer.decay_milli, 850);
    let k = &s.keybindings;
    let all = [
        &k.play_pause, &k.next, &k.previous, &k.volume_up, &k.volume_down, &k.shuffle,
        &k.repeat, &k.favorite, &k.quit, &k.search, &k.search_alt, &k.queue,
    ];
    let names: Vec<&str> = all.iter().map(|s| s.as_str()).collect();
    assert_eq!(names, vec!["space", "n", "p", "+", "-", "s", "r", "f", "q", "/", "F", "Q"]);
}

#[test]
fn resolve_paths_leaves_relative_paths() {
    let mut settings = Settings::default();
    settings.paths.cookies = "./cookies.txt".to_string();
    settings.resolve_paths();
    assert_eq!(settings.paths.cookies, "./cookies.txt");
    assert!(!settings.general.log_file.starts_with('~'));
    assert!(!settings.paths.playlists.starts_with('~'));
}

#[test]
fn command_line_overrides_paths() {
    let mut s = Settings::default();
    s.apply_overrides(Some("/c.txt".to_string()), None);
    assert_eq!(s.paths.cookies, "/c.txt");
    assert_eq!(s.paths.playlists, "~/.termtube/playlist.txt");
    s.apply_overrides(None, Some("/p.txt".to_string()));
    assert_eq!(s.paths.playlists, "/p.txt");
}

#[test]
fn several_written_entries_read_back() {
    let entries = vec![
        PlaylistEntry { name: "lofi".to_string(), url: "https://www.youtube.com/playlist?list=A".to_string() },
        PlaylistEntry { name: "jazz".to_string(), url: "https://youtube.com/playlist?list=B".to_string() },
        PlaylistEntry { name: "synth".to_string(), url: "https://music.youtube.com/playlist?list=C".to_string() },
    ];
    let text = entries.iter().map(|e| e.to_string()).collect::<Vec<_>>().join("\n");
    assert_eq!(parse_playlist_content(&text).unwrap(), entries);
}

#[test]
fn unicode_spaces_are_trimmed() {
    let entries = parse_playlist_content("\u{3000}mix\u{2003}|\u{00A0}https://youtube.com/x\u{205F}").unwrap();
    assert_eq!(entries[0].name, "mix");
    assert_eq!(entries[0].url, "https://youtube.com/x");
}
