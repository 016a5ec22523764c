use termtube::app::{RepeatMode, SearchState};
use termtube::config::playlist::PlaylistEntry;
use termtube::config::settings::ThemeSettings;
use termtube::playlist::models::Song;
use termtube::ui::controls::{header_marks, play_icon, repeat_icon, shuffle_icon, volume_bar, volume_bar_cells};
use termtube::ui::list_state::{next_selection, previous_selection, ListState};
use termtube::ui::now_playing::{format_time, now_playing_for, time_text, NowPlayingInfo};
use termtube::ui::playlist_view::{sidebar_playlist_names, PlaylistViewState, SidebarFocus};
use termtube::ui::queue_view::{favorite_mark, queue_row_marks, QueueViewState};
use termtube::ui::search_view::{add_hint, result_subtitle, status_line, SearchViewState, StatusLine};
use termtube::ui::theme::{parse_hex_color, visualizer_palette, Color, Theme};
use termtube::ui::visualizer_view::{bar_layout, gradient_color, BAR_CHARS};

fn song(title: &str, id: &str, duration: Option<u64>, artist: &str) -> Song {
    Song {
        title: title.into(),
        video_id: id.into(),
        duration,
        artist: artist.into(),
        local_path: None,
        download_status: None,
    }
}

#[test]
fn test_playlist_view_navigation() {
    let mut state = PlaylistViewState::new();
    state.set_playlist_count(3);

    assert_eq!(state.selected_playlist(), Some(0));
    state.next();
    assert_eq!(state.selected_playlist(), Some(1));
    state.next();
    assert_eq!(state.selected_playlist(), Some(2));
    state.next();
    assert_eq!(state.selected_playlist(), Some(0));
}

#[test]
fn test_playlist_view_previous_wraps() {
    let mut state = PlaylistViewState::new();
    state.set_playlist_count(3);

    assert_eq!(state.selected_playlist(), Some(0));
    state.previous();
    assert_eq!(state.selected_playlist(), Some(2));
}

#[test]
fn test_toggle_focus() {
    let mut state = PlaylistViewState::new();
    assert_eq!(state.focus, SidebarFocus::Playlists);
    state.toggle_focus();
    assert_eq!(state.focus, SidebarFocus::Songs);
    state.toggle_focus();
    assert_eq!(state.focus, SidebarFocus::Playlists);
}

#[test]
fn test_song_navigation() {
    let mut state = PlaylistViewState::new();
    state.set_song_count(5);
    state.focus = SidebarFocus::Songs;

    assert_eq!(state.selected_song(), Some(0));
    state.next();
    assert_eq!(state.selected_song(), Some(1));
}

#[test]
fn test_empty_list_navigation() {
    let mut state = PlaylistViewState::new();
    state.set_playlist_count(0);
    state.next();
    assert_eq!(state.selected_playlist(), Some(0));
}

#[test]
fn test_queue_view_navigation() {
    let mut state = QueueViewState::new();
    state.set_count(3);

    assert_eq!(state.list_state.selected(), Some(0));
    state.next();
    assert_eq!(state.list_state.selected(), Some(1));
    state.next();
    assert_eq!(state.list_state.selected(), Some(2));
    state.next();
    assert_eq!(state.list_state.selected(), Some(0));
}

#[test]
fn test_queue_empty() {
    let mut state = QueueViewState::new();
    state.set_count(0);
    state.next();
    assert_eq!(state.list_state.selected(), None);
}

#[test]
fn test_move_selection_up() {
    let mut state = QueueViewState::new();
    state.set_count(3);
    state.next();

    let idx = state.move_selection_up();
    assert_eq!(idx, Some(1));
    assert_eq!(state.selected(), Some(0));
}

#[test]
fn test_move_selection_up_at_top() {
    let mut state = QueueViewState::new();
    state.set_count(3);
    let idx = state.move_selection_up();
    assert_eq!(idx, None);
}

#[test]
fn test_move_selection_down() {
    let mut state = QueueViewState::new();
    state.set_count(3);
    let idx = state.move_selection_down();
    assert_eq!(idx, Some(0));
    assert_eq!(state.selected(), Some(1));
}

#[test]
fn test_move_selection_down_at_bottom() {
    let mut state = QueueViewState::new();
    state.set_count(3);
    state.next();
    state.next();

    let idx = state.move_selection_down();
    assert_eq!(idx, None);
}

#[test]
fn test_remove_selected() {
    let mut state = QueueViewState::new();
    state.set_count(3);
    state.next();

    let removed = state.remove_selected();
    assert_eq!(removed, Some(1));
    assert_eq!(state.selected(), Some(1));
}

#[test]
fn test_remove_selected_last_item() {
    let mut state = QueueViewState::new();
    state.set_count(2);
    state.next();

    let removed = state.remove_selected();
    assert_eq!(removed, Some(1));
    assert_eq!(state.selected(), Some(0));
}

#[test]
fn test_remove_selected_only_item() {
    let mut state = QueueViewState::new();
    state.set_count(1);

    let removed = state.remove_selected();
    assert_eq!(removed, Some(0));
    assert_eq!(state.selected(), None);
}

#[test]
fn test_format_time() {
    assert_eq!(format_time(0), "00:00");
    assert_eq!(format_time(65), "01:05");
    assert_eq!(format_time(3600), "60:00");
}

#[test]
fn test_now_playing_empty() {
    let info = NowPlayingInfo::empty();
    assert!(info.title.is_empty());
    assert!(!info.is_playing);
}

#[test]
fn test_bar_chars_length() {
    assert_eq!(BAR_CHARS.len(), 9);
    assert_eq!(BAR_CHARS[0], ' ');
    assert_eq!(BAR_CHARS[8], '█');
}

#[test]
fn test_parse_hex_color() {
    assert_eq!(parse_hex_color("#61afef"), Some(Color::Rgb(0x61, 0xaf, 0xef)));
    assert_eq!(parse_hex_color("c678dd"), Some(Color::Rgb(0xc6, 0x78, 0xdd)));
    assert_eq!(parse_hex_color("invalid"), None);
    assert_eq!(parse_hex_color("#fff"), None);
}

#[test]
fn test_theme_from_settings() {
    let settings = ThemeSettings::default();
    let theme = Theme::from_settings(&settings);
    assert_eq!(theme.visualizer_colors.len(), 3);
}

#[test]
fn theme_falls_back_on_unparsable_colors() {
    let settings = ThemeSettings {
        name: "x".to_string(),
        primary: "nope".to_string(),
        secondary: "#010203".to_string(),
        visualizer_colors: vec!["#000000".to_string(), "bad".to_string()],
    };
    let theme = Theme::from_settings(&settings);
    assert_eq!(theme.primary, Color::LightBlue);
    assert_eq!(theme.highlight_bg, Color::LightBlue);
    assert_eq!(theme.secondary, Color::Rgb(1, 2, 3));
    assert_eq!(theme.visualizer_colors, vec![Color::Rgb(0, 0, 0)]);
    let d = Theme::default();
    assert_eq!(d.visualizer_colors, vec![Color::Green, Color::Yellow, Color::Red]);
    assert_eq!(d.bg, Color::Reset);
}

#[test]
fn hex_colors_accept_upper_case_and_sign() {
    assert_eq!(parse_hex_color("#ABCDEF"), Some(Color::Rgb(0xab, 0xcd, 0xef)));
    assert_eq!(parse_hex_color("+1+2+3"), Some(Color::Rgb(1, 2, 3)));
    assert_eq!(parse_hex_color("#12345g"), None);
    assert_eq!(visualizer_palette(&["#ffffff".to_string()]), vec![Color::Rgb(255, 255, 255)]);
}

#[test]
fn list_selection_wraps() {
    assert_eq!(next_selection(Some(2), 3), Some(0));
    assert_eq!(previous_selection(Some(0), 3), Some(2));
    assert_eq!(next_selection(None, 3), Some(0));
    assert_eq!(previous_selection(Some(1), 0), Some(1));
    assert_eq!(previous_selection(next_selection(Some(1), 4), 4), Some(1));
    let mut ls = ListState::new();
    assert_eq!(ls.selected(), None);
    ls.select(Some(4));
    assert_eq!(ls.selected(), Some(4));
}

#[test]
fn search_view_counts_clamp_selection() {
    let mut state = SearchViewState::new();
    assert_eq!(state.selected(), Some(0));
    state.set_count(0);
    assert_eq!(state.selected(), None);
    state.set_count(4);
    assert_eq!(state.selected(), Some(0));
    state.previous();
    assert_eq!(state.selected(), Some(3));
    state.set_count(2);
    assert_eq!(state.selected(), Some(1));
    state.next();
    assert_eq!(state.selected(), Some(0));
}

#[test]
fn controls_marks() {
    assert_eq!(volume_bar_cells(80), (6, 2));
    assert_eq!(volume_bar_cells(100), (8, 0));
    assert_eq!(volume_bar_cells(0), (0, 8));
    assert_eq!(volume_bar(50), "████░░░░");
    assert_eq!(play_icon(true), '▶');
    assert_eq!(play_icon(false), '⏸');
    assert_eq!(shuffle_icon(true), "🔀");
    assert_eq!(shuffle_icon(false), "  ");
    assert_eq!(repeat_icon(RepeatMode::Off), "  ");
    assert_eq!(repeat_icon(RepeatMode::All), "🔁");
    assert_eq!(repeat_icon(RepeatMode::One), "🔂");
    assert_eq!(header_marks(true, RepeatMode::One), " 🔀 🔂");
    assert_eq!(header_marks(false, RepeatMode::Off), "");
    assert_eq!(header_marks(false, RepeatMode::All), " 🔁");
}

#[test]
fn now_playing_caps_elapsed_time() {
    let s = song("Title", "id", Some(100), "Band");
    let info = now_playing_for(Some(&s), 250, true);
    assert_eq!(info.title, "Title");
    assert_eq!(info.artist, "Band");
    assert_eq!(info.elapsed_secs, 100);
    assert_eq!(info.total_secs, 100);
    assert!(info.is_playing);
    assert_eq!(time_text(&info), "01:40 / 01:40");
    let live = song("Live", "id", None, "");
    let info = now_playing_for(Some(&live), 250, false);
    assert_eq!(info.elapsed_secs, 250);
    assert_eq!(info.total_secs, 0);
    let none = now_playing_for(None, 5, true);
    assert!(none.title.is_empty());
    assert!(!none.is_playing);
}

#[test]
fn search_status_lines() {
    let mut s = SearchState::new();
    assert_eq!(status_line(&s), StatusLine::TypeQuery);
    s.query = "abc".to_string();
    assert_eq!(status_line(&s), StatusLine::NoResults);
    s.results.push(song("A", "a", None, ""));
    assert_eq!(status_line(&s), StatusLine::Blank);
    s.cache_hit = true;
    assert_eq!(status_line(&s), StatusLine::Cached);
    s.status = Some("done".to_string());
    assert_eq!(status_line(&s), StatusLine::Status("done".to_string()));
    s.is_loading = true;
    assert_eq!(status_line(&s), StatusLine::Searching);
    s.error = Some("bad".to_string());
    assert_eq!(status_line(&s), StatusLine::Error("bad".to_string()));
}

#[test]
fn search_rows_and_hint() {
    assert_eq!(result_subtitle(&song("T", "x", Some(61), "Artist")), "Artist - 01:01");
    assert_eq!(result_subtitle(&song("T", "x", None, "")), "--:--");
    let pls = vec![PlaylistEntry { name: "mix".to_string(), url: "u".to_string() }];
    assert_eq!(add_hint(&pls, 0), "add to mix  ");
    assert_eq!(add_hint(&pls, 1), "add to (no playlist)  ");
}

#[test]
fn sidebar_lists_favorites_after_playlists() {
    let pls = vec![
        PlaylistEntry { name: "a".to_string(), url: "u".to_string() },
        PlaylistEntry { name: "b".to_string(), url: "u".to_string() },
    ];
    assert_eq!(sidebar_playlist_names(&pls, 3), vec!["a", "b", "★ Favoritos (3)"]);
    assert_eq!(sidebar_playlist_names(&[], 0), vec!["★ Favoritos (0)"]);
}

#[test]
fn visualizer_layout_and_colors() {
    assert_eq!(bar_layout(50, 24), (2, 0));
    assert_eq!(bar_layout(10, 24), (1, 0));
    assert_eq!(bar_layout(30, 4), (6, 1));
    assert_eq!(bar_layout(100, 0), (101, 50));
    let colors = vec![Color::Green, Color::Yellow, Color::Red];
    assert_eq!(gradient_color(&colors, 0), Color::Green);
    assert_eq!(gradient_color(&colors, 1), Color::Yellow);
    assert_eq!(gradient_color(&colors, 7), Color::Red);
    assert_eq!(gradient_color(&[Color::Red], 3), Color::Red);
    assert_eq!(gradient_color(&[], 0), Color::Green);
}

#[test]
fn moving_up_then_down_restores_selection() {
    for count in 1..5usize {
        for i in 0..count {
            assert_eq!(next_selection(previous_selection(Some(i), count), count), Some(i));
            assert_eq!(previous_selection(next_selection(Some(i), count), count), Some(i));
        }
    }
}

#[test]
fn queue_and_song_row_marks() {
    assert_eq!(queue_row_marks(2, Some(2), true), ("▶ ".to_string(), "♥ ".to_string()));
    assert_eq!(queue_row_marks(1, Some(2), false), ("  ".to_string(), "  ".to_string()));
    assert_eq!(queue_row_marks(0, None, false).0, "  ");
    assert_eq!(favorite_mark(true), "♥ ");
    assert_eq!(favorite_mark(false), "  ");
}
