use termtube::app::{App, AppScreen};
use termtube::config::settings::{KeybindingSettings, Settings};
use termtube::input::handler::{apply_action, key_event_to_string, map_key_event, Action, KeyCode, KeyInput};
use termtube::playlist::favorites::Favorites;

fn default_kb() -> KeybindingSettings {
    KeybindingSettings::default()
}

fn make_key(code: KeyCode) -> KeyInput {
    KeyInput::plain(code)
}

fn make_test_app() -> App {
    App::new(Settings::default(), vec![], Favorites::empty("favorites.json".to_string()))
}

#[test]
fn test_quit_mapping() {
    let kb = default_kb();
    let action = map_key_event(make_key(KeyCode::Char('q')), &kb, AppScreen::Main);
    assert_eq!(action, Action::Quit);
}

#[test]
fn test_ctrl_c_always_quits() {
    let kb = default_kb();
    let key = KeyInput::new(KeyCode::Char('c'), true, false, false);
    let action = map_key_event(key, &kb, AppScreen::Main);
    assert_eq!(action, Action::Quit);
}

#[test]
fn test_space_play_pause() {
    let kb = default_kb();
    let action = map_key_event(make_key(KeyCode::Char(' ')), &kb, AppScreen::Main);
    assert_eq!(action, Action::PlayPause);
}

#[test]
fn test_download_selected_item_mapping() {
    let kb = default_kb();
    let key = KeyInput::new(KeyCode::Char('D'), false, true, false);
    let action = map_key_event(key, &kb, AppScreen::Main);
    assert_eq!(action, Action::DownloadSelectedItem);
}

#[test]
fn test_download_current_playlist_mapping() {
    let kb = default_kb();
    let key = KeyInput::new(KeyCode::Char('D'), false, true, true);
    let action = map_key_event(key, &kb, AppScreen::Main);
    assert_eq!(action, Action::DownloadCurrentPlaylist);
}

#[test]
fn test_search_alt_key_mapping() {
    let kb = default_kb();
    let action = map_key_event(make_key(KeyCode::Char('F')), &kb, AppScreen::Main);
    assert_eq!(action, Action::Search);
}

#[test]
fn test_lowercase_f_still_favorite() {
    let kb = default_kb();
    let action = map_key_event(make_key(KeyCode::Char('f')), &kb, AppScreen::Main);
    assert_eq!(action, Action::ToggleFavorite);
}

#[test]
fn test_navigation_keys() {
    let kb = default_kb();
    assert_eq!(map_key_event(make_key(KeyCode::Up), &kb, AppScreen::Main), Action::NavigateUp);
    assert_eq!(map_key_event(make_key(KeyCode::Down), &kb, AppScreen::Main), Action::NavigateDown);
    assert_eq!(map_key_event(make_key(KeyCode::Char('j')), &kb, AppScreen::Main), Action::NavigateDown);
    assert_eq!(map_key_event(make_key(KeyCode::Char('k')), &kb, AppScreen::Main), Action::NavigateUp);
}

#[test]
fn test_tab_toggles_focus() {
    let kb = default_kb();
    let action = map_key_event(make_key(KeyCode::Tab), &kb, AppScreen::Main);
    assert_eq!(action, Action::ToggleFocus);
}

#[test]
fn test_esc_on_main_quits() {
    let kb = default_kb();
    let action = map_key_event(make_key(KeyCode::Esc), &kb, AppScreen::Main);
    assert_eq!(action, Action::Quit);
}

#[test]
fn test_esc_on_help_goes_back() {
    let kb = default_kb();
    let action = map_key_event(make_key(KeyCode::Esc), &kb, AppScreen::Help);
    assert_eq!(action, Action::Back);
}

#[test]
fn test_apply_quit() {
    let mut app = make_test_app();
    apply_action(&mut app, Action::Quit);
    assert!(!app.running);
}

#[test]
fn test_apply_volume() {
    let mut app = make_test_app();
    let initial = app.volume;
    apply_action(&mut app, Action::VolumeUp);
    assert_eq!(app.volume, initial + 5);
    apply_action(&mut app, Action::VolumeDown);
    assert_eq!(app.volume, initial);
}

#[test]
fn test_apply_toggle_queue() {
    let mut app = make_test_app();
    assert_eq!(app.screen, AppScreen::Main);
    apply_action(&mut app, Action::ToggleQueue);
    assert_eq!(app.screen, AppScreen::QueueView);
    apply_action(&mut app, Action::ToggleQueue);
    assert_eq!(app.screen, AppScreen::Main);
}

#[test]
fn test_shift_k_moves_up_in_queue() {
    let kb = default_kb();
    let key = KeyInput::new(KeyCode::Char('K'), false, true, false);
    let action = map_key_event(key, &kb, AppScreen::QueueView);
    assert_eq!(action, Action::QueueMoveUp);
}

#[test]
fn test_shift_j_moves_down_in_queue() {
    let kb = default_kb();
    let key = KeyInput::new(KeyCode::Char('J'), false, true, false);
    let action = map_key_event(key, &kb, AppScreen::QueueView);
    assert_eq!(action, Action::QueueMoveDown);
}

#[test]
fn test_d_removes_in_queue() {
    let kb = default_kb();
    let action = map_key_event(make_key(KeyCode::Char('d')), &kb, AppScreen::QueueView);
    assert_eq!(action, Action::QueueRemove);
}

#[test]
fn test_a_adds_to_queue_on_main() {
    let kb = default_kb();
    let action = map_key_event(make_key(KeyCode::Char('a')), &kb, AppScreen::Main);
    assert_eq!(action, Action::AddToQueue);
}

#[test]
fn test_a_does_not_add_in_queue_view() {
    let kb = default_kb();
    let action = map_key_event(make_key(KeyCode::Char('a')), &kb, AppScreen::QueueView);
    assert_ne!(action, Action::AddToQueue);
}

#[test]
fn test_shift_k_on_main_is_navigate() {
    let kb = default_kb();
    let key = KeyInput::new(KeyCode::Char('K'), false, true, false);
    let action = map_key_event(key, &kb, AppScreen::Main);
    assert_ne!(action, Action::QueueMoveUp);
}

#[test]
fn ctrl_c_quits_on_every_screen() {
    let kb = default_kb();
    let key = KeyInput::new(KeyCode::Char('c'), true, false, false);
    for screen in [AppScreen::Main, AppScreen::QueueView, AppScreen::Help, AppScreen::Search] {
        assert_eq!(map_key_event(key, &kb, screen), Action::Quit);
    }
}

#[test]
fn esc_goes_back_off_the_main_screen() {
    let kb = default_kb();
    for screen in [AppScreen::QueueView, AppScreen::Search] {
        assert_eq!(map_key_event(make_key(KeyCode::Esc), &kb, screen), Action::Back);
    }
}

#[test]
fn search_screen_keys() {
    let kb = default_kb();
    let s = AppScreen::Search;
    assert_eq!(map_key_event(make_key(KeyCode::Char('q')), &kb, s), Action::SearchInput('q'));
    assert_eq!(map_key_event(make_key(KeyCode::Char(' ')), &kb, s), Action::SearchInput(' '));
    assert_eq!(map_key_event(make_key(KeyCode::Backspace), &kb, s), Action::SearchBackspace);
    assert_eq!(map_key_event(KeyInput::new(KeyCode::Char('q'), true, false, false), &kb, s), Action::AddToQueue);
    assert_eq!(map_key_event(KeyInput::new(KeyCode::Char('f'), true, false, false), &kb, s), Action::ToggleFavorite);
    assert_eq!(map_key_event(KeyInput::new(KeyCode::Char('l'), true, false, false), &kb, s), Action::AddToPlaylist);
    assert_eq!(map_key_event(KeyInput::new(KeyCode::Char('u'), true, false, false), &kb, s), Action::SearchClear);
    assert_eq!(map_key_event(make_key(KeyCode::Enter), &kb, s), Action::Select);
    assert_eq!(map_key_event(make_key(KeyCode::Up), &kb, s), Action::NavigateUp);
}

#[test]
fn bound_keys_on_main() {
    let kb = default_kb();
    let m = AppScreen::Main;
    assert_eq!(map_key_event(make_key(KeyCode::Char('n')), &kb, m), Action::Next);
    assert_eq!(map_key_event(make_key(KeyCode::Char('p')), &kb, m), Action::Previous);
    assert_eq!(map_key_event(make_key(KeyCode::Char('+')), &kb, m), Action::VolumeUp);
    assert_eq!(map_key_event(make_key(KeyCode::Char('-')), &kb, m), Action::VolumeDown);
    assert_eq!(map_key_event(make_key(KeyCode::Char('s')), &kb, m), Action::ToggleShuffle);
    assert_eq!(map_key_event(make_key(KeyCode::Char('r')), &kb, m), Action::CycleRepeat);
    assert_eq!(map_key_event(make_key(KeyCode::Char('/')), &kb, m), Action::Search);
    assert_eq!(map_key_event(make_key(KeyCode::Char('Q')), &kb, m), Action::ToggleQueue);
    assert_eq!(map_key_event(make_key(KeyCode::Char('?')), &kb, m), Action::Help);
    assert_eq!(map_key_event(make_key(KeyCode::Char('v')), &kb, m), Action::ToggleVisualizer);
    assert_eq!(map_key_event(make_key(KeyCode::Char('z')), &kb, m), Action::NoOp);
    assert_eq!(map_key_event(make_key(KeyCode::Left), &kb, m), Action::NoOp);
    assert_eq!(map_key_event(make_key(KeyCode::Other), &kb, m), Action::NoOp);
}

#[test]
fn key_names() {
    assert_eq!(key_event_to_string(&make_key(KeyCode::Char(' '))), "space");
    assert_eq!(key_event_to_string(&make_key(KeyCode::Char('x'))), "x");
    assert_eq!(key_event_to_string(&make_key(KeyCode::Enter)), "enter");
    assert_eq!(key_event_to_string(&make_key(KeyCode::Tab)), "tab");
    assert_eq!(key_event_to_string(&make_key(KeyCode::Esc)), "esc");
    assert_eq!(key_event_to_string(&make_key(KeyCode::Up)), "up");
    assert_eq!(key_event_to_string(&make_key(KeyCode::Down)), "down");
    assert_eq!(key_event_to_string(&make_key(KeyCode::Left)), "left");
    assert_eq!(key_event_to_string(&make_key(KeyCode::Right)), "right");
    assert_eq!(key_event_to_string(&make_key(KeyCode::Backspace)), "");
}

#[test]
fn apply_actions_round_trip() {
    let mut app = make_test_app();
    apply_action(&mut app, Action::Help);
    assert_eq!(app.screen, AppScreen::Help);
    apply_action(&mut app, Action::Help);
    assert_eq!(app.screen, AppScreen::Main);
    for _ in 0..3 {
        apply_action(&mut app, Action::CycleRepeat);
    }
    assert_eq!(app.repeat, termtube::app::RepeatMode::Off);
    apply_action(&mut app, Action::ToggleQueue);
    apply_action(&mut app, Action::Back);
    assert_eq!(app.screen, AppScreen::Main);
    let shown = app.show_visualizer;
    apply_action(&mut app, Action::ToggleVisualizer);
    assert_eq!(app.show_visualizer, !shown);
    app.volume = 100;
    apply_action(&mut app, Action::VolumeUp);
    assert_eq!(app.volume, 100);
    app.volume = 3;
    apply_action(&mut app, Action::VolumeDown);
    assert_eq!(app.volume, 0);
    apply_action(&mut app, Action::Next);
    assert_eq!(app.volume, 0);
}

#[test]
fn volume_down_then_up_restores() {
    let mut app = make_test_app();
    app.volume = 40;
    apply_action(&mut app, Action::VolumeDown);
    apply_action(&mut app, Action::VolumeUp);
    assert_eq!(app.volume, 40);
}
