//! Mapping of key events to actions, and the actions applied to the state.
use vstd::prelude::*;

use crate::app::{next_repeat, App, AppScreen};
use crate::config::settings::KeybindingSettings;
use crate::text::string_push;

verus! {

/// Actions that the input handler can produce.
#[derive(Debug, Clone, Copy, PartialEq, Eq, Structural)]
pub enum Action {
    Quit,
    PlayPause,
    Next,
    Previous,
    VolumeUp,
    VolumeDown,
    ToggleShuffle,
    CycleRepeat,
    ToggleFavorite,
    Search,
    ToggleQueue,
    NavigateUp,
    NavigateDown,
    Select,
    ToggleFocus,
    Back,
    Help,
    QueueMoveUp,
    QueueMoveDown,
    QueueRemove,
    AddToQueue,
    ToggleVisualizer,
    DownloadCurrentSong,
    DownloadSelectedItem,
    DownloadCurrentPlaylist,
    SearchInput(char),
    SearchBackspace,
    SearchClear,
    AddToPlaylist,
    /// The key does nothing.
    NoOp,
}

/// The key of a key event.
#[derive(Debug, Clone, Copy, PartialEq, Eq, Structural)]
pub enum KeyCode {
    Char(char),
    Enter,
    Tab,
    Esc,
    Up,
    Down,
    Left,
    Right,
    Backspace,
    /// Any other key.
    Other,
}

/// A key event: the key and the modifiers held.
#[derive(Debug, Clone, Copy, PartialEq, Eq, Structural)]
pub struct KeyInput {
    pub code: KeyCode,
    pub control: bool,
    pub shift: bool,
    pub alt: bool,
}

impl KeyInput {
    /// A key event with the given modifiers.
    pub fn new(code: KeyCode, control: bool, shift: bool, alt: bool) -> (k: Self)
        ensures
            k == (KeyInput { code, control, shift, alt }),
    {
        KeyInput { code, control, shift, alt }
    }

    /// A key event with no modifiers.
    pub fn plain(code: KeyCode) -> (k: Self)
        ensures
            k == (KeyInput { code, control: false, shift: false, alt: false }),
    {
        KeyInput { code, control: false, shift: false, alt: false }
    }
}

/// The name a key event has in the key-binding settings.
pub open spec fn key_text(code: KeyCode) -> Seq<char> {
    match code {
        KeyCode::Char(c) => if c == ' ' {
            "space"@
        } else {
            seq![c]
        },
        KeyCode::Enter => "enter"@,
        KeyCode::Tab => "tab"@,
        KeyCode::Esc => "esc"@,
        KeyCode::Up => "up"@,
        KeyCode::Down => "down"@,
        KeyCode::Left => "left"@,
        KeyCode::Right => "right"@,
        _ => Seq::empty(),
    }
}

/// The action bound to the key name `t` by the settings, if any.
pub open spec fn binding_action(t: Seq<char>, kb: KeybindingSettings) -> Action {
    if t == kb.quit@ {
        Action::Quit
    } else if t == kb.play_pause@ {
        Action::PlayPause
    } else if t == kb.next@ {
        Action::Next
    } else if t == kb.previous@ {
        Action::Previous
    } else if t == kb.volume_up@ {
        Action::VolumeUp
    } else if t == kb.volume_down@ {
        Action::VolumeDown
    } else if t == kb.shuffle@ {
        Action::ToggleShuffle
    } else if t == kb.repeat@ {
        Action::CycleRepeat
    } else if t == kb.favorite@ {
        Action::ToggleFavorite
    } else if t == kb.search@ || t == kb.search_alt@ {
        Action::Search
    } else if t == kb.queue@ {
        Action::ToggleQueue
    } else if t == "?"@ {
        Action::Help
    } else {
        Action::NoOp
    }
}

/// The action of a key on the search screen, if the search screen claims it.
pub open spec fn search_key_action(key: KeyInput) -> Option<Action> {
    if key.control && key.code == KeyCode::Char('q') {
        Some(Action::AddToQueue)
    } else if key.control && key.code == KeyCode::Char('f') {
        Some(Action::ToggleFavorite)
    } else if key.control && key.code == KeyCode::Char('l') {
        Some(Action::AddToPlaylist)
    } else if key.control && key.code == KeyCode::Char('u') {
        Some(Action::SearchClear)
    } else if key.code == KeyCode::Backspace {
        Some(Action::SearchBackspace)
    } else {
        match key.code {
            KeyCode::Char(c) => if !key.control && !key.alt {
                Some(Action::SearchInput(c))
            } else {
                None
            },
            _ => None,
        }
    }
}

/// The action of a key on the queue screen, if the queue screen claims it.
pub open spec fn queue_key_action(key: KeyInput) -> Option<Action> {
    if key.shift && key.code == KeyCode::Char('K') {
        Some(Action::QueueMoveUp)
    } else if key.shift && key.code == KeyCode::Char('J') {
        Some(Action::QueueMoveDown)
    } else if key.code == KeyCode::Char('d') {
        Some(Action::QueueRemove)
    } else {
        None
    }
}

/// The action of a navigation key, on any screen.
pub open spec fn navigation_action(code: KeyCode) -> Option<Action> {
    match code {
        KeyCode::Up => Some(Action::NavigateUp),
        KeyCode::Char('k') => Some(Action::NavigateUp),
        KeyCode::Down => Some(Action::NavigateDown),
        KeyCode::Char('j') => Some(Action::NavigateDown),
        KeyCode::Enter => Some(Action::Select),
        KeyCode::Tab => Some(Action::ToggleFocus),
        _ => None,
    }
}

/// The action of a key event on a screen: Ctrl+C quits everywhere, Shift+D
/// downloads (Alt+Shift+D the whole playlist), Esc goes back (quits on the
/// main screen), then the screen's own keys, the navigation keys and finally
/// the configurable bindings.
pub open spec fn map_key_spec(key: KeyInput, kb: KeybindingSettings, screen: AppScreen) -> Action {
    if key.control && key.code == KeyCode::Char('c') {
        Action::Quit
    } else if key.shift && (key.code == KeyCode::Char('d') || key.code == KeyCode::Char('D')) {
        if key.alt {
            Action::DownloadCurrentPlaylist
        } else {
            Action::DownloadSelectedItem
        }
    } else if key.code == KeyCode::Esc {
        if screen == AppScreen::Main {
            Action::Quit
        } else {
            Action::Back
        }
    } else if screen == AppScreen::Search && search_key_action(key) is Some {
        search_key_action(key)->0
    } else if screen == AppScreen::QueueView && queue_key_action(key) is Some {
        queue_key_action(key)->0
    } else if screen == AppScreen::Main && key.code == KeyCode::Char('a') {
        Action::AddToQueue
    } else if screen == AppScreen::Main && key.code == KeyCode::Char('v') {
        Action::ToggleVisualizer
    } else if navigation_action(key.code) is Some {
        navigation_action(key.code)->0
    } else {
        binding_action(key_text(key.code), kb)
    }
}

/// Convert a key event to a string that can match the config keybinding strings.
pub fn key_event_to_string(key: &KeyInput) -> (r: String)
    ensures
        r@ == key_text(key.code),
{
    match key.code {
        KeyCode::Char(c) => if c == ' ' {
            "space".to_string()
        } else {
            string_push(&String::new(), c)
        },
        KeyCode::Enter => "enter".to_string(),
        KeyCode::Tab => "tab".to_string(),
        KeyCode::Esc => "esc".to_string(),
        KeyCode::Up => "up".to_string(),
        KeyCode::Down => "down".to_string(),
        KeyCode::Left => "left".to_string(),
        KeyCode::Right => "right".to_string(),
        _ => String::new(),
    }
}

fn binding_action_exec(t: &String, kb: &KeybindingSettings) -> (a: Action)
    ensures
        a == binding_action(t@, *kb),
{
    if *t == kb.quit {
        return Action::Quit;
    }
    if *t == kb.play_pause {
        return Action::PlayPause;
    }
    if *t == kb.next {
        return Action::Next;
    }
    if *t == kb.previous {
        return Action::Previous;
    }
    if *t == kb.volume_up {
        return Action::VolumeUp;
    }
    if *t == kb.volume_down {
        return Action::VolumeDown;
    }
    if *t == kb.shuffle {
        return Action::ToggleShuffle;
    }
    if *t == kb.repeat {
        return Action::CycleRepeat;
    }
    if *t == kb.favorite {
        return Action::ToggleFavorite;
    }
    if *t == kb.search || *t == kb.search_alt {
        return Action::Search;
    }
    if *t == kb.queue {
        return Action::ToggleQueue;
    }
    let help = "?".to_string();
    if *t == help {
        return Action::Help;
    }
    Action::NoOp
}

/// Map a key event to an Action based on the configured keybindings.
pub fn map_key_event(key: KeyInput, keybindings: &KeybindingSettings, screen: AppScreen) -> (a: Action)
    ensures
        a == map_key_spec(key, *keybindings, screen),
{
    // Global shortcuts (Ctrl+C always quits)
    if key.control && key.code == KeyCode::Char('c') {
        return Action::Quit;
    }
    // Global download shortcuts
    if key.shift && (key.code == KeyCode::Char('d') || key.code == KeyCode::Char('D')) {
        if key.alt {
            return Action::DownloadCurrentPlaylist;
        }
        return Action::DownloadSelectedItem;
    }
    // Escape goes back or quits depending on screen
    if key.code == KeyCode::Esc {
        return match screen {
            AppScreen::Main => Action::Quit,
            _ => Action::Back,
        };
    }
    if screen == AppScreen::Search {
        if key.control {
            match key.code {
                KeyCode::Char('q') => return Action::AddToQueue,
                KeyCode::Char('f') => return Action::ToggleFavorite,
                KeyCode::Char('l') => return Action::AddToPlaylist,
                KeyCode::Char('u') => return Action::SearchClear,
                _ => {},
            }
        }
        if key.code == KeyCode::Backspace {
            return Action::SearchBackspace;
        }
        if let KeyCode::Char(c) = key.code {
            if !key.control && !key.alt {
                return Action::SearchInput(c);
            }
        }
    }
    // Queue-specific keys (Shift+K/J to reorder, d to remove)
    if screen == AppScreen::QueueView {
        if key.shift {
            match key.code {
                KeyCode::Char('K') => return Action::QueueMoveUp,
                KeyCode::Char('J') => return Action::QueueMoveDown,
                _ => {},
            }
        }
        if key.code == KeyCode::Char('d') {
            return Action::QueueRemove;
        }
    }
    // 'a' adds selected song to queue (from main screen song list)
    if screen == AppScreen::Main {
        if key.code == KeyCode::Char('a') {
            return Action::AddToQueue;
        }
        if key.code == KeyCode::Char('v') {
            return Action::ToggleVisualizer;
        }
    }
    // Navigation keys work on all screens
    match key.code {
        KeyCode::Up | KeyCode::Char('k') => return Action::NavigateUp,
        KeyCode::Down | KeyCode::Char('j') => return Action::NavigateDown,
        KeyCode::Enter => return Action::Select,
        KeyCode::Tab => return Action::ToggleFocus,
        _ => {},
    }
    // Match against configurable keybindings
    let key_str = key_event_to_string(&key);
    binding_action_exec(&key_str, keybindings)
}

/// The volume after raising it by 5, capped at 100.
pub open spec fn volume_after_up(v: u8) -> u8 {
    if v + 5 > 100 {
        100
    } else {
        (v + 5) as u8
    }
}

/// The volume after lowering it by 5, floored at 0.
pub open spec fn volume_after_down(v: u8) -> u8 {
    if v < 5 {
        0
    } else {
        (v - 5) as u8
    }
}

/// The state after applying an action that needs nothing but the state:
/// quitting, volume, shuffle, repeat, the queue and help screens, going back
/// and the visualizer. Other actions leave the state as it is.
pub open spec fn apply_action_spec(a: App, action: Action) -> App {
    match action {
        Action::Quit => App { running: false, ..a },
        Action::VolumeUp => App { volume: volume_after_up(a.volume), ..a },
        Action::VolumeDown => App { volume: volume_after_down(a.volume), ..a },
        Action::ToggleShuffle => App { shuffle: !a.shuffle, ..a },
        Action::CycleRepeat => App { repeat: next_repeat(a.repeat), ..a },
        Action::ToggleQueue => App {
            screen: if a.screen == AppScreen::QueueView {
                AppScreen::Main
            } else {
                AppScreen::QueueView
            },
            ..a
        },
        Action::Help => App {
            screen: if a.screen == AppScreen::Help {
                AppScreen::Main
            } else {
                AppScreen::Help
            },
            ..a
        },
        Action::Back => App { screen: AppScreen::Main, ..a },
        Action::ToggleVisualizer => App { show_visualizer: !a.show_visualizer, ..a },
        _ => a,
    }
}

/// Apply an action to the app state.
pub fn apply_action(app: &mut App, action: Action)
    ensures
        *final(app) == apply_action_spec(*old(app), action),
{
    match action {
        Action::Quit => app.quit(),
        Action::VolumeUp => app.volume_up(),
        Action::VolumeDown => app.volume_down(),
        Action::ToggleShuffle => app.toggle_shuffle(),
        Action::CycleRepeat => app.cycle_repeat(),
        Action::ToggleQueue => {
            app.screen = if app.screen == AppScreen::QueueView {
                AppScreen::Main
            } else {
                AppScreen::QueueView
            };
        },
        Action::Help => {
            app.screen = if app.screen == AppScreen::Help {
                AppScreen::Main
            } else {
                AppScreen::Help
            };
        },
        Action::Back => {
            app.screen = AppScreen::Main;
        },
        Action::ToggleVisualizer => {
            app.toggle_visualizer();
        },
        // PlayPause, Next, Previous, Select, Navigate, Favorite, Search
        // are handled by the TUI run loop which has access to more state
        _ => {},
    }
}

/// Ctrl+C quits, whatever the screen and the key bindings.
pub proof fn law_ctrl_c_always_quits(key: KeyInput, kb: KeybindingSettings, screen: AppScreen)
    requires
        key.control,
        key.code == KeyCode::Char('c'),
    ensures
        map_key_spec(key, kb, screen) == Action::Quit,
{
}

/// Esc quits on the main screen and goes back on every other screen.
pub proof fn law_esc_backs_out(key: KeyInput, kb: KeybindingSettings, screen: AppScreen)
    requires
        key.code == KeyCode::Esc,
    ensures
        map_key_spec(key, kb, screen) == if screen == AppScreen::Main {
            Action::Quit
        } else {
            Action::Back
        },
{
}

/// On the search screen a character typed without Ctrl or Alt goes into the
/// query (Shift+D still downloads).
pub proof fn law_search_typing(key: KeyInput, kb: KeybindingSettings, c: char)
    requires
        key.code == KeyCode::Char(c),
        !key.control,
        !key.alt,
        !(key.shift && (c == 'd' || c == 'D')),
    ensures
        map_key_spec(key, kb, AppScreen::Search) == Action::SearchInput(c),
{
}

/// Toggling the queue view twice from the main screen or the queue view
/// gives back the state.
pub proof fn law_toggle_queue_twice(a: App)
    requires
        a.screen == AppScreen::Main || a.screen == AppScreen::QueueView,
    ensures
        apply_action_spec(apply_action_spec(a, Action::ToggleQueue), Action::ToggleQueue) == a,
{
}

/// Toggling help twice from the main screen or the help screen gives back
/// the state.
pub proof fn law_toggle_help_twice(a: App)
    requires
        a.screen == AppScreen::Main || a.screen == AppScreen::Help,
    ensures
        apply_action_spec(apply_action_spec(a, Action::Help), Action::Help) == a,
{
}

/// Cycling the repeat mode three times (off, all, one) gives back the state.
pub proof fn law_cycle_repeat_thrice(a: App)
    ensures
        apply_action_spec(
            apply_action_spec(apply_action_spec(a, Action::CycleRepeat), Action::CycleRepeat),
            Action::CycleRepeat,
        ) == a,
{
}

/// The volume stays within 0..=100 whatever action is applied.
pub proof fn law_volume_stays_in_range(a: App, action: Action)
    requires
        a.volume <= 100,
    ensures
        apply_action_spec(a, action).volume <= 100,
{
}

/// Raising the volume and lowering it again gives back the state, below the cap.
pub proof fn law_volume_up_then_down(a: App)
    requires
        a.volume <= 95,
    ensures
        apply_action_spec(apply_action_spec(a, Action::VolumeUp), Action::VolumeDown) == a,
{
}

/// Lowering the volume and raising it again gives back the state, above the floor.
pub proof fn law_volume_down_then_up(a: App)
    requires
        5 <= a.volume <= 100,
    ensures
        apply_action_spec(apply_action_spec(a, Action::VolumeDown), Action::VolumeUp) == a,
{
}

/// Plain `k`/`j` and the arrow keys move the selection on every screen but
/// search (where letters are typed): reordering the queue takes Shift.
pub proof fn law_navigation_keys_move_selection(kb: KeybindingSettings, screen: AppScreen)
    requires
        screen != AppScreen::Search,
    ensures
        map_key_spec(KeyInput { code: KeyCode::Char('k'), control: false, shift: false, alt: false }, kb, screen)
            == Action::NavigateUp,
        map_key_spec(KeyInput { code: KeyCode::Char('j'), control: false, shift: false, alt: false }, kb, screen)
            == Action::NavigateDown,
        map_key_spec(KeyInput { code: KeyCode::Up, control: false, shift: false, alt: false }, kb, screen)
            == Action::NavigateUp,
        map_key_spec(KeyInput { code: KeyCode::Down, control: false, shift: false, alt: false }, kb, screen)
            == Action::NavigateDown,
        map_key_spec(KeyInput { code: KeyCode::Enter, control: false, shift: false, alt: false }, kb, screen)
            == Action::Select,
        map_key_spec(KeyInput { code: KeyCode::Tab, control: false, shift: false, alt: false }, kb, screen)
            == Action::ToggleFocus,
{
}

/// On the queue screen only Shift+K / Shift+J reorder and `d` removes; on
/// the other screens these keys never edit the queue.
pub proof fn law_queue_edits_need_the_queue_screen(key: KeyInput, kb: KeybindingSettings, screen: AppScreen)
    ensures
        map_key_spec(key, kb, screen) == Action::QueueMoveUp ==> screen == AppScreen::QueueView && key.shift
            && key.code == KeyCode::Char('K'),
        map_key_spec(key, kb, screen) == Action::QueueMoveDown ==> screen == AppScreen::QueueView && key.shift
            && key.code == KeyCode::Char('J'),
        map_key_spec(key, kb, screen) == Action::QueueRemove ==> screen == AppScreen::QueueView && key.code
            == KeyCode::Char('d'),
{
}

} // verus!
