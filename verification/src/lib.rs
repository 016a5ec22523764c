//! TermTube library: the playback queue, playlist and configuration parsing,
//! favorites, search-cache keys, key mapping and the view-state logic of the
//! terminal YouTube music player.

pub mod app;
pub mod audio;
pub mod config;
pub mod input;
pub mod paths;
pub mod play_state;
pub mod playlist;
pub mod search;
pub mod session;
pub mod sync;
pub mod text;
pub mod ui;
