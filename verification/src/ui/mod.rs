//! The state behind the interface panels: list selections, the sidebar, the
//! queue and search panels, and the small computations the panels display.

pub mod list_state;
pub mod playlist_view;
pub mod queue_view;
pub mod search_view;
pub mod controls;
pub mod now_playing;
pub mod theme;
pub mod visualizer_view;
