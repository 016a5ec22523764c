//! Playlist data: songs and playlists, the favorites set and the on-disk layout
//! of the playlist cache.

pub mod favorites;
pub mod manager;
pub mod models;
