//! Reading what `yt-dlp` reports about playlists and searches.

pub mod fetcher;
