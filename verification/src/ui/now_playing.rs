//! The "Now Playing" panel's content.
use vstd::prelude::*;

use crate::playlist::models::{format_minutes_seconds, minutes_seconds, Song};
use crate::text::{push_str, str_chars, string_from_chars};

verus! {

/// Info about the currently playing track.
#[derive(Debug)]
pub struct NowPlayingInfo {
    pub title: String,
    pub artist: String,
    pub elapsed_secs: u64,
    pub total_secs: u64,
    pub is_playing: bool,
}

impl NowPlayingInfo {
    pub fn empty() -> (r: Self)
        ensures
            r.title@.len() == 0,
            r.artist@.len() == 0,
            r.elapsed_secs == 0,
            r.total_secs == 0,
            !r.is_playing,
    {
        Self {
            title: String::new(),
            artist: String::new(),
            elapsed_secs: 0,
            total_secs: 0,
            is_playing: false,
        }
    }
}

/// A time in seconds as `MM:SS`.
pub fn format_time(secs: u64) -> (r: String)
    ensures
        r@ == minutes_seconds(secs as nat),
{
    format_minutes_seconds(secs)
}

/// The elapsed time shown for a song of `total` seconds: capped at the
/// song's length when that is known (non-zero).
pub open spec fn shown_elapsed(elapsed: u64, total: u64) -> u64 {
    if total > 0 && elapsed > total {
        total
    } else {
        elapsed
    }
}

/// The panel content for the current song, if any, after `elapsed_secs` of
/// playback (pauses excluded).
pub fn now_playing_for(song: Option<&Song>, elapsed_secs: u64, is_playing: bool) -> (r: NowPlayingInfo)
    ensures
        song is None ==> r.title@.len() == 0 && r.artist@.len() == 0 && r.elapsed_secs == 0
            && r.total_secs == 0 && !r.is_playing,
        song matches Some(s) ==> r.title == s.title && r.artist == s.artist && r.total_secs == (
        match s.duration {
            Some(d) => d,
            None => 0,
        }) && r.elapsed_secs == shown_elapsed(elapsed_secs, r.total_secs) && r.is_playing
            == is_playing,
{
    match song {
        Some(s) => {
            let total = match s.duration {
                Some(d) => d,
                None => 0,
            };
            let elapsed = if total > 0 && elapsed_secs > total {
                total
            } else {
                elapsed_secs
            };
            NowPlayingInfo {
                title: s.title.clone(),
                artist: s.artist.clone(),
                elapsed_secs: elapsed,
                total_secs: total,
                is_playing,
            }
        },
        None => NowPlayingInfo::empty(),
    }
}

/// The time shown beside the artist: `elapsed / total`, each as `MM:SS`.
pub open spec fn time_text_spec(info: NowPlayingInfo) -> Seq<char> {
    minutes_seconds(info.elapsed_secs as nat) + " / "@ + minutes_seconds(info.total_secs as nat)
}

/// The time shown beside the artist.
pub fn time_text(info: &NowPlayingInfo) -> (r: String)
    ensures
        r@ == time_text_spec(*info),
{
    let e = format_time(info.elapsed_secs);
    let t = format_time(info.total_secs);
    let mut v: Vec<char> = str_chars(e.as_str());
    push_str(&mut v, " / ");
    push_str(&mut v, t.as_str());
    assert(v@ =~= time_text_spec(*info));
    string_from_chars(&v)
}

} // verus!
