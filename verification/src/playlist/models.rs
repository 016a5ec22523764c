//! Songs, playlists and the playlist index.
use vstd::prelude::*;

use crate::text::{
    all_digits, decimal_value, lemma_two_digits_read_back, push_two_digits, string_from_chars,
    two_digit_spec,
};

verus! {

/// Whether a song is being downloaded.
#[derive(Debug, Clone, Copy, PartialEq, Eq, Structural)]
pub enum DownloadStatus {
    Downloading,
}

/// A single song/track from a YouTube playlist.
#[derive(Debug, PartialEq)]
pub struct Song {
    pub title: String,
    pub video_id: String,
    /// Duration in seconds; None if unknown (e.g. livestream).
    pub duration: Option<u64>,
    /// Uploader / channel name.
    pub artist: String,
    pub local_path: Option<String>,
    pub download_status: Option<DownloadStatus>,
}

/// A copy of an optional string.
pub fn clone_opt_string(s: &Option<String>) -> (r: Option<String>)
    ensures
        r == *s,
{
    match s {
        Some(p) => Some(p.clone()),
        None => None,
    }
}

impl Clone for Song {
    fn clone(&self) -> (r: Self)
        ensures
            r == *self,
    {
        Song {
            title: self.title.clone(),
            video_id: self.video_id.clone(),
            duration: self.duration,
            artist: self.artist.clone(),
            local_path: clone_opt_string(&self.local_path),
            download_status: self.download_status,
        }
    }
}

/// The watch URL of a video id.
pub open spec fn watch_url(video_id: Seq<char>) -> Seq<char> {
    "https://www.youtube.com/watch?v="@ + video_id
}

/// `secs` as `MM:SS`, both parts zero-padded to at least two digits.
pub open spec fn minutes_seconds(secs: nat) -> Seq<char> {
    two_digit_spec(secs / 60) + seq![':'] + two_digit_spec(secs % 60)
}

/// How a duration is shown: `MM:SS`, or `--:--` when unknown.
pub open spec fn duration_text(d: Option<u64>) -> Seq<char> {
    match d {
        Some(secs) => minutes_seconds(secs as nat),
        None => "--:--"@,
    }
}

/// The title as listed: `dwn>_ ` in front while downloading, ` (local)` after
/// when a local file is recorded.
pub open spec fn display_title_spec(s: Song) -> Seq<char> {
    let t1 = if s.download_status == Some(DownloadStatus::Downloading) {
        "dwn>_ "@ + s.title@
    } else {
        s.title@
    };
    if s.local_path is Some {
        t1 + " (local)"@
    } else {
        t1
    }
}

/// `MM:SS` for a number of seconds.
pub fn format_minutes_seconds(secs: u64) -> (r: String)
    ensures
        r@ == minutes_seconds(secs as nat),
{
    let mut v: Vec<char> = Vec::new();
    push_two_digits(&mut v, secs / 60);
    v.push(':');
    push_two_digits(&mut v, secs % 60);
    assert(v@ =~= minutes_seconds(secs as nat));
    string_from_chars(&v)
}

impl Song {
    pub fn url(&self) -> (r: String)
        ensures
            r@ == watch_url(self.video_id@),
    {
        let mut s = "https://www.youtube.com/watch?v=".to_string();
        s.append(self.video_id.as_str());
        s
    }

    pub fn duration_display(&self) -> (r: String)
        ensures
            r@ == duration_text(self.duration),
    {
        match self.duration {
            Some(secs) => format_minutes_seconds(secs),
            None => "--:--".to_string(),
        }
    }

    pub fn is_local(&self) -> (b: bool)
        ensures
            b == (self.local_path matches Some(p) && p@.len() > 0),
    {
        match &self.local_path {
            Some(path) => !path.as_str().is_empty(),
            None => false,
        }
    }

    pub fn display_title(&self) -> (r: String)
        ensures
            r@ == display_title_spec(*self),
    {
        let mut title = self.title.clone();
        if self.download_status == Some(DownloadStatus::Downloading) {
            let mut t = "dwn>_ ".to_string();
            t.append(title.as_str());
            title = t;
        }
        if self.local_path.is_some() {
            title.append(" (local)");
        }
        title
    }

    /// Forgets the recorded local file when it no longer exists;
    /// `path_exists` tells whether the recorded path exists on disk.
    pub fn validate_local_path(&mut self, path_exists: bool)
        ensures
            final(self).local_path == if old(self).local_path is Some && !path_exists {
                None
            } else {
                old(self).local_path
            },
            final(self).title == old(self).title,
            final(self).video_id == old(self).video_id,
            final(self).duration == old(self).duration,
            final(self).artist == old(self).artist,
            final(self).download_status == old(self).download_status,
    {
        if self.local_path.is_some() && !path_exists {
            self.local_path = None;
        }
    }
}

/// A playlist with its songs resolved from YouTube.
#[derive(Debug)]
pub struct Playlist {
    pub name: String,
    pub url: String,
    pub songs: Vec<Song>,
}

/// A copy of a list of songs.
pub fn clone_songs(songs: &[Song]) -> (r: Vec<Song>)
    ensures
        r@ == songs@,
{
    let mut r: Vec<Song> = Vec::new();
    let mut i: usize = 0;
    while i < songs.len()
        invariant
            i <= songs.len(),
            r@ == songs@.take(i as int),
        decreases songs.len() - i,
    {
        r.push(songs[i].clone());
        i += 1;
        assert(r@ =~= songs@.take(i as int));
    }
    assert(songs@.take(songs@.len() as int) =~= songs@);
    r
}

impl Clone for Playlist {
    fn clone(&self) -> (r: Self)
        ensures
            r.name == self.name,
            r.url == self.url,
            r.songs@ == self.songs@,
    {
        Playlist { name: self.name.clone(), url: self.url.clone(), songs: clone_songs(&self.songs) }
    }
}

/// Index of all known playlists (lightweight, no songs).
#[derive(Debug, Clone)]
pub struct PlaylistIndex {
    pub entries: Vec<PlaylistIndexEntry>,
}

/// One playlist in the index.
#[derive(Debug, Clone)]
pub struct PlaylistIndexEntry {
    pub name: String,
    pub url: String,
    pub song_count: usize,
}

impl PlaylistIndex {
    /// One index entry per playlist, in order: its name, URL and song count.
    pub fn from_playlists(playlists: &[Playlist]) -> (r: Self)
        ensures
            r.entries@.len() == playlists@.len(),
            forall|k: int|
                0 <= k < playlists@.len() ==> (#[trigger] r.entries@[k]).name == playlists@[k].name
                    && r.entries@[k].url == playlists@[k].url && r.entries@[k].song_count
                    == playlists@[k].songs@.len(),
    {
        let mut entries: Vec<PlaylistIndexEntry> = Vec::new();
        let mut i: usize = 0;
        while i < playlists.len()
            invariant
                i <= playlists.len(),
                entries@.len() == i,
                forall|k: int|
                    0 <= k < i ==> (#[trigger] entries@[k]).name == playlists@[k].name
                        && entries@[k].url == playlists@[k].url && entries@[k].song_count
                        == playlists@[k].songs@.len(),
            decreases playlists.len() - i,
        {
            let p = &playlists[i];
            entries.push(
                PlaylistIndexEntry {
                    name: p.name.clone(),
                    url: p.url.clone(),
                    song_count: p.songs.len(),
                },
            );
            i += 1;
        }
        PlaylistIndex { entries }
    }
}

/// `MM:SS` shows whole minutes, never cut short, then seconds: the text is
/// digits, a colon and two digits; the digits before the colon (at least
/// two) read as `secs / 60` and the two after it as `secs % 60`.
pub proof fn law_minutes_seconds_reads_back(secs: nat)
    ensures
        ({
            let t = minutes_seconds(secs);
            let c = t.len() - 3;
            &&& t.len() >= 5
            &&& t[c] == ':'
            &&& all_digits(t.take(c))
            &&& all_digits(t.skip(c + 1))
            &&& decimal_value(t.take(c)) == secs / 60
            &&& decimal_value(t.skip(c + 1)) == secs % 60
        }),
{
    let m = two_digit_spec(secs / 60);
    let r = two_digit_spec(secs % 60);
    lemma_two_digits_read_back(secs / 60);
    lemma_two_digits_read_back(secs % 60);
    let t = minutes_seconds(secs);
    assert(t == m + seq![':'] + r);
    let c = t.len() - 3;
    assert(c == m.len());
    assert(t.take(c) =~= m);
    assert(t.skip(c + 1) =~= r);
}

} // verus!
