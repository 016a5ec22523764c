//! The parts of talking to `yt-dlp` that compute: the URL handed to it, the
//! lines of its JSON output and the song built from one output record.
//! Running the process and decoding the JSON are done by the caller.
use vstd::prelude::*;

use crate::audio::preload::{opt_view, push_arg, views};
use crate::playlist::models::Song;
use crate::text::{
    chars_replace, decimal_spec, lines_spec, push_decimal, push_str, replace_spec, split_lines,
    str_chars, string_from_chars, trim_chars, trim_spec,
};

verus! {

/// `url` with every `music.youtube.com` replaced by `www.youtube.com`.
pub open spec fn normalized_url(url: Seq<char>) -> Seq<char> {
    replace_spec(url, "music.youtube.com"@, "www.youtube.com"@)
}

/// Normalize YouTube Music URLs to standard YouTube URLs for yt-dlp compatibility.
pub fn normalize_url(url: &str) -> (r: String)
    ensures
        r@ == normalized_url(url@),
{
    let s = str_chars(url);
    let from = str_chars("music.youtube.com");
    let to = str_chars("www.youtube.com");
    proof {
        reveal_strlit("music.youtube.com");
    }
    let r = chars_replace(&s, &from, &to);
    string_from_chars(&r)
}

/// The trimmed non-blank lines of `output`, in order.
pub open spec fn record_lines(output: Seq<char>) -> Seq<Seq<char>> {
    lines_spec(output).map_values(|l: Seq<char>| trim_spec(l)).filter(
        |l: Seq<char>| l.len() > 0,
    )
}

/// The records of `yt-dlp`'s NDJSON output: each line trimmed, blank lines
/// dropped. The caller decodes each as one JSON object.
pub fn output_records(output: &str) -> (r: Vec<String>)
    ensures
        r@.len() == record_lines(output@).len(),
        forall|k: int| 0 <= k < r@.len() ==> #[trigger] r@[k]@ == record_lines(output@)[k],
{
    let chars = str_chars(output);
    let lines = split_lines(&chars);
    let ghost trimmed = lines_spec(output@).map_values(|l: Seq<char>| trim_spec(l));
    let ghost pred = |l: Seq<char>| l.len() > 0;
    let mut r: Vec<String> = Vec::new();
    let ghost mut rv: Seq<Seq<char>> = Seq::empty();
    let mut i: usize = 0;
    while i < lines.len()
        invariant
            lines@.len() == lines_spec(output@).len(),
            forall|k: int| 0 <= k < lines@.len() ==> #[trigger] lines@[k]@ == lines_spec(output@)[k],
            trimmed == lines_spec(output@).map_values(|l: Seq<char>| trim_spec(l)),
            i <= lines@.len(),
            r@.len() == rv.len(),
            forall|k: int| 0 <= k < r@.len() ==> #[trigger] r@[k]@ == rv[k],
            rv == trimmed.take(i as int).filter(pred),
            pred == (|l: Seq<char>| l.len() > 0),
        decreases lines@.len() - i,
    {
        let t = trim_chars(&lines[i]);
        proof {
            reveal_with_fuel(Seq::<_>::filter, 1);
            assert(trimmed.take(i + 1).drop_last() =~= trimmed.take(i as int));
            assert(trimmed[i as int] == t@);
        }
        proof {
            let tk = trimmed.take(i + 1);
            assert(tk.last() == t@);
            assert(tk.filter(pred) == if pred(tk.last()) {
                tk.drop_last().filter(pred).push(tk.last())
            } else {
                tk.drop_last().filter(pred)
            });
            assert(pred(t@) == (t@.len() > 0));
        }
        if t.len() > 0 {
            let s = string_from_chars(&t);
            proof {
                rv = rv.push(t@);
            }
            r.push(s);
        }
        i += 1;
    }
    assert(trimmed.take(lines@.len() as int) =~= trimmed);
    assert(pred =~= (|l: Seq<char>| l.len() > 0));
    r
}

/// The artist of a record: the uploader, else the channel, else empty.
pub open spec fn artist_of(uploader: Option<String>, channel: Option<String>) -> Seq<char> {
    match uploader {
        Some(u) => u@,
        None => match channel {
            Some(c) => c@,
            None => Seq::empty(),
        },
    }
}

/// The artist of a record: the uploader, else the channel, else empty.
pub fn entry_artist(uploader: &Option<String>, channel: &Option<String>) -> (r: String)
    ensures
        r@ == artist_of(*uploader, *channel),
{
    match uploader {
        Some(u) => u.clone(),
        None => match channel {
            Some(c) => c.clone(),
            None => String::new(),
        },
    }
}

/// The song described by one output record: the title defaults to `Unknown`,
/// the duration is in whole seconds, and no local file or download is recorded.
pub fn song_from_record(
    id: String,
    title: Option<String>,
    duration_secs: Option<u64>,
    uploader: Option<String>,
    channel: Option<String>,
) -> (s: Song)
    ensures
        s.video_id == id,
        s.title@ == match title {
            Some(t) => t@,
            None => "Unknown"@,
        },
        s.duration == duration_secs,
        s.artist@ == artist_of(uploader, channel),
        s.local_path is None,
        s.download_status is None,
{
    let artist = entry_artist(&uploader, &channel);
    let title = match title {
        Some(t) => t,
        None => "Unknown".to_string(),
    };
    Song {
        title,
        video_id: id,
        duration: duration_secs,
        artist,
        local_path: None,
        download_status: None,
    }
}

/// The `yt-dlp` arguments that list the metadata of `target` as one JSON
/// object per line, with the cookies file when one is given.
pub open spec fn listing_args_spec(target: Seq<char>, cookies: Option<Seq<char>>) -> Seq<Seq<char>> {
    let base = seq!["--flat-playlist"@, "--dump-json"@, "--no-warnings"@, "--ignore-errors"@];
    match cookies {
        Some(c) => base + seq!["--cookies"@, c, target],
        None => base.push(target),
    }
}

/// The `yt-dlp` arguments that list the metadata of `target`.
fn listing_args(target: &str, cookies: Option<&str>) -> (r: Vec<String>)
    ensures
        views(r@) == listing_args_spec(target@, opt_view(cookies)),
{
    let mut r: Vec<String> = Vec::new();
    push_arg(&mut r, "--flat-playlist");
    push_arg(&mut r, "--dump-json");
    push_arg(&mut r, "--no-warnings");
    push_arg(&mut r, "--ignore-errors");
    if let Some(c) = cookies {
        push_arg(&mut r, "--cookies");
        push_arg(&mut r, c);
    }
    push_arg(&mut r, target);
    proof {
        reveal_strlit("--flat-playlist");
        reveal_strlit("--dump-json");
        reveal_strlit("--no-warnings");
        reveal_strlit("--ignore-errors");
        reveal_strlit("--cookies");
    }
    assert(views(r@) =~= listing_args_spec(target@, opt_view(cookies)));
    r
}

/// The `yt-dlp` arguments that fetch the song metadata of the playlist at
/// `url` (YouTube Music URLs are rewritten to YouTube ones).
pub fn playlist_fetch_args(url: &str, cookies: Option<&str>) -> (r: Vec<String>)
    ensures
        views(r@) == listing_args_spec(normalized_url(url@), opt_view(cookies)),
{
    let normalized = normalize_url(url);
    listing_args(normalized.as_str(), cookies)
}

/// The search target `ytsearch<limit>:<query>`.
pub open spec fn search_target(query: Seq<char>, limit: nat) -> Seq<char> {
    "ytsearch"@ + decimal_spec(limit) + ":"@ + query
}

/// The `yt-dlp` arguments that search YouTube Music for `query`, listing at
/// most `limit` results.
pub fn search_args(query: &str, cookies: Option<&str>, limit: usize) -> (r: Vec<String>)
    requires
        limit <= u64::MAX,
    ensures
        views(r@) == listing_args_spec(search_target(query@, limit as nat), opt_view(cookies)),
{
    let mut t: Vec<char> = Vec::new();
    push_str(&mut t, "ytsearch");
    push_decimal(&mut t, limit as u64);
    push_str(&mut t, ":");
    push_str(&mut t, query);
    assert(t@ =~= search_target(query@, limit as nat));
    let target = string_from_chars(&t);
    listing_args(target.as_str(), cookies)
}

} // verus!
