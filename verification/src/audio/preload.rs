//! Preloading upcoming songs: where a preloaded file is kept, the `yt-dlp`
//! arguments that download it, and which files the bounded preload cache
//! evicts. Running `yt-dlp` and removing files are done by the caller.
use std::collections::VecDeque;
use vstd::prelude::*;

use crate::paths::{joined_path, path_join};
use crate::search::{hash_text, text_hash};
use crate::text::{hex_spec, push_hex, push_str, string_from_chars};

verus! {

/// Why the preloader could not start or run a download.
#[derive(Debug)]
pub enum PreloaderError {
    /// The cache directory could not be created.
    CacheDir(std::io::Error),
    /// `yt-dlp` could not be started.
    Spawn(std::io::Error),
}

/// Why a download for keeping could not be started.
#[derive(Debug)]
pub enum DownloadError {
    /// The target directory could not be created.
    Io(std::io::Error),
    /// `yt-dlp` could not be started.
    YtdlpSpawn(std::io::Error),
}

/// The file name of the preloaded audio of `url`: the hexadecimal hash of the
/// URL with the extension `.opus`.
pub open spec fn preload_file_name(url: Seq<char>) -> Seq<char> {
    hex_spec(text_hash(url) as nat) + ".opus"@
}

/// The file under `cache_dir` that holds the preloaded audio of `url`.
pub fn make_cache_path(cache_dir: &str, url: &str) -> (r: Option<String>)
    ensures
        r matches Some(p) && p@ == joined_path(cache_dir@, preload_file_name(url@)),
{
    let hash = hash_text(url);
    let mut name: Vec<char> = Vec::new();
    push_hex(&mut name, hash);
    push_str(&mut name, ".opus");
    let name = string_from_chars(&name);
    Some(path_join(cache_dir, name.as_str()))
}

/// The `yt-dlp` arguments that download the best audio of `url` to `path`,
/// with the cookies file when one is given.
pub open spec fn download_args_spec(url: Seq<char>, path: Seq<char>, cookies: Option<Seq<char>>) -> Seq<Seq<char>> {
    let base = seq!["--no-warnings"@, "--quiet"@, "-f"@, "bestaudio"@, "-o"@, path, url];
    match cookies {
        Some(c) => base + seq!["--cookies"@, c],
        None => base,
    }
}

/// The views of a list of strings.
pub open spec fn views(v: Seq<String>) -> Seq<Seq<char>> {
    v.map_values(|s: String| s@)
}

/// The view of an optional string.
pub open spec fn opt_view(o: Option<&str>) -> Option<Seq<char>> {
    match o {
        Some(s) => Some(s@),
        None => None,
    }
}

/// Appends a copy of `s` to `args`.
pub fn push_arg(args: &mut Vec<String>, s: &str)
    ensures
        final(args)@.len() == old(args)@.len() + 1,
        views(final(args)@) == views(old(args)@).push(s@),
{
    let t = s.to_string();
    args.push(t);
    assert(views(final(args)@) =~= views(old(args)@).push(s@));
}

/// The `yt-dlp` arguments that download the best audio of `url` to `path`.
pub fn download_args(url: &str, path: &str, cookies: Option<&str>) -> (r: Vec<String>)
    ensures
        views(r@) == download_args_spec(url@, path@, opt_view(cookies)),
{
    let mut r: Vec<String> = Vec::new();
    push_arg(&mut r, "--no-warnings");
    push_arg(&mut r, "--quiet");
    push_arg(&mut r, "-f");
    push_arg(&mut r, "bestaudio");
    push_arg(&mut r, "-o");
    push_arg(&mut r, path);
    push_arg(&mut r, url);
    if let Some(c) = cookies {
        push_arg(&mut r, "--cookies");
        push_arg(&mut r, c);
    }
    proof {
        reveal_strlit("--no-warnings");
        reveal_strlit("--quiet");
        reveal_strlit("-f");
        reveal_strlit("bestaudio");
        reveal_strlit("-o");
        reveal_strlit("--cookies");
    }
    assert(views(r@) =~= download_args_spec(url@, path@, opt_view(cookies)));
    r
}

/// The files that stay after one more was recorded in a cache of
/// `capacity` files: the oldest ones leave until at most `capacity` stay.
pub open spec fn kept_files(files: Seq<Seq<char>>, capacity: nat) -> Seq<Seq<char>> {
    if files.len() > capacity {
        files.skip(files.len() - capacity)
    } else {
        files
    }
}

/// The preloaded files, oldest first, of which at most `capacity` are kept.
pub struct PreloadCache {
    cached: VecDeque<String>,
    capacity: usize,
}

impl PreloadCache {
    /// The paths of the kept files, oldest first.
    pub closed spec fn files(&self) -> Seq<Seq<char>> {
        self.cached@.map_values(|s: String| s@)
    }

    /// How many files are kept at most.
    pub closed spec fn limit(&self) -> nat {
        self.capacity as nat
    }

    /// An empty cache that keeps at most `capacity` files.
    pub fn new(capacity: usize) -> (r: Self)
        ensures
            r.files() == Seq::<Seq<char>>::empty(),
            r.limit() == capacity,
    {
        let r = PreloadCache { cached: VecDeque::new(), capacity };
        assert(r.files() =~= Seq::<Seq<char>>::empty());
        r
    }

    /// Records that `path` was preloaded, and returns the files to remove,
    /// oldest first: those beyond the capacity.
    pub fn record(&mut self, path: String) -> (evicted: Vec<String>)
        ensures
            final(self).limit() == old(self).limit(),
            final(self).files() == kept_files(old(self).files().push(path@), old(self).limit()),
            views(evicted@) + final(self).files() == old(self).files().push(path@),
    {
        let ghost all = self.files().push(path@);
        self.cached.push_back(path);
        assert(self.files() =~= all);
        let mut evicted: Vec<String> = Vec::new();
        while self.cached.len() > self.capacity
            invariant
                self.capacity == old(self).capacity,
                views(evicted@) + self.files() == all,
                evicted@.len() + self.files().len() == all.len(),
                all.len() > self.capacity ==> self.files().len() >= self.capacity,
                all.len() <= self.capacity ==> evicted@.len() == 0,
            decreases self.cached@.len(),
        {
            let ghost before = self.files();
            match self.cached.pop_front() {
                Some(old_path) => {
                    proof {
                        assert(before[0] == old_path@);
                        assert(self.files() =~= before.drop_first());
                    }
                    evicted.push(old_path);
                    assert(views(evicted@) + self.files() =~= all);
                },
                None => {},
            }
        }
        proof {
            let k = evicted@.len() as int;
            assert(self.files() =~= all.skip(k));
            if all.len() > self.capacity {
                assert(self.files().len() == self.capacity);
            }
        }
        evicted
    }
}

/// The output template, under `target_dir`, of a song downloaded for
/// keeping: `yt-dlp` fills in the title, the id and the extension.
pub open spec fn download_pattern_spec(target_dir: Seq<char>) -> Seq<char> {
    joined_path(target_dir, "%(title)s-%(id)s.%(ext)s"@)
}

/// The output template of a song downloaded to `target_dir`.
pub fn download_output_pattern(target_dir: &str) -> (r: String)
    ensures
        r@ == download_pattern_spec(target_dir@),
{
    path_join(target_dir, "%(title)s-%(id)s.%(ext)s")
}

} // verus!
