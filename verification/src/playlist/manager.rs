//! The on-disk layout of the playlist cache under a base directory, and the
//! bookkeeping of songs whose downloaded file went missing. Reading and
//! writing the files is done by the caller.
use vstd::prelude::*;

use crate::paths::{joined_path, path_join};
use crate::config::playlist::PlaylistEntry;
use crate::playlist::models::{Playlist, Song};

verus! {

/// Manages playlist data on disk under a base directory (e.g. ~/.termtube/).
pub struct PlaylistManager {
    base_dir: String,
}

/// The songs after forgetting the local files that no longer exist:
/// `exists[k]` tells whether the local file of song `k` exists.
pub open spec fn songs_with_existing_files(songs: Seq<Song>, exists: Seq<bool>) -> Seq<Song> {
    Seq::new(
        songs.len(),
        |k: int|
            if songs[k].local_path is Some && !exists[k] {
                Song { local_path: None, ..songs[k] }
            } else {
                songs[k]
            },
    )
}

/// Whether some song records a local file that no longer exists.
pub open spec fn some_file_missing(songs: Seq<Song>, exists: Seq<bool>) -> bool {
    exists|k: int| 0 <= k < songs.len() && songs[k].local_path is Some && !exists[k]
}

impl PlaylistManager {
    /// The base directory.
    pub closed spec fn base(&self) -> Seq<char> {
        self.base_dir@
    }

    pub fn new(base_dir: &str) -> (r: Self)
        ensures
            r.base() == base_dir@,
    {
        PlaylistManager { base_dir: base_dir.to_string() }
    }

    /// Forgets the local files of songs whose file no longer exists:
    /// `path_exists[k]` tells whether the local file recorded for song `k`
    /// exists. Returns whether anything changed (the caller then saves the playlist).
    pub fn validate_playlist_local_paths(&self, playlist: &mut Playlist, path_exists: &[bool]) -> (changed: bool)
        requires
            path_exists@.len() == old(playlist).songs@.len(),
        ensures
            final(playlist).name == old(playlist).name,
            final(playlist).url == old(playlist).url,
            final(playlist).songs@ == songs_with_existing_files(old(playlist).songs@, path_exists@),
            changed == some_file_missing(old(playlist).songs@, path_exists@),
    {
        let mut changed = false;
        let n = playlist.songs.len();
        let ghost orig = playlist.songs@;
        let mut i: usize = 0;
        while i < n
            invariant
                n == orig.len(),
                path_exists@.len() == n,
                i <= n,
                playlist.name == old(playlist).name,
                playlist.url == old(playlist).url,
                orig == old(playlist).songs@,
                playlist.songs@.len() == n,
                forall|k: int| 0 <= k < i ==> #[trigger] playlist.songs@[k] == songs_with_existing_files(orig, path_exists@)[k],
                forall|k: int| i <= k < n ==> #[trigger] playlist.songs@[k] == orig[k],
                changed == exists|k: int| 0 <= k < i && orig[k].local_path is Some && !path_exists@[k],
            decreases n - i,
        {
            if playlist.songs[i].local_path.is_some() && !path_exists[i] {
                playlist.songs[i].local_path = None;
                changed = true;
            }
            i += 1;
        }
        assert(playlist.songs@ =~= songs_with_existing_files(orig, path_exists@));
        changed
    }

    /// Directory where individual playlist JSON files are stored.
    pub fn playlists_dir(&self) -> (r: String)
        ensures
            r@ == joined_path(self.base(), "playlists"@),
    {
        path_join(self.base_dir.as_str(), "playlists")
    }

    /// The file of the playlist index.
    pub fn index_path(&self) -> (r: String)
        ensures
            r@ == joined_path(self.base(), "playlists.json"@),
    {
        path_join(self.base_dir.as_str(), "playlists.json")
    }

    /// The cache file of the playlist named `name`.
    pub fn playlist_cache_path(&self, name: &str) -> (r: String)
        ensures
            r@ == joined_path(joined_path(self.base(), "playlists"@), name@ + ".json"@),
    {
        let mut file = name.to_string();
        file.append(".json");
        let dir = self.playlists_dir();
        path_join(dir.as_str(), file.as_str())
    }
}

/// The values present in `s`, in order.
pub open spec fn present<T>(s: Seq<Option<T>>) -> Seq<T>
    decreases s.len(),
{
    if s.len() == 0 {
        Seq::empty()
    } else {
        let rest = present(s.drop_last());
        match s.last() {
            Some(x) => rest.push(x),
            None => rest,
        }
    }
}

/// The playlist a sync ends with for one entry: the fetched one, else the
/// cached one as a fallback.
pub open spec fn sync_choice(outcome: (Option<Playlist>, Option<Playlist>)) -> Option<Playlist> {
    match outcome.0 {
        Some(p) => Some(p),
        None => outcome.1,
    }
}

/// `v` in reverse order.
fn reversed<T>(v: Vec<T>) -> (r: Vec<T>)
    ensures
        r@ == v@.reverse(),
{
    let ghost all = v@;
    let mut v = v;
    let mut r: Vec<T> = Vec::new();
    while v.len() > 0
        invariant
            v@ == all.take(v@.len() as int),
            r@.len() + v@.len() == all.len(),
            forall|k: int| 0 <= k < r@.len() ==> #[trigger] r@[k] == all[all.len() - 1 - k],
        decreases v@.len(),
    {
        match v.pop() {
            Some(x) => {
                r.push(x);
            },
            None => {},
        }
        assert(v@ =~= all.take(v@.len() as int));
    }
    assert(r@ =~= all.reverse());
    r
}

/// The values present in `v`, in order.
fn take_present<T>(v: Vec<Option<T>>) -> (r: Vec<T>)
    ensures
        r@ == present(v@),
{
    let ghost all = v@;
    let mut rev = reversed(v);
    let mut r: Vec<T> = Vec::new();
    while rev.len() > 0
        invariant
            rev@.len() <= all.len(),
            forall|k: int| 0 <= k < rev@.len() ==> #[trigger] rev@[k] == all[all.len() - 1 - k],
            r@ == present(all.take(all.len() - rev@.len())),
        decreases rev@.len(),
    {
        let ghost j = all.len() - rev@.len();
        assert(rev@[rev@.len() - 1] == all[j]);
        assert(all.take(j + 1).drop_last() =~= all.take(j));
        assert(all.take(j + 1).last() == all[j]);
        match rev.pop() {
            Some(item) => {
                if let Some(x) = item {
                    r.push(x);
                }
            },
            None => {},
        }
    }
    assert(all.take(all.len() as int) =~= all);
    r
}

impl PlaylistManager {
    /// The playlists that loaded from the cache, in the order of the entries:
    /// `cached[k]` is what loading the cache file of entry `k` gave.
    pub fn load_all_cached(&self, cached: Vec<Option<Playlist>>) -> (r: Vec<Playlist>)
        ensures
            r@ == present(cached@),
    {
        take_present(cached)
    }

    /// The playlists after syncing: for each entry, in order, the fetched
    /// playlist, else the cached one; entries with neither are left out.
    /// `outcomes[k]` holds what fetching entry `k` gave and, where that
    /// failed, what its cache file held.
    pub fn synced_playlists(outcomes: Vec<(Option<Playlist>, Option<Playlist>)>) -> (r: Vec<Playlist>)
        ensures
            r@ == present(outcomes@.map_values(|o: (Option<Playlist>, Option<Playlist>)| sync_choice(o))),
    {
        let ghost all = outcomes@;
        let ghost chosen = all.map_values(|o: (Option<Playlist>, Option<Playlist>)| sync_choice(o));
        let mut rev = reversed(outcomes);
        let mut choices: Vec<Option<Playlist>> = Vec::new();
        while rev.len() > 0
            invariant
                rev@.len() <= all.len(),
                chosen == all.map_values(|o: (Option<Playlist>, Option<Playlist>)| sync_choice(o)),
                forall|k: int| 0 <= k < rev@.len() ==> #[trigger] rev@[k] == all[all.len() - 1 - k],
                choices@ == chosen.take(all.len() - rev@.len()),
            decreases rev@.len(),
        {
            let ghost j = all.len() - rev@.len();
            assert(rev@[rev@.len() - 1] == all[j]);
            match rev.pop() {
                Some((fetched, cached)) => {
                    let c = match fetched {
                        Some(p) => Some(p),
                        None => cached,
                    };
                    choices.push(c);
                },
                None => {},
            }
            assert(choices@ =~= chosen.take(j + 1));
        }
        assert(chosen.take(all.len() as int) =~= chosen);
        take_present(choices)
    }

    /// Whether the cache holds a playlist for every entry, so that it can be
    /// used without syncing.
    pub fn cache_is_complete(entries: &[PlaylistEntry], cached: &[Playlist]) -> (b: bool)
        ensures
            b == (cached@.len() == entries@.len()),
    {
        cached.len() == entries.len()
    }
}

} // verus!
