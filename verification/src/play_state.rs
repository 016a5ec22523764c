//! What the player plays next: the current song, the songs coming up (kept
//! a few ahead so they can be preloaded), the songs already played, and the
//! linear or shuffled order they are drawn from.
use std::collections::VecDeque;
use vstd::prelude::*;

use crate::app::{App, RepeatMode};
use crate::audio::queue::shuffle_positions;
use crate::playlist::models::{clone_songs, watch_url, Song};

verus! {

/// How many songs are kept ready in the upcoming list.
pub const PRELOAD_SIZE: usize = 5;

/// State for the preloaded playback queue.
pub struct PlayState {
    pub current_song: Option<Song>,
    /// Songs coming up next (preloaded).
    pub upcoming: VecDeque<Song>,
    /// Songs already played (for Previous).
    pub history: Vec<Song>,
    /// Source playlist index from which the queue was built.
    pub source_playlist: usize,
    /// The next linear index to pick from when refilling the upcoming queue (normal mode).
    pub next_linear_index: usize,
    /// Remaining shuffled indices for the current shuffle cycle.
    pub shuffle_pool: VecDeque<usize>,
    /// How long the current song has been playing.
    pub clock: PlaybackClock,
}

/// How long the current song has been playing, pauses excluded. Times are
/// milliseconds on a monotonic clock of the caller's.
#[derive(Debug, Clone, Copy, PartialEq, Eq, Structural)]
pub struct PlaybackClock {
    /// When playback of the current song started.
    pub started_at: Option<u64>,
    /// The total length of the pauses that ended.
    pub paused_ms: u64,
    /// When the pause under way began.
    pub pause_began: Option<u64>,
}

/// `a - b`, or 0 when `b` is larger.
pub open spec fn saturating_sub(a: u64, b: u64) -> u64 {
    if a >= b {
        (a - b) as u64
    } else {
        0
    }
}

/// `a + b`, or `u64::MAX` when that does not fit.
pub open spec fn saturating_add_u64(a: u64, b: u64) -> u64 {
    if a + b > u64::MAX {
        u64::MAX
    } else {
        (a + b) as u64
    }
}

/// The whole seconds played at `now`: the time since the start, less the
/// ended pauses and the pause under way.
pub open spec fn played_secs(c: PlaybackClock, now: u64) -> u64 {
    let total = match c.started_at {
        Some(s) => saturating_sub(now, s),
        None => 0,
    };
    let current_pause = match c.pause_began {
        Some(p) => saturating_sub(now, p),
        None => 0,
    };
    (saturating_sub(total, saturating_add_u64(c.paused_ms, current_pause)) / 1000) as u64
}

impl PlaybackClock {
    /// A clock that has not started.
    pub fn stopped() -> (r: Self)
        ensures
            r == (PlaybackClock { started_at: None, paused_ms: 0, pause_began: None }),
    {
        PlaybackClock { started_at: None, paused_ms: 0, pause_began: None }
    }

    /// A clock that started at `now`.
    pub fn started(now: u64) -> (r: Self)
        ensures
            r == (PlaybackClock { started_at: Some(now), paused_ms: 0, pause_began: None }),
    {
        PlaybackClock { started_at: Some(now), paused_ms: 0, pause_began: None }
    }

    /// A pause begins at `now`.
    pub fn pause(&mut self, now: u64)
        ensures
            *final(self) == (PlaybackClock { pause_began: Some(now), ..*old(self) }),
    {
        self.pause_began = Some(now);
    }

    /// The pause under way, if any, ends at `now`.
    pub fn resume(&mut self, now: u64)
        ensures
            *final(self) == match old(self).pause_began {
                Some(p) => PlaybackClock {
                    pause_began: None,
                    paused_ms: saturating_add_u64(old(self).paused_ms, saturating_sub(now, p)),
                    ..*old(self)
                },
                None => *old(self),
            },
    {
        if let Some(p) = self.pause_began {
            let d: u64 = if now >= p {
                now - p
            } else {
                0
            };
            self.paused_ms = self.paused_ms.saturating_add(d);
            self.pause_began = None;
        }
    }

    /// The whole seconds played at `now`.
    pub fn elapsed_secs(&self, now: u64) -> (r: u64)
        ensures
            r == played_secs(*self, now),
    {
        let total: u64 = match self.started_at {
            Some(s) => if now >= s {
                now - s
            } else {
                0
            },
            None => 0,
        };
        let current_pause: u64 = match self.pause_began {
            Some(p) => if now >= p {
                now - p
            } else {
                0
            },
            None => 0,
        };
        let paused = self.paused_ms.saturating_add(current_pause);
        let played: u64 = if total >= paused {
            total - paused
        } else {
            0
        };
        played / 1000
    }
}

/// Whether the song id `id` is excluded from a shuffle pool: it is the id of
/// `exclude` or of one of the `upcoming` songs.
pub open spec fn id_excluded(id: Seq<char>, exclude: Option<Song>, upcoming: Seq<Song>) -> bool {
    ||| (exclude matches Some(e) && e.video_id@ == id)
    ||| exists|k: int| 0 <= k < upcoming.len() && (#[trigger] upcoming[k]).video_id@ == id
}

/// The positions below `n` whose song is not excluded, in ascending order.
pub open spec fn pool_candidates(songs: Seq<Song>, exclude: Option<Song>, upcoming: Seq<Song>, n: nat) -> Seq<usize>
    decreases n,
{
    if n == 0 {
        Seq::empty()
    } else {
        let rest = pool_candidates(songs, exclude, upcoming, (n - 1) as nat);
        if id_excluded(songs[n - 1].video_id@, exclude, upcoming) {
            rest
        } else {
            rest.push((n - 1) as usize)
        }
    }
}

/// Whether every position in `pool` points into `songs`.
pub open spec fn pool_valid(pool: Seq<usize>, len: nat) -> bool {
    forall|k: int| 0 <= k < pool.len() ==> #[trigger] pool[k] < len
}

/// The songs at the given positions.
pub open spec fn songs_at(songs: Seq<Song>, idxs: Seq<usize>) -> Seq<Song> {
    idxs.map_values(|i: usize| songs[i as int])
}

/// The songs of a linear window: the `n` positions from `start` on; past the
/// end they wrap round with repeat-all and are left out otherwise.
pub open spec fn linear_window(songs: Seq<Song>, start: int, n: nat, repeat: RepeatMode) -> Seq<Song>
    decreases n,
{
    if n == 0 {
        Seq::empty()
    } else {
        let prev = linear_window(songs, start, (n - 1) as nat, repeat);
        let idx = start + n - 1;
        if idx < songs.len() {
            prev.push(songs[idx])
        } else if repeat == RepeatMode::All && songs.len() > 0 {
            prev.push(songs[idx % (songs.len() as int)])
        } else {
            prev
        }
    }
}

/// What `count` linear refills starting at position `next` add, and the
/// position to continue from.
pub open spec fn linear_refill(songs: Seq<Song>, next: int, count: nat, repeat: RepeatMode) -> (Seq<Song>, int)
    decreases count,
{
    if count == 0 {
        (Seq::empty(), next)
    } else {
        let (prev, idx) = linear_refill(songs, next, (count - 1) as nat, repeat);
        if idx < songs.len() {
            (prev.push(songs[idx]), idx + 1)
        } else if repeat == RepeatMode::All && songs.len() > 0 {
            (prev.push(songs[idx % (songs.len() as int)]), idx + 1)
        } else {
            (prev, idx)
        }
    }
}

/// Refilling from an empty playlist adds nothing.
proof fn lemma_linear_refill_empty(songs: Seq<Song>, next: int, count: nat, repeat: RepeatMode)
    requires
        songs.len() == 0,
        next >= 0,
    ensures
        linear_refill(songs, next, count, repeat) == (Seq::<Song>::empty(), next),
    decreases count,
{
    if count > 0 {
        lemma_linear_refill_empty(songs, next, (count - 1) as nat, repeat);
    }
}

/// A shuffle cycle that just started after the song `current`: the upcoming
/// songs and the remaining pool are the front and the rest of one order of
/// all positions whose song is not `current` (by id), with as many songs
/// upcoming as the window holds.
pub open spec fn fresh_shuffle_cycle(songs: Seq<Song>, current: Song, upcoming: Seq<Song>, pool: Seq<usize>) -> bool {
    exists|order: Seq<usize>|
        {
            &&& #[trigger] order.to_multiset() == pool_candidates(
                songs,
                Some(current),
                Seq::empty(),
                songs.len(),
            ).to_multiset()
            &&& upcoming.len() == if order.len() < PRELOAD_SIZE {
                order.len()
            } else {
                PRELOAD_SIZE as nat
            }
            &&& upcoming == songs_at(songs, order.take(upcoming.len() as int))
            &&& pool == order.skip(upcoming.len() as int)
        }
}

/// The first position of a song with the id `id`, if any.
pub open spec fn song_position(songs: Seq<Song>, id: Seq<char>) -> Option<int> {
    if exists|k: int| 0 <= k < songs.len() && songs[k].video_id@ == id {
        Some(
            choose|k: int|
                0 <= k < songs.len() && songs[k].video_id@ == id && forall|j: int|
                    0 <= j < k ==> songs[j].video_id@ != id,
        )
    } else {
        None
    }
}

/// `a + b`, or `usize::MAX` when that does not fit.
pub open spec fn saturating_add(a: usize, b: usize) -> usize {
    if a + b > usize::MAX {
        usize::MAX
    } else {
        (a + b) as usize
    }
}

/// The watch URLs of the first `target` upcoming songs.
pub open spec fn preload_targets(upcoming: Seq<Song>, target: usize) -> Seq<Seq<char>> {
    let n = if upcoming.len() < target {
        upcoming.len()
    } else {
        target as nat
    };
    Seq::new(n, |k: int| watch_url(upcoming[k].video_id@))
}

/// The song an optional reference points to.
pub open spec fn deref_song(o: Option<&Song>) -> Option<Song> {
    match o {
        Some(s) => Some(*s),
        None => None,
    }
}

/// Whether the song id `id` is excluded, computed.
fn is_excluded(id: &String, exclude: Option<&Song>, upcoming: &VecDeque<Song>) -> (b: bool)
    ensures
        b == id_excluded(id@, deref_song(exclude), upcoming@),
{
    if let Some(e) = exclude {
        if e.video_id == *id {
            return true;
        }
    }
    let mut k: usize = 0;
    while k < upcoming.len()
        invariant
            k <= upcoming@.len(),
            forall|j: int| 0 <= j < k ==> (#[trigger] upcoming@[j]).video_id@ != id@,
        decreases upcoming@.len() - k,
    {
        if upcoming[k].video_id == *id {
            assert(upcoming@[k as int].video_id@ == id@);
            return true;
        }
        k += 1;
    }
    false
}

/// A shuffled pool of positions of `songs`, leaving out the song `exclude`
/// and the `upcoming` songs (by id). Which order comes out is random.
pub fn build_shuffle_pool(songs: &[Song], exclude: Option<&Song>, upcoming: &VecDeque<Song>) -> (r: VecDeque<usize>)
    ensures
        r@.to_multiset() == pool_candidates(songs@, deref_song(exclude), upcoming@, songs@.len()).to_multiset(),
        pool_valid(r@, songs@.len()),
        forall|k: int| 0 <= k < r@.len() ==> !id_excluded(songs@[r@[k] as int].video_id@, deref_song(exclude), upcoming@),
{
    let ghost ex = deref_song(exclude);
    let mut v: Vec<usize> = Vec::new();
    let mut i: usize = 0;
    while i < songs.len()
        invariant
            i <= songs@.len(),
            ex == deref_song(exclude),
            v@ == pool_candidates(songs@, ex, upcoming@, i as nat),
            forall|k: int| 0 <= k < v@.len() ==> #[trigger] v@[k] < i && !id_excluded(songs@[v@[k] as int].video_id@, ex, upcoming@),
        decreases songs@.len() - i,
    {
        if !is_excluded(&songs[i].video_id, exclude, upcoming) {
            v.push(i);
        }
        i += 1;
    }
    let ghost before = v@;
    shuffle_positions(&mut v);
    proof {
        before.to_multiset_ensures();
        v@.to_multiset_ensures();
        assert forall|k: int| 0 <= k < v@.len() implies #[trigger] v@[k] < songs@.len() && !id_excluded(songs@[v@[k] as int].video_id@, ex, upcoming@) by {
            assert(v@.contains(v@[k]));
            assert(v@.to_multiset().count(v@[k]) > 0);
            assert(before.contains(v@[k]));
        }
    }
    let mut r: VecDeque<usize> = VecDeque::new();
    let mut j: usize = 0;
    while j < v.len()
        invariant
            j <= v@.len(),
            r@ == v@.take(j as int),
        decreases v@.len() - j,
    {
        r.push_back(v[j]);
        j += 1;
        assert(r@ =~= v@.take(j as int));
    }
    assert(v@.take(v@.len() as int) =~= v@);
    r
}

/// The watch URLs of the first `preload_target` upcoming songs.
pub fn preload_urls(upcoming: &VecDeque<Song>, preload_target: usize) -> (r: Vec<String>)
    ensures
        r@.len() == preload_targets(upcoming@, preload_target).len(),
        forall|k: int| 0 <= k < r@.len() ==> #[trigger] r@[k]@ == preload_targets(upcoming@, preload_target)[k],
{
    let mut r: Vec<String> = Vec::new();
    let mut k: usize = 0;
    while k < upcoming.len() && k < preload_target
        invariant
            k <= upcoming@.len(),
            k <= preload_target,
            r@.len() == k,
            forall|j: int| 0 <= j < k ==> #[trigger] r@[j]@ == watch_url(upcoming@[j].video_id@),
        decreases upcoming@.len() - k,
    {
        r.push(upcoming[k].url());
        k += 1;
    }
    r
}

/// Whether `new_list` starts with `old_list`.
pub open spec fn extends(old_list: Seq<Song>, new_list: Seq<Song>) -> bool {
    old_list.len() <= new_list.len() && new_list.take(old_list.len() as int) == old_list
}

/// The first position of a song with id `id` in `songs`, if any.
pub fn find_song(songs: &[Song], id: &String) -> (r: Option<usize>)
    ensures
        r matches Some(p) ==> song_position(songs@, id@) == Some(p as int) && p < songs@.len(),
        r is None ==> song_position(songs@, id@) is None,
{
    let mut k: usize = 0;
    while k < songs.len()
        invariant
            k <= songs@.len(),
            forall|j: int| 0 <= j < k ==> songs@[j].video_id@ != id@,
        decreases songs@.len() - k,
    {
        if songs[k].video_id == *id {
            proof {
                let p = k as int;
                assert(0 <= p < songs@.len() && songs@[p].video_id@ == id@ && forall|j: int| 0 <= j < p ==> songs@[j].video_id@ != id@);
                let c = choose|c: int| 0 <= c < songs@.len() && songs@[c].video_id@ == id@ && forall|j: int| 0 <= j < c ==> songs@[j].video_id@ != id@;
                if c < p {
                    assert(songs@[c].video_id@ != id@);
                }
                if c > p {
                    assert(songs@[p].video_id@ != id@);
                }
            }
            return Some(k);
        }
        k += 1;
    }
    None
}

/// The songs of a linear window of `PRELOAD_SIZE` positions from `start`.
fn window_songs(songs: &[Song], start: usize, repeat: RepeatMode) -> (r: VecDeque<Song>)
    ensures
        r@ == linear_window(songs@, start as int, PRELOAD_SIZE as nat, repeat),
{
    let mut r: VecDeque<Song> = VecDeque::new();
    let mut i: usize = 0;
    while i < PRELOAD_SIZE
        invariant
            i <= PRELOAD_SIZE,
            r@ == linear_window(songs@, start as int, i as nat, repeat),
        decreases PRELOAD_SIZE - i,
    {
        let idx: u128 = start as u128 + i as u128;
        if idx < songs.len() as u128 {
            r.push_back(songs[idx as usize].clone());
        } else if repeat == RepeatMode::All && songs.len() > 0 {
            let wrap = (idx % (songs.len() as u128)) as usize;
            r.push_back(songs[wrap].clone());
        }
        i += 1;
    }
    r
}

impl PlayState {
    pub fn new() -> (r: Self)
        ensures
            r.current_song is None,
            r.upcoming@.len() == 0,
            r.history@.len() == 0,
            r.source_playlist == 0,
            r.next_linear_index == 0,
            r.shuffle_pool@.len() == 0,
            r.clock.started_at is None,
            r.clock.pause_began is None,
            r.clock.paused_ms == 0,
    {
        Self {
            current_song: None,
            upcoming: VecDeque::new(),
            history: Vec::new(),
            source_playlist: 0,
            next_linear_index: 0,
            shuffle_pool: VecDeque::new(),
            clock: PlaybackClock::stopped(),
        }
    }

    /// Fill the upcoming queue from the shuffle pool until it holds
    /// `target_len` songs. With repeat-all an exhausted pool is rebuilt from
    /// the songs other than `current` and the upcoming ones.
    pub fn fill_upcoming_from_pool(&mut self, songs: &[Song], current: Option<&Song>, target_len: usize, repeat: RepeatMode)
        requires
            pool_valid(old(self).shuffle_pool@, songs@.len()),
        ensures
            pool_valid(final(self).shuffle_pool@, songs@.len()),
            extends(old(self).upcoming@, final(self).upcoming@),
            final(self).upcoming@.len() <= if old(self).upcoming@.len() < target_len {
                target_len as nat
            } else {
                old(self).upcoming@.len()
            },
            forall|k: int| old(self).upcoming@.len() <= k < final(self).upcoming@.len() ==> songs@.contains(#[trigger] final(self).upcoming@[k]),
            repeat != RepeatMode::All ==> {
                let take: int = if old(self).upcoming@.len() >= target_len {
                    0
                } else if old(self).shuffle_pool@.len() < target_len - old(self).upcoming@.len() {
                    old(self).shuffle_pool@.len() as int
                } else {
                    target_len - old(self).upcoming@.len()
                };
                &&& final(self).upcoming@ == old(self).upcoming@ + songs_at(songs@, old(self).shuffle_pool@.take(take))
                &&& final(self).shuffle_pool@ == old(self).shuffle_pool@.skip(take)
            },
            final(self).upcoming@.len() < target_len ==> final(self).shuffle_pool@.len() == 0,
            repeat == RepeatMode::All ==> final(self).upcoming@.len() >= target_len || pool_candidates(
                songs@,
                deref_song(current),
                final(self).upcoming@,
                songs@.len(),
            ).len() == 0,
            final(self).current_song == old(self).current_song,
            final(self).history@ == old(self).history@,
            final(self).source_playlist == old(self).source_playlist,
            final(self).next_linear_index == old(self).next_linear_index,
    {
        let ghost up0 = self.upcoming@;
        let ghost pool0 = self.shuffle_pool@;
        let ghost mut taken: int = 0;
        assert(up0.take(up0.len() as int) =~= up0);
        assert(pool0.take(0) =~= Seq::<usize>::empty());
        assert(songs_at(songs@, pool0.take(0)) =~= Seq::<Song>::empty());
        assert(up0 + Seq::<Song>::empty() =~= up0);
        assert(pool0.skip(0) =~= pool0);
        while self.upcoming.len() < target_len
            invariant
                pool_valid(self.shuffle_pool@, songs@.len()),
                extends(up0, self.upcoming@),
                self.upcoming@.len() <= if up0.len() < target_len { target_len as nat } else { up0.len() },
                forall|k: int| up0.len() <= k < self.upcoming@.len() ==> songs@.contains(#[trigger] self.upcoming@[k]),
                repeat != RepeatMode::All ==> {
                    &&& 0 <= taken <= pool0.len()
                    &&& self.upcoming@ == up0 + songs_at(songs@, pool0.take(taken))
                    &&& self.shuffle_pool@ == pool0.skip(taken)
                },
                self.current_song == old(self).current_song,
                self.history@ == old(self).history@,
                self.source_playlist == old(self).source_playlist,
                self.next_linear_index == old(self).next_linear_index,
            ensures
                pool_valid(self.shuffle_pool@, songs@.len()),
                extends(up0, self.upcoming@),
                self.upcoming@.len() <= if up0.len() < target_len { target_len as nat } else { up0.len() },
                forall|k: int| up0.len() <= k < self.upcoming@.len() ==> songs@.contains(#[trigger] self.upcoming@[k]),
                repeat != RepeatMode::All ==> {
                    &&& 0 <= taken <= pool0.len()
                    &&& self.upcoming@ == up0 + songs_at(songs@, pool0.take(taken))
                    &&& self.shuffle_pool@ == pool0.skip(taken)
                },
                self.upcoming@.len() < target_len ==> self.shuffle_pool@.len() == 0,
                repeat == RepeatMode::All ==> self.upcoming@.len() >= target_len || pool_candidates(
                    songs@,
                    deref_song(current),
                    self.upcoming@,
                    songs@.len(),
                ).len() == 0,
                self.current_song == old(self).current_song,
                self.history@ == old(self).history@,
                self.source_playlist == old(self).source_playlist,
                self.next_linear_index == old(self).next_linear_index,
            decreases target_len - self.upcoming@.len(), if self.shuffle_pool@.len() == 0 { 1int } else { 0int },
        {
            let ghost up_before = self.upcoming@;
            if let Some(idx) = self.shuffle_pool.pop_front() {
                self.upcoming.push_back(songs[idx].clone());
                proof {
                    assert(self.upcoming@.take(up0.len() as int) =~= up_before.take(up0.len() as int));
                    assert forall|k: int| up0.len() <= k < self.upcoming@.len() implies songs@.contains(#[trigger] self.upcoming@[k]) by {
                        if k < up_before.len() {
                            assert(self.upcoming@[k] == up_before[k]);
                        } else {
                            assert(self.upcoming@[k] == songs@[idx as int]);
                        }
                    }
                    if repeat != RepeatMode::All {
                        assert(pool0.skip(taken)[0] == idx);
                        assert(pool0.take(taken + 1) =~= pool0.take(taken).push(idx));
                        assert(songs_at(songs@, pool0.take(taken + 1)) =~= songs_at(songs@, pool0.take(taken)).push(songs@[idx as int]));
                        assert(self.upcoming@ =~= up0 + songs_at(songs@, pool0.take(taken + 1)));
                        assert(self.shuffle_pool@ =~= pool0.skip(taken + 1));
                        taken = taken + 1;
                    }
                }
                continue;
            }
            if repeat != RepeatMode::All {
                break;
            }
            let pool = build_shuffle_pool(songs, current, &self.upcoming);
            self.shuffle_pool = pool;
            if self.shuffle_pool.len() == 0 {
                proof {
                    let cands = pool_candidates(songs@, deref_song(current), self.upcoming@, songs@.len());
                    self.shuffle_pool@.to_multiset_ensures();
                    cands.to_multiset_ensures();
                    assert(self.shuffle_pool@ =~= Seq::<usize>::empty());
                    assert(self.shuffle_pool@.to_multiset().len() == 0);
                    assert(cands.to_multiset().len() == cands.len());
                }
                break;
            }
        }
        proof {
            if repeat != RepeatMode::All {
                let t: int = if up0.len() >= target_len {
                    0
                } else if pool0.len() < target_len - up0.len() {
                    pool0.len() as int
                } else {
                    target_len - up0.len()
                };
                assert(self.upcoming@.len() == up0.len() + taken);
                assert(taken == t);
            }
        }
    }

    /// Rebuild the upcoming queue in linear order starting after the current song.
    pub fn rebuild_linear_upcoming(&mut self, songs: &[Song], current: &Song, repeat: RepeatMode)
        ensures
            match song_position(songs@, current.video_id@) {
                Some(p) => final(self).upcoming@ == linear_window(songs@, p + 1, PRELOAD_SIZE as nat, repeat)
                    && final(self).next_linear_index == saturating_add(p as usize, (1 + PRELOAD_SIZE) as usize),
                None => final(self).upcoming@.len() == 0 && final(self).next_linear_index == old(self).next_linear_index,
            },
            final(self).current_song == old(self).current_song,
            final(self).history@ == old(self).history@,
            final(self).source_playlist == old(self).source_playlist,
            final(self).shuffle_pool@ == old(self).shuffle_pool@,
    {
        self.upcoming.clear();
        let n = songs.len();
        if let Some(song_idx) = find_song(songs, &current.video_id) {
            assert(song_idx < n);
            self.upcoming = window_songs(songs, song_idx + 1, repeat);
            self.next_linear_index = song_idx.saturating_add(1 + PRELOAD_SIZE);
        }
    }

    /// Start a new queue at song `song_idx` of `songs` (from playlist
    /// `source`): the history is cleared, and the upcoming songs are the next
    /// ones in order, or drawn from a fresh shuffle pool with shuffle on.
    pub fn start_from(&mut self, songs: &[Song], song_idx: usize, source: usize, shuffle: bool, repeat: RepeatMode)
        requires
            song_idx < songs@.len(),
        ensures
            final(self).history@.len() == 0,
            final(self).source_playlist == source,
            final(self).current_song == old(self).current_song,
            pool_valid(final(self).shuffle_pool@, songs@.len()),
            !shuffle ==> final(self).shuffle_pool@.len() == 0
                && final(self).upcoming@ == linear_window(songs@, song_idx + 1, PRELOAD_SIZE as nat, repeat)
                && final(self).next_linear_index == saturating_add(song_idx, (1 + PRELOAD_SIZE) as usize),
            shuffle ==> final(self).upcoming@.len() <= PRELOAD_SIZE
                && (forall|k: int| 0 <= k < final(self).upcoming@.len() ==> songs@.contains(#[trigger] final(self).upcoming@[k]))
                && final(self).next_linear_index == old(self).next_linear_index,
            shuffle && repeat != RepeatMode::All ==> fresh_shuffle_cycle(
                songs@,
                songs@[song_idx as int],
                final(self).upcoming@,
                final(self).shuffle_pool@,
            ),
            shuffle && repeat == RepeatMode::All ==> final(self).upcoming@.len() == PRELOAD_SIZE
                || pool_candidates(songs@, Some(songs@[song_idx as int]), final(self).upcoming@, songs@.len()).len()
                == 0,
    {
        self.history.clear();
        self.upcoming.clear();
        self.source_playlist = source;
        let n = songs.len();
        let song = songs[song_idx].clone();
        if shuffle {
            self.shuffle_pool = build_shuffle_pool(songs, Some(&song), &self.upcoming);
            let ghost order = self.shuffle_pool@;
            let ghost up0 = self.upcoming@;
            self.fill_upcoming_from_pool(songs, Some(&song), PRELOAD_SIZE, repeat);
            proof {
                if repeat != RepeatMode::All {
                    assert(up0 =~= Seq::<Song>::empty());
                    let t: int = if order.len() < PRELOAD_SIZE {
                        order.len() as int
                    } else {
                        PRELOAD_SIZE as int
                    };
                    assert(Seq::<Song>::empty() + songs_at(songs@, order.take(t)) =~= songs_at(songs@, order.take(t)));
                    assert(self.upcoming@.len() == t);
                    assert(order.to_multiset() == pool_candidates(songs@, Some(songs@[song_idx as int]), Seq::empty(), songs@.len()).to_multiset());
                }
            }
        } else {
            self.shuffle_pool.clear();
            assert(song_idx < n);
            self.upcoming = window_songs(songs, song_idx + 1, repeat);
            self.next_linear_index = song_idx.saturating_add(1 + PRELOAD_SIZE);
        }
    }

    /// Refill the upcoming queue with `count` more songs of the source
    /// playlist, in order or from the shuffle pool depending on `app.shuffle`.
    pub fn refill_upcoming(&mut self, app: &App, count: usize)
        requires
            old(self).source_playlist < app.cached_playlists@.len() ==> pool_valid(old(self).shuffle_pool@, app.cached_playlists@[old(self).source_playlist as int].songs@.len()),
            !app.shuffle ==> old(self).next_linear_index + count <= usize::MAX,
            old(self).upcoming@.len() + count <= usize::MAX,
        ensures
            final(self).current_song == old(self).current_song,
            final(self).history@ == old(self).history@,
            final(self).source_playlist == old(self).source_playlist,
            old(self).source_playlist >= app.cached_playlists@.len() || app.cached_playlists@[old(self).source_playlist as int].songs@.len() == 0 ==> *final(self) == *old(self),
            old(self).source_playlist < app.cached_playlists@.len() ==> pool_valid(final(self).shuffle_pool@, app.cached_playlists@[old(self).source_playlist as int].songs@.len()),
            old(self).source_playlist < app.cached_playlists@.len() && !app.shuffle ==> {
                let (added, next) = linear_refill(app.cached_playlists@[old(self).source_playlist as int].songs@, old(self).next_linear_index as int, count as nat, app.repeat);
                &&& final(self).upcoming@ == old(self).upcoming@ + added
                &&& final(self).next_linear_index == next
                &&& final(self).shuffle_pool@ == old(self).shuffle_pool@
            },
            old(self).source_playlist < app.cached_playlists@.len() && app.shuffle ==> {
                &&& extends(old(self).upcoming@, final(self).upcoming@)
                &&& final(self).upcoming@.len() <= old(self).upcoming@.len() + count
                &&& final(self).next_linear_index == old(self).next_linear_index
            },
            old(self).source_playlist < app.cached_playlists@.len() && app.shuffle && app.repeat
                != RepeatMode::All ==> {
                let songs = app.cached_playlists@[old(self).source_playlist as int].songs@;
                let take: int = if old(self).shuffle_pool@.len() < count {
                    old(self).shuffle_pool@.len() as int
                } else {
                    count as int
                };
                songs.len() > 0 ==> {
                    &&& final(self).upcoming@ == old(self).upcoming@ + songs_at(songs, old(self).shuffle_pool@.take(take))
                    &&& final(self).shuffle_pool@ == old(self).shuffle_pool@.skip(take)
                }
            },
            old(self).source_playlist < app.cached_playlists@.len() && app.shuffle && app.repeat
                == RepeatMode::All ==> {
                let songs = app.cached_playlists@[old(self).source_playlist as int].songs@;
                songs.len() > 0 ==> final(self).upcoming@.len() == old(self).upcoming@.len() + count
                    || pool_candidates(songs, old(self).current_song, final(self).upcoming@, songs.len()).len()
                    == 0
            },
    {
        if self.source_playlist >= app.cached_playlists.len() {
            return;
        }
        let songs = clone_songs(&app.cached_playlists[self.source_playlist].songs);
        if songs.len() == 0 {
            proof {
                lemma_linear_refill_empty(songs@, self.next_linear_index as int, count as nat, app.repeat);
                assert(self.upcoming@ + Seq::<Song>::empty() =~= self.upcoming@);
                assert(self.upcoming@.take(self.upcoming@.len() as int) =~= self.upcoming@);
            }
            return;
        }
        if app.shuffle {
            let target = self.upcoming.len() + count;
            let current = match &self.current_song {
                Some(s) => Some(s.clone()),
                None => None,
            };
            let cur_ref = current.as_ref();
            assert(deref_song(cur_ref) == old(self).current_song);
            self.fill_upcoming_from_pool(&songs, cur_ref, target, app.repeat);
        } else {
            let ghost songs_v = songs@;
            let ghost up0 = self.upcoming@;
            let mut c: usize = 0;
            while c < count
                invariant
                    c <= count,
                    songs@ == songs_v,
                    songs_v.len() > 0,
                    old(self).next_linear_index + count <= usize::MAX,
                    ({
                        let (added, next) = linear_refill(songs_v, old(self).next_linear_index as int, c as nat, app.repeat);
                        &&& self.upcoming@ == up0 + added
                        &&& self.next_linear_index == next
                        &&& next <= old(self).next_linear_index + c
                    }),
                    self.current_song == old(self).current_song,
                    self.history@ == old(self).history@,
                    self.source_playlist == old(self).source_playlist,
                    self.shuffle_pool@ == old(self).shuffle_pool@,
                decreases count - c,
            {
                let idx = self.next_linear_index;
                if idx < songs.len() {
                    self.upcoming.push_back(songs[idx].clone());
                    self.next_linear_index = idx + 1;
                } else if app.repeat == RepeatMode::All {
                    let wrap = idx % songs.len();
                    self.upcoming.push_back(songs[wrap].clone());
                    self.next_linear_index = idx + 1;
                }
                proof {
                    let (prev, pidx) = linear_refill(songs_v, old(self).next_linear_index as int, c as nat, app.repeat);
                    assert(pidx == idx);
                    assert(self.upcoming@ =~= up0 + linear_refill(songs_v, old(self).next_linear_index as int, (c + 1) as nat, app.repeat).0);
                }
                c += 1;
            }
        }
    }
}

/// While a song is paused its played time does not advance.
pub proof fn law_paused_time_stands_still(c: PlaybackClock, now1: u64, now2: u64)
    requires
        c.started_at matches Some(s) && s <= now1,
        c.pause_began matches Some(p) && p <= now1,
        now1 <= now2,
        c.paused_ms + (now2 - c.pause_began->0) <= u64::MAX,
    ensures
        played_secs(c, now1) == played_secs(c, now2),
{
}

/// Every position in the pool candidates points into the songs and at a song
/// that is not excluded.
proof fn lemma_pool_candidates_members(songs: Seq<Song>, exclude: Option<Song>, upcoming: Seq<Song>, n: nat, x: usize)
    requires
        n <= songs.len(),
        n <= usize::MAX,
        pool_candidates(songs, exclude, upcoming, n).contains(x),
    ensures
        x < n,
        !id_excluded(songs[x as int].video_id@, exclude, upcoming),
    decreases n,
{
    if n > 0 {
        let rest = pool_candidates(songs, exclude, upcoming, (n - 1) as nat);
        if id_excluded(songs[n - 1].video_id@, exclude, upcoming) {
            lemma_pool_candidates_members(songs, exclude, upcoming, (n - 1) as nat, x);
        } else if x != (n - 1) as usize {
            let full = rest.push((n - 1) as usize);
            let k = choose|k: int| 0 <= k < full.len() && #[trigger] full[k] == x;
            assert(k < rest.len());
            assert(rest[k] == x);
            assert(rest.contains(x));
            lemma_pool_candidates_members(songs, exclude, upcoming, (n - 1) as nat, x);
        } else {
            assert(x as int == n - 1);
        }
    }
}

/// A shuffle cycle that started after a song never brings that song (or
/// another copy of it, by id) up next.
pub proof fn law_shuffle_skips_current(songs: Seq<Song>, current: Song, upcoming: Seq<Song>, pool: Seq<usize>)
    requires
        fresh_shuffle_cycle(songs, current, upcoming, pool),
        songs.len() <= usize::MAX,
    ensures
        forall|k: int| 0 <= k < upcoming.len() ==> (#[trigger] upcoming[k]).video_id@ != current.video_id@,
        forall|k: int| 0 <= k < pool.len() ==> songs[#[trigger] pool[k] as int].video_id@ != current.video_id@,
{
    let order = choose|order: Seq<usize>|
        {
            &&& #[trigger] order.to_multiset() == pool_candidates(songs, Some(current), Seq::empty(), songs.len()).to_multiset()
            &&& upcoming.len() == if order.len() < PRELOAD_SIZE {
                order.len()
            } else {
                PRELOAD_SIZE as nat
            }
            &&& upcoming == songs_at(songs, order.take(upcoming.len() as int))
            &&& pool == order.skip(upcoming.len() as int)
        };
    let cands = pool_candidates(songs, Some(current), Seq::empty(), songs.len());
    assert forall|j: int| 0 <= j < order.len() implies songs[#[trigger] order[j] as int].video_id@ != current.video_id@ by {
        order.to_multiset_ensures();
        cands.to_multiset_ensures();
        assert(order.contains(order[j]));
        assert(order.to_multiset().count(order[j]) > 0);
        assert(cands.contains(order[j]));
        lemma_pool_candidates_members(songs, Some(current), Seq::empty(), songs.len(), order[j]);
    }
    assert forall|k: int| 0 <= k < upcoming.len() implies (#[trigger] upcoming[k]).video_id@ != current.video_id@ by {
        assert(upcoming[k] == songs[order[k] as int]);
    }
    assert forall|k: int| 0 <= k < pool.len() implies songs[#[trigger] pool[k] as int].video_id@ != current.video_id@ by {
        assert(pool[k] == order[upcoming.len() + k]);
    }
}

/// How many of the `n` positions from `start` lie inside a list of `len` items.
pub open spec fn positions_inside(start: int, n: nat, len: nat) -> nat {
    if start >= len {
        0
    } else if start + n <= len {
        n
    } else {
        (len - start) as nat
    }
}

/// The upcoming window in order: with repeat-all and songs to play it is
/// full, position `k` holding song `(start + k) mod len` (so it wraps round
/// to the start); otherwise it holds the songs from `start` on that exist,
/// in order, and stops at the end of the playlist.
pub proof fn law_linear_window_positions(songs: Seq<Song>, start: int, n: nat, repeat: RepeatMode)
    requires
        start >= 0,
    ensures
        repeat == RepeatMode::All && songs.len() > 0 ==> {
            &&& linear_window(songs, start, n, repeat).len() == n
            &&& forall|k: int|
                0 <= k < n ==> #[trigger] linear_window(songs, start, n, repeat)[k] == songs[(start + k)
                    % (songs.len() as int)]
        },
        repeat != RepeatMode::All || songs.len() == 0 ==> {
            &&& linear_window(songs, start, n, repeat).len() == positions_inside(start, n, songs.len())
            &&& forall|k: int|
                0 <= k < linear_window(songs, start, n, repeat).len() ==> #[trigger] linear_window(
                    songs,
                    start,
                    n,
                    repeat,
                )[k] == songs[start + k]
        },
    decreases n,
{
    if n > 0 {
        law_linear_window_positions(songs, start, (n - 1) as nat, repeat);
        let prev = linear_window(songs, start, (n - 1) as nat, repeat);
        let w = linear_window(songs, start, n, repeat);
        let idx = start + n - 1;
        let len = songs.len() as int;
        if repeat == RepeatMode::All && len > 0 {
            if idx < len {
                assert(idx % len == idx) by (nonlinear_arith)
                    requires
                        0 <= idx < len,
                ;
            }
            assert forall|k: int| 0 <= k < n implies #[trigger] w[k] == songs[(start + k) % len] by {
                if k < n - 1 {
                    assert(w[k] == prev[k]);
                }
            }
        } else {
            assert forall|k: int| 0 <= k < w.len() implies #[trigger] w[k] == songs[start + k] by {
                if k < prev.len() {
                    assert(w[k] == prev[k]);
                }
            }
        }
    }
}

/// Refilling in order adds, with repeat-all and songs to play, exactly
/// `count` songs, the `k`-th being song `(next + k) mod len`, and moves the
/// position on by `count`; otherwise it adds the songs from `next` on that
/// exist, in order, and moves the position on by as many.
pub proof fn law_linear_refill_positions(songs: Seq<Song>, next: int, count: nat, repeat: RepeatMode)
    requires
        next >= 0,
    ensures
        repeat == RepeatMode::All && songs.len() > 0 ==> {
            &&& linear_refill(songs, next, count, repeat).0.len() == count
            &&& linear_refill(songs, next, count, repeat).1 == next + count
            &&& forall|k: int|
                0 <= k < count ==> #[trigger] linear_refill(songs, next, count, repeat).0[k] == songs[(next + k)
                    % (songs.len() as int)]
        },
        repeat != RepeatMode::All || songs.len() == 0 ==> {
            &&& linear_refill(songs, next, count, repeat).0.len() == positions_inside(next, count, songs.len())
            &&& linear_refill(songs, next, count, repeat).1 == next + positions_inside(next, count, songs.len())
            &&& forall|k: int|
                0 <= k < linear_refill(songs, next, count, repeat).0.len() ==> #[trigger] linear_refill(
                    songs,
                    next,
                    count,
                    repeat,
                ).0[k] == songs[next + k]
        },
    decreases count,
{
    if count > 0 {
        law_linear_refill_positions(songs, next, (count - 1) as nat, repeat);
        let (prev, idx) = linear_refill(songs, next, (count - 1) as nat, repeat);
        let r = linear_refill(songs, next, count, repeat);
        let len = songs.len() as int;
        if repeat == RepeatMode::All && len > 0 {
            if idx < len {
                assert(idx % len == idx) by (nonlinear_arith)
                    requires
                        0 <= idx < len,
                ;
            }
            assert forall|k: int| 0 <= k < count implies #[trigger] r.0[k] == songs[(next + k) % len] by {
                if k < count - 1 {
                    assert(r.0[k] == prev[k]);
                }
            }
        } else {
            assert forall|k: int| 0 <= k < r.0.len() implies #[trigger] r.0[k] == songs[next + k] by {
                if k < prev.len() {
                    assert(r.0[k] == prev[k]);
                }
            }
        }
    }
}

} // verus!
