//! The playback queue: an ordered list of items, a current position, shuffle and
//! repeat settings, and a history of previously played positions.
use rand::seq::SliceRandom;
use vstd::prelude::*;

use crate::app::RepeatMode;

verus! {

/// One entry of the playback queue.
#[derive(Debug, Clone, PartialEq, Eq)]
pub struct QueueItem {
    pub id: String,
    pub title: String,
    pub url: String,
    pub duration: Option<u64>,
}

/// The abstract state of a [`PlaybackQueue`].
pub struct QueueView {
    pub items: Seq<QueueItem>,
    pub index: Option<usize>,
    pub shuffle: bool,
    pub repeat: RepeatMode,
    pub history: Seq<usize>,
}

/// The playback queue.
#[derive(Debug)]
pub struct PlaybackQueue {
    items: Vec<QueueItem>,
    index: Option<usize>,
    shuffle: bool,
    repeat: RepeatMode,
    history: Vec<usize>,
}

impl View for PlaybackQueue {
    type V = QueueView;

    closed spec fn view(&self) -> QueueView {
        QueueView {
            items: self.items@,
            index: self.index,
            shuffle: self.shuffle,
            repeat: self.repeat,
            history: self.history@,
        }
    }
}

/// The queue invariant: the current position and every remembered position
/// point into the item list.
pub open spec fn queue_wf(v: QueueView) -> bool {
    &&& (v.index matches Some(i) ==> i < v.items.len())
    &&& forall|k: int| 0 <= k < v.history.len() ==> #[trigger] v.history[k] < v.items.len()
}

/// The item at the current position, if any.
pub open spec fn current_spec(v: QueueView) -> Option<QueueItem> {
    match v.index {
        Some(i) => if i < v.items.len() {
            Some(v.items[i as int])
        } else {
            None
        },
        None => None,
    }
}

/// `s` with the items at `i` and `i + 1` exchanged.
pub open spec fn swap_adjacent(s: Seq<QueueItem>, i: int) -> Seq<QueueItem> {
    s.update(i, s[i + 1]).update(i + 1, s[i])
}

/// The current position after the items at `a` and `b` were exchanged.
pub open spec fn index_after_swap(index: Option<usize>, a: usize, b: usize) -> Option<usize> {
    match index {
        Some(ci) => if ci == a {
            Some(b)
        } else if ci == b {
            Some(a)
        } else {
            Some(ci)
        },
        None => None,
    }
}

/// The state and result of `move_up(idx)`.
pub open spec fn move_up_spec(v: QueueView, idx: usize) -> (QueueView, usize) {
    if 0 < idx < v.items.len() {
        (
            QueueView {
                items: swap_adjacent(v.items, idx - 1),
                index: index_after_swap(v.index, idx, (idx - 1) as usize),
                ..v
            },
            (idx - 1) as usize,
        )
    } else {
        (v, idx)
    }
}

/// The state and result of `move_down(idx)`.
pub open spec fn move_down_spec(v: QueueView, idx: usize) -> (QueueView, usize) {
    if idx + 1 < v.items.len() {
        (
            QueueView {
                items: swap_adjacent(v.items, idx as int),
                index: index_after_swap(v.index, idx, (idx + 1) as usize),
                ..v
            },
            (idx + 1) as usize,
        )
    } else {
        (v, idx)
    }
}

/// The history after the item at `idx` was removed: entries for `idx` are
/// dropped and the later positions move down by one.
pub open spec fn history_after_remove(h: Seq<usize>, idx: usize) -> Seq<usize>
    decreases h.len(),
{
    if h.len() == 0 {
        Seq::empty()
    } else {
        let rest = history_after_remove(h.drop_last(), idx);
        if h.last() == idx {
            rest
        } else if h.last() > idx {
            rest.push((h.last() - 1) as usize)
        } else {
            rest.push(h.last())
        }
    }
}

/// The current position after the item at `idx` was removed from a list that
/// then holds `new_len` items.
pub open spec fn index_after_remove(index: Option<usize>, idx: usize, new_len: nat) -> Option<usize> {
    match index {
        Some(ci) => if ci == idx {
            if new_len == 0 {
                None
            } else if ci >= new_len {
                Some((new_len - 1) as usize)
            } else {
                Some(ci)
            }
        } else if ci > idx {
            Some((ci - 1) as usize)
        } else {
            Some(ci)
        },
        None => None,
    }
}

/// The state after `remove(idx)` for a valid `idx`.
pub open spec fn remove_spec(v: QueueView, idx: usize) -> QueueView {
    QueueView {
        items: v.items.remove(idx as int),
        index: index_after_remove(v.index, idx, (v.items.len() - 1) as nat),
        history: history_after_remove(v.history, idx),
        ..v
    }
}

/// The position that `next` moves to when shuffle is off.
pub open spec fn linear_next_index(v: QueueView) -> Option<usize> {
    let cand: int = match v.index {
        Some(i) => i + 1,
        None => 0,
    };
    if cand < v.items.len() {
        Some(cand as usize)
    } else if v.repeat == RepeatMode::All {
        Some(0)
    } else {
        None
    }
}

/// Whether `next` leaves the state as it is: nothing to play, or repeat-one
/// with a current item.
pub open spec fn next_stays(v: QueueView) -> bool {
    v.items.len() == 0 || (v.repeat == RepeatMode::One && v.index is Some)
}

/// The history after `next` moved on from the current position.
pub open spec fn history_after_next(v: QueueView) -> Seq<usize> {
    match v.index {
        Some(c) => v.history.push(c),
        None => v.history,
    }
}

/// The position that `previous` moves to when the history is empty.
pub open spec fn previous_without_history(v: QueueView) -> Option<usize> {
    match v.index {
        Some(i) => if i > 0 {
            Some((i - 1) as usize)
        } else if v.repeat == RepeatMode::All {
            Some((v.items.len() - 1) as usize)
        } else {
            None
        },
        None => Some(0),
    }
}

/// The state after `previous`.
pub open spec fn previous_spec(v: QueueView) -> QueueView {
    if v.items.len() == 0 {
        v
    } else if v.history.len() > 0 {
        QueueView { index: Some(v.history.last()), history: v.history.drop_last(), ..v }
    } else {
        QueueView { index: previous_without_history(v), ..v }
    }
}

/// Whether `r` is the current item of `v`.
pub open spec fn is_current(v: QueueView, r: Option<&QueueItem>) -> bool {
    match r {
        Some(it) => current_spec(v) == Some(*it),
        None => current_spec(v) is None,
    }
}

/// `SliceRandom::shuffle` driven by `rand::thread_rng()`: the elements are
/// permuted in place. Which permutation comes out is left open.
#[verifier::external_body]
pub(crate) fn shuffle_positions(v: &mut Vec<usize>)
    ensures
        final(v)@.to_multiset() == old(v)@.to_multiset(),
{
    v.shuffle(&mut rand::thread_rng());
}

/// All positions below `len` except `current`, in a random order.
fn shuffled_candidates(len: usize, current: Option<usize>) -> (r: Vec<usize>)
    requires
        current matches Some(c) ==> c < len,
    ensures
        r@.len() == if current is Some {
            len - 1
        } else {
            len as int
        },
        forall|k: int| 0 <= k < r@.len() ==> #[trigger] r@[k] < len && Some(r@[k]) != current,
{
    let mut v: Vec<usize> = Vec::new();
    let mut i: usize = 0;
    while i < len
        invariant
            i <= len,
            current matches Some(c) ==> c < len,
            v@.len() == if current matches Some(c) && c < i {
                i - 1
            } else {
                i as int
            },
            forall|k: int| 0 <= k < v@.len() ==> #[trigger] v@[k] < i && Some(v@[k]) != current,
        decreases len - i,
    {
        if current != Some(i) {
            v.push(i);
        }
        i += 1;
    }
    let ghost before = v@;
    shuffle_positions(&mut v);
    proof {
        before.to_multiset_ensures();
        v@.to_multiset_ensures();
        assert forall|k: int| 0 <= k < v@.len() implies #[trigger] v@[k] < len && Some(v@[k])
            != current by {
            assert(v@.contains(v@[k]));
            assert(v@.to_multiset().count(v@[k]) > 0);
            assert(before.contains(v@[k]));
        }
    }
    v
}

impl PlaybackQueue {
    /// The queue invariant.
    pub open spec fn wf(&self) -> bool {
        queue_wf(self@)
    }

    pub fn new() -> (q: Self)
        ensures
            q.wf(),
            q@.items.len() == 0,
            q@.index is None,
            !q@.shuffle,
            q@.repeat == RepeatMode::Off,
            q@.history.len() == 0,
    {
        Self {
            items: Vec::new(),
            index: None,
            shuffle: false,
            repeat: RepeatMode::Off,
            history: Vec::new(),
        }
    }

    /// Replaces the items; the position and history are reset.
    pub fn set_items(&mut self, items: Vec<QueueItem>)
        ensures
            final(self).wf(),
            final(self)@ == (QueueView {
                items: items@,
                index: None,
                history: Seq::empty(),
                ..old(self)@
            }),
    {
        self.items = items;
        self.index = None;
        self.history.clear();
    }

    /// Appends an item at the end.
    pub fn enqueue(&mut self, item: QueueItem)
        requires
            old(self).wf(),
        ensures
            final(self).wf(),
            final(self)@ == (QueueView { items: old(self)@.items.push(item), ..old(self)@ }),
    {
        self.items.push(item);
        assert(self.wf());
    }

    pub fn is_empty(&self) -> (b: bool)
        ensures
            b == (self@.items.len() == 0),
    {
        self.items.is_empty()
    }

    pub fn len(&self) -> (n: usize)
        ensures
            n == self@.items.len(),
    {
        self.items.len()
    }

    pub fn toggle_shuffle(&mut self)
        requires
            old(self).wf(),
        ensures
            final(self).wf(),
            final(self)@ == (QueueView { shuffle: !old(self)@.shuffle, ..old(self)@ }),
    {
        self.shuffle = !self.shuffle;
    }

    pub fn set_repeat(&mut self, repeat: RepeatMode)
        requires
            old(self).wf(),
        ensures
            final(self).wf(),
            final(self)@ == (QueueView { repeat, ..old(self)@ }),
    {
        self.repeat = repeat;
    }

    /// The item at the current position, if any.
    pub fn current(&self) -> (r: Option<&QueueItem>)
        requires
            self.wf(),
        ensures
            is_current(self@, r),
    {
        match self.index {
            Some(idx) => Some(&self.items[idx]),
            None => None,
        }
    }

    pub fn current_index(&self) -> (r: Option<usize>)
        ensures
            r == self@.index,
    {
        self.index
    }

    pub fn items(&self) -> (r: &[QueueItem])
        ensures
            r@ == self@.items,
    {
        self.items.as_slice()
    }

    /// Exchanges the items at `a` and `a + 1`.
    fn swap_with_next(&mut self, a: usize)
        requires
            a + 1 < old(self).items.len(),
        ensures
            final(self).items@ == swap_adjacent(old(self).items@, a as int),
            final(self).index == old(self).index,
            final(self).shuffle == old(self).shuffle,
            final(self).repeat == old(self).repeat,
            final(self).history@ == old(self).history@,
    {
        let item = self.items.remove(a + 1);
        self.items.insert(a, item);
        assert(self.items@ =~= swap_adjacent(old(self).items@, a as int));
    }

    /// Move the item at `idx` one position up. Returns the new index.
    pub fn move_up(&mut self, idx: usize) -> (r: usize)
        requires
            old(self).wf(),
        ensures
            final(self).wf(),
            (final(self)@, r) == move_up_spec(old(self)@, idx),
    {
        if idx > 0 && idx < self.items.len() {
            self.swap_with_next(idx - 1);
            // Adjust current playback index if affected
            if let Some(ci) = self.index {
                if ci == idx {
                    self.index = Some(idx - 1);
                } else if ci == idx - 1 {
                    self.index = Some(idx);
                }
            }
            assert(self@ =~= move_up_spec(old(self)@, idx).0);
            idx - 1
        } else {
            idx
        }
    }

    /// Move the item at `idx` one position down. Returns the new index.
    pub fn move_down(&mut self, idx: usize) -> (r: usize)
        requires
            old(self).wf(),
        ensures
            final(self).wf(),
            (final(self)@, r) == move_down_spec(old(self)@, idx),
    {
        if idx < self.items.len() && idx + 1 < self.items.len() {
            self.swap_with_next(idx);
            // Adjust current playback index if affected
            if let Some(ci) = self.index {
                if ci == idx {
                    self.index = Some(idx + 1);
                } else if ci == idx + 1 {
                    self.index = Some(idx);
                }
            }
            assert(self@ =~= move_down_spec(old(self)@, idx).0);
            idx + 1
        } else {
            idx
        }
    }

    /// The history with the entries for `idx` dropped and later positions
    /// moved down by one.
    fn adjusted_history(&self, idx: usize) -> (r: Vec<usize>)
        ensures
            r@ == history_after_remove(self.history@, idx),
    {
        let mut r: Vec<usize> = Vec::new();
        let mut i: usize = 0;
        while i < self.history.len()
            invariant
                i <= self.history@.len(),
                r@ == history_after_remove(self.history@.take(i as int), idx),
            decreases self.history@.len() - i,
        {
            let h = self.history[i];
            assert(self.history@.take(i + 1).drop_last() =~= self.history@.take(i as int));
            if h > idx {
                r.push(h - 1);
            } else if h < idx {
                r.push(h);
            }
            i += 1;
        }
        assert(self.history@.take(self.history@.len() as int) =~= self.history@);
        r
    }

    /// Remove the item at `idx`. Returns the removed item if valid.
    pub fn remove(&mut self, idx: usize) -> (r: Option<QueueItem>)
        requires
            old(self).wf(),
        ensures
            final(self).wf(),
            idx >= old(self)@.items.len() ==> r is None && final(self)@ == old(self)@,
            idx < old(self)@.items.len() ==> r == Some(old(self)@.items[idx as int])
                && final(self)@ == remove_spec(old(self)@, idx),
    {
        if idx >= self.items.len() {
            return None;
        }
        let new_history = self.adjusted_history(idx);
        let item = self.items.remove(idx);
        // Adjust current index
        if let Some(ci) = self.index {
            if ci == idx {
                // Current song was removed; keep index pointing at same position
                if self.items.len() == 0 {
                    self.index = None;
                } else if ci >= self.items.len() {
                    self.index = Some(self.items.len() - 1);
                }
            } else if ci > idx {
                self.index = Some(ci - 1);
            }
        }
        self.history = new_history;
        proof {
            lemma_history_after_remove_bounded(old(self).history@, idx, old(self).items@.len());
        }
        assert(self@ =~= remove_spec(old(self)@, idx));
        Some(item)
    }

    /// Advance to the next item. With shuffle on, the next position is drawn
    /// at random among the positions other than the current one.
    pub fn next(&mut self) -> (r: Option<&QueueItem>)
        requires
            old(self).wf(),
        ensures
            final(self).wf(),
            is_current(final(self)@, r),
            next_stays(old(self)@) ==> final(self)@ == old(self)@,
            !next_stays(old(self)@) ==> {
                &&& final(self)@.items == old(self)@.items
                &&& final(self)@.shuffle == old(self)@.shuffle
                &&& final(self)@.repeat == old(self)@.repeat
                &&& final(self)@.history == history_after_next(old(self)@)
                &&& !old(self)@.shuffle ==> final(self)@.index == linear_next_index(old(self)@)
                &&& old(self)@.shuffle ==> (final(self)@.index matches Some(n) && n < old(
                    self,
                )@.items.len() && (old(self)@.index matches Some(c) ==> (old(self)@.items.len()
                    > 1 ==> n != c)))
            },
    {
        if self.items.is_empty() {
            return None;
        }
        if let Some(idx) = self.index {
            if self.repeat == RepeatMode::One {
                return Some(&self.items[idx]);
            }
        }
        let len = self.items.len();
        let next_index: Option<usize> = if self.shuffle {
            let candidates = shuffled_candidates(len, self.index);
            if candidates.len() > 0 {
                Some(candidates[0])
            } else {
                self.index
            }
        } else {
            match self.index {
                Some(idx) => if idx + 1 < len {
                    Some(idx + 1)
                } else {
                    None
                },
                None => Some(0),
            }
        };
        let next_index = match next_index {
            Some(idx) => Some(idx),
            None => match self.repeat {
                RepeatMode::All => Some(0),
                _ => None,
            },
        };
        assert(next_index matches Some(n) ==> n < len);
        if let Some(current) = self.index {
            self.history.push(current);
        }
        self.index = next_index;
        assert forall|k: int| 0 <= k < self.history@.len() implies #[trigger] self.history@[k]
            < self.items@.len() by {
            if k < old(self).history@.len() {
                assert(self.history@[k] == old(self).history@[k]);
                assert(old(self)@.history[k] < old(self)@.items.len());
            } else {
                assert(old(self)@.index is Some);
                assert(self.history@[k] == old(self)@.index->0);
            }
        }
        proof {
            if !old(self)@.shuffle {
                assert(self@.index == linear_next_index(old(self)@));
            }
        }
        self.current()
    }

    /// Go back: to the last remembered position if there is one, otherwise
    /// one position back (wrapping round with repeat-all).
    pub fn previous(&mut self) -> (r: Option<&QueueItem>)
        requires
            old(self).wf(),
        ensures
            final(self).wf(),
            final(self)@ == previous_spec(old(self)@),
            is_current(final(self)@, r),
    {
        if self.items.is_empty() {
            return None;
        }
        if let Some(prev_idx) = self.history.pop() {
            self.index = Some(prev_idx);
            assert(self@ =~= previous_spec(old(self)@));
            return self.current();
        }
        let prev_index = match self.index {
            Some(idx) => if idx > 0 {
                Some(idx - 1)
            } else {
                match self.repeat {
                    RepeatMode::All => Some(self.items.len() - 1),
                    _ => None,
                }
            },
            None => Some(0),
        };
        self.index = prev_index;
        assert(self@ =~= previous_spec(old(self)@));
        self.current()
    }
}

/// After a removal every remembered position still points into the list.
proof fn lemma_history_after_remove_bounded(h: Seq<usize>, idx: usize, len: nat)
    requires
        idx < len,
        forall|k: int| 0 <= k < h.len() ==> #[trigger] h[k] < len,
    ensures
        forall|k: int|
            0 <= k < history_after_remove(h, idx).len() ==> #[trigger] history_after_remove(
                h,
                idx,
            )[k] < len - 1,
    decreases h.len(),
{
    if h.len() > 0 {
        assert forall|k: int| 0 <= k < h.drop_last().len() implies #[trigger] h.drop_last()[k]
            < len by {
            assert(h.drop_last()[k] == h[k]);
        }
        lemma_history_after_remove_bounded(h.drop_last(), idx, len);
        assert(h.last() == h[h.len() - 1]);
        let rest = history_after_remove(h.drop_last(), idx);
        let full = history_after_remove(h, idx);
        assert forall|k: int| 0 <= k < full.len() implies #[trigger] full[k] < len - 1 by {
            if k < rest.len() {
                assert(full[k] == rest[k]);
            }
        }
    }
}

/// Moving an item up and then moving it back down restores the queue, and the
/// second move returns the position the item started from.
pub proof fn law_move_up_then_down_restores(v: QueueView, idx: usize)
    requires
        queue_wf(v),
        0 < idx < v.items.len(),
    ensures
        move_down_spec(move_up_spec(v, idx).0, (idx - 1) as usize) == (v, idx),
{
    let (u, j) = move_up_spec(v, idx);
    assert(j == idx - 1);
    let (w, k) = move_down_spec(u, j);
    assert(swap_adjacent(swap_adjacent(v.items, idx - 1), idx - 1) =~= v.items);
    assert(w.index == v.index);
    assert(w =~= v);
}

/// Moving an item up or down keeps the same item current.
pub proof fn law_move_keeps_current(v: QueueView, idx: usize)
    requires
        queue_wf(v),
        v.items.len() <= usize::MAX,
    ensures
        current_spec(move_up_spec(v, idx).0) == current_spec(v),
        current_spec(move_down_spec(v, idx).0) == current_spec(v),
        queue_wf(move_up_spec(v, idx).0),
        queue_wf(move_down_spec(v, idx).0),
{
    if idx + 1 < v.items.len() {
        let w = move_down_spec(v, idx).0;
        if let Some(ci) = v.index {
            if ci == idx {
                assert(w.index == Some((idx + 1) as usize));
                assert(w.items[idx + 1] == v.items[idx as int]);
                assert(current_spec(w) == current_spec(v));
            } else if ci == idx + 1 {
                assert(w.index == Some(idx));
                assert(w.items[idx as int] == v.items[idx + 1]);
                assert(current_spec(w) == current_spec(v));
            } else {
                assert(w.items[ci as int] == v.items[ci as int]);
                assert(current_spec(w) == current_spec(v));
            }
        }
    }
}

/// Removing an item other than the current one keeps the same item current.
pub proof fn law_remove_keeps_current(v: QueueView, idx: usize)
    requires
        queue_wf(v),
        idx < v.items.len(),
        v.index matches Some(c) && c != idx,
    ensures
        current_spec(remove_spec(v, idx)) == current_spec(v),
{
    v.items.remove_ensures(idx as int);
}

/// Removing the current item keeps a current item while the queue is not
/// empty: the position stays where it was (clamped to the new end), so the
/// item that followed the removed one becomes current, or the new last item
/// when the removed one was last; only an emptied queue has none.
pub proof fn law_remove_current_moves_to_next(v: QueueView, idx: usize)
    requires
        queue_wf(v),
        idx < v.items.len(),
        v.index == Some(idx),
    ensures
        v.items.len() > 1 ==> remove_spec(v, idx).index == Some(
            if idx + 1 < v.items.len() {
                idx
            } else {
                (v.items.len() - 2) as usize
            },
        ),
        v.items.len() > 1 ==> current_spec(remove_spec(v, idx)) == Some(
            if idx + 1 < v.items.len() {
                v.items[idx + 1]
            } else {
                v.items[v.items.len() - 2]
            },
        ),
        v.items.len() == 1 ==> current_spec(remove_spec(v, idx)) is None,
        remove_spec(v, idx).items.len() == v.items.len() - 1,
{
    v.items.remove_ensures(idx as int);
}

/// `previous` right after `next` returns to the item that was current before
/// `next`, with the history as it was, whatever position `next` chose.
pub proof fn law_previous_undoes_next(v: QueueView, w: QueueView)
    requires
        queue_wf(v),
        !next_stays(v),
        v.index is Some,
        w.items == v.items,
        w.history == history_after_next(v),
    ensures
        previous_spec(w).index == v.index,
        previous_spec(w).history == v.history,
        previous_spec(w).items == v.items,
{
    assert(w.history.drop_last() =~= v.history);
}

} // verus!
