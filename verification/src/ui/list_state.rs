//! The selection of a list panel.
use vstd::prelude::*;

verus! {

/// Which row of a list is selected, if any.
#[derive(Debug, Clone, Copy, PartialEq, Eq, Structural, Default)]
pub struct ListState {
    selected: Option<usize>,
}

/// The selection after moving down one row in a list of `count` rows,
/// wrapping round at the end; nothing moves in an empty list.
pub open spec fn wrap_next(sel: Option<usize>, count: usize) -> Option<usize> {
    if count == 0 {
        sel
    } else {
        match sel {
            Some(i) => Some(((i + 1) % (count as int)) as usize),
            None => Some(0),
        }
    }
}

/// The selection after moving up one row in a list of `count` rows,
/// wrapping round at the top; nothing moves in an empty list.
pub open spec fn wrap_previous(sel: Option<usize>, count: usize) -> Option<usize> {
    if count == 0 {
        sel
    } else {
        match sel {
            Some(i) => if i == 0 {
                Some((count - 1) as usize)
            } else {
                Some((i - 1) as usize)
            },
            None => Some(0),
        }
    }
}

/// Moves the selection down one row of `count`, wrapping round.
pub fn next_selection(sel: Option<usize>, count: usize) -> (r: Option<usize>)
    ensures
        r == wrap_next(sel, count),
{
    if count == 0 {
        return sel;
    }
    match sel {
        Some(i) => {
            let n: u128 = (i as u128 + 1) % (count as u128);
            Some(n as usize)
        },
        None => Some(0),
    }
}

/// Moves the selection up one row of `count`, wrapping round.
pub fn previous_selection(sel: Option<usize>, count: usize) -> (r: Option<usize>)
    ensures
        r == wrap_previous(sel, count),
{
    if count == 0 {
        return sel;
    }
    match sel {
        Some(i) => if i == 0 {
            Some(count - 1)
        } else {
            Some(i - 1)
        },
        None => Some(0),
    }
}

impl ListState {
    /// The selected row.
    pub closed spec fn sel(&self) -> Option<usize> {
        self.selected
    }

    /// A list with nothing selected.
    pub fn new() -> (r: Self)
        ensures
            r.sel() is None,
    {
        ListState { selected: None }
    }

    /// The selected row.
    pub fn selected(&self) -> (r: Option<usize>)
        ensures
            r == self.sel(),
    {
        self.selected
    }

    /// Selects a row, or nothing.
    pub fn select(&mut self, index: Option<usize>)
        ensures
            final(self).sel() == index,
    {
        self.selected = index;
    }
}

/// Moving down then up one row gives back a selection inside the list.
pub proof fn law_next_then_previous(i: usize, count: usize)
    requires
        i < count,
    ensures
        wrap_previous(wrap_next(Some(i), count), count) == Some(i),
{
    if i + 1 < count {
        assert((i + 1) % (count as int) == i + 1) by (nonlinear_arith)
            requires
                i + 1 < count,
        ;
    } else {
        assert((i + 1) % (count as int) == 0) by (nonlinear_arith)
            requires
                i + 1 == count,
        ;
    }
}

/// Moving up then down one row gives back a selection inside the list.
pub proof fn law_previous_then_next(i: usize, count: usize)
    requires
        i < count,
    ensures
        wrap_next(wrap_previous(Some(i), count), count) == Some(i),
{
    if i == 0 {
        assert((count as int) % (count as int) == 0) by (nonlinear_arith)
            requires
                count > 0,
        ;
    } else {
        assert((i as int) % (count as int) == i) by (nonlinear_arith)
            requires
                0 < i < count,
        ;
    }
}

/// Moving keeps a selection inside a non-empty list inside it, and selects
/// a row when nothing was selected.
pub proof fn law_moves_stay_in_list(sel: Option<usize>, count: usize)
    requires
        count > 0,
        sel matches Some(i) ==> i < count,
    ensures
        wrap_next(sel, count) matches Some(j) && j < count,
        wrap_previous(sel, count) matches Some(j) && j < count,
{
    if let Some(i) = sel {
        assert((i + 1) % (count as int) < count) by (nonlinear_arith)
            requires
                count > 0,
        ;
    }
}

} // verus!
