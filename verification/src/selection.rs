//! The highlighted row of the result list.
use vstd::prelude::*;

verus! {

/// Which row of the result list is highlighted. Moving past either end is
/// allowed; the list is clamped to its rows when it is drawn.
#[derive(Debug, Clone, Copy, PartialEq, Eq, Structural)]
pub struct ListSelection {
    pub selected: Option<usize>,
}

/// The row after `sel`: the first row when none is highlighted, and no
/// further than `usize::MAX`.
pub open spec fn next_row(sel: Option<usize>) -> Option<usize> {
    match sel {
        None => Some(0),
        Some(i) => Some(if i == usize::MAX { usize::MAX } else { (i + 1) as usize }),
    }
}

/// The row before `sel`: `usize::MAX` (the last row, once clamped) when none
/// is highlighted, and no further back than the first row.
pub open spec fn previous_row(sel: Option<usize>) -> Option<usize> {
    match sel {
        None => Some(usize::MAX),
        Some(i) => Some(if i == 0 { 0 } else { (i - 1) as usize }),
    }
}

impl ListSelection {
    /// No row highlighted.
    pub fn new() -> (s: ListSelection)
        ensures
            s.selected is None,
    {
        ListSelection { selected: None }
    }

    /// The highlighted row, if any.
    pub fn selected(&self) -> (r: Option<usize>)
        ensures
            r == self.selected,
    {
        self.selected
    }

    /// Highlights the given row, or none.
    pub fn select(&mut self, index: Option<usize>)
        ensures
            final(self).selected == index,
    {
        self.selected = index;
    }

    /// Moves the highlight one row down.
    pub fn select_next(&mut self)
        ensures
            final(self).selected == next_row(old(self).selected),
    {
        let next = match self.selected {
            None => 0,
            Some(i) => i.saturating_add(1),
        };
        self.select(Some(next));
    }

    /// Moves the highlight one row up.
    pub fn select_previous(&mut self)
        ensures
            final(self).selected == previous_row(old(self).selected),
    {
        let previous = match self.selected {
            None => usize::MAX,
            Some(i) => i.saturating_sub(1),
        };
        self.select(Some(previous));
    }

    /// Highlights the first row.
    pub fn select_first(&mut self)
        ensures
            final(self).selected == Some(0usize),
    {
        self.select(Some(0));
    }
}

impl Default for ListSelection {
    /// No row highlighted.
    fn default() -> (s: ListSelection)
        ensures
            s.selected is None,
    {
        ListSelection::new()
    }
}

/// Moving down goes to the very next row: from row `i` to row `i + 1`,
/// from no row to the first; only the last representable row stays put.
pub proof fn next_is_one_row_down(i: usize)
    ensures
        i < usize::MAX ==> next_row(Some(i)) == Some((i + 1) as usize),
        i == usize::MAX ==> next_row(Some(i)) == Some(i),
        next_row(None) == Some(0usize),
{
}

/// Moving up goes to the very previous row: from row `i` to row `i - 1`,
/// from no row to the last; the first row stays put.
pub proof fn previous_is_one_row_up(i: usize)
    ensures
        i > 0 ==> previous_row(Some(i)) == Some((i - 1) as usize),
        i == 0 ==> previous_row(Some(i)) == Some(0usize),
        previous_row(None) == Some(usize::MAX),
{
}

/// Moving down and then up returns to the same row, unless the highlight
/// was on the last representable row.
pub proof fn previous_undoes_next(sel: Option<usize>)
    requires
        sel != Some(usize::MAX),
    ensures
        sel is Some ==> previous_row(next_row(sel)) == sel,
        sel is None ==> previous_row(next_row(sel)) == Some(0usize),
{
}

/// Moving up and then down returns to the same row, unless the highlight
/// was on the first row.
pub proof fn next_undoes_previous(i: usize)
    requires
        i != 0,
    ensures
        next_row(previous_row(Some(i))) == Some(i),
{
}

} // verus!
