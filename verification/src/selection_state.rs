//! The selected row of a process table, by the row count alone.

use vstd::prelude::*;
use crate::row_selection::clamp_selection;

verus! {

/// Sort orders of the process table.
#[derive(Debug, Clone, Copy, PartialEq, Eq, Structural)]
pub enum ProcessTableSort {
    PidDec,
    PidInc,
    NameDec,
    NameInc,
    CpuDec,
    CpuInc,
    MemDec,
    MemInc,
}

impl Default for ProcessTableSort {
    fn default() -> (r: Self)
        ensures
            r == ProcessTableSort::CpuDec,
    {
        ProcessTableSort::CpuDec
    }
}

/// The directions the selection moves in: down and up move through the
/// rows, left and right do not move it.
#[derive(Debug, Clone, Copy, PartialEq, Eq, Structural)]
pub enum MoveDirection {
    Down,
    Up,
    Left,
    Right,
}

/// The selected row; `None` is kept for an empty table.
#[derive(Debug, Default, Clone, Copy)]
pub struct ProcessTableState {
    select_row: Option<usize>,
}

/// One row down, not past `max_idx`.
pub fn move_selection_down(selection_idx: usize, max_idx: usize) -> (r: usize)
    ensures
        r == if selection_idx < max_idx {
            selection_idx + 1
        } else {
            selection_idx as int
        },
{
    let mut new_selection_idx = selection_idx;
    if selection_idx < max_idx {
        new_selection_idx = selection_idx + 1;
    }
    new_selection_idx
}

/// One row up, not above the first.
pub fn move_selection_up(selection_idx: usize) -> (r: usize)
    ensures
        r == if selection_idx > 0 {
            selection_idx - 1
        } else {
            0
        },
{
    selection_idx.saturating_sub(1)
}

impl ProcessTableState {
    pub closed spec fn select_row_view(&self) -> Option<usize> {
        self.select_row
    }

    /// The state of a table of `row_count` rows: its first row selected
    /// when it has one.
    pub fn new(row_count: usize) -> (r: Self)
        ensures
            r.select_row_view() == if row_count > 0 {
                Some(0usize)
            } else {
                None
            },
    {
        let select_row = if row_count > 0 {
            Some(0)
        } else {
            None
        };
        ProcessTableState { select_row }
    }

    /// Clamps the selection to `row_count` rows after the rows changed.
    pub fn handle_model_update(&mut self, row_count: usize)
        ensures
            final(self).select_row_view() == clamp_selection(old(self).select_row_view(), row_count),
    {
        self.enforce_select_row_invariant(row_count);
    }

    /// Clamps the selection: no rows means none, out of range moves to the
    /// last row, and none with rows selects the first.
    pub fn enforce_select_row_invariant(&mut self, row_count: usize)
        ensures
            final(self).select_row_view() == clamp_selection(old(self).select_row_view(), row_count),
    {
        self.select_row = if row_count == 0 {
            None
        } else {
            match self.select_row {
                Some(row) if row < row_count => Some(row),
                Some(_) => Some(row_count - 1),
                None => Some(0),
            }
        };
    }

    /// Moves the selection down (not past `max_idx`) or up; left and right
    /// change nothing, nor does any move without a selection.
    pub fn move_selection(&mut self, dir: MoveDirection, max_idx: usize)
        ensures
            final(self).select_row_view() == match old(self).select_row_view() {
                None => None,
                Some(s) => Some(
                    match dir {
                        MoveDirection::Down => if s < max_idx {
                            (s + 1) as usize
                        } else {
                            s
                        },
                        MoveDirection::Up => if s > 0 {
                            (s - 1) as usize
                        } else {
                            0
                        },
                        _ => s,
                    },
                ),
            },
    {
        let selection = match self.select_row {
            None => return ,
            Some(s) => s,
        };
        match dir {
            MoveDirection::Down => {
                self.select_row = Some(move_selection_down(selection, max_idx));
            },
            MoveDirection::Up => {
                self.select_row = Some(move_selection_up(selection));
            },
            MoveDirection::Left => {},
            MoveDirection::Right => {},
        }
    }

    pub fn select_row(&self) -> (r: Option<usize>)
        ensures
            r == self.select_row_view(),
    {
        self.select_row
    }
}

} // verus!
