//! The header of the table (its columns and the selected one) and the state
//! of its rows: order, selection and filter.

use vstd::prelude::*;
use crate::row_selection::clamp_selection;

verus! {

/// The kinds of column headers.
#[derive(Debug, Clone, Copy, PartialEq, Eq, Structural)]
pub enum ColumnHeader {
    PID,
    Name,
    CPU,
    Mem,
}

/// The most headers a table has.
pub const TABLE_HEADER_CAPACITY: usize = 10;

/// The column headers, the selected one and the capacity.
#[derive(Debug)]
pub struct TableHeader {
    pub col_headers: Vec<ColumnHeader>,
    pub col_selection: Option<usize>,
    pub col_capacity: usize,
}

impl Default for TableHeader {
    fn default() -> (r: Self)
        ensures
            r.col_headers@ == seq![ColumnHeader::PID, ColumnHeader::Name, ColumnHeader::CPU, ColumnHeader::Mem],
            r.col_selection is None,
            r.col_capacity == TABLE_HEADER_CAPACITY,
    {
        TableHeader {
            col_headers: vec![ColumnHeader::PID, ColumnHeader::Name, ColumnHeader::CPU, ColumnHeader::Mem],
            col_selection: None,
            col_capacity: TABLE_HEADER_CAPACITY,
        }
    }
}

impl TableHeader {
    /// Inserts `col_header` at the selection while there is room; without
    /// a selection nothing is inserted. Returns whether it was.
    pub fn insert(&mut self, col_header: ColumnHeader) -> (r: bool)
        requires
            old(self).col_selection matches Some(s) ==> s <= old(self).col_headers@.len(),
        ensures
            final(self).col_selection == old(self).col_selection,
            final(self).col_capacity == old(self).col_capacity,
            r == (old(self).col_headers@.len() < old(self).col_capacity && old(self).col_selection is Some),
            r ==> final(self).col_headers@ == old(self).col_headers@.insert(
                old(self).col_selection->0 as int,
                col_header,
            ),
            !r ==> final(self).col_headers@ == old(self).col_headers@,
    {
        if self.col_headers.len() >= self.col_capacity {
            return false;
        }
        if let Some(selection) = self.col_selection {
            self.col_headers.insert(selection, col_header);
            return true;
        }
        // Cannot insert when selection is None
        false
    }

    /// Removes the selected header while at least two remain, and moves
    /// the selection back by one. Returns whether it did.
    pub fn remove(&mut self) -> (r: bool)
        requires
            old(self).col_selection matches Some(s) ==> s < old(self).col_headers@.len(),
        ensures
            final(self).col_capacity == old(self).col_capacity,
            r == (old(self).col_headers@.len() > 1 && old(self).col_selection is Some),
            r ==> final(self).col_headers@ == old(self).col_headers@.remove(
                old(self).col_selection->0 as int,
            ) && final(self).col_selection == Some(
                (if old(self).col_selection->0 == 0 {
                    0
                } else {
                    old(self).col_selection->0 - 1
                }) as usize,
            ),
            !r ==> final(self).col_headers@ == old(self).col_headers@ && final(self).col_selection
                == old(self).col_selection,
    {
        // There must be at least 2 columns to remove a single column
        if self.col_headers.len() <= 1 {
            return false;
        }
        if let Some(selection) = self.col_selection {
            let _ = self.col_headers.remove(selection);
            self.col_selection = Some(selection.saturating_sub(1));
            return true;
        }
        // Cannot remove when selection is None
        false
    }

    pub fn count(&self) -> (r: usize)
        ensures
            r == self.col_headers@.len(),
    {
        self.col_headers.len()
    }
}

/// The orders of the rows.
#[derive(Debug, Clone, Copy, PartialEq, Eq, Structural)]
pub enum RowOrder {
    PidDec,
    PidInc,
    NameDec,
    NameInc,
    CpuDec,
    CpuInc,
    MemDec,
    MemInc,
}

impl Default for RowOrder {
    fn default() -> (r: Self)
        ensures
            r == RowOrder::CpuDec,
    {
        RowOrder::CpuDec
    }
}

/// The directions the row selection moves in.
#[derive(Debug, Clone, Copy, PartialEq, Eq, Structural)]
pub enum MoveRowDirection {
    Down,
    Up,
}

/// The order, selection and filter of the rows.
#[derive(Debug)]
pub struct TableRowsState {
    order: RowOrder,
    selection: Option<usize>,
    filter: Option<String>,
}

impl TableRowsState {
    pub closed spec fn selection_view(&self) -> Option<usize> {
        self.selection
    }

    pub closed spec fn order_view(&self) -> RowOrder {
        self.order
    }

    /// The state of `row_count` rows: the default order, the first row
    /// selected when there is one, and no filter.
    pub fn new(row_count: usize) -> (r: Self)
        ensures
            r.order_view() == RowOrder::CpuDec,
            r.selection_view() == if row_count > 0 {
                Some(0usize)
            } else {
                None
            },
    {
        let order = RowOrder::default();
        let selection = if row_count > 0 {
            Some(0)
        } else {
            None
        };
        TableRowsState { order, selection, filter: None }
    }

    /// Clamps the selection to `row_count` rows.
    pub fn model_update(&mut self, row_count: usize)
        ensures
            final(self).selection_view() == clamp_selection(old(self).selection_view(), row_count),
            final(self).order_view() == old(self).order_view(),
    {
        self.enforce_selection_invariant(row_count);
    }

    fn enforce_selection_invariant(&mut self, row_count: usize)
        ensures
            final(self).selection_view() == clamp_selection(old(self).selection_view(), row_count),
            final(self).order_view() == old(self).order_view(),
    {
        self.selection = if row_count == 0 {
            None
        } else {
            match self.selection {
                Some(row) if row < row_count => Some(row),
                Some(_) => Some(row_count - 1),
                None => Some(0),
            }
        };
    }

    /// Moves the selection by one row within `row_count` rows; nothing
    /// happens without a selection.
    pub fn move_row_selection(&mut self, dir: MoveRowDirection, row_count: usize)
        ensures
            final(self).order_view() == old(self).order_view(),
            final(self).selection_view() == match old(self).selection_view() {
                Some(s) => clamp_selection(
                    Some(
                        match dir {
                            MoveRowDirection::Up => if s == 0 {
                                0usize
                            } else {
                                (s - 1) as usize
                            },
                            MoveRowDirection::Down => if s == usize::MAX {
                                s
                            } else {
                                (s + 1) as usize
                            },
                        },
                    ),
                    row_count,
                ),
                None => None,
            },
    {
        if let Some(selection) = self.selection {
            match dir {
                MoveRowDirection::Up => {
                    self.selection = Some(selection.saturating_sub(1));
                },
                MoveRowDirection::Down => {
                    self.selection = Some(selection.saturating_add(1));
                },
            }
            self.enforce_selection_invariant(row_count);
        }
    }
}

} // verus!
