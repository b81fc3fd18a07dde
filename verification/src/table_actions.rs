//! Actions on a process table: sort orders, moves, and a header list that
//! grows at its end.

use vstd::prelude::*;
use crate::table_header::{ColumnHeader, TABLE_HEADER_CAPACITY};

verus! {

/// Sort orders of the processes.
#[derive(Debug, Clone, Copy, PartialEq, Eq, Structural)]
pub enum ProcessOrder {
    PidDec,
    PidInc,
    NameDec,
    NameInc,
    CpuDec,
    CpuInc,
    MemDec,
    MemInc,
}

impl Default for ProcessOrder {
    fn default() -> (r: Self)
        ensures
            r == ProcessOrder::CpuDec,
    {
        ProcessOrder::CpuDec
    }
}

/// Directions of a move in the table.
#[derive(Debug, Clone, Copy, PartialEq, Eq, Structural)]
pub enum Direction {
    Down,
    Up,
    Left,
    Right,
}

/// Actions on the table.
#[derive(Debug, Clone, Copy, PartialEq, Eq, Structural)]
pub enum Action {
    Sort(ProcessOrder),
    Move(Direction),
    Insert(ColumnHeader),
    Remove(ColumnHeader),
}

/// Column headers, in order, with a selection.
#[derive(Debug)]
pub struct TableHeader {
    headers: Vec<ColumnHeader>,
    selection: Option<usize>,
}

impl TableHeader {
    pub closed spec fn headers_view(&self) -> Seq<ColumnHeader> {
        self.headers@
    }

    /// Appends `header` while there are fewer than the capacity; returns
    /// whether it did.
    pub fn insert(&mut self, header: ColumnHeader) -> (r: bool)
        ensures
            r == (old(self).headers_view().len() < TABLE_HEADER_CAPACITY),
            r ==> final(self).headers_view() == old(self).headers_view().push(header),
            !r ==> final(self).headers_view() == old(self).headers_view(),
    {
        if self.headers.len() < TABLE_HEADER_CAPACITY {
            self.headers.push(header);
            true
        } else {
            false
        }
    }

    pub fn count(&self) -> (r: usize)
        ensures
            r == self.headers_view().len(),
    {
        self.headers.len()
    }
}

impl Default for TableHeader {
    fn default() -> (r: Self)
        ensures
            r.headers_view() == seq![ColumnHeader::PID, ColumnHeader::Name, ColumnHeader::CPU, ColumnHeader::Mem],
    {
        TableHeader {
            headers: vec![ColumnHeader::PID, ColumnHeader::Name, ColumnHeader::CPU, ColumnHeader::Mem],
            selection: None,
        }
    }
}

} // verus!
