//! Sort orders of the process table.

use vstd::prelude::*;

verus! {

/// Sort orders of the table rows.
#[derive(Debug, Clone, Copy, PartialEq, Eq, Structural)]
pub enum RowSort {
    // Process
    PidDec,
    PidInc,
    CpuDec,
    CpuInc,
    MemDec,
    MemInc,
    NameDec,
    NameInc,
}

impl Default for RowSort {
    fn default() -> (r: Self)
        ensures
            r == RowSort::CpuDec,
    {
        RowSort::CpuDec
    }
}

/// Sort orders of process entries.
#[derive(Debug, Clone, Copy, PartialEq, Eq, Structural)]
pub enum Sort {
    PidDec,
    PidInc,
    CpuDec,
    CpuInc,
    MemDec,
    MemInc,
    NameDec,
    NameInc,
}

impl Default for Sort {
    fn default() -> (r: Self)
        ensures
            r == Sort::CpuDec,
    {
        Sort::CpuDec
    }
}

} // verus!
