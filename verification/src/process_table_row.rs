//! A row of the process table: a process with its statistics.

use vstd::prelude::*;
use crate::process::Process;
use crate::process_stats::ProcessStats;
use crate::row_order::{process_order, row_order};
use crate::sort::RowSort;
use std::cmp::Ordering;

verus! {

/// A process and the statistics recorded for it.
pub struct ProcessTableRow<'a> {
    process: &'a Process,
    statistics: &'a ProcessStats,
}

impl<'a> ProcessTableRow<'a> {
    pub closed spec fn view_process(&self) -> &'a Process {
        self.process
    }

    pub closed spec fn view_statistics(&self) -> &'a ProcessStats {
        self.statistics
    }

    pub fn new(process: &'a Process, statistics: &'a ProcessStats) -> (r: Self)
        ensures
            r.view_process() == process,
            r.view_statistics() == statistics,
    {
        ProcessTableRow { process, statistics }
    }

    pub fn process(&self) -> (r: &'a Process)
        ensures
            r == self.view_process(),
    {
        self.process
    }

    pub fn statistics(&self) -> (r: &'a ProcessStats)
        ensures
            r == self.view_statistics(),
    {
        self.statistics
    }

    /// The order of two rows under `sort`, by their processes alone;
    /// unordered CPU usages (a NaN) count as equal.
    pub fn cmp(&self, other: &Self, sort: &RowSort) -> (r: Ordering)
        ensures
            r == row_order(*sort, self.view_process()@, other.view_process()@),
    {
        process_order(self.process, other.process, sort)
    }
}

} // verus!
