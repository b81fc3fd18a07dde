//! The rows of the table component: the sampled processes, a filter on
//! their names, the sort order and the selected row.

use vstd::prelude::*;
use crate::key::EventState;
use crate::process::{Process, ProcessModel};
use crate::row_order::sort_consistent;
use crate::row_selection::clamp_selection;
use crate::sort::RowSort;
use crate::table::{sorted_stable, stable_sort_indices};
use crate::text::{lowercase, occurs_in, str_contains, str_to_lowercase};

verus! {

/// A row: a process as it is shown; CPU usages are `f32` bit patterns.
#[derive(Debug, Clone, PartialEq)]
pub struct Row {
    pub pid: u32,
    pub name: String,
    pub avg_cpu_usage: u32,
    pub total_cpu_usage: u32,
    pub mem_usage: u64,
}

/// A row as the process it shows.
pub open spec fn row_model(r: Row) -> ProcessModel {
    ProcessModel {
        pid: r.pid,
        cpu_total: r.total_cpu_usage,
        cpu_average: r.avg_cpu_usage,
        mem: r.mem_usage,
        name: r.name@,
    }
}

/// The directions the row selection moves in.
#[derive(Debug, Clone, Copy, PartialEq, Eq, Structural)]
pub enum Direction {
    Up,
    Down,
}

/// The orders of the rows.
#[derive(Debug, Clone, Copy, PartialEq, Eq, Structural)]
pub enum RowOrder {
    PIDDec,
    PIDInc,
    NameDec,
    NameInc,
    CPUDec,
    CPUInc,
    MemDec,
    MemInc,
}

/// The table sort that a row order is.
pub open spec fn sort_of(o: RowOrder) -> RowSort {
    match o {
        RowOrder::PIDDec => RowSort::PidDec,
        RowOrder::PIDInc => RowSort::PidInc,
        RowOrder::NameDec => RowSort::NameDec,
        RowOrder::NameInc => RowSort::NameInc,
        RowOrder::CPUDec => RowSort::CpuDec,
        RowOrder::CPUInc => RowSort::CpuInc,
        RowOrder::MemDec => RowSort::MemDec,
        RowOrder::MemInc => RowSort::MemInc,
    }
}

pub fn sort_for(o: &RowOrder) -> (r: RowSort)
    ensures
        r == sort_of(*o),
{
    match o {
        RowOrder::PIDDec => RowSort::PidDec,
        RowOrder::PIDInc => RowSort::PidInc,
        RowOrder::NameDec => RowSort::NameDec,
        RowOrder::NameInc => RowSort::NameInc,
        RowOrder::CPUDec => RowSort::CpuDec,
        RowOrder::CPUInc => RowSort::CpuInc,
        RowOrder::MemDec => RowSort::MemDec,
        RowOrder::MemInc => RowSort::MemInc,
    }
}

/// Edits and requests on the rows.
#[derive(Debug, Clone, Copy, PartialEq, Eq, Structural)]
pub enum RowsEvent {
    MoveSelection(Direction),
    TerminateSelection,
    Sort(RowOrder),
}

/// Whether a row name passes a filter: the lowercased filter occurs in the
/// lowercased name.
pub open spec fn name_passes(name: Seq<char>, filter: Option<Seq<char>>) -> bool {
    match filter {
        Some(f) => occurs_in(lowercase(name), lowercase(f)),
        None => true,
    }
}

/// `q` lists the rows that pass the filter, each once, in the order of
/// `sort`, equal rows in the order of the rows (where the sort is a total
/// preorder).
pub open spec fn is_row_order(q: Seq<usize>, ps: Seq<ProcessModel>, sort: RowSort, filter: Option<Seq<char>>) -> bool {
    &&& forall|j: int| 0 <= j < q.len() ==> q[j] < ps.len() && name_passes(ps[q[j] as int].name, filter)
    &&& forall|j1: int, j2: int| 0 <= j1 < j2 < q.len() ==> q[j1] != q[j2]
    &&& forall|i: int| 0 <= i < ps.len() && name_passes(ps[i].name, filter) ==> q.contains(i as usize)
    &&& sort_consistent(sort, ps) ==> sorted_stable(sort, ps, q)
}

/// The number of the first `n` rows that pass the filter.
pub open spec fn passing_count(ps: Seq<ProcessModel>, filter: Option<Seq<char>>, n: int) -> nat
    decreases n,
{
    if n <= 0 {
        0
    } else {
        passing_count(ps, filter, n - 1) + if name_passes(ps[n - 1].name, filter) {
            1nat
        } else {
            0nat
        }
    }
}

impl Row {
    /// The process that this row shows.
    pub fn to_process(&self) -> (r: Process)
        ensures
            r@ == row_model(*self),
    {
        Process::new(self.pid, self.total_cpu_usage, self.avg_cpu_usage, self.mem_usage, self.name.clone())
    }

    /// Whether the row's name passes `filter`, without regard to case.
    fn filter(&self, filter: &str) -> (r: bool)
        ensures
            r == name_passes(self.name@, Some(filter@)),
    {
        let name = str_to_lowercase(self.name.as_str());
        let f = str_to_lowercase(filter);
        str_contains(name.as_str(), f.as_str())
    }

    pub fn mem_usage_as_b(&self) -> (r: u64)
        ensures
            r == self.mem_usage,
    {
        self.mem_usage
    }

    pub fn mem_usage_as_kb(&self) -> (r: u64)
        ensures
            r == self.mem_usage / 1024,
    {
        self.mem_usage / 1024
    }

    pub fn mem_usage_as_mb(&self) -> (r: u64)
        ensures
            r == self.mem_usage / 1048576,
    {
        self.mem_usage / 1048576
    }

    pub fn mem_usage_as_gb(&self) -> (r: u64)
        ensures
            r == self.mem_usage / 1073741824,
    {
        self.mem_usage / 1073741824
    }
}

/// The rows, their filter, their order and the selected row.
#[derive(Debug)]
pub struct Rows {
    rows: Vec<Row>,
    filter: Option<String>,
    selection: Option<usize>,
    arrangement: RowOrder,
}

/// What `Rows::event` does: the rows and the filter stay; a move keeps the
/// selection among the rows shown, a sort sets the order, and a request to
/// terminate gives the process id of the selected row when there is one.
pub open spec fn rows_event_outcome(old: Rows, new: Rows, event: RowsEvent, r: EventState) -> bool {
    &&& new.models() == old.models()
    &&& new.filter_view() == old.filter_view()
    &&& match event {
        RowsEvent::MoveSelection(dir) => r == EventState::Consumed && new.order_view()
            == old.order_view() && new.selection_view() == match old.selection_view() {
            Some(s) => clamp_selection(
                Some(
                    match dir {
                        Direction::Up => if s == 0 {
                            0usize
                        } else {
                            (s - 1) as usize
                        },
                        Direction::Down => if s == usize::MAX {
                            s
                        } else {
                            (s + 1) as usize
                        },
                    },
                ),
                old.shown() as usize,
            ),
            None => None,
        },
        RowsEvent::Sort(o) => r == EventState::Consumed && new.order_view() == o
            && new.selection_view() == old.selection_view(),
        RowsEvent::TerminateSelection => {
            &&& new.order_view() == old.order_view()
            &&& new.selection_view() == old.selection_view()
            &&& (r is ReturnPID <==> (old.selection_view() matches Some(s) && s < old.shown()))
            &&& (r is ReturnPID || r == EventState::Consumed)
            &&& r matches EventState::ReturnPID(pid) ==> exists|q: Seq<usize>|
                {
                    &&& is_row_order(
                        q,
                        old.models(),
                        sort_of(old.order_view()),
                        old.filter_view(),
                    )
                    &&& old.selection_view() matches Some(s)
                    &&& pid == old.models()[q[s as int] as int].pid
                }
        },
    }
}

impl Rows {
    pub closed spec fn models(&self) -> Seq<ProcessModel> {
        self.rows@.map_values(|r: Row| row_model(r))
    }

    pub closed spec fn filter_view(&self) -> Option<Seq<char>> {
        match self.filter {
            Some(f) => Some(f@),
            None => None,
        }
    }

    pub closed spec fn selection_view(&self) -> Option<usize> {
        self.selection
    }

    pub closed spec fn order_view(&self) -> RowOrder {
        self.arrangement
    }

    /// The number of rows that pass the filter.
    pub open spec fn shown(&self) -> nat {
        passing_count(self.models(), self.filter_view(), self.models().len() as int)
    }

    /// Rows of a snapshot: no filter, sorted by CPU usage, highest first,
    /// and the first row selected when there is one.
    pub fn new(rows: Vec<Row>) -> (r: Self)
        ensures
            r.models() == rows@.map_values(|x: Row| row_model(x)),
            r.filter_view() is None,
            r.order_view() == RowOrder::CPUDec,
            r.selection_view() == if rows@.len() == 0 {
                None
            } else {
                Some(0usize)
            },
    {
        let selection = if rows.len() == 0 {
            None
        } else {
            Some(0)
        };
        Rows { rows, filter: None, selection, arrangement: RowOrder::CPUDec }
    }

    /// Applies `event`. Moving the selection keeps it among the rows shown;
    /// a request to terminate gives the process id of the selected row.
    pub fn event(&mut self, event: RowsEvent) -> (r: EventState)
        ensures
            rows_event_outcome(*old(self), *final(self), event, r),
    {
        match event {
            RowsEvent::MoveSelection(Direction::Up) => self.move_selection(Direction::Up),
            RowsEvent::MoveSelection(Direction::Down) => self.move_selection(Direction::Down),
            RowsEvent::Sort(RowOrder::PIDDec) => self.arrangement = RowOrder::PIDDec,
            RowsEvent::Sort(RowOrder::PIDInc) => self.arrangement = RowOrder::PIDInc,
            RowsEvent::Sort(RowOrder::NameDec) => self.arrangement = RowOrder::NameDec,
            RowsEvent::Sort(RowOrder::NameInc) => self.arrangement = RowOrder::NameInc,
            RowsEvent::Sort(RowOrder::CPUDec) => {
                self.arrangement = RowOrder::CPUDec;
            },
            RowsEvent::Sort(RowOrder::CPUInc) => {
                self.arrangement = RowOrder::CPUInc;
            },
            RowsEvent::Sort(RowOrder::MemDec) => {
                self.arrangement = RowOrder::MemDec;
            },
            RowsEvent::Sort(RowOrder::MemInc) => {
                self.arrangement = RowOrder::MemInc;
            },
            RowsEvent::TerminateSelection => {
                if let Some(pid) = self.get_selected_value() {
                    return EventState::ReturnPID(pid);
                }
            },
        }
        EventState::Consumed
    }

    fn move_selection(&mut self, dir: Direction)
        ensures
            final(self).models() == old(self).models(),
            final(self).filter_view() == old(self).filter_view(),
            final(self).order_view() == old(self).order_view(),
            final(self).selection_view() == match old(self).selection_view() {
                Some(s) => clamp_selection(
                    Some(
                        match dir {
                            Direction::Up => if s == 0 {
                                0usize
                            } else {
                                (s - 1) as usize
                            },
                            Direction::Down => if s == usize::MAX {
                                s
                            } else {
                                (s + 1) as usize
                            },
                        },
                    ),
                    old(self).shown() as usize,
                ),
                None => None,
            },
    {
        if let Some(selection) = self.selection {
            match dir {
                Direction::Up => {
                    self.selection = Some(selection.saturating_sub(1));
                },
                Direction::Down => {
                    self.selection = Some(selection.saturating_add(1));
                },
            }
            self.enforce_invariant_on_selection();
        }
    }

    /// Clamps the selection to the rows shown.
    fn enforce_invariant_on_selection(&mut self)
        ensures
            final(self).models() == old(self).models(),
            final(self).filter_view() == old(self).filter_view(),
            final(self).order_view() == old(self).order_view(),
            final(self).selection_view() == clamp_selection(
                old(self).selection_view(),
                old(self).shown() as usize,
            ),
    {
        let row_count: usize = self.filter_and_sort_indices().len();
        self.selection = if row_count == 0 {
            None
        } else {
            match self.selection {
                Some(row) if row < row_count => Some(row),
                Some(_) => Some(row_count - 1),
                None => Some(0),
            }
        };
    }

    /// The process id of the selected row, if a row is selected and shown.
    fn get_selected_value(&self) -> (r: Option<u32>)
        ensures
            r is Some <==> (self.selection_view() matches Some(s) && s < self.shown()),
            r matches Some(pid) ==> exists|q: Seq<usize>|
                {
                    &&& is_row_order(q, self.models(), sort_of(self.order_view()), self.filter_view())
                    &&& self.selection_view() matches Some(s)
                    &&& pid == self.models()[q[s as int] as int].pid
                },
    {
        if let Some(selection) = self.selection {
            let indices = self.filter_and_sort_indices();
            if selection < indices.len() {
                let idx = indices[selection];
                proof {
                    assert(self.models()[idx as int] == row_model(self.rows@[idx as int]));
                }
                return Some(self.rows[idx].pid);
            }
            return None;
        }
        None
    }

    /// The rows that pass the filter, in the order, each with whether it is
    /// the selected one.
    pub fn iter_filter_and_sort(&self) -> (r: Vec<(Row, bool)>)
        ensures
            exists|q: Seq<usize>|
                {
                    &&& is_row_order(q, self.models(), sort_of(self.order_view()), self.filter_view())
                    &&& r@.len() == q.len()
                    &&& forall|j: int|
                        0 <= j < q.len() ==> row_model((#[trigger] r@[j]).0) == self.models()[q[j] as int]
                            && r@[j].1 == (self.selection_view() == Some(j as usize))
                },
    {
        let indices = self.filter_and_sort_indices();
        let mut out: Vec<(Row, bool)> = Vec::new();
        let mut j: usize = 0;
        while j < indices.len()
            invariant
                is_row_order(indices@, self.models(), sort_of(self.order_view()), self.filter_view()),
                j <= indices@.len(),
                out@.len() == j,
                forall|t: int|
                    0 <= t < j ==> row_model((#[trigger] out@[t]).0) == self.models()[indices@[t] as int]
                        && out@[t].1 == (self.selection_view() == Some(t as usize)),
            decreases indices@.len() - j,
        {
            let idx = indices[j];
            let row = self.rows[idx].clone_row();
            let selected = match self.selection {
                Some(s) => s == j,
                None => false,
            };
            proof {
                assert(self.models()[idx as int] == row_model(self.rows@[idx as int]));
            }
            out.push((row, selected));
            j = j + 1;
        }
        out
    }

    /// The indices of the rows that pass the filter, sorted by the order.
    fn filter_and_sort_indices(&self) -> (r: Vec<usize>)
        ensures
            is_row_order(r@, self.models(), sort_of(self.order_view()), self.filter_view()),
            r@.len() == self.shown(),
    {
        let ghost ps = self.models();
        let n = self.rows.len();
        let mut shown: Vec<usize> = Vec::new();
        let mut procs: Vec<Process> = Vec::new();
        let mut i: usize = 0;
        while i < n
            invariant
                n == ps.len(),
                ps == self.models(),
                i <= n,
                procs@.len() == i,
                forall|k: int| 0 <= k < i ==> (#[trigger] procs@[k])@ == ps[k],
                shown@.len() == passing_count(ps, self.filter_view(), i as int),
                forall|j: int| 0 <= j < shown@.len() ==> shown@[j] < i && name_passes(ps[shown@[j] as int].name, self.filter_view()),
                forall|j1: int, j2: int| 0 <= j1 < j2 < shown@.len() ==> shown@[j1] < shown@[j2],
                forall|k: int| 0 <= k < i && name_passes(ps[k].name, self.filter_view()) ==> shown@.contains(k as usize),
            decreases n - i,
        {
            let row = &self.rows[i];
            proof {
                assert(ps[i as int] == row_model(self.rows@[i as int]));
            }
            let keep = match &self.filter {
                Some(f) => row.filter(f.as_str()),
                None => true,
            };
            procs.push(row.to_process());
            let ghost before = shown@;
            if keep {
                shown.push(i);
            }
            proof {
                assert forall|k: int| 0 <= k < i + 1 && name_passes(ps[k].name, self.filter_view()) implies shown@.contains(k as usize) by {
                    if k < i {
                        assert(before.contains(k as usize));
                        let j = choose|j: int| 0 <= j < before.len() && before[j] == k as usize;
                        assert(shown@[j] == k as usize);
                    } else {
                        assert(shown@[shown@.len() - 1] == k as usize);
                    }
                }
            }
            i = i + 1;
        }
        proof {
            assert(procs@.map_values(|p: Process| p@) =~= ps);
        }
        let out = stable_sort_indices(&procs, &shown, &sort_for(&self.arrangement));
        proof {
            assert forall|k: int| 0 <= k < ps.len() && name_passes(ps[k].name, self.filter_view()) implies out@.contains(k as usize) by {
                assert(shown@.contains(k as usize));
                let t = choose|t: int| 0 <= t < shown@.len() && shown@[t] == k as usize;
                assert(out@.contains(shown@[t]));
            }
            assert forall|j: int| 0 <= j < out@.len() implies out@[j] < ps.len() && name_passes(ps[out@[j] as int].name, self.filter_view()) by {
                assert(shown@.contains(out@[j]));
                let t = choose|t: int| 0 <= t < shown@.len() && shown@[t] == out@[j];
            }
        }
        out
    }

    /// Replaces the rows and clamps the selection to those shown.
    pub fn replace_rows(&mut self, rows: Vec<Row>)
        ensures
            final(self).models() == rows@.map_values(|x: Row| row_model(x)),
            final(self).filter_view() == old(self).filter_view(),
            final(self).order_view() == old(self).order_view(),
            final(self).selection_view() == clamp_selection(
                old(self).selection_view(),
                passing_count(
                    rows@.map_values(|x: Row| row_model(x)),
                    old(self).filter_view(),
                    rows@.len() as int,
                ) as usize,
            ),
    {
        self.rows = rows;
        self.enforce_invariant_on_selection();
    }

    /// Filters the rows by `filter_str` and clamps the selection to those
    /// shown.
    pub fn set_filter(&mut self, filter_str: &str)
        ensures
            final(self).models() == old(self).models(),
            final(self).filter_view() == Some(filter_str@),
            final(self).order_view() == old(self).order_view(),
            final(self).selection_view() == clamp_selection(
                old(self).selection_view(),
                passing_count(old(self).models(), Some(filter_str@), old(self).models().len() as int)
                    as usize,
            ),
    {
        let filter_string = crate::text::string_of(filter_str);
        self.filter = Some(filter_string);
        self.enforce_invariant_on_selection();
    }

    pub fn get_selection(&self) -> (r: Option<usize>)
        ensures
            r == self.selection_view(),
    {
        self.selection
    }

    /// The number of rows that pass the filter.
    pub fn get_row_count_after_filter(&self) -> (r: usize)
        ensures
            r == self.shown(),
    {
        self.filter_and_sort_indices().len()
    }

    pub fn get_order(&self) -> (r: &RowOrder)
        ensures
            *r == self.order_view(),
    {
        &self.arrangement
    }
}

impl Row {
    /// A copy of this row.
    pub fn clone_row(&self) -> (r: Row)
        ensures
            row_model(r) == row_model(*self),
    {
        Row {
            pid: self.pid,
            name: self.name.clone(),
            avg_cpu_usage: self.avg_cpu_usage,
            total_cpu_usage: self.total_cpu_usage,
            mem_usage: self.mem_usage,
        }
    }
}

} // verus!
