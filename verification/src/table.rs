//! The process table: the sampled processes, the statistics kept for each
//! of them across updates, and the rows that a sort and a filter make of
//! them.

use vstd::prelude::*;
use std::collections::HashMap;
use crate::error::Error;
use crate::parser::{AST, ast_matches};
use crate::process::{Process, ProcessModel};
use crate::process_stats::{ProcessStats, pushed, valid_interval};
use crate::process_table_row::ProcessTableRow;
use crate::float_bits::f32_is_nan;
use crate::row_order::{lemma_row_le_preorder, orders_after, row_le, sort_consistent};
use crate::sort::RowSort;

verus! {

broadcast use vstd::std_specs::hash::group_hash_axioms;

/// The sample that a process adds to its history.
pub open spec fn sample_of(p: ProcessModel) -> (u32, u32, u64) {
    (p.cpu_total, p.cpu_average, p.mem)
}

/// The history of `pid` after the samples of `procs` that belong to it are
/// added, in order, to `start`.
pub open spec fn history_after(start: Seq<(u32, u32, u64)>, procs: Seq<ProcessModel>, pid: u32) -> Seq<
    (u32, u32, u64),
>
    decreases procs.len(),
{
    if procs.len() == 0 {
        start
    } else {
        let h = history_after(start, procs.drop_last(), pid);
        if procs.last().pid == pid {
            pushed(h, sample_of(procs.last()))
        } else {
            h
        }
    }
}

/// Whether some process of `procs` has the id `pid`.
pub open spec fn has_pid(procs: Seq<ProcessModel>, pid: u32) -> bool {
    exists|i: int| 0 <= i < procs.len() && procs[i].pid == pid
}

/// The history that `stats` holds for `pid`, empty when it holds none.
pub open spec fn start_history(stats: Map<u32, ProcessStats>, pid: u32) -> Seq<(u32, u32, u64)> {
    if stats.contains_key(pid) {
        stats[pid].history()
    } else {
        Seq::empty()
    }
}

/// Whether a process is shown under an optional filter.
pub open spec fn visible(ast: Option<AST>, p: ProcessModel) -> bool {
    match ast {
        Some(a) => ast_matches(a, p),
        None => true,
    }
}

/// The number of the first `n` processes that are shown.
pub open spec fn visible_count(ps: Seq<ProcessModel>, ast: Option<AST>, n: int) -> nat
    decreases n,
{
    if n <= 0 {
        0
    } else {
        visible_count(ps, ast, n - 1) + if visible(ast, ps[n - 1]) {
            1nat
        } else {
            0nat
        }
    }
}

/// `q` lists the shown processes, each once, in the order of the sort, and
/// among equal ones in the order of the table; that last part holds where
/// the sort is a total preorder (see `sort_consistent`).
pub open spec fn is_visible_order(q: Seq<usize>, ps: Seq<ProcessModel>, sort: RowSort, ast: Option<AST>) -> bool {
    &&& forall|j: int| 0 <= j < q.len() ==> q[j] < ps.len() && visible(ast, ps[q[j] as int])
    &&& forall|j1: int, j2: int| 0 <= j1 < j2 < q.len() ==> q[j1] != q[j2]
    &&& forall|i: int| 0 <= i < ps.len() && visible(ast, ps[i]) ==> q.contains(i as usize)
    &&& q.len() == visible_count(ps, ast, ps.len() as int)
    &&& sort_consistent(sort, ps) ==> forall|j1: int, j2: int|
        0 <= j1 < j2 < q.len() ==> row_le(sort, ps[q[j1] as int], ps[q[j2] as int])
    &&& sort_consistent(sort, ps) ==> forall|j1: int, j2: int|
        0 <= j1 < j2 < q.len() && row_le(sort, ps[q[j2] as int], ps[q[j1] as int]) ==> q[j1]
            < q[j2]
}

proof fn lemma_history_after_absent(start: Seq<(u32, u32, u64)>, procs: Seq<ProcessModel>, pid: u32)
    requires
        !has_pid(procs, pid),
    ensures
        history_after(start, procs, pid) == start,
    decreases procs.len(),
{
    if procs.len() > 0 {
        assert(!has_pid(procs.drop_last(), pid)) by {
            if has_pid(procs.drop_last(), pid) {
                let i = choose|i: int|
                    0 <= i < procs.drop_last().len() && procs.drop_last()[i].pid == pid;
                assert(procs[i].pid == pid);
            }
        }
        lemma_history_after_absent(start, procs.drop_last(), pid);
        assert(procs.last() == procs[procs.len() - 1]);
    }
}

/// After the samples of `procs` are added, the newest sample of an id is the
/// total CPU usage, average CPU usage and memory of the last process of
/// `procs` with that id.
pub proof fn lemma_history_after_newest(start: Seq<(u32, u32, u64)>, procs: Seq<ProcessModel>, i: int)
    requires
        0 <= i < procs.len(),
        forall|j: int| i < j < procs.len() ==> procs[j].pid != procs[i].pid,
    ensures
        history_after(start, procs, procs[i].pid).len() > 0,
        history_after(start, procs, procs[i].pid)[0] == (
            procs[i].cpu_total,
            procs[i].cpu_average,
            procs[i].mem,
        ),
    decreases procs.len(),
{
    let pid = procs[i].pid;
    if i == procs.len() - 1 {
        assert(procs.last() == procs[i]);
    } else {
        assert(procs.last() == procs[procs.len() - 1]);
        assert(procs.drop_last()[i] == procs[i]);
        assert forall|j: int| i < j < procs.drop_last().len() implies procs.drop_last()[j].pid != pid by {
            assert(procs.drop_last()[j] == procs[j]);
        }
        lemma_history_after_newest(start, procs.drop_last(), i);
    }
}

/// The process table.
pub struct ProcessTable {
    /// sampled processes
    processes: Vec<Process>,
    /// statistics derived from sampled processes, by process id
    process_stats: HashMap<u32, ProcessStats>,
    /// Expected sample interval: whole seconds
    sample_interval_secs: u64,
    /// Expected sample interval: nanoseconds beyond the seconds
    sample_interval_subsec_nanos: u32,
}

impl ProcessTable {
    /// Every statistic uses the table's interval; with an interval that
    /// `ProcessStats` refuses, there are none.
    #[verifier::type_invariant]
    spec fn inv(&self) -> bool {
        &&& forall|k: u32| #[trigger]
            self.process_stats@.contains_key(k) ==> self.process_stats@[k].interval()
                == self.sample_interval_secs
        &&& !valid_interval(self.sample_interval_secs, self.sample_interval_subsec_nanos)
            ==> self.process_stats@.dom().is_empty()
    }

    /// The processes, in the order they were sampled.
    pub closed spec fn processes_view(&self) -> Seq<ProcessModel> {
        self.processes@.map_values(|p: Process| p@)
    }

    /// The statistics, by process id.
    pub closed spec fn stats(&self) -> Map<u32, ProcessStats> {
        self.process_stats@
    }

    /// The sample interval: (seconds, nanoseconds).
    pub closed spec fn interval(&self) -> (u64, u32) {
        (self.sample_interval_secs, self.sample_interval_subsec_nanos)
    }

    /// Every process has its statistics.
    pub open spec fn complete(&self) -> bool {
        forall|i: int|
            0 <= i < self.processes_view().len() ==> #[trigger] self.stats().contains_key(
                self.processes_view()[i].pid,
            )
    }

    /// What `update` makes of the statistics `old` with the processes `procs`:
    /// each process adds a sample to the history of its id, and the ids that
    /// are no longer sampled lose their history.
    pub open spec fn stats_updated(&self, old: Map<u32, ProcessStats>, procs: Seq<ProcessModel>) -> bool {
        &&& forall|k: u32| #[trigger] self.stats().contains_key(k) <==> has_pid(procs, k)
        &&& forall|k: u32| #[trigger]
            self.stats().contains_key(k) ==> self.stats()[k].history() == history_after(
                start_history(old, k),
                procs,
                k,
            )
    }

    /// Builds a table of `processes` whose statistics are sampled every
    /// `sample_interval_secs` seconds and `sample_interval_subsec_nanos`
    /// nanoseconds; statistics refuse an interval that is not a whole number
    /// of seconds from one to sixty.
    pub fn new(processes: Vec<Process>, sample_interval_secs: u64, sample_interval_subsec_nanos: u32) -> (r: Result<Self, Error>)
        ensures
            r is Ok <==> valid_interval(sample_interval_secs, sample_interval_subsec_nanos)
                || processes@.len() == 0,
            r is Err ==> r == Err::<Self, Error>(Error::ProcessStatsError),
            r matches Ok(t) ==> {
                &&& t.processes_view() == processes@.map_values(|p: Process| p@)
                &&& t.interval() == (sample_interval_secs, sample_interval_subsec_nanos)
                &&& t.complete()
                &&& t.stats_updated(Map::empty(), processes@.map_values(|p: Process| p@))
            },
    {
        let mut table = ProcessTable {
            processes: Vec::new(),
            process_stats: HashMap::new(),
            sample_interval_secs,
            sample_interval_subsec_nanos,
        };
        match table.update(processes) {
            Ok(()) => Ok(table),
            Err(e) => Err(e),
        }
    }

    /// Replaces the processes and updates their statistics.
    pub fn update(&mut self, processes: Vec<Process>) -> (r: Result<(), Error>)
        ensures
            final(self).processes_view() == processes@.map_values(|p: Process| p@),
            final(self).interval() == old(self).interval(),
            r is Ok <==> valid_interval(old(self).interval().0, old(self).interval().1)
                || processes@.len() == 0,
            r is Err ==> r == Err::<(), Error>(Error::ProcessStatsError) && final(self).stats()
                == old(self).stats(),
            r is Ok ==> final(self).complete() && final(self).stats_updated(
                old(self).stats(),
                processes@.map_values(|p: Process| p@),
            ),
    {
        proof {
            use_type_invariant(&*self);
        }
        self.processes = processes;
        self.update_process_stats()
    }

    /// Updates process statistics with the current process values.
    #[verifier::loop_isolation(false)]
    fn update_process_stats(&mut self) -> (r: Result<(), Error>)
        ensures
            final(self).processes_view() == old(self).processes_view(),
            final(self).interval() == old(self).interval(),
            r is Ok <==> valid_interval(old(self).interval().0, old(self).interval().1)
                || old(self).processes_view().len() == 0,
            r is Err ==> r == Err::<(), Error>(Error::ProcessStatsError) && final(self).stats()
                == old(self).stats(),
            r is Ok ==> final(self).complete() && final(self).stats_updated(
                old(self).stats(),
                old(self).processes_view(),
            ),
    {
        proof {
            use_type_invariant(&*self);
        }
        let ghost procs = self.processes_view();
        let ghost old_stats = self.process_stats@;
        let ghost secs = self.sample_interval_secs;
        let ghost nanos = self.sample_interval_subsec_nanos;
        let mut rest: HashMap<u32, ProcessStats> = HashMap::new();
        std::mem::swap(&mut rest, &mut self.process_stats);
        let mut seen: HashMap<u32, ProcessStats> = HashMap::new();
        let n = self.processes.len();
        let mut i: usize = 0;
        while i < n
            invariant
                n == procs.len(),
                procs == self.processes_view(),
                self.processes@.len() == n,
                secs == self.sample_interval_secs,
                nanos == self.sample_interval_subsec_nanos,
                self.process_stats@.dom().is_empty(),
                i <= n,
                i > 0 ==> valid_interval(secs, nanos),
                !valid_interval(secs, nanos) ==> old_stats.dom().is_empty(),
                forall|k: u32| #[trigger]
                    old_stats.contains_key(k) ==> old_stats[k].interval() == secs,
                forall|k: u32| #[trigger]
                    seen@.contains_key(k) <==> has_pid(procs.take(i as int), k),
                forall|k: u32| #[trigger]
                    seen@.contains_key(k) ==> seen@[k].history() == history_after(
                        start_history(old_stats, k),
                        procs.take(i as int),
                        k,
                    ) && seen@[k].interval() == secs,
                forall|k: u32| #[trigger]
                    rest@.contains_key(k) <==> old_stats.contains_key(k) && !has_pid(
                        procs.take(i as int),
                        k,
                    ),
                forall|k: u32| #[trigger] rest@.contains_key(k) ==> rest@[k] == old_stats[k],
                i == 0 ==> rest@ == old_stats,
            decreases n - i,
        {
            let process = &self.processes[i];
            let pid = process.pid().as_u32();
            let ghost p = procs[i as int];
            proof {
                assert(p == process@);
                assert(procs.take(i + 1).drop_last() =~= procs.take(i as int));
                assert(procs.take(i + 1).last() == p);
            }
            let mut stats = match seen.remove(&pid) {
                Some(s) => s,
                None => match rest.remove(&pid) {
                    Some(s) => {
                        proof {
                            lemma_history_after_absent(
                                start_history(old_stats, pid),
                                procs.take(i as int),
                                pid,
                            );
                        }
                        s
                    },
                    None => {
                        proof {
                            lemma_history_after_absent(
                                start_history(old_stats, pid),
                                procs.take(i as int),
                                pid,
                            );
                        }
                        match ProcessStats::new(
                            self.sample_interval_secs,
                            self.sample_interval_subsec_nanos,
                        ) {
                            Ok(s) => s,
                            Err(e) => {
                                proof {
                                    assert(rest@ == old_stats);
                                }
                                self.process_stats = rest;
                                return Err(e);
                            },
                        }
                    },
                },
            };
            stats.push(
                process.cpu_total().to_bits(),
                process.cpu_average().to_bits(),
                process.mem().as_u64(),
            );
            seen.insert(pid, stats);
            proof {
                assert forall|k: u32| #[trigger]
                    seen@.contains_key(k) <==> has_pid(procs.take(i + 1), k) by {
                    if has_pid(procs.take(i + 1), k) && k != pid {
                        let j = choose|j: int|
                            0 <= j < procs.take(i + 1).len() && #[trigger] procs.take(i + 1)[j].pid == k;
                        assert(procs.take(i as int)[j].pid == k);
                    }
                    if has_pid(procs.take(i as int), k) {
                        let j = choose|j: int|
                            0 <= j < procs.take(i as int).len() && #[trigger] procs.take(i as int)[j].pid == k;
                        assert(procs.take(i + 1)[j].pid == k);
                    }
                    if k == pid {
                        assert(procs.take(i + 1)[i as int].pid == k);
                    }
                }
                assert forall|k: u32| #[trigger]
                    rest@.contains_key(k) <==> old_stats.contains_key(k) && !has_pid(
                        procs.take(i + 1),
                        k,
                    ) by {
                    if has_pid(procs.take(i + 1), k) && k != pid {
                        let j = choose|j: int|
                            0 <= j < procs.take(i + 1).len() && #[trigger] procs.take(i + 1)[j].pid == k;
                        assert(procs.take(i as int)[j].pid == k);
                    }
                    if has_pid(procs.take(i as int), k) {
                        let j = choose|j: int|
                            0 <= j < procs.take(i as int).len() && #[trigger] procs.take(i as int)[j].pid == k;
                        assert(procs.take(i + 1)[j].pid == k);
                    }
                    if k == pid {
                        assert(procs.take(i + 1)[i as int].pid == k);
                    }
                }
            }
            i = i + 1;
        }
        proof {
            assert(procs.take(n as int) =~= procs);
        }
        self.process_stats = seen;
        Ok(())
    }

    /// The indices of the processes that `ast` shows, in the order of
    /// `sort`; equal processes keep the order of the table.
    #[verifier::loop_isolation(false)]
    pub fn visible_indices(&self, sort: &RowSort, ast: &Option<AST>) -> (r: Vec<usize>)
        ensures
            is_visible_order(r@, self.processes_view(), *sort, *ast),
    {
        let ghost ps = self.processes_view();
        let n = self.processes.len();
        // The shown processes, in the order of the table.
        let mut shown: Vec<usize> = Vec::new();
        let mut i: usize = 0;
        while i < n
            invariant
                n == ps.len(),
                i <= n,
                shown@.len() == visible_count(ps, *ast, i as int),
                forall|j: int| 0 <= j < shown@.len() ==> shown@[j] < i && visible(*ast, ps[shown@[j] as int]),
                forall|j1: int, j2: int| 0 <= j1 < j2 < shown@.len() ==> shown@[j1] < shown@[j2],
                forall|k: int| 0 <= k < i && visible(*ast, ps[k]) ==> shown@.contains(k as usize),
            decreases n - i,
        {
            let keep = match ast {
                Some(a) => a.matches(&self.processes[i]),
                None => true,
            };
            proof {
                assert(self.processes@[i as int]@ == ps[i as int]);
            }
            let ghost before = shown@;
            if keep {
                shown.push(i);
            }
            proof {
                assert forall|k: int| 0 <= k < i + 1 && visible(*ast, ps[k]) implies shown@.contains(k as usize) by {
                    if k < i {
                        assert(before.contains(k as usize));
                        let j = choose|j: int| 0 <= j < before.len() && before[j] == k as usize;
                        assert(shown@[j] == k as usize);
                    } else {
                        assert(shown@[shown@.len() - 1] == k as usize);
                    }
                }
            }
            i = i + 1;
        }
        // Stable sort of the shown processes.
        let out = stable_sort_indices(&self.processes, &shown, sort);
        proof {
            assert forall|i: int| 0 <= i < ps.len() && visible(*ast, ps[i]) implies out@.contains(i as usize) by {
                assert(shown@.contains(i as usize));
                let t = choose|t: int| 0 <= t < shown@.len() && shown@[t] == i as usize;
                assert(out@.contains(shown@[t]));
            }
            assert forall|j: int| 0 <= j < out@.len() implies out@[j] < ps.len() && visible(*ast, ps[out@[j] as int]) by {
                assert(shown@.contains(out@[j]));
                let t = choose|t: int| 0 <= t < shown@.len() && shown@[t] == out@[j];
            }
        }
        out
    }

    /// The rows that `ast` shows, in the order of `sort`: each process with
    /// its statistics. Every process must have statistics, as it has after
    /// a successful `new` or `update`.
    pub fn visible_rows(&self, sort: &RowSort, ast: &Option<AST>) -> (r: Vec<ProcessTableRow<'_>>)
        requires
            self.complete(),
        ensures
            exists|q: Seq<usize>|
                {
                    &&& is_visible_order(q, self.processes_view(), *sort, *ast)
                    &&& r@.len() == q.len()
                    &&& forall|j: int|
                        0 <= j < q.len() ==> (#[trigger] r@[j]).view_process()@
                            == self.processes_view()[q[j] as int] && *r@[j].view_statistics()
                            == self.stats()[self.processes_view()[q[j] as int].pid]
                },
    {
        let ghost ps = self.processes_view();
        let shown_order = self.visible_indices(sort, ast);
        let mut rows: Vec<ProcessTableRow<'_>> = Vec::new();
        let mut j: usize = 0;
        while j < shown_order.len()
            invariant
                ps == self.processes_view(),
                self.complete(),
                is_visible_order(shown_order@, ps, *sort, *ast),
                j <= shown_order@.len(),
                rows@.len() == j,
                forall|t: int|
                    0 <= t < j ==> (#[trigger] rows@[t]).view_process()@ == ps[shown_order@[t] as int]
                        && *rows@[t].view_statistics() == self.stats()[ps[shown_order@[t] as int].pid],
            decreases shown_order@.len() - j,
        {
            let idx = shown_order[j];
            let process = &self.processes[idx];
            proof {
                assert(process@ == ps[idx as int]);
                assert(self.stats().contains_key(ps[idx as int].pid));
            }
            let pid = process.pid().as_u32();
            let stats = self.process_stats.get(&pid).unwrap();
            rows.push(ProcessTableRow::new(process, stats));
            j = j + 1;
        }
        rows
    }

    /// The `n`-th row that `ast` shows in the order of `sort`, if there is one.
    pub fn visible_row(&self, sort: &RowSort, ast: &Option<AST>, n: usize) -> (r: Option<ProcessTableRow<'_>>)
        requires
            self.complete(),
        ensures
            r is Some <==> n < visible_count(self.processes_view(), *ast, self.processes_view().len() as int),
            r matches Some(row) ==> exists|q: Seq<usize>|
                {
                    &&& is_visible_order(q, self.processes_view(), *sort, *ast)
                    &&& row.view_process()@ == self.processes_view()[q[n as int] as int]
                    &&& *row.view_statistics() == self.stats()[self.processes_view()[q[n as int] as int].pid]
                },
    {
        let ghost ps = self.processes_view();
        let shown_order = self.visible_indices(sort, ast);
        if n >= shown_order.len() {
            return None;
        }
        let idx = shown_order[n];
        let process = &self.processes[idx];
        proof {
            assert(process@ == ps[idx as int]);
            assert(self.stats().contains_key(ps[idx as int].pid));
        }
        let pid = process.pid().as_u32();
        let stats = self.process_stats.get(&pid).unwrap();
        Some(ProcessTableRow::new(process, stats))
    }

    /// Whether every process has statistics.
    pub fn is_complete(&self) -> (r: bool)
        ensures
            r == self.complete(),
    {
        let ghost ps = self.processes_view();
        let mut i: usize = 0;
        while i < self.processes.len()
            invariant
                ps == self.processes_view(),
                i <= ps.len(),
                forall|j: int| 0 <= j < i ==> #[trigger] self.stats().contains_key(ps[j].pid),
            decreases ps.len() - i,
        {
            let pid = self.processes[i].pid().as_u32();
            proof {
                assert(self.processes@[i as int]@ == ps[i as int]);
            }
            if !self.process_stats.contains_key(&pid) {
                proof {
                    assert(!self.stats().contains_key(ps[i as int].pid));
                }
                return false;
            }
            i = i + 1;
        }
        true
    }

    /// The number of rows that `ast` shows.
    pub fn count_visible_rows(&self, sort: &RowSort, ast: &Option<AST>) -> (r: usize)
        ensures
            r == visible_count(self.processes_view(), *ast, self.processes_view().len() as int),
    {
        let shown_order = self.visible_indices(sort, ast);
        shown_order.len()
    }
}

/// The indices `shown` of `processes`, reordered by `sort` with a stable
/// insertion sort: the same indices, each once, sorted, and equal rows in
/// the order of their indices (where the sort is a total preorder).
#[verifier::loop_isolation(false)]
pub fn stable_sort_indices(processes: &Vec<Process>, shown: &Vec<usize>, sort: &RowSort) -> (out: Vec<usize>)
    requires
        forall|j: int| 0 <= j < shown@.len() ==> shown@[j] < processes@.len(),
        forall|j1: int, j2: int| 0 <= j1 < j2 < shown@.len() ==> shown@[j1] < shown@[j2],
    ensures
        out@.len() == shown@.len(),
        forall|j: int| 0 <= j < out@.len() ==> shown@.contains(#[trigger] out@[j]),
        forall|j: int| 0 <= j < shown@.len() ==> out@.contains(#[trigger] shown@[j]),
        forall|j1: int, j2: int| 0 <= j1 < j2 < out@.len() ==> out@[j1] != out@[j2],
        sort_consistent(*sort, processes@.map_values(|p: Process| p@)) ==> sorted_stable(
            *sort,
            processes@.map_values(|p: Process| p@),
            out@,
        ),
{
    let ghost ps = processes@.map_values(|p: Process| p@);
    let n = processes.len();
    let m = shown.len();
    let mut out: Vec<usize> = Vec::new();
    let mut s: usize = 0;
    while s < m
        invariant
            m == shown@.len(),
            s <= m,
            out@.len() == s,
            forall|j: int| 0 <= j < out@.len() ==> shown@.take(s as int).contains(#[trigger] out@[j]),
            forall|j: int| 0 <= j < s ==> out@.contains(#[trigger] shown@[j]),
            forall|j1: int, j2: int| 0 <= j1 < j2 < out@.len() ==> out@[j1] != out@[j2],
            sort_consistent(*sort, ps) ==> sorted_stable(*sort, ps, out@),
        decreases m - s,
    {
        let x = shown[s];
        proof {
            assert forall|j: int| 0 <= j < out@.len() implies out@[j] < x by {
                assert(shown@.take(s as int).contains(out@[j]));
                let t = choose|t: int| 0 <= t < s && shown@.take(s as int)[t] == out@[j];
                assert(shown@[t] == out@[j]);
            }
        }
        let mut k = out.len();
        while k > 0 && orders_after(&processes[out[k - 1]], &processes[x], sort)
            invariant
                0 <= k <= out@.len(),
                forall|j: int| #![trigger out@[j]] k <= j < out@.len() ==> !row_le(*sort, ps[out@[j] as int], ps[x as int]),
            decreases k,
        {
            k = k - 1;
        }
        let ghost before = out@;
        out.insert(k, x);
        proof {
            assert(out@ == before.insert(k as int, x));
            if sort_consistent(*sort, ps) {
                lemma_insert_sorted(*sort, ps, before, k as int, x);
            }
            assert forall|j: int| 0 <= j < out@.len() implies shown@.take(s + 1).contains(#[trigger] out@[j]) by {
                if j < k {
                    assert(shown@.take(s as int).contains(before[j]));
                    let t = choose|t: int| 0 <= t < s && shown@.take(s as int)[t] == before[j];
                    assert(shown@.take(s + 1)[t] == out@[j]);
                } else if j == k {
                    assert(shown@.take(s + 1)[s as int] == x);
                } else {
                    assert(shown@.take(s as int).contains(before[j - 1]));
                    let t = choose|t: int| 0 <= t < s && shown@.take(s as int)[t] == before[j - 1];
                    assert(shown@.take(s + 1)[t] == out@[j]);
                }
            }
            assert forall|j: int| 0 <= j < s + 1 implies out@.contains(#[trigger] shown@[j]) by {
                if j < s {
                    assert(before.contains(shown@[j]));
                    let t = choose|t: int| 0 <= t < before.len() && before[t] == shown@[j];
                    if t < k {
                        assert(out@[t] == shown@[j]);
                    } else {
                        assert(out@[t + 1] == shown@[j]);
                    }
                } else {
                    assert(out@[k as int] == shown@[j]);
                }
            }
        }
        s = s + 1;
    }
    proof {
        assert(shown@.take(m as int) =~= shown@);
    }
    out
}

/// `q` is sorted by `sort`, and equal rows keep the order of their indices.
/// After `new` or `update` with the processes `procs`, each id that is
/// sampled has statistics, and their newest sample is the total CPU usage,
/// average CPU usage and memory of the last process with that id.
pub proof fn law_newest_sample(t: ProcessTable, old: Map<u32, ProcessStats>, procs: Seq<ProcessModel>, i: int)
    requires
        t.stats_updated(old, procs),
        0 <= i < procs.len(),
        forall|j: int| i < j < procs.len() ==> procs[j].pid != procs[i].pid,
    ensures
        t.stats().contains_key(procs[i].pid),
        t.stats()[procs[i].pid].history().len() > 0,
        t.stats()[procs[i].pid].history()[0] == (procs[i].cpu_total, procs[i].cpu_average, procs[i].mem),
{
    assert(has_pid(procs, procs[i].pid));
    assert(t.stats().contains_key(procs[i].pid));
    lemma_history_after_newest(start_history(old, procs[i].pid), procs, i);
}

pub open spec fn sorted_stable(sort: RowSort, ps: Seq<ProcessModel>, q: Seq<usize>) -> bool {
    forall|j1: int, j2: int|
        0 <= j1 < j2 < q.len() ==> row_le(sort, ps[q[j1] as int], ps[q[j2] as int]) && (row_le(
            sort,
            ps[q[j2] as int],
            ps[q[j1] as int],
        ) ==> q[j1] < q[j2])
}

/// Inserting `x` after the last index that does not order after it, and
/// above every index of `q`, keeps `q` sorted and stable.
proof fn lemma_insert_sorted(sort: RowSort, ps: Seq<ProcessModel>, q: Seq<usize>, k: int, x: usize)
    requires
        sort_consistent(sort, ps),
        sorted_stable(sort, ps, q),
        0 <= k <= q.len(),
        x < ps.len(),
        forall|j: int| 0 <= j < q.len() ==> q[j] < x,
        forall|j: int| 0 <= j < q.len() ==> q[j] < ps.len(),
        k > 0 ==> row_le(sort, ps[q[k - 1] as int], ps[x as int]),
        forall|j: int| #![trigger q[j]] k <= j < q.len() ==> !row_le(sort, ps[q[j] as int], ps[x as int]),
    ensures
        sorted_stable(sort, ps, q.insert(k, x)),
{
    let r = q.insert(k, x);
    assert forall|j1: int, j2: int| 0 <= j1 < j2 < r.len() implies row_le(sort, ps[r[j1] as int], ps[r[j2] as int]) && (row_le(
        sort,
        ps[r[j2] as int],
        ps[r[j1] as int],
    ) ==> r[j1] < r[j2]) by {
        let a = ps[r[j1] as int];
        let b = ps[r[j2] as int];
        assert(r[j1] < ps.len() && r[j2] < ps.len());
        assert((sort is CpuDec || sort is CpuInc) ==> !f32_is_nan(a.cpu_total) && !f32_is_nan(b.cpu_total) && !f32_is_nan(ps[x as int].cpu_total));
        if j2 < k {
            assert(r[j1] == q[j1] && r[j2] == q[j2]);
        } else if j1 > k {
            assert(r[j1] == q[j1 - 1] && r[j2] == q[j2 - 1]);
        } else if j1 < k && j2 > k {
            assert(r[j1] == q[j1] && r[j2] == q[j2 - 1]);
        } else if j2 == k {
            assert(r[j1] == q[j1] && r[j2] == x);
            let c = ps[q[k - 1] as int];
            assert((sort is CpuDec || sort is CpuInc) ==> !f32_is_nan(c.cpu_total));
            lemma_row_le_preorder(sort, a, c, ps[x as int]);
            assert(r[j1] < x);
        } else {
            assert(j1 == k);
            assert(r[j1] == x && r[j2] == q[j2 - 1]);
            lemma_row_le_preorder(sort, b, a, a);
        }
    }
}

} // verus!
