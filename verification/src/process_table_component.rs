//! The process table component: the sampled table and its views, and what
//! each key does to them.

use vstd::prelude::*;
use crate::column::{
    after_insert, after_remove, after_rotate, selection_after_dec, selection_after_inc,
    ColumnOptions, MemoryUnitOptions,
};
use crate::error::Error;
use crate::key::{Event, Key};
use crate::parser::AST;
use crate::process::{Process, ProcessModel};
use crate::row_selection::clamp_selection;
use crate::sort::RowSort;
use crate::table::{is_visible_order, visible_count, ProcessTable};
use crate::table_state::{
    filter_error_text, filter_of, lemma_filter_outcome, TableStateModel,
};
use crate::buffer::insert_ch_step;
use crate::views::{ProcessTableViewFocus, ProcessTableViews, ViewModel, ViewsModel, ViewsOrientation};

verus! {

/// The seconds between two samples of the processes.
pub const SAMPLE_INTERVAL_SECS: u64 = 2;

/// A process table whose every process has statistics, sampled every
/// `SAMPLE_INTERVAL_SECS` seconds.
struct SampledTable {
    table: ProcessTable,
}

impl SampledTable {
    #[verifier::type_invariant]
    spec fn inv(&self) -> bool {
        &&& self.table.complete()
        &&& self.table.interval() == (SAMPLE_INTERVAL_SECS, 0u32)
    }

    closed spec fn inner(&self) -> ProcessTable {
        self.table
    }

    fn wf(&self) -> (r: bool)
        ensures
            r,
            self.inner().complete(),
            self.inner().interval() == (SAMPLE_INTERVAL_SECS, 0u32),
    {
        proof {
            use_type_invariant(self);
        }
        true
    }

    fn new(processes: Vec<Process>) -> (r: Self)
        ensures
            r.inner().processes_view() == processes@.map_values(|p: Process| p@),
            r.inner().stats_updated(Map::empty(), processes@.map_values(|p: Process| p@)),
    {
        SampledTable { table: ProcessTable::new(processes, SAMPLE_INTERVAL_SECS, 0).unwrap() }
    }

    fn empty_table() -> (r: ProcessTable)
        ensures
            r.complete(),
            r.interval() == (SAMPLE_INTERVAL_SECS, 0u32),
            r.processes_view().len() == 0,
    {
        ProcessTable::new(Vec::new(), SAMPLE_INTERVAL_SECS, 0).unwrap()
    }

    fn update(&mut self, processes: Vec<Process>)
        ensures
            final(self).inner().processes_view() == processes@.map_values(|p: Process| p@),
            final(self).inner().stats_updated(
                old(self).inner().stats(),
                processes@.map_values(|p: Process| p@),
            ),
    {
        proof {
            use_type_invariant(&*self);
        }
        let mut table = SampledTable::empty_table();
        std::mem::swap(&mut table, &mut self.table);
        match table.update(processes) {
            Ok(()) => {},
            Err(_) => {
                assert(false);
            },
        }
        *self = SampledTable { table };
    }

    fn get(&self) -> (r: &ProcessTable)
        ensures
            *r == self.inner(),
    {
        &self.table
    }
}

/// What a key press gave.
#[derive(Debug, Clone, Copy, PartialEq, Eq, Structural)]
pub enum ProcessTableEventState {
    Consumed,
    NotConsumed,
    TerminatePid(u32),
}

/// The number of rows that `filter` shows of `ps`.
pub open spec fn rows_shown(ps: Seq<ProcessModel>, filter: Option<AST>) -> nat {
    visible_count(ps, filter, ps.len() as int)
}

/// `v` with its state replaced by `s`.
pub open spec fn with_state(v: ViewModel, s: TableStateModel) -> ViewModel {
    ViewModel { state: s, ..v }
}

/// `v` with its focus replaced by `f`.
pub open spec fn with_focus(v: ViewModel, f: ProcessTableViewFocus) -> ViewModel {
    ViewModel { focus: f, ..v }
}

/// The state after an edit of the filter that leaves `text` and `cursor`:
/// the filter is read again and the row selection clamped to the rows it
/// shows; the error message is that of the reading.
pub open spec fn after_filter_edit(ps: Seq<ProcessModel>, v: ViewModel, text: Seq<char>, cursor: usize) -> ViewModel {
    let f = filter_of(text);
    ViewModel {
        state: TableStateModel {
            filter_text: text,
            filter_cursor: cursor,
            filter: f,
            row_selection: clamp_selection(v.state.row_selection, rows_shown(ps, f) as usize),
            ..v.state
        },
        err: filter_error_text(text),
        ..v
    }
}

/// The state with column `col` inserted.
pub open spec fn insert_col(s: TableStateModel, col: ColumnOptions) -> TableStateModel {
    let (cols, sel) = after_insert(s.columns, s.column_selection, s.column_capacity, col);
    TableStateModel { columns: cols, column_selection: sel, ..s }
}

/// The sort after a sort key: the decreasing order, or the increasing one
/// when the decreasing one is in use.
pub open spec fn toggled(cur: RowSort, dec: RowSort, inc: RowSort) -> RowSort {
    if cur == dec {
        inc
    } else {
        dec
    }
}

/// The views after a key that only changes the active view's state.
pub open spec fn active_state(vs: ViewsModel, s: TableStateModel) -> ViewsModel {
    vs.with_active(with_state(vs.active(), s))
}

/// What a key does to the views over the processes `ps`, and what it
/// gives; `TerminatePid` is left to `terminate_outcome`, and an edit of the
/// filter text to `filter_outcome_of_key`.
pub open spec fn key_outcome(vs: ViewsModel, ps: Seq<ProcessModel>, key: Key, new: ViewsModel, r: ProcessTableEventState) -> bool {
    let a = vs.active();
    let s = a.state;
    let consumed = r == ProcessTableEventState::Consumed;
    match (key, a.focus) {
        (Key::Alts, _) => consumed && new == (if vs.views.len() == vs.capacity {
            vs
        } else {
            ViewsModel { views: vs.views.push(a), ..vs }
        }),
        (Key::Altd, _) => consumed && new == (if vs.views.len() == 1 {
            vs
        } else {
            ViewsModel {
                views: vs.views.remove(vs.selection as int),
                selection: if vs.selection == 0 {
                    0
                } else {
                    (vs.selection - 1) as usize
                },
                ..vs
            }
        }),
        (Key::Alth, _) => consumed && new == (ViewsModel {
            orientation: ViewsOrientation::SplitHorizontal,
            ..vs
        }),
        (Key::Altv, _) => consumed && new == (ViewsModel {
            orientation: ViewsOrientation::SplitVertical,
            ..vs
        }),
        (Key::AltLeft, _) => consumed && new == (ViewsModel {
            selection: if vs.selection > 0 {
                (vs.selection - 1) as usize
            } else {
                (vs.views.len() - 1) as usize
            },
            ..vs
        }),
        (Key::AltRight, _) => consumed && new == (ViewsModel {
            selection: if vs.selection + 1 < vs.views.len() {
                (vs.selection + 1) as usize
            } else {
                0
            },
            ..vs
        }),
        (Key::Left, ProcessTableViewFocus::Columns) => consumed && new == active_state(
            vs,
            TableStateModel {
                column_selection: selection_after_dec(s.columns.len(), s.column_selection),
                ..s
            },
        ),
        (Key::Right, ProcessTableViewFocus::Columns) => consumed && new == active_state(
            vs,
            TableStateModel {
                column_selection: selection_after_inc(s.columns.len(), s.column_selection),
                ..s
            },
        ),
        (Key::Delete, ProcessTableViewFocus::Columns) => consumed && new == active_state(
            vs,
            TableStateModel {
                columns: after_remove(s.columns, s.column_selection).0,
                column_selection: after_remove(s.columns, s.column_selection).1,
                ..s
            },
        ),
        (Key::Char('p'), ProcessTableViewFocus::Columns) => consumed && new == active_state(
            vs,
            insert_col(s, ColumnOptions::Pid),
        ),
        (Key::Char('c'), ProcessTableViewFocus::Columns) => consumed && new == active_state(
            vs,
            insert_col(s, ColumnOptions::CpuAverage),
        ),
        (Key::Char('C'), ProcessTableViewFocus::Columns) => consumed && new == active_state(
            vs,
            insert_col(s, ColumnOptions::MeanCpuUsageOverLastMinute),
        ),
        (Key::Char('t'), ProcessTableViewFocus::Columns) => consumed && new == active_state(
            vs,
            insert_col(s, ColumnOptions::CpuTotal),
        ),
        (Key::Char('T'), ProcessTableViewFocus::Columns) => consumed && new == active_state(
            vs,
            insert_col(s, ColumnOptions::MeanCpuUsageAsTotalOverLastMinute),
        ),
        (Key::Char('m'), ProcessTableViewFocus::Columns) => consumed && new == active_state(
            vs,
            insert_col(s, ColumnOptions::Memory(MemoryUnitOptions::B)),
        ),
        (Key::Char('n'), ProcessTableViewFocus::Columns) => consumed && new == active_state(
            vs,
            insert_col(s, ColumnOptions::Name),
        ),
        (Key::Char('u'), ProcessTableViewFocus::Columns) => consumed && new == active_state(
            vs,
            TableStateModel { columns: after_rotate(s.columns, s.column_selection), ..s },
        ),
        (Key::Tab, ProcessTableViewFocus::Columns) => consumed && new == vs.with_active(
            ViewModel {
                state: TableStateModel { column_selection: None, ..s },
                focus: ProcessTableViewFocus::Rows,
                ..a
            },
        ),
        (Key::Char('/'), ProcessTableViewFocus::Rows) => consumed && new == vs.with_active(
            with_focus(a, ProcessTableViewFocus::Filter),
        ),
        (Key::Tab, ProcessTableViewFocus::Rows) => consumed && new == vs.with_active(
            ViewModel {
                state: TableStateModel {
                    column_selection: selection_after_inc(s.columns.len(), s.column_selection),
                    ..s
                },
                focus: ProcessTableViewFocus::Columns,
                ..a
            },
        ),
        (Key::Char('p'), ProcessTableViewFocus::Rows) => consumed && new == active_state(
            vs,
            TableStateModel {
                row_sort: toggled(s.row_sort, RowSort::PidDec, RowSort::PidInc),
                ..s
            },
        ),
        (Key::Char('c'), ProcessTableViewFocus::Rows) => consumed && new == active_state(
            vs,
            TableStateModel {
                row_sort: toggled(s.row_sort, RowSort::CpuDec, RowSort::CpuInc),
                ..s
            },
        ),
        (Key::Char('m'), ProcessTableViewFocus::Rows) => consumed && new == active_state(
            vs,
            TableStateModel {
                row_sort: toggled(s.row_sort, RowSort::MemDec, RowSort::MemInc),
                ..s
            },
        ),
        (Key::Char('n'), ProcessTableViewFocus::Rows) => consumed && new == active_state(
            vs,
            TableStateModel {
                row_sort: toggled(s.row_sort, RowSort::NameDec, RowSort::NameInc),
                ..s
            },
        ),
        (Key::Up, ProcessTableViewFocus::Rows) => consumed && new == active_state(
            vs,
            TableStateModel {
                row_selection: clamp_selection(
                    match s.row_selection {
                        Some(i) => Some(if i == 0 { 0usize } else { (i - 1) as usize }),
                        None => None,
                    },
                    rows_shown(ps, s.filter) as usize,
                ),
                ..s
            },
        ),
        (Key::Down, ProcessTableViewFocus::Rows) => consumed && new == active_state(
            vs,
            TableStateModel {
                row_selection: clamp_selection(
                    match s.row_selection {
                        Some(i) => Some((i + 1) as usize),
                        None => None,
                    },
                    rows_shown(ps, s.filter) as usize,
                ),
                ..s
            },
        ),
        (Key::Char('T'), ProcessTableViewFocus::Rows) => new == vs && match s.row_selection {
            Some(i) => if i < rows_shown(ps, s.filter) {
                r is TerminatePid
            } else {
                consumed
            },
            None => consumed,
        },
        (Key::Char(c), ProcessTableViewFocus::Filter) => consumed && {
            let (t, k) = insert_ch_step(s.filter_text, s.filter_cursor, s.filter_capacity, c);
            new == vs.with_active(after_filter_edit(ps, a, t, k))
        },
        (Key::Backspace, ProcessTableViewFocus::Filter) => consumed && new == vs.with_active(
            if s.filter_cursor == 0 {
                after_filter_edit(ps, a, s.filter_text, s.filter_cursor)
            } else {
                after_filter_edit(
                    ps,
                    a,
                    s.filter_text.remove(s.filter_cursor - 1),
                    (s.filter_cursor - 1) as usize,
                )
            },
        ),
        (Key::Right, ProcessTableViewFocus::Filter) => consumed && new == active_state(
            vs,
            TableStateModel {
                filter_cursor: if s.filter_cursor < s.filter_text.len() {
                    (s.filter_cursor + 1) as usize
                } else {
                    s.filter_cursor
                },
                ..s
            },
        ),
        (Key::Left, ProcessTableViewFocus::Filter) => consumed && new == active_state(
            vs,
            TableStateModel {
                filter_cursor: if s.filter_cursor > 0 {
                    (s.filter_cursor - 1) as usize
                } else {
                    0
                },
                ..s
            },
        ),
        (Key::Enter, ProcessTableViewFocus::Filter) => consumed && new == vs.with_active(
            with_focus(a, ProcessTableViewFocus::Rows),
        ),
        _ => r == ProcessTableEventState::NotConsumed && new == vs,
    }
}

/// With the rows in focus, `p`, `c`, `m` and `n` sort the active view by
/// process id, CPU usage, memory and name: descending, unless it was already
/// sorted that way descending, then ascending. Only the sort changes; the
/// key is consumed.
pub proof fn law_row_sort_keys(vs: ViewsModel, ps: Seq<ProcessModel>, new: ViewsModel, r: ProcessTableEventState, c: char)
    requires
        vs.wf(),
        vs.active().focus == ProcessTableViewFocus::Rows,
        key_outcome(vs, ps, Key::Char(c), new, r),
        c == 'p' || c == 'c' || c == 'm' || c == 'n',
    ensures
        r == ProcessTableEventState::Consumed,
        new.selection == vs.selection,
        new.views.len() == vs.views.len(),
        new.active().focus == vs.active().focus,
        new.active().state.filter == vs.active().state.filter,
        new.active().state.row_selection == vs.active().state.row_selection,
        c == 'p' ==> new.active().state.row_sort == (if vs.active().state.row_sort == RowSort::PidDec {
            RowSort::PidInc
        } else {
            RowSort::PidDec
        }),
        c == 'c' ==> new.active().state.row_sort == (if vs.active().state.row_sort == RowSort::CpuDec {
            RowSort::CpuInc
        } else {
            RowSort::CpuDec
        }),
        c == 'm' ==> new.active().state.row_sort == (if vs.active().state.row_sort == RowSort::MemDec {
            RowSort::MemInc
        } else {
            RowSort::MemDec
        }),
        c == 'n' ==> new.active().state.row_sort == (if vs.active().state.row_sort == RowSort::NameDec {
            RowSort::NameInc
        } else {
            RowSort::NameDec
        }),
{
}

/// After a new snapshot every view's selection lies among the rows that
/// its filter shows: none exactly when it shows none.
pub proof fn law_snapshot_selections_in_rows(old_views: ViewsModel, ps: Seq<ProcessModel>, new_views: ViewsModel)
    requires
        new_views.views.len() == old_views.views.len(),
        forall|i: int|
            0 <= i < old_views.views.len() ==> #[trigger] new_views.views[i] == with_state(
                old_views.views[i],
                TableStateModel {
                    row_selection: clamp_selection(
                        old_views.views[i].state.row_selection,
                        rows_shown(ps, old_views.views[i].state.filter) as usize,
                    ),
                    ..old_views.views[i].state
                },
            ),
        ps.len() <= usize::MAX,
    ensures
        forall|i: int|
            #![trigger new_views.views[i]]
            0 <= i < new_views.views.len() ==> {
                let shown = rows_shown(ps, new_views.views[i].state.filter);
                &&& (new_views.views[i].state.row_selection is None <==> shown == 0)
                &&& (new_views.views[i].state.row_selection matches Some(j) ==> j < shown)
            },
{
    assert forall|i: int| #![trigger new_views.views[i]] 0 <= i < new_views.views.len() implies {
        let shown = rows_shown(ps, new_views.views[i].state.filter);
        &&& (new_views.views[i].state.row_selection is None <==> shown == 0)
        &&& (new_views.views[i].state.row_selection matches Some(j) ==> j < shown)
    } by {
        let v = old_views.views[i];
        lemma_rows_shown_bounded(ps, v.state.filter, ps.len() as int);
        crate::row_selection::lemma_selection_in_rows(
            v.state.row_selection,
            rows_shown(ps, v.state.filter) as usize,
        );
        assert(new_views.views[i] == with_state(
            v,
            TableStateModel {
                row_selection: clamp_selection(
                    v.state.row_selection,
                    rows_shown(ps, v.state.filter) as usize,
                ),
                ..v.state
            },
        ));
    }
}

/// No more rows are shown than there are processes.
pub proof fn lemma_rows_shown_bounded(ps: Seq<ProcessModel>, filter: Option<AST>, n: int)
    requires
        0 <= n <= ps.len(),
    ensures
        visible_count(ps, filter, n) <= n,
    decreases n,
{
    if n > 0 {
        lemma_rows_shown_bounded(ps, filter, n - 1);
    }
}

/// Replacing the active view twice keeps only the second replacement.
proof fn lemma_with_active_twice(vs: ViewsModel, a: ViewModel, b: ViewModel)
    requires
        vs.wf(),
    ensures
        vs.with_active(a).with_active(b) == vs.with_active(b),
        vs.with_active(a).active() == a,
        vs.with_active(a).wf(),
{
    assert(vs.with_active(a).with_active(b).views =~= vs.with_active(b).views);
}

/// The process that `TerminatePid` names: the one at the selected row of
/// the active view, in the order of its sort and under its filter.
pub open spec fn terminate_outcome(vs: ViewsModel, ps: Seq<ProcessModel>, r: ProcessTableEventState) -> bool {
    let s = vs.active().state;
    r matches ProcessTableEventState::TerminatePid(pid) ==> exists|q: Seq<usize>|
        {
            &&& is_visible_order(q, ps, s.row_sort, s.filter)
            &&& s.row_selection matches Some(i)
            &&& pid == ps[q[i as int] as int].pid
        }
}

/// The process table and its views.
pub struct ProcessTableComponent {
    table: SampledTable,
    views: ProcessTableViews,
}

impl ProcessTableComponent {
    /// The table.
    pub closed spec fn table_view(&self) -> ProcessTable {
        self.table.inner()
    }

    /// The views, as values.
    pub closed spec fn views_view(&self) -> ViewsModel {
        self.views@
    }

    /// Builds the table of `processes`, sampled every two seconds, with
    /// one default view.
    pub fn new(processes: Vec<Process>) -> (r: Result<Self, Error>)
        ensures
            r matches Ok(c) && {
                &&& c.table_view().processes_view() == processes@.map_values(|p: Process| p@)
                &&& c.table_view().stats_updated(Map::empty(), processes@.map_values(|p: Process| p@))
                &&& c.views_view().views.len() == 1
                &&& c.views_view().selection == 0
                &&& crate::table_state::default_table_state(c.views_view().views[0].state)
                &&& c.views_view().views[0].focus == ProcessTableViewFocus::Rows
                &&& c.views_view().views[0].err is None
            },
    {
        let table = SampledTable::new(processes);
        Ok(ProcessTableComponent { table, views: ProcessTableViews::default() })
    }

    /// Builds the table of `processes`, sampled every two seconds, with the
    /// given views.
    pub fn with_views(processes: Vec<Process>, views: ProcessTableViews) -> (r: Self)
        ensures
            r.table_view().processes_view() == processes@.map_values(|p: Process| p@),
            r.table_view().stats_updated(Map::empty(), processes@.map_values(|p: Process| p@)),
            r.views_view() == views@,
    {
        ProcessTableComponent { table: SampledTable::new(processes), views }
    }

    /// Replaces the processes and clamps every view's row selection to the
    /// rows it now shows.
    pub fn new_snapshot(&mut self, processes: Vec<Process>) -> (r: Result<(), Error>)
        ensures
            r is Ok,
            final(self).table_view().processes_view() == processes@.map_values(|p: Process| p@),
            final(self).table_view().stats_updated(
                old(self).table_view().stats(),
                processes@.map_values(|p: Process| p@),
            ),
            final(self).views_view() == (ViewsModel {
                views: Seq::new(
                    old(self).views_view().views.len(),
                    |i: int|
                        {
                            let v = old(self).views_view().views[i];
                            with_state(
                                v,
                                TableStateModel {
                                    row_selection: clamp_selection(
                                        v.state.row_selection,
                                        rows_shown(
                                            processes@.map_values(|p: Process| p@),
                                            v.state.filter,
                                        ) as usize,
                                    ),
                                    ..v.state
                                },
                            )
                        },
                ),
                ..old(self).views_view()
            }),
    {
        // Update table rows
        self.table.update(processes);
        let ghost ps = self.table.inner().processes_view();
        let ghost sampled = self.table.inner();
        let ghost old_views = self.views@;
        let n = self.views.count_views();
        let mut i: usize = 0;
        while i < n
            invariant
                n == old_views.views.len(),
                i <= n,
                ps == self.table.inner().processes_view(),
                sampled == self.table.inner(),
                self.views@.views.len() == n,
                self.views@.selection == old_views.selection,
                self.views@.orientation == old_views.orientation,
                self.views@.capacity == old_views.capacity,
                forall|j: int| i <= j < n ==> self.views@.views[j] == old_views.views[j],
                forall|j: int|
                    0 <= j < i ==> self.views@.views[j] == with_state(
                        old_views.views[j],
                        TableStateModel {
                            row_selection: clamp_selection(
                                old_views.views[j].state.row_selection,
                                rows_shown(ps, old_views.views[j].state.filter) as usize,
                            ),
                            ..old_views.views[j].state
                        },
                    ),
            decreases n - i,
        {
            // Calculate new row selection upper bound for the view
            let visible_rows_upper_bound = self.table.get().count_visible_rows(
                self.views.view_at(i).table_state().row_sort(),
                self.views.view_at(i).table_state().filter_ast(),
            );
            // Update the view's row selection
            self.views.mut_view_at(i).mut_table_state().mut_row_selection().update_selection(
                visible_rows_upper_bound,
            );
            i = i + 1;
        }
        proof {
            assert(self.views@.views =~= Seq::new(
                old_views.views.len(),
                |i: int|
                    {
                        let v = old_views.views[i];
                        with_state(
                            v,
                            TableStateModel {
                                row_selection: clamp_selection(
                                    v.state.row_selection,
                                    rows_shown(ps, v.state.filter) as usize,
                                ),
                                ..v.state
                            },
                        )
                    },
            ));
        }
        Ok(())
    }

    /// The table, and the views to edit.
    pub fn table_and_views(&mut self) -> (r: (&ProcessTable, &mut ProcessTableViews))
        ensures
            *r.0 == old(self).table_view(),
            r.1@ == old(self).views_view(),
            final(self).views_view() == final(r.1)@,
            final(self).table_view() == old(self).table_view(),
    {
        (self.table.get(), &mut self.views)
    }

    /// The table.
    pub fn table(&self) -> (r: &ProcessTable)
        ensures
            *r == self.table_view(),
    {
        self.table.get()
    }

    /// The views.
    pub fn views(&self) -> (r: &ProcessTableViews)
        ensures
            r@ == self.views_view(),
    {
        &self.views
    }
}


impl ProcessTableComponent {
    /// Re-reads the active view's filter, records its error message, and
    /// clamps the active view's row selection to the rows it shows.
    fn refresh_active_filter(&mut self)
        ensures
            final(self).table_view() == old(self).table_view(),
            final(self).views_view() == old(self).views_view().with_active(
                after_filter_edit(
                    old(self).table_view().processes_view(),
                    old(self).views_view().active(),
                    old(self).views_view().active().state.filter_text,
                    old(self).views_view().active().state.filter_cursor,
                ),
            ),
    {
        self.table.wf();
        let res = self.views.mut_active_view().mut_table_state().update_filter_ast();
        let ghost filter = self.views@.active().state.filter;
        proof {
            lemma_filter_outcome(old(self).views@.active().state.filter_text, res, filter);
        }
        match res {
            Err(e) => {
                let msg = e.message();
                self.views.mut_active_view().set_filter_err_msg(msg.as_str());
            },
            Ok(_) => self.views.mut_active_view().set_filter_err_msg_to_none(),
        }
        // Calculate new row selection upper bound for active view
        let visible_rows_upper_bound = self.table.get().count_visible_rows(
            self.views.active_view().table_state().row_sort(),
            self.views.active_view().table_state().filter_ast(),
        );
        // Update the active view's row selection
        self.views.mut_active_view().mut_table_state().mut_row_selection().update_selection(
            visible_rows_upper_bound,
        );
        proof {
            let old_vs = old(self).views@;
            let expected = after_filter_edit(
                old(self).table.inner().processes_view(),
                old_vs.active(),
                old_vs.active().state.filter_text,
                old_vs.active().state.filter_cursor,
            );
            assert(self.views@.active() == expected);
            assert(self.views@.views =~= old_vs.views.update(old_vs.selection as int, expected));
        }
    }

    /// The rows that the active view shows.
    fn active_row_count(&self) -> (r: usize)
        ensures
            r == rows_shown(self.table_view().processes_view(), self.views_view().active().state.filter),
    {
        self.table.get().count_visible_rows(
            self.views.active_view().table_state().row_sort(),
            self.views.active_view().table_state().filter_ast(),
        )
    }

    /// Inserts `col` into the active view's columns.
    fn insert_active_column(&mut self, col: ColumnOptions)
        ensures
            final(self).table_view() == old(self).table_view(),
            final(self).views_view() == active_state(
                old(self).views_view(),
                insert_col(old(self).views_view().active().state, col),
            ),
    {
        self.views.mut_active_view().mut_table_state().mut_columns().insert_column(col);
    }

    /// Sorts the active view's rows by `dec`, or by `inc` when `dec` is in use.
    fn toggle_active_sort(&mut self, dec: RowSort, inc: RowSort)
        ensures
            final(self).table_view() == old(self).table_view(),
            final(self).views_view() == active_state(
                old(self).views_view(),
                TableStateModel {
                    row_sort: toggled(old(self).views_view().active().state.row_sort, dec, inc),
                    ..old(self).views_view().active().state
                },
            ),
    {
        if *self.views.active_view().table_state().row_sort() == dec {
            self.views.mut_active_view().mut_table_state().row_sort_by(inc);
        } else {
            self.views.mut_active_view().mut_table_state().row_sort_by(dec);
        }
    }
}

impl Event for ProcessTableComponent {
    type EventState = ProcessTableEventState;

    /// What `key` does in the active view, given where its focus is.
    fn event(&mut self, key: Key) -> (r: ProcessTableEventState)
        ensures
            final(self).table_view() == old(self).table_view(),
            key_outcome(
                old(self).views_view(),
                old(self).table_view().processes_view(),
                key,
                final(self).views_view(),
                r,
            ),
            terminate_outcome(old(self).views_view(), old(self).table_view().processes_view(), r),
    {
        self.table.wf();
        self.views.well_formed();
        let focus = *self.views.active_view().view_focus();
        match (key, focus) {
            // Events that operate on views
            (Key::Alts, _) => {
                self.views.create_new_view_from_active();
            },
            (Key::Altd, _) => {
                self.views.remove_active_view();
            },
            (Key::Alth, _) => {
                self.views.mut_views_orientation().set_to_split_horizontal();
            },
            (Key::Altv, _) => {
                self.views.mut_views_orientation().set_to_split_vertical();
            },
            (Key::AltLeft, _) => {
                self.views.dec_selection();
            },
            (Key::AltRight, _) => {
                self.views.inc_selection();
            },
            // Events that operate on columns
            (Key::Left, ProcessTableViewFocus::Columns) => {
                self.views.mut_active_view().mut_table_state().mut_columns().dec_selection();
            },
            (Key::Right, ProcessTableViewFocus::Columns) => {
                self.views.mut_active_view().mut_table_state().mut_columns().inc_selection();
            },
            (Key::Delete, ProcessTableViewFocus::Columns) => {
                self.views.mut_active_view().mut_table_state().mut_columns().remove_column();
            },
            (Key::Char('p'), ProcessTableViewFocus::Columns) => {
                self.insert_active_column(ColumnOptions::Pid);
            },
            (Key::Char('c'), ProcessTableViewFocus::Columns) => {
                self.insert_active_column(ColumnOptions::CpuAverage);
            },
            (Key::Char('C'), ProcessTableViewFocus::Columns) => {
                self.insert_active_column(ColumnOptions::MeanCpuUsageOverLastMinute);
            },
            (Key::Char('t'), ProcessTableViewFocus::Columns) => {
                self.insert_active_column(ColumnOptions::CpuTotal);
            },
            (Key::Char('T'), ProcessTableViewFocus::Columns) => {
                self.insert_active_column(ColumnOptions::MeanCpuUsageAsTotalOverLastMinute);
            },
            (Key::Char('m'), ProcessTableViewFocus::Columns) => {
                self.insert_active_column(ColumnOptions::Memory(MemoryUnitOptions::B));
            },
            (Key::Char('n'), ProcessTableViewFocus::Columns) => {
                self.insert_active_column(ColumnOptions::Name);
            },
            (Key::Char('u'), ProcessTableViewFocus::Columns) => {
                self.views.mut_active_view().mut_table_state().mut_columns().rotate_unit();
            },
            (Key::Tab, ProcessTableViewFocus::Columns) => {
                self.views.mut_active_view().mut_table_state().mut_columns().deselect();
                let ghost mid = self.views@;
                self.views.mut_active_view().mut_view_focus().set_to_rows();
                proof {
                    lemma_with_active_twice(old(self).views@, mid.active(), self.views@.active());
                }
            },
            // Events that operate on rows
            (Key::Char('/'), ProcessTableViewFocus::Rows) => {
                self.views.mut_active_view().mut_view_focus().set_to_filter();
            },
            (Key::Tab, ProcessTableViewFocus::Rows) => {
                self.views.mut_active_view().mut_view_focus().set_to_columns();
                let ghost mid = self.views@;
                // Init selection
                self.views.mut_active_view().mut_table_state().mut_columns().inc_selection();
                proof {
                    lemma_with_active_twice(old(self).views@, mid.active(), self.views@.active());
                }
            },
            (Key::Char('p'), ProcessTableViewFocus::Rows) => {
                self.toggle_active_sort(RowSort::PidDec, RowSort::PidInc);
            },
            (Key::Char('c'), ProcessTableViewFocus::Rows) => {
                self.toggle_active_sort(RowSort::CpuDec, RowSort::CpuInc);
            },
            (Key::Char('m'), ProcessTableViewFocus::Rows) => {
                self.toggle_active_sort(RowSort::MemDec, RowSort::MemInc);
            },
            (Key::Char('n'), ProcessTableViewFocus::Rows) => {
                self.toggle_active_sort(RowSort::NameDec, RowSort::NameInc);
            },
            // Events that change the active view's row selection
            (Key::Up, ProcessTableViewFocus::Rows) => {
                let visible_rows_upper_bound = self.active_row_count();
                self.views.mut_active_view().mut_table_state().mut_row_selection().dec_selection(
                    visible_rows_upper_bound,
                );
            },
            (Key::Down, ProcessTableViewFocus::Rows) => {
                let visible_rows_upper_bound = self.active_row_count();
                self.views.mut_active_view().mut_table_state().mut_row_selection().inc_selection(
                    visible_rows_upper_bound,
                );
            },
            (Key::Char('T'), ProcessTableViewFocus::Rows) => {
                let table_state = self.views.active_view().table_state();
                if let Some(sel) = table_state.row_selection().selection() {
                    if let Some(row) = self.table.get().visible_row(
                        table_state.row_sort(),
                        table_state.filter_ast(),
                        sel,
                    ) {
                        return ProcessTableEventState::TerminatePid(row.process().pid().as_u32());
                    }
                }
            },
            // Events that operate on the filter
            (Key::Char(c), ProcessTableViewFocus::Filter) => {
                // Update the filter string, then the filter and the row selection
                match self.views.mut_active_view().mut_table_state().mut_filter_string().insert_ascii_ch(
                    c,
                ) {
                    Err(e) => {
                        let msg = e.message();
                        self.views.mut_active_view().set_filter_err_msg(msg.as_str());
                    },
                    Ok(_) => self.views.mut_active_view().set_filter_err_msg_to_none(),
                }
                let ghost t = self.views@.active().state.filter_text;
                let ghost k = self.views@.active().state.filter_cursor;
                let ghost mid = self.views@;
                proof {
                    assert(mid.views =~= old(self).views@.views.update(old(self).views@.selection as int, mid.active()));
                }
                self.refresh_active_filter();
                proof {
                    lemma_with_active_twice(old(self).views@, mid.active(), self.views@.active());
                    assert((t, k) == insert_ch_step(
                        old(self).views@.active().state.filter_text,
                        old(self).views@.active().state.filter_cursor,
                        old(self).views@.active().state.filter_capacity,
                        c,
                    ));
                }
            },
            // Remove a character from the filter
            (Key::Backspace, ProcessTableViewFocus::Filter) => {
                self.views.mut_active_view().mut_table_state().mut_filter_string().remove_ch();
                let ghost mid = self.views@;
                proof {
                    assert(mid.views =~= old(self).views@.views.update(old(self).views@.selection as int, mid.active()));
                }
                self.refresh_active_filter();
                proof {
                    lemma_with_active_twice(old(self).views@, mid.active(), self.views@.active());
                }
            },
            (Key::Right, ProcessTableViewFocus::Filter) => {
                self.views.mut_active_view().mut_table_state().mut_filter_string().inc_cursor();
            },
            (Key::Left, ProcessTableViewFocus::Filter) => {
                self.views.mut_active_view().mut_table_state().mut_filter_string().dec_cursor();
            },
            (Key::Enter, ProcessTableViewFocus::Filter) => {
                self.views.mut_active_view().mut_view_focus().set_to_rows();
            },
            _ => {
                return ProcessTableEventState::NotConsumed;
            },
        }
        ProcessTableEventState::Consumed
    }
}

} // verus!
