//! The table component: rows, columns and a filter line, the part that has
//! the focus, and the keys that edit them.

use vstd::prelude::*;
use vstd::utf8::encode_utf8;
use crate::key::{EventState, Key};
use crate::rows::{Direction as RowDirection, Row, RowOrder, Rows, RowsEvent};
use crate::table_columns::{
    CPUUnitOptions, Column, ColumnEvent, ColumnID, Columns, Direction as ColsDirection, MemUnitOptions,
};
use crate::text_line::{MoveDirection as TextLineMoveDirection, TextLineEvent, TextLineModel};

verus! {

/// The part of the table that has the focus.
#[derive(Debug, Clone, Copy, PartialEq, Eq, Structural)]
pub enum TableFocus {
    Rows,
    Columns,
    Filter,
}

/// Edits of the table.
#[derive(Debug, Clone, Copy, PartialEq, Eq, Structural)]
pub enum TableEvent {
    MoveFocus(TableFocus),
    OnRows(RowsEvent),
    OnCols(ColumnEvent),
    OnFilter(TextLineEvent),
}

/// The rows, columns and filter line of the table.
#[derive(Debug)]
pub struct TableModel {
    rows: Rows,
    columns: Columns,
    filter: TextLineModel,
    focus: TableFocus,
}

/// The edits that can be made without a panic of the filter's string: an
/// edit of the filter line must be one its model can make.
pub open spec fn table_event_ok(m: TableModel, event: TableEvent) -> bool {
    event matches TableEvent::OnFilter(e) ==> crate::text_line::text_line_event_ok(
        encode_utf8(m.filter_view().0),
        m.filter_view().1,
        e,
    )
}

/// What `TableModel::event` does: a focus move sets the focus; an edit of
/// the rows, the columns or the filter line is that of the part it names,
/// and the filter's new text becomes the rows' filter; the other parts stay.
pub open spec fn table_event_outcome(old: TableModel, new: TableModel, event: TableEvent, r: EventState) -> bool {
    match event {
        TableEvent::MoveFocus(f) => {
            &&& r == EventState::Consumed
            &&& new.focus_view() == f
            &&& new.rows_view() == old.rows_view()
            &&& new.columns_view() == old.columns_view()
            &&& new.filter_view() == old.filter_view()
        },
        TableEvent::OnRows(e) => {
            &&& crate::rows::rows_event_outcome(old.rows_view(), new.rows_view(), e, r)
            &&& new.focus_view() == old.focus_view()
            &&& new.columns_view() == old.columns_view()
            &&& new.filter_view() == old.filter_view()
        },
        TableEvent::OnCols(e) => {
            &&& r == EventState::Consumed
            &&& (new.columns_view().columns_view(), new.columns_view().selection_view())
                == crate::table_columns::columns_step(
                old.columns_view().columns_view(),
                old.columns_view().selection_view(),
                old.columns_view().capacity_view(),
                e,
            )
            &&& new.columns_view().capacity_view() == old.columns_view().capacity_view()
            &&& new.focus_view() == old.focus_view()
            &&& new.rows_view() == old.rows_view()
            &&& new.filter_view() == old.filter_view()
        },
        TableEvent::OnFilter(e) => {
            let (t, c, _) = crate::text_line::text_line_step(encode_utf8(old.filter_view().0), old.filter_view().1, e);
            &&& r == EventState::Consumed
            &&& encode_utf8(new.filter_view().0) == t
            &&& new.filter_view().1 == c
            &&& new.rows_view().filter_view() == Some(new.filter_view().0)
            &&& new.rows_view().models() == old.rows_view().models()
            &&& new.focus_view() == old.focus_view()
            &&& new.columns_view() == old.columns_view()
        },
    }
}

impl TableModel {
    pub closed spec fn focus_view(&self) -> TableFocus {
        self.focus
    }

    pub closed spec fn rows_view(&self) -> Rows {
        self.rows
    }

    pub closed spec fn columns_view(&self) -> Columns {
        self.columns
    }

    pub closed spec fn filter_view(&self) -> (Seq<char>, usize) {
        (self.filter.text(), self.filter.cursor_pos())
    }

    /// A table of `rows` with `columns`, an empty filter and the rows in focus.
    pub fn new(rows: Vec<Row>, columns: Columns) -> (r: Self)
        ensures
            r.rows_view().models() == rows@.map_values(|x: Row| crate::rows::row_model(x)),
            r.rows_view().filter_view() is None,
            r.columns_view() == columns,
            r.filter_view() == (Seq::<char>::empty(), 0usize),
            r.focus_view() == TableFocus::Rows,
    {
        TableModel {
            rows: Rows::new(rows),
            columns,
            filter: TextLineModel::default(),
            focus: TableFocus::Rows,
        }
    }

    /// A table of `rows` with the default columns.
    pub fn from_rows(rows: Vec<Row>) -> (r: Self)
        ensures
            r.rows_view().models() == rows@.map_values(|x: Row| crate::rows::row_model(x)),
            r.focus_view() == TableFocus::Rows,
            r.filter_view() == (Seq::<char>::empty(), 0usize),
    {
        TableModel::new(rows, Columns::default())
    }

    /// Applies `event`: a move of the focus, an edit of the rows or the
    /// columns, or an edit of the filter line, after which the rows are
    /// filtered by its text.
    pub fn event(&mut self, event: TableEvent) -> (r: EventState)
        requires
            table_event_ok(*old(self), event),
        ensures
            table_event_outcome(*old(self), *final(self), event, r),
    {
        match event {
            TableEvent::MoveFocus(table_focus) => {
                self.focus = table_focus;
            },
            TableEvent::OnRows(row_event) => {
                return self.rows.event(row_event);
            },
            TableEvent::OnCols(col_event) => {
                return self.columns.event(col_event);
            },
            TableEvent::OnFilter(filter_event) => {
                self.filter.handle_event(filter_event);
                let filter_str = self.filter.buffer();
                self.rows.set_filter(filter_str);
            },
        }
        EventState::Consumed
    }

    /// Replaces the rows with those of a new snapshot.
    pub fn new_snapshot(&mut self, rows: Vec<Row>)
        ensures
            final(self).rows_view().models() == rows@.map_values(|x: Row| crate::rows::row_model(x)),
            final(self).focus_view() == old(self).focus_view(),
            final(self).filter_view() == old(self).filter_view(),
    {
        self.rows.replace_rows(rows);
    }

    pub fn focus(&self) -> (r: TableFocus)
        ensures
            r == self.focus_view(),
    {
        self.focus
    }

    /// The rows shown, each with whether it is selected.
    pub fn rows_iter(&self) -> (r: Vec<(Row, bool)>)
        ensures
            exists|q: Seq<usize>|
                {
                    &&& crate::rows::is_row_order(
                        q,
                        self.rows_view().models(),
                        crate::rows::sort_of(self.rows_view().order_view()),
                        self.rows_view().filter_view(),
                    )
                    &&& r@.len() == q.len()
                    &&& forall|j: int|
                        0 <= j < q.len() ==> crate::rows::row_model((#[trigger] r@[j]).0)
                            == self.rows_view().models()[q[j] as int] && r@[j].1 == (
                        self.rows_view().selection_view() == Some(j as usize))
                },
    {
        self.rows.iter_filter_and_sort()
    }

    pub fn row_selection(&self) -> (r: Option<usize>)
        ensures
            r == self.rows_view().selection_view(),
    {
        self.rows.get_selection()
    }

    pub fn row_order(&self) -> (r: &RowOrder)
        ensures
            *r == self.rows_view().order_view(),
    {
        self.rows.get_order()
    }

    /// The columns, each with whether it is selected.
    pub fn cols_iter(&self) -> (r: Vec<(Column, bool)>)
        ensures
            r@.len() == self.columns_view().columns_view().len(),
            forall|i: int|
                0 <= i < r@.len() ==> (#[trigger] r@[i]).0 == self.columns_view().columns_view()[i]
                    && r@[i].1 == (self.columns_view().selection_view() == Some(i as usize)),
    {
        self.columns.iter()
    }

    pub fn cols_count(&self) -> (r: usize)
        ensures
            r == self.columns_view().columns_view().len(),
    {
        self.columns.get_count()
    }

    pub fn filter_str(&self) -> (r: &str)
        ensures
            r@ == self.filter_view().0,
    {
        self.filter.buffer()
    }

    /// The length of the filter text in bytes.
    pub fn filter_len(&self) -> (r: usize)
        ensures
            r == crate::text::byte_len(self.filter_view().0),
    {
        self.filter.len()
    }

    pub fn filter_cursor(&self) -> (r: usize)
        ensures
            r == self.filter_view().1,
    {
        self.filter.cursor()
    }
}

/// The edit that a key stands for in the table, given the focus.
pub open spec fn table_event_of(key: Key, focus: TableFocus) -> Option<TableEvent> {
    match (key, focus) {
        // Change focus
        (Key::Char('/'), TableFocus::Rows) => Some(TableEvent::MoveFocus(TableFocus::Filter)),
        (Key::Char('/'), TableFocus::Columns) => Some(TableEvent::MoveFocus(TableFocus::Filter)),
        (Key::Enter, TableFocus::Filter) => Some(TableEvent::MoveFocus(TableFocus::Rows)),
        (Key::Enter, TableFocus::Columns) => Some(TableEvent::MoveFocus(TableFocus::Rows)),
        (Key::Tab, TableFocus::Filter) => Some(TableEvent::MoveFocus(TableFocus::Columns)),
        (Key::Tab, TableFocus::Rows) => Some(TableEvent::MoveFocus(TableFocus::Columns)),
        // Row
        (Key::Up, TableFocus::Rows) => Some(TableEvent::OnRows(RowsEvent::MoveSelection(RowDirection::Up))),
        (Key::Down, TableFocus::Rows) => Some(TableEvent::OnRows(RowsEvent::MoveSelection(RowDirection::Down))),
        (Key::Char('p'), TableFocus::Rows) => Some(TableEvent::OnRows(RowsEvent::Sort(RowOrder::PIDDec))),
        (Key::Char('P'), TableFocus::Rows) => Some(TableEvent::OnRows(RowsEvent::Sort(RowOrder::PIDInc))),
        (Key::Char('n'), TableFocus::Rows) => Some(TableEvent::OnRows(RowsEvent::Sort(RowOrder::NameDec))),
        (Key::Char('N'), TableFocus::Rows) => Some(TableEvent::OnRows(RowsEvent::Sort(RowOrder::NameInc))),
        (Key::Char('c'), TableFocus::Rows) => Some(TableEvent::OnRows(RowsEvent::Sort(RowOrder::CPUDec))),
        (Key::Char('C'), TableFocus::Rows) => Some(TableEvent::OnRows(RowsEvent::Sort(RowOrder::CPUInc))),
        (Key::Char('m'), TableFocus::Rows) => Some(TableEvent::OnRows(RowsEvent::Sort(RowOrder::MemDec))),
        (Key::Char('M'), TableFocus::Rows) => Some(TableEvent::OnRows(RowsEvent::Sort(RowOrder::MemInc))),
        (Key::Char('T'), TableFocus::Rows) => Some(TableEvent::OnRows(RowsEvent::TerminateSelection)),
        // Column
        (Key::Left, TableFocus::Columns) => Some(TableEvent::OnCols(ColumnEvent::MoveSelection(ColsDirection::Left))),
        (Key::Right, TableFocus::Columns) => Some(TableEvent::OnCols(ColumnEvent::MoveSelection(ColsDirection::Right))),
        (Key::Char('p'), TableFocus::Columns) => Some(TableEvent::OnCols(ColumnEvent::InsertColumn(Column { id: ColumnID::PID }))),
        (Key::Char('n'), TableFocus::Columns) => Some(TableEvent::OnCols(ColumnEvent::InsertColumn(Column { id: ColumnID::Name }))),
        (Key::Char('c'), TableFocus::Columns) => Some(TableEvent::OnCols(ColumnEvent::InsertColumn(Column { id: ColumnID::CPU(CPUUnitOptions::Avg) }))),
        (Key::Char('m'), TableFocus::Columns) => Some(TableEvent::OnCols(ColumnEvent::InsertColumn(Column { id: ColumnID::Mem(MemUnitOptions::B) }))),
        (Key::Backspace, TableFocus::Columns) => Some(TableEvent::OnCols(ColumnEvent::RemoveColumn)),
        (Key::Char('u'), TableFocus::Columns) => Some(TableEvent::OnCols(ColumnEvent::RotateUnit)),
        // Filter
        (Key::Char(c), TableFocus::Filter) => Some(TableEvent::OnFilter(TextLineEvent::InsertCharacter(c))),
        (Key::Backspace, TableFocus::Filter) => Some(TableEvent::OnFilter(TextLineEvent::RemoveCharacter)),
        (Key::Left, TableFocus::Filter) => Some(TableEvent::OnFilter(TextLineEvent::MoveCursor(TextLineMoveDirection::Left))),
        (Key::Right, TableFocus::Filter) => Some(TableEvent::OnFilter(TextLineEvent::MoveCursor(TextLineMoveDirection::Right))),
        (_, _) => None,
    }
}

/// Maps keys to edits of the table.
#[derive(Debug, Default, Clone, Copy)]
pub struct TableController;

impl TableController {
    pub fn key_event(&self, key: Key, model: &TableModel) -> (r: Option<TableEvent>)
        ensures
            r == table_event_of(key, model.focus_view()),
    {
        let focus = model.focus();
        match (key, focus) {
            // Change focus
            (Key::Char('/'), TableFocus::Rows | TableFocus::Columns) => Some(TableEvent::MoveFocus(TableFocus::Filter)),
            (Key::Enter, TableFocus::Filter | TableFocus::Columns) => Some(TableEvent::MoveFocus(TableFocus::Rows)),
            (Key::Tab, TableFocus::Filter | TableFocus::Rows) => Some(TableEvent::MoveFocus(TableFocus::Columns)),
            // Row
            (Key::Up, TableFocus::Rows) => Some(TableEvent::OnRows(RowsEvent::MoveSelection(RowDirection::Up))),
            (Key::Down, TableFocus::Rows) => Some(TableEvent::OnRows(RowsEvent::MoveSelection(RowDirection::Down))),
            (Key::Char('p'), TableFocus::Rows) => Some(TableEvent::OnRows(RowsEvent::Sort(RowOrder::PIDDec))),
            (Key::Char('P'), TableFocus::Rows) => Some(TableEvent::OnRows(RowsEvent::Sort(RowOrder::PIDInc))),
            (Key::Char('n'), TableFocus::Rows) => Some(TableEvent::OnRows(RowsEvent::Sort(RowOrder::NameDec))),
            (Key::Char('N'), TableFocus::Rows) => Some(TableEvent::OnRows(RowsEvent::Sort(RowOrder::NameInc))),
            (Key::Char('c'), TableFocus::Rows) => Some(TableEvent::OnRows(RowsEvent::Sort(RowOrder::CPUDec))),
            (Key::Char('C'), TableFocus::Rows) => Some(TableEvent::OnRows(RowsEvent::Sort(RowOrder::CPUInc))),
            (Key::Char('m'), TableFocus::Rows) => Some(TableEvent::OnRows(RowsEvent::Sort(RowOrder::MemDec))),
            (Key::Char('M'), TableFocus::Rows) => Some(TableEvent::OnRows(RowsEvent::Sort(RowOrder::MemInc))),
            (Key::Char('T'), TableFocus::Rows) => Some(TableEvent::OnRows(RowsEvent::TerminateSelection)),
            // Column
            (Key::Left, TableFocus::Columns) => Some(TableEvent::OnCols(ColumnEvent::MoveSelection(ColsDirection::Left))),
            (Key::Right, TableFocus::Columns) => Some(TableEvent::OnCols(ColumnEvent::MoveSelection(ColsDirection::Right))),
            (Key::Char('p'), TableFocus::Columns) => Some(TableEvent::OnCols(ColumnEvent::InsertColumn(Column::from_id(ColumnID::PID)))),
            (Key::Char('n'), TableFocus::Columns) => Some(TableEvent::OnCols(ColumnEvent::InsertColumn(Column::from_id(ColumnID::Name)))),
            (Key::Char('c'), TableFocus::Columns) => Some(TableEvent::OnCols(ColumnEvent::InsertColumn(Column::from_id(ColumnID::CPU(CPUUnitOptions::Avg))))),
            (Key::Char('m'), TableFocus::Columns) => Some(TableEvent::OnCols(ColumnEvent::InsertColumn(Column::from_id(ColumnID::Mem(MemUnitOptions::B))))),
            (Key::Backspace, TableFocus::Columns) => Some(TableEvent::OnCols(ColumnEvent::RemoveColumn)),
            (Key::Char('u'), TableFocus::Columns) => Some(TableEvent::OnCols(ColumnEvent::RotateUnit)),
            // Filter
            (Key::Char(c), TableFocus::Filter) => Some(TableEvent::OnFilter(TextLineEvent::InsertCharacter(c))),
            (Key::Backspace, TableFocus::Filter) => Some(TableEvent::OnFilter(TextLineEvent::RemoveCharacter)),
            (Key::Left, TableFocus::Filter) => Some(TableEvent::OnFilter(TextLineEvent::MoveCursor(TextLineMoveDirection::Left))),
            (Key::Right, TableFocus::Filter) => Some(TableEvent::OnFilter(TextLineEvent::MoveCursor(TextLineMoveDirection::Right))),
            (_, _) => None,
        }
    }
}

/// The table with its keys.
#[derive(Debug)]
pub struct TableComponent {
    model: TableModel,
    controller: TableController,
}

impl TableComponent {
    pub closed spec fn model_view(&self) -> TableModel {
        self.model
    }

    /// A table of `rows` with `columns`.
    pub fn new(rows: Vec<Row>, columns: Columns) -> (r: Self)
        ensures
            r.model_view().rows_view().models() == rows@.map_values(|x: Row| crate::rows::row_model(x)),
            r.model_view().columns_view() == columns,
            r.model_view().focus_view() == TableFocus::Rows,
    {
        TableComponent { model: TableModel::new(rows, columns), controller: TableController }
    }

    /// A table of `rows` with the default columns.
    pub fn from_rows(rows: Vec<Row>) -> (r: Self)
        ensures
            r.model_view().rows_view().models() == rows@.map_values(|x: Row| crate::rows::row_model(x)),
            r.model_view().focus_view() == TableFocus::Rows,
    {
        TableComponent { model: TableModel::from_rows(rows), controller: TableController }
    }

    pub fn new_snapshot(&mut self, rows: Vec<Row>)
        ensures
            final(self).model_view().rows_view().models() == rows@.map_values(|x: Row| crate::rows::row_model(x)),
            final(self).model_view().focus_view() == old(self).model_view().focus_view(),
    {
        self.model.new_snapshot(rows);
    }

    /// Applies the edit that `key` stands for; a key that stands for none
    /// is not used.
    pub fn event(&mut self, key: Key) -> (r: EventState)
        requires
            table_event_of(key, old(self).model_view().focus_view()) matches Some(e) ==> table_event_ok(
                old(self).model_view(),
                e,
            ),
        ensures
            match table_event_of(key, old(self).model_view().focus_view()) {
                None => r == EventState::NotConsumed && final(self).model_view() == old(self).model_view(),
                Some(e) => table_event_outcome(old(self).model_view(), final(self).model_view(), e, r),
            },
    {
        if let Some(event) = self.controller.key_event(key, &self.model) {
            self.model.event(event)
        } else {
            EventState::NotConsumed
        }
    }

    pub fn model(&self) -> (r: &TableModel)
        ensures
            *r == self.model_view(),
    {
        &self.model
    }
}

} // verus!
