//! The column layout of the table component: columns by kind and unit, the
//! selected column, and the edits a key makes to them.

use vstd::prelude::*;
use crate::key::EventState;

verus! {

/// Units of the memory column.
#[derive(Debug, Clone, Copy, PartialEq, Eq, Structural)]
pub enum MemUnitOptions {
    B,
    KB,
    MB,
    GB,
}

impl MemUnitOptions {
    pub fn as_str(&self) -> (r: &'static str)
        ensures
            r@ == match self {
                MemUnitOptions::B => "mem (B)"@,
                MemUnitOptions::KB => "mem (KB)"@,
                MemUnitOptions::MB => "mem (MB)"@,
                MemUnitOptions::GB => "mem (GB)"@,
            },
    {
        match self {
            MemUnitOptions::B => "mem (B)",
            MemUnitOptions::KB => "mem (KB)",
            MemUnitOptions::MB => "mem (MB)",
            MemUnitOptions::GB => "mem (GB)",
        }
    }
}

/// Units of the CPU column.
#[derive(Debug, Clone, Copy, PartialEq, Eq, Structural)]
pub enum CPUUnitOptions {
    Avg,
    Tot,
}

impl CPUUnitOptions {
    pub fn as_str(&self) -> (r: &'static str)
        ensures
            r@ == match self {
                CPUUnitOptions::Avg => "cpu (avg)"@,
                CPUUnitOptions::Tot => "cpu (tot)"@,
            },
    {
        match self {
            CPUUnitOptions::Avg => "cpu (avg)",
            CPUUnitOptions::Tot => "cpu (tot)",
        }
    }
}

/// The kinds of columns.
#[derive(Debug, Clone, Copy, PartialEq, Eq, Structural)]
pub enum ColumnID {
    PID,
    Name,
    CPU(CPUUnitOptions),
    Mem(MemUnitOptions),
}

/// The header text of a column kind.
pub open spec fn column_id_text(id: ColumnID) -> Seq<char> {
    match id {
        ColumnID::PID => "pid"@,
        ColumnID::Name => "name"@,
        ColumnID::CPU(CPUUnitOptions::Avg) => "cpu (avg)"@,
        ColumnID::CPU(CPUUnitOptions::Tot) => "cpu (tot)"@,
        ColumnID::Mem(MemUnitOptions::B) => "mem (B)"@,
        ColumnID::Mem(MemUnitOptions::KB) => "mem (KB)"@,
        ColumnID::Mem(MemUnitOptions::MB) => "mem (MB)"@,
        ColumnID::Mem(MemUnitOptions::GB) => "mem (GB)"@,
    }
}

impl ColumnID {
    pub fn as_str(&self) -> (r: &'static str)
        ensures
            r@ == column_id_text(*self),
    {
        match self {
            ColumnID::PID => "pid",
            ColumnID::Name => "name",
            ColumnID::CPU(unit) => unit.as_str(),
            ColumnID::Mem(unit) => unit.as_str(),
        }
    }
}

/// A column of the table.
#[derive(Debug, Clone, Copy, PartialEq, Eq, Structural)]
pub struct Column {
    pub id: ColumnID,
}

impl Column {
    pub fn header(&self) -> (r: &'static str)
        ensures
            r@ == column_id_text(self.id),
    {
        self.id.as_str()
    }

    /// The column of kind `id`.
    pub fn from_id(id: ColumnID) -> (r: Self)
        ensures
            r.id == id,
    {
        Column { id }
    }
}

/// The directions the selection moves in.
#[derive(Debug, Clone, Copy, PartialEq, Eq, Structural)]
pub enum Direction {
    Left,
    Right,
}

/// Edits of the column layout.
#[derive(Debug, Clone, Copy, PartialEq, Eq, Structural)]
pub enum ColumnEvent {
    MoveSelection(Direction),
    InsertColumn(Column),
    RemoveColumn,
    RotateUnit,
    /// Asks for the layout to be saved; saving is left to the caller.
    SaveColumnConfig,
}

/// The selection clamped to `count` columns: none without columns, the
/// last column past the end, the first when there was none.
pub open spec fn clamp_to(count: nat, sel: Option<usize>) -> Option<usize> {
    if count == 0 {
        None
    } else {
        match sel {
            Some(s) => if s < count {
                Some(s)
            } else {
                Some((count - 1) as usize)
            },
            None => Some(0usize),
        }
    }
}

/// The column of kind `id` with its unit rotated: memory B, KB, MB, GB and
/// back, CPU average and total; other kinds stay.
pub open spec fn rotated_id(id: ColumnID) -> ColumnID {
    match id {
        ColumnID::Mem(MemUnitOptions::B) => ColumnID::Mem(MemUnitOptions::KB),
        ColumnID::Mem(MemUnitOptions::KB) => ColumnID::Mem(MemUnitOptions::MB),
        ColumnID::Mem(MemUnitOptions::MB) => ColumnID::Mem(MemUnitOptions::GB),
        ColumnID::Mem(MemUnitOptions::GB) => ColumnID::Mem(MemUnitOptions::B),
        ColumnID::CPU(CPUUnitOptions::Avg) => ColumnID::CPU(CPUUnitOptions::Tot),
        ColumnID::CPU(CPUUnitOptions::Tot) => ColumnID::CPU(CPUUnitOptions::Avg),
        _ => id,
    }
}

/// The columns and selection after `event`, with capacity `cap`.
pub open spec fn columns_step(cols: Seq<Column>, sel: Option<usize>, cap: usize, event: ColumnEvent) -> (
    Seq<Column>,
    Option<usize>,
) {
    match event {
        ColumnEvent::MoveSelection(dir) => match sel {
            None => (cols, None),
            Some(s) => (
                cols,
                clamp_to(
                    cols.len(),
                    Some(
                        match dir {
                            Direction::Left => if s == 0 {
                                0usize
                            } else {
                                (s - 1) as usize
                            },
                            Direction::Right => if s == usize::MAX {
                                s
                            } else {
                                (s + 1) as usize
                            },
                        },
                    ),
                ),
            ),
        },
        ColumnEvent::InsertColumn(col) => if cols.len() < cap {
            let at = match sel {
                Some(s) => s as int,
                None => 0,
            };
            let c = cols.insert(at, col);
            (c, clamp_to(c.len(), sel))
        } else {
            (cols, sel)
        },
        ColumnEvent::RemoveColumn => match sel {
            None => (cols, sel),
            Some(s) => {
                let c = cols.remove(s as int);
                (c, clamp_to(c.len(), sel))
            },
        },
        ColumnEvent::RotateUnit => match sel {
            None => (cols, sel),
            Some(s) => (cols.update(s as int, Column { id: rotated_id(cols[s as int].id) }), sel),
        },
        ColumnEvent::SaveColumnConfig => (cols, sel),
    }
}

/// The capacity of a layout.
pub const COLUMNS_CAPACITY: usize = 10;

/// The columns of the table, with a selection.
#[derive(Debug)]
pub struct Columns {
    columns: Vec<Column>,
    capacity: usize,
    selection: Option<usize>,
}

impl Columns {
    /// The selection is absent or names a column.
    #[verifier::type_invariant]
    spec fn inv(&self) -> bool {
        self.selection matches Some(s) ==> s < self.columns@.len()
    }

    pub closed spec fn columns_view(&self) -> Seq<Column> {
        self.columns@
    }

    pub closed spec fn selection_view(&self) -> Option<usize> {
        self.selection
    }

    pub closed spec fn capacity_view(&self) -> usize {
        self.capacity
    }

    /// Applies `event`.
    pub fn event(&mut self, event: ColumnEvent) -> (r: EventState)
        ensures
            r == EventState::Consumed,
            (final(self).columns_view(), final(self).selection_view()) == columns_step(
                old(self).columns_view(),
                old(self).selection_view(),
                old(self).capacity_view(),
                event,
            ),
            final(self).capacity_view() == old(self).capacity_view(),
    {
        match event {
            ColumnEvent::MoveSelection(Direction::Left) => {
                self.move_selection(Direction::Left);
                EventState::Consumed
            },
            ColumnEvent::MoveSelection(Direction::Right) => {
                self.move_selection(Direction::Right);
                EventState::Consumed
            },
            ColumnEvent::InsertColumn(col) => {
                self.insert_col(col);
                EventState::Consumed
            },
            ColumnEvent::RemoveColumn => {
                self.remove_col();
                EventState::Consumed
            },
            ColumnEvent::RotateUnit => {
                self.rotate_unit();
                EventState::Consumed
            },
            ColumnEvent::SaveColumnConfig => EventState::Consumed,
        }
    }

    /// Moves the selection within the columns; nothing happens without one.
    pub fn move_selection(&mut self, dir: Direction)
        ensures
            (final(self).columns_view(), final(self).selection_view()) == columns_step(
                old(self).columns_view(),
                old(self).selection_view(),
                old(self).capacity_view(),
                ColumnEvent::MoveSelection(dir),
            ),
            final(self).capacity_view() == old(self).capacity_view(),
    {
        if let Some(selection) = self.selection {
            let moved = match dir {
                Direction::Left => selection.saturating_sub(1),
                Direction::Right => selection.saturating_add(1),
            };
            let len = self.columns.len();
            self.selection = clamped(len, Some(moved));
        }
    }

    fn insert_col(&mut self, col: Column)
        ensures
            (final(self).columns_view(), final(self).selection_view()) == columns_step(
                old(self).columns_view(),
                old(self).selection_view(),
                old(self).capacity_view(),
                ColumnEvent::InsertColumn(col),
            ),
            final(self).capacity_view() == old(self).capacity_view(),
    {
        proof {
            use_type_invariant(&*self);
        }
        let col_count = self.columns.len();
        if col_count < self.capacity {
            let insert_pos = if let Some(selection) = self.selection {
                selection
            } else {
                0
            };
            let sel = self.selection;
            let mut columns = self.take_columns();
            columns.insert(insert_pos, col);
            let len = columns.len();
            *self = Columns { columns, capacity: self.capacity, selection: clamped(len, sel) };
        }
    }

    fn remove_col(&mut self)
        ensures
            (final(self).columns_view(), final(self).selection_view()) == columns_step(
                old(self).columns_view(),
                old(self).selection_view(),
                old(self).capacity_view(),
                ColumnEvent::RemoveColumn,
            ),
            final(self).capacity_view() == old(self).capacity_view(),
    {
        proof {
            use_type_invariant(&*self);
        }
        if let Some(selection) = self.selection {
            let mut columns = self.take_columns();
            columns.remove(selection);
            let len = columns.len();
            *self = Columns {
                columns,
                capacity: self.capacity,
                selection: clamped(len, Some(selection)),
            };
        }
    }

    fn rotate_unit(&mut self)
        ensures
            (final(self).columns_view(), final(self).selection_view()) == columns_step(
                old(self).columns_view(),
                old(self).selection_view(),
                old(self).capacity_view(),
                ColumnEvent::RotateUnit,
            ),
            final(self).capacity_view() == old(self).capacity_view(),
    {
        proof {
            use_type_invariant(&*self);
        }
        if let Some(selection) = self.selection {
            let new_id = match self.columns[selection].id {
                ColumnID::Mem(MemUnitOptions::B) => ColumnID::Mem(MemUnitOptions::KB),
                ColumnID::Mem(MemUnitOptions::KB) => ColumnID::Mem(MemUnitOptions::MB),
                ColumnID::Mem(MemUnitOptions::MB) => ColumnID::Mem(MemUnitOptions::GB),
                ColumnID::Mem(MemUnitOptions::GB) => ColumnID::Mem(MemUnitOptions::B),
                ColumnID::CPU(CPUUnitOptions::Avg) => ColumnID::CPU(CPUUnitOptions::Tot),
                ColumnID::CPU(CPUUnitOptions::Tot) => ColumnID::CPU(CPUUnitOptions::Avg),
                _ => {
                    proof {
                        assert(self.columns@.update(
                            selection as int,
                            Column { id: rotated_id(self.columns@[selection as int].id) },
                        ) =~= self.columns@);
                    }
                    return ;
                },
            };
            let mut columns = self.take_columns();
            columns.set(selection, Column::from_id(new_id));
            *self = Columns { columns, capacity: self.capacity, selection: Some(selection) };
        }
    }

    /// Moves the columns out, leaving none and no selection.
    fn take_columns(&mut self) -> (r: Vec<Column>)
        ensures
            r@ == old(self).columns_view(),
            final(self).capacity_view() == old(self).capacity_view(),
    {
        self.selection = None;
        let mut columns: Vec<Column> = Vec::new();
        std::mem::swap(&mut columns, &mut self.columns);
        columns
    }

    /// The number of columns.
    pub fn get_count(&self) -> (r: usize)
        ensures
            r == self.columns_view().len(),
    {
        self.columns.len()
    }

    pub fn selection(&self) -> (r: Option<usize>)
        ensures
            r == self.selection_view(),
    {
        self.selection
    }

    pub fn capacity(&self) -> (r: usize)
        ensures
            r == self.capacity_view(),
    {
        self.capacity
    }

    /// Each column with whether it is the selected one.
    pub fn iter(&self) -> (r: Vec<(Column, bool)>)
        ensures
            r@.len() == self.columns_view().len(),
            forall|i: int|
                0 <= i < r@.len() ==> (#[trigger] r@[i]).0 == self.columns_view()[i] && r@[i].1 == (
                self.selection_view() == Some(i as usize)),
    {
        let mut out: Vec<(Column, bool)> = Vec::new();
        let mut i: usize = 0;
        while i < self.columns.len()
            invariant
                i <= self.columns@.len(),
                out@.len() == i,
                forall|j: int|
                    0 <= j < i ==> (#[trigger] out@[j]).0 == self.columns@[j] && out@[j].1 == (
                    self.selection == Some(j as usize)),
            decreases self.columns@.len() - i,
        {
            let selected = match self.selection {
                Some(s) => s == i,
                None => false,
            };
            out.push((self.columns[i], selected));
            i = i + 1;
        }
        out
    }

    /// A layout of `columns` as read from the configuration, with the
    /// default capacity and the first column selected.
    pub fn from_columns(columns: Vec<Column>) -> (r: Self)
        ensures
            r.columns_view() == columns@,
            r.capacity_view() == COLUMNS_CAPACITY,
            r.selection_view() == if columns@.len() == 0 {
                None
            } else {
                Some(0usize)
            },
    {
        let selection = if columns.len() == 0 {
            None
        } else {
            Some(0)
        };
        Columns { columns, capacity: COLUMNS_CAPACITY, selection }
    }
}

/// Clamps `sel` to `count` columns.
fn clamped(count: usize, sel: Option<usize>) -> (r: Option<usize>)
    ensures
        r == clamp_to(count as nat, sel),
{
    if count == 0 {
        None
    } else {
        match sel {
            Some(selection) if selection < count => Some(selection),
            Some(_) => Some(count - 1),
            None => Some(0),
        }
    }
}

impl Default for Columns {
    fn default() -> (r: Self)
        ensures
            r.columns_view() == seq![
                Column { id: ColumnID::PID },
                Column { id: ColumnID::Name },
                Column { id: ColumnID::CPU(CPUUnitOptions::Avg) },
                Column { id: ColumnID::Mem(MemUnitOptions::B) },
            ],
            r.capacity_view() == COLUMNS_CAPACITY,
            r.selection_view() == Some(0usize),
    {
        let columns = vec![
            Column::from_id(ColumnID::PID),
            Column::from_id(ColumnID::Name),
            Column::from_id(ColumnID::CPU(CPUUnitOptions::Avg)),
            Column::from_id(ColumnID::Mem(MemUnitOptions::B)),
        ];
        Columns::from_columns(columns)
    }
}

} // verus!
