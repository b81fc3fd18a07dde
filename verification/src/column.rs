//! The column layout of the process table: which columns are shown, in
//! which order, and which one is selected.

use vstd::prelude::*;
use crate::error::Error;

verus! {

/// Supported memory formats.
#[derive(Debug, Default, Clone, Copy, PartialEq, Eq)]
pub enum MemoryUnitOptions {
    #[default]
    B,
    KB,
    MB,
    GB,
}

impl MemoryUnitOptions {
    pub fn as_str(&self) -> (r: &'static str)
        ensures
            r@ == match self {
                MemoryUnitOptions::B => "Mem B"@,
                MemoryUnitOptions::KB => "Mem KB"@,
                MemoryUnitOptions::MB => "Mem MB"@,
                MemoryUnitOptions::GB => "Mem GB"@,
            },
    {
        match self {
            Self::B => "Mem B",
            Self::KB => "Mem KB",
            Self::MB => "Mem MB",
            Self::GB => "Mem GB",
        }
    }
}

/// The next memory unit in the rotation B, KB, MB, GB, B.
pub open spec fn next_unit(u: MemoryUnitOptions) -> MemoryUnitOptions {
    match u {
        MemoryUnitOptions::B => MemoryUnitOptions::KB,
        MemoryUnitOptions::KB => MemoryUnitOptions::MB,
        MemoryUnitOptions::MB => MemoryUnitOptions::GB,
        MemoryUnitOptions::GB => MemoryUnitOptions::B,
    }
}

/// Supported column types.
#[derive(Debug, Clone, Copy, PartialEq, Eq)]
pub enum ColumnOptions {
    // Can be derived from `Process`
    Pid,
    CpuTotal,
    CpuAverage,
    Memory(MemoryUnitOptions),
    Name,
    // Can be derived from `ProcessStats`
    MeanCpuUsageOverLastMinute,
    MeanCpuUsageAsTotalOverLastMinute,
}

impl ColumnOptions {
    pub fn as_str(&self) -> (r: &'static str)
        ensures
            r@ == match self {
                ColumnOptions::Pid => "Pid"@,
                ColumnOptions::CpuTotal => "CpuT%"@,
                ColumnOptions::CpuAverage => "CpuA%"@,
                ColumnOptions::Memory(MemoryUnitOptions::B) => "Mem B"@,
                ColumnOptions::Memory(MemoryUnitOptions::KB) => "Mem KB"@,
                ColumnOptions::Memory(MemoryUnitOptions::MB) => "Mem MB"@,
                ColumnOptions::Memory(MemoryUnitOptions::GB) => "Mem GB"@,
                ColumnOptions::MeanCpuUsageAsTotalOverLastMinute => "CpuT%/60s"@,
                ColumnOptions::MeanCpuUsageOverLastMinute => "CpuA%/60s"@,
                ColumnOptions::Name => "Name"@,
            },
    {
        match self {
            Self::Pid => "Pid",
            Self::CpuTotal => "CpuT%",
            Self::CpuAverage => "CpuA%",
            Self::Memory(unit) => unit.as_str(),
            Self::MeanCpuUsageAsTotalOverLastMinute => "CpuT%/60s",
            Self::MeanCpuUsageOverLastMinute => "CpuA%/60s",
            Self::Name => "Name",
        }
    }
}

/// What `rotate_unit` makes of a column: a memory column moves to the next
/// unit, every other column stays.
pub open spec fn rotated(c: ColumnOptions) -> ColumnOptions {
    match c {
        ColumnOptions::Memory(u) => ColumnOptions::Memory(next_unit(u)),
        _ => c,
    }
}

/// The selection after `inc_selection` on `len` columns.
pub open spec fn selection_after_inc(len: nat, sel: Option<usize>) -> Option<usize> {
    if len == 0 {
        None
    } else {
        match sel {
            Some(i) => if i + 1 < len {
                Some((i + 1) as usize)
            } else {
                Some(0usize)
            },
            None => Some(0usize),
        }
    }
}

/// The selection after `dec_selection` on `len` columns.
pub open spec fn selection_after_dec(len: nat, sel: Option<usize>) -> Option<usize> {
    if len == 0 {
        None
    } else {
        match sel {
            Some(i) => if i > 0 {
                Some((i - 1) as usize)
            } else {
                Some((len - 1) as usize)
            },
            None => Some((len - 1) as usize),
        }
    }
}

/// With columns shown, moving the selection to the next column and back, or
/// to the previous column and forth, leaves the same column selected.
pub proof fn law_column_selection_inc_dec(len: nat, i: usize)
    requires
        i < len <= usize::MAX,
    ensures
        selection_after_dec(len, selection_after_inc(len, Some(i))) == Some(i),
        selection_after_inc(len, selection_after_dec(len, Some(i))) == Some(i),
{
}

/// The columns and selection after `remove_column`.
pub open spec fn after_remove(cols: Seq<ColumnOptions>, sel: Option<usize>) -> (Seq<ColumnOptions>, Option<usize>) {
    match sel {
        None => (cols, None),
        Some(s) => {
            let c = cols.remove(s as int);
            (
                c,
                if c.len() == 0 {
                    None
                } else if s >= c.len() {
                    Some((c.len() - 1) as usize)
                } else {
                    Some(s)
                },
            )
        },
    }
}

/// The columns and selection after `insert_column(col)` with capacity `cap`.
pub open spec fn after_insert(cols: Seq<ColumnOptions>, sel: Option<usize>, cap: usize, col: ColumnOptions) -> (
    Seq<ColumnOptions>,
    Option<usize>,
) {
    if cols.len() >= cap {
        (cols, sel)
    } else {
        match sel {
            Some(s) => (cols.insert(s as int, col), Some(s)),
            None => (cols.insert(0, col), Some(0usize)),
        }
    }
}

/// The columns after `rotate_unit`.
pub open spec fn after_rotate(cols: Seq<ColumnOptions>, sel: Option<usize>) -> Seq<ColumnOptions> {
    match sel {
        None => cols,
        Some(s) => cols.update(s as int, rotated(cols[s as int])),
    }
}

/// The maximum number of columns that `insert_column` fills up to.
pub const DEFAULT_MAX_CAPACITY: usize = 10;

/// A copy of a list of columns.
fn copy_columns(v: &Vec<ColumnOptions>) -> (r: Vec<ColumnOptions>)
    ensures
        r@ == v@,
{
    let mut r: Vec<ColumnOptions> = Vec::new();
    let mut i: usize = 0;
    while i < v.len()
        invariant
            i <= v@.len(),
            r@ == v@.take(i as int),
        decreases v@.len() - i,
    {
        r.push(v[i]);
        proof {
            assert(v@.take(i + 1) =~= v@.take(i as int).push(v@[i as int]));
        }
        i = i + 1;
    }
    proof {
        assert(v@.take(v@.len() as int) =~= v@);
    }
    r
}

/// Configuration structure that decouples persistence from runtime
/// architecture.
#[derive(Debug, Clone, PartialEq)]
pub struct ColumnsConfig {
    columns: Vec<ColumnOptions>,
}

impl ColumnsConfig {
    pub closed spec fn view_columns(&self) -> Seq<ColumnOptions> {
        self.columns@
    }

    /// A configuration that shows `columns`.
    pub fn new(columns: Vec<ColumnOptions>) -> (r: Self)
        ensures
            r.view_columns() == columns@,
    {
        ColumnsConfig { columns }
    }

    /// The configured columns.
    pub fn columns(&self) -> (r: &Vec<ColumnOptions>)
        ensures
            r@ == self.view_columns(),
    {
        &self.columns
    }
}

impl<'a> From<&'a Columns> for ColumnsConfig {
    fn from(columns: &'a Columns) -> (r: Self) {
        ColumnsConfig { columns: copy_columns(&columns.columns) }
    }
}

impl<'a> vstd::std_specs::convert::FromSpecImpl<&'a Columns> for ColumnsConfig {
    open spec fn obeys_from_spec() -> bool {
        false
    }

    open spec fn from_spec(v: &'a Columns) -> Self {
        arbitrary()
    }
}

/// Manages selection, insertion, and deletion into a vector of columns.
#[derive(Debug)]
pub struct Columns {
    columns: Vec<ColumnOptions>,
    selection: Option<usize>,
    capacity: usize,
}

/// The default layout: pid, average CPU, mean average CPU over a minute,
/// memory in bytes and name.
pub open spec fn default_column_list() -> Seq<ColumnOptions> {
    seq![
        ColumnOptions::Pid,
        ColumnOptions::CpuAverage,
        ColumnOptions::MeanCpuUsageOverLastMinute,
        ColumnOptions::Memory(MemoryUnitOptions::B),
        ColumnOptions::Name,
    ]
}

impl Columns {
    /// The selection is absent or names a column.
    #[verifier::type_invariant]
    spec fn inv(&self) -> bool {
        self.selection matches Some(i) ==> i < self.columns@.len()
    }

    /// The columns shown, in order.
    pub closed spec fn view_columns(&self) -> Seq<ColumnOptions> {
        self.columns@
    }

    /// The selected column's index.
    pub closed spec fn view_selection(&self) -> Option<usize> {
        self.selection
    }

    /// The capacity that `insert_column` fills up to.
    pub closed spec fn view_capacity(&self) -> usize {
        self.capacity
    }

    /// The selection is absent or names one of the columns; every operation
    /// keeps this.
    pub open spec fn selection_valid(&self) -> bool {
        self.view_selection() matches Some(i) ==> i < self.view_columns().len()
    }

    /// The layout of `config`, with nothing selected.
    pub fn try_from_config(config: &ColumnsConfig) -> (r: Result<Self, Error>)
        ensures
            r matches Ok(c) && c.view_columns() == config.view_columns() && c.view_selection()
                is None && c.view_capacity() == DEFAULT_MAX_CAPACITY,
    {
        Ok(Columns {
            columns: copy_columns(&config.columns),
            selection: None,
            capacity: DEFAULT_MAX_CAPACITY,
        })
    }

    /// The default layout: pid, average CPU, mean average CPU over a
    /// minute, memory in bytes and name, nothing selected.
    pub fn default_columns() -> (r: Self)
        ensures
            r.view_columns() == seq![
                ColumnOptions::Pid,
                ColumnOptions::CpuAverage,
                ColumnOptions::MeanCpuUsageOverLastMinute,
                ColumnOptions::Memory(MemoryUnitOptions::B),
                ColumnOptions::Name,
            ],
            r.view_selection() is None,
            r.view_capacity() == DEFAULT_MAX_CAPACITY,
            r.selection_valid(),
    {
        let columns = vec![
            ColumnOptions::Pid,
            ColumnOptions::CpuAverage,
            ColumnOptions::MeanCpuUsageOverLastMinute,
            ColumnOptions::Memory(MemoryUnitOptions::B),
            ColumnOptions::Name,
        ];
        Columns { columns, selection: None, capacity: DEFAULT_MAX_CAPACITY }
    }

    /// Creates an empty Columns structure.
    pub fn new_empty() -> (r: Self)
        ensures
            r.view_columns() == Seq::<ColumnOptions>::empty(),
            r.view_selection() is None,
            r.view_capacity() == DEFAULT_MAX_CAPACITY,
            r.selection_valid(),
    {
        Columns {
            columns: Vec::with_capacity(DEFAULT_MAX_CAPACITY),
            selection: None,
            capacity: DEFAULT_MAX_CAPACITY,
        }
    }

    /// Advances the selection to the next column, wrapping around after the
    /// last; with no columns there is no selection, and with none selected
    /// the first column is.
    pub fn inc_selection(&mut self)
        ensures
            final(self).selection_valid(),
            final(self).view_columns() == old(self).view_columns(),
            final(self).view_capacity() == old(self).view_capacity(),
            final(self).view_selection() == if old(self).view_columns().len() == 0 {
                None
            } else {
                match old(self).view_selection() {
                    Some(i) => if i + 1 < old(self).view_columns().len() {
                        Some((i + 1) as usize)
                    } else {
                        Some(0usize)
                    },
                    None => Some(0usize),
                }
            },
    {
        proof {
            use_type_invariant(&*self);
        }
        let len = self.count_columns();
        if len == 0 {
            self.selection = None;
            return ;
        }
        self.selection = Some(
            match self.selection {
                Some(i) if i + 1 < len => i + 1,
                Some(_) | None => 0,
            },
        );
    }

    /// Moves the selection to the previous column, wrapping around before
    /// the first; with no columns there is no selection, and with none
    /// selected the last column is.
    pub fn dec_selection(&mut self)
        ensures
            final(self).selection_valid(),
            final(self).view_columns() == old(self).view_columns(),
            final(self).view_capacity() == old(self).view_capacity(),
            final(self).view_selection() == if old(self).view_columns().len() == 0 {
                None
            } else {
                match old(self).view_selection() {
                    Some(i) => if i > 0 {
                        Some((i - 1) as usize)
                    } else {
                        Some((old(self).view_columns().len() - 1) as usize)
                    },
                    None => Some((old(self).view_columns().len() - 1) as usize),
                }
            },
    {
        proof {
            use_type_invariant(&*self);
        }
        let len = self.count_columns();
        if len == 0 {
            self.selection = None;
            return ;
        }
        self.selection = Some(
            match self.selection {
                Some(i) if i > 0 => i - 1,
                _ => len - 1,
            },
        );
    }

    /// Sets the selection to None.
    pub fn deselect(&mut self)
        ensures
            final(self).selection_valid(),
            final(self).view_columns() == old(self).view_columns(),
            final(self).view_capacity() == old(self).view_capacity(),
            final(self).view_selection() is None,
    {
        self.selection = None
    }

    /// Gets the selection.
    pub fn selection(&self) -> (r: Option<usize>)
        ensures
            r == self.view_selection(),
    {
        self.selection
    }

    /// Removes the selected column; nothing happens when none is selected.
    /// When the last column goes the selection goes too, and a selection
    /// past the end moves back to the new last column.
    pub fn remove_column(&mut self)
        ensures
            final(self).selection_valid(),
            final(self).view_capacity() == old(self).view_capacity(),
            old(self).view_selection() is None ==> final(self).view_columns() == old(
                self,
            ).view_columns() && final(self).view_selection() is None,
            old(self).view_selection() matches Some(s) ==> {
                let cols = old(self).view_columns().remove(s as int);
                &&& final(self).view_columns() == cols
                &&& final(self).view_selection() == if cols.len() == 0 {
                    None
                } else if s >= cols.len() {
                    Some((cols.len() - 1) as usize)
                } else {
                    Some(s)
                }
            },
    {
        proof {
            use_type_invariant(&*self);
        }
        let selection = match self.selection {
            Some(s) => s,
            None => return ,
        };
        self.selection = None;
        let mut columns: Vec<ColumnOptions> = Vec::new();
        std::mem::swap(&mut columns, &mut self.columns);
        columns.remove(selection);
        let new_selection = if columns.len() == 0 {
            None
        } else if selection >= columns.len() {
            Some(columns.len() - 1)
        } else {
            Some(selection)
        };
        *self = Columns { columns, selection: new_selection, capacity: self.capacity };
    }

    /// Inserts a column while fewer than `capacity` are shown: at the
    /// selection, or at the front (then selected) when none is selected.
    pub fn insert_column(&mut self, col: ColumnOptions)
        ensures
            final(self).selection_valid(),
            final(self).view_capacity() == old(self).view_capacity(),
            old(self).view_columns().len() >= old(self).view_capacity() ==> final(self).view_columns()
                == old(self).view_columns() && final(self).view_selection() == old(
                self,
            ).view_selection(),
            old(self).view_columns().len() < old(self).view_capacity() ==> match old(
                self,
            ).view_selection() {
                Some(s) => final(self).view_columns() == old(self).view_columns().insert(
                    s as int,
                    col,
                ) && final(self).view_selection() == Some(s),
                None => final(self).view_columns() == old(self).view_columns().insert(0, col)
                    && final(self).view_selection() == Some(0usize),
            },
    {
        proof {
            use_type_invariant(&*self);
        }
        if self.columns.len() < self.capacity {
            let selection = self.selection;
            self.selection = None;
            let mut columns: Vec<ColumnOptions> = Vec::new();
            std::mem::swap(&mut columns, &mut self.columns);
            let new_selection = match selection {
                Some(s) => {
                    columns.insert(s, col);
                    Some(s)
                },
                None => {
                    columns.insert(0, col);
                    Some(0)
                },
            };
            *self = Columns { columns, selection: new_selection, capacity: self.capacity };
        }
    }

    /// Rotates the unit of the selected column when it shows memory.
    pub fn rotate_unit(&mut self)
        ensures
            final(self).selection_valid(),
            final(self).view_capacity() == old(self).view_capacity(),
            final(self).view_selection() == old(self).view_selection(),
            old(self).view_selection() is None ==> final(self).view_columns() == old(
                self,
            ).view_columns(),
            old(self).view_selection() matches Some(s) ==> final(self).view_columns() == old(
                self,
            ).view_columns().update(s as int, rotated(old(self).view_columns()[s as int])),
    {
        proof {
            use_type_invariant(&*self);
        }
        let selection = match self.selection {
            Some(s) => s,
            None => return ,
        };
        let new_column = match self.columns[selection] {
            ColumnOptions::Memory(MemoryUnitOptions::B) => ColumnOptions::Memory(
                MemoryUnitOptions::KB,
            ),
            ColumnOptions::Memory(MemoryUnitOptions::KB) => ColumnOptions::Memory(
                MemoryUnitOptions::MB,
            ),
            ColumnOptions::Memory(MemoryUnitOptions::MB) => ColumnOptions::Memory(
                MemoryUnitOptions::GB,
            ),
            ColumnOptions::Memory(MemoryUnitOptions::GB) => ColumnOptions::Memory(
                MemoryUnitOptions::B,
            ),
            _ => {
                proof {
                    assert(self.columns@.update(selection as int, self.columns@[selection as int])
                        =~= self.columns@);
                }
                return ;
            },
        };
        let sel = self.selection;
        self.selection = None;
        let mut columns: Vec<ColumnOptions> = Vec::new();
        std::mem::swap(&mut columns, &mut self.columns);
        columns.set(selection, new_column);
        *self = Columns { columns, selection: sel, capacity: self.capacity };
    }

    /// The selected column, if any.
    pub fn get_column(&self) -> (r: Option<&ColumnOptions>)
        ensures
            self.view_selection() is None ==> r is None,
            self.view_selection() matches Some(s) ==> r is Some && *r->0
                == self.view_columns()[s as int],
    {
        proof {
            use_type_invariant(self);
        }
        if let Some(selection) = self.selection {
            Some(&self.columns[selection])
        } else {
            None
        }
    }

    /// Wrapper over `self.columns.len()`
    fn count_columns(&self) -> (r: usize)
        ensures
            r == self.view_columns().len(),
    {
        self.columns.len()
    }

    /// The number of columns shown.
    pub fn len(&self) -> (r: usize)
        ensures
            r == self.view_columns().len(),
    {
        self.columns.len()
    }

    /// The columns shown, in order.
    pub fn columns(&self) -> (r: &Vec<ColumnOptions>)
        ensures
            r@ == self.view_columns(),
    {
        &self.columns
    }
}

impl Clone for Columns {
    fn clone(&self) -> (r: Self)
        ensures
            r.view_columns() == self.view_columns(),
            r.view_selection() == self.view_selection(),
            r.view_capacity() == self.view_capacity(),
            r.selection_valid(),
    {
        proof {
            use_type_invariant(self);
        }
        Columns {
            columns: copy_columns(&self.columns),
            selection: self.selection,
            capacity: self.capacity,
        }
    }
}

impl Default for Columns {
    fn default() -> (r: Self)
        ensures
            r.view_columns() == seq![
                ColumnOptions::Pid,
                ColumnOptions::CpuAverage,
                ColumnOptions::MeanCpuUsageOverLastMinute,
                ColumnOptions::Memory(MemoryUnitOptions::B),
                ColumnOptions::Name,
            ],
            r.view_selection() is None,
            r.view_capacity() == DEFAULT_MAX_CAPACITY,
            r.selection_valid(),
    {
        Columns::default_columns()
    }
}

} // verus!
