//! The layout of a drawn table: a header text and a width per column, the
//! size of the area and the scroll of the rows.

use vstd::prelude::*;
use crate::scroll::Scroll;

verus! {

/// The header text of the process id column.
pub const PID_HEADER: &'static str = "pid";

/// The header text of the name column.
pub const NAME_HEADER: &'static str = "name";

/// The header text of the CPU column.
pub const CPU_HEADER: &'static str = "cpu";

/// The header text of the memory column.
pub const MEM_HEADER: &'static str = "mem";

/// A column's header text and width.
#[derive(Debug, Clone, Copy)]
pub struct ColumnProp {
    pub header: &'static str,
    pub width: u16,
}

impl ColumnProp {
    /// A column with an empty header and no width.
    pub fn new() -> (r: Self)
        ensures
            r.header@ == ""@,
            r.width == 0,
    {
        ColumnProp { header: "", width: 0 }
    }

    /// This column with `header` as its header text.
    pub fn header(self, header: &'static str) -> (r: Self)
        ensures
            r.header == header,
            r.width == self.width,
    {
        ColumnProp { header, width: self.width }
    }

    /// This column with width `width`.
    pub fn width(self, width: u16) -> (r: Self)
        ensures
            r.header == self.header,
            r.width == width,
    {
        ColumnProp { header: self.header, width }
    }
}

/// The number of columns of a drawn table.
pub const TABLE_VIEW_COLUMNS: u16 = 4;

/// A drawn table: its columns, the size of its area and its scroll.
#[derive(Debug)]
pub struct TableView {
    pub headers: Vec<ColumnProp>,
    pub height: u16,
    pub width: u16,
    pub scroll: Scroll,
}

impl TableView {
    /// The default columns pid, name, cpu and mem, no size and the scroll
    /// at the start.
    pub fn new() -> (r: Self)
        ensures
            r.headers@.len() == 4,
            r.headers@[0].header@ == PID_HEADER@,
            r.headers@[1].header@ == NAME_HEADER@,
            r.headers@[2].header@ == CPU_HEADER@,
            r.headers@[3].header@ == MEM_HEADER@,
            forall|i: int| 0 <= i < 4 ==> r.headers@[i].width == 0,
            r.height == 0,
            r.width == 0,
    {
        let mut headers: Vec<ColumnProp> = Vec::new();
        headers.push(ColumnProp::new().header(PID_HEADER).width(0));
        headers.push(ColumnProp::new().header(NAME_HEADER).width(0));
        headers.push(ColumnProp::new().header(CPU_HEADER).width(0));
        headers.push(ColumnProp::new().header(MEM_HEADER).width(0));
        TableView { headers, height: 0, width: 0, scroll: Scroll::new() }
    }

    /// This table with height `height`.
    pub fn height(self, height: u16) -> (r: Self)
        ensures
            r.height == height,
            r.width == self.width,
            r.headers == self.headers,
    {
        TableView { headers: self.headers, height, width: self.width, scroll: self.scroll }
    }

    /// This table with width `width`.
    pub fn width(self, width: u16) -> (r: Self)
        ensures
            r.width == width,
            r.height == self.height,
            r.headers == self.headers,
    {
        TableView { headers: self.headers, height: self.height, width, scroll: self.scroll }
    }

    /// Takes the size of the area to draw in: when the width changed each
    /// column gets an equal share of it. Returns the number of rows under
    /// the header and the first row to draw: the scroll's next start for
    /// `selection`, which keeps it in view.
    pub fn layout(&mut self, width: u16, height: u16, selection: Option<usize>) -> (r: (u16, usize))
        ensures
            final(self).width == width,
            final(self).height == height,
            r.0 == (if height == 0 {
                0
            } else {
                height - 1
            }),
            selection is None ==> r.1 == 0 && final(self).scroll == old(self).scroll,
            match selection {
                Some(s) => {
                    &&& r.1 == crate::scroll::next_start(
                        old(self).scroll.view_start(),
                        old(self).scroll.view_count(),
                        r.0 as usize,
                        s,
                    )
                    &&& final(self).scroll.view_start() == r.1
                    &&& final(self).scroll.view_count() == r.0
                    &&& (r.0 > 0 ==> r.1 <= s < r.1 + r.0)
                },
                None => true,
            },
            old(self).width != width ==> final(self).headers@.len() == old(self).headers@.len()
                && forall|i: int|
                0 <= i < final(self).headers@.len() ==> final(self).headers@[i].width == width / 4
                    && final(self).headers@[i].header == old(self).headers@[i].header,
            old(self).width == width ==> final(self).headers == old(self).headers,
    {
        if self.width != width {
            self.width = width;
            let column_width = width / TABLE_VIEW_COLUMNS;
            let mut headers: Vec<ColumnProp> = Vec::new();
            let mut i: usize = 0;
            while i < self.headers.len()
                invariant
                    i <= self.headers@.len(),
                    headers@.len() == i,
                    column_width == width / 4,
                    forall|j: int|
                        0 <= j < i ==> (#[trigger] headers@[j]).width == column_width && headers@[j].header
                            == self.headers@[j].header,
                decreases self.headers@.len() - i,
            {
                headers.push(self.headers[i].width(column_width));
                i = i + 1;
            }
            self.headers = headers;
        }
        if self.height != height {
            self.height = height;
        }
        // The header takes one line.
        let row_count = self.height.saturating_sub(1);
        let start = if let Some(selection) = selection {
            self.scroll.calc_start(row_count as usize, selection)
        } else {
            0
        };
        (row_count, start)
    }
}

} // verus!
