//! One-dimensional scrolling: the first element of a window of `count`
//! elements that keeps a cursor in view.

use vstd::prelude::*;

verus! {

/// The start of the window after `calc_start`: a shrinking window first moves
/// its start back by as much as it shrank (not below zero), then the start
/// moves just far enough to bring the cursor into view.
pub open spec fn next_start(start: usize, old_count: usize, count: usize, cursor: usize) -> usize {
    if count == 0 {
        0
    } else {
        let s = if old_count > count {
            if start >= old_count - count {
                (start - (old_count - count)) as usize
            } else {
                0
            }
        } else {
            start
        };
        if cursor < s {
            cursor
        } else if cursor - s > count - 1 {
            (cursor - (count - 1)) as usize
        } else {
            s
        }
    }
}

/// The state of a scrolled window.
#[derive(Debug, Default, Clone, Copy)]
pub struct Scroll {
    start: usize,
    count: usize,
    cursor: usize,
}

impl Scroll {
    /// The first element in view.
    pub closed spec fn view_start(&self) -> usize {
        self.start
    }

    /// The length of the window.
    pub closed spec fn view_count(&self) -> usize {
        self.count
    }

    /// The cursor last given.
    pub closed spec fn view_cursor(&self) -> usize {
        self.cursor
    }

    /// A window at the start, of no length, with the cursor at zero.
    pub fn new() -> (r: Self)
        ensures
            r.view_start() == 0,
            r.view_count() == 0,
            r.view_cursor() == 0,
    {
        Scroll { start: 0, count: 0, cursor: 0 }
    }

    /// Moves the window of `count` elements so that `cursor` is in view and
    /// returns its start. Whether the cursor indexes real data is left to
    /// the caller; with a window of length zero the start is zero.
    pub fn calc_start(&mut self, count: usize, cursor: usize) -> (r: usize)
        ensures
            r == next_start(old(self).view_start(), old(self).view_count(), count, cursor),
            final(self).view_start() == r,
            final(self).view_count() == count,
            final(self).view_cursor() == cursor,
            count > 0 ==> r <= cursor && cursor < r + count,
    {
        if count == 0 {
            self.count = 0;
            self.start = 0;
            self.cursor = cursor;
            return 0;
        }
        // If the window got smaller, move its start back by the difference.
        if self.count > count {
            self.start = self.start.saturating_sub(self.count - count);
        }
        // Keep the cursor within start..start + count.
        if cursor < self.start {
            self.start = cursor;
        } else if cursor - self.start > count - 1 {
            self.start = cursor - (count - 1);
        }
        self.count = count;
        self.cursor = cursor;
        self.start
    }
}

} // verus!
