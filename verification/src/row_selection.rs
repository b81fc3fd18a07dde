//! The selected row among the visible rows of the process table.

use vstd::prelude::*;

verus! {

/// What the selection becomes once it is clamped to `upper_bound` rows.
pub open spec fn clamp_selection(selection: Option<usize>, upper_bound: usize) -> Option<usize> {
    if upper_bound == 0 {
        None
    } else {
        match selection {
            Some(i) => if i < upper_bound { Some(i) } else { Some((upper_bound - 1) as usize) },
            None => Some(0),
        }
    }
}

/// Clamps a selection to `upper_bound` rows: no rows means no selection, an
/// out-of-range selection moves to the last row and a missing selection
/// moves to the first row.
fn selection_invariant(selection: Option<usize>, upper_bound: usize) -> (r: Option<usize>)
    ensures
        r == clamp_selection(selection, upper_bound),
        r != Some(usize::MAX),
{
    if upper_bound == 0 {
        None
    } else {
        match selection {
            Some(visual_idx) if visual_idx < upper_bound => Some(visual_idx),
            Some(_) => Some(upper_bound - 1),
            None => Some(0),
        }
    }
}

/// A row selection in the visible rows of a table.
#[derive(Debug)]
pub struct VisualRowSelection {
    selection: Option<usize>,
}

impl VisualRowSelection {
    /// The selection is never the largest index, so moving it down by one
    /// cannot overflow.
    #[verifier::type_invariant]
    spec fn inv(&self) -> bool {
        self.selection != Some(usize::MAX)
    }

    pub closed spec fn view_selection(&self) -> Option<usize> {
        self.selection
    }

    /// Updates the selection by applying the clamping rule.
    pub fn update_selection(&mut self, upper_bound: usize)
        ensures
            final(self).view_selection() == clamp_selection(old(self).view_selection(), upper_bound),
    {
        *self = VisualRowSelection { selection: selection_invariant(self.selection, upper_bound) };
    }

    /// Moves the selection down by one row, within `upper_bound` rows.
    pub fn inc_selection(&mut self, upper_bound: usize)
        ensures
            final(self).view_selection() == clamp_selection(
                match old(self).view_selection() {
                    Some(i) => Some((i + 1) as usize),
                    None => None,
                },
                upper_bound,
            ),
    {
        proof {
            use_type_invariant(&*self);
        }
        let moved = match self.selection {
            Some(i) => Some(i + 1),
            None => None,
        };
        *self = VisualRowSelection { selection: selection_invariant(moved, upper_bound) };
    }

    /// Moves the selection up by one row, not above the first, within
    /// `upper_bound` rows.
    pub fn dec_selection(&mut self, upper_bound: usize)
        ensures
            final(self).view_selection() == clamp_selection(
                match old(self).view_selection() {
                    Some(i) => Some(if i == 0 { 0usize } else { (i - 1) as usize }),
                    None => None,
                },
                upper_bound,
            ),
    {
        let moved = match self.selection {
            Some(i) => Some(i.saturating_sub(1)),
            None => None,
        };
        *self = VisualRowSelection { selection: selection_invariant(moved, upper_bound) };
    }

    pub fn selection(&self) -> (r: Option<usize>)
        ensures
            r == self.view_selection(),
    {
        self.selection
    }
}

impl Default for VisualRowSelection {
    fn default() -> (r: Self)
        ensures
            r.view_selection() == None::<usize>,
    {
        VisualRowSelection { selection: None }
    }
}

impl Clone for VisualRowSelection {
    fn clone(&self) -> (r: Self)
        ensures
            r.view_selection() == self.view_selection(),
    {
        proof {
            use_type_invariant(self);
        }
        VisualRowSelection { selection: self.selection }
    }
}

/// A clamped selection lies within the rows: it is `None` exactly when there
/// are no rows.
pub proof fn lemma_selection_in_rows(selection: Option<usize>, upper_bound: usize)
    ensures
        clamp_selection(selection, upper_bound) is None <==> upper_bound == 0,
        clamp_selection(selection, upper_bound) matches Some(i) ==> i < upper_bound,
{
}

/// Clamping twice to the same number of rows changes nothing more.
pub proof fn lemma_clamp_idempotent(selection: Option<usize>, upper_bound: usize)
    ensures
        clamp_selection(clamp_selection(selection, upper_bound), upper_bound) == clamp_selection(
            selection,
            upper_bound,
        ),
{
}

} // verus!
