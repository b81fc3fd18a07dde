//! The order of two rows of the table component.

use vstd::prelude::*;
use std::cmp::Ordering;
use crate::row_order::{process_order, row_order};
use crate::rows::{row_model, sort_for, sort_of, Row, RowOrder};

verus! {

impl Row {
    /// The order of two rows in `order`.
    pub fn order(&self, other: &Self, order: &RowOrder) -> (r: Ordering)
        ensures
            r == row_order(sort_of(*order), row_model(*self), row_model(*other)),
    {
        let a = self.to_process();
        let b = other.to_process();
        process_order(&a, &b, &sort_for(order))
    }
}

} // verus!
