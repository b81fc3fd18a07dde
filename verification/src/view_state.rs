//! An earlier form of a table view's state: the filter being typed, the
//! filter it reads as, the columns, the scroll and the row and column
//! selections.

use vstd::prelude::*;
use crate::buffer::{insert_ch_step, insert_str_step, AsciiString};
use crate::column::Columns;
use crate::error::{BufError, Error};
use crate::lexer::Lexer;
use crate::parser::{Parser, AST};
use crate::row_selection::{clamp_selection, VisualRowSelection};
use crate::scroll::Scroll;
use crate::table_state::filter_outcome;
use crate::text::{all_ascii, is_ascii_char};

verus! {

/// The state of a table view.
#[derive(Debug, Default)]
pub struct ProcessTableViewState {
    filter_string: AsciiString,
    filter: Option<AST>,
    columns: Columns,
    row_scroll: Scroll,
    row_selection: VisualRowSelection,
    col_selection: VisualRowSelection,
}

impl ProcessTableViewState {
    pub closed spec fn filter_text(&self) -> Seq<char> {
        self.filter_string.text()
    }

    pub closed spec fn filter_cursor(&self) -> usize {
        self.filter_string.cursor_pos()
    }

    pub closed spec fn filter_capacity(&self) -> usize {
        self.filter_string.capacity_limit()
    }

    pub closed spec fn filter_view(&self) -> Option<AST> {
        self.filter
    }

    pub closed spec fn row_selection_view(&self) -> Option<usize> {
        self.row_selection.view_selection()
    }

    /// Inserts `ch` into the filter text at its cursor, while the text is
    /// shorter than its capacity; a non-ASCII character is refused with the
    /// buffer's error.
    pub fn insert_ch_filter_str(&mut self, ch: char) -> (r: Result<(), Error>)
        ensures
            !is_ascii_char(ch) ==> r == Err::<(), Error>(Error::BufferError(BufError::NonAsciiInsertCh(ch))),
            is_ascii_char(ch) ==> r is Ok,
            (final(self).filter_text(), final(self).filter_cursor()) == insert_ch_step(
                old(self).filter_text(),
                old(self).filter_cursor(),
                old(self).filter_capacity(),
                ch,
            ),
            final(self).filter_capacity() == old(self).filter_capacity(),
            final(self).filter_view() == old(self).filter_view(),
            final(self).row_selection_view() == old(self).row_selection_view(),
    {
        match self.filter_string.insert_ascii_ch(ch) {
            Ok(()) => Ok(()),
            Err(e) => Err(Error::BufferError(e)),
        }
    }

    /// Removes the character before the filter text's cursor.
    pub fn remove_ch_filter_str(&mut self) -> (r: Result<(), Error>)
        ensures
            r is Ok,
            old(self).filter_cursor() == 0 ==> final(self).filter_text() == old(self).filter_text(),
            old(self).filter_cursor() > 0 ==> final(self).filter_text() == old(self).filter_text().remove(
                old(self).filter_cursor() - 1,
            ),
            final(self).filter_view() == old(self).filter_view(),
            final(self).row_selection_view() == old(self).row_selection_view(),
    {
        self.filter_string.remove_ch();
        Ok(())
    }

    /// Inserts `s` into the filter text at its cursor, when the text with it
    /// fits the capacity; a non-ASCII text is refused with the buffer's error.
    pub fn insert_str_filter_str(&mut self, s: &str) -> (r: Result<(), Error>)
        ensures
            !all_ascii(s@) ==> (r matches Err(Error::BufferError(BufError::NonAsciiInsertStr(t))) && t@ == s@),
            all_ascii(s@) ==> r is Ok,
            (final(self).filter_text(), final(self).filter_cursor()) == insert_str_step(
                old(self).filter_text(),
                old(self).filter_cursor(),
                old(self).filter_capacity(),
                s@,
            ),
            final(self).filter_capacity() == old(self).filter_capacity(),
            final(self).filter_view() == old(self).filter_view(),
            final(self).row_selection_view() == old(self).row_selection_view(),
    {
        match self.filter_string.insert_ascii_str(s) {
            Ok(()) => Ok(()),
            Err(e) => Err(Error::BufferError(e)),
        }
    }

    /// Reads the filter text as a filter; without one when it does not lex
    /// or parse. The row selection is to be updated after.
    pub fn update_row_filter(&mut self) -> (r: Result<(), Error>)
        ensures
            filter_outcome(old(self).filter_text(), r, final(self).filter_view()),
            final(self).filter_text() == old(self).filter_text(),
            final(self).row_selection_view() == old(self).row_selection_view(),
    {
        // Lex
        let mut lexer = Lexer::default();
        let tokens = match lexer.process_line(self.filter_string.as_str()) {
            Ok(tokens) => tokens,
            Err(e) => {
                self.filter = None;
                return Err(Error::LexingError(e));
            },
        };
        // Parse
        let mut parser = Parser::new(tokens);
        match parser.parse() {
            Ok(ast) => {
                self.filter = Some(ast);
                Ok(())
            },
            Err(e) => {
                self.filter = None;
                Err(Error::ParsingError(e))
            },
        }
    }

    /// Clamps the row selection to `row_upper_bound` rows.
    pub fn update_row_selection(&mut self, row_upper_bound: usize)
        ensures
            final(self).row_selection_view() == clamp_selection(
                old(self).row_selection_view(),
                row_upper_bound,
            ),
            final(self).filter_view() == old(self).filter_view(),
            final(self).filter_text() == old(self).filter_text(),
    {
        self.row_selection.update_selection(row_upper_bound);
    }

    /// The selected row.
    pub fn visual_row_selection(&self) -> (r: Option<usize>)
        ensures
            r == self.row_selection_view(),
    {
        self.row_selection.selection()
    }

    /// Moves the row selection down by one, within `row_upper_bound` rows.
    pub fn inc_visual_row_selection(&mut self, row_upper_bound: usize)
        ensures
            final(self).row_selection_view() == clamp_selection(
                match old(self).row_selection_view() {
                    Some(i) => Some((i + 1) as usize),
                    None => None,
                },
                row_upper_bound,
            ),
            final(self).filter_view() == old(self).filter_view(),
            final(self).filter_text() == old(self).filter_text(),
    {
        self.row_selection.inc_selection(row_upper_bound);
    }

    /// Moves the row selection up by one, within `row_upper_bound` rows.
    pub fn dec_visual_row_selection(&mut self, row_upper_bound: usize)
        ensures
            final(self).row_selection_view() == clamp_selection(
                match old(self).row_selection_view() {
                    Some(i) => Some(if i == 0 { 0usize } else { (i - 1) as usize }),
                    None => None,
                },
                row_upper_bound,
            ),
            final(self).filter_view() == old(self).filter_view(),
            final(self).filter_text() == old(self).filter_text(),
    {
        self.row_selection.dec_selection(row_upper_bound);
    }

    pub fn filter_ast(&self) -> (r: &Option<AST>)
        ensures
            *r == self.filter_view(),
    {
        &self.filter
    }
}

} // verus!
