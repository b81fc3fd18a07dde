//! The state of a process table view: the filter being typed and the filter
//! it reads as, the columns, the selected row, the scroll and the sort.

use vstd::prelude::*;
use crate::buffer::AsciiString;
use crate::buffer::DEFAULT_MAX_CAPACITY;
use crate::column::{default_column_list, ColumnOptions, Columns};
use crate::error::Error;
use crate::lexer::{lex, Lexer};
use crate::parser::{parse_tokens, ParseFailure, Parser, AST};
use crate::error::{error_text, lex_error_text, parse_error_text};
use crate::row_selection::VisualRowSelection;
use crate::scroll::Scroll;
use crate::sort::RowSort;

verus! {

/// What `update_filter_ast` makes of a filter text: the filter it reads as,
/// or the error of the lexer or of the parser.
pub open spec fn filter_outcome(text: Seq<char>, r: Result<(), Error>, filter: Option<AST>) -> bool {
    match lex(text) {
        Err(le) => r == Err::<(), Error>(Error::LexingError(le)) && filter is None,
        Ok(tokens) => match parse_tokens(tokens) {
            Err(pf) => (r matches Err(Error::ParsingError(pe)) && pe@ == pf) && filter is None,
            Ok(ast) => r is Ok && filter == Some(ast),
        },
    }
}

/// The filter that a text reads as, if it lexes and parses.
pub open spec fn filter_of(text: Seq<char>) -> Option<AST> {
    match lex(text) {
        Err(_) => None,
        Ok(tokens) => match parse_tokens(tokens) {
            Ok(ast) => Some(ast),
            Err(_) => None,
        },
    }
}

/// The text of a parse error given as a value.
pub open spec fn parse_failure_text(e: ParseFailure) -> Seq<char> {
    match e {
        ParseFailure::UnknownField(s) => "Unknown field: "@ + s,
        ParseFailure::ExpectedField => "Expected field"@,
        ParseFailure::ExpectedOperator => "Expected operator"@,
        ParseFailure::ExpectedNumber => "Expected number"@,
        ParseFailure::ExpectedRParen => "Expected right parent"@,
        ParseFailure::ExpectedLParen => "Expected left parent"@,
        ParseFailure::UnexpectedToken => "UnexpectedToken"@,
    }
}

/// The message of the error that reading a text as a filter gives, if any.
pub open spec fn filter_error_text(text: Seq<char>) -> Option<Seq<char>> {
    match lex(text) {
        Err(le) => Some("Lex Error: "@ + lex_error_text(le)),
        Ok(tokens) => match parse_tokens(tokens) {
            Ok(_) => None,
            Err(pf) => Some("Parse Error: "@ + parse_failure_text(pf)),
        },
    }
}

/// What `update_filter_ast` returned, told by its message.
pub open spec fn outcome_message(r: Result<(), Error>) -> Option<Seq<char>> {
    match r {
        Ok(_) => None,
        Err(e) => Some(error_text(e)),
    }
}

/// The outcome of reading a text as a filter fixes the filter and the
/// message of the error.
pub proof fn lemma_filter_outcome(text: Seq<char>, r: Result<(), Error>, filter: Option<AST>)
    requires
        filter_outcome(text, r, filter),
    ensures
        filter == filter_of(text),
        outcome_message(r) == filter_error_text(text),
{
    match lex(text) {
        Err(le) => {},
        Ok(tokens) => match parse_tokens(tokens) {
            Ok(ast) => {},
            Err(pf) => {
                if let Err(Error::ParsingError(pe)) = r {
                    assert(parse_error_text(pe) == parse_failure_text(pe@));
                }
            },
        },
    }
}

/// The state of a process table view, as values.
pub struct TableStateModel {
    pub filter_text: Seq<char>,
    pub filter_cursor: usize,
    pub filter_capacity: usize,
    pub filter: Option<AST>,
    pub columns: Seq<ColumnOptions>,
    pub column_selection: Option<usize>,
    pub column_capacity: usize,
    pub row_selection: Option<usize>,
    pub row_scroll: Scroll,
    pub row_sort: RowSort,
}

/// The state of a process table view.
#[derive(Debug)]
pub struct ProcessTableState {
    /// The filter text, with its own cursor
    filter_string: AsciiString,
    /// The filter that the text reads as
    filter: Option<AST>,
    /// Column layout, with its own selection
    columns: Columns,
    /// Row selection (index) in the table's visible rows
    row_selection: VisualRowSelection,
    /// Row offset of the visible window
    row_scroll: Scroll,
    /// Table row sort order
    row_sort: RowSort,
}

impl View for ProcessTableState {
    type V = TableStateModel;

    closed spec fn view(&self) -> TableStateModel {
        TableStateModel {
            filter_text: self.filter_string.text(),
            filter_cursor: self.filter_string.cursor_pos(),
            filter_capacity: self.filter_string.capacity_limit(),
            filter: self.filter,
            columns: self.columns.view_columns(),
            column_selection: self.columns.view_selection(),
            column_capacity: self.columns.view_capacity(),
            row_selection: self.row_selection.view_selection(),
            row_scroll: self.row_scroll,
            row_sort: self.row_sort,
        }
    }
}

impl ProcessTableState {
    /// A state of a filter text, columns and a sort, as they were stored:
    /// no filter yet (`update_filter_ast` reads one), no row selected and
    /// the scroll at the start.
    pub fn from_parts(filter_string: AsciiString, columns: Columns, row_sort: RowSort) -> (r: Self)
        ensures
            r@.filter_text == filter_string.text(),
            r@.filter_cursor == filter_string.cursor_pos(),
            r@.filter_capacity == filter_string.capacity_limit(),
            r@.filter is None,
            r@.columns == columns.view_columns(),
            r@.column_selection == columns.view_selection(),
            r@.column_capacity == columns.view_capacity(),
            r@.row_selection is None,
            r@.row_sort == row_sort,
    {
        ProcessTableState {
            filter_string,
            filter: None,
            columns,
            row_selection: VisualRowSelection::default(),
            row_scroll: Scroll::new(),
            row_sort,
        }
    }

    /// The filter text, to edit.
    pub fn mut_filter_string(&mut self) -> (r: &mut AsciiString)
        ensures
            r.text() == old(self)@.filter_text,
            r.cursor_pos() == old(self)@.filter_cursor,
            r.capacity_limit() == old(self)@.filter_capacity,
            final(self)@ == (TableStateModel {
                filter_text: final(r).text(),
                filter_cursor: final(r).cursor_pos(),
                filter_capacity: final(r).capacity_limit(),
                ..old(self)@
            }),
    {
        &mut self.filter_string
    }

    pub fn filter_string(&self) -> (r: &AsciiString)
        ensures
            r.text() == self@.filter_text,
            r.cursor_pos() == self@.filter_cursor,
            r.capacity_limit() == self@.filter_capacity,
    {
        &self.filter_string
    }

    /// Reads the filter text as a filter: on success the filter is the one
    /// the text reads as; when the text does not lex or parse, there is no
    /// filter and the error is returned.
    pub fn update_filter_ast(&mut self) -> (r: Result<(), Error>)
        ensures
            filter_outcome(old(self)@.filter_text, r, final(self)@.filter),
            final(self)@ == (TableStateModel { filter: final(self)@.filter, ..old(self)@ }),
    {
        // Lex
        let mut lexer = Lexer::default();
        let tokens = match lexer.process_line(self.filter_string.as_str()) {
            Ok(tokens) => tokens,
            Err(e) => {
                self.filter = None;
                return Err(Error::LexingError(e));
            },
        };
        // Parse
        let mut parser = Parser::new(tokens);
        match parser.parse() {
            Ok(ast) => {
                self.filter = Some(ast);
                Ok(())
            },
            Err(e) => {
                self.filter = None;
                Err(Error::ParsingError(e))
            },
        }
    }

    pub fn filter_ast(&self) -> (r: &Option<AST>)
        ensures
            *r == self@.filter,
    {
        &self.filter
    }

    /// The columns, to edit.
    pub fn mut_columns(&mut self) -> (r: &mut Columns)
        ensures
            r.view_columns() == old(self)@.columns,
            r.view_selection() == old(self)@.column_selection,
            r.view_capacity() == old(self)@.column_capacity,
            final(self)@ == (TableStateModel {
                columns: final(r).view_columns(),
                column_selection: final(r).view_selection(),
                column_capacity: final(r).view_capacity(),
                ..old(self)@
            }),
    {
        &mut self.columns
    }

    pub fn columns(&self) -> (r: &Columns)
        ensures
            r.view_columns() == self@.columns,
            r.view_selection() == self@.column_selection,
            r.view_capacity() == self@.column_capacity,
    {
        &self.columns
    }

    /// The row selection, to edit.
    pub fn mut_row_selection(&mut self) -> (r: &mut VisualRowSelection)
        ensures
            r.view_selection() == old(self)@.row_selection,
            final(self)@ == (TableStateModel {
                row_selection: final(r).view_selection(),
                ..old(self)@
            }),
    {
        &mut self.row_selection
    }

    pub fn row_selection(&self) -> (r: &VisualRowSelection)
        ensures
            r.view_selection() == self@.row_selection,
    {
        &self.row_selection
    }

    /// The row scroll, to edit.
    pub fn mut_row_scroll(&mut self) -> (r: &mut Scroll)
        ensures
            *r == old(self)@.row_scroll,
            final(self)@ == (TableStateModel { row_scroll: *final(r), ..old(self)@ }),
    {
        &mut self.row_scroll
    }

    pub fn row_scroll(&self) -> (r: &Scroll)
        ensures
            *r == self@.row_scroll,
    {
        &self.row_scroll
    }

    /// Sorts the rows by `sort`.
    pub fn row_sort_by(&mut self, sort: RowSort)
        ensures
            final(self)@ == (TableStateModel { row_sort: sort, ..old(self)@ }),
    {
        self.row_sort = sort;
    }

    pub fn row_sort(&self) -> (r: &RowSort)
        ensures
            *r == self@.row_sort,
    {
        &self.row_sort
    }
}

/// The state of a new view: no filter text and no filter, the default
/// columns with none selected, no row selected, the scroll at the start and
/// the rows sorted by CPU usage, highest first.
pub open spec fn default_table_state(m: TableStateModel) -> bool {
    &&& m.filter_text == Seq::<char>::empty()
    &&& m.filter_cursor == 0
    &&& m.filter_capacity == DEFAULT_MAX_CAPACITY
    &&& m.filter is None
    &&& m.columns == default_column_list()
    &&& m.column_selection is None
    &&& m.column_capacity == crate::column::DEFAULT_MAX_CAPACITY
    &&& m.row_selection is None
    &&& m.row_scroll.view_start() == 0 && m.row_scroll.view_count() == 0
        && m.row_scroll.view_cursor() == 0
    &&& m.row_sort == RowSort::CpuDec
}

impl Default for ProcessTableState {
    fn default() -> (r: Self)
        ensures
            default_table_state(r@),
    {
        ProcessTableState {
            filter_string: AsciiString::default(),
            filter: None,
            columns: Columns::default(),
            row_selection: VisualRowSelection::default(),
            row_scroll: Scroll::new(),
            row_sort: RowSort::default(),
        }
    }
}

impl Clone for ProcessTableState {
    fn clone(&self) -> (r: Self)
        ensures
            r@ == self@,
    {
        ProcessTableState {
            filter_string: self.filter_string.clone(),
            filter: match &self.filter {
                Some(a) => Some(a.clone()),
                None => None,
            },
            columns: self.columns.clone(),
            row_selection: self.row_selection.clone(),
            row_scroll: self.row_scroll,
            row_sort: self.row_sort,
        }
    }
}

} // verus!
