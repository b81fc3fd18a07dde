//! Errors of the library.

use vstd::prelude::*;
use crate::text::{decimal, push_decimal, push_str, string_push};

verus! {

/// Errors of the process table library.
#[derive(Debug)]
pub enum Error {
    ParsingError(ParseError),
    LexingError(LexError),
    ColumnsError(ColumnError),
    BufferError(BufError),
    ProcessStatsError,
    DeserializeError,
    SerializeError,
}

/// Errors of the filter parser.
#[derive(Debug, Clone, PartialEq)]
pub enum ParseError {
    UnknownField(String),
    ExpectedField,
    ExpectedOperator,
    ExpectedNumber,
    ExpectedRParen,
    ExpectedLParen,
    UnexpectedToken,
}

/// Errors of the filter lexer.
#[derive(Debug, Clone, Copy, PartialEq)]
pub enum LexError {
    UnexpectedChar(char),
}

/// Errors of the column layout.
#[derive(Debug, Clone, Copy, PartialEq)]
pub enum ColumnError {
    BadSelection(usize),
    BadCapacity(usize),
}

/// Errors of the ASCII input buffer.
#[derive(Debug, Clone, PartialEq)]
pub enum BufError {
    InsertPositionOutOfBounds(usize),
    NonAsciiInsertCh(char),
    NonAsciiInsertStr(String),
    InsertPositionNotOnCharBoundary(usize),
    RemovePositionOutOfBounds(usize),
    RemovePositionNotOnCharBoundary(usize),
    BadCapacity(usize),
}

impl From<ParseError> for Error {
    fn from(err: ParseError) -> Self {
        Error::ParsingError(err)
    }
}

impl vstd::std_specs::convert::FromSpecImpl<ParseError> for Error {
    open spec fn obeys_from_spec() -> bool {
        true
    }

    open spec fn from_spec(v: ParseError) -> Self {
        Error::ParsingError(v)
    }
}

impl From<LexError> for Error {
    fn from(err: LexError) -> Self {
        Error::LexingError(err)
    }
}

impl vstd::std_specs::convert::FromSpecImpl<LexError> for Error {
    open spec fn obeys_from_spec() -> bool {
        true
    }

    open spec fn from_spec(v: LexError) -> Self {
        Error::LexingError(v)
    }
}

impl From<ColumnError> for Error {
    fn from(err: ColumnError) -> Self {
        Error::ColumnsError(err)
    }
}

impl vstd::std_specs::convert::FromSpecImpl<ColumnError> for Error {
    open spec fn obeys_from_spec() -> bool {
        true
    }

    open spec fn from_spec(v: ColumnError) -> Self {
        Error::ColumnsError(v)
    }
}

impl From<BufError> for Error {
    fn from(err: BufError) -> Self {
        Error::BufferError(err)
    }
}

impl vstd::std_specs::convert::FromSpecImpl<BufError> for Error {
    open spec fn obeys_from_spec() -> bool {
        true
    }

    open spec fn from_spec(v: BufError) -> Self {
        Error::BufferError(v)
    }
}


/// The text of a parse error.
pub open spec fn parse_error_text(e: ParseError) -> Seq<char> {
    match e {
        ParseError::UnknownField(s) => "Unknown field: "@ + s@,
        ParseError::ExpectedField => "Expected field"@,
        ParseError::ExpectedOperator => "Expected operator"@,
        ParseError::ExpectedNumber => "Expected number"@,
        ParseError::ExpectedRParen => "Expected right parent"@,
        ParseError::ExpectedLParen => "Expected left parent"@,
        ParseError::UnexpectedToken => "UnexpectedToken"@,
    }
}

/// The text of a lexing error.
pub open spec fn lex_error_text(e: LexError) -> Seq<char> {
    match e {
        LexError::UnexpectedChar(c) => "Unexpected char: "@.push(c),
    }
}

/// The text of a column error.
pub open spec fn column_error_text(e: ColumnError) -> Seq<char> {
    match e {
        ColumnError::BadSelection(n) => "Bad visual selection: "@ + decimal(n as nat),
        ColumnError::BadCapacity(n) => "Bad capacity: "@ + decimal(n as nat),
    }
}

/// The text of a buffer error.
pub open spec fn buf_error_text(e: BufError) -> Seq<char> {
    match e {
        BufError::InsertPositionOutOfBounds(n) => "Bad insert position: "@ + decimal(n as nat),
        BufError::NonAsciiInsertCh(c) => "Non ascii char insert: "@.push(c),
        BufError::NonAsciiInsertStr(s) => "Non ascii string insert: "@ + s@,
        BufError::InsertPositionNotOnCharBoundary(n) => "Insert position not on char boundary: "@
            + decimal(n as nat),
        BufError::RemovePositionOutOfBounds(n) => "Remove position out of bounds: "@ + decimal(
            n as nat,
        ),
        BufError::RemovePositionNotOnCharBoundary(n) => "Remove position not on char boundary: "@
            + decimal(n as nat),
        BufError::BadCapacity(n) => "Bad capacity value: "@ + decimal(n as nat),
    }
}

/// The text of an error of the library.
pub open spec fn error_text(e: Error) -> Seq<char> {
    match e {
        Error::ParsingError(p) => "Parse Error: "@ + parse_error_text(p),
        Error::LexingError(l) => "Lex Error: "@ + lex_error_text(l),
        Error::ColumnsError(c) => "Colum Error: "@ + column_error_text(c),
        Error::BufferError(b) => "Buffer Error: "@ + buf_error_text(b),
        Error::ProcessStatsError => "Process Stats Error"@,
        Error::DeserializeError => "Deserialize Error"@,
        Error::SerializeError => "SerializeError"@,
    }
}

impl ParseError {
    /// Appends the text of this error.
    pub fn write_to(&self, s: &mut String)
        ensures
            final(s)@ == old(s)@ + parse_error_text(*self),
    {
        match self {
            ParseError::UnknownField(f) => {
                push_str(s, "Unknown field: ");
                push_str(s, f.as_str());
                proof {
                    assert(old(s)@ + "Unknown field: "@ + f@ =~= old(s)@ + ("Unknown field: "@ + f@));
                }
            },
            ParseError::ExpectedField => push_str(s, "Expected field"),
            ParseError::ExpectedOperator => push_str(s, "Expected operator"),
            ParseError::ExpectedNumber => push_str(s, "Expected number"),
            ParseError::ExpectedRParen => push_str(s, "Expected right parent"),
            ParseError::ExpectedLParen => push_str(s, "Expected left parent"),
            ParseError::UnexpectedToken => push_str(s, "UnexpectedToken"),
        }
    }

    /// The text of this error.
    pub fn message(&self) -> (r: String)
        ensures
            r@ == parse_error_text(*self),
    {
        let mut s = String::new();
        self.write_to(&mut s);
        proof {
            assert(Seq::<char>::empty() + parse_error_text(*self) =~= parse_error_text(*self));
        }
        s
    }
}

impl LexError {
    /// Appends the text of this error.
    pub fn write_to(&self, s: &mut String)
        ensures
            final(s)@ == old(s)@ + lex_error_text(*self),
    {
        match self {
            LexError::UnexpectedChar(c) => {
                push_str(s, "Unexpected char: ");
                string_push(s, *c);
                proof {
                    assert(old(s)@ + "Unexpected char: "@.push(*c) =~= (old(s)@
                        + "Unexpected char: "@).push(*c));
                }
            },
        }
    }

    /// The text of this error.
    pub fn message(&self) -> (r: String)
        ensures
            r@ == lex_error_text(*self),
    {
        let mut s = String::new();
        self.write_to(&mut s);
        proof {
            assert(Seq::<char>::empty() + lex_error_text(*self) =~= lex_error_text(*self));
        }
        s
    }
}

impl ColumnError {
    /// Appends the text of this error.
    pub fn write_to(&self, s: &mut String)
        ensures
            final(s)@ == old(s)@ + column_error_text(*self),
    {
        match self {
            ColumnError::BadSelection(n) => {
                push_str(s, "Bad visual selection: ");
                push_decimal(s, *n);
                proof {
                    assert(old(s)@ + "Bad visual selection: "@ + decimal(*n as nat) =~= old(s)@ + (
                    "Bad visual selection: "@ + decimal(*n as nat)));
                }
            },
            ColumnError::BadCapacity(n) => {
                push_str(s, "Bad capacity: ");
                push_decimal(s, *n);
                proof {
                    assert(old(s)@ + "Bad capacity: "@ + decimal(*n as nat) =~= old(s)@ + (
                    "Bad capacity: "@ + decimal(*n as nat)));
                }
            },
        }
    }

    /// The text of this error.
    pub fn message(&self) -> (r: String)
        ensures
            r@ == column_error_text(*self),
    {
        let mut s = String::new();
        self.write_to(&mut s);
        proof {
            assert(Seq::<char>::empty() + column_error_text(*self) =~= column_error_text(*self));
        }
        s
    }
}

/// Appends `label` and the decimal digits of `n`.
fn push_labelled_number(s: &mut String, label: &str, n: usize)
    ensures
        final(s)@ == old(s)@ + (label@ + decimal(n as nat)),
{
    push_str(s, label);
    push_decimal(s, n);
    proof {
        assert(old(s)@ + label@ + decimal(n as nat) =~= old(s)@ + (label@ + decimal(n as nat)));
    }
}

impl BufError {
    /// Appends the text of this error.
    pub fn write_to(&self, s: &mut String)
        ensures
            final(s)@ == old(s)@ + buf_error_text(*self),
    {
        match self {
            BufError::InsertPositionOutOfBounds(n) => push_labelled_number(s, "Bad insert position: ", *n),
            BufError::NonAsciiInsertCh(c) => {
                push_str(s, "Non ascii char insert: ");
                string_push(s, *c);
                proof {
                    assert(old(s)@ + "Non ascii char insert: "@.push(*c) =~= (old(s)@
                        + "Non ascii char insert: "@).push(*c));
                }
            },
            BufError::NonAsciiInsertStr(t) => {
                push_str(s, "Non ascii string insert: ");
                push_str(s, t.as_str());
                proof {
                    assert(old(s)@ + "Non ascii string insert: "@ + t@ =~= old(s)@ + (
                    "Non ascii string insert: "@ + t@));
                }
            },
            BufError::InsertPositionNotOnCharBoundary(n) => push_labelled_number(
                s,
                "Insert position not on char boundary: ",
                *n,
            ),
            BufError::RemovePositionOutOfBounds(n) => push_labelled_number(
                s,
                "Remove position out of bounds: ",
                *n,
            ),
            BufError::RemovePositionNotOnCharBoundary(n) => push_labelled_number(
                s,
                "Remove position not on char boundary: ",
                *n,
            ),
            BufError::BadCapacity(n) => push_labelled_number(s, "Bad capacity value: ", *n),
        }
    }

    /// The text of this error.
    pub fn message(&self) -> (r: String)
        ensures
            r@ == buf_error_text(*self),
    {
        let mut s = String::new();
        self.write_to(&mut s);
        proof {
            assert(Seq::<char>::empty() + buf_error_text(*self) =~= buf_error_text(*self));
        }
        s
    }
}

impl Error {
    /// The text of this error.
    pub fn message(&self) -> (r: String)
        ensures
            r@ == error_text(*self),
    {
        let mut s = String::new();
        match self {
            Error::ParsingError(p) => {
                push_str(&mut s, "Parse Error: ");
                p.write_to(&mut s);
            },
            Error::LexingError(l) => {
                push_str(&mut s, "Lex Error: ");
                l.write_to(&mut s);
            },
            Error::ColumnsError(c) => {
                push_str(&mut s, "Colum Error: ");
                c.write_to(&mut s);
            },
            Error::BufferError(b) => {
                push_str(&mut s, "Buffer Error: ");
                b.write_to(&mut s);
            },
            Error::ProcessStatsError => push_str(&mut s, "Process Stats Error"),
            Error::DeserializeError => push_str(&mut s, "Deserialize Error"),
            Error::SerializeError => push_str(&mut s, "SerializeError"),
        }
        proof {
            assert(s@ =~= error_text(*self));
        }
        s
    }
}

} // verus!
