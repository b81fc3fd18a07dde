use process_monitor::error::{BufError, ColumnError, Error, LexError, ParseError};

#[test]
fn error_messages() {
    assert_eq!(Error::ProcessStatsError.message(), "Process Stats Error");
    assert_eq!(Error::DeserializeError.message(), "Deserialize Error");
    assert_eq!(Error::SerializeError.message(), "SerializeError");
    assert_eq!(
        Error::ParsingError(ParseError::UnknownField("foo".to_string())).message(),
        "Parse Error: Unknown field: foo"
    );
    assert_eq!(Error::LexingError(LexError::UnexpectedChar('!')).message(), "Lex Error: Unexpected char: !");
    assert_eq!(Error::ColumnsError(ColumnError::BadSelection(12)).message(), "Colum Error: Bad visual selection: 12");
    assert_eq!(
        Error::BufferError(BufError::BadCapacity(100)).message(),
        "Buffer Error: Bad capacity value: 100"
    );
}

#[test]
fn buffer_and_column_messages() {
    assert_eq!(BufError::InsertPositionOutOfBounds(0).message(), "Bad insert position: 0");
    assert_eq!(BufError::NonAsciiInsertCh('é').message(), "Non ascii char insert: é");
    assert_eq!(BufError::NonAsciiInsertStr("ü".to_string()).message(), "Non ascii string insert: ü");
    assert_eq!(
        BufError::InsertPositionNotOnCharBoundary(7).message(),
        "Insert position not on char boundary: 7"
    );
    assert_eq!(BufError::RemovePositionOutOfBounds(18446744073709551615).message(),
        "Remove position out of bounds: 18446744073709551615");
    assert_eq!(
        BufError::RemovePositionNotOnCharBoundary(9).message(),
        "Remove position not on char boundary: 9"
    );
    assert_eq!(ColumnError::BadCapacity(1030).message(), "Bad capacity: 1030");
    assert_eq!(ParseError::ExpectedRParen.message(), "Expected right parent");
    assert_eq!(ParseError::UnexpectedToken.message(), "UnexpectedToken");
    assert_eq!(LexError::UnexpectedChar('%').message(), "Unexpected char: %");
}
