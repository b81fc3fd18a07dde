use process_monitor::error::{Error, LexError, ParseError};
use process_monitor::sort::RowSort;
use process_monitor::table_state::ProcessTableState;

#[test]
fn test_update_filter_ast_valid_string() {
    let mut table_state = ProcessTableState::default();

    assert!(table_state.filter_string().is_empty());

    assert!(table_state.filter_ast().is_none());

    let result = table_state.mut_filter_string().insert_ascii_str("pid = 1 | pid = 2");

    assert!(result.is_ok());

    let result = table_state.update_filter_ast();

    assert!(result.is_ok());

    assert!(table_state.filter_ast().is_some());
}

#[test]
fn test_update_filter_ast_invalid_string() {
    let mut table_state = ProcessTableState::default();

    assert!(table_state.filter_string().is_empty());

    assert!(table_state.filter_ast().is_none());

    let result = table_state.mut_filter_string().insert_ascii_str("pid = 1 | pid ! 2");

    assert!(result.is_ok());

    let result = table_state.update_filter_ast();

    assert!(result.is_err());

    assert!(table_state.filter_ast().is_none());
}

#[test]
fn filter_errors_say_which_step_failed() {
    let mut state = ProcessTableState::default();
    state.mut_filter_string().insert_ascii_str("pid # 1").unwrap();
    match state.update_filter_ast() {
        Err(Error::LexingError(LexError::UnexpectedChar('#'))) => {}
        _ => panic!("expected a lexing error"),
    }
    state.mut_filter_string().clear();
    state.mut_filter_string().insert_ascii_str("pid 1").unwrap();
    match state.update_filter_ast() {
        Err(Error::ParsingError(ParseError::ExpectedOperator)) => {}
        _ => panic!("expected a parsing error"),
    }
    assert!(state.filter_ast().is_none());
}

#[test]
fn default_state_and_sort() {
    let mut state = ProcessTableState::default();
    assert_eq!(*state.row_sort(), RowSort::CpuDec);
    assert!(state.row_selection().selection().is_none());
    assert_eq!(state.columns().len(), 5);
    state.row_sort_by(RowSort::NameInc);
    assert_eq!(*state.row_sort(), RowSort::NameInc);
    state.mut_row_selection().update_selection(3);
    assert_eq!(state.row_selection().selection(), Some(0));
    let copy = state.clone();
    assert_eq!(*copy.row_sort(), RowSort::NameInc);
    assert_eq!(copy.row_selection().selection(), Some(0));
}
