use process_monitor::column_prop::{ColumnProp, TableView};
use process_monitor::key::{EventState, Key};
use process_monitor::selection_state::{move_selection_down, move_selection_up, MoveDirection, ProcessTableState};
use process_monitor::table_actions::TableHeader as HeaderList;
use process_monitor::table_header::{ColumnHeader, MoveRowDirection, TableHeader, TableRowsState};
use process_monitor::terminate::Component;
use process_monitor::view_state::ProcessTableViewState;

#[test]
fn header_insert_and_remove() {
    let mut header = TableHeader::default();
    assert_eq!(header.count(), 4);
    assert!(!header.insert(ColumnHeader::Mem));
    header.col_selection = Some(1);
    assert!(header.insert(ColumnHeader::Mem));
    assert_eq!(header.col_headers[1], ColumnHeader::Mem);
    assert!(header.remove());
    assert_eq!(header.col_selection, Some(0));
    assert_eq!(header.count(), 4);
    let mut one = TableHeader { col_headers: vec![ColumnHeader::PID], col_selection: Some(0), col_capacity: 10 };
    assert!(!one.remove());
}

#[test]
fn header_list_grows_to_capacity() {
    let mut list = HeaderList::default();
    for _ in 0..6 {
        assert!(list.insert(ColumnHeader::CPU));
    }
    assert!(!list.insert(ColumnHeader::CPU));
    assert_eq!(list.count(), 10);
}

#[test]
fn rows_state_moves_within_the_rows() {
    let mut state = TableRowsState::new(3);
    state.move_row_selection(MoveRowDirection::Down, 3);
    state.move_row_selection(MoveRowDirection::Down, 3);
    state.move_row_selection(MoveRowDirection::Down, 3);
    state.model_update(2);
    let mut empty = TableRowsState::new(0);
    empty.move_row_selection(MoveRowDirection::Down, 0);
    let mut s = ProcessTableState::new(5);
    s.move_selection(MoveDirection::Down, 4);
    s.move_selection(MoveDirection::Left, 4);
    assert_eq!(s.select_row(), Some(1));
    s.enforce_select_row_invariant(0);
    assert_eq!(s.select_row(), None);
    s.handle_model_update(2);
    assert_eq!(s.select_row(), Some(0));
    assert_eq!(move_selection_down(3, 3), 3);
    assert_eq!(move_selection_down(2, 3), 3);
    assert_eq!(move_selection_up(0), 0);
}

#[test]
fn table_view_layout() {
    let prop = ColumnProp::new().header("pid").width(7);
    assert_eq!(prop.header, "pid");
    assert_eq!(prop.width, 7);
    let mut view = TableView::new().height(3).width(2);
    assert_eq!(view.width, 2);
    let (rows, start) = view.layout(40, 11, Some(25));
    assert_eq!(rows, 10);
    assert_eq!(start, 16);
    assert!(view.headers.iter().all(|h| h.width == 10));
    assert_eq!(view.headers[3].header, "mem");
    assert_eq!(view.layout(40, 0, None), (0, 0));
}

#[test]
fn terminate_confirmation() {
    let mut c = Component::default();
    assert_eq!(c.event(Key::Char('y')), EventState::Consumed);
    c.set(Some(42));
    assert_eq!(c.get(), Some(42));
    assert_eq!(c.event(Key::Char('y')), EventState::ReturnPID(42));
    assert_eq!(c.event(Key::Char('n')), EventState::Consumed);
    assert_eq!(c.event(Key::Enter), EventState::NotConsumed);
}

#[test]
fn view_state_filter_and_selection() {
    let mut state = ProcessTableViewState::default();
    state.insert_str_filter_str("pid = 3").unwrap();
    assert!(state.update_row_filter().is_ok());
    assert!(state.filter_ast().is_some());
    state.remove_ch_filter_str().unwrap();
    assert!(state.update_row_filter().is_err());
    assert!(state.filter_ast().is_none());
    assert!(state.insert_ch_filter_str('é').is_err());
    state.update_row_selection(4);
    state.inc_visual_row_selection(4);
    assert_eq!(state.visual_row_selection(), Some(1));
    state.dec_visual_row_selection(4);
    state.dec_visual_row_selection(4);
    assert_eq!(state.visual_row_selection(), Some(0));
}
