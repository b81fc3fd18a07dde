use process_monitor::key::{EventState, Key};
use process_monitor::rows::Row;
use process_monitor::table_columns::Columns;
use process_monitor::table_model::{TableComponent, TableController, TableEvent, TableFocus, TableModel};
use process_monitor::text_line::TextLineEvent;

fn rows() -> Vec<Row> {
    vec![
        Row { pid: 1, name: "alpha".to_string(), avg_cpu_usage: 0, total_cpu_usage: (1.0f32).to_bits(), mem_usage: 1 },
        Row { pid: 2, name: "beta".to_string(), avg_cpu_usage: 0, total_cpu_usage: (2.0f32).to_bits(), mem_usage: 2 },
    ]
}

#[test]
fn controller_follows_the_focus() {
    let model = TableModel::from_rows(rows());
    let c = TableController;
    assert_eq!(c.key_event(Key::Char('/'), &model), Some(TableEvent::MoveFocus(TableFocus::Filter)));
    assert_eq!(c.key_event(Key::Enter, &model), None);
    assert_eq!(c.key_event(Key::Left, &model), None);
}

#[test]
fn typing_in_the_filter_filters_the_rows() {
    let mut table = TableComponent::new(rows(), Columns::default());
    assert_eq!(table.event(Key::Char('/')), EventState::Consumed);
    assert_eq!(table.model().focus(), TableFocus::Filter);
    table.event(Key::Char('B'));
    assert_eq!(table.model().filter_str(), "B");
    let shown: Vec<u32> = table.model().rows_iter().iter().map(|(r, _)| r.pid).collect();
    assert_eq!(shown, vec![2]);
    table.event(Key::Backspace);
    assert_eq!(table.model().filter_len(), 0);
    assert_eq!(table.model().rows_iter().len(), 2);
    table.event(Key::Tab);
    assert_eq!(table.model().focus(), TableFocus::Columns);
    table.event(Key::Backspace);
    assert_eq!(table.model().cols_count(), 3);
    table.event(Key::Enter);
    assert_eq!(table.model().focus(), TableFocus::Rows);
    assert_eq!(table.event(Key::Char('T')), EventState::ReturnPID(2));
    assert_eq!(table.event(Key::Esc), EventState::NotConsumed);
}

#[test]
fn model_events() {
    let mut model = TableModel::from_rows(rows());
    assert_eq!(model.event(TableEvent::OnFilter(TextLineEvent::InsertCharacter('a'))), EventState::Consumed);
    assert_eq!(model.filter_cursor(), 1);
    assert_eq!(model.rows_iter().len(), 2);
    model.new_snapshot(Vec::new());
    assert_eq!(model.row_selection(), None);
}

#[test]
fn row_and_column_edits_reach_their_parts() {
    let mut table = TableComponent::new(rows(), Columns::default());
    let cols_before = table.model().cols_count();
    assert_eq!(table.event(Key::Down), EventState::Consumed);
    assert_eq!(table.model().row_selection(), Some(1));
    assert_eq!(table.event(Key::Tab), EventState::Consumed);
    assert_eq!(table.model().focus(), TableFocus::Columns);
    assert_eq!(table.event(Key::Char('p')), EventState::Consumed);
    assert_eq!(table.model().cols_count(), cols_before + 1);
    assert_eq!(table.event(Key::Char('/')), EventState::Consumed);
    assert_eq!(table.event(Key::Char('é')), EventState::Consumed);
    assert_eq!(table.model().filter_str(), "é");
}
