use process_monitor::key::EventState;
use process_monitor::table_columns::{
    CPUUnitOptions, Column, ColumnEvent, ColumnID, Columns, Direction, MemUnitOptions,
};

#[test]
fn test_event() {
    let mut columns: Columns = Columns::default();
    assert!(columns.selection() == Some(0));
    assert!(columns.get_count() == columns.iter().len());
    assert!(columns.get_count() == 4);

    // BVA RemoveColumn
    for _ in 0..(columns.get_count() + 1) {
        columns.event(ColumnEvent::RemoveColumn);
    }
    assert!(columns.selection() == None);
    assert!(columns.get_count() == 0);

    // BVA for InsertColumn
    for _ in 0..(columns.capacity() + 1) {
        columns.event(ColumnEvent::InsertColumn(Column::from_id(ColumnID::CPU(CPUUnitOptions::Avg))));
    }
    assert!(columns.selection() == Some(0));
    assert!(columns.get_count() == columns.capacity());

    // BVA MoveSelection
    for _ in 0..(columns.get_count() + 1) {
        columns.move_selection(Direction::Right);
    }
    assert!(columns.selection() == Some(columns.get_count() - 1));
    for _ in 0..(columns.get_count() + 1) {
        columns.move_selection(Direction::Left);
    }
    assert!(columns.selection() == Some(0));
}

#[test]
fn rotate_cycles_units_and_headers_follow() {
    let mut columns = Columns::from_columns(vec![
        Column::from_id(ColumnID::Mem(MemUnitOptions::GB)),
        Column::from_id(ColumnID::CPU(CPUUnitOptions::Tot)),
        Column::from_id(ColumnID::PID),
    ]);
    assert_eq!(columns.event(ColumnEvent::RotateUnit), EventState::Consumed);
    assert_eq!(columns.iter()[0].0.header(), "mem (B)");
    columns.move_selection(Direction::Right);
    columns.event(ColumnEvent::RotateUnit);
    assert_eq!(columns.iter()[1].0.header(), "cpu (avg)");
    assert!(columns.iter()[1].1);
    columns.move_selection(Direction::Right);
    columns.event(ColumnEvent::RotateUnit);
    assert_eq!(columns.iter()[2].0.header(), "pid");
    assert_eq!(ColumnID::Name.as_str(), "name");
}
