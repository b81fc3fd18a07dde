use process_monitor::column::{ColumnOptions, Columns, ColumnsConfig, MemoryUnitOptions};

#[test]
fn test_remove_column() {
    // Using default constructor.
    let mut columns = Columns::default();

    assert_eq!(columns.len(), 5);

    assert!(columns.selection().is_none());

    // Column not removed when selection is None & Vec is not empty.
    columns.remove_column();

    assert_eq!(columns.len(), 5);

    // Set selection to Some(0)
    columns.inc_selection();
    assert_eq!(columns.selection(), Some(0));

    // Column is removed when selection is Some & vec is not empty.
    columns.remove_column();

    assert_eq!(columns.len(), 4);

    // Selection is not moved.
    assert_eq!(columns.selection(), Some(0));

    // BVA
    for _ in 0..=columns.len() {
        columns.remove_column();
    }

    // All columns have been removed.
    assert_eq!(columns.len(), 0);

    // Selection is set to None.
    assert!(columns.selection().is_none())
}

#[test]
fn test_insert_column() {
    // Using empty columns
    let mut columns = Columns::new_empty();

    assert_eq!(columns.len(), 0);

    assert!(columns.selection().is_none());

    // Insert into empty columns
    columns.insert_column(ColumnOptions::Pid);

    // Columns count is 1
    assert_eq!(columns.len(), 1);

    // Selection moved to Some(0)
    assert_eq!(columns.selection(), Some(0));

    // Insert into non empty columns
    columns.insert_column(ColumnOptions::Pid);

    // Columns count is 2
    assert_eq!(columns.len(), 2);

    // Selection is still Some(0)
    assert_eq!(columns.selection(), Some(0));
}

#[test]
fn test_inc_selection_empty() {
    // Using empty columns
    let mut columns = Columns::new_empty();

    assert_eq!(columns.len(), 0);

    assert!(columns.selection().is_none());

    columns.inc_selection();

    // Selection is not moved
    assert!(columns.selection().is_none());
}

#[test]
fn test_inc_selection_nonempty() {
    let mut columns = Columns::default();

    assert_eq!(columns.len(), 5);

    assert!(columns.selection().is_none());

    columns.inc_selection();

    // Selection is set to Some(0)
    assert_eq!(columns.selection(), Some(0));

    // BVA
    for _ in 0..=columns.len() {
        columns.inc_selection();
    }

    // Selection wraps to Some(1)
    assert_eq!(columns.selection(), Some(1));
}

#[test]
fn test_dec_selection_empty() {
    // Using empty columns
    let mut columns = Columns::new_empty();

    assert_eq!(columns.len(), 0);

    assert!(columns.selection().is_none());

    columns.dec_selection();

    // Selection is not moved
    assert!(columns.selection().is_none());
}

#[test]
fn test_dec_selection_nonempty() {
    let mut columns = Columns::default();

    assert_eq!(columns.len(), 5);

    assert!(columns.selection().is_none());

    columns.dec_selection();

    // Selection is set to Some(len-1)
    assert_eq!(columns.selection(), Some(columns.len() - 1));

    // BVA
    for _ in 0..=columns.len() {
        columns.dec_selection();
    }

    // Selection wraps to Some(3)
    assert_eq!(columns.selection(), Some(3));
}

#[test]
fn insert_stops_at_capacity() {
    let mut columns = Columns::new_empty();
    for _ in 0..20 {
        columns.insert_column(ColumnOptions::Name);
    }
    assert_eq!(columns.len(), 10);
}

#[test]
fn rotate_unit_cycles_memory_units_only() {
    let mut columns = Columns::new_empty();
    columns.insert_column(ColumnOptions::Memory(MemoryUnitOptions::B));
    columns.rotate_unit();
    assert_eq!(columns.get_column(), Some(&ColumnOptions::Memory(MemoryUnitOptions::KB)));
    columns.rotate_unit();
    columns.rotate_unit();
    assert_eq!(columns.get_column(), Some(&ColumnOptions::Memory(MemoryUnitOptions::GB)));
    columns.rotate_unit();
    assert_eq!(columns.get_column(), Some(&ColumnOptions::Memory(MemoryUnitOptions::B)));
    columns.insert_column(ColumnOptions::Pid);
    columns.rotate_unit();
    assert_eq!(columns.get_column(), Some(&ColumnOptions::Pid));
}

#[test]
fn column_headers() {
    assert_eq!(ColumnOptions::Pid.as_str(), "Pid");
    assert_eq!(ColumnOptions::Memory(MemoryUnitOptions::GB).as_str(), "Mem GB");
    assert_eq!(ColumnOptions::MeanCpuUsageAsTotalOverLastMinute.as_str(), "CpuT%/60s");
    assert_eq!(MemoryUnitOptions::KB.as_str(), "Mem KB");
}

#[test]
fn layout_from_config_keeps_columns_and_selects_nothing() {
    let config = ColumnsConfig::new(vec![ColumnOptions::Name, ColumnOptions::Pid]);
    let columns = Columns::try_from_config(&config).unwrap();
    assert_eq!(columns.columns(), &vec![ColumnOptions::Name, ColumnOptions::Pid]);
    assert!(columns.selection().is_none());
}
