use std::cmp::Ordering;

use process_monitor::column::{ColumnOptions, MemoryUnitOptions};
use process_monitor::process_entry::Cell;
use process_monitor::process_entry::ProcessEntry as Row;
use process_monitor::sort::Sort;

#[test]
fn test_row_cmp() {
    let row1 = Row::new(1, (3.0f32).to_bits(), 5, "a".to_string());
    let row2 = Row::new(2, (4.0f32).to_bits(), 6, "b".to_string());

    assert_eq!(row1.cmp(&row2, &Sort::PidDec), Ordering::Greater);

    assert_eq!(row1.cmp(&row2, &Sort::PidInc), Ordering::Less);

    assert_eq!(row1.cmp(&row2, &Sort::CpuDec), Ordering::Greater);
    assert_eq!(row1.cmp(&row2, &Sort::CpuInc), Ordering::Less);
    assert_eq!(row1.cmp(&row2, &Sort::MemDec), Ordering::Greater);
    assert_eq!(row1.cmp(&row2, &Sort::MemInc), Ordering::Less);
    assert_eq!(row1.cmp(&row2, &Sort::NameDec), Ordering::Greater);
    assert_eq!(row1.cmp(&row2, &Sort::NameInc), Ordering::Less);
}

#[test]
fn unordered_cpu_usages_compare_equal() {
    let nan = Row::new(1, f32::NAN.to_bits(), 5, "a".to_string());
    let one = Row::new(2, (1.0f32).to_bits(), 5, "a".to_string());
    assert_eq!(nan.cmp(&one, &Sort::CpuInc), Ordering::Equal);
    assert_eq!(one.cmp(&nan, &Sort::CpuDec), Ordering::Equal);
    assert_eq!(one.cmp(&one, &Sort::NameInc), Ordering::Equal);
    let neg = Row::new(3, (-0.0f32).to_bits(), 5, "a".to_string());
    let pos = Row::new(4, (0.0f32).to_bits(), 5, "a".to_string());
    assert_eq!(neg.cmp(&pos, &Sort::CpuInc), Ordering::Equal);
}

#[test]
fn cells_show_the_entry_fields() {
    let e = Row::new(42, 1.5f32.to_bits(), 2048, String::from("init"));
    match e.cell(ColumnOptions::Pid) {
        Cell::Pid(p) => assert_eq!(p.as_u32(), 42),
        _ => panic!("expected the pid"),
    }
    match e.cell(ColumnOptions::Memory(MemoryUnitOptions::KB)) {
        Cell::Memory(m) => assert_eq!(m.as_u64(), 2048),
        _ => panic!("expected the memory"),
    }
    match e.cell(ColumnOptions::Name) {
        Cell::Name(n) => assert_eq!(n.as_str(), "init"),
        _ => panic!("expected the name"),
    }
    match e.cell(ColumnOptions::CpuAverage) {
        Cell::Cpu(c) => assert_eq!(c.to_bits(), 1.5f32.to_bits()),
        _ => panic!("expected the CPU usage"),
    }
}
