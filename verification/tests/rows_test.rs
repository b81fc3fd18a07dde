use process_monitor::key::EventState;
use process_monitor::rows::{Direction, Row, RowOrder, Rows, RowsEvent};

fn row(pid: u32, name: &str, cpu: f32, mem: u64) -> Row {
    Row {
        pid,
        name: name.to_string(),
        avg_cpu_usage: (cpu / 2.0).to_bits(),
        total_cpu_usage: cpu.to_bits(),
        mem_usage: mem,
    }
}

fn rows() -> Rows {
    Rows::new(vec![
        row(1, "Process_A", 1.0, 300),
        row(2, "process_b", 3.0, 100),
        row(3, "other", 2.0, 200),
        row(4, "PROCESS_a2", 5.0, 50),
    ])
}

fn pids(rows: &Rows) -> Vec<u32> {
    rows.iter_filter_and_sort().iter().map(|(r, _)| r.pid).collect()
}

#[test]
fn sorted_by_cpu_highest_first_at_start() {
    let r = rows();
    assert_eq!(r.get_selection(), Some(0));
    assert_eq!(*r.get_order(), RowOrder::CPUDec);
    assert_eq!(pids(&r), vec![4, 2, 3, 1]);
    assert!(r.iter_filter_and_sort()[0].1);
}

#[test]
fn filter_ignores_case() {
    let mut r = rows();
    r.set_filter("process_a");
    assert_eq!(pids(&r), vec![4, 1]);
    assert_eq!(r.get_row_count_after_filter(), 2);
    r.set_filter("");
    assert_eq!(r.get_row_count_after_filter(), 4);
    r.set_filter("zzz");
    assert_eq!(r.get_row_count_after_filter(), 0);
    assert_eq!(r.get_selection(), None);
}

#[test]
fn events_move_sort_and_terminate() {
    let mut r = rows();
    assert_eq!(r.event(RowsEvent::MoveSelection(Direction::Down)), EventState::Consumed);
    assert_eq!(r.get_selection(), Some(1));
    for _ in 0..10 {
        r.event(RowsEvent::MoveSelection(Direction::Down));
    }
    assert_eq!(r.get_selection(), Some(3));
    r.event(RowsEvent::Sort(RowOrder::NameInc));
    assert_eq!(pids(&r), vec![4, 1, 3, 2]);
    assert_eq!(r.event(RowsEvent::TerminateSelection), EventState::ReturnPID(2));
    r.event(RowsEvent::MoveSelection(Direction::Up));
    assert_eq!(r.event(RowsEvent::TerminateSelection), EventState::ReturnPID(3));
    r.event(RowsEvent::Sort(RowOrder::MemInc));
    assert_eq!(pids(&r), vec![4, 2, 3, 1]);
}

#[test]
fn replacing_rows_clamps_the_selection() {
    let mut r = rows();
    for _ in 0..3 {
        r.event(RowsEvent::MoveSelection(Direction::Down));
    }
    r.replace_rows(vec![row(9, "x", 0.0, 0)]);
    assert_eq!(r.get_selection(), Some(0));
    r.replace_rows(Vec::new());
    assert_eq!(r.get_selection(), None);
    assert_eq!(r.event(RowsEvent::TerminateSelection), EventState::Consumed);
}

#[test]
fn row_order_and_units() {
    let a = row(1, "a", 1.0, 3 * 1073741824);
    let b = row(2, "b", 2.0, 0);
    assert_eq!(a.order(&b, &RowOrder::PIDInc), std::cmp::Ordering::Less);
    assert_eq!(a.order(&b, &RowOrder::CPUDec), std::cmp::Ordering::Greater);
    assert_eq!(a.mem_usage_as_gb(), 3);
    assert_eq!(a.mem_usage_as_mb(), 3072);
    assert_eq!(a.mem_usage_as_kb(), 3 * 1048576);
    assert_eq!(a.mem_usage_as_b(), 3 * 1073741824);
}

/// Twenty-two rows: names cycle through "process_a", "process_b" and
/// "other", process ids 100 to 121, CPU and memory growing with the id.
fn rows_22() -> Rows {
    let names = ["process_a", "process_b", "other"];
    let mut v = Vec::new();
    for i in 0..22u32 {
        v.push(row(100 + i, names[(i % 3) as usize], i as f32, (i as u64) * 10));
    }
    Rows::new(v)
}

#[test]
fn test_enforce_invariant_on_selection() {
    let mut rows = rows_22();
    let count = rows.get_row_count_after_filter();
    // Select the last row, then take one row away: the selection is clamped.
    for _ in 0..count {
        rows.event(RowsEvent::MoveSelection(Direction::Down));
    }
    assert_eq!(rows.get_selection(), Some(count - 1));
    let mut fewer = Vec::new();
    for i in 0..(count as u32 - 1) {
        fewer.push(row(100 + i, "process_a", 0.0, 0));
    }
    rows.replace_rows(fewer);
    assert_eq!(rows.get_selection(), Some(count - 2));
    // No selection with no rows; the first row once there are rows again.
    rows.replace_rows(Vec::new());
    assert_eq!(rows.get_selection(), None);
    rows.replace_rows(vec![row(1, "a", 0.0, 0)]);
    assert_eq!(rows.get_selection(), Some(0));
}

#[test]
fn test_event_move_selection() {
    let mut rows = rows_22();
    let count = rows.get_row_count_after_filter();
    for _ in 0..(count + 1) {
        assert_eq!(rows.event(RowsEvent::MoveSelection(Direction::Up)), EventState::Consumed);
    }
    assert_eq!(rows.get_selection(), Some(0));
    for _ in 0..(count + 1) {
        assert_eq!(rows.event(RowsEvent::MoveSelection(Direction::Down)), EventState::Consumed);
    }
    assert_eq!(rows.get_selection(), Some(count - 1));
}

#[test]
fn test_event_sort() {
    let mut rows = rows_22();
    assert_eq!(rows.event(RowsEvent::Sort(RowOrder::PIDInc)), EventState::Consumed);
    let smallest_pid = rows.iter_filter_and_sort().first().unwrap().0.pid;
    let greatest_pid = rows.iter_filter_and_sort().last().unwrap().0.pid;
    assert!(smallest_pid < greatest_pid);
    assert_eq!(rows.event(RowsEvent::Sort(RowOrder::PIDDec)), EventState::Consumed);
    assert_eq!(rows.iter_filter_and_sort().first().unwrap().0.pid, greatest_pid);
    assert_eq!(rows.iter_filter_and_sort().last().unwrap().0.pid, smallest_pid);
}

#[test]
fn test_event_terminate_selection() {
    let mut rows = rows_22();
    let pid = rows.iter_filter_and_sort().first().unwrap().0.pid;
    assert_eq!(rows.event(RowsEvent::TerminateSelection), EventState::ReturnPID(pid));
}

#[test]
fn test_replace_rows() {
    let mut rows = rows_22();
    let new_rows: Vec<Row> = Vec::new();
    let count = new_rows.len();
    rows.replace_rows(new_rows);
    assert_eq!(rows.get_row_count_after_filter(), count);
    assert_eq!(rows.get_selection(), None);
    let new_rows = vec![row(7, "one", 1.0, 1)];
    let count = new_rows.len();
    rows.replace_rows(new_rows);
    assert_eq!(rows.get_row_count_after_filter(), count);
    assert_eq!(rows.get_selection(), Some(0));
}

#[test]
fn test_filter_rows() {
    let mut rows = rows_22();
    rows.set_filter("process_a");
    let shown = rows.iter_filter_and_sort();
    assert!(!shown.is_empty());
    for row in shown {
        assert_eq!(row.0.name, "process_a");
    }
}

#[test]
fn test_get_row_count_after_filter() {
    let rows = rows_22();
    assert_eq!(rows.get_row_count_after_filter(), 22);
}
