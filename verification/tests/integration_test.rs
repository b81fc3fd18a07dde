use process_monitor::process::Process;
use process_monitor::sort::RowSort as Sort;
use process_monitor::table::ProcessTable;
use process_monitor::table_state::ProcessTableState;

fn test_four_processes() -> Vec<Process> {
    vec![
        Process::new(1, (1.0f32).to_bits(), (1.0f32).to_bits(), 1, "a".to_string()),
        Process::new(2, (2.0f32).to_bits(), (2.0f32).to_bits(), 2, "b".to_string()),
        Process::new(3, (3.0f32).to_bits(), (3.0f32).to_bits(), 3, "c".to_string()),
        Process::new(4, (4.0f32).to_bits(), (4.0f32).to_bits(), 4, "d".to_string()),
    ]
}

#[test]
fn test_row_sorting_by_pid() {
    let table = ProcessTable::new(test_four_processes(), 2, 0).unwrap();

    let mut view_state = ProcessTableState::default();

    assert_eq!(*view_state.row_sort(), Sort::CpuDec);

    // Set row sort to PidInc
    view_state.row_sort_by(Sort::PidInc);

    assert_eq!(*view_state.row_sort(), Sort::PidInc);

    {
        let rows = table.visible_rows(view_state.row_sort(), view_state.filter_ast());
        let mut iter = rows.iter();
        assert_eq!(iter.next().unwrap().process().pid().as_u32(), 1);

        assert_eq!(iter.next().unwrap().process().pid().as_u32(), 2);

        assert_eq!(iter.next().unwrap().process().pid().as_u32(), 3);

        assert_eq!(iter.next().unwrap().process().pid().as_u32(), 4);
    }

    // Set row sort to PidDec
    view_state.row_sort_by(Sort::PidDec);

    assert_eq!(*view_state.row_sort(), Sort::PidDec);

    {
        let rows = table.visible_rows(view_state.row_sort(), view_state.filter_ast());
        let mut iter = rows.iter();

        assert_eq!(iter.next().unwrap().process().pid().as_u32(), 4);

        assert_eq!(iter.next().unwrap().process().pid().as_u32(), 3);

        assert_eq!(iter.next().unwrap().process().pid().as_u32(), 2);

        assert_eq!(iter.next().unwrap().process().pid().as_u32(), 1);
    }
}

#[test]
fn test_table_visible_rows_with_invalid_filter_string() {
    let table = ProcessTable::new(test_four_processes(), 2, 0).unwrap();

    let mut view_state = ProcessTableState::default();

    // Malformed string
    let filter_string = "pi d = 1".to_string();

    // Update view_state with malformed string
    let res = view_state.mut_filter_string().insert_ascii_str(&filter_string);

    assert!(res.is_ok());

    // Update view_state filter_ast with malformed string
    let res = view_state.update_filter_ast();

    // Report error
    assert!(res.is_err());

    // AST could not be created
    assert!(view_state.filter_ast().is_none());

    // Default Sort is CpuDec
    let rows = table.visible_rows(view_state.row_sort(), view_state.filter_ast());
    let mut iter = rows.iter();

    assert_eq!(f32::from_bits(iter.next().unwrap().process().cpu_total().to_bits()), 4.0);
    assert_eq!(f32::from_bits(iter.next().unwrap().process().cpu_total().to_bits()), 3.0);
    assert_eq!(f32::from_bits(iter.next().unwrap().process().cpu_total().to_bits()), 2.0);
    assert_eq!(f32::from_bits(iter.next().unwrap().process().cpu_total().to_bits()), 1.0);
}

#[test]
fn filter_and_sort_together() {
    let table = ProcessTable::new(test_four_processes(), 2, 0).unwrap();
    let mut state = ProcessTableState::default();
    state.mut_filter_string().insert_ascii_str("pid > 1 & mem < 4").unwrap();
    state.update_filter_ast().unwrap();
    state.row_sort_by(Sort::NameDec);
    let rows = table.visible_rows(state.row_sort(), state.filter_ast());
    let pids: Vec<u32> = rows.iter().map(|r| r.process().pid().as_u32()).collect();
    assert_eq!(pids, vec![3, 2]);
    assert_eq!(table.count_visible_rows(state.row_sort(), state.filter_ast()), 2);
    assert_eq!(
        table.visible_row(state.row_sort(), state.filter_ast(), 1).unwrap().process().pid().as_u32(),
        2
    );
    assert!(table.visible_row(state.row_sort(), state.filter_ast(), 2).is_none());
}

#[test]
fn equal_rows_keep_the_table_order() {
    let processes = vec![
        Process::new(9, 0, 0, 5, "x".to_string()),
        Process::new(3, 0, 0, 5, "y".to_string()),
        Process::new(6, 0, 0, 1, "z".to_string()),
    ];
    let table = ProcessTable::new(processes, 2, 0).unwrap();
    let indices = table.visible_indices(&Sort::MemDec, &None);
    assert_eq!(indices, vec![0, 1, 2]);
    let indices = table.visible_indices(&Sort::MemInc, &None);
    assert_eq!(indices, vec![2, 0, 1]);
}

#[test]
fn update_keeps_history_of_present_processes_only() {
    let mut table = ProcessTable::new(test_four_processes(), 2, 0).unwrap();
    table
        .update(vec![
            Process::new(2, 0, 0, 20, "b".to_string()),
            Process::new(5, 0, 0, 50, "e".to_string()),
        ])
        .unwrap();
    let rows = table.visible_rows(&Sort::PidInc, &None);
    assert_eq!(rows.len(), 2);
    assert_eq!(rows[0].statistics().len(), 2);
    assert_eq!(rows[0].statistics().sample(0).unwrap().mem(), 20);
    assert_eq!(rows[0].statistics().sample(1).unwrap().mem(), 2);
    assert_eq!(rows[1].statistics().len(), 1);
}

#[test]
fn a_refused_interval_fails_only_with_processes() {
    assert!(ProcessTable::new(Vec::new(), 0, 0).is_ok());
    assert!(ProcessTable::new(test_four_processes(), 0, 0).is_err());
    assert!(ProcessTable::new(test_four_processes(), 61, 0).is_err());
    assert!(ProcessTable::new(test_four_processes(), 60, 0).is_ok());
}
