use process_monitor::row_selection::VisualRowSelection;

#[test]
fn test_inc_visual_row_selection() {
    let row_count = 5;

    let mut visual_row_selection = VisualRowSelection::default();

    assert!(visual_row_selection.selection().is_none());

    visual_row_selection.inc_selection(row_count);

    assert_eq!(visual_row_selection.selection(), Some(0));

    visual_row_selection.inc_selection(row_count);

    assert_eq!(visual_row_selection.selection(), Some(1));

    visual_row_selection.inc_selection(row_count);

    assert_eq!(visual_row_selection.selection(), Some(2));

    visual_row_selection.inc_selection(row_count);

    assert_eq!(visual_row_selection.selection(), Some(3));

    visual_row_selection.inc_selection(row_count);

    assert_eq!(visual_row_selection.selection(), Some(4));

    // BVA
    visual_row_selection.inc_selection(row_count);

    assert_eq!(visual_row_selection.selection(), Some(4));
}

#[test]
fn test_dec_visual_row_selection() {
    let row_count = 5;

    let mut visual_row_selection = VisualRowSelection::default();

    assert!(visual_row_selection.selection().is_none());

    visual_row_selection.dec_selection(row_count);

    assert_eq!(visual_row_selection.selection(), Some(0));

    // BVA
    visual_row_selection.dec_selection(row_count);

    assert_eq!(visual_row_selection.selection(), Some(0));
}

#[test]
fn test_update_selection() {
    let row_count = 5;

    let mut visual_row_selection = VisualRowSelection::default();

    assert!(visual_row_selection.selection().is_none());

    visual_row_selection.update_selection(row_count);

    assert_eq!(visual_row_selection.selection(), Some(0));

    let row_count = 0;

    visual_row_selection.update_selection(row_count);

    assert!(visual_row_selection.selection().is_none());
}

#[test]
fn selection_past_the_rows_moves_to_the_last() {
    let mut s = VisualRowSelection::default();
    for _ in 0..8 {
        s.inc_selection(10);
    }
    assert_eq!(s.selection(), Some(7));
    s.update_selection(3);
    assert_eq!(s.selection(), Some(2));
    s.update_selection(3);
    assert_eq!(s.selection(), Some(2));
}
