use process_monitor::key::{EventState, Key};
use process_monitor::text_line::{
    MoveDirection, TextLineComponent, TextLineController, TextLineEvent, TextLineModel, TextLineView,
};

#[test]
fn test_text_line_model() {
    let mut model = TextLineModel::default();
    model.handle_event(TextLineEvent::MoveCursor(MoveDirection::Left));
    assert_eq!(model.cursor(), 0);
    model.handle_event(TextLineEvent::MoveCursor(MoveDirection::Right));
    assert_eq!(model.cursor(), 0);
    for _i in 0..200 {
        model.handle_event(TextLineEvent::InsertCharacter('c'));
    }
    assert_eq!(model.len(), 100);
    assert_eq!(model.cursor(), 100);
    model.handle_event(TextLineEvent::MoveCursor(MoveDirection::Right));
    assert_eq!(model.len(), 100);
    assert_eq!(model.cursor(), 100);
    model.handle_event(TextLineEvent::MoveCursor(MoveDirection::Left));
    assert_eq!(model.len(), 100);
    assert_eq!(model.cursor(), 99);
    model.handle_event(TextLineEvent::MoveCursor(MoveDirection::Right));
    assert_eq!(model.len(), 100);
    assert_eq!(model.cursor(), 100);
    for _i in 0..10 {
        model.handle_event(TextLineEvent::MoveCursor(MoveDirection::Left));
    }
    model.handle_event(TextLineEvent::RemoveCharacter);
    assert_eq!(model.len(), 99);
    assert_eq!(model.cursor(), 89);
    for _i in 0..200 {
        model.handle_event(TextLineEvent::RemoveCharacter);
    }
    assert_eq!(model.len(), 10);
    assert_eq!(model.cursor(), 0);
    for _i in 0..200 {
        model.handle_event(TextLineEvent::MoveCursor(MoveDirection::Right));
        model.handle_event(TextLineEvent::RemoveCharacter);
    }
    assert_eq!(model.len(), 0);
    assert_eq!(model.cursor(), 0);
}

#[test]
fn edits_report_whether_they_happened() {
    let mut model = TextLineModel::default();
    assert!(!model.handle_event(TextLineEvent::RemoveCharacter));
    assert!(model.handle_event(TextLineEvent::InsertCharacter('a')));
    assert!(model.handle_event(TextLineEvent::InsertCharacter('c')));
    assert!(model.handle_event(TextLineEvent::MoveCursor(MoveDirection::Left)));
    assert!(model.handle_event(TextLineEvent::InsertCharacter('b')));
    assert_eq!(model.buffer(), "abc");
    assert_eq!(model.cursor(), 2);
    assert!(model.handle_event(TextLineEvent::RemoveCharacter));
    assert_eq!(model.buffer(), "ac");
    assert_eq!(model.capacity(), 100);
}

#[test]
fn controller_maps_keys_to_edits() {
    let c = TextLineController;
    assert_eq!(c.handle_key_event(Key::Left), Some(TextLineEvent::MoveCursor(MoveDirection::Left)));
    assert_eq!(c.handle_key_event(Key::Char('x')), Some(TextLineEvent::InsertCharacter('x')));
    assert_eq!(c.handle_key_event(Key::Backspace), Some(TextLineEvent::RemoveCharacter));
    assert_eq!(c.handle_key_event(Key::Enter), None);
}

#[test]
fn component_consumes_edit_keys_only() {
    let mut line = TextLineComponent::default();
    assert_eq!(line.handle_key_event(Key::Char('h')), EventState::Consumed);
    assert_eq!(line.handle_key_event(Key::Char('i')), EventState::Consumed);
    assert_eq!(line.handle_key_event(Key::Up), EventState::NotConsumed);
    assert_eq!(line.model().buffer(), "hi");
}

#[test]
fn view_keeps_the_cursor_in_the_window() {
    let mut model = TextLineModel::default();
    for _ in 0..30 {
        model.handle_event(TextLineEvent::InsertCharacter('z'));
    }
    let mut view = TextLineView::default();
    let start = view.layout(10, 1, &model);
    assert_eq!(start, 21);
    assert_eq!(view.len, 10);
    assert_eq!(view.height, 1);
    assert_eq!(view.layout(0, 1, &model), 0);
}

#[test]
fn the_cursor_counts_bytes() {
    let mut model = TextLineModel::default();
    assert!(model.handle_event(TextLineEvent::InsertCharacter('é')));
    assert_eq!(model.buffer(), "é");
    assert_eq!(model.cursor(), 1);
    assert_eq!(model.len(), 2);
    // One byte further is the end of the two bytes of 'é'.
    assert!(model.handle_event(TextLineEvent::MoveCursor(MoveDirection::Right)));
    assert_eq!(model.cursor(), 2);
    assert!(!model.handle_event(TextLineEvent::MoveCursor(MoveDirection::Right)));
    assert!(model.handle_event(TextLineEvent::InsertCharacter('x')));
    assert_eq!(model.buffer(), "éx");
    assert_eq!(model.cursor(), 3);
    assert!(model.handle_event(TextLineEvent::RemoveCharacter));
    assert_eq!(model.buffer(), "é");
    assert_eq!(model.cursor(), 2);
    assert!(model.handle_event(TextLineEvent::MoveCursor(MoveDirection::Left)));
    assert!(model.handle_event(TextLineEvent::MoveCursor(MoveDirection::Left)));
    assert_eq!(model.cursor(), 0);
    assert!(model.handle_event(TextLineEvent::InsertCharacter('a')));
    assert_eq!(model.buffer(), "aé");
    assert_eq!(model.cursor(), 1);
}

#[test]
fn a_typed_non_ascii_key_is_consumed() {
    let mut line = TextLineComponent::default();
    assert_eq!(line.handle_key_event(Key::Char('ü')), EventState::Consumed);
    assert_eq!(line.model().buffer(), "ü");
}
