use process_monitor::scroll::Scroll;

#[test]
fn test_utils_scroll() {
    let mut scroll = Scroll::default();
    let height = 10;
    let cursor = 0;
    let start = scroll.calc_start(height, cursor);
    assert_eq!(start, 0 as usize);

    let cursor = 1;
    let start = scroll.calc_start(height, cursor);
    assert_eq!(start, 0 as usize);

    let cursor = 10;
    let start = scroll.calc_start(height, cursor);
    assert_eq!(start, 1 as usize);

    let height = 15; // 7,8,9,10,11,12,13,14,15,16,17,18,19,20,21
    let cursor = 21;
    let start = scroll.calc_start(height, cursor);
    assert_eq!(start, 7);

    let cursor = 10;
    let start = scroll.calc_start(height, cursor);
    assert_eq!(start, 7);

    let cursor = 1;
    let start = scroll.calc_start(height, cursor);
    assert_eq!(start, 1);

    let cursor = 0;
    let start = scroll.calc_start(height, cursor);
    assert_eq!(start, 0);

    let cursor = 100;
    let start = scroll.calc_start(height, cursor);
    assert_eq!(start, 86);

    let height = 5;
    let start = scroll.calc_start(height, cursor);
    assert_eq!(start, 96);

    let height = 1;
    let start = scroll.calc_start(height, cursor);
    assert_eq!(start, 100);
}

#[test]
fn cursor_always_lands_in_the_window() {
    let mut scroll = Scroll::new();
    for (count, cursor) in [(3usize, 0usize), (3, 9), (7, 2), (1, 5), (4, usize::MAX), (2, 0)] {
        let start = scroll.calc_start(count, cursor);
        assert!(start <= cursor && cursor - start < count);
    }
    assert_eq!(scroll.calc_start(0, 42), 0);
}
