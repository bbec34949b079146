use lime_tui::insert_history::{
    full_screen_viewport_top, history_rows, standard_insert_plan, ResetScrollRegion,
    SetScrollRegion,
};

#[test]
fn scroll_region_sequences() {
    assert_eq!(SetScrollRegion { start: 1, end: 24 }.ansi(), "\u{1b}[1;24r");
    assert_eq!(ResetScrollRegion.ansi(), "\u{1b}[r");
}

#[test]
fn wrapped_rows_count_at_least_one_per_line() {
    assert_eq!(history_rows(&[0, 10, 11, 25], 10), 1 + 1 + 2 + 3);
    assert_eq!(history_rows(&[], 10), 0);
    assert_eq!(history_rows(&[usize::MAX, usize::MAX], 1), usize::MAX);
}

#[test]
fn standard_insertion_scrolls_the_viewport_down_as_far_as_it_can() {
    assert_eq!(standard_insert_plan(10, 5, 24, 3), (3, 9, 13));
    assert_eq!(standard_insert_plan(10, 5, 24, 20), (9, 9, 19));
    assert_eq!(standard_insert_plan(19, 5, 24, 3), (0, 18, 19));
    assert_eq!(standard_insert_plan(0, 5, 24, 2), (2, 0, 2));
}

#[test]
fn full_screen_replay_keeps_the_viewport_on_screen() {
    assert_eq!(full_screen_viewport_top(2, 5, 24, 3), 5);
    assert_eq!(full_screen_viewport_top(2, 5, 24, 100), 19);
    assert_eq!(full_screen_viewport_top(0, 30, 24, 3), 0);
}
