use weathr::display::AsciiDisplay;
use weathr::layout::{animation_row, center_column, centered_layout, house_row, place_lines};

#[test]
fn tall_terminal_starts_animation_at_row_three() {
    assert_eq!(animation_row(25), 3);
    assert_eq!(house_row(25), 10);
}

#[test]
fn short_terminal_starts_animation_at_row_two() {
    assert_eq!(animation_row(15), 2);
    assert_eq!(house_row(15), 9);
}

#[test]
fn threshold_height_counts_as_short() {
    assert_eq!(animation_row(20), 2);
    assert_eq!(animation_row(21), 3);
}

#[test]
fn house_is_seven_rows_below_animation() {
    for h in [0u16, 1, 19, 20, 21, 50, u16::MAX] {
        assert_eq!(house_row(h), animation_row(h) + 7);
    }
}

#[test]
fn center_column_halves_the_slack() {
    assert_eq!(center_column(80, 20), 30);
    assert_eq!(center_column(81, 20), 30);
    assert_eq!(center_column(10, 10), 0);
    assert_eq!(center_column(10, 0), 5);
}

#[test]
fn center_column_clamps_long_lines() {
    assert_eq!(center_column(10, 11), 0);
    assert_eq!(center_column(0, 5), 0);
}

#[test]
fn place_lines_stacks_rows_at_one_column() {
    let lines = vec!["ab".to_string(), "cde".to_string()];
    let p = place_lines(&lines, 2, 3);
    assert_eq!(p.len(), 2);
    assert_eq!((p[0].col, p[0].row, p[0].text.as_str()), (2, 3, "ab"));
    assert_eq!((p[1].col, p[1].row, p[1].text.as_str()), (2, 4, "cde"));
}

#[test]
fn centered_layout_centers_each_line() {
    let lines = vec!["abcd".to_string(), "ab".to_string(), "°°".to_string()];
    let p = centered_layout(&lines, 10, 20);
    assert_eq!(p.len(), 3);
    assert_eq!((p[0].col, p[0].row), (8, 10));
    assert_eq!((p[1].col, p[1].row), (9, 11));
    assert_eq!((p[2].col, p[2].row), (9, 12));
    assert_eq!(p[2].text, "°°");
}

#[test]
fn centered_layout_of_nothing_is_empty() {
    assert!(centered_layout(&Vec::new(), 0, 80).is_empty());
}

#[test]
fn house_is_a_fixed_picture() {
    let a = AsciiDisplay::render_house();
    let b = AsciiDisplay::render_house();
    assert_eq!(a, b);
    assert_eq!(a.len(), 9);
    assert_eq!(a[8], "_____|___|___|___|_____");
}
