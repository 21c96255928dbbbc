use rust_terminal::selection::GridPoint;
use rust_terminal::text::{has_content, is_whitespace, selected_text};

fn point(col: u16, row: usize) -> GridPoint {
    GridPoint { col, row }
}

fn rows(lines: &[&str]) -> Vec<String> {
    lines.iter().map(|line| line.to_string()).collect()
}

#[test]
fn whitespace_is_the_unicode_property() {
    for code in 0..=0x10FFFFu32 {
        if let Some(c) = char::from_u32(code) {
            assert_eq!(is_whitespace(c), c.is_whitespace(), "U+{:04X}", code);
        }
    }
}

#[test]
fn content_is_anything_but_whitespace() {
    assert!(!has_content(""));
    assert!(!has_content(" \t\n\u{3000} "));
    assert!(has_content("   x "));
    assert!(has_content("한"));
    assert!(has_content("\0"));
}

#[test]
fn text_of_part_of_one_row() {
    let snapshot = rows(&["0123456789abcdef", "second row"]);
    assert_eq!(selected_text(&snapshot, point(4, 0), point(9, 0)), "456789");
}

#[test]
fn text_of_one_cell() {
    let snapshot = rows(&["0123456789"]);
    assert_eq!(selected_text(&snapshot, point(4, 0), point(4, 0)), "4");
}

#[test]
fn text_over_several_rows() {
    let snapshot = rows(&["first row", "second row", "third row", "fourth"]);
    assert_eq!(
        selected_text(&snapshot, point(6, 0), point(4, 2)),
        "row\nsecond row\nthird"
    );
}

#[test]
fn text_counts_characters_not_bytes() {
    let snapshot = rows(&["가나다라마바사", "ab한글cd"]);
    assert_eq!(selected_text(&snapshot, point(2, 0), point(3, 1)), "다라마바사\nab한글");
}

#[test]
fn end_column_beyond_the_row_takes_the_whole_row() {
    let snapshot = rows(&["short", "tiny"]);
    assert_eq!(selected_text(&snapshot, point(2, 0), point(60, 0)), "ort");
    assert_eq!(selected_text(&snapshot, point(0, 0), point(60, 1)), "short\ntiny");
}

#[test]
fn start_column_beyond_the_row_takes_nothing_of_it() {
    let snapshot = rows(&["short", "tiny"]);
    assert_eq!(selected_text(&snapshot, point(5, 0), point(9, 0)), "");
    assert_eq!(selected_text(&snapshot, point(9, 0), point(1, 1)), "\nti");
}

#[test]
fn trailing_blanks_are_kept() {
    let snapshot = rows(&["ab   ", "cd   "]);
    assert_eq!(selected_text(&snapshot, point(0, 0), point(4, 1)), "ab   \ncd   ");
}

#[test]
fn rows_beyond_the_snapshot_are_left_out() {
    let snapshot = rows(&["one", "two"]);
    assert_eq!(selected_text(&snapshot, point(1, 1), point(2, 5)), "wo\n");
    assert_eq!(selected_text(&snapshot, point(0, 2), point(2, 5)), "");
    assert_eq!(selected_text(&Vec::new(), point(0, 0), point(2, 5)), "");
}

#[test]
fn reversed_rows_select_nothing() {
    let snapshot = rows(&["one", "two", "three"]);
    assert_eq!(selected_text(&snapshot, point(0, 2), point(2, 0)), "");
}

#[test]
fn newlines_are_one_less_than_the_rows() {
    let snapshot = rows(&["alpha", "beta", "gamma", "delta", "epsilon"]);
    for first in 0..5usize {
        for last in first..5usize {
            let text = selected_text(&snapshot, point(1, first), point(2, last));
            assert_eq!(text.matches('\n').count(), last - first);
            assert!(!text.starts_with('\n'));
            assert!(!text.ends_with('\n'));
        }
    }
}
