use rust_terminal::cursor::{CursorOverlay, CursorShape, CursorState, BLINK_INTERVAL_MS};
use rust_terminal::geometry::Pane;

fn pane_80x24() -> Pane {
    Pane::new(0, 0, 80, 24)
}

#[test]
fn new_cursor_is_a_visible_block() {
    let cursor = CursorState::new(1234);
    assert_eq!(
        cursor,
        CursorState {
            col: 0,
            row: 0,
            character: ' ',
            shape: CursorShape::Block,
            visible: true,
            blink_on: true,
            last_blink_ms: 1234,
        }
    );
}

#[test]
fn set_position_keeps_the_rest() {
    let mut cursor = CursorState::new(7);
    cursor.set_position(5, 9, 'q');
    assert_eq!(
        cursor,
        CursorState {
            col: 5,
            row: 9,
            character: 'q',
            shape: CursorShape::Block,
            visible: true,
            blink_on: true,
            last_blink_ms: 7,
        }
    );
}

#[test]
fn blink_changes_after_more_than_the_interval() {
    assert_eq!(BLINK_INTERVAL_MS, 500);
    let mut cursor = CursorState::new(1000);
    cursor.tick(1500);
    assert!(cursor.blink_on);
    assert_eq!(cursor.last_blink_ms, 1000);
    cursor.tick(1501);
    assert!(!cursor.blink_on);
    assert_eq!(cursor.last_blink_ms, 1501);
    cursor.tick(1700);
    assert!(!cursor.blink_on);
    cursor.tick(2002);
    assert!(cursor.blink_on);
    assert_eq!(cursor.last_blink_ms, 2002);
}

#[test]
fn blink_ignores_a_clock_that_went_back() {
    let mut cursor = CursorState::new(1000);
    cursor.tick(10);
    assert!(cursor.blink_on);
    assert_eq!(cursor.last_blink_ms, 1000);
}

#[test]
fn caret_sits_on_a_cursor_in_view() {
    let mut cursor = CursorState::new(0);
    cursor.set_position(4, 3, 'x');
    assert!(cursor.in_view(&pane_80x24(), 0));
    assert_eq!(cursor.caret_position(&pane_80x24(), 0), (5, 4));
    cursor.set_position(4, 103, 'x');
    assert!(cursor.in_view(&pane_80x24(), 100));
    assert_eq!(cursor.caret_position(&pane_80x24(), 100), (5, 4));
}

#[test]
fn caret_is_parked_when_the_cursor_is_out_of_view() {
    let mut cursor = CursorState::new(0);
    cursor.set_position(4, 3, 'x');
    assert!(!cursor.in_view(&pane_80x24(), 4));
    assert_eq!(cursor.caret_position(&pane_80x24(), 4), (0, 0));
    cursor.set_position(4, 22, 'x');
    assert!(!cursor.in_view(&pane_80x24(), 0));
    assert_eq!(cursor.caret_position(&pane_80x24(), 0), (0, 0));
    cursor.set_position(4, 21, 'x');
    assert!(cursor.in_view(&pane_80x24(), 0));
    assert_eq!(cursor.caret_position(&pane_80x24(), 0), (5, 22));
}

#[test]
fn blink_does_not_move_the_caret() {
    let mut cursor = CursorState::new(0);
    cursor.set_position(4, 3, 'x');
    let before = cursor.caret_position(&pane_80x24(), 0);
    cursor.tick(501);
    assert!(!cursor.blink_on);
    assert_eq!(cursor.caret_position(&pane_80x24(), 0), before);
}

#[test]
fn glyph_of_each_shape() {
    let mut cursor = CursorState::new(0);
    cursor.set_position(0, 0, 'k');
    assert_eq!(cursor.glyph(), 'k');
    cursor.character = '\0';
    assert_eq!(cursor.glyph(), ' ');
    cursor.character = ' ';
    assert_eq!(cursor.glyph(), ' ');
    cursor.shape = CursorShape::Underline;
    assert_eq!(cursor.glyph(), '_');
    cursor.shape = CursorShape::Beam;
    assert_eq!(cursor.glyph(), '|');
    cursor.shape = CursorShape::Hollow;
    assert_eq!(cursor.glyph(), '□');
}

#[test]
fn overlay_of_a_block_shows_the_character_inverted() {
    let mut cursor = CursorState::new(0);
    cursor.set_position(4, 3, 'k');
    assert_eq!(
        cursor.overlay(&pane_80x24(), 0),
        Some(CursorOverlay { host_col: 5, host_row: 4, glyph: 'k', inverse: true })
    );
    cursor.shape = CursorShape::Beam;
    assert_eq!(
        cursor.overlay(&pane_80x24(), 0),
        Some(CursorOverlay { host_col: 5, host_row: 4, glyph: '|', inverse: false })
    );
}

#[test]
fn no_overlay_when_hidden_off_or_out_of_view() {
    let mut cursor = CursorState::new(0);
    cursor.set_position(4, 3, 'k');
    cursor.visible = false;
    assert_eq!(cursor.overlay(&pane_80x24(), 0), None);
    cursor.visible = true;
    cursor.blink_on = false;
    assert_eq!(cursor.overlay(&pane_80x24(), 0), None);
    cursor.blink_on = true;
    assert_eq!(cursor.overlay(&pane_80x24(), 10), None);
    cursor.set_position(78, 3, 'k');
    assert_eq!(cursor.overlay(&pane_80x24(), 0), None);
    cursor.set_position(77, 3, 'k');
    assert_eq!(
        cursor.overlay(&pane_80x24(), 0),
        Some(CursorOverlay { host_col: 78, host_row: 4, glyph: 'k', inverse: true })
    );
    assert_eq!(cursor.overlay(&Pane::new(0, 0, 1, 24), 0), None);
}
