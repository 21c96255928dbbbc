use rust_terminal::scroll::{ScrollState, WHEEL_STEP};

#[test]
fn new_state_is_at_the_top() {
    let state = ScrollState::new(200, 20);
    assert_eq!(state, ScrollState { offset: 0, total_rows: 200, visible_rows: 20 });
    assert_eq!(state.max_offset(), 180);
}

#[test]
fn max_offset_is_zero_when_all_rows_fit() {
    assert_eq!(ScrollState::new(20, 20).max_offset(), 0);
    assert_eq!(ScrollState::new(10, 20).max_offset(), 0);
    assert_eq!(ScrollState::new(0, 0).max_offset(), 0);
    assert_eq!(ScrollState::new(21, 20).max_offset(), 1);
}

#[test]
fn wheel_moves_three_rows() {
    assert_eq!(WHEEL_STEP, 3);
    let mut state = ScrollState::new(200, 20);
    state.wheel_down();
    assert_eq!(state.offset, 3);
    state.wheel_down();
    assert_eq!(state.offset, 6);
    state.wheel_up();
    assert_eq!(state.offset, 3);
}

#[test]
fn wheel_up_stops_at_the_top() {
    let mut state = ScrollState { offset: 2, total_rows: 200, visible_rows: 20 };
    state.wheel_up();
    assert_eq!(state.offset, 0);
    state.wheel_up();
    assert_eq!(state.offset, 0);
}

#[test]
fn wheel_down_stops_at_the_bottom() {
    let mut state = ScrollState { offset: 178, total_rows: 200, visible_rows: 20 };
    state.wheel_down();
    assert_eq!(state.offset, 180);
    state.wheel_down();
    assert_eq!(state.offset, 180);
}

#[test]
fn wheel_down_does_nothing_when_all_rows_fit() {
    let mut state = ScrollState::new(10, 20);
    state.wheel_down();
    assert_eq!(state.offset, 0);
}

#[test]
fn page_keys_move_one_page() {
    let mut state = ScrollState::new(200, 20);
    state.page_down();
    assert_eq!(state.offset, 20);
    state.page_down();
    assert_eq!(state.offset, 40);
    state.page_up();
    assert_eq!(state.offset, 20);
    state.page_up();
    assert_eq!(state.offset, 0);
    state.page_up();
    assert_eq!(state.offset, 0);
}

#[test]
fn page_down_stops_at_the_bottom() {
    let mut state = ScrollState { offset: 170, total_rows: 200, visible_rows: 20 };
    state.page_down();
    assert_eq!(state.offset, 180);
}

#[test]
fn scroll_and_restore() {
    let mut state = ScrollState { offset: 40, total_rows: 200, visible_rows: 20 };
    state.page_up();
    assert_eq!(state.offset, 20);
    state.to_bottom();
    assert_eq!(state.offset, 200 - 20);
    state.to_top();
    assert_eq!(state.offset, 0);
}

#[test]
fn resize_clamp() {
    let mut state = ScrollState { offset: 15, total_rows: 40, visible_rows: 20 };
    state.reclamp(40, 50);
    assert_eq!(state.max_offset(), 0);
    assert_eq!(state.offset, 0);
    assert_eq!(state.visible_rows, 50);
}

#[test]
fn reclamp_keeps_an_offset_within_bounds() {
    let mut state = ScrollState { offset: 15, total_rows: 40, visible_rows: 20 };
    state.reclamp(60, 20);
    assert_eq!(state, ScrollState { offset: 15, total_rows: 60, visible_rows: 20 });
    state.reclamp(30, 20);
    assert_eq!(state, ScrollState { offset: 10, total_rows: 30, visible_rows: 20 });
}

#[test]
fn scrolling_by_huge_amounts_stays_in_bounds() {
    let mut state = ScrollState { offset: 5, total_rows: usize::MAX, visible_rows: 1 };
    state.scroll_down(usize::MAX);
    assert_eq!(state.offset, usize::MAX - 1);
    state.scroll_up(usize::MAX);
    assert_eq!(state.offset, 0);
}

#[test]
fn offset_stays_clamped_over_a_run_of_inputs() {
    let mut state = ScrollState::new(37, 10);
    for step in 0..200u32 {
        match step % 7 {
            0 => state.wheel_down(),
            1 => state.page_down(),
            2 => state.wheel_up(),
            3 => state.to_bottom(),
            4 => state.page_up(),
            5 => state.reclamp(37 + (step as usize % 5), 10),
            _ => state.wheel_down(),
        }
        assert!(state.offset <= state.max_offset());
    }
}

#[test]
fn every_step_holds_an_unclamped_offset_in_bounds() {
    let start = ScrollState { offset: 500, total_rows: 40, visible_rows: 10 };
    let mut up = start;
    up.wheel_up();
    assert_eq!(up.offset, 30);
    let mut down = start;
    down.wheel_down();
    assert_eq!(down.offset, 30);
    let mut page_up = start;
    page_up.page_up();
    assert_eq!(page_up.offset, 30);
    let mut page_down = start;
    page_down.page_down();
    assert_eq!(page_down.offset, 30);
    let mut near = ScrollState { offset: 32, total_rows: 40, visible_rows: 10 };
    near.wheel_up();
    assert_eq!(near.offset, 29);
    let mut fits = ScrollState { offset: 7, total_rows: 40, visible_rows: 50 };
    fits.to_bottom();
    assert_eq!(fits.offset, 0);
}
