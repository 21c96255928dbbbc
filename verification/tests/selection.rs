use rust_terminal::selection::{clamp_col, normalize, GridPoint, Selection};

fn point(col: u16, row: usize) -> GridPoint {
    GridPoint { col, row }
}

#[test]
fn normalize_keeps_an_ordered_pair() {
    assert_eq!(normalize(point(4, 3), point(9, 3)), (point(4, 3), point(9, 3)));
    assert_eq!(normalize(point(9, 3), point(0, 4)), (point(9, 3), point(0, 4)));
    assert_eq!(normalize(point(2, 2), point(2, 2)), (point(2, 2), point(2, 2)));
}

#[test]
fn normalize_swaps_a_reversed_pair() {
    assert_eq!(normalize(point(9, 3), point(4, 3)), (point(4, 3), point(9, 3)));
    assert_eq!(normalize(point(0, 4), point(9, 3)), (point(9, 3), point(0, 4)));
}

#[test]
fn normalize_twice_is_normalize_once() {
    for (a, b) in [
        (point(9, 3), point(4, 3)),
        (point(4, 3), point(9, 3)),
        (point(0, 10), point(70, 2)),
        (point(5, 5), point(5, 5)),
    ] {
        let once = normalize(a, b);
        assert_eq!(normalize(once.0, once.1), once);
    }
}

#[test]
fn new_selection_is_inactive() {
    let selection = Selection::new();
    assert_eq!(selection, Selection::Inactive);
    assert!(!selection.is_active());
    assert!(!selection.is_dragging());
    assert_eq!(selection.range(), None);
}

#[test]
fn button_down_starts_a_selection_of_one_cell() {
    let mut selection = Selection::new();
    selection.start(point(4, 3));
    assert_eq!(
        selection,
        Selection::Active { anchor: point(4, 3), head: point(4, 3), dragging: false }
    );
    assert!(selection.is_active());
    assert!(!selection.is_dragging());
}

#[test]
fn button_down_replaces_a_selection() {
    let mut selection = Selection::Active { anchor: point(1, 1), head: point(5, 2), dragging: true };
    selection.start(point(7, 7));
    assert_eq!(
        selection,
        Selection::Active { anchor: point(7, 7), head: point(7, 7), dragging: false }
    );
}

#[test]
fn drag_moves_the_head() {
    let mut selection = Selection::new();
    selection.start(point(4, 3));
    selection.drag_to(Some(point(9, 3)));
    assert_eq!(
        selection,
        Selection::Active { anchor: point(4, 3), head: point(9, 3), dragging: true }
    );
    selection.drag_to(None);
    assert_eq!(
        selection,
        Selection::Active { anchor: point(4, 3), head: point(9, 3), dragging: true }
    );
}

#[test]
fn drag_without_selection_selects_nothing() {
    let mut selection = Selection::new();
    selection.drag_to(Some(point(9, 3)));
    assert_eq!(selection, Selection::Inactive);
}

#[test]
fn move_follows_only_while_dragging() {
    let mut selection = Selection::new();
    selection.start(point(4, 3));
    selection.move_to(Some(point(6, 3)));
    assert_eq!(
        selection,
        Selection::Active { anchor: point(4, 3), head: point(4, 3), dragging: false }
    );
    selection.drag_to(Some(point(5, 3)));
    selection.move_to(Some(point(6, 4)));
    assert_eq!(
        selection,
        Selection::Active { anchor: point(4, 3), head: point(6, 4), dragging: true }
    );
    selection.move_to(None);
    assert_eq!(
        selection,
        Selection::Active { anchor: point(4, 3), head: point(6, 4), dragging: true }
    );
}

#[test]
fn release_gives_the_ordered_range_and_clears() {
    let mut selection = Selection::new();
    selection.start(point(9, 3));
    selection.drag_to(Some(point(6, 3)));
    assert_eq!(selection.finish(Some(point(4, 3))), Some((point(4, 3), point(9, 3))));
    assert_eq!(selection, Selection::Inactive);
}

#[test]
fn release_outside_keeps_the_last_head() {
    let mut selection = Selection::new();
    selection.start(point(4, 3));
    selection.drag_to(Some(point(6, 3)));
    assert_eq!(selection.finish(None), Some((point(4, 3), point(6, 3))));
}

#[test]
fn release_without_drag_selects_the_clicked_cell() {
    let mut selection = Selection::new();
    selection.start(point(4, 3));
    assert_eq!(selection.finish(Some(point(8, 8))), Some((point(4, 3), point(4, 3))));
    assert_eq!(selection, Selection::Inactive);
}

#[test]
fn release_without_selection_gives_nothing() {
    let mut selection = Selection::new();
    assert_eq!(selection.finish(Some(point(4, 3))), None);
    assert_eq!(selection, Selection::Inactive);
}

#[test]
fn range_is_ordered() {
    let selection = Selection::Active { anchor: point(3, 9), head: point(70, 2), dragging: true };
    assert_eq!(selection.range(), Some((point(70, 2), point(3, 9))));
}

#[test]
fn contains_follows_reading_order() {
    let selection = Selection::Active { anchor: point(3, 9), head: point(70, 2), dragging: true };
    assert!(!selection.contains(2, 69));
    assert!(selection.contains(2, 70));
    assert!(selection.contains(2, 500));
    assert!(selection.contains(5, 0));
    assert!(selection.contains(9, 3));
    assert!(!selection.contains(9, 4));
    assert!(!selection.contains(1, 75));
    assert!(!selection.contains(10, 0));
    let single = Selection::Active { anchor: point(4, 3), head: point(9, 3), dragging: false };
    assert!(!single.contains(3, 3));
    assert!(single.contains(3, 4));
    assert!(single.contains(3, 9));
    assert!(!single.contains(3, 10));
    assert!(!Selection::Inactive.contains(0, 0));
}

#[test]
fn clamp_col_holds_below_the_width() {
    assert_eq!(clamp_col(5, 80), 5);
    assert_eq!(clamp_col(79, 80), 79);
    assert_eq!(clamp_col(80, 80), 79);
    assert_eq!(clamp_col(500, 80), 79);
    assert_eq!(clamp_col(5, 0), 0);
    assert_eq!(clamp_col(0, 1), 0);
}

#[test]
fn resize_reclamps_both_columns() {
    let mut selection = Selection::Active { anchor: point(70, 2), head: point(30, 9), dragging: true };
    selection.reclamp_columns(40);
    assert_eq!(
        selection,
        Selection::Active { anchor: point(39, 2), head: point(30, 9), dragging: true }
    );
    selection.reclamp_columns(10);
    assert_eq!(
        selection,
        Selection::Active { anchor: point(9, 2), head: point(9, 9), dragging: true }
    );
    let mut none = Selection::Inactive;
    none.reclamp_columns(10);
    assert_eq!(none, Selection::Inactive);
}
