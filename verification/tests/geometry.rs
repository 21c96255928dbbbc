use rust_terminal::geometry::{grid_to_host, host_to_grid, Pane};

fn pane_80x24() -> Pane {
    Pane::new(0, 0, 80, 24)
}

#[test]
fn pane_new_keeps_what_fits() {
    let pane = Pane::new(3, 4, 80, 24);
    assert_eq!(pane, Pane { x: 3, y: 4, width: 80, height: 24 });
}

#[test]
fn pane_new_cuts_what_does_not_fit() {
    let pane = Pane::new(65530, 65535, 80, 24);
    assert_eq!(pane, Pane { x: 65530, y: 65535, width: 5, height: 0 });
}

#[test]
fn inner_size_leaves_border_and_scrollbar() {
    let pane = pane_80x24();
    assert_eq!(pane.inner_rows(), 22);
    assert_eq!(pane.inner_cols(), 77);
}

#[test]
fn inner_size_of_small_panes_is_zero() {
    let pane = Pane::new(0, 0, 2, 1);
    assert_eq!(pane.inner_rows(), 0);
    assert_eq!(pane.inner_cols(), 0);
    let empty = Pane::new(0, 0, 0, 0);
    assert_eq!(empty.inner_rows(), 0);
    assert_eq!(empty.inner_cols(), 0);
}

#[test]
fn interior_excludes_the_border() {
    let pane = Pane::new(10, 5, 20, 10);
    assert!(pane.contains_interior(11, 6));
    assert!(pane.contains_interior(28, 13));
    assert!(!pane.contains_interior(10, 6));
    assert!(!pane.contains_interior(29, 6));
    assert!(!pane.contains_interior(11, 5));
    assert!(!pane.contains_interior(11, 14));
    assert!(!pane.contains_interior(0, 0));
}

#[test]
fn host_to_grid_inside() {
    let pane = pane_80x24();
    assert_eq!(host_to_grid(5, 4, &pane, 0), Some((4, 3)));
    assert_eq!(host_to_grid(1, 1, &pane, 0), Some((0, 0)));
    assert_eq!(host_to_grid(78, 22, &pane, 0), Some((77, 21)));
}

#[test]
fn host_to_grid_adds_scroll_offset() {
    let pane = Pane::new(10, 5, 20, 10);
    assert_eq!(host_to_grid(12, 7, &pane, 100), Some((1, 101)));
}

#[test]
fn host_to_grid_rejects_border_and_outside() {
    let pane = pane_80x24();
    assert_eq!(host_to_grid(0, 4, &pane, 0), None);
    assert_eq!(host_to_grid(79, 4, &pane, 0), None);
    assert_eq!(host_to_grid(5, 0, &pane, 0), None);
    assert_eq!(host_to_grid(5, 23, &pane, 0), None);
    assert_eq!(host_to_grid(80, 4, &pane, 0), None);
    assert_eq!(host_to_grid(5, 24, &pane, 0), None);
    assert_eq!(host_to_grid(200, 200, &pane, 0), None);
}

#[test]
fn host_to_grid_of_pane_without_interior() {
    let pane = Pane::new(0, 0, 2, 2);
    assert_eq!(host_to_grid(0, 0, &pane, 0), None);
    assert_eq!(host_to_grid(1, 1, &pane, 0), None);
    let empty = Pane::new(4, 4, 0, 0);
    assert_eq!(host_to_grid(4, 4, &empty, 0), None);
    assert_eq!(host_to_grid(3, 3, &empty, 0), None);
}

#[test]
fn host_to_grid_holds_row_at_largest() {
    let pane = pane_80x24();
    assert_eq!(host_to_grid(5, 4, &pane, usize::MAX), Some((4, usize::MAX)));
    assert_eq!(host_to_grid(5, 1, &pane, usize::MAX), Some((4, usize::MAX)));
}

#[test]
fn grid_to_host_inside() {
    let pane = pane_80x24();
    assert_eq!(grid_to_host(4, 3, &pane, 0), Some((5, 4)));
    assert_eq!(grid_to_host(0, 100, &pane, 100), Some((1, 1)));
    assert_eq!(grid_to_host(0, 121, &pane, 100), Some((1, 22)));
}

#[test]
fn grid_to_host_rejects_rows_out_of_view() {
    let pane = pane_80x24();
    assert_eq!(grid_to_host(0, 99, &pane, 100), None);
    assert_eq!(grid_to_host(0, 122, &pane, 100), None);
    assert_eq!(grid_to_host(0, 22, &pane, 0), None);
    let flat = Pane::new(0, 0, 80, 2);
    assert_eq!(grid_to_host(0, 0, &flat, 0), None);
    let none = Pane::new(0, 0, 80, 0);
    assert_eq!(grid_to_host(0, 0, &none, 0), None);
}

#[test]
fn grid_to_host_holds_coordinates_at_largest() {
    let pane = Pane { x: 65000, y: 65530, width: 60000, height: 100 };
    assert_eq!(grid_to_host(1000, 50, &pane, 0), Some((65535, 65535)));
    assert_eq!(grid_to_host(10, 2, &pane, 0), Some((65011, 65533)));
}

#[test]
fn round_trip_from_every_interior_host_cell() {
    let pane = Pane::new(3, 2, 12, 9);
    for offset in [0usize, 1, 7, 1000] {
        for col in 0..20u16 {
            for row in 0..15u16 {
                match host_to_grid(col, row, &pane, offset) {
                    Some((grid_col, grid_row)) => {
                        assert!(pane.contains_interior(col, row));
                        assert_eq!(
                            grid_to_host(grid_col, grid_row, &pane, offset),
                            Some((col, row))
                        );
                    }
                    None => assert!(!pane.contains_interior(col, row)),
                }
            }
        }
    }
}

#[test]
fn round_trip_from_every_visible_grid_cell() {
    let pane = Pane::new(3, 2, 12, 9);
    let offset = 40usize;
    for grid_col in 0..10u16 {
        for grid_row in offset..offset + 7 {
            let (col, row) = grid_to_host(grid_col, grid_row, &pane, offset).unwrap();
            assert_eq!(host_to_grid(col, row, &pane, offset), Some((grid_col, grid_row)));
        }
    }
}
