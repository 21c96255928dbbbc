//! Pane geometry and the mapping between host cells and grid coordinates.
//!
//! Host cells and grid columns are `u16`; grid rows and scroll offsets are
//! `usize`. A pane draws a one-cell border, so its interior starts one cell
//! in from each edge.

use vstd::prelude::*;

verus! {

/// A rectangle of host cells.
#[derive(Clone, Copy, Debug, PartialEq, Eq, Structural)]
pub struct Pane {
    pub x: u16,
    pub y: u16,
    pub width: u16,
    pub height: u16,
}

impl Pane {
    /// The pane lies within the host coordinate space: its right and bottom
    /// edges are representable host coordinates.
    pub open spec fn wf(&self) -> bool {
        &&& self.x + self.width <= u16::MAX
        &&& self.y + self.height <= u16::MAX
    }

    /// The host cell `(col, row)` lies strictly inside the border.
    pub open spec fn interior_contains(&self, col: int, row: int) -> bool {
        &&& self.x < col
        &&& col < self.x + self.width - 1
        &&& self.y < row
        &&& row < self.y + self.height - 1
    }

    /// Number of rows inside the border.
    pub open spec fn spec_inner_rows(&self) -> int {
        if self.height >= 2 {
            self.height - 2
        } else {
            0
        }
    }

    /// Number of text columns inside the border, the rightmost interior
    /// column being kept for the scrollbar.
    pub open spec fn spec_inner_cols(&self) -> int {
        if self.width >= 3 {
            self.width - 3
        } else {
            0
        }
    }

    /// Builds a pane at `(x, y)`, with width and height cut down so that the
    /// pane stays within the host coordinate space.
    pub fn new(x: u16, y: u16, width: u16, height: u16) -> (pane: Pane)
        ensures
            pane.wf(),
            pane.x == x,
            pane.y == y,
            pane.width == if x + width <= u16::MAX { width as int } else { u16::MAX - x },
            pane.height == if y + height <= u16::MAX { height as int } else { u16::MAX - y },
    {
        let max_width: u16 = u16::MAX - x;
        let max_height: u16 = u16::MAX - y;
        Pane {
            x,
            y,
            width: if width > max_width { max_width } else { width },
            height: if height > max_height { max_height } else { height },
        }
    }

    /// Number of rows inside the border.
    pub fn inner_rows(&self) -> (rows: u16)
        ensures
            rows == self.spec_inner_rows(),
    {
        if self.height >= 2 {
            self.height - 2
        } else {
            0
        }
    }

    /// Number of text columns inside the border and left of the scrollbar.
    pub fn inner_cols(&self) -> (cols: u16)
        ensures
            cols == self.spec_inner_cols(),
    {
        if self.width >= 3 {
            self.width - 3
        } else {
            0
        }
    }

    /// Whether the host cell `(col, row)` lies strictly inside the border.
    pub fn contains_interior(&self, col: u16, row: u16) -> (inside: bool)
        ensures
            inside == self.interior_contains(col as int, row as int),
    {
        let right: u32 = self.x as u32 + self.width as u32;
        let bottom: u32 = self.y as u32 + self.height as u32;
        col > self.x && (col as u32) + 1 < right && row > self.y && (row as u32) + 1 < bottom
    }
}

/// `a + b`, held at `usize::MAX` where the sum is not representable.
pub open spec fn saturating_sum(a: int, b: int) -> int {
    if a + b <= usize::MAX {
        a + b
    } else {
        usize::MAX as int
    }
}

/// The grid coordinate `(col, row)` under a host cell: `None` on the border
/// and outside the pane, else the cell's offset from the interior's top left
/// corner, with the scroll offset added to the row.
pub open spec fn spec_host_to_grid(
    host_col: u16,
    host_row: u16,
    pane: Pane,
    scroll_offset: usize,
) -> Option<(u16, usize)> {
    if pane.interior_contains(host_col as int, host_row as int) {
        Some(
            (
                (host_col - pane.x - 1) as u16,
                saturating_sum(host_row - pane.y - 1, scroll_offset as int) as usize,
            ),
        )
    } else {
        None
    }
}

/// The host cell that shows a grid coordinate: `None` where the row is
/// scrolled out of the pane, else the interior's top left corner moved by the
/// column and by the row's distance from the scroll offset, each host
/// coordinate held at `u16::MAX`.
pub open spec fn spec_grid_to_host(
    grid_col: u16,
    grid_row: usize,
    pane: Pane,
    scroll_offset: usize,
) -> Option<(u16, u16)> {
    if grid_row < scroll_offset || grid_row - scroll_offset >= pane.height - 2 {
        None
    } else {
        Some(
            (
                held_at_u16(pane.x + 1 + grid_col),
                held_at_u16(pane.y + 1 + (grid_row - scroll_offset)),
            ),
        )
    }
}

/// `v` as a host coordinate, held at `u16::MAX` where it is larger.
pub open spec fn held_at_u16(v: int) -> u16 {
    if v <= u16::MAX {
        v as u16
    } else {
        u16::MAX
    }
}

/// Maps a host cell to the grid coordinate shown there.
pub fn host_to_grid(host_col: u16, host_row: u16, pane: &Pane, scroll_offset: usize) -> (grid:
    Option<(u16, usize)>)
    ensures
        grid == spec_host_to_grid(host_col, host_row, *pane, scroll_offset),
{
    if !pane.contains_interior(host_col, host_row) {
        return None;
    }
    let grid_col: u16 = host_col - pane.x - 1;
    let relative_row: u16 = host_row - pane.y - 1;
    let grid_row: usize = scroll_offset.saturating_add(relative_row as usize);
    Some((grid_col, grid_row))
}

/// Maps a grid coordinate to the host cell that shows it.
pub fn grid_to_host(grid_col: u16, grid_row: usize, pane: &Pane, scroll_offset: usize) -> (host:
    Option<(u16, u16)>)
    ensures
        host == spec_grid_to_host(grid_col, grid_row, *pane, scroll_offset),
{
    if grid_row < scroll_offset {
        return None;
    }
    let relative_row: usize = grid_row - scroll_offset;
    if pane.height < 2 || relative_row >= (pane.height - 2) as usize {
        return None;
    }
    let col: u32 = pane.x as u32 + 1 + grid_col as u32;
    let row: u32 = pane.y as u32 + 1 + relative_row as u32;
    let host_col: u16 = if col > u16::MAX as u32 { u16::MAX } else { col as u16 };
    let host_row: u16 = if row > u16::MAX as u32 { u16::MAX } else { row as u16 };
    Some((host_col, host_row))
}

/// Mapping a host cell inside the pane's border to the grid and back gives
/// the same host cell, as long as the grid row is representable.
pub proof fn lemma_host_round_trip(host_col: u16, host_row: u16, pane: Pane, scroll_offset: usize)
    requires
        pane.interior_contains(host_col as int, host_row as int),
        host_row - pane.y - 1 + scroll_offset <= usize::MAX,
    ensures
        spec_host_to_grid(host_col, host_row, pane, scroll_offset) is Some,
        ({
            let grid = spec_host_to_grid(host_col, host_row, pane, scroll_offset)->0;
            spec_grid_to_host(grid.0, grid.1, pane, scroll_offset) == Some((host_col, host_row))
        }),
{
}

/// Mapping a grid coordinate that the pane shows to its host cell and back
/// gives the same grid coordinate. The pane shows the rows from the scroll
/// offset on, as many as fit inside its border, and the columns inside its
/// border.
pub proof fn lemma_grid_round_trip(grid_col: u16, grid_row: usize, pane: Pane, scroll_offset: usize)
    requires
        pane.wf(),
        scroll_offset <= grid_row,
        grid_row - scroll_offset < pane.spec_inner_rows(),
        grid_col < pane.width - 2,
    ensures
        spec_grid_to_host(grid_col, grid_row, pane, scroll_offset) is Some,
        ({
            let host = spec_grid_to_host(grid_col, grid_row, pane, scroll_offset)->0;
            &&& pane.interior_contains(host.0 as int, host.1 as int)
            &&& spec_host_to_grid(host.0, host.1, pane, scroll_offset) == Some(
                (grid_col, grid_row),
            )
        }),
{
}

} // verus!
