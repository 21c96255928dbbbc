//! The text selection of a pane: an anchored range of grid coordinates.
//!
//! A selection is stored as the user made it, from anchor to head; the
//! ordered range is computed when it is needed.

use vstd::prelude::*;

verus! {

/// A cell of the grid.
#[derive(Clone, Copy, Debug, PartialEq, Eq, Structural)]
pub struct GridPoint {
    pub col: u16,
    pub row: usize,
}

/// `a` comes no later than `b` when the grid is read row by row.
pub open spec fn row_major_le(a: GridPoint, b: GridPoint) -> bool {
    a.row < b.row || (a.row == b.row && a.col <= b.col)
}

/// The two points in reading order: the earlier one first.
pub open spec fn spec_normalize(anchor: GridPoint, head: GridPoint) -> (GridPoint, GridPoint) {
    if row_major_le(anchor, head) {
        (anchor, head)
    } else {
        (head, anchor)
    }
}

/// `col` held below `cols`; column zero where there is no column at all.
pub open spec fn spec_clamp_col(col: u16, cols: u16) -> u16 {
    if cols == 0 {
        0
    } else if col >= cols {
        (cols - 1) as u16
    } else {
        col
    }
}

/// Puts two points in reading order.
pub fn normalize(anchor: GridPoint, head: GridPoint) -> (range: (GridPoint, GridPoint))
    ensures
        range == spec_normalize(anchor, head),
        row_major_le(range.0, range.1),
{
    if anchor.row < head.row || (anchor.row == head.row && anchor.col <= head.col) {
        (anchor, head)
    } else {
        (head, anchor)
    }
}

/// The selection of a pane.
#[derive(Clone, Copy, Debug, PartialEq, Eq, Structural)]
pub enum Selection {
    /// Nothing is selected.
    Inactive,
    /// A range from `anchor`, where the button went down, to `head`, where
    /// the pointer is; `dragging` once the pointer has moved with the button
    /// held.
    Active { anchor: GridPoint, head: GridPoint, dragging: bool },
}

impl Selection {
    /// The ordered range of an active selection.
    pub open spec fn spec_range(&self) -> Option<(GridPoint, GridPoint)> {
        match *self {
            Selection::Inactive => None,
            Selection::Active { anchor, head, dragging } => Some(spec_normalize(anchor, head)),
        }
    }

    /// The cell `(row, col)` lies within the ordered range of an active
    /// selection, ends included.
    pub open spec fn spec_contains(&self, row: int, col: int) -> bool {
        match self.spec_range() {
            None => false,
            Some((start, end)) => {
                &&& start.row < row || (start.row == row && start.col <= col)
                &&& row < end.row || (row == end.row && col <= end.col)
            },
        }
    }

    /// The selection after a drag to `point`, the grid cell under the
    /// pointer: an active selection is being dragged from then on, and
    /// extends to the cell where there is one.
    pub open spec fn spec_dragged_to(&self, point: Option<GridPoint>) -> Selection {
        match *self {
            Selection::Inactive => Selection::Inactive,
            Selection::Active { anchor, head, dragging } => Selection::Active {
                anchor,
                head: match point {
                    Some(p) => p,
                    None => head,
                },
                dragging: true,
            },
        }
    }

    /// The selection after the pointer moved to `point`: one that is being
    /// dragged follows it, any other stays as it is.
    pub open spec fn spec_moved_to(&self, point: Option<GridPoint>) -> Selection {
        if *self matches Selection::Active { dragging: true, .. } {
            self.spec_dragged_to(point)
        } else {
            *self
        }
    }

    /// The ordered range that a release of the button at `point` selects:
    /// a selection that is being dragged first follows the pointer.
    pub open spec fn spec_finished_range(&self, point: Option<GridPoint>) -> Option<
        (GridPoint, GridPoint),
    > {
        self.spec_moved_to(point).spec_range()
    }

    /// The selection with both columns held below `cols`.
    pub open spec fn spec_reclamped(&self, cols: u16) -> Selection {
        match *self {
            Selection::Inactive => Selection::Inactive,
            Selection::Active { anchor, head, dragging } => Selection::Active {
                anchor: GridPoint { col: spec_clamp_col(anchor.col, cols), row: anchor.row },
                head: GridPoint { col: spec_clamp_col(head.col, cols), row: head.row },
                dragging,
            },
        }
    }

    /// No selection.
    pub fn new() -> (selection: Selection)
        ensures
            selection == Selection::Inactive,
    {
        Selection::Inactive
    }

    /// Whether a range is selected.
    pub fn is_active(&self) -> (active: bool)
        ensures
            active == (*self is Active),
    {
        match self {
            Selection::Inactive => false,
            Selection::Active { .. } => true,
        }
    }

    /// Whether a range is selected and the pointer has moved since the button
    /// went down.
    pub fn is_dragging(&self) -> (dragging: bool)
        ensures
            dragging == (*self matches Selection::Active { dragging: d, .. } && d),
    {
        match self {
            Selection::Inactive => false,
            Selection::Active { dragging, .. } => *dragging,
        }
    }

    /// The button went down on `point`: a new selection of that one cell,
    /// whatever was selected before.
    pub fn start(&mut self, point: GridPoint)
        ensures
            *final(self) == (Selection::Active { anchor: point, head: point, dragging: false }),
    {
        *self = Selection::Active { anchor: point, head: point, dragging: false };
    }

    /// The pointer was dragged with the button held; `point` is the grid
    /// cell under it, if it is over the grid.
    pub fn drag_to(&mut self, point: Option<GridPoint>)
        ensures
            *final(self) == old(self).spec_dragged_to(point),
    {
        match *self {
            Selection::Inactive => {},
            Selection::Active { anchor, head, .. } => {
                let new_head = match point {
                    Some(p) => p,
                    None => head,
                };
                *self = Selection::Active { anchor, head: new_head, dragging: true };
            },
        }
    }

    /// The pointer moved; `point` is the grid cell under it, if it is over
    /// the grid.
    pub fn move_to(&mut self, point: Option<GridPoint>)
        ensures
            *final(self) == old(self).spec_moved_to(point),
    {
        if self.is_dragging() {
            self.drag_to(point);
        }
    }

    /// The button came up; `point` is the grid cell under the pointer, if it
    /// is over the grid. Returns the ordered range that was selected and
    /// leaves nothing selected.
    pub fn finish(&mut self, point: Option<GridPoint>) -> (range: Option<(GridPoint, GridPoint)>)
        ensures
            *final(self) == Selection::Inactive,
            range == old(self).spec_finished_range(point),
            range matches Some((start, end)) ==> row_major_le(start, end),
    {
        self.move_to(point);
        let range = self.range();
        *self = Selection::Inactive;
        range
    }

    /// The ordered range of an active selection.
    pub fn range(&self) -> (range: Option<(GridPoint, GridPoint)>)
        ensures
            range == self.spec_range(),
            range matches Some((start, end)) ==> row_major_le(start, end),
    {
        match *self {
            Selection::Inactive => None,
            Selection::Active { anchor, head, .. } => Some(normalize(anchor, head)),
        }
    }

    /// Whether the cell `(row, col)` is selected.
    pub fn contains(&self, row: usize, col: usize) -> (selected: bool)
        ensures
            selected == self.spec_contains(row as int, col as int),
    {
        match self.range() {
            None => false,
            Some((start, end)) => {
                (start.row < row || (start.row == row && start.col as usize <= col)) && (row
                    < end.row || (row == end.row && col <= end.col as usize))
            },
        }
    }

    /// The pane now has `cols` columns: both ends are held within them.
    pub fn reclamp_columns(&mut self, cols: u16)
        ensures
            *final(self) == old(self).spec_reclamped(cols),
    {
        match *self {
            Selection::Inactive => {},
            Selection::Active { anchor, head, dragging } => {
                *self = Selection::Active {
                    anchor: GridPoint { col: clamp_col(anchor.col, cols), row: anchor.row },
                    head: GridPoint { col: clamp_col(head.col, cols), row: head.row },
                    dragging,
                };
            },
        }
    }
}

/// Holds a column below `cols`.
pub fn clamp_col(col: u16, cols: u16) -> (clamped: u16)
    ensures
        clamped == spec_clamp_col(col, cols),
{
    if cols == 0 {
        0
    } else if col >= cols {
        cols - 1
    } else {
        col
    }
}

/// Putting a range in reading order a second time changes nothing.
pub proof fn lemma_normalize_idempotent(anchor: GridPoint, head: GridPoint)
    ensures
        ({
            let once = spec_normalize(anchor, head);
            spec_normalize(once.0, once.1) == once
        }),
{
}

/// The ordered range holds the two points it was made from, the earlier one
/// first.
pub proof fn lemma_normalize_orders(anchor: GridPoint, head: GridPoint)
    ensures
        ({
            let range = spec_normalize(anchor, head);
            &&& row_major_le(range.0, range.1)
            &&& (range == (anchor, head) || range == (head, anchor))
        }),
{
}

} // verus!
