//! The scroll offset of a pane and the inputs that move it.

use vstd::prelude::*;

verus! {

/// Rows moved by one step of the mouse wheel.
pub const WHEEL_STEP: usize = 3;

/// The largest scroll offset for a grid of `total_rows` rows seen through
/// `visible_rows` rows: the rows that do not fit, or none.
pub open spec fn spec_max_offset(total_rows: usize, visible_rows: usize) -> usize {
    if total_rows > visible_rows {
        (total_rows - visible_rows) as usize
    } else {
        0
    }
}

/// `offset` held within `0 ..= spec_max_offset(total_rows, visible_rows)`.
pub open spec fn spec_clamped(offset: int, total_rows: usize, visible_rows: usize) -> usize {
    if offset < 0 {
        0
    } else if offset > spec_max_offset(total_rows, visible_rows) {
        spec_max_offset(total_rows, visible_rows)
    } else {
        offset as usize
    }
}

/// The number of rows hidden above the viewport, with the sizes that bound it.
#[derive(Clone, Copy, Debug, PartialEq, Eq, Structural)]
pub struct ScrollState {
    pub offset: usize,
    pub total_rows: usize,
    pub visible_rows: usize,
}

impl ScrollState {
    /// The offset does not pass the largest one that the sizes allow.
    pub open spec fn wf(&self) -> bool {
        self.offset <= spec_max_offset(self.total_rows, self.visible_rows)
    }

    /// A viewport at the top of the grid.
    pub fn new(total_rows: usize, visible_rows: usize) -> (state: ScrollState)
        ensures
            state.wf(),
            state.offset == 0,
            state.total_rows == total_rows,
            state.visible_rows == visible_rows,
    {
        ScrollState { offset: 0, total_rows, visible_rows }
    }

    /// The largest offset that the sizes allow.
    pub fn max_offset(&self) -> (max: usize)
        ensures
            max == spec_max_offset(self.total_rows, self.visible_rows),
    {
        if self.total_rows > self.visible_rows {
            self.total_rows - self.visible_rows
        } else {
            0
        }
    }

    /// Moves the viewport up by `rows`, stopping at the top. An offset that
    /// was beyond the largest one is held there.
    pub fn scroll_up(&mut self, rows: usize)
        ensures
            final(self).wf(),
            final(self).offset == spec_clamped(
                old(self).offset - rows,
                old(self).total_rows,
                old(self).visible_rows,
            ),
            final(self).total_rows == old(self).total_rows,
            final(self).visible_rows == old(self).visible_rows,
    {
        let max: usize = self.max_offset();
        let moved: usize = self.offset.saturating_sub(rows);
        self.offset = if moved > max { max } else { moved };
    }

    /// Moves the viewport down by `rows`, stopping at the largest offset.
    pub fn scroll_down(&mut self, rows: usize)
        ensures
            final(self).wf(),
            final(self).offset == spec_clamped(
                old(self).offset + rows,
                old(self).total_rows,
                old(self).visible_rows,
            ),
            final(self).total_rows == old(self).total_rows,
            final(self).visible_rows == old(self).visible_rows,
    {
        let max: usize = self.max_offset();
        let moved: usize = self.offset.saturating_add(rows);
        self.offset = if moved > max { max } else { moved };
    }

    /// One step of the wheel upwards.
    pub fn wheel_up(&mut self)
        ensures
            final(self).wf(),
            final(self).offset == spec_clamped(
                old(self).offset - WHEEL_STEP,
                old(self).total_rows,
                old(self).visible_rows,
            ),
            final(self).total_rows == old(self).total_rows,
            final(self).visible_rows == old(self).visible_rows,
    {
        self.scroll_up(WHEEL_STEP);
    }

    /// One step of the wheel downwards.
    pub fn wheel_down(&mut self)
        ensures
            final(self).wf(),
            final(self).offset == spec_clamped(
                old(self).offset + WHEEL_STEP,
                old(self).total_rows,
                old(self).visible_rows,
            ),
            final(self).total_rows == old(self).total_rows,
            final(self).visible_rows == old(self).visible_rows,
    {
        self.scroll_down(WHEEL_STEP);
    }

    /// One page up: as many rows as are visible.
    pub fn page_up(&mut self)
        ensures
            final(self).wf(),
            final(self).offset == spec_clamped(
                old(self).offset - old(self).visible_rows,
                old(self).total_rows,
                old(self).visible_rows,
            ),
            final(self).total_rows == old(self).total_rows,
            final(self).visible_rows == old(self).visible_rows,
    {
        let page: usize = self.visible_rows;
        self.scroll_up(page);
    }

    /// One page down: as many rows as are visible.
    pub fn page_down(&mut self)
        ensures
            final(self).wf(),
            final(self).offset == spec_clamped(
                old(self).offset + old(self).visible_rows,
                old(self).total_rows,
                old(self).visible_rows,
            ),
            final(self).total_rows == old(self).total_rows,
            final(self).visible_rows == old(self).visible_rows,
    {
        let page: usize = self.visible_rows;
        self.scroll_down(page);
    }

    /// Jumps to the first row.
    pub fn to_top(&mut self)
        ensures
            final(self).wf(),
            final(self).offset == 0,
            final(self).total_rows == old(self).total_rows,
            final(self).visible_rows == old(self).visible_rows,
    {
        self.offset = 0;
    }

    /// Jumps to the last page.
    pub fn to_bottom(&mut self)
        ensures
            final(self).wf(),
            final(self).offset == spec_max_offset(old(self).total_rows, old(self).visible_rows),
            final(self).total_rows == old(self).total_rows,
            final(self).visible_rows == old(self).visible_rows,
    {
        self.offset = self.max_offset();
    }

    /// Takes the sizes of a new frame and holds the offset within them.
    pub fn reclamp(&mut self, total_rows: usize, visible_rows: usize)
        ensures
            final(self).wf(),
            final(self).total_rows == total_rows,
            final(self).visible_rows == visible_rows,
            final(self).offset == spec_clamped(old(self).offset as int, total_rows, visible_rows),
    {
        self.total_rows = total_rows;
        self.visible_rows = visible_rows;
        let max: usize = self.max_offset();
        if self.offset > max {
            self.offset = max;
        }
    }
}

/// A viewport at the largest offset stays there on a step of the wheel
/// downwards.
pub proof fn lemma_wheel_down_at_bottom(state: ScrollState)
    requires
        state.offset == spec_max_offset(state.total_rows, state.visible_rows),
    ensures
        spec_clamped(state.offset + WHEEL_STEP, state.total_rows, state.visible_rows)
            == state.offset,
{
}

/// Whatever offset is asked for, the one that is kept lies between zero and
/// the largest offset that the sizes allow.
pub proof fn lemma_clamped_in_bounds(offset: int, total_rows: usize, visible_rows: usize)
    ensures
        0 <= spec_clamped(offset, total_rows, visible_rows) <= spec_max_offset(
            total_rows,
            visible_rows,
        ),
        0 <= offset <= spec_max_offset(total_rows, visible_rows) ==> spec_clamped(
            offset,
            total_rows,
            visible_rows,
        ) == offset,
{
}

} // verus!
