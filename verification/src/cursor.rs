//! The cursor of the emulator as the pane shows it.
//!
//! The emulator reports a logical cursor in grid coordinates. The pane
//! places the host caret on it where the scroll offset leaves it in view,
//! and may draw a blinking shape over it.

use crate::geometry::{grid_to_host, spec_grid_to_host, Pane};
use vstd::prelude::*;

verus! {

/// Milliseconds between two changes of the blink phase.
pub const BLINK_INTERVAL_MS: u64 = 500;

/// The shape drawn over the cursor cell.
#[derive(Clone, Copy, Debug, PartialEq, Eq, Structural)]
pub enum CursorShape {
    Block,
    Underline,
    Beam,
    Hollow,
}

/// What the pane knows of the cursor.
#[derive(Clone, Copy, Debug, PartialEq, Eq, Structural)]
pub struct CursorState {
    /// Grid column of the logical cursor.
    pub col: u16,
    /// Grid row of the logical cursor.
    pub row: usize,
    /// The character in the cursor's cell.
    pub character: char,
    pub shape: CursorShape,
    pub visible: bool,
    /// The blink phase: the shape is drawn while it is on.
    pub blink_on: bool,
    /// When the blink phase last changed, in milliseconds.
    pub last_blink_ms: u64,
}

/// One cell drawn over the grid to show the cursor.
#[derive(Clone, Copy, Debug, PartialEq, Eq, Structural)]
pub struct CursorOverlay {
    pub host_col: u16,
    pub host_row: u16,
    pub glyph: char,
    /// Drawn dark on light, where the other shapes are drawn light on dark.
    pub inverse: bool,
}

impl CursorState {
    /// The cursor lies within the rows that the pane shows.
    pub open spec fn spec_in_view(&self, pane: Pane, scroll_offset: usize) -> bool {
        self.row >= scroll_offset && self.row < scroll_offset + pane.spec_inner_rows()
    }

    /// Where the host caret goes: on the cursor where it is in view, else
    /// parked in the host's top left corner.
    pub open spec fn spec_caret_position(&self, pane: Pane, scroll_offset: usize) -> (u16, u16) {
        if self.spec_in_view(pane, scroll_offset) {
            spec_grid_to_host(self.col, self.row, pane, scroll_offset)->0
        } else {
            (0, 0)
        }
    }

    /// The cursor after `now_ms`: the blink phase changes once more than the
    /// interval has passed since its last change.
    pub open spec fn spec_ticked(&self, now_ms: u64) -> CursorState {
        if now_ms - self.last_blink_ms > BLINK_INTERVAL_MS {
            CursorState { blink_on: !self.blink_on, last_blink_ms: now_ms, ..*self }
        } else {
            *self
        }
    }

    /// The character that the shape shows: the one under a block, where a
    /// blank stands for an empty cell, and a mark of its own for the others.
    pub open spec fn spec_glyph(&self) -> char {
        match self.shape {
            CursorShape::Block => if self.character == '\0' {
                ' '
            } else {
                self.character
            },
            CursorShape::Underline => '_',
            CursorShape::Beam => '|',
            CursorShape::Hollow => '\u{25A1}',
        }
    }

    /// The shape to draw: none while the cursor is hidden, in the off phase
    /// of its blinking, scrolled out of view or right of the pane's
    /// interior; else its glyph on the host cell of the cursor.
    pub open spec fn spec_overlay(&self, pane: Pane, scroll_offset: usize) -> Option<
        CursorOverlay,
    > {
        if self.visible && self.blink_on && self.spec_in_view(pane, scroll_offset) && self.col
            < pane.width - 2 {
            let host = spec_grid_to_host(self.col, self.row, pane, scroll_offset)->0;
            Some(
                CursorOverlay {
                    host_col: host.0,
                    host_row: host.1,
                    glyph: self.spec_glyph(),
                    inverse: self.shape is Block,
                },
            )
        } else {
            None
        }
    }

    /// A visible block cursor in the grid's top left corner, over a blank,
    /// in the on phase since `now_ms`.
    pub open spec fn spec_new(now_ms: u64) -> CursorState {
        CursorState {
            col: 0,
            row: 0,
            character: ' ',
            shape: CursorShape::Block,
            visible: true,
            blink_on: true,
            last_blink_ms: now_ms,
        }
    }

    /// A visible block cursor in the grid's top left corner, over a blank,
    /// in the on phase since `now_ms`.
    pub fn new(now_ms: u64) -> (cursor: CursorState)
        ensures
            cursor == Self::spec_new(now_ms),
    {
        CursorState {
            col: 0,
            row: 0,
            character: ' ',
            shape: CursorShape::Block,
            visible: true,
            blink_on: true,
            last_blink_ms: now_ms,
        }
    }

    /// Takes the logical cursor that the emulator reports.
    pub fn set_position(&mut self, col: u16, row: usize, character: char)
        ensures
            *final(self) == (CursorState { col, row, character, ..*old(self) }),
    {
        self.col = col;
        self.row = row;
        self.character = character;
    }

    /// Lets the blink phase follow the clock.
    pub fn tick(&mut self, now_ms: u64)
        ensures
            *final(self) == old(self).spec_ticked(now_ms),
    {
        if now_ms > self.last_blink_ms && now_ms - self.last_blink_ms > BLINK_INTERVAL_MS {
            self.blink_on = !self.blink_on;
            self.last_blink_ms = now_ms;
        }
    }

    /// Whether the cursor lies within the rows that the pane shows.
    pub fn in_view(&self, pane: &Pane, scroll_offset: usize) -> (shown: bool)
        ensures
            shown == self.spec_in_view(*pane, scroll_offset),
            shown == spec_grid_to_host(self.col, self.row, *pane, scroll_offset) is Some,
    {
        self.row >= scroll_offset && self.row - scroll_offset < pane.inner_rows() as usize
    }

    /// Where the host caret goes.
    pub fn caret_position(&self, pane: &Pane, scroll_offset: usize) -> (caret: (u16, u16))
        ensures
            caret == self.spec_caret_position(*pane, scroll_offset),
    {
        match grid_to_host(self.col, self.row, pane, scroll_offset) {
            Some(host) => host,
            None => (0, 0),
        }
    }

    /// The character that the shape shows.
    pub fn glyph(&self) -> (glyph: char)
        ensures
            glyph == self.spec_glyph(),
    {
        match self.shape {
            CursorShape::Block => if self.character == '\0' {
                ' '
            } else {
                self.character
            },
            CursorShape::Underline => '_',
            CursorShape::Beam => '|',
            CursorShape::Hollow => '\u{25A1}',
        }
    }

    /// The shape to draw over the grid, if any.
    pub fn overlay(&self, pane: &Pane, scroll_offset: usize) -> (overlay: Option<CursorOverlay>)
        ensures
            overlay == self.spec_overlay(*pane, scroll_offset),
    {
        if !self.visible || !self.blink_on {
            return None;
        }
        if pane.width < 2 || self.col >= pane.width - 2 {
            return None;
        }
        match grid_to_host(self.col, self.row, pane, scroll_offset) {
            Some(host) => Some(
                CursorOverlay {
                    host_col: host.0,
                    host_row: host.1,
                    glyph: self.glyph(),
                    inverse: match self.shape {
                        CursorShape::Block => true,
                        _ => false,
                    },
                },
            ),
            None => None,
        }
    }
}

} // verus!
