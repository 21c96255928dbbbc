//! The state of the pane and what each input does to it.
//!
//! The loop that draws frames and reads the host's input hands every key
//! and mouse event to this state. The state changes, and the loop is told
//! what to do for it: send bytes to the shell, or copy a text.

use crate::cursor::CursorState;
use crate::geometry::{host_to_grid, spec_host_to_grid, Pane};
use crate::input::{
    cursor_position_escape, key_bytes, mouse_report, spec_cursor_escape_text, spec_key_bytes,
    spec_mouse_report, Key, KeyInput, ReportButton,
};
use crate::quit::QuitGate;
use crate::scroll::{spec_clamped, spec_max_offset, ScrollState, WHEEL_STEP};
use crate::selection::{spec_clamp_col, GridPoint, Selection};
use crate::text::{has_content, selected_text, spec_has_content, spec_rows, spec_selected_text};
use vstd::prelude::*;
use vstd::utf8::encode_utf8;

verus! {

/// What the mouse did.
#[derive(Clone, Copy, Debug, PartialEq, Eq, Structural)]
pub enum MouseKind {
    LeftDown,
    LeftUp,
    LeftDrag,
    RightDown,
    RightUp,
    Moved,
    WheelUp,
    WheelDown,
    /// Any event that the pane has no use for.
    Other,
}

/// A mouse event at a host cell.
#[derive(Clone, Copy, Debug, PartialEq, Eq, Structural)]
pub struct MouseInput {
    pub kind: MouseKind,
    pub column: u16,
    pub row: u16,
}

/// What the emulator tells the loop. The events are hints: the loop draws
/// at its own pace whatever comes, and ends once the shell is gone.
#[derive(Clone, Copy, Debug, PartialEq, Eq, Structural)]
pub enum EmulatorEvent {
    TitleChanged,
    Bell,
    Redraw,
    /// The shell has exited.
    Exit,
    /// The emulator's thread is gone and no event will follow.
    Closed,
    /// Any event that the pane has no use for.
    Other,
}

/// What the loop has to do after an input.
#[derive(Debug, PartialEq, Eq)]
pub enum Effect {
    Nothing,
    /// Write these bytes to the shell.
    Send(Vec<u8>),
    /// Hand this text to the clipboard.
    Copy(String),
}

/// An effect as a mathematical value.
pub enum EffectModel {
    Nothing,
    Send(Seq<u8>),
    Copy(Seq<char>),
}

impl View for Effect {
    type V = EffectModel;

    open spec fn view(&self) -> EffectModel {
        match *self {
            Effect::Nothing => EffectModel::Nothing,
            Effect::Send(bytes) => EffectModel::Send(bytes@),
            Effect::Copy(text) => EffectModel::Copy(text@),
        }
    }
}

/// The key chord that asks to quit: Control and `z`.
pub open spec fn spec_is_quit_chord(input: KeyInput) -> bool {
    input.ctrl && input.key == Key::Char('z')
}

/// The grid cell under a host cell of the pane, if there is one.
pub open spec fn spec_grid_point(column: u16, row: u16, pane: Pane, scroll_offset: usize) -> Option<
    GridPoint,
> {
    match spec_host_to_grid(column, row, pane, scroll_offset) {
        Some((grid_col, grid_row)) => Some(GridPoint { col: grid_col, row: grid_row }),
        None => None,
    }
}

/// The button that a wheel event reports.
pub open spec fn spec_wheel_button(kind: MouseKind) -> ReportButton {
    if kind is WheelUp {
        ReportButton::WheelUp
    } else {
        ReportButton::WheelDown
    }
}

/// What a click asks of the loop: the shell's cursor is sent to the grid
/// cell under the pointer, where there is one.
pub open spec fn spec_click_effect(point: Option<GridPoint>) -> EffectModel {
    match point {
        Some(p) => EffectModel::Send(encode_utf8(spec_cursor_escape_text(p.col, p.row))),
        None => EffectModel::Nothing,
    }
}

/// What the end of a selection asks of the loop: its text is copied if it
/// holds more than white space.
pub open spec fn spec_copy_effect(text: Seq<char>) -> EffectModel {
    if spec_has_content(text) {
        EffectModel::Copy(text)
    } else {
        EffectModel::Nothing
    }
}

/// Everything that the loop keeps between two frames.
#[derive(Clone, Copy, Debug, PartialEq, Eq, Structural)]
pub struct PaneState {
    pub pane: Pane,
    pub scroll: ScrollState,
    pub selection: Selection,
    pub cursor: CursorState,
    pub quit: QuitGate,
    /// The pointer was dragged while nothing was selected, and the button
    /// has not come up since.
    pub stray_drag: bool,
}

impl PaneState {
    /// The scroll offset is within its bounds, and a page is as many rows
    /// as the pane shows.
    pub open spec fn wf(&self) -> bool {
        &&& self.scroll.wf()
        &&& self.scroll.visible_rows == self.pane.spec_inner_rows()
    }

    /// The grid cell under a host cell.
    pub open spec fn spec_point_at(&self, column: u16, row: u16) -> Option<GridPoint> {
        spec_grid_point(column, row, self.pane, self.scroll.offset)
    }

    /// The state with another scroll offset.
    pub open spec fn spec_scrolled_to(&self, offset: usize) -> PaneState {
        PaneState { scroll: ScrollState { offset, ..self.scroll }, ..*self }
    }

    /// The state with the offset moved by `delta` rows and held in bounds.
    pub open spec fn spec_scrolled_by(&self, delta: int) -> PaneState {
        self.spec_scrolled_to(
            spec_clamped(
                self.scroll.offset + delta,
                self.scroll.total_rows,
                self.scroll.visible_rows,
            ),
        )
    }

    /// The state after a key press. The quit chord goes to the quit gate.
    /// Any other key first takes a pending quit chord back; the paging keys
    /// then scroll, and the rest leaves the state as it is.
    pub open spec fn spec_after_key(&self, input: KeyInput) -> PaneState {
        if spec_is_quit_chord(input) {
            PaneState { quit: self.quit.spec_press_quit(), ..*self }
        } else {
            let reset = PaneState { quit: self.quit.spec_press_other(), ..*self };
            match input.key {
                Key::PageUp => reset.spec_scrolled_by(-(self.scroll.visible_rows as int)),
                Key::PageDown => reset.spec_scrolled_by(self.scroll.visible_rows as int),
                Key::Home => if input.ctrl {
                    reset.spec_scrolled_to(0)
                } else {
                    reset
                },
                Key::End => if input.ctrl {
                    reset.spec_scrolled_to(
                        spec_max_offset(self.scroll.total_rows, self.scroll.visible_rows),
                    )
                } else {
                    reset
                },
                _ => reset,
            }
        }
    }

    /// What a key press asks of the loop: the bytes of the key, unless it is
    /// the quit chord or a key that sends none.
    pub open spec fn spec_key_effect(input: KeyInput) -> EffectModel {
        if spec_is_quit_chord(input) {
            EffectModel::Nothing
        } else {
            match spec_key_bytes(input.key) {
                Some(bytes) => EffectModel::Send(bytes),
                None => EffectModel::Nothing,
            }
        }
    }

    /// The state after a mouse event. `reporting` says that the shell has
    /// asked for mouse reports: the wheel then does not scroll the pane.
    pub open spec fn spec_after_mouse(&self, mouse: MouseInput, reporting: bool) -> PaneState {
        let point = self.spec_point_at(mouse.column, mouse.row);
        match mouse.kind {
            MouseKind::LeftDown => match point {
                Some(p) => PaneState {
                    selection: Selection::Active { anchor: p, head: p, dragging: false },
                    stray_drag: false,
                    ..*self
                },
                None => *self,
            },
            MouseKind::LeftDrag => if self.selection is Active {
                PaneState { selection: self.selection.spec_dragged_to(point), ..*self }
            } else {
                PaneState { stray_drag: true, ..*self }
            },
            MouseKind::Moved => PaneState {
                selection: self.selection.spec_moved_to(point),
                ..*self
            },
            MouseKind::LeftUp => PaneState {
                selection: Selection::Inactive,
                stray_drag: false,
                ..*self
            },
            MouseKind::WheelUp => if reporting {
                *self
            } else {
                self.spec_scrolled_by(-(WHEEL_STEP as int))
            },
            MouseKind::WheelDown => if reporting {
                *self
            } else {
                self.spec_scrolled_by(WHEEL_STEP as int)
            },
            _ => *self,
        }
    }

    /// What a release of the left button asks of the loop, `point` being
    /// the grid cell under the pointer and `rows` the text of the grid.
    ///
    /// After a drag the release ends the selection: its text is copied if
    /// it holds more than white space. Without a drag it is a click: the
    /// shell's cursor is sent to the cell, and nothing is copied. A release
    /// that ends a drag which began outside the grid asks for nothing.
    pub open spec fn spec_release_effect(&self, point: Option<GridPoint>, rows: Seq<Seq<char>>) -> EffectModel {
        match self.selection {
            Selection::Active { anchor, head, dragging: true } => {
                match self.selection.spec_finished_range(point) {
                    Some((start, end)) => spec_copy_effect(spec_selected_text(rows, start, end)),
                    None => EffectModel::Nothing,
                }
            },
            Selection::Active { anchor, head, dragging: false } => spec_click_effect(point),
            Selection::Inactive => if self.stray_drag {
                EffectModel::Nothing
            } else {
                spec_click_effect(point)
            },
        }
    }

    /// What a mouse event asks of the loop, `rows` being the text of the
    /// grid: a release of the left button copies or clicks, and a wheel
    /// event is reported to a shell that asked for mouse reports, with the
    /// cell's place in the pane.
    pub open spec fn spec_mouse_effect(
        &self,
        mouse: MouseInput,
        reporting: bool,
        rows: Seq<Seq<char>>,
    ) -> EffectModel {
        match mouse.kind {
            MouseKind::LeftUp => self.spec_release_effect(
                self.spec_point_at(mouse.column, mouse.row),
                rows,
            ),
            MouseKind::WheelUp | MouseKind::WheelDown => if reporting {
                match spec_host_to_grid(mouse.column, mouse.row, self.pane, 0) {
                    Some((col, row)) => EffectModel::Send(
                        spec_mouse_report(spec_wheel_button(mouse.kind), col, row as u16),
                    ),
                    None => EffectModel::Nothing,
                }
            } else {
                EffectModel::Nothing
            },
            _ => EffectModel::Nothing,
        }
    }

    /// The state after an event of the emulator: the exit flag is set once
    /// the shell has exited or the emulator is gone.
    pub open spec fn spec_after_emulator_event(&self, event: EmulatorEvent) -> PaneState {
        if event is Exit || event is Closed {
            PaneState { quit: QuitGate { exit: true, ..self.quit }, ..*self }
        } else {
            *self
        }
    }

    /// The state at the start of a frame: the pane's place, the height of
    /// the grid and the logical cursor are taken over, the scroll offset and
    /// the selection's columns are held within the new sizes, and the blink
    /// phase follows the clock.
    pub open spec fn spec_frame_begun(
        &self,
        pane: Pane,
        total_rows: usize,
        cursor_col: u16,
        cursor_row: usize,
        cursor_char: char,
        now_ms: u64,
    ) -> PaneState {
        PaneState {
            pane,
            scroll: ScrollState {
                offset: spec_clamped(
                    self.scroll.offset as int,
                    total_rows,
                    pane.spec_inner_rows() as usize,
                ),
                total_rows,
                visible_rows: pane.spec_inner_rows() as usize,
            },
            selection: self.selection.spec_reclamped(spec_border_cols(pane)),
            cursor: (CursorState {
                col: cursor_col,
                row: cursor_row,
                character: cursor_char,
                ..self.cursor
            }).spec_ticked(now_ms),
            quit: self.quit,
            stray_drag: self.stray_drag,
        }
    }

    /// The state of a pane before its first frame: an empty pane and grid,
    /// nothing selected, nothing scrolled, no quit chord pending.
    pub fn new(now_ms: u64) -> (state: PaneState)
        ensures
            state.wf(),
            state == (PaneState {
                pane: Pane { x: 0, y: 0, width: 0, height: 0 },
                scroll: ScrollState { offset: 0, total_rows: 0, visible_rows: 0 },
                selection: Selection::Inactive,
                cursor: CursorState::spec_new(now_ms),
                quit: QuitGate { pending: false, exit: false },
                stray_drag: false,
            }),
    {
        PaneState {
            pane: Pane { x: 0, y: 0, width: 0, height: 0 },
            scroll: ScrollState::new(0, 0),
            selection: Selection::new(),
            cursor: CursorState::new(now_ms),
            quit: QuitGate::new(),
            stray_drag: false,
        }
    }

    /// Whether the loop has to end.
    pub fn should_quit(&self) -> (quit: bool)
        ensures
            quit == self.quit.exit,
    {
        self.quit.should_exit()
    }

    /// The grid cell under a host cell.
    pub fn point_at(&self, column: u16, row: u16) -> (point: Option<GridPoint>)
        ensures
            point == self.spec_point_at(column, row),
    {
        match host_to_grid(column, row, &self.pane, self.scroll.offset) {
            Some((grid_col, grid_row)) => Some(GridPoint { col: grid_col, row: grid_row }),
            None => None,
        }
    }

    /// Starts a frame with what the loop has read: the area of the pane,
    /// the number of rows of the grid, the logical cursor and the time.
    pub fn begin_frame(
        &mut self,
        pane: Pane,
        total_rows: usize,
        cursor_col: u16,
        cursor_row: usize,
        cursor_char: char,
        now_ms: u64,
    )
        ensures
            final(self).wf(),
            *final(self) == old(self).spec_frame_begun(
                pane,
                total_rows,
                cursor_col,
                cursor_row,
                cursor_char,
                now_ms,
            ),
    {
        self.pane = pane;
        self.scroll.reclamp(total_rows, pane.inner_rows() as usize);
        self.selection.reclamp_columns(border_cols(&pane));
        self.cursor.set_position(cursor_col, cursor_row, cursor_char);
        self.cursor.tick(now_ms);
    }

    /// Takes an event of the emulator.
    pub fn handle_emulator_event(&mut self, event: EmulatorEvent)
        ensures
            *final(self) == old(self).spec_after_emulator_event(event),
            old(self).wf() ==> final(self).wf(),
    {
        match event {
            EmulatorEvent::Exit | EmulatorEvent::Closed => {
                self.quit.exit = true;
            },
            _ => {},
        }
    }

    /// Takes a key press and says what the loop has to do for it.
    pub fn handle_key_event(&mut self, input: KeyInput) -> (effect: Effect)
        ensures
            *final(self) == old(self).spec_after_key(input),
            old(self).wf() ==> final(self).wf(),
            effect@ == Self::spec_key_effect(input),
    {
        if input.ctrl && is_char(input.key, 'z') {
            self.quit.press_quit();
            return Effect::Nothing;
        }
        self.quit.press_other();
        match input.key {
            Key::PageUp => {
                self.scroll.page_up();
            },
            Key::PageDown => {
                self.scroll.page_down();
            },
            Key::Home => {
                if input.ctrl {
                    self.scroll.to_top();
                }
            },
            Key::End => {
                if input.ctrl {
                    self.scroll.to_bottom();
                }
            },
            _ => {},
        }
        match key_bytes(input.key) {
            Some(bytes) => Effect::Send(bytes),
            None => Effect::Nothing,
        }
    }

    /// Takes a mouse event and says what the loop has to do for it.
    /// `reporting` says whether the shell has asked for mouse reports, and
    /// `rows` is the text of the grid, top row first.
    pub fn handle_mouse_event(&mut self, mouse: MouseInput, reporting: bool, rows: &Vec<String>) -> (effect:
        Effect)
        ensures
            *final(self) == old(self).spec_after_mouse(mouse, reporting),
            old(self).wf() ==> final(self).wf(),
            effect@ == old(self).spec_mouse_effect(mouse, reporting, spec_rows(rows@)),
    {
        let point = self.point_at(mouse.column, mouse.row);
        match mouse.kind {
            MouseKind::LeftDown => {
                if let Some(p) = point {
                    self.selection.start(p);
                    self.stray_drag = false;
                }
                Effect::Nothing
            },
            MouseKind::LeftDrag => {
                if self.selection.is_active() {
                    self.selection.drag_to(point);
                } else {
                    self.stray_drag = true;
                }
                Effect::Nothing
            },
            MouseKind::Moved => {
                self.selection.move_to(point);
                Effect::Nothing
            },
            MouseKind::LeftUp => {
                let strayed = self.stray_drag;
                let selecting = self.selection.is_active();
                let dragged = self.selection.is_dragging();
                let range = self.selection.finish(point);
                self.stray_drag = false;
                if dragged {
                    match range {
                        Some((start, end)) => copy_effect(selected_text(rows, start, end)),
                        None => Effect::Nothing,
                    }
                } else if selecting || !strayed {
                    click_effect(point)
                } else {
                    Effect::Nothing
                }
            },
            MouseKind::WheelUp => {
                if reporting {
                    self.wheel_report(ReportButton::WheelUp, mouse.column, mouse.row)
                } else {
                    self.scroll.wheel_up();
                    Effect::Nothing
                }
            },
            MouseKind::WheelDown => {
                if reporting {
                    self.wheel_report(ReportButton::WheelDown, mouse.column, mouse.row)
                } else {
                    self.scroll.wheel_down();
                    Effect::Nothing
                }
            },
            _ => Effect::Nothing,
        }
    }

    /// The report of a wheel event at a host cell: sent for a cell inside
    /// the pane's border, with the cell's place in the pane.
    pub fn wheel_report(&self, button: ReportButton, column: u16, row: u16) -> (effect: Effect)
        ensures
            effect@ == match spec_host_to_grid(column, row, self.pane, 0) {
                Some((col, relative_row)) => EffectModel::Send(
                    spec_mouse_report(button, col, relative_row as u16),
                ),
                None => EffectModel::Nothing,
            },
    {
        match host_to_grid(column, row, &self.pane, 0) {
            Some((col, relative_row)) => Effect::Send(mouse_report(button, col, relative_row as u16)),
            None => Effect::Nothing,
        }
    }
}

/// What a click at the grid cell `point` asks of the loop.
pub fn click_effect(point: Option<GridPoint>) -> (effect: Effect)
    ensures
        effect@ == spec_click_effect(point),
{
    match point {
        Some(p) => Effect::Send(cursor_position_escape(p.col, p.row)),
        None => Effect::Nothing,
    }
}

/// What the end of a selection with this text asks of the loop.
pub fn copy_effect(text: String) -> (effect: Effect)
    ensures
        effect@ == spec_copy_effect(text@),
{
    if has_content(text.as_str()) {
        Effect::Copy(text)
    } else {
        Effect::Nothing
    }
}

/// The number of columns inside a pane's border.
pub open spec fn spec_border_cols(pane: Pane) -> u16 {
    if pane.width >= 2 {
        (pane.width - 2) as u16
    } else {
        0
    }
}

/// The number of columns inside a pane's border.
pub fn border_cols(pane: &Pane) -> (cols: u16)
    ensures
        cols == spec_border_cols(*pane),
{
    if pane.width >= 2 {
        pane.width - 2
    } else {
        0
    }
}

/// Whether a key is the character `c`.
pub fn is_char(key: Key, c: char) -> (same: bool)
    ensures
        same == (key == Key::Char(c)),
{
    match key {
        Key::Char(k) => k == c,
        _ => false,
    }
}

} // verus!
