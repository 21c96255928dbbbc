//! What a frame shows: the rows in view, the highlighted part of each row,
//! the scrollbar and the title.

use crate::cursor::CursorState;
use crate::number::{push_decimal, spec_decimal};
use crate::quit::QuitGate;
use crate::scroll::{spec_clamped, spec_max_offset, ScrollState};
use crate::selection::Selection;
use crate::text::spec_row_columns;
use vstd::prelude::*;
use vstd::string::StringExecFns;

verus! {

/// The rows of the grid that a frame shows: from the scroll offset on, as
/// many as are visible, as far as the grid has them. The pair holds the
/// first row shown and the row after the last.
pub open spec fn spec_visible_window(total_rows: usize, offset: usize, visible_rows: usize) -> (
    usize,
    usize,
) {
    if offset >= total_rows {
        (total_rows, total_rows)
    } else if offset + visible_rows >= total_rows {
        (offset, total_rows)
    } else {
        (offset, (offset + visible_rows) as usize)
    }
}

/// The rows of the grid that a frame shows.
pub fn visible_window(total_rows: usize, offset: usize, visible_rows: usize) -> (window: (
    usize,
    usize,
))
    ensures
        window == spec_visible_window(total_rows, offset, visible_rows),
        window.0 <= window.1 <= total_rows,
        window.1 - window.0 <= visible_rows,
{
    if offset >= total_rows {
        (total_rows, total_rows)
    } else if visible_rows >= total_rows - offset {
        (offset, total_rows)
    } else {
        (offset, offset + visible_rows)
    }
}

/// The columns of a row that are drawn highlighted, as the first column and
/// the column after the last; the two are equal where none is.
pub open spec fn spec_highlight(selection: Selection, row: int, len: int) -> (int, int) {
    match selection.spec_range() {
        Some((start, end)) => spec_row_columns(len, row, start, end),
        None => (0, 0),
    }
}

/// The part of a row of `len` characters to draw with foreground and
/// background swapped.
pub fn highlight(selection: &Selection, row: usize, len: usize) -> (columns: (usize, usize))
    ensures
        (columns.0 as int, columns.1 as int) == spec_highlight(*selection, row as int, len as int),
        columns.0 <= columns.1 <= len,
        forall|col: int|
            0 <= col < len ==> (columns.0 <= col < columns.1 <==> selection.spec_contains(
                row as int,
                col,
            )),
{
    match selection.range() {
        None => (0, 0),
        Some((start, end)) => {
            if row < start.row || row > end.row {
                return (0, 0);
            }
            let from: usize = if row == start.row {
                start.col as usize
            } else {
                0
            };
            let to: usize = if row == end.row && (end.col as usize) + 1 < len {
                end.col as usize + 1
            } else {
                len
            };
            if from < to {
                (from, to)
            } else {
                (0, 0)
            }
        },
    }
}

/// `n / d` rounded to the nearest whole number, halves upwards.
pub open spec fn spec_round_div(n: int, d: int) -> int {
    (2 * n + d) / (2 * d)
}

/// The height of the scrollbar's thumb: the share of the track that the
/// visible rows are of all rows, rounded, and one cell at least.
pub open spec fn spec_thumb_height(total_rows: usize, visible_rows: usize, track_height: u16) -> int {
    let rounded = spec_round_div(visible_rows * track_height, total_rows as int);
    if rounded < 1 {
        1
    } else {
        rounded
    }
}

/// The thumb's distance from the top of the track: the share of the free
/// track that the offset, held within its bounds, is of the largest offset,
/// rounded.
pub open spec fn spec_thumb_top(
    total_rows: usize,
    visible_rows: usize,
    offset: usize,
    track_height: u16,
) -> int {
    spec_round_div(
        spec_clamped(offset as int, total_rows, visible_rows) * (track_height - spec_thumb_height(
            total_rows,
            visible_rows,
            track_height,
        )),
        spec_max_offset(total_rows, visible_rows) as int,
    )
}

/// The scrollbar's thumb as its top and its height, in cells of the track.
/// There is a scrollbar only where rows are out of view and the track has
/// three cells or more.
pub open spec fn spec_scrollbar_thumb(scroll: ScrollState, track_height: u16) -> Option<(u16, u16)> {
    if track_height >= 3 && scroll.total_rows > scroll.visible_rows {
        Some(
            (
                spec_thumb_top(
                    scroll.total_rows,
                    scroll.visible_rows,
                    scroll.offset,
                    track_height,
                ) as u16,
                spec_thumb_height(scroll.total_rows, scroll.visible_rows, track_height) as u16,
            ),
        )
    } else {
        None
    }
}

/// `n / d` rounded to the nearest whole number, halves upwards.
fn round_div(n: u128, d: u128) -> (q: u128)
    requires
        d > 0,
        2 * n + d <= u128::MAX,
        2 * d <= u128::MAX,
    ensures
        q == spec_round_div(n as int, d as int),
{
    (2 * n + d) / (2 * d)
}

proof fn lemma_round_div_bound(n: int, d: int, bound: int)
    requires
        d > 0,
        0 <= n <= bound * d,
        0 <= bound,
    ensures
        0 <= spec_round_div(n, d) <= bound,
{
    assert(2 * n + d < (bound + 1) * (2 * d)) by (nonlinear_arith)
        requires
            d > 0,
            n <= bound * d,
    ;
    assert((2 * n + d) / (2 * d) < bound + 1) by (nonlinear_arith)
        requires
            d > 0,
            2 * n + d < (bound + 1) * (2 * d),
    ;
    assert((2 * n + d) / (2 * d) >= 0) by (nonlinear_arith)
        requires
            d > 0,
            n >= 0,
    ;
}

/// Places the scrollbar's thumb on a track of `track_height` cells.
pub fn scrollbar_thumb(scroll: &ScrollState, track_height: u16) -> (thumb: Option<(u16, u16)>)
    ensures
        thumb == spec_scrollbar_thumb(*scroll, track_height),
        thumb matches Some((top, height)) ==> 1 <= height && top + height <= track_height,
        thumb matches Some((top, height)) ==> top == spec_thumb_top(
            scroll.total_rows,
            scroll.visible_rows,
            scroll.offset,
            track_height,
        ) && height == spec_thumb_height(scroll.total_rows, scroll.visible_rows, track_height),
{
    if track_height < 3 || scroll.total_rows <= scroll.visible_rows {
        return None;
    }
    let total: u128 = scroll.total_rows as u128;
    let visible: u128 = scroll.visible_rows as u128;
    let track: u128 = track_height as u128;
    let max: u128 = total - visible;
    proof {
        assert(visible * track <= track * total) by (nonlinear_arith)
            requires
                visible <= total,
                0 <= track,
        ;
        assert(visible * track <= 0x1_0000_0000_0000_0000 * 0x1_0000) by (nonlinear_arith)
            requires
                0 <= visible <= 0x1_0000_0000_0000_0000,
                0 <= track <= 0x1_0000,
        ;
        lemma_round_div_bound(visible * track, total as int, track as int);
    }
    let rounded: u128 = round_div(visible * track, total);
    let height: u128 = if rounded < 1 {
        1
    } else {
        rounded
    };
    let free: u128 = track - height;
    let offset: u128 = if scroll.offset as u128 > max {
        max
    } else {
        scroll.offset as u128
    };
    proof {
        assert(offset * free <= free * max) by (nonlinear_arith)
            requires
                offset <= max,
                0 <= free,
        ;
        assert(offset * free <= 0x1_0000_0000_0000_0000 * 0x1_0000) by (nonlinear_arith)
            requires
                0 <= offset <= 0x1_0000_0000_0000_0000,
                0 <= free <= 0x1_0000,
        ;
        lemma_round_div_bound(offset * free, max as int, free as int);
    }
    let top: u128 = round_div(offset * free, max);
    Some((top as u16, height as u16))
}

/// What the title says of the selection.
pub open spec fn spec_selection_info(selection: Selection) -> Seq<char> {
    match selection {
        Selection::Inactive => Seq::empty(),
        Selection::Active { anchor, head, dragging } => if dragging {
            " [selection: dragging]"@
        } else {
            " [selection: done]"@
        },
    }
}

/// How far the viewport is scrolled, in whole percent of the largest offset.
pub open spec fn spec_scroll_percent(scroll: ScrollState) -> int {
    if scroll.total_rows > scroll.visible_rows {
        (scroll.offset * 100) / (scroll.total_rows - scroll.visible_rows)
    } else {
        0
    }
}

/// What the title says of the scroll offset.
pub open spec fn spec_scroll_info(scroll: ScrollState) -> Seq<char> {
    " [lines:"@ + spec_decimal(scroll.total_rows as nat) + " shown:"@ + spec_decimal(
        scroll.visible_rows as nat,
    ) + " offset:"@ + spec_decimal(scroll.offset as nat) + " ("@ + spec_decimal(
        spec_scroll_percent(scroll) as nat,
    ) + "%)]"@
}

/// What the title says of the cursor.
pub open spec fn spec_cursor_info(cursor: CursorState) -> Seq<char> {
    " [cursor:"@ + spec_decimal(cursor.col as nat) + "x"@ + spec_decimal(cursor.row as nat) + "]"@
}

/// What the title says of the quit gate: the banner that asks for the
/// second press of the quit chord, while one press is pending.
pub open spec fn spec_quit_info(quit: QuitGate) -> Seq<char> {
    if quit.pending {
        " [press Ctrl+Z again to quit]"@
    } else {
        Seq::empty()
    }
}

/// The title of the pane.
pub open spec fn spec_title(
    selection: Selection,
    scroll: ScrollState,
    cursor: CursorState,
    quit: QuitGate,
) -> Seq<char> {
    "Rust Terminal"@ + spec_selection_info(selection) + spec_scroll_info(scroll)
        + spec_cursor_info(cursor) + spec_quit_info(quit)
        + " - wheel/PageUp/PageDown: scroll, Ctrl+Z: quit"@
}

/// How far the viewport is scrolled, in whole percent.
pub fn scroll_percent(scroll: &ScrollState) -> (percent: u128)
    ensures
        percent == spec_scroll_percent(*scroll),
{
    if scroll.total_rows > scroll.visible_rows {
        let max: u128 = (scroll.total_rows - scroll.visible_rows) as u128;
        (scroll.offset as u128 * 100) / max
    } else {
        0
    }
}

/// Appends what the title says of the selection.
fn push_selection_info(text: &mut String, selection: &Selection)
    ensures
        final(text)@ == old(text)@ + spec_selection_info(*selection),
{
    match selection {
        Selection::Inactive => {
            assert(text@ =~= old(text)@ + spec_selection_info(*selection));
        },
        Selection::Active { dragging, .. } => {
            if *dragging {
                text.append(" [selection: dragging]");
            } else {
                text.append(" [selection: done]");
            }
        },
    }
}

/// Appends what the title says of the scroll offset.
fn push_scroll_info(text: &mut String, scroll: &ScrollState)
    ensures
        final(text)@ == old(text)@ + spec_scroll_info(*scroll),
{
    text.append(" [lines:");
    push_decimal(text, scroll.total_rows as u128);
    text.append(" shown:");
    push_decimal(text, scroll.visible_rows as u128);
    text.append(" offset:");
    push_decimal(text, scroll.offset as u128);
    text.append(" (");
    push_decimal(text, scroll_percent(scroll));
    text.append("%)]");
    assert(text@ =~= old(text)@ + spec_scroll_info(*scroll));
}

/// Appends what the title says of the cursor.
fn push_cursor_info(text: &mut String, cursor: &CursorState)
    ensures
        final(text)@ == old(text)@ + spec_cursor_info(*cursor),
{
    text.append(" [cursor:");
    push_decimal(text, cursor.col as u128);
    text.append("x");
    push_decimal(text, cursor.row as u128);
    text.append("]");
    assert(text@ =~= old(text)@ + spec_cursor_info(*cursor));
}

/// Appends what the title says of the quit confirmation.
fn push_quit_info(text: &mut String, quit: &QuitGate)
    ensures
        final(text)@ == old(text)@ + spec_quit_info(*quit),
{
    if quit.pending {
        text.append(" [press Ctrl+Z again to quit]");
    } else {
        assert(text@ =~= old(text)@ + spec_quit_info(*quit));
    }
}

/// Builds the title of the pane from the state that it reports.
pub fn title(selection: &Selection, scroll: &ScrollState, cursor: &CursorState, quit: &QuitGate) -> (text:
    String)
    ensures
        text@ == spec_title(*selection, *scroll, *cursor, *quit),
{
    let mut text = String::from_str("Rust Terminal");
    push_selection_info(&mut text, selection);
    push_scroll_info(&mut text, scroll);
    push_cursor_info(&mut text, cursor);
    push_quit_info(&mut text, quit);
    text.append(" - wheel/PageUp/PageDown: scroll, Ctrl+Z: quit");
    text
}

} // verus!
