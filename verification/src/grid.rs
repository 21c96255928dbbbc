//! The grid snapshot of the emulator and the text of its rows.
//!
//! A wide character takes two columns: the cell that holds it, and a spacer
//! to its right. The text of a row holds each character once, so it leaves
//! the spacers out.

use crate::text::push_char;
use vstd::prelude::*;

verus! {

/// One cell of the grid: its character, whether that character is wide, and
/// whether the cell is the right half of a wide character.
#[derive(Clone, Copy, Debug, PartialEq, Eq, Structural)]
pub struct Cell {
    pub ch: char,
    pub wide: bool,
    pub spacer: bool,
}

/// The text of a row: the characters of its cells in order, spacers left out.
pub open spec fn spec_row_text(cells: Seq<Cell>) -> Seq<char>
    decreases cells.len(),
{
    if cells.len() == 0 {
        Seq::empty()
    } else if cells.last().spacer {
        spec_row_text(cells.drop_last())
    } else {
        spec_row_text(cells.drop_last()).push(cells.last().ch)
    }
}

/// The number of spacers in a row.
pub open spec fn spec_spacer_count(cells: Seq<Cell>) -> nat
    decreases cells.len(),
{
    if cells.len() == 0 {
        0
    } else if cells.last().spacer {
        spec_spacer_count(cells.drop_last()) + 1
    } else {
        spec_spacer_count(cells.drop_last())
    }
}

/// Every wide character is followed by its spacer, and every spacer follows
/// a wide character.
pub open spec fn row_wf(cells: Seq<Cell>) -> bool {
    &&& forall|c: int|
        0 <= c < cells.len() && #[trigger] cells[c].wide ==> c + 1 < cells.len() && cells[c
            + 1].spacer
    &&& forall|c: int|
        0 <= c < cells.len() && #[trigger] cells[c].spacer ==> c > 0 && cells[c - 1].wide
    &&& forall|c: int| 0 <= c < cells.len() ==> !(#[trigger] cells[c].wide && cells[c].spacer)
}


/// Builds the text of one row.
pub fn reconstruct_row(cells: &Vec<Cell>) -> (text: String)
    ensures
        text@ == spec_row_text(cells@),
{
    let mut text = String::new();
    let mut col: usize = 0;
    while col < cells.len()
        invariant
            col <= cells.len(),
            text@ == spec_row_text(cells@.take(col as int)),
        decreases cells.len() - col,
    {
        let cell = cells[col];
        proof {
            assert(cells@.take(col + 1).drop_last() == cells@.take(col as int));
        }
        if !cell.spacer {
            push_char(&mut text, cell.ch);
        }
        col += 1;
    }
    proof {
        assert(cells@.take(col as int) == cells@);
    }
    text
}

/// Builds the text of every row of a snapshot, top row first.
pub fn snapshot_rows(grid: &Vec<Vec<Cell>>) -> (rows: Vec<String>)
    ensures
        rows.len() == grid.len(),
        forall|r: int| 0 <= r < grid.len() ==> (#[trigger] rows[r])@ == spec_row_text(grid[r]@),
{
    let mut rows: Vec<String> = Vec::new();
    let mut r: usize = 0;
    while r < grid.len()
        invariant
            r <= grid.len(),
            rows.len() == r,
            forall|k: int| 0 <= k < r ==> (#[trigger] rows[k])@ == spec_row_text(grid[k]@),
        decreases grid.len() - r,
    {
        let text = reconstruct_row(&grid[r]);
        rows.push(text);
        r += 1;
    }
    rows
}

/// The text of a row is as long as the row less its spacers.
pub proof fn lemma_row_text_len(cells: Seq<Cell>)
    ensures
        spec_row_text(cells).len() + spec_spacer_count(cells) == cells.len(),
    decreases cells.len(),
{
    if cells.len() > 0 {
        lemma_row_text_len(cells.drop_last());
    }
}

/// A row without spacers counts none.
proof fn lemma_no_spacer_count(cells: Seq<Cell>)
    requires
        forall|c: int| 0 <= c < cells.len() ==> !(#[trigger] cells[c]).spacer,
    ensures
        spec_spacer_count(cells) == 0,
    decreases cells.len(),
{
    if cells.len() > 0 {
        lemma_no_spacer_count(cells.drop_last());
    }
}

/// A row whose only spacer stands in column `at` counts one spacer.
proof fn lemma_single_spacer_count(cells: Seq<Cell>, at: int)
    requires
        0 <= at < cells.len(),
        forall|c: int| 0 <= c < cells.len() ==> ((#[trigger] cells[c]).spacer <==> c == at),
    ensures
        spec_spacer_count(cells) == 1,
    decreases cells.len(),
{
    let rest = cells.drop_last();
    if at == cells.len() - 1 {
        lemma_no_spacer_count(rest);
    } else {
        lemma_single_spacer_count(rest, at);
    }
}

/// A well-formed row that holds one wide character, in column `at`, and
/// ordinary characters elsewhere, has a text one shorter than the row.
pub proof fn lemma_one_wide_char_row(cells: Seq<Cell>, at: int)
    requires
        row_wf(cells),
        0 <= at < cells.len(),
        forall|c: int| 0 <= c < cells.len() ==> ((#[trigger] cells[c]).wide <==> c == at),
    ensures
        spec_row_text(cells).len() == cells.len() - 1,
{
    assert(cells[at].wide);
    assert forall|c: int| 0 <= c < cells.len() implies ((#[trigger] cells[c]).spacer <==> c == at
        + 1) by {
        if cells[c].spacer {
            assert(cells[c - 1].wide);
        }
    }
    lemma_single_spacer_count(cells, at + 1);
    lemma_row_text_len(cells);
}

} // verus!
