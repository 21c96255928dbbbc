//! The text that a selection covers.

use crate::selection::{row_major_le, GridPoint};
use vstd::prelude::*;

verus! {

/// Appends one character to a text.
///
/// Calls `String::push` of the standard library, which appends the given
/// character to the end of the string; the contract states that and is not
/// proved here.
#[verifier::external_body]
pub(crate) fn push_char(text: &mut String, ch: char)
    ensures
        final(text)@ == old(text)@.push(ch),
{
    text.push(ch);
}

/// The rows of a snapshot as sequences of characters.
pub open spec fn spec_rows(rows: Seq<String>) -> Seq<Seq<char>> {
    Seq::new(rows.len(), |r: int| rows[r]@)
}

/// The columns of the row numbered `row`, a row of `len` characters, that
/// the range from `start` to `end` covers, as the first column and the
/// column after the last: from the start column on the first row of the
/// range, to the end column, that one included, on its last row, and the
/// whole row in between. The two are equal where the range covers nothing
/// of the row.
pub open spec fn spec_row_columns(len: int, row: int, start: GridPoint, end: GridPoint) -> (
    int,
    int,
) {
    let from = if row == start.row {
        start.col as int
    } else {
        0
    };
    let to = if row == end.row && end.col + 1 < len {
        end.col + 1
    } else {
        len
    };
    if start.row <= row <= end.row && from < to {
        (from, to)
    } else {
        (0, 0)
    }
}

/// The part of the row numbered `row` that the range from `start` to `end`
/// covers.
pub open spec fn spec_row_slice(line: Seq<char>, row: int, start: GridPoint, end: GridPoint) -> Seq<
    char,
> {
    let columns = spec_row_columns(line.len() as int, row, start, end);
    line.subrange(columns.0, columns.1)
}

/// The text of the range's rows below `upto`, a newline after each row that
/// is not the last of the range.
pub open spec fn spec_text_upto(
    rows: Seq<Seq<char>>,
    start: GridPoint,
    end: GridPoint,
    upto: int,
) -> Seq<char>
    decreases upto - start.row,
{
    if upto <= start.row {
        Seq::empty()
    } else {
        let row = upto - 1;
        let above = spec_text_upto(rows, start, end, row);
        let line = above + spec_row_slice(rows[row], row, start, end);
        if row < end.row {
            line.push('\n')
        } else {
            line
        }
    }
}

/// The text that the range from `start` to `end` covers: the slices of its
/// rows, as far as the snapshot has them, joined by newlines.
pub open spec fn spec_selected_text(rows: Seq<Seq<char>>, start: GridPoint, end: GridPoint) -> Seq<
    char,
> {
    if end.row < rows.len() {
        spec_text_upto(rows, start, end, end.row + 1)
    } else {
        spec_text_upto(rows, start, end, rows.len() as int)
    }
}

/// A character with the Unicode property White_Space.
pub open spec fn spec_is_whitespace(c: char) -> bool {
    let v = c as u32;
    ||| 0x09 <= v <= 0x0D
    ||| v == 0x20
    ||| v == 0x85
    ||| v == 0xA0
    ||| v == 0x1680
    ||| 0x2000 <= v <= 0x200A
    ||| v == 0x2028
    ||| v == 0x2029
    ||| v == 0x202F
    ||| v == 0x205F
    ||| v == 0x3000
}

/// The text holds a character that is not white space.
pub open spec fn spec_has_content(text: Seq<char>) -> bool {
    exists|i: int| 0 <= i < text.len() && !spec_is_whitespace(#[trigger] text[i])
}

/// Whether a character has the Unicode property White_Space.
pub fn is_whitespace(c: char) -> (white: bool)
    ensures
        white == spec_is_whitespace(c),
{
    let v: u32 = c as u32;
    (0x09 <= v && v <= 0x0D) || v == 0x20 || v == 0x85 || v == 0xA0 || v == 0x1680 || (0x2000 <= v
        && v <= 0x200A) || v == 0x2028 || v == 0x2029 || v == 0x202F || v == 0x205F || v == 0x3000
}

/// Whether a text holds anything but white space.
pub fn has_content(text: &str) -> (content: bool)
    ensures
        content == spec_has_content(text@),
{
    let len: usize = text.unicode_len();
    let mut i: usize = 0;
    while i < len
        invariant
            len == text@.len(),
            i <= len,
            forall|k: int| 0 <= k < i ==> spec_is_whitespace(#[trigger] text@[k]),
        decreases len - i,
    {
        if !is_whitespace(text.get_char(i)) {
            return true;
        }
        i += 1;
    }
    false
}

/// Cuts the text of the range from `start` to `end` out of a snapshot.
pub fn selected_text(rows: &Vec<String>, start: GridPoint, end: GridPoint) -> (text: String)
    ensures
        text@ == spec_selected_text(spec_rows(rows@), start, end),
{
    let mut text = String::new();
    let stop: usize = if end.row < rows.len() {
        end.row + 1
    } else {
        rows.len()
    };
    if start.row >= stop {
        return text;
    }
    let mut row: usize = start.row;
    while row < stop
        invariant
            start.row <= row <= stop <= rows.len(),
            stop <= end.row + 1,
            text@ == spec_text_upto(spec_rows(rows@), start, end, row as int),
        decreases stop - row,
    {
        let line: &str = rows[row].as_str();
        let len: usize = line.unicode_len();
        let from: usize = if row == start.row {
            start.col as usize
        } else {
            0
        };
        let to: usize = if row == end.row && (end.col as usize) + 1 < len {
            end.col as usize + 1
        } else {
            len
        };
        if from < to {
            text.append(line.substring_char(from, to));
        }
        if row < end.row {
            push_char(&mut text, '\n');
        }
        proof {
            assert(spec_rows(rows@)[row as int] == line@);
            assert(text@ =~= spec_text_upto(spec_rows(rows@), start, end, row + 1));
        }
        row += 1;
    }
    text
}

/// How often `c` occurs in a text.
pub open spec fn spec_count(text: Seq<char>, c: char) -> nat
    decreases text.len(),
{
    if text.len() == 0 {
        0
    } else if text.last() == c {
        spec_count(text.drop_last(), c) + 1
    } else {
        spec_count(text.drop_last(), c)
    }
}

/// None of the rows from `from` up to, not including, `to` holds a newline.
pub open spec fn rows_free_of_newline(rows: Seq<Seq<char>>, from: int, to: int) -> bool {
    forall|r: int, i: int|
        from <= r < to && 0 <= i < rows[r].len() ==> (#[trigger] rows[r][i]) != '\n'
}

proof fn lemma_count_concat(a: Seq<char>, b: Seq<char>, c: char)
    ensures
        spec_count(a + b, c) == spec_count(a, c) + spec_count(b, c),
    decreases b.len(),
{
    if b.len() == 0 {
        assert(a + b =~= a);
    } else {
        assert((a + b).drop_last() =~= a + b.drop_last());
        lemma_count_concat(a, b.drop_last(), c);
    }
}

proof fn lemma_count_absent(a: Seq<char>, c: char)
    requires
        forall|i: int| 0 <= i < a.len() ==> a[i] != c,
    ensures
        spec_count(a, c) == 0,
    decreases a.len(),
{
    if a.len() > 0 {
        lemma_count_absent(a.drop_last(), c);
    }
}

proof fn lemma_newlines_upto(rows: Seq<Seq<char>>, start: GridPoint, end: GridPoint, upto: int)
    requires
        start.row <= end.row,
        start.row <= upto <= end.row + 1,
        upto <= rows.len(),
        rows_free_of_newline(rows, start.row as int, upto),
    ensures
        spec_count(spec_text_upto(rows, start, end, upto), '\n') == (if upto <= end.row {
            upto
        } else {
            end.row as int
        }) - start.row,
    decreases upto - start.row,
{
    if upto > start.row {
        let row = upto - 1;
        let above = spec_text_upto(rows, start, end, row);
        let slice = spec_row_slice(rows[row], row, start, end);
        lemma_newlines_upto(rows, start, end, row);
        assert forall|i: int| 0 <= i < slice.len() implies slice[i] != '\n' by {
            let from = if row == start.row {
                start.col as int
            } else {
                0
            };
            assert(slice[i] == rows[row][from + i]);
        }
        lemma_count_absent(slice, '\n');
        lemma_count_concat(above, slice, '\n');
        let text = spec_text_upto(rows, start, end, upto);
        if row < end.row {
            assert(text == (above + slice).push('\n'));
            assert(text.drop_last() =~= above + slice);
            assert(text.last() == '\n');
        } else {
            assert(text == above + slice);
        }
    }
}

proof fn lemma_text_starts_with_first_slice(
    rows: Seq<Seq<char>>,
    start: GridPoint,
    end: GridPoint,
    upto: int,
)
    requires
        start.row < upto <= rows.len(),
        spec_row_slice(rows[start.row as int], start.row as int, start, end).len() > 0,
    ensures
        spec_text_upto(rows, start, end, upto).len() > 0,
        spec_text_upto(rows, start, end, upto)[0] == spec_row_slice(
            rows[start.row as int],
            start.row as int,
            start,
            end,
        )[0],
    decreases upto - start.row,
{
    if upto - 1 > start.row {
        lemma_text_starts_with_first_slice(rows, start, end, upto - 1);
    } else {
        assert(spec_text_upto(rows, start, end, start.row as int) =~= Seq::<char>::empty());
    }
}

/// A selection over rows of the snapshot that hold no newline themselves
/// gives a text with one newline for each of its rows after the first.
pub proof fn lemma_selected_text_newline_count(
    rows: Seq<Seq<char>>,
    start: GridPoint,
    end: GridPoint,
)
    requires
        start.row <= end.row < rows.len(),
        rows_free_of_newline(rows, start.row as int, end.row + 1),
    ensures
        spec_count(spec_selected_text(rows, start, end), '\n') == end.row - start.row,
{
    lemma_newlines_upto(rows, start, end, end.row + 1);
}

/// A selection that begins and ends on a character of the snapshot, over
/// rows that hold no newline themselves, gives a text that neither begins
/// nor ends with a newline.
pub proof fn lemma_selected_text_ends(rows: Seq<Seq<char>>, start: GridPoint, end: GridPoint)
    requires
        row_major_le(start, end),
        end.row < rows.len(),
        start.col < rows[start.row as int].len(),
        rows[end.row as int].len() > 0,
        rows_free_of_newline(rows, start.row as int, end.row + 1),
    ensures
        spec_selected_text(rows, start, end).len() > 0,
        spec_selected_text(rows, start, end).first() != '\n',
        spec_selected_text(rows, start, end).last() != '\n',
{
    let text = spec_selected_text(rows, start, end);
    let first = spec_row_slice(rows[start.row as int], start.row as int, start, end);
    assert(first.len() > 0);
    assert(first[0] == rows[start.row as int][start.col as int]);
    lemma_text_starts_with_first_slice(rows, start, end, end.row + 1);
    let last = spec_row_slice(rows[end.row as int], end.row as int, start, end);
    let above = spec_text_upto(rows, start, end, end.row as int);
    assert(text == above + last);
    assert(last.len() > 0);
    let from = if end.row == start.row {
        start.col as int
    } else {
        0
    };
    assert(last.last() == rows[end.row as int][from + last.len() - 1]);
    assert(text.last() == last.last());
}

} // verus!
