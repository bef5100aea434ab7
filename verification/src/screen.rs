//! How the text area is laid out: the gutter of line numbers to the left
//! of the text, and what each screen row shows.
use crate::editor::Position;
use vstd::prelude::*;

verus! {

/// The number of decimal digits of `n`.
pub open spec fn digits(n: nat) -> nat
    decreases n,
{
    if n < 10 {
        1
    } else {
        1 + digits(n / 10)
    }
}

/// A number of up to 64 bits has at most 20 decimal digits.
pub proof fn lemma_digits_bound(n: nat)
    requires
        n <= u64::MAX,
    ensures
        1 <= digits(n) <= 20,
{
    reveal_with_fuel(digits, 21);
}

/// Counts the decimal digits of `n`.
pub fn count_digits(n: usize) -> (count: usize)
    ensures
        count == digits(n as nat),
        1 <= count <= 20,
{
    proof {
        lemma_digits_bound(n as nat);
    }
    let mut rest: usize = n;
    let mut count: usize = 1;
    while rest >= 10
        invariant
            1 <= count,
            count + digits(rest as nat) == 1 + digits(n as nat),
            digits(n as nat) <= 20,
        decreases rest,
    {
        rest = rest / 10;
        count += 1;
    }
    count
}

/// The width of the gutter for a document of `line_count` lines: room for
/// the digits of the line count, and one column more.
pub open spec fn gutter_for(line_count: nat) -> nat {
    digits(line_count) + 1
}

/// Computes the width of the gutter for a document of `line_count` lines.
pub fn gutter_width(line_count: usize) -> (width: usize)
    ensures
        width == gutter_for(line_count as nat),
        2 <= width <= 21,
{
    count_digits(line_count) + 1
}

/// The number of blanks before the number `label` in a gutter of width
/// `gutter`: what the digits of the number and the column after them leave
/// free, and none where they leave nothing.
pub open spec fn label_padding_for(gutter: nat, label: nat) -> nat {
    if gutter >= digits(label) + 1 {
        (gutter - digits(label) - 1) as nat
    } else {
        0
    }
}

/// Computes the number of blanks before the number `label` in a gutter of
/// width `gutter`.
pub fn label_padding(gutter: usize, label: usize) -> (blanks: usize)
    ensures
        blanks == label_padding_for(gutter as nat, label as nat),
{
    let taken = count_digits(label) + 1;
    if gutter >= taken {
        gutter - taken
    } else {
        0
    }
}

/// The columns of a line that a text area shows, as indexes of clusters:
/// from the first, up to but not including the second.
pub open spec fn columns_for(offset: Position, width: u16, gutter: usize) -> (usize, usize) {
    let room = if width >= gutter {
        width - gutter
    } else {
        0
    };
    (
        offset.x,
        if offset.x + room > usize::MAX {
            usize::MAX
        } else {
            (offset.x + room) as usize
        },
    )
}

/// Computes the columns of a line that a text area shows. The gutter takes
/// its width off the text area; the rest shows the line from the column of
/// the offset on.
pub fn text_columns(offset: Position, width: u16, gutter: usize) -> (columns: (usize, usize))
    ensures
        columns == columns_for(offset, width, gutter),
        columns.0 <= columns.1,
{
    let full = width as usize;
    let room: usize = if full >= gutter { full - gutter } else { 0 };
    (offset.x, offset.x.saturating_add(room))
}

/// Where on the screen the cursor is shown: as far from the gutter and
/// from the top as it is from the offset in the document, and at the
/// gutter or the top where it is before the offset.
pub open spec fn spot_for(cursor: Position, offset: Position, gutter: usize) -> Position {
    let across: int = if cursor.x >= offset.x {
        cursor.x - offset.x + gutter
    } else {
        gutter as int
    };
    Position {
        x: if across > usize::MAX {
            usize::MAX
        } else {
            across as usize
        },
        y: if cursor.y >= offset.y {
            (cursor.y - offset.y) as usize
        } else {
            0
        },
    }
}

/// Computes where on the screen the cursor is shown.
pub fn cursor_spot(cursor: Position, offset: Position, gutter: usize) -> (spot: Position)
    ensures
        spot == spot_for(cursor, offset, gutter),
{
    Position {
        x: cursor.x.saturating_sub(offset.x).saturating_add(gutter),
        y: cursor.y.saturating_sub(offset.y),
    }
}

/// What a row of the text area shows.
#[derive(Clone, Copy, Debug, PartialEq, Eq, Structural)]
pub enum ScreenRow {
    /// The line of the document at this index.
    Line(usize),
    /// The welcome message.
    Welcome,
    /// Nothing but the gutter, numbered where `numbered` is set.
    Blank { numbered: bool },
}

/// The screen row on which an empty document shows the welcome message: a
/// third of the way down.
pub open spec fn welcome_row(height: u16) -> u16 {
    height / 3
}

/// What screen row `row` shows of a document of `line_count` lines when
/// the view begins at line `top`. `empty` says whether the document has
/// neither a line nor a title.
///
/// A row that falls on a line of the document shows that line. Of the
/// others, one shows the welcome message if the document is empty, and
/// the rest show the gutter, with a line number on the first screen row.
pub open spec fn row_for(row: u16, top: usize, height: u16, line_count: usize, empty: bool)
    -> ScreenRow {
    if top + row < line_count {
        ScreenRow::Line((top + row) as usize)
    } else if empty && row == welcome_row(height) {
        ScreenRow::Welcome
    } else {
        ScreenRow::Blank { numbered: row == 0 }
    }
}

/// Decides what a row of the text area shows.
pub fn screen_row(row: u16, top: usize, height: u16, line_count: usize, empty: bool) -> (shown:
    ScreenRow)
    ensures
        shown == row_for(row, top, height, line_count, empty),
{
    if top < line_count && (row as usize) < line_count - top {
        ScreenRow::Line(top + row as usize)
    } else if empty && row == height / 3 {
        ScreenRow::Welcome
    } else {
        ScreenRow::Blank { numbered: row == 0 }
    }
}

} // verus!
