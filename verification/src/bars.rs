//! The lines of text around the document: the welcome line, the status bar
//! and the message bar.
use crate::editor::Position;
use vstd::prelude::*;
use vstd::string::{StrSliceExecFns, StringExecFns};

verus! {

/// How many characters of a title the status bar shows.
pub const TITLE_WIDTH: usize = 30;

/// The decimal digit for `d`.
pub open spec fn digit_of(d: nat) -> char {
    if d == 0 {
        '0'
    } else if d == 1 {
        '1'
    } else if d == 2 {
        '2'
    } else if d == 3 {
        '3'
    } else if d == 4 {
        '4'
    } else if d == 5 {
        '5'
    } else if d == 6 {
        '6'
    } else if d == 7 {
        '7'
    } else if d == 8 {
        '8'
    } else {
        '9'
    }
}

/// The decimal numeral of `n`, without leading zeros.
pub open spec fn decimal_of(n: nat) -> Seq<char>
    decreases n,
{
    if n < 10 {
        seq![digit_of(n)]
    } else {
        decimal_of(n / 10).push(digit_of(n % 10))
    }
}

/// A run of `count` blanks.
pub open spec fn blanks_of(count: nat) -> Seq<char> {
    Seq::new(count, |i: int| ' ')
}

/// The first `count` characters of `text`, or all of it if it has fewer.
pub open spec fn truncated(text: Seq<char>, count: nat) -> Seq<char> {
    if count < text.len() {
        text.take(count as int)
    } else {
        text
    }
}

/// The difference of two numbers, or 0 where the second is the larger.
pub open spec fn minus(a: int, b: int) -> nat {
    if a >= b {
        (a - b) as nat
    } else {
        0
    }
}

/// The number after `n`, as far as there is one.
pub open spec fn next_of(n: usize) -> usize {
    if n < usize::MAX {
        (n + 1) as usize
    } else {
        n
    }
}

/// What the welcome line says before the version.
pub open spec fn welcome_text() -> Seq<char> {
    "Hecto Editor -- version "@
}

/// The welcome line for a text area of `width` columns: a tilde at the
/// left edge and the greeting with the version in the middle, cut off at
/// the right edge.
pub open spec fn welcome_of(version: Seq<char>, width: nat) -> Seq<char> {
    let greeting = welcome_text() + version;
    let padding = minus(width as int, greeting.len() as int) / 2;
    truncated("~"@ + blanks_of(minus(padding as int, 1)) + greeting, width)
}

/// The left part of the status bar: the title, cut off after
/// `TITLE_WIDTH` characters, or a stand-in for it, then the number of
/// lines, and a mark if the document is modified.
pub open spec fn status_left(title: Option<Seq<char>>, line_count: usize, modified: bool) -> Seq<
    char,
> {
    let name = match title {
        Some(name) => truncated(name, TITLE_WIDTH as nat),
        None => "[No Name]"@,
    };
    let mark = if modified {
        " (modified)"@
    } else {
        ""@
    };
    name + " - "@ + decimal_of(line_count as nat) + " lines "@ + mark
}

/// The right part of the status bar: the row and the column of the
/// cursor, each counted from 1.
pub open spec fn status_right(cursor: Position) -> Seq<char> {
    "row "@ + decimal_of(next_of(cursor.y) as nat) + ", col "@ + decimal_of(
        next_of(cursor.x) as nat,
    )
}

/// The status bar for a text area of `width` columns: the left part at
/// the left edge, the right part at the right edge if there is room for
/// both and right after the left part if not, cut off at the right edge.
pub open spec fn status_of(
    title: Option<Seq<char>>,
    line_count: usize,
    modified: bool,
    cursor: Position,
    width: nat,
) -> Seq<char> {
    let left = status_left(title, line_count, modified);
    let right = status_right(cursor);
    let gap = minus(width as int, (left.len() + right.len()) as int);
    truncated(left + blanks_of(gap) + right, width)
}

/// The help that the message bar shows when it has nothing else to say.
pub open spec fn help_text() -> Seq<char> {
    "HELP: Ctrl-Q = quit | Ctrl-S = save"@
}

/// The message bar for a text area of `width` columns: the message, cut
/// off at the right edge, while it is fresh, and the help after that.
pub open spec fn message_of(message: Seq<char>, fresh: bool, width: nat) -> Seq<char> {
    if fresh {
        truncated(message, width)
    } else {
        help_text()
    }
}

/// Gives the decimal digit for `d`.
fn digit(d: usize) -> (c: char)
    requires
        d < 10,
    ensures
        c == digit_of(d as nat),
{
    match d {
        0 => '0',
        1 => '1',
        2 => '2',
        3 => '3',
        4 => '4',
        5 => '5',
        6 => '6',
        7 => '7',
        8 => '8',
        _ => '9',
    }
}

/// Appends the decimal numeral of `n` to `out`.
pub fn push_decimal(out: &mut String, n: usize)
    ensures
        final(out)@ == old(out)@ + decimal_of(n as nat),
    decreases n,
{
    if n >= 10 {
        push_decimal(out, n / 10);
    }
    out.push(digit(n % 10));
    assert(final(out)@ == old(out)@ + decimal_of(n as nat)) by {
        if n >= 10 {
            assert((old(out)@ + decimal_of(n as nat / 10)).push(digit_of(n as nat % 10)) == old(
                out,
            )@ + decimal_of(n as nat / 10).push(digit_of(n as nat % 10)));
        } else {
            assert(old(out)@.push(digit_of(n as nat)) == old(out)@ + seq![digit_of(n as nat)]);
        }
    }
}

/// Appends `count` blanks to `out`.
pub fn push_blanks(out: &mut String, count: usize)
    ensures
        final(out)@ == old(out)@ + blanks_of(count as nat),
{
    let mut i: usize = 0;
    assert(out@ == old(out)@ + blanks_of(0));
    while i < count
        invariant
            i <= count,
            out@ == old(out)@ + blanks_of(i as nat),
        decreases count - i,
    {
        out.push(' ');
        i += 1;
        assert(out@ == old(out)@ + blanks_of(i as nat));
    }
}

/// Appends the first `count` characters of `text` to `out`, or all of it
/// if it has fewer.
pub fn push_truncated(out: &mut String, text: &str, count: usize)
    ensures
        final(out)@ == old(out)@ + truncated(text@, count as nat),
{
    let mut taken: usize = 0;
    assert(out@ == old(out)@ + text@.take(0));
    for c in it: text.chars()
        invariant
            it.seq() == text@,
            taken <= count,
            taken <= it.index(),
            taken < count ==> taken == it.index(),
            out@ == old(out)@ + text@.take(taken as int),
    {
        if taken < count {
            assert(text@.take(taken + 1) == text@.take(taken as int).push(c));
            out.push(c);
            taken += 1;
            assert(out@ == old(out)@ + text@.take(taken as int));
        }
    }
    assert(taken < count ==> text@.take(taken as int) == text@);
}

/// Cuts `text` off after `count` characters.
pub fn truncate(text: &str, count: usize) -> (cut: String)
    ensures
        cut@ == truncated(text@, count as nat),
{
    let mut cut = String::new();
    push_truncated(&mut cut, text, count);
    assert(Seq::<char>::empty() + truncated(text@, count as nat) == truncated(
        text@,
        count as nat,
    ));
    cut
}

/// Builds the welcome line for a text area of `width` columns.
pub fn welcome_line(version: &str, width: usize) -> (line: String)
    ensures
        line@ == welcome_of(version@, width as nat),
{
    let mut greeting = String::from_str("Hecto Editor -- version ");
    greeting.append(version);
    let padding = width.saturating_sub(greeting.as_str().unicode_len()) / 2;
    let mut full = String::from_str("~");
    push_blanks(&mut full, padding.saturating_sub(1));
    full.append(greeting.as_str());
    truncate(full.as_str(), width)
}

/// Builds the status bar for a text area of `width` columns.
pub fn status_line(
    title: Option<&String>,
    line_count: usize,
    modified: bool,
    cursor: Position,
    width: usize,
) -> (line: String)
    ensures
        line@ == status_of(
            match title {
                Some(name) => Some(name@),
                None => None,
            },
            line_count,
            modified,
            cursor,
            width as nat,
        ),
{
    let mut left = String::new();
    match title {
        Some(name) => {
            push_truncated(&mut left, name.as_str(), TITLE_WIDTH);
        },
        None => {
            left.append("[No Name]");
        },
    }
    left.append(" - ");
    push_decimal(&mut left, line_count);
    left.append(" lines ");
    if modified {
        left.append(" (modified)");
    } else {
        left.append("");
    }
    let mut right = String::from_str("row ");
    push_decimal(&mut right, cursor.y.saturating_add(1));
    right.append(", col ");
    push_decimal(&mut right, cursor.x.saturating_add(1));
    let taken = left.as_str().unicode_len();
    let gap = width.saturating_sub(taken).saturating_sub(right.as_str().unicode_len());
    push_blanks(&mut left, gap);
    left.append(right.as_str());
    truncate(left.as_str(), width)
}

/// Builds the message bar for a text area of `width` columns.
pub fn message_line(message: &str, fresh: bool, width: usize) -> (line: String)
    ensures
        line@ == message_of(message@, fresh, width as nat),
{
    if fresh {
        truncate(message, width)
    } else {
        String::from_str("HELP: Ctrl-Q = quit | Ctrl-S = save")
    }
}

} // verus!
