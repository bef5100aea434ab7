//! Where a motion takes the cursor, and how far the view scrolls to keep
//! the cursor in sight.
//!
//! The functions here work on plain coordinates and line lengths. They are
//! total: a request that leads outside the document is brought back into
//! it.
use crate::editor::Position;
use crate::terminal::Size;
use vstd::prelude::*;

verus! {

/// A request to move the cursor.
#[derive(Clone, Copy, Debug, PartialEq, Eq, Structural)]
pub enum Motion {
    Up,
    Down,
    Left,
    Right,
    Home,
    End,
    PageUp,
    PageDown,
}

/// The index of the last line of a document of `line_count` lines; 0 for a
/// document without lines.
pub open spec fn last_row(line_count: usize) -> usize {
    if line_count > 0 {
        (line_count - 1) as usize
    } else {
        0
    }
}

/// How many rows a page motion moves over a text area of `height` rows: one
/// less than the height.
pub open spec fn page(height: usize) -> usize {
    if height > 0 {
        (height - 1) as usize
    } else {
        0
    }
}

/// The cursor after `motion`, before its column is fitted to the line it
/// has come to.
///
/// `line_count` is the number of lines of the document, `here` the length
/// of the line the cursor is on and `above` that of the line before it,
/// each 0 where there is no such line.
pub open spec fn stepped(
    cursor: Position,
    motion: Motion,
    height: usize,
    line_count: usize,
    here: usize,
    above: usize,
) -> Position {
    let last = last_row(line_count);
    match motion {
        Motion::Up => Position {
            x: cursor.x,
            y: if cursor.y > 0 {
                (cursor.y - 1) as usize
            } else {
                0
            },
        },
        Motion::Down => Position {
            x: cursor.x,
            y: if cursor.y + 1 < last {
                (cursor.y + 1) as usize
            } else {
                last
            },
        },
        Motion::Left => if cursor.x > 0 {
            Position { x: (cursor.x - 1) as usize, y: cursor.y }
        } else if cursor.y > 0 {
            Position { x: above, y: (cursor.y - 1) as usize }
        } else {
            cursor
        },
        Motion::Right => if cursor.x < here {
            Position { x: (cursor.x + 1) as usize, y: cursor.y }
        } else if cursor.y < last {
            Position { x: 0, y: (cursor.y + 1) as usize }
        } else {
            cursor
        },
        Motion::Home => Position { x: 0, y: cursor.y },
        Motion::End => Position { x: here, y: cursor.y },
        Motion::PageUp => Position {
            x: cursor.x,
            y: if cursor.y > height {
                (cursor.y - page(height)) as usize
            } else {
                0
            },
        },
        Motion::PageDown => Position {
            x: cursor.x,
            y: if cursor.y + height < last {
                (cursor.y + page(height)) as usize
            } else {
                last
            },
        },
    }
}

/// The cursor with its column brought down to `width`, the length of the
/// line it is on.
pub open spec fn fitted(cursor: Position, width: usize) -> Position {
    Position {
        x: if cursor.x > width {
            width
        } else {
            cursor.x
        },
        y: cursor.y,
    }
}

/// The offset of the view along one axis after scrolling: moved back to
/// the cursor if the cursor is before the view, moved forward by just
/// enough if the cursor is behind it, and left alone otherwise. Where
/// the forward move would pass the largest offset there is, it stops
/// there.
pub open spec fn scrolled_axis(cursor: usize, offset: usize, extent: usize) -> usize {
    if cursor < offset {
        cursor
    } else if cursor >= offset + extent {
        if cursor - extent + 1 > usize::MAX {
            usize::MAX
        } else {
            (cursor - extent + 1) as usize
        }
    } else {
        offset
    }
}

/// Whether a view that begins at `offset` and is `extent` long holds
/// `cursor`.
pub open spec fn holds(offset: usize, extent: u16, cursor: usize) -> bool {
    offset <= cursor < offset + extent
}

/// The offset of the view after scrolling to the cursor, each axis by
/// itself.
pub open spec fn scrolled(cursor: Position, offset: Position, size: Size) -> Position {
    Position {
        x: scrolled_axis(cursor.x, offset.x, size.width as usize),
        y: scrolled_axis(cursor.y, offset.y, size.height as usize),
    }
}

/// After scrolling, a view that has any extent holds the cursor, along
/// each axis by itself.
pub proof fn lemma_scrolled_holds(cursor: Position, offset: Position, size: Size)
    ensures
        size.width > 0 ==> holds(scrolled(cursor, offset, size).x, size.width, cursor.x),
        size.height > 0 ==> holds(scrolled(cursor, offset, size).y, size.height, cursor.y),
{
}

/// Moves the cursor by `motion`, leaving its column as the motion gives
/// it.
pub fn step(
    cursor: Position,
    motion: Motion,
    height: usize,
    line_count: usize,
    here: usize,
    above: usize,
) -> (next: Position)
    ensures
        next == stepped(cursor, motion, height, line_count, here, above),
        cursor.y <= last_row(line_count) ==> next.y <= last_row(line_count),
{
    let last: usize = if line_count > 0 { line_count - 1 } else { 0 };
    let page: usize = if height > 0 { height - 1 } else { 0 };
    let Position { x, y } = cursor;
    match motion {
        Motion::Up => Position { x, y: if y > 0 { y - 1 } else { 0 } },
        Motion::Down => Position { x, y: if y < last && y + 1 < last { y + 1 } else { last } },
        Motion::Left => if x > 0 {
            Position { x: x - 1, y }
        } else if y > 0 {
            Position { x: above, y: y - 1 }
        } else {
            cursor
        },
        Motion::Right => if x < here {
            Position { x: x + 1, y }
        } else if y < last {
            Position { x: 0, y: y + 1 }
        } else {
            cursor
        },
        Motion::Home => Position { x: 0, y },
        Motion::End => Position { x: here, y },
        Motion::PageUp => Position { x, y: if y > height { y - page } else { 0 } },
        Motion::PageDown => Position {
            x,
            y: if y < last && height < last - y { y + page } else { last },
        },
    }
}

/// Brings the column of the cursor down to `width`.
pub fn fit(cursor: Position, width: usize) -> (next: Position)
    ensures
        next == fitted(cursor, width),
        next.x <= width,
        next.y == cursor.y,
{
    Position { x: if cursor.x > width { width } else { cursor.x }, y: cursor.y }
}

/// Scrolls the view along one axis to the cursor. A view that has any
/// extent then holds the cursor.
pub fn scroll_axis(cursor: usize, offset: usize, extent: usize) -> (next: usize)
    ensures
        next == scrolled_axis(cursor, offset, extent),
        extent > 0 ==> next <= cursor < next + extent,
{
    if cursor < offset {
        cursor
    } else if cursor - offset >= extent {
        if extent == 0 {
            cursor.saturating_add(1)
        } else {
            cursor - extent + 1
        }
    } else {
        offset
    }
}

/// Scrolls the view to the cursor. Along each axis on which the view has
/// any extent, it then holds the cursor.
pub fn scroll_to(cursor: Position, offset: Position, size: Size) -> (next: Position)
    ensures
        next == scrolled(cursor, offset, size),
        size.width > 0 ==> holds(next.x, size.width, cursor.x),
        size.height > 0 ==> holds(next.y, size.height, cursor.y),
{
    Position {
        x: scroll_axis(cursor.x, offset.x, size.width as usize),
        y: scroll_axis(cursor.y, offset.y, size.height as usize),
    }
}

} // verus!
