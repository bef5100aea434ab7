//! The size of the part of the screen that shows the document.
use vstd::prelude::*;

verus! {

/// The number of screen rows that the bars below the text take up.
pub const BAR_ROWS: u16 = 2;

/// A width and a height in screen cells.
#[derive(Clone, Copy, Debug, PartialEq, Eq, Structural)]
pub struct Size {
    pub width: u16,
    pub height: u16,
}

impl Size {
    /// The size of the text area on a screen of `columns` by `rows` cells:
    /// all the columns, and all the rows but those of the bars.
    pub fn text_area(columns: u16, rows: u16) -> (size: Size)
        ensures
            size.width == columns,
            size.height == if rows >= BAR_ROWS {
                rows - BAR_ROWS
            } else {
                0
            },
    {
        Size { width: columns, height: rows.saturating_sub(BAR_ROWS) }
    }
}

} // verus!
