//! The text-buffer and navigation core of a terminal text editor.
//!
//! A [`Row`] is one line of text addressed by grapheme cluster, a
//! [`Document`] is an ordered sequence of rows with a modification flag and a
//! title, and an [`Editor`] moves a cursor and a viewport over a document.
pub mod bars;
pub mod clusters;
pub mod document;
pub mod editor;
pub mod grapheme;
pub mod lines;
pub mod navigator;
pub mod prompt;
pub mod row;
pub mod screen;
pub mod strings;
pub mod terminal;

pub use document::Document;
pub use editor::Editor;
pub use editor::Position;
pub use row::Row;
pub use terminal::Size;
