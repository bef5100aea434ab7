//! The editor: a document, a cursor in it and a view onto it, driven by
//! key presses.
//!
//! Reading keys, drawing and storing are left to the caller. The editor
//! decides what a key does to its state and tells the caller what is left
//! for it to do.
use crate::document::{with_char, without, Document};
use crate::row::length;
use crate::navigator::{
    fit, fitted, holds, last_row, lemma_scrolled_holds, scroll_to, scrolled, step, stepped,
    Motion,
};
use crate::screen::{
    columns_for, cursor_spot, gutter_for, gutter_width, row_for, screen_row, spot_for,
    text_columns, ScreenRow,
};
use crate::terminal::Size;
use vstd::prelude::*;
use vstd::string::StrSliceExecFns;

verus! {

/// A place in a document or on the screen: `x` counts grapheme clusters
/// within a line, `y` counts lines.
#[derive(Clone, Copy, Debug, PartialEq, Eq, Structural)]
pub struct Position {
    pub x: usize,
    pub y: usize,
}

impl Default for Position {
    /// The origin.
    fn default() -> (origin: Position)
        ensures
            origin == (Position { x: 0, y: 0 }),
    {
        Position { x: 0, y: 0 }
    }
}

/// The key of a key press.
#[derive(Clone, Copy, Debug, PartialEq, Eq, Structural)]
pub enum KeyCode {
    Char(char),
    Enter,
    Tab,
    Backspace,
    Delete,
    Up,
    Down,
    Left,
    Right,
    Home,
    End,
    PageUp,
    PageDown,
    Esc,
    /// Any key that the editor has no use for.
    Other,
}

/// A key press: the key, and whether the control key, and no other
/// modifier, was held with it.
#[derive(Clone, Copy, Debug, PartialEq, Eq, Structural)]
pub struct KeyPress {
    pub code: KeyCode,
    pub control: bool,
}

/// What a key press asks of the editor.
#[derive(Clone, Copy, Debug, PartialEq, Eq, Structural)]
pub enum Command {
    Quit,
    Save,
    /// Type a character at the cursor.
    Type(char),
    /// Break the line at the cursor.
    NewLine,
    /// Indent by typing spaces.
    Indent,
    /// Delete at the cursor.
    DeleteForward,
    /// Delete before the cursor.
    DeleteBackward,
    Move(Motion),
    Nothing,
}

/// What is left for the caller to do after a command.
#[derive(Clone, Copy, Debug, PartialEq, Eq, Structural)]
pub enum Request {
    Nothing,
    /// Store the document.
    Save,
    /// Ask whether to quit although the document is modified, and pass
    /// the answer to `Editor::confirm_quit`.
    ConfirmQuit,
}

/// The number of spaces that an indent types.
pub const INDENT_WIDTH: usize = 4;

/// The command that a key press stands for. Control with `q` quits and
/// control with `s` saves; any other character is typed, whatever is held
/// with it.
pub open spec fn command_for(key: KeyPress) -> Command {
    match key.code {
        KeyCode::Char(c) => if key.control && c == 'q' {
            Command::Quit
        } else if key.control && c == 's' {
            Command::Save
        } else {
            Command::Type(c)
        },
        KeyCode::Enter => Command::NewLine,
        KeyCode::Tab => Command::Indent,
        KeyCode::Delete => Command::DeleteForward,
        KeyCode::Backspace => Command::DeleteBackward,
        KeyCode::Up => Command::Move(Motion::Up),
        KeyCode::Down => Command::Move(Motion::Down),
        KeyCode::Left => Command::Move(Motion::Left),
        KeyCode::Right => Command::Move(Motion::Right),
        KeyCode::Home => Command::Move(Motion::Home),
        KeyCode::End => Command::Move(Motion::End),
        KeyCode::PageUp => Command::Move(Motion::PageUp),
        KeyCode::PageDown => Command::Move(Motion::PageDown),
        KeyCode::Esc => Command::Nothing,
        KeyCode::Other => Command::Nothing,
    }
}

/// Reads the command off a key press.
pub fn command_of(key: KeyPress) -> (command: Command)
    ensures
        command == command_for(key),
{
    match key.code {
        KeyCode::Char(c) => if key.control && c == 'q' {
            Command::Quit
        } else if key.control && c == 's' {
            Command::Save
        } else {
            Command::Type(c)
        },
        KeyCode::Enter => Command::NewLine,
        KeyCode::Tab => Command::Indent,
        KeyCode::Delete => Command::DeleteForward,
        KeyCode::Backspace => Command::DeleteBackward,
        KeyCode::Up => Command::Move(Motion::Up),
        KeyCode::Down => Command::Move(Motion::Down),
        KeyCode::Left => Command::Move(Motion::Left),
        KeyCode::Right => Command::Move(Motion::Right),
        KeyCode::Home => Command::Move(Motion::Home),
        KeyCode::End => Command::Move(Motion::End),
        KeyCode::PageUp => Command::Move(Motion::PageUp),
        KeyCode::PageDown => Command::Move(Motion::PageDown),
        KeyCode::Esc | KeyCode::Other => Command::Nothing,
    }
}

/// The state of an editor, as contracts speak of it.
pub struct Session {
    /// The text of each line of the document.
    pub lines: Seq<Seq<char>>,
    /// Whether the document is modified.
    pub modified: bool,
    /// The title of the document.
    pub title: Option<Seq<char>>,
    /// Where the cursor is in the document.
    pub cursor: Position,
    /// The place in the document that the top left corner of the text
    /// area shows.
    pub offset: Position,
    /// The size of the text area.
    pub size: Size,
    /// The width of the gutter of line numbers.
    pub gutter: usize,
    /// Whether the editor is to stop.
    pub quit: bool,
}

/// The length of line `row` in clusters, or 0 where there is no such line.
pub open spec fn row_width(lines: Seq<Seq<char>>, row: int) -> usize {
    if 0 <= row < lines.len() {
        length(lines[row]) as usize
    } else {
        0
    }
}

/// Where `motion` takes the cursor in a document of the given lines, shown
/// in a text area of `height` rows. The column is fitted to the line that
/// the cursor comes to.
pub open spec fn cursor_after(
    lines: Seq<Seq<char>>,
    cursor: Position,
    motion: Motion,
    height: usize,
) -> Position {
    let next = stepped(
        cursor,
        motion,
        height,
        lines.len() as usize,
        row_width(lines, cursor.y as int),
        row_width(lines, cursor.y - 1),
    );
    fitted(next, row_width(lines, next.y as int))
}

/// The session after the cursor has moved by `motion`.
pub open spec fn moved(s: Session, motion: Motion) -> Session {
    Session { cursor: cursor_after(s.lines, s.cursor, motion, s.size.height as usize), ..s }
}

/// The session after `c` has been typed at the cursor and the cursor has
/// moved right.
pub open spec fn typed(s: Session, c: char) -> Session {
    moved(
        Session {
            lines: with_char(s.lines, s.cursor, c),
            modified: s.modified || s.cursor.y <= s.lines.len(),
            ..s
        },
        Motion::Right,
    )
}

/// The session after `count` spaces have been typed one after the other.
pub open spec fn indented(s: Session, count: nat) -> Session
    decreases count,
{
    if count == 0 {
        s
    } else {
        typed(indented(s, (count - 1) as nat), ' ')
    }
}

/// The session after a deletion at `at`.
pub open spec fn erased(s: Session, at: Position) -> Session {
    Session {
        lines: without(s.lines, at),
        modified: s.modified || at.y < s.lines.len(),
        cursor: at,
        ..s
    }
}

/// The session after `command`, before the view is scrolled.
pub open spec fn performed(s: Session, command: Command) -> Session {
    match command {
        Command::Quit => Session { quit: s.quit || !s.modified, ..s },
        Command::Save => s,
        Command::Type(c) => typed(s, c),
        Command::NewLine => typed(s, '\n'),
        Command::Indent => indented(s, INDENT_WIDTH as nat),
        Command::DeleteForward => erased(s, s.cursor),
        Command::DeleteBackward => if s.cursor.x > 0 || s.cursor.y > 0 {
            erased(s, moved(s, Motion::Left).cursor)
        } else {
            s
        },
        Command::Move(motion) => moved(s, motion),
        Command::Nothing => s,
    }
}

/// The session with its view scrolled to the cursor.
pub open spec fn in_sight(s: Session) -> Session {
    Session { offset: scrolled(s.cursor, s.offset, s.size), ..s }
}

/// The session after `command`.
pub open spec fn after(s: Session, command: Command) -> Session {
    in_sight(performed(s, command))
}

/// What `command` leaves for the caller to do.
pub open spec fn request_for(s: Session, command: Command) -> Request {
    match command {
        Command::Quit => if s.modified {
            Request::ConfirmQuit
        } else {
            Request::Nothing
        },
        Command::Save => Request::Save,
        _ => Request::Nothing,
    }
}

/// Whether the cursor is on a line of the document, or at the origin of
/// a document without lines.
pub open spec fn on_document(s: Session) -> bool {
    s.cursor.y <= last_row(s.lines.len() as usize)
}

/// Whether the cursor is within its line or right at the end of it.
pub open spec fn on_line(s: Session) -> bool {
    s.cursor.x <= row_width(s.lines, s.cursor.y as int)
}

/// Whether the text area has any extent and the view holds the cursor.
pub open spec fn cursor_in_sight(s: Session) -> bool {
    &&& holds(s.offset.x, s.size.width, s.cursor.x)
    &&& holds(s.offset.y, s.size.height, s.cursor.y)
}

/// A motion leaves the cursor within a line, and on the document if it
/// was there.
pub proof fn lemma_moved_on_document(s: Session, motion: Motion)
    requires
        s.lines.len() <= usize::MAX,
    ensures
        on_line(moved(s, motion)),
        on_document(s) ==> on_document(moved(s, motion)),
{
}

/// Typing leaves the cursor within a line, and on the document if it was
/// there.
pub proof fn lemma_typed_on_document(s: Session, c: char)
    requires
        s.lines.len() < usize::MAX,
    ensures
        on_line(typed(s, c)),
        on_document(s) ==> on_document(typed(s, c)),
        s.lines.len() <= typed(s, c).lines.len() <= s.lines.len() + 1,
{
}

/// An indent leaves the cursor within a line, and on the document if it
/// was there.
pub proof fn lemma_indented_on_document(s: Session, count: nat)
    requires
        s.lines.len() + count <= usize::MAX,
    ensures
        count > 0 ==> on_line(indented(s, count)),
        on_document(s) ==> on_document(indented(s, count)),
        s.lines.len() <= indented(s, count).lines.len() <= s.lines.len() + count,
    decreases count,
{
    if count > 0 {
        lemma_indented_on_document(s, (count - 1) as nat);
        lemma_typed_on_document(indented(s, (count - 1) as nat), ' ');
    }
}

/// A deletion at a place on the document leaves the cursor on the
/// document.
pub proof fn lemma_erased_on_document(s: Session, at: Position)
    requires
        s.lines.len() <= usize::MAX,
        at.y <= last_row(s.lines.len() as usize),
    ensures
        on_document(erased(s, at)),
{
}

/// Typing any number of spaces leaves the size of the text area alone.
proof fn lemma_indented_size(s: Session, count: nat)
    ensures
        indented(s, count).size == s.size,
    decreases count,
{
    if count > 0 {
        lemma_indented_size(s, (count - 1) as nat);
    }
}

/// No command changes the size of the text area.
pub proof fn lemma_performed_size(s: Session, command: Command)
    ensures
        performed(s, command).size == s.size,
        after(s, command).size == s.size,
{
    lemma_indented_size(s, INDENT_WIDTH as nat);
}

/// Whatever the command, a cursor that is on the document stays on it. A
/// cursor that is within its line stays within a line unless the command
/// deletes. Once the command is carried out, a text area that has any
/// extent holds the cursor.
pub proof fn lemma_after_command(s: Session, command: Command)
    requires
        s.lines.len() + INDENT_WIDTH <= usize::MAX,
        on_document(s),
    ensures
        on_document(after(s, command)),
        on_line(s) && command != Command::DeleteForward && command != Command::DeleteBackward
            ==> on_line(after(s, command)),
        s.size.width > 0 && s.size.height > 0 ==> cursor_in_sight(after(s, command)),
{
    let done = performed(s, command);
    lemma_performed_size(s, command);
    lemma_scrolled_holds(done.cursor, done.offset, done.size);
    match command {
        Command::Type(c) => lemma_typed_on_document(s, c),
        Command::NewLine => lemma_typed_on_document(s, '\n'),
        Command::Indent => lemma_indented_on_document(s, INDENT_WIDTH as nat),
        Command::DeleteForward => lemma_erased_on_document(s, s.cursor),
        Command::DeleteBackward => {
            lemma_moved_on_document(s, Motion::Left);
            if s.cursor.x > 0 || s.cursor.y > 0 {
                lemma_erased_on_document(s, moved(s, Motion::Left).cursor);
            }
        },
        Command::Move(motion) => lemma_moved_on_document(s, motion),
        _ => {},
    }
}

/// Whether an answer agrees to quit: it begins with `Y` or `y`.
pub open spec fn agrees(answer: Seq<char>) -> bool {
    answer.len() > 0 && (answer[0] == 'Y' || answer[0] == 'y')
}

/// An editor at work on one document.
pub struct Editor {
    if_quit: bool,
    cursor_position: Position,
    offset: Position,
    size: Size,
    document: Document,
    row_num_indent: usize,
}

impl View for Editor {
    type V = Session;

    closed spec fn view(&self) -> Session {
        Session {
            lines: self.document@,
            modified: self.document.modified(),
            title: self.document.title(),
            cursor: self.cursor_position,
            offset: self.offset,
            size: self.size,
            gutter: self.row_num_indent,
            quit: self.if_quit,
        }
    }
}

impl Editor {
    /// An editor on `document`, shown in a text area of `size`: the cursor
    /// and the view are at the origin, and the gutter is as wide as the
    /// number of lines asks for.
    pub fn new(document: Document, size: Size) -> (editor: Editor)
        ensures
            editor@ == (Session {
                lines: document@,
                modified: document.modified(),
                title: document.title(),
                cursor: Position { x: 0, y: 0 },
                offset: Position { x: 0, y: 0 },
                size,
                gutter: gutter_for(document@.len()) as usize,
                quit: false,
            }),
    {
        let row_num_indent = gutter_width(document.get_row_num());
        Editor {
            if_quit: false,
            cursor_position: Position { x: 0, y: 0 },
            offset: Position { x: 0, y: 0 },
            size,
            document,
            row_num_indent,
        }
    }

    /// Where the cursor is in the document.
    pub fn cursor_position(&self) -> (cursor: Position)
        ensures
            cursor == self@.cursor,
    {
        self.cursor_position
    }

    /// The place in the document that the top left corner of the text area
    /// shows.
    pub fn offset(&self) -> (offset: Position)
        ensures
            offset == self@.offset,
    {
        self.offset
    }

    /// The size of the text area.
    pub fn size(&self) -> (size: Size)
        ensures
            size == self@.size,
    {
        self.size
    }

    /// The width of the gutter of line numbers.
    pub fn row_num_indent(&self) -> (gutter: usize)
        ensures
            gutter == self@.gutter,
    {
        self.row_num_indent
    }

    /// The columns that the text area shows of each line.
    pub fn text_columns(&self) -> (columns: (usize, usize))
        ensures
            columns == columns_for(self@.offset, self@.size.width, self@.gutter),
    {
        text_columns(self.offset, self.size.width, self.row_num_indent)
    }

    /// Where on the screen the cursor is shown.
    pub fn screen_cursor(&self) -> (spot: Position)
        ensures
            spot == spot_for(self@.cursor, self@.offset, self@.gutter),
    {
        cursor_spot(self.cursor_position, self.offset, self.row_num_indent)
    }

    /// What row `row` of the text area shows.
    pub fn screen_row(&self, row: u16) -> (shown: ScreenRow)
        ensures
            shown == row_for(
                row,
                self@.offset.y,
                self@.size.height,
                self@.lines.len() as usize,
                self@.lines.len() == 0 && self@.title is None,
            ),
    {
        screen_row(
            row,
            self.offset.y,
            self.size.height,
            self.document.get_row_num(),
            self.document.is_empty(),
        )
    }

    /// Whether the editor is to stop.
    pub fn should_quit(&self) -> (quit: bool)
        ensures
            quit == self@.quit,
    {
        self.if_quit
    }

    /// The document.
    pub fn document(&self) -> (document: &Document)
        ensures
            document@ == self@.lines,
            document.modified() == self@.modified,
            document.title() == self@.title,
    {
        &self.document
    }

    /// Gives the document a title. Nothing else changes.
    pub fn set_file_name(&mut self, name: String)
        ensures
            final(self)@ == (Session { title: Some(name@), ..old(self)@ }),
    {
        self.document.set_file_name(name);
    }

    /// Records that the text of a save was written: a document that has a
    /// title is no longer modified. Nothing else changes.
    pub fn mark_saved(&mut self)
        ensures
            final(self)@ == (Session {
                modified: old(self)@.modified && old(self)@.title is None,
                ..old(self)@
            }),
    {
        self.document.mark_saved();
    }

    /// The length of line `row`, or 0 where there is no such line.
    fn width_of(&self, row: usize) -> (width: usize)
        ensures
            width == row_width(self@.lines, row as int),
    {
        match self.document.get_row(row) {
            Some(found) => found.len(),
            None => 0,
        }
    }

    /// Moves the cursor by `motion` and fits its column to the line it has
    /// come to.
    pub fn move_cursor(&mut self, motion: Motion)
        ensures
            final(self)@ == moved(old(self)@, motion),
            on_line(final(self)@),
            on_document(old(self)@) ==> on_document(final(self)@),
    {
        let cursor = self.cursor_position;
        let here = self.width_of(cursor.y);
        let above = if cursor.y > 0 {
            self.width_of(cursor.y - 1)
        } else {
            0
        };
        let next = step(
            cursor,
            motion,
            self.size.height as usize,
            self.document.get_row_num(),
            here,
            above,
        );
        let width = self.width_of(next.y);
        self.cursor_position = fit(next, width);
    }

    /// Scrolls the view to the cursor. Along each axis on which the text
    /// area has any extent, the view then holds the cursor.
    pub fn scroll(&mut self)
        ensures
            final(self)@ == in_sight(old(self)@),
            final(self)@.size.width > 0 ==> holds(
                final(self)@.offset.x,
                final(self)@.size.width,
                final(self)@.cursor.x,
            ),
            final(self)@.size.height > 0 ==> holds(
                final(self)@.offset.y,
                final(self)@.size.height,
                final(self)@.cursor.y,
            ),
    {
        self.offset = scroll_to(self.cursor_position, self.offset, self.size);
    }

    /// Types `c` at the cursor and moves the cursor right.
    fn type_char(&mut self, c: char)
        ensures
            final(self)@ == typed(old(self)@, c),
    {
        self.document.insert(&self.cursor_position, c);
        self.move_cursor(Motion::Right);
    }

    /// Deletes at `at` and leaves the cursor there.
    fn erase(&mut self, at: Position)
        ensures
            final(self)@ == erased(old(self)@, at),
    {
        self.cursor_position = at;
        self.document.delete(&at);
    }

    /// Carries out `command` and scrolls the view to the cursor. The result
    /// says what is left for the caller to do: nothing, to store the
    /// document, or to ask whether to quit a modified document.
    pub fn execute(&mut self, command: Command) -> (request: Request)
        ensures
            final(self)@ == after(old(self)@, command),
            request == request_for(old(self)@, command),
            final(self)@.size.width > 0 && final(self)@.size.height > 0 ==> cursor_in_sight(
                final(self)@,
            ),
    {
        let mut request = Request::Nothing;
        match command {
            Command::Quit => {
                if self.document.is_dirty() {
                    request = Request::ConfirmQuit;
                } else {
                    self.if_quit = true;
                }
            },
            Command::Save => {
                request = Request::Save;
            },
            Command::Type(c) => {
                self.type_char(c);
            },
            Command::NewLine => {
                self.type_char('\n');
            },
            Command::Indent => {
                let mut typed_spaces: usize = 0;
                while typed_spaces < INDENT_WIDTH
                    invariant
                        typed_spaces <= INDENT_WIDTH,
                        self@ == indented(old(self)@, typed_spaces as nat),
                    decreases INDENT_WIDTH - typed_spaces,
                {
                    self.type_char(' ');
                    typed_spaces += 1;
                }
            },
            Command::DeleteForward => {
                let at = self.cursor_position;
                self.erase(at);
            },
            Command::DeleteBackward => {
                if self.cursor_position.x > 0 || self.cursor_position.y > 0 {
                    self.move_cursor(Motion::Left);
                    let at = self.cursor_position;
                    self.erase(at);
                }
            },
            Command::Move(motion) => {
                self.move_cursor(motion);
            },
            Command::Nothing => {},
        }
        self.scroll();
        request
    }

    /// Carries out the command that `key` stands for.
    pub fn process_keypress(&mut self, key: KeyPress) -> (request: Request)
        ensures
            final(self)@ == after(old(self)@, command_for(key)),
            request == request_for(old(self)@, command_for(key)),
    {
        self.execute(command_of(key))
    }

    /// Takes the answer to the question whether to quit: the editor is to
    /// stop if the answer begins with `Y` or `y`.
    pub fn confirm_quit(&mut self, answer: &str)
        ensures
            final(self)@ == (Session { quit: old(self)@.quit || agrees(answer@), ..old(self)@ }),
    {
        if !answer.is_empty() {
            let first = answer.get_char(0);
            if first == 'Y' || first == 'y' {
                self.if_quit = true;
            }
        }
    }
}

} // verus!
