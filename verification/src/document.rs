//! A document: an ordered sequence of rows, a title and a modification flag.
use crate::editor::Position;
use crate::grapheme::{graphemes_of, segmented, texts};
use crate::lines::{
    contents_of, lemma_contents_concat, lemma_contents_one, lines_of, split_lines, title_from,
    title_of,
};
use crate::row::{cut, deleted, inserted, kept, length, Row};
use vstd::prelude::*;
use vstd::string::StringExecFns;

verus! {

/// The lines after a line break at `at`.
///
/// At the row just past the last one an empty line is added. Within a line,
/// the line keeps the clusters before column `at.x` and a new line after it
/// takes the rest. Further down nothing changes.
pub open spec fn with_new_line(lines: Seq<Seq<char>>, at: Position) -> Seq<Seq<char>> {
    if at.y > lines.len() {
        lines
    } else if at.y == lines.len() {
        lines.push(Seq::empty())
    } else {
        let line = lines[at.y as int];
        lines.update(at.y as int, kept(line, at.x as nat)).insert(
            at.y + 1,
            cut(line, at.x as nat),
        )
    }
}

/// The lines after `c` is typed at `at`.
///
/// A newline breaks the line. Any other character typed at the row just
/// past the last one starts a new line there, and within a line it is
/// inserted at column `at.x`. Further down nothing changes.
pub open spec fn with_char(lines: Seq<Seq<char>>, at: Position, c: char) -> Seq<Seq<char>> {
    if at.y > lines.len() {
        lines
    } else if c == '\n' {
        with_new_line(lines, at)
    } else if at.y == lines.len() {
        lines.push(seq![c])
    } else {
        lines.update(at.y as int, inserted(lines[at.y as int], at.x as nat, c))
    }
}

/// Whether a deletion at `at` joins the next line onto the line at `at.y`:
/// the column is the end of the line and another line follows.
pub open spec fn joins_next(lines: Seq<Seq<char>>, at: Position) -> bool {
    &&& at.y + 1 < lines.len()
    &&& at.x == length(lines[at.y as int])
}

/// The lines after a deletion at `at`.
///
/// At the end of a line that another line follows, the two become one.
/// Elsewhere within a line the cluster at column `at.x` goes, if there is
/// one. Below the last line nothing changes.
pub open spec fn without(lines: Seq<Seq<char>>, at: Position) -> Seq<Seq<char>> {
    if at.y >= lines.len() {
        lines
    } else if joins_next(lines, at) {
        lines.update(at.y as int, lines[at.y as int] + lines[at.y + 1]).remove(at.y + 1)
    } else {
        lines.update(at.y as int, deleted(lines[at.y as int], at.x as nat))
    }
}

/// A line break within a line cuts it in two: the line keeps its clusters
/// before the column, the rest makes up a new line right after it, and the
/// lines around them stay as they were. The document has one line more.
pub proof fn lemma_new_line_splits(lines: Seq<Seq<char>>, at: Position)
    requires
        at.y < lines.len(),
        at.x < length(lines[at.y as int]),
    ensures
        with_new_line(lines, at).len() == lines.len() + 1,
        with_new_line(lines, at)[at.y as int] == kept(lines[at.y as int], at.x as nat),
        with_new_line(lines, at)[at.y + 1] == cut(lines[at.y as int], at.x as nat),
        forall|i: int| 0 <= i < at.y ==> with_new_line(lines, at)[i] == lines[i],
        forall|i: int| at.y < i < lines.len() ==> with_new_line(lines, at)[i + 1] == lines[i],
{
}

/// A line break at or past the end of a line leaves the line whole and
/// adds an empty line right after it.
pub proof fn lemma_new_line_at_end(lines: Seq<Seq<char>>, at: Position)
    requires
        at.y < lines.len(),
        at.x >= length(lines[at.y as int]),
        segmented(lines[at.y as int]),
    ensures
        with_new_line(lines, at) == lines.insert(at.y + 1, Seq::empty()),
{
    let found = graphemes_of(lines[at.y as int]);
    assert(found.take(found.len() as int) == found);
    assert(found.skip(found.len() as int) == Seq::<Seq<char>>::empty());
    assert(lines.update(at.y as int, lines[at.y as int]) == lines);
}

/// A deletion past the end of a line, or at the end of the last line,
/// changes no text.
pub proof fn lemma_delete_past_end(lines: Seq<Seq<char>>, at: Position)
    requires
        at.y < lines.len(),
        at.x >= length(lines[at.y as int]),
        !joins_next(lines, at),
        segmented(lines[at.y as int]),
    ensures
        without(lines, at) == lines,
{
    assert(lines.update(at.y as int, lines[at.y as int]) == lines);
}

/// A deletion at the end of a line that another line follows joins the
/// two: the line becomes its text followed by that of the next line, and
/// the lines around them stay as they were. The document has one line
/// less.
pub proof fn lemma_delete_joins(lines: Seq<Seq<char>>, at: Position)
    requires
        at.y + 1 < lines.len(),
        at.x == length(lines[at.y as int]),
    ensures
        without(lines, at).len() == lines.len() - 1,
        without(lines, at)[at.y as int] == lines[at.y as int] + lines[at.y + 1],
        forall|i: int| 0 <= i < at.y ==> without(lines, at)[i] == lines[i],
        forall|i: int| at.y + 1 < i < lines.len() ==> without(lines, at)[i - 1] == lines[i],
{
}

/// The text of a document in memory.
pub struct Document {
    rows: Vec<Row>,
    file_name: Option<String>,
    dirty: bool,
}

impl View for Document {
    type V = Seq<Seq<char>>;

    /// The text of each line, in order.
    closed spec fn view(&self) -> Seq<Seq<char>> {
        self.rows@.map_values(|row: Row| row@)
    }
}

impl Default for Document {
    /// The empty document: no line, no title, not modified.
    fn default() -> (doc: Document)
        ensures
            doc@ == Seq::<Seq<char>>::empty(),
            doc.title() is None,
            !doc.modified(),
    {
        Document { rows: Vec::new(), file_name: None, dirty: false }
    }
}

impl Document {
    /// The title of the document, if it has one.
    pub closed spec fn title(&self) -> Option<Seq<char>> {
        match self.file_name {
            Some(name) => Some(name@),
            None => None,
        }
    }

    /// Whether the document has changed since it was last opened or saved.
    pub closed spec fn modified(&self) -> bool {
        self.dirty
    }

    /// The document that was read from `filename` as the text `contents`:
    /// its lines are those of the text, its title is read off the file
    /// name, and it is not modified.
    pub fn open(filename: &str, contents: &str) -> (doc: Document)
        ensures
            doc@ == lines_of(contents@),
            doc.title() == Some(title_of(filename@)),
            !doc.modified(),
    {
        let lines = split_lines(contents);
        let mut rows: Vec<Row> = Vec::new();
        let mut i: usize = 0;
        while i < lines.len()
            invariant
                i <= lines.len(),
                rows@.map_values(|row: Row| row@) == texts(lines@).take(i as int),
            decreases lines.len() - i,
        {
            let ghost before = rows@.map_values(|row: Row| row@);
            rows.push(Row::from(lines[i].as_str()));
            assert(rows@.map_values(|row: Row| row@) == before.push(lines@[i as int]@));
            assert(texts(lines@).take(i + 1) == texts(lines@).take(i as int).push(
                lines@[i as int]@,
            ));
            i += 1;
        }
        assert(texts(lines@).take(lines.len() as int) == texts(lines@));
        Document { rows, file_name: Some(title_from(filename)), dirty: false }
    }

    /// The title of the document, if it has one.
    pub fn file_name(&self) -> (name: Option<&String>)
        ensures
            name is Some == self.title() is Some,
            name is Some ==> Some(name->0@) == self.title(),
    {
        self.file_name.as_ref()
    }

    /// Gives the document a title. Its lines and its modification flag
    /// stay as they are.
    pub fn set_file_name(&mut self, name: String)
        ensures
            final(self).title() == Some(name@),
            final(self)@ == old(self)@,
            final(self).modified() == old(self).modified(),
    {
        self.file_name = Some(name);
    }

    /// The text that stores the document: each line in order, followed by
    /// one line feed.
    pub fn contents(&self) -> (text: String)
        ensures
            text@ == contents_of(self@),
    {
        let mut text = String::new();
        let mut i: usize = 0;
        assert(self@.take(0) == Seq::<Seq<char>>::empty());
        assert(contents_of(Seq::empty()) == Seq::<char>::empty());
        while i < self.rows.len()
            invariant
                i <= self.rows.len(),
                text@ == contents_of(self@.take(i as int)),
            decreases self.rows.len() - i,
        {
            proof {
                let all = self@;
                assert(all.take(i + 1) == all.take(i as int) + seq![all[i as int]]);
                lemma_contents_concat(all.take(i as int), seq![all[i as int]]);
                lemma_contents_one(all[i as int]);
            }
            text.append(self.rows[i].as_str());
            text.push('\n');
            i += 1;
        }
        assert(self@.take(self.rows.len() as int) == self@);
        text
    }

    /// Whether a save has anything to write: the document is modified and
    /// has a title to be stored under.
    pub open spec fn save_due(&self) -> bool {
        self.modified() && self.title() is Some
    }

    /// What a save has to write: the stored text of the document if a save
    /// is due, and nothing otherwise.
    pub fn save_text(&self) -> (text: Option<String>)
        ensures
            text is Some == self.save_due(),
            text is Some ==> text->0@ == contents_of(self@),
    {
        if self.dirty && self.file_name.is_some() {
            Some(self.contents())
        } else {
            None
        }
    }

    /// Records that the text of a save was written: a document that has a
    /// title is no longer modified. Nothing else changes.
    pub fn mark_saved(&mut self)
        ensures
            final(self)@ == old(self)@,
            final(self).title() == old(self).title(),
            final(self).modified() == (old(self).modified() && old(self).title() is None),
    {
        if self.file_name.is_some() {
            self.dirty = false;
        }
    }

    /// The row at index `idx`, if there is one.
    pub fn get_row(&self, idx: usize) -> (found: Option<&Row>)
        ensures
            idx < self@.len() ==> found is Some && found->0@ == self@[idx as int],
            idx >= self@.len() ==> found is None,
    {
        if idx < self.rows.len() {
            Some(&self.rows[idx])
        } else {
            None
        }
    }

    /// Whether the document has neither a line nor a title.
    pub fn is_empty(&self) -> (empty: bool)
        ensures
            empty == (self@.len() == 0 && self.title() is None),
    {
        self.rows.is_empty() && self.file_name.is_none()
    }

    /// The number of lines.
    pub fn get_row_num(&self) -> (n: usize)
        ensures
            n == self@.len(),
    {
        self.rows.len()
    }

    /// Whether the document has changed since it was last opened or saved.
    pub fn is_dirty(&self) -> (dirty: bool)
        ensures
            dirty == self.modified(),
    {
        self.dirty
    }

    /// Types `c` at `at`. A position below the row just past the last line
    /// is ignored; any other marks the document as modified.
    pub fn insert(&mut self, at: &Position, c: char)
        ensures
            final(self)@ == with_char(old(self)@, *at, c),
            final(self).title() == old(self).title(),
            final(self).modified() == (old(self).modified() || at.y <= old(self)@.len()),
    {
        let len = self.rows.len();
        if at.y > len {
            return ;
        }
        if c == '\n' {
            self.insert_new_line(at);
        } else if at.y == len {
            self.dirty = true;
            let mut row = Row::default();
            row.insert(0, c);
            self.rows.push(row);
            assert(final(self)@ == old(self)@.push(seq![c]));
        } else {
            self.dirty = true;
            self.rows[at.y].insert(at.x, c);
            assert(final(self)@ == old(self)@.update(
                at.y as int,
                inserted(old(self)@[at.y as int], at.x as nat, c),
            ));
        }
    }

    /// Deletes at `at`. A position below the last line is ignored; any
    /// other marks the document as modified.
    pub fn delete(&mut self, at: &Position)
        ensures
            final(self)@ == without(old(self)@, *at),
            final(self).title() == old(self).title(),
            final(self).modified() == (old(self).modified() || at.y < old(self)@.len()),
            at.y < old(self)@.len() && at.x >= length(old(self)@[at.y as int]) && !joins_next(
                old(self)@,
                *at,
            ) ==> final(self)@ == old(self)@,
    {
        let len = self.rows.len();
        if at.y < len {
            self.dirty = true;
            let width = self.rows[at.y].len();
            proof {
                if at.x >= width && !joins_next(old(self)@, *at) {
                    lemma_delete_past_end(old(self)@, *at);
                }
            }
            if at.x == width && at.y + 1 < len {
                let next = self.rows.remove(at.y + 1);
                self.rows[at.y].append(&next);
                assert(final(self)@ == old(self)@.update(
                    at.y as int,
                    old(self)@[at.y as int] + old(self)@[at.y + 1],
                ).remove(at.y + 1));
            } else {
                self.rows[at.y].delete(at.x);
                assert(final(self)@ == old(self)@.update(
                    at.y as int,
                    deleted(old(self)@[at.y as int], at.x as nat),
                ));
            }
        }
    }

    /// Breaks the line at `at`. A position below the row just past the last
    /// line is ignored; any other marks the document as modified.
    pub fn insert_new_line(&mut self, at: &Position)
        ensures
            final(self)@ == with_new_line(old(self)@, *at),
            final(self).title() == old(self).title(),
            final(self).modified() == (old(self).modified() || at.y <= old(self)@.len()),
            at.y < old(self)@.len() && at.x >= length(old(self)@[at.y as int]) ==> final(self)@
                == old(self)@.insert(at.y + 1, Seq::empty()),
    {
        let len = self.rows.len();
        if at.y <= len {
            self.dirty = true;
            if at.y == len {
                self.rows.push(Row::default());
                assert(final(self)@ == old(self)@.push(Seq::empty()));
            } else if at.x >= self.rows[at.y].len() {
                proof {
                    lemma_new_line_at_end(old(self)@, *at);
                }
                self.rows.insert(at.y + 1, Row::default());
                assert(final(self)@ == old(self)@.insert(at.y + 1, Seq::empty()));
            } else {
                let rest = self.rows[at.y].split(at.x);
                self.rows.insert(at.y + 1, rest);
                assert(final(self)@ == old(self)@.update(
                    at.y as int,
                    kept(old(self)@[at.y as int], at.x as nat),
                ).insert(at.y + 1, cut(old(self)@[at.y as int], at.x as nat)));
            }
        }
    }
}

} // verus!
