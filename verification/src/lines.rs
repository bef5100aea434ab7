//! Lines of text and the line terminators between them.
use crate::grapheme::texts;
use vstd::prelude::*;
use vstd::seq_lib::lemma_flatten_concat;

verus! {

/// A line as it stands before a line feed, without the carriage return
/// that may end it.
pub open spec fn without_return(line: Seq<char>) -> Seq<char> {
    if line.len() > 0 && line.last() == '\r' {
        line.drop_last()
    } else {
        line
    }
}

/// The lines of the text `line + rest`, where `line` is the beginning of
/// its first line.
pub open spec fn lines_from(line: Seq<char>, rest: Seq<char>) -> Seq<Seq<char>>
    decreases rest.len(),
{
    if rest.len() == 0 {
        if line.len() == 0 {
            Seq::empty()
        } else {
            seq![line]
        }
    } else if rest[0] == '\n' {
        seq![without_return(line)] + lines_from(Seq::empty(), rest.skip(1))
    } else {
        lines_from(line.push(rest[0]), rest.skip(1))
    }
}

/// The lines of a text. A line ends at a line feed, or at a carriage return
/// that a line feed follows; neither belongs to the line. What follows the
/// last line feed is a line too, unless it is empty.
pub open spec fn lines_of(text: Seq<char>) -> Seq<Seq<char>> {
    lines_from(Seq::empty(), text)
}

/// Cuts a text into its lines.
pub fn split_lines(text: &str) -> (lines: Vec<String>)
    ensures
        texts(lines@) == lines_of(text@),
{
    let mut lines: Vec<String> = Vec::new();
    let mut line = String::new();
    let mut after_return = false;
    assert(text@.skip(0) == text@);
    assert(texts(lines@) + lines_of(text@) == lines_of(text@));
    for c in it: text.chars()
        invariant
            it.seq() == text@,
            lines_of(text@) == texts(lines@) + lines_from(line@, text@.skip(it.index() as int)),
            after_return == (line@.len() > 0 && line@.last() == '\r'),
    {
        let ghost rest = text@.skip(it.index() as int);
        let ghost before = texts(lines@);
        let ghost begun = line@;
        assert(rest.len() > 0 && rest[0] == c);
        assert(rest.skip(1) == text@.skip(it.index() + 1));
        if c == '\n' {
            if after_return {
                line.pop();
            }
            lines.push(line);
            line = String::new();
            after_return = false;
            assert(texts(lines@) == before.push(without_return(begun)));
            assert(before + (seq![without_return(begun)] + lines_from(Seq::empty(), rest.skip(1)))
                == before.push(without_return(begun)) + lines_from(Seq::empty(), rest.skip(1)));
        } else {
            line.push(c);
            after_return = c == '\r';
        }
    }
    let ghost before = texts(lines@);
    assert(text@.skip(text@.len() as int).len() == 0);
    if !line.as_str().is_empty() {
        lines.push(line);
        assert(texts(lines@) == before + seq![line@]);
    } else {
        assert(before + Seq::<Seq<char>>::empty() == before);
    }
    lines
}

/// The character after which the title of a path begins.
pub const PATH_SEPARATOR: char = '\\';

/// The title that a path gives a document: what follows the last
/// separator in it, or all of it where it holds none.
pub open spec fn title_of(path: Seq<char>) -> Seq<char>
    decreases path.len(),
{
    if path.len() == 0 {
        path
    } else if path.last() == PATH_SEPARATOR {
        Seq::empty()
    } else {
        title_of(path.drop_last()).push(path.last())
    }
}

/// The title of a path is the end of the path, holds no separator, and
/// either is the whole path or comes right after a separator.
pub proof fn lemma_title_of(path: Seq<char>)
    ensures
        title_of(path).len() <= path.len(),
        title_of(path) == path.skip(path.len() - title_of(path).len()),
        !title_of(path).contains(PATH_SEPARATOR),
        title_of(path).len() < path.len() ==> path[path.len() - title_of(path).len() - 1]
            == PATH_SEPARATOR,
    decreases path.len(),
{
    if path.len() > 0 && path.last() != PATH_SEPARATOR {
        let front = path.drop_last();
        lemma_title_of(front);
        let title = title_of(front);
        let start = front.len() - title.len();
        assert(title.push(path.last()) == path.skip(start));
        assert forall|i: int| 0 <= i < title.push(path.last()).len() implies title.push(
            path.last(),
        )[i] != PATH_SEPARATOR by {
            if i < title.len() {
                assert(title.contains(title[i]));
            }
        }
    } else {
        assert(path.skip(path.len() as int) == Seq::<char>::empty());
    }
}

/// Reads the title off a path.
pub fn title_from(path: &str) -> (title: String)
    ensures
        title@ == title_of(path@),
{
    let mut title = String::new();
    assert(path@.take(0) == Seq::<char>::empty());
    for c in it: path.chars()
        invariant
            it.seq() == path@,
            title@ == title_of(path@.take(it.index() as int)),
    {
        let ghost read = path@.take(it.index() as int);
        assert(path@.take(it.index() + 1) == read.push(c));
        assert(read.push(c).drop_last() == read);
        if c == PATH_SEPARATOR {
            title = String::new();
        } else {
            title.push(c);
        }
    }
    assert(path@.take(path@.len() as int) == path@);
    title
}

/// A line followed by its terminator, a line feed.
pub open spec fn terminated(line: Seq<char>) -> Seq<char> {
    line.push('\n')
}

/// The text that stores `lines`: each line in order, followed by one line
/// feed.
pub open spec fn contents_of(lines: Seq<Seq<char>>) -> Seq<char> {
    lines.map_values(|line: Seq<char>| terminated(line)).flatten()
}

/// The stored text of lines set one after the other is the stored text of
/// the first lines followed by that of the others.
pub proof fn lemma_contents_concat(first: Seq<Seq<char>>, second: Seq<Seq<char>>)
    ensures
        contents_of(first + second) == contents_of(first) + contents_of(second),
{
    let end = |line: Seq<char>| terminated(line);
    assert((first + second).map_values(end) == first.map_values(end) + second.map_values(end));
    lemma_flatten_concat(first.map_values(end), second.map_values(end));
}

/// The stored text of a single line.
pub proof fn lemma_contents_one(line: Seq<char>)
    ensures
        contents_of(seq![line]) == terminated(line),
{
    let end = |line: Seq<char>| terminated(line);
    assert(seq![line].map_values(end) == seq![terminated(line)]);
    seq![terminated(line)].lemma_flatten_one_element();
}

/// A line that can be stored and read back: it holds no line feed and
/// does not end in a carriage return.
pub open spec fn storable(line: Seq<char>) -> bool {
    &&& !line.contains('\n')
    &&& line.len() > 0 ==> line.last() != '\r'
}

/// A text in which every line is ended by a line feed alone: the text is
/// empty or ends in a line feed, and no line feed follows a carriage
/// return.
pub open spec fn plainly_terminated(text: Seq<char>) -> bool {
    &&& text.len() > 0 ==> text.last() == '\n'
    &&& forall|i: int| 0 < i < text.len() && (#[trigger] text[i]) == '\n' ==> text[i - 1] != '\r'
}

/// Reading on through the rest of a line up to its line feed.
proof fn lemma_lines_from_line(line: Seq<char>, body: Seq<char>, rest: Seq<char>)
    requires
        !body.contains('\n'),
    ensures
        lines_from(line, terminated(body) + rest) == seq![without_return(line + body)]
            + lines_from(Seq::empty(), rest),
    decreases body.len(),
{
    let text = terminated(body) + rest;
    if body.len() == 0 {
        assert(text.skip(1) == rest);
        assert(line + body == line);
    } else {
        assert(body.contains(body[0]));
        let more = body.skip(1);
        assert forall|i: int| 0 <= i < more.len() implies more[i] != '\n' by {
            assert(body.contains(body[i + 1]));
        }
        lemma_lines_from_line(line.push(body[0]), more, rest);
        assert(text.skip(1) == terminated(more) + rest);
        assert(line.push(body[0]) + more == line + body);
    }
}

/// Storing lines and reading the stored text gives back the lines, as
/// long as each of them can be stored.
pub proof fn lemma_lines_of_contents(lines: Seq<Seq<char>>)
    requires
        forall|i: int| 0 <= i < lines.len() ==> storable(#[trigger] lines[i]),
    ensures
        lines_of(contents_of(lines)) == lines,
    decreases lines.len(),
{
    if lines.len() == 0 {
        assert(contents_of(lines) == Seq::<char>::empty());
    } else {
        let others = lines.skip(1);
        assert(lines == seq![lines[0]] + others);
        lemma_contents_concat(seq![lines[0]], others);
        lemma_contents_one(lines[0]);
        assert forall|i: int| 0 <= i < others.len() implies storable(#[trigger] others[i]) by {
            assert(others[i] == lines[i + 1]);
        }
        lemma_lines_of_contents(others);
        assert(storable(lines[0]));
        lemma_lines_from_line(Seq::empty(), lines[0], contents_of(others));
        assert(Seq::<char>::empty() + lines[0] == lines[0]);
    }
}

/// Reading on from the middle of a line in a plainly terminated text.
proof fn lemma_contents_of_lines_from(line: Seq<char>, rest: Seq<char>)
    requires
        plainly_terminated(line + rest),
        rest.len() == 0 ==> line.len() == 0,
    ensures
        contents_of(lines_from(line, rest)) == line + rest,
    decreases rest.len(),
{
    let text = line + rest;
    if rest.len() == 0 {
        assert(contents_of(Seq::empty()) == Seq::<char>::empty());
        assert(line + rest == Seq::<char>::empty());
    } else {
        let more = rest.skip(1);
        assert(text[line.len() as int] == rest[0]);
        assert(text.last() == rest.last());
        if rest[0] == '\n' {
            if line.len() > 0 {
                assert(text[line.len() - 1] == line.last());
            }
            assert(without_return(line) == line);
            assert forall|i: int| 0 < i < more.len() && (#[trigger] more[i]) == '\n' implies more[i
                - 1] != '\r' by {
                assert(text[line.len() + 1 + i] == more[i]);
                assert(text[line.len() + i] == more[i - 1]);
            }
            assert(Seq::<char>::empty() + more == more);
            lemma_contents_of_lines_from(Seq::empty(), more);
            lemma_contents_concat(seq![line], lines_from(Seq::empty(), more));
            lemma_contents_one(line);
            assert(terminated(line) + more == line + rest);
        } else {
            assert(line.push(rest[0]) + more == text);
            lemma_contents_of_lines_from(line.push(rest[0]), more);
        }
    }
}

/// Reading a text and storing its lines gives back the text, as long as
/// each of its lines is ended by a line feed alone.
pub proof fn lemma_contents_of_lines(text: Seq<char>)
    requires
        plainly_terminated(text),
    ensures
        contents_of(lines_of(text)) == text,
{
    assert(Seq::<char>::empty() + text == text);
    lemma_contents_of_lines_from(Seq::empty(), text);
}

} // verus!
