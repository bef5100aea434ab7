//! One line of text, addressed by grapheme cluster.
use crate::clusters::{
    clamp, display, displayed, divide, excise, excised, head, lemma_excise_spliced,
    lemma_head_tail, splice, spliced, tail,
};
use crate::grapheme::{graphemes_of, lemma_partition_of_nothing, segment, segmented};
use vstd::prelude::*;
use vstd::string::StringExecFns;
use vstd::utf8::encode_utf8;

verus! {

/// The length of a line: the number of its grapheme clusters.
pub open spec fn length(text: Seq<char>) -> nat {
    graphemes_of(text).len()
}

/// The text of a line after `c` is inserted before its cluster at index
/// `at`, or at its end where it has no such cluster.
pub open spec fn inserted(text: Seq<char>, at: nat, c: char) -> Seq<char> {
    spliced(graphemes_of(text), at, c)
}

/// The text of a line without its cluster at index `at`; the whole text
/// where it has no such cluster.
pub open spec fn deleted(text: Seq<char>, at: nat) -> Seq<char> {
    excised(graphemes_of(text), at)
}

/// The text of the clusters of a line before index `at`.
pub open spec fn kept(text: Seq<char>, at: nat) -> Seq<char> {
    head(graphemes_of(text), at)
}

/// The text of the clusters of a line from index `at` on.
pub open spec fn cut(text: Seq<char>, at: nat) -> Seq<char> {
    tail(graphemes_of(text), at)
}

/// The display text of the clusters of a line from index `start` up to
/// `end`.
pub open spec fn rendered(text: Seq<char>, start: nat, end: nat) -> Seq<char> {
    displayed(graphemes_of(text), start, end)
}

/// Whether `c`, inserted into a line at index `at`, becomes a cluster of
/// its own and leaves the clusters around it as they were.
///
/// A character that combines with what is before or after it, such as an
/// accent typed after a letter, does not.
pub open spec fn stands_alone(text: Seq<char>, at: nat, c: char) -> bool {
    graphemes_of(inserted(text, at, c)) == graphemes_of(text).insert(
        clamp(at as int, length(text)),
        seq![c],
    )
}

/// Whether a line closes up around its cluster at index `at`: with that
/// cluster gone, the clusters on both sides are as they were.
pub open spec fn closes_up(text: Seq<char>, at: nat) -> bool {
    at < length(text) ==> graphemes_of(deleted(text, at)) == graphemes_of(text).remove(at as int)
}

/// Whether two texts join cleanly: the clusters of the first followed by
/// those of the second are the clusters of the joined text.
pub open spec fn joins_cleanly(first: Seq<char>, second: Seq<char>) -> bool {
    graphemes_of(first + second) == graphemes_of(first) + graphemes_of(second)
}

/// Whether a line parts cleanly before its cluster at index `at`: each of
/// the two parts has the clusters that it had within the line.
pub open spec fn parts_cleanly(text: Seq<char>, at: nat) -> bool {
    let found = graphemes_of(text);
    &&& graphemes_of(kept(text, at)) == found.take(clamp(at as int, found.len()))
    &&& graphemes_of(cut(text, at)) == found.skip(clamp(at as int, found.len()))
}

/// Inserting a character at an index up to the length of a line and then
/// deleting at the same index gives back the text and the length of the
/// line, as long as the character stands alone in the line. In between
/// the line is longer by one.
pub proof fn lemma_insert_then_delete(text: Seq<char>, at: nat, c: char)
    requires
        segmented(text),
        at <= length(text),
        stands_alone(text, at, c),
    ensures
        length(inserted(text, at, c)) == length(text) + 1,
        deleted(inserted(text, at, c), at) == text,
        length(deleted(inserted(text, at, c), at)) == length(text),
{
    lemma_excise_spliced(graphemes_of(text), at, c);
}

/// Splitting a line at any index and appending what was cut off to what
/// was kept gives back the text, and so the length, of the line.
pub proof fn lemma_split_then_append(text: Seq<char>, at: nat)
    requires
        segmented(text),
    ensures
        kept(text, at) + cut(text, at) == text,
        length(kept(text, at) + cut(text, at)) == length(text),
{
    lemma_head_tail(graphemes_of(text), at);
}

/// A line of text together with the number of grapheme clusters in it.
///
/// Every index that a row takes counts grapheme clusters, never characters
/// or bytes. The stored count always agrees with the text: each operation
/// that changes the text counts the clusters of the new text.
pub struct Row {
    text: String,
    len: usize,
}

impl View for Row {
    type V = Seq<char>;

    /// The text of the row.
    closed spec fn view(&self) -> Seq<char> {
        self.text@
    }
}

impl Default for Row {
    /// The empty row.
    fn default() -> (row: Row)
        ensures
            row@ == Seq::<char>::empty(),
            length(row@) == 0,
    {
        proof {
            lemma_partition_of_nothing();
        }
        Row::counting(String::new())
    }
}

impl Row {
    #[verifier::type_invariant]
    spec fn well_formed(self) -> bool {
        &&& self.len == length(self.text@)
        &&& segmented(self.text@)
    }

    /// The UTF-8 encoding of the row's text.
    pub open spec fn spec_bytes(&self) -> Seq<u8> {
        encode_utf8(self@)
    }

    fn counting(text: String) -> (row: Row)
        ensures
            row@ == text@,
            segmented(row@),
    {
        let found = segment(text.as_str());
        Row { text, len: found.len() }
    }

    /// The row that holds `value`.
    pub fn from(value: &str) -> (row: Row)
        ensures
            row@ == value@,
    {
        Row::counting(String::from_str(value))
    }

    /// The display text of the clusters from `start` up to `end`. `end` is
    /// brought down to the length of the row and `start` down to `end`; a
    /// cluster that is a tab is displayed as one space.
    pub fn render(&self, start: usize, end: usize) -> (out: String)
        ensures
            out@ == rendered(self@, start as nat, end as nat),
    {
        let found = segment(self.text.as_str());
        display(&found, start, end)
    }

    /// Whether the row holds no cluster, which is to say no text.
    pub fn is_empty(&self) -> (empty: bool)
        ensures
            empty == (length(self@) == 0),
            empty == (self@.len() == 0),
    {
        proof {
            use_type_invariant(&*self);
            let found = graphemes_of(self@);
            if found.len() > 0 {
                assert(found.flatten() == found.first() + found.drop_first().flatten());
            }
        }
        self.len == 0
    }

    /// The number of grapheme clusters in the row. The clusters of a row
    /// are non-empty and make up its text.
    pub fn len(&self) -> (n: usize)
        ensures
            n == length(self@),
            segmented(self@),
    {
        proof {
            use_type_invariant(&*self);
        }
        self.len
    }

    /// Inserts `c` before the cluster at index `at`, or at the end of the
    /// row where `at` is not below its length.
    pub fn insert(&mut self, at: usize, c: char)
        ensures
            final(self)@ == inserted(old(self)@, at as nat, c),
            at >= length(old(self)@) ==> final(self)@ == old(self)@.push(c),
            stands_alone(old(self)@, at as nat, c) ==> length(final(self)@) == length(old(self)@)
                + 1,
    {
        proof {
            use_type_invariant(&*self);
        }
        let found = segment(self.text.as_str());
        let text = splice(&found, at, c);
        proof {
            let cs = graphemes_of(self@);
            if at >= cs.len() {
                assert(cs.insert(cs.len() as int, seq![c]) == cs.push(seq![c]));
                cs.lemma_flatten_push(seq![c]);
                assert(cs.flatten() + seq![c] == cs.flatten().push(c));
            }
        }
        *self = Row::counting(text);
    }

    /// Removes the cluster at index `at`; does nothing where `at` is not
    /// below the length of the row.
    pub fn delete(&mut self, at: usize)
        ensures
            final(self)@ == deleted(old(self)@, at as nat),
            at >= length(old(self)@) ==> final(self)@ == old(self)@,
            at < length(old(self)@) && closes_up(old(self)@, at as nat) ==> length(final(self)@)
                == length(old(self)@) - 1,
    {
        proof {
            use_type_invariant(&*self);
        }
        if at < self.len {
            let found = segment(self.text.as_str());
            let text = excise(&found, at);
            *self = Row::counting(text);
        }
    }

    /// Adds the text of `other` to the end of the row.
    pub fn append(&mut self, other: &Row)
        ensures
            final(self)@ == old(self)@ + other@,
            joins_cleanly(old(self)@, other@) ==> length(final(self)@) == length(old(self)@)
                + length(other@),
    {
        let mut text = self.text.clone();
        text.append(other.text.as_str());
        *self = Row::counting(text);
    }

    /// Cuts the row before the cluster at index `at`: the row keeps the
    /// clusters before it and the result holds those from it on. An `at`
    /// that is not below the length of the row leaves the row whole and the
    /// result empty.
    pub fn split(&mut self, at: usize) -> (rest: Row)
        ensures
            final(self)@ == kept(old(self)@, at as nat),
            rest@ == cut(old(self)@, at as nat),
            final(self)@ + rest@ == old(self)@,
            parts_cleanly(old(self)@, at as nat) ==> length(final(self)@) == clamp(
                at as int,
                length(old(self)@),
            ) && length(final(self)@) + length(rest@) == length(old(self)@),
    {
        proof {
            use_type_invariant(&*self);
        }
        let found = segment(self.text.as_str());
        let (kept, cut) = divide(&found, at);
        proof {
            lemma_head_tail(graphemes_of(self@), at as nat);
        }
        *self = Row::counting(kept);
        Row::counting(cut)
    }

    /// The text of the row.
    pub fn as_str(&self) -> (text: &str)
        ensures
            text@ == self@,
    {
        self.text.as_str()
    }

    /// The UTF-8 bytes of the row's text.
    pub fn as_bytes(&self) -> (bytes: &[u8])
        ensures
            bytes@ == self.spec_bytes(),
    {
        self.text.as_str().as_bytes()
    }
}

} // verus!
