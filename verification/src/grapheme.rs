//! Grapheme clusters: the units in which a line of text is addressed.
//!
//! Where a text breaks into clusters is decided by the `unicode-segmentation`
//! crate. The library reasons about the outcome through [`graphemes_of`] and
//! through the two facts that [`partitions`] records: the clusters are
//! non-empty and, joined in order, give back the text.
use unicode_segmentation::UnicodeSegmentation;
use vstd::prelude::*;

verus! {

/// The extended grapheme clusters of `text`, in order: what
/// `UnicodeSegmentation::graphemes(text, true)` yields.
pub uninterp spec fn graphemes_of(text: Seq<char>) -> Seq<Seq<char>>;

/// The contents of a sequence of strings.
pub open spec fn texts(strings: Seq<String>) -> Seq<Seq<char>> {
    strings.map_values(|s: String| s@)
}

/// `clusters` cuts `text` into consecutive non-empty pieces.
pub open spec fn partitions(clusters: Seq<Seq<char>>, text: Seq<char>) -> bool {
    &&& clusters.flatten() == text
    &&& forall|i: int| 0 <= i < clusters.len() ==> (#[trigger] clusters[i]).len() > 0
}

/// The clusters of `text` cut it into consecutive non-empty pieces.
///
/// This holds of every text that has been segmented, and so of the text
/// of every line that the library holds.
pub open spec fn segmented(text: Seq<char>) -> bool {
    partitions(graphemes_of(text), text)
}

/// Only the empty sequence of clusters cuts up the empty text.
pub proof fn lemma_partition_of_nothing()
    ensures
        forall|clusters: Seq<Seq<char>>| #[trigger]
            partitions(clusters, Seq::empty()) ==> clusters.len() == 0,
{
    assert forall|clusters: Seq<Seq<char>>| #[trigger]
        partitions(clusters, Seq::empty()) implies clusters.len() == 0 by {
        if clusters.len() > 0 {
            assert(clusters.flatten() == clusters.first() + clusters.drop_first().flatten());
            assert(clusters[0].len() > 0);
        }
    }
}

/// Calls `UnicodeSegmentation::graphemes` with `is_extended` set and copies
/// each yielded slice into a `String`.
///
/// Trusted: the result is the segmentation that [`graphemes_of`] names. The
/// iterator hands out consecutive slices of `text`, from its start to its
/// end, each running to the next boundary after its first character, so the
/// slices are non-empty and their concatenation is `text`.
#[verifier::external_body]
pub(crate) fn segment(text: &str) -> (clusters: Vec<String>)
    ensures
        texts(clusters@) == graphemes_of(text@),
        partitions(texts(clusters@), text@),
{
    text.graphemes(true).map(String::from).collect()
}

} // verus!
