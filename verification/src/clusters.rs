//! Editing and display of a line that has already been cut into clusters.
//!
//! Everything here works on the clusters it is given, whatever text they
//! came from, so each function is fully determined by its arguments.
use crate::grapheme::texts;
use vstd::math::{max, min};
use vstd::prelude::*;
use vstd::seq_lib::lemma_flatten_concat;
use vstd::string::StringExecFns;

verus! {

/// The smaller of an index and a length, as an index into a sequence.
pub open spec fn clamp(at: int, len: nat) -> int {
    if at < len {
        at
    } else {
        len as int
    }
}

/// The text of `clusters` with `c` inserted before the cluster at `at`, or
/// at the end where there is no such cluster.
pub open spec fn spliced(clusters: Seq<Seq<char>>, at: nat, c: char) -> Seq<char> {
    clusters.insert(clamp(at as int, clusters.len()), seq![c]).flatten()
}

/// The text of `clusters` without the cluster at `at`, or all of it where
/// there is no such cluster.
pub open spec fn excised(clusters: Seq<Seq<char>>, at: nat) -> Seq<char> {
    if at < clusters.len() {
        clusters.remove(at as int).flatten()
    } else {
        clusters.flatten()
    }
}

/// The text of the clusters before index `at`.
pub open spec fn head(clusters: Seq<Seq<char>>, at: nat) -> Seq<char> {
    clusters.take(clamp(at as int, clusters.len())).flatten()
}

/// The text of the clusters from index `at` on.
pub open spec fn tail(clusters: Seq<Seq<char>>, at: nat) -> Seq<char> {
    clusters.skip(clamp(at as int, clusters.len())).flatten()
}

/// How one cluster is displayed: a tab as a single space, anything else as
/// itself.
pub open spec fn shown(cluster: Seq<char>) -> Seq<char> {
    if cluster == seq!['\t'] {
        seq![' ']
    } else {
        cluster
    }
}

/// The clusters that a display of the range from `start` to `end` covers:
/// `end` is first brought down to the number of clusters, then `start` down
/// to `end`.
pub open spec fn window(clusters: Seq<Seq<char>>, start: nat, end: nat) -> Seq<Seq<char>> {
    let stop = clamp(end as int, clusters.len());
    clusters.subrange(clamp(start as int, stop as nat), stop)
}

/// The displayed units of the range from `start` to `end`.
pub open spec fn shown_window(clusters: Seq<Seq<char>>, start: nat, end: nat) -> Seq<Seq<char>> {
    window(clusters, start, end).map_values(|cluster: Seq<char>| shown(cluster))
}

/// The display text of the range from `start` to `end`.
pub open spec fn displayed(clusters: Seq<Seq<char>>, start: nat, end: nat) -> Seq<char> {
    shown_window(clusters, start, end).flatten()
}

/// The clusters before an index and those from it on make up the whole.
pub proof fn lemma_head_tail(clusters: Seq<Seq<char>>, at: nat)
    ensures
        head(clusters, at) + tail(clusters, at) == clusters.flatten(),
{
    let k = clamp(at as int, clusters.len());
    assert(clusters.take(k) + clusters.skip(k) == clusters);
    lemma_flatten_concat(clusters.take(k), clusters.skip(k));
}

/// Taking out the cluster that was just put in gives back the text.
pub proof fn lemma_excise_spliced(clusters: Seq<Seq<char>>, at: nat, c: char)
    requires
        at <= clusters.len(),
    ensures
        excised(clusters.insert(at as int, seq![c]), at) == clusters.flatten(),
        spliced(clusters, at, c) == clusters.insert(at as int, seq![c]).flatten(),
{
    assert(clusters.insert(at as int, seq![c]).remove(at as int) == clusters);
}

/// A display covers as many units as lie between its two ends, once `end`
/// is brought down to the number of clusters and `start` down to `end`.
/// Each unit stands for the cluster in its place: one space for a tab, the
/// cluster itself otherwise, so no unit is a tab.
pub proof fn lemma_shown_window(clusters: Seq<Seq<char>>, start: nat, end: nat)
    ensures
        shown_window(clusters, start, end).len() == max(
            0,
            min(end as int, clusters.len() as int) - min(
                start as int,
                min(end as int, clusters.len() as int),
            ),
        ),
        forall|i: int|
            0 <= i < shown_window(clusters, start, end).len() ==> {
                let cluster = clusters[min(
                    start as int,
                    min(end as int, clusters.len() as int),
                ) + i];
                &&& (#[trigger] shown_window(clusters, start, end)[i]) == shown(cluster)
                &&& shown_window(clusters, start, end)[i] != seq!['\t']
                &&& cluster == seq!['\t'] ==> shown_window(clusters, start, end)[i] == seq![' ']
                &&& cluster != seq!['\t'] ==> shown_window(clusters, start, end)[i] == cluster
            },
{
    assert forall|i: int| 0 <= i < shown_window(clusters, start, end).len() implies (
    #[trigger] shown_window(clusters, start, end)[i]) != seq!['\t'] by {
        let unit = shown_window(clusters, start, end)[i];
        if unit == seq!['\t'] {
            assert(unit[0] == '\t');
            assert(seq![' '][0] == ' ');
        }
    }
}

/// Joining a range of clusters extended by one more cluster.
proof fn lemma_flatten_range_step(clusters: Seq<Seq<char>>, from: int, to: int)
    requires
        0 <= from <= to < clusters.len(),
    ensures
        clusters.subrange(from, to + 1).flatten() == clusters.subrange(from, to).flatten()
            + clusters[to],
{
    assert(clusters.subrange(from, to + 1) == clusters.subrange(from, to).push(clusters[to]));
    clusters.subrange(from, to).lemma_flatten_push(clusters[to]);
}

/// Appends the clusters from index `from` up to `to` to `out`.
fn append_range(out: &mut String, clusters: &Vec<String>, from: usize, to: usize)
    requires
        from <= to <= clusters.len(),
    ensures
        final(out)@ == old(out)@ + texts(clusters@).subrange(from as int, to as int).flatten(),
{
    let mut i: usize = from;
    assert(texts(clusters@).subrange(from as int, from as int).flatten() == Seq::<char>::empty());
    while i < to
        invariant
            from <= i <= to <= clusters.len(),
            out@ == old(out)@ + texts(clusters@).subrange(from as int, i as int).flatten(),
        decreases to - i,
    {
        proof {
            lemma_flatten_range_step(texts(clusters@), from as int, i as int);
        }
        out.append(clusters[i].as_str());
        i += 1;
    }
}

/// Builds the text of `clusters` with `c` inserted before the cluster at
/// `at`; where `at` is not the index of a cluster, `c` goes to the end.
pub fn splice(clusters: &Vec<String>, at: usize, c: char) -> (text: String)
    ensures
        text@ == spliced(texts(clusters@), at as nat, c),
{
    let n = clusters.len();
    let k: usize = if at < n { at } else { n };
    let mut out = String::new();
    append_range(&mut out, clusters, 0, k);
    out.push(c);
    append_range(&mut out, clusters, k, n);
    proof {
        let cs = texts(clusters@);
        let ki = k as int;
        assert(cs.insert(ki, seq![c]) == cs.take(ki).push(seq![c]) + cs.skip(ki));
        lemma_flatten_concat(cs.take(ki).push(seq![c]), cs.skip(ki));
        cs.take(ki).lemma_flatten_push(seq![c]);
        assert(cs.take(ki) == cs.subrange(0, ki));
        assert(cs.skip(ki) == cs.subrange(ki, n as int));
        assert(cs.take(ki).flatten() + seq![c] == cs.take(ki).flatten().push(c));
    }
    out
}

/// Builds the text of `clusters` without the cluster at `at`; where `at` is
/// not the index of a cluster, nothing is left out.
pub fn excise(clusters: &Vec<String>, at: usize) -> (text: String)
    ensures
        text@ == excised(texts(clusters@), at as nat),
{
    let n = clusters.len();
    let mut out = String::new();
    if at < n {
        append_range(&mut out, clusters, 0, at);
        append_range(&mut out, clusters, at + 1, n);
        proof {
            let cs = texts(clusters@);
            assert(cs.remove(at as int) == cs.subrange(0, at as int) + cs.subrange(
                at as int + 1,
                n as int,
            ));
            lemma_flatten_concat(cs.subrange(0, at as int), cs.subrange(at as int + 1, n as int));
        }
    } else {
        append_range(&mut out, clusters, 0, n);
        assert(texts(clusters@).subrange(0, n as int) == texts(clusters@));
    }
    out
}

/// Builds the two texts into which `clusters` falls at index `at`: the
/// clusters before it, and those from it on. An `at` beyond the last
/// cluster leaves the second text empty.
pub fn divide(clusters: &Vec<String>, at: usize) -> (parts: (String, String))
    ensures
        parts.0@ == head(texts(clusters@), at as nat),
        parts.1@ == tail(texts(clusters@), at as nat),
{
    let n = clusters.len();
    let k: usize = if at < n { at } else { n };
    let mut first = String::new();
    let mut second = String::new();
    append_range(&mut first, clusters, 0, k);
    append_range(&mut second, clusters, k, n);
    proof {
        let cs = texts(clusters@);
        assert(cs.take(k as int) == cs.subrange(0, k as int));
        assert(cs.skip(k as int) == cs.subrange(k as int, n as int));
    }
    (first, second)
}

/// Whether a cluster is a single tab character.
fn is_tab(cluster: &str) -> (tab: bool)
    ensures
        tab == (cluster@ == seq!['\t']),
{
    if cluster.unicode_len() == 1 {
        let first = cluster.get_char(0);
        assert(first == '\t' ==> cluster@ =~= seq!['\t']);
        first == '\t'
    } else {
        false
    }
}

/// Builds the display text of the clusters from `start` up to `end`, with
/// `end` brought down to the number of clusters and `start` down to `end`.
/// A cluster that is a tab is displayed as one space.
pub fn display(clusters: &Vec<String>, start: usize, end: usize) -> (text: String)
    ensures
        text@ == displayed(texts(clusters@), start as nat, end as nat),
{
    let n = clusters.len();
    let stop: usize = if end < n { end } else { n };
    let first: usize = if start < stop { start } else { stop };
    let mut out = String::new();
    let mut i: usize = first;
    let ghost units = shown_window(texts(clusters@), start as nat, end as nat);
    assert(units.take(0).flatten() == Seq::<char>::empty());
    while i < stop
        invariant
            first <= i <= stop <= clusters.len(),
            units == shown_window(texts(clusters@), start as nat, end as nat),
            units.len() == stop - first,
            stop == clamp(end as int, clusters@.len()),
            first == clamp(start as int, stop as nat),
            out@ == units.take(i - first).flatten(),
        decreases stop - i,
    {
        proof {
            let done = i - first;
            assert(units.take(done + 1) == units.take(done).push(units[done]));
            units.take(done).lemma_flatten_push(units[done]);
            assert(units[done] == shown(texts(clusters@)[i as int]));
        }
        let cluster = clusters[i].as_str();
        if is_tab(cluster) {
            out.push(' ');
            assert(out@ == units.take(i - first).flatten() + seq![' ']);
        } else {
            out.append(cluster);
        }
        i += 1;
    }
    assert(units.take(stop - first) == units);
    out
}

} // verus!
