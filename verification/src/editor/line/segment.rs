//! A line's text seen as a sequence of grapheme clusters: where each starts,
//! how wide the line is up to a cluster, and what the edits do to the text.

use super::glyph::classify_spec;
use super::strings::byte_len;
use super::textfragment::Descriptor;
use super::unicode::grapheme_clusters;
use vstd::prelude::*;
use vstd::seq_lib::lemma_flatten_concat;

verus! {

/// Whether `clusters` cuts `text` into non-empty pieces, in order.
pub open spec fn is_segmentation(clusters: Seq<Seq<char>>, text: Seq<char>) -> bool {
    &&& clusters.flatten() == text
    &&& forall|i: int| 0 <= i < clusters.len() ==> (#[trigger] clusters[i]).len() > 0
}

/// The number of grapheme clusters of `text`.
pub open spec fn cluster_count(text: Seq<char>) -> nat {
    grapheme_clusters(text).len()
}

/// `g` brought into `0 ..= cluster_count(text)`.
pub open spec fn clamp_index(text: Seq<char>, g: int) -> int {
    if g < 0 {
        0
    } else if g > cluster_count(text) {
        cluster_count(text) as int
    } else {
        g
    }
}

/// The text of the clusters before index `g`; all of them if `g` is past the
/// end.
pub open spec fn text_before(text: Seq<char>, g: int) -> Seq<char> {
    grapheme_clusters(text).take(clamp_index(text, g)).flatten()
}

/// The text of the clusters from index `g` on; empty if `g` is past the end.
pub open spec fn text_from(text: Seq<char>, g: int) -> Seq<char> {
    grapheme_clusters(text).skip(clamp_index(text, g)).flatten()
}

/// The text of the clusters whose index lies in `start .. end`, both ends
/// clamped to the number of clusters.
pub open spec fn text_between(text: Seq<char>, start: int, end: int) -> Seq<char> {
    let from = clamp_index(text, start);
    let to = clamp_index(text, end);
    if from < to {
        grapheme_clusters(text).subrange(from, to).flatten()
    } else {
        Seq::empty()
    }
}

/// What a line stores for its cluster of index `g`.
pub open spec fn descriptor_at(text: Seq<char>, g: int) -> Descriptor {
    Descriptor {
        grapheme: grapheme_clusters(text)[g],
        rendered_width: classify_spec(grapheme_clusters(text)[g]).1,
        start: byte_len(text_before(text, g)) as int,
    }
}

/// What a line stores for `text`: one descriptor for each cluster, in order.
pub open spec fn descriptors_of(text: Seq<char>) -> Seq<Descriptor> {
    Seq::new(cluster_count(text), |g: int| descriptor_at(text, g))
}

/// The columns that a run of clusters takes.
pub open spec fn total_columns(descriptors: Seq<Descriptor>) -> int
    decreases descriptors.len(),
{
    if descriptors.len() == 0 {
        0
    } else {
        total_columns(descriptors.drop_last()) + descriptors.last().rendered_width.columns()
    }
}

/// The columns that the first `g` clusters of `text` take; all of them if `g`
/// is past the end.
pub open spec fn columns_until(text: Seq<char>, g: int) -> int {
    total_columns(descriptors_of(text).take(clamp_index(text, g)))
}

/// `n`, or the largest `usize` where `n` is larger: what a sum of columns
/// comes to on the machine.
pub open spec fn saturated(n: int) -> int {
    if n > usize::MAX {
        usize::MAX as int
    } else {
        n
    }
}

/// `text` with `c` put before its cluster of index `at`, or at the end if
/// there is no such cluster.
pub open spec fn with_char_inserted(text: Seq<char>, c: char, at: int) -> Seq<char> {
    text_before(text, at) + seq![c] + text_from(text, at)
}

/// `text` without its cluster of index `at`; `text` itself if there is no
/// such cluster.
pub open spec fn with_grapheme_deleted(text: Seq<char>, at: int) -> Seq<char> {
    text_before(text, at) + text_from(text, at + 1)
}

/// No line break but, at most, a final one.
pub open spec fn is_single_line(text: Seq<char>) -> bool {
    forall|i: int| 0 <= i < text.len() - 1 ==> #[trigger] text[i] != '\n'
}

/// The clusters before `g` and those from `g` on make up the text.
pub proof fn lemma_before_and_from(text: Seq<char>, g: int)
    requires
        is_segmentation(grapheme_clusters(text), text),
    ensures
        text_before(text, g) + text_from(text, g) == text,
{
    let clusters = grapheme_clusters(text);
    let n = clamp_index(text, g);
    lemma_flatten_concat(clusters.take(n), clusters.skip(n));
    assert(clusters.take(n) + clusters.skip(n) =~= clusters);
}

/// Taking one more cluster appends that cluster to the text before.
pub proof fn lemma_before_next(text: Seq<char>, g: int)
    requires
        0 <= g < cluster_count(text),
    ensures
        text_before(text, g + 1) == text_before(text, g) + grapheme_clusters(text)[g],
{
    let clusters = grapheme_clusters(text);
    assert(clusters.take(g + 1) =~= clusters.take(g).push(clusters[g]));
    clusters.take(g).lemma_flatten_push(clusters[g]);
}

/// The text from a cluster on starts with that cluster.
pub proof fn lemma_from_next(text: Seq<char>, g: int)
    requires
        0 <= g < cluster_count(text),
    ensures
        text_from(text, g) == grapheme_clusters(text)[g] + text_from(text, g + 1),
{
    let clusters = grapheme_clusters(text);
    assert(clusters.skip(g).drop_first() =~= clusters.skip(g + 1));
    assert(clusters.skip(g).first() == clusters[g]);
}

/// Past the last cluster nothing is left, and everything lies before.
pub proof fn lemma_past_the_end(text: Seq<char>, g: int)
    requires
        is_segmentation(grapheme_clusters(text), text),
        g >= cluster_count(text),
    ensures
        text_before(text, g) == text,
        text_from(text, g) == Seq::<char>::empty(),
{
    let clusters = grapheme_clusters(text);
    assert(clusters.take(clusters.len() as int) =~= clusters);
    assert(clusters.skip(clusters.len() as int) =~= Seq::<Seq<char>>::empty());
}

/// A run of clusters takes at least one column and at most two for each.
pub proof fn lemma_total_columns_bounds(descriptors: Seq<Descriptor>)
    ensures
        descriptors.len() <= total_columns(descriptors) <= 2 * descriptors.len(),
    decreases descriptors.len(),
{
    if descriptors.len() > 0 {
        lemma_total_columns_bounds(descriptors.drop_last());
    }
}

/// One more cluster adds its own columns.
pub proof fn lemma_total_columns_next(descriptors: Seq<Descriptor>, n: int)
    requires
        0 <= n < descriptors.len(),
    ensures
        total_columns(descriptors.take(n + 1)) == total_columns(descriptors.take(n))
            + descriptors[n].rendered_width.columns(),
{
    assert(descriptors.take(n + 1).drop_last() =~= descriptors.take(n));
}

/// A longer run of clusters is at least as wide.
pub proof fn lemma_total_columns_monotonic(descriptors: Seq<Descriptor>, m: int, n: int)
    requires
        0 <= m <= n <= descriptors.len(),
    ensures
        total_columns(descriptors.take(m)) <= total_columns(descriptors.take(n)),
    decreases n - m,
{
    if m < n {
        lemma_total_columns_next(descriptors, n - 1);
        lemma_total_columns_monotonic(descriptors, m, n - 1);
    }
}

} // verus!
