//! What holds of every line, whatever was done to it.

use super::segment::{
    clamp_index, cluster_count, columns_until, descriptors_of, is_single_line,
    lemma_before_and_from, lemma_before_next, lemma_from_next, lemma_total_columns_bounds,
    lemma_total_columns_monotonic, saturated, text_before, text_from, total_columns,
    with_char_inserted, with_grapheme_deleted,
};
use super::strings::{byte_len, lemma_encode_concat};
use super::textfragment::Descriptor;
use super::unicode::grapheme_clusters;
use super::Line;
use vstd::prelude::*;

verus! {

/// A line made from a text holds that text, and printing the line gives
/// the text back: `made` is what `Line::from` returns for `text`, `printed`
/// what `to_string` returns for `made`.
pub proof fn lemma_round_trip(text: Seq<char>, made: Line, printed: Seq<char>)
    requires
        is_single_line(text),
        made@ == text,
        printed == made@,
    ensures
        printed == text,
{
}

/// Two well-formed lines with the same text store the same descriptors.
pub proof fn lemma_descriptors_follow_text(a: Line, b: Line)
    requires
        a.wf(),
        b.wf(),
        a@ == b@,
    ensures
        a.descriptors() == b.descriptors(),
        a.descriptors() == descriptors_of(a@),
{
}

/// The descriptors of a well-formed line, read one after the other, spell
/// the line's text.
pub proof fn lemma_descriptors_spell_text(line: Line)
    requires
        line.wf(),
    ensures
        line.descriptors().map_values(|descriptor: Descriptor| descriptor.grapheme).flatten()
            == line@,
{
    let spelled = line.descriptors().map_values(|descriptor: Descriptor| descriptor.grapheme);
    assert(spelled =~= grapheme_clusters(line@));
}

/// The width of a well-formed line is the sum of the widths of its
/// descriptors: at least one column and at most two for each cluster, and
/// what `width` returns for it unless that exceeds the largest `usize`.
pub proof fn lemma_width_is_sum(line: Line)
    requires
        line.wf(),
    ensures
        total_columns(line.descriptors()) == columns_until(line@, cluster_count(line@) as int),
        cluster_count(line@) <= total_columns(line.descriptors()) <= 2 * cluster_count(line@),
        2 * cluster_count(line@) <= usize::MAX ==> saturated(total_columns(line.descriptors()))
            == total_columns(line.descriptors()),
{
    let descriptors = line.descriptors();
    assert(descriptors.take(descriptors.len() as int) =~= descriptors);
    lemma_total_columns_bounds(descriptors);
}

/// In a well-formed line the descriptors stand in the order of their byte
/// offsets: a later cluster starts at a later byte.
pub proof fn lemma_starts_ascend(line: Line, i: int, j: int)
    requires
        line.wf(),
        0 <= i < j < cluster_count(line@),
    ensures
        line.descriptors()[i].start < line.descriptors()[j].start,
    decreases j - i,
{
    let text = line@;
    if j == i + 1 {
        let cluster = grapheme_clusters(text)[i];
        lemma_before_next(text, i);
        lemma_encode_concat(text_before(text, i), cluster);
        assert(cluster.len() > 0);
        assert(byte_len(cluster) > 0);
    } else {
        lemma_starts_ascend(line, i, j - 1);
        lemma_starts_ascend(line, j - 1, j);
    }
}

/// Splitting a line at any index and appending the tail to the head gives
/// the line's text back.
pub proof fn lemma_split_append_inverse(line: Line, g: int)
    requires
        line.wf(),
    ensures
        text_before(line@, g) + text_from(line@, g) == line@,
{
    lemma_before_and_from(line@, g);
}

/// Inserting a character at index `g` and then deleting the cluster of index
/// `g` gives the line's text back, and with it the descriptors, provided
/// that the character stands alone: in `inserted`, the line after the
/// insertion, the cluster of index `g` is the new character, and the clusters
/// before it are those that stood before index `g`. (A combining mark put
/// after a letter joins that letter's cluster, and the deletion then removes
/// something else.) `restored` is the line after the deletion.
pub proof fn lemma_insert_delete_inverse(
    line: Line,
    c: char,
    g: int,
    inserted: Line,
    restored: Line,
)
    requires
        line.wf(),
        inserted.wf(),
        restored.wf(),
        0 <= g <= cluster_count(line@),
        inserted@ == with_char_inserted(line@, c, g),
        restored@ == with_grapheme_deleted(inserted@, g),
        g < cluster_count(inserted@),
        grapheme_clusters(inserted@)[g] == seq![c],
        text_before(inserted@, g) == text_before(line@, g),
    ensures
        restored@ == line@,
        restored.descriptors() == line.descriptors(),
        restored.descriptors().len() == line.descriptors().len(),
{
    let old_text = line@;
    let new_text = inserted@;
    let head = text_before(old_text, g);
    lemma_before_and_from(old_text, g);
    lemma_before_and_from(new_text, g);
    lemma_from_next(new_text, g);
    // new_text is head + [c] + tail in two ways; so the tails agree.
    let tail_old = text_from(old_text, g);
    let tail_new = text_from(new_text, g + 1);
    assert(new_text == head + seq![c] + tail_old);
    assert(new_text == head + (seq![c] + tail_new));
    assert(tail_old =~= tail_new) by {
        assert(tail_old.len() == tail_new.len()) by {
            assert((head + seq![c] + tail_old).len() == head.len() + 1 + tail_old.len());
            assert((head + (seq![c] + tail_new)).len() == head.len() + 1 + tail_new.len());
        }
        assert forall|i: int| 0 <= i < tail_old.len() implies tail_old[i] == tail_new[i] by {
            assert((head + seq![c] + tail_old)[head.len() + 1 + i] == tail_old[i]);
            assert((head + (seq![c] + tail_new))[head.len() + 1 + i] == tail_new[i]);
        }
    }
}

/// The width up to a cluster does not shrink as the index grows, neither
/// the sum itself nor what `width_until` returns for it.
pub proof fn lemma_width_monotonic(line: Line, g1: int, g2: int)
    requires
        g1 <= g2,
    ensures
        columns_until(line@, g1) <= columns_until(line@, g2),
        saturated(columns_until(line@, g1)) <= saturated(columns_until(line@, g2)),
{
    lemma_total_columns_monotonic(
        descriptors_of(line@),
        clamp_index(line@, g1),
        clamp_index(line@, g2),
    );
}

} // verus!
