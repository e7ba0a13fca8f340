//! One line of text and its grapheme clusters.

pub mod glyph;
pub mod graphemewidth;
pub mod laws;
pub mod segment;
pub mod strings;
pub mod textfragment;
pub mod unicode;

pub use graphemewidth::GraphemeWidth;
pub use textfragment::TextFragment;

use crate::prelude::{ByteIdx, ColIdx, GraphemeIdx};
use glyph::{classify, classify_spec};
use segment::{
    cluster_count, columns_until, descriptor_at, descriptors_of, is_segmentation, is_single_line,
    lemma_before_and_from, lemma_before_next, lemma_past_the_end,
    lemma_total_columns_bounds, lemma_total_columns_next, saturated, text_before, text_between,
    text_from, total_columns, with_char_inserted, with_grapheme_deleted,
};
use std::ops::Range;
use std::string::String;
use std::vec::Vec;
use strings::{byte_len, byte_length, lemma_cut_after_prefix, remove_range};
use textfragment::Descriptor;
use unicode::{cluster_texts, grapheme_clusters, grapheme_indices};
use vstd::prelude::*;
use vstd::string::StringExecFns;

verus! {

/// A line of text: the text itself and, derived from it, one fragment for
/// each of its grapheme clusters.
#[derive(Clone)]
pub struct Line {
    fragments: Vec<TextFragment>,
    string: String,
}

impl View for Line {
    type V = Seq<char>;

    /// The line's text.
    closed spec fn view(&self) -> Seq<char> {
        self.string@
    }
}

impl Line {
    /// What the line stores for each of its clusters, in order.
    pub closed spec fn descriptors(&self) -> Seq<Descriptor> {
        self.fragments@.map_values(|fragment: TextFragment| fragment@)
    }

    /// The stored descriptors are those of the line's text, and the clusters
    /// of that text cut it into non-empty pieces.
    pub open spec fn wf(&self) -> bool {
        &&& is_segmentation(grapheme_clusters(self@), self@)
        &&& self.descriptors() == descriptors_of(self@)
    }

    /// What well-formedness says of the stored fragment of index `g`.
    proof fn lemma_fragment(&self, g: int)
        requires
            self.wf(),
            0 <= g < self.fragments@.len(),
        ensures
            self.fragments@.len() == cluster_count(self@),
            self.fragments@[g].grapheme@ == grapheme_clusters(self@)[g],
            self.fragments@[g].rendered_width == classify_spec(grapheme_clusters(self@)[g]).1,
            self.fragments@[g].start == byte_len(text_before(self@, g)),
    {
        assert(self.descriptors().len() == self.fragments@.len());
        assert(self.descriptors()[g] == self.fragments@[g]@);
        assert(descriptors_of(self@)[g] == descriptor_at(self@, g));
    }

    /// A well-formed line stores one fragment for each cluster.
    proof fn lemma_fragment_count(&self)
        requires
            self.wf(),
        ensures
            self.fragments@.len() == cluster_count(self@),
            self.descriptors().len() == cluster_count(self@),
    {
        assert(self.descriptors().len() == self.fragments@.len());
    }

    /// A line that holds `line_str`, which has no line break inside it.
    pub fn from(line_str: &str) -> (line: Self)
        requires
            is_single_line(line_str@),
        ensures
            line.wf(),
            line@ == line_str@,
    {
        Self::build(line_str)
    }

    /// A line that holds `text`, whatever it contains.
    fn build(text: &str) -> (line: Self)
        ensures
            line.wf(),
            line@ == text@,
    {
        let fragments = Self::str_to_fragments(text);
        Line { fragments, string: text.to_owned() }
    }

    /// One fragment for each grapheme cluster of `line_str`.
    fn str_to_fragments(line_str: &str) -> (fragments: Vec<TextFragment>)
        ensures
            is_segmentation(grapheme_clusters(line_str@), line_str@),
            fragments@.map_values(|fragment: TextFragment| fragment@) == descriptors_of(
                line_str@,
            ),
    {
        let items = grapheme_indices(line_str);
        let fragments = Self::fragments_of(&items);
        proof {
            let text = line_str@;
            let clusters = grapheme_clusters(text);
            assert(cluster_texts(items@).len() == items@.len());
            assert forall|k: int| 0 <= k < clusters.len() implies (#[trigger] clusters[k]).len()
                > 0 by {
                assert(cluster_texts(items@)[k] == items@[k].1@);
            }
            assert forall|k: int| 0 <= k < fragments@.len() implies (#[trigger] fragments@[k])@
                == descriptor_at(text, k) by {
                assert(cluster_texts(items@)[k] == items@[k].1@);
                assert(clusters.take(k).flatten() == text_before(text, k));
            }
            assert(fragments@.map_values(|fragment: TextFragment| fragment@) =~= descriptors_of(
                text,
            ));
        }
        fragments
    }

    /// One fragment for each of `items`, which are clusters with the byte
    /// offsets at which they start: the fragment holds the cluster's text,
    /// the width at which it is drawn, and the offset.
    pub fn fragments_of(items: &Vec<(usize, &str)>) -> (fragments: Vec<TextFragment>)
        ensures
            fragments@.len() == items@.len(),
            forall|k: int|
                0 <= k < items@.len() ==> (#[trigger] fragments@[k])@ == (Descriptor {
                    grapheme: items@[k].1@,
                    rendered_width: classify_spec(items@[k].1@).1,
                    start: items@[k].0 as int,
                }),
    {
        let mut fragments: Vec<TextFragment> = Vec::new();
        let mut i: usize = 0;
        while i < items.len()
            invariant
                i <= items.len(),
                fragments@.len() == i,
                forall|k: int|
                    0 <= k < i ==> (#[trigger] fragments@[k])@ == (Descriptor {
                        grapheme: items@[k].1@,
                        rendered_width: classify_spec(items@[k].1@).1,
                        start: items@[k].0 as int,
                    }),
            decreases items.len() - i,
        {
            let item: (usize, &str) = items[i];
            let glyph = classify(item.1);
            fragments.push(
                TextFragment { grapheme: item.1.to_owned(), rendered_width: glyph.1, start: item.0 },
            );
            i += 1;
        }
        fragments
    }

    /// Derives the fragments anew from the text.
    fn rebuild_fragments(&mut self)
        ensures
            final(self).wf(),
            final(self)@ == old(self)@,
    {
        self.fragments = Self::str_to_fragments(self.string.as_str());
    }

    /// The glyph drawn in place of the cluster `for_str`, if it is not drawn
    /// as it is.
    pub fn get_replacement_character(for_str: &str) -> (replacement: Option<char>)
        ensures
            replacement == classify_spec(for_str@).0,
    {
        classify(for_str).0
    }

    /// The text of the clusters whose index lies in `range`, the range's ends
    /// clamped to the number of clusters.
    pub fn get_visible_graphemes(&self, range: Range<ColIdx>) -> (visible: String)
        requires
            self.wf(),
        ensures
            visible@ == text_between(self@, range.start as int, range.end as int),
    {
        let count: usize = self.fragments.len();
        let start: usize = if range.start < count {
            range.start
        } else {
            count
        };
        let end: usize = if range.end < count {
            range.end
        } else {
            count
        };
        let ghost clusters = grapheme_clusters(self@);
        proof {
            self.lemma_fragment_count();
        }
        let mut visible = String::new();
        if start >= end {
            return visible;
        }
        let mut i: usize = start;
        assert(clusters.subrange(start as int, start as int) =~= Seq::<Seq<char>>::empty());
        while i < end
            invariant
                self.wf(),
                clusters == grapheme_clusters(self@),
                count == self.fragments.len(),
                count == clusters.len(),
                start <= i <= end <= count,
                visible@ == clusters.subrange(start as int, i as int).flatten(),
            decreases end - i,
        {
            proof {
                self.lemma_fragment(i as int);
                assert(clusters.subrange(start as int, i + 1) =~= clusters.subrange(
                    start as int,
                    i as int,
                ).push(clusters[i as int]));
                clusters.subrange(start as int, i as int).lemma_flatten_push(clusters[i as int]);
            }
            visible.append(self.fragments[i].grapheme.as_str());
            i += 1;
        }
        visible
    }

    /// The number of grapheme clusters.
    pub fn grapheme_count(&self) -> (count: GraphemeIdx)
        requires
            self.wf(),
        ensures
            count == cluster_count(self@),
    {
        proof {
            self.lemma_fragment_count();
        }
        self.fragments.len()
    }

    /// The columns that the first `grapheme_idx` clusters take, or the whole
    /// line if it has no more than that. The sum stops at the largest
    /// `usize`.
    pub fn width_until(&self, grapheme_idx: GraphemeIdx) -> (columns: ColIdx)
        requires
            self.wf(),
        ensures
            columns == saturated(columns_until(self@, grapheme_idx as int)),
    {
        let count: usize = self.fragments.len();
        let end: usize = if grapheme_idx < count {
            grapheme_idx
        } else {
            count
        };
        let ghost descriptors = self.descriptors();
        proof {
            self.lemma_fragment_count();
        }
        let mut columns: usize = 0;
        let mut i: usize = 0;
        assert(descriptors.take(0) =~= Seq::<Descriptor>::empty());
        while i < end
            invariant
                descriptors == self.descriptors(),
                descriptors.len() == count,
                count == self.fragments.len(),
                i <= end <= count,
                columns == saturated(total_columns(descriptors.take(i as int))),
            decreases end - i,
        {
            proof {
                lemma_total_columns_next(descriptors, i as int);
                lemma_total_columns_bounds(descriptors.take(i as int));
                assert(descriptors[i as int] == self.fragments@[i as int]@);
            }
            columns = columns.saturating_add(usize::from(self.fragments[i].rendered_width));
            i += 1;
        }
        columns
    }

    /// The columns that the whole line takes: the sum of the widths of its
    /// descriptors, stopping at the largest `usize`.
    pub fn width(&self) -> (columns: ColIdx)
        requires
            self.wf(),
        ensures
            columns == saturated(total_columns(self.descriptors())),
            columns == saturated(columns_until(self@, cluster_count(self@) as int)),
    {
        proof {
            self.lemma_fragment_count();
            assert(self.descriptors().take(self.descriptors().len() as int) =~= self.descriptors());
        }
        self.width_until(self.grapheme_count())
    }

    /// Puts `character` before the cluster of index `at`, or at the end of
    /// the line if it has no such cluster.
    pub fn insert_char(&mut self, character: char, at: GraphemeIdx)
        requires
            old(self).wf(),
        ensures
            final(self).wf(),
            final(self)@ == with_char_inserted(old(self)@, character, at as int),
    {
        if at < self.fragments.len() {
            let start: usize = self.fragments[at].start;
            proof {
                self.lemma_fragment(at as int);
                lemma_before_and_from(self@, at as int);
                lemma_cut_after_prefix(text_before(self@, at as int), text_from(self@, at as int));
            }
            self.string.insert(start, character);
        } else {
            proof {
                self.lemma_fragment_count();
                lemma_past_the_end(self@, at as int);
                assert(self@.push(character) =~= self@ + seq![character] + Seq::<char>::empty());
            }
            self.string.push(character);
        }
        self.rebuild_fragments();
    }

    /// Puts `character` at the end of the line.
    pub fn append_char(&mut self, character: char)
        requires
            old(self).wf(),
        ensures
            final(self).wf(),
            final(self)@ == old(self)@.push(character),
    {
        proof {
            lemma_past_the_end(self@, cluster_count(self@) as int);
            assert(self@.push(character) =~= self@ + seq![character] + Seq::<char>::empty());
        }
        let count: usize = self.grapheme_count();
        self.insert_char(character, count);
    }

    /// Removes the cluster of index `at`, if there is one.
    pub fn delete(&mut self, at: GraphemeIdx)
        requires
            old(self).wf(),
        ensures
            final(self).wf(),
            final(self)@ == with_grapheme_deleted(old(self)@, at as int),
    {
        if at < self.fragments.len() {
            let start: usize = self.fragments[at].start;
            let length: usize = byte_length(self.fragments[at].grapheme.as_str());
            let total: usize = byte_length(self.string.as_str());
            proof {
                let text = self@;
                let g = at as int;
                self.lemma_fragment(g);
                lemma_before_and_from(text, g);
                lemma_before_and_from(text, g + 1);
                lemma_before_next(text, g);
                lemma_cut_after_prefix(text_before(text, g), text_from(text, g));
                lemma_cut_after_prefix(text_before(text, g), grapheme_clusters(text)[g]);
                lemma_cut_after_prefix(text_before(text, g + 1), text_from(text, g + 1));
            }
            let end: usize = start + length;
            remove_range(&mut self.string, start, end);
            self.rebuild_fragments();
        } else {
            proof {
                self.lemma_fragment_count();
                lemma_past_the_end(self@, at as int);
                lemma_past_the_end(self@, at + 1);
                assert(self@ + Seq::<char>::empty() =~= self@);
            }
        }
    }

    /// Removes the last cluster, if there is one.
    pub fn delete_last(&mut self)
        requires
            old(self).wf(),
        ensures
            final(self).wf(),
            final(self)@ == with_grapheme_deleted(old(self)@, cluster_count(old(self)@) - 1),
    {
        let count: usize = self.grapheme_count();
        self.delete(count.saturating_sub(1));
    }

    /// Adds the text of `other` at the end of this line.
    pub fn append(&mut self, other: &Self)
        requires
            old(self).wf(),
        ensures
            final(self).wf(),
            final(self)@ == old(self)@ + other@,
    {
        self.string.append(other.string.as_str());
        self.rebuild_fragments();
    }

    /// Cuts the line before the cluster of index `at` and returns what was
    /// cut off. Without such a cluster the line stays whole and the returned
    /// line is empty.
    pub fn split(&mut self, at: GraphemeIdx) -> (tail: Self)
        requires
            old(self).wf(),
        ensures
            final(self).wf(),
            tail.wf(),
            final(self)@ == text_before(old(self)@, at as int),
            tail@ == text_from(old(self)@, at as int),
    {
        if at < self.fragments.len() {
            let start: usize = self.fragments[at].start;
            proof {
                self.lemma_fragment(at as int);
                lemma_before_and_from(self@, at as int);
                lemma_cut_after_prefix(text_before(self@, at as int), text_from(self@, at as int));
            }
            let remainder: String = self.string.split_off(start);
            self.rebuild_fragments();
            Self::build(remainder.as_str())
        } else {
            proof {
                self.lemma_fragment_count();
                lemma_past_the_end(self@, at as int);
            }
            Self::default()
        }
    }

    /// The index of the first cluster that starts at or after the byte
    /// offset `byte_idx`; none if `byte_idx` lies past the end of the text
    /// or every cluster starts before it.
    pub fn byte_idx_to_grapheme_idx(&self, byte_idx: ByteIdx) -> (grapheme_idx: Option<
        GraphemeIdx,
    >)
        requires
            self.wf(),
        ensures
            match grapheme_idx {
                Some(g) => {
                    &&& byte_idx <= byte_len(self@)
                    &&& g < cluster_count(self@)
                    &&& byte_len(text_before(self@, g as int)) >= byte_idx
                    &&& forall|k: int|
                        0 <= k < g ==> byte_len(#[trigger] text_before(self@, k)) < byte_idx
                },
                None => {
                    ||| byte_idx > byte_len(self@)
                    ||| forall|k: int|
                        0 <= k < cluster_count(self@) ==> byte_len(
                            #[trigger] text_before(self@, k),
                        ) < byte_idx
                },
            },
    {
        if byte_idx > byte_length(self.string.as_str()) {
            return None;
        }
        proof {
            self.lemma_fragment_count();
        }
        let mut i: usize = 0;
        while i < self.fragments.len()
            invariant
                self.wf(),
                self.fragments@.len() == cluster_count(self@),
                i <= self.fragments.len(),
                byte_idx <= byte_len(self@),
                forall|k: int| 0 <= k < i ==> byte_len(#[trigger] text_before(self@, k)) < byte_idx,
            decreases self.fragments.len() - i,
        {
            proof {
                self.lemma_fragment(i as int);
            }
            if self.fragments[i].start >= byte_idx {
                return Some(i);
            }
            i += 1;
        }
        None
    }

    /// The byte offset at which the cluster of index `grapheme_idx` starts;
    /// zero if there is no such cluster.
    pub fn grapheme_idx_to_byte_idx(&self, grapheme_idx: GraphemeIdx) -> (byte_idx: ByteIdx)
        requires
            self.wf(),
        ensures
            byte_idx == if grapheme_idx < cluster_count(self@) {
                byte_len(text_before(self@, grapheme_idx as int))
            } else {
                0
            },
    {
        if grapheme_idx == 0 || self.grapheme_count() == 0 {
            proof {
                assert(text_before(self@, 0) =~= Seq::<char>::empty());
            }
            return 0;
        }
        proof {
            self.lemma_fragment_count();
        }
        if grapheme_idx < self.fragments.len() {
            proof {
                self.lemma_fragment(grapheme_idx as int);
            }
            self.fragments[grapheme_idx].start
        } else {
            0
        }
    }

    /// The line's text, as a new `String`.
    pub fn to_string(&self) -> (text: String)
        ensures
            text@ == self@,
    {
        self.string.clone()
    }

    /// The line's text.
    pub fn as_str(&self) -> (text: &str)
        ensures
            text@ == self@,
    {
        self.string.as_str()
    }
}

impl Default for Line {
    /// The empty line.
    fn default() -> (line: Self)
        ensures
            line.wf(),
            line@ == Seq::<char>::empty(),
    {
        proof {
            reveal_strlit("");
        }
        let line = Line::build("");
        assert(line@ =~= Seq::<char>::empty());
        line
    }
}

} // verus!
