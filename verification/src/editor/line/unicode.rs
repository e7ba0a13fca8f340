//! The Unicode facts this crate takes from elsewhere: where grapheme clusters
//! break, how many columns a piece of text takes, and which characters are
//! whitespace or control codes. Nothing in this file is proved; every
//! contract here is taken on trust.

use std::vec::Vec;
use unicode_segmentation::UnicodeSegmentation;
use unicode_width::UnicodeWidthStr;
use vstd::prelude::*;
use vstd::utf8::encode_utf8;

verus! {

/// The extended grapheme clusters of `text`, in order.
pub uninterp spec fn grapheme_clusters(text: Seq<char>) -> Seq<Seq<char>>;

/// The number of terminal columns that `text` is measured to take.
pub uninterp spec fn display_columns(text: Seq<char>) -> usize;

/// Whether `c` has the Unicode property `White_Space`: the tab and the
/// line breaks from U+0009 to U+000D, the space, U+0085, the no-break space,
/// U+1680, the spaces from U+2000 to U+200A, the line and paragraph
/// separators, U+202F, U+205F and the ideographic space.
pub open spec fn white_space(c: char) -> bool {
    let code = c as u32;
    ||| 0x0009 <= code <= 0x000D
    ||| code == 0x0020
    ||| code == 0x0085
    ||| code == 0x00A0
    ||| code == 0x1680
    ||| 0x2000 <= code <= 0x200A
    ||| code == 0x2028
    ||| code == 0x2029
    ||| code == 0x202F
    ||| code == 0x205F
    ||| code == 0x3000
}

/// Whether `c` is a control code (general category `Cc`): U+0000 to U+001F,
/// or U+007F to U+009F.
pub open spec fn control_code(c: char) -> bool {
    let code = c as u32;
    code <= 0x001F || 0x007F <= code <= 0x009F
}

/// The text of each item of a list of clusters with their offsets.
pub open spec fn cluster_texts(items: Seq<(usize, &str)>) -> Seq<Seq<char>> {
    items.map_values(|item: (usize, &str)| item.1@)
}

/// `UnicodeSegmentation::grapheme_indices` with extended clusters, collected.
///
/// The iterator walks `text` from its start to its end and hands out
/// consecutive non-empty slices, each with the byte offset at which it
/// starts. So the texts of the items are the clusters of `text`, none is
/// empty, joined they give `text` back, and each offset is the length in
/// bytes of the clusters before it.
#[verifier::external_body]
pub(crate) fn grapheme_indices(text: &str) -> (items: Vec<(usize, &str)>)
    ensures
        cluster_texts(items@) == grapheme_clusters(text@),
        cluster_texts(items@).flatten() == text@,
        forall|i: int| 0 <= i < items@.len() ==> (#[trigger] items@[i]).1@.len() > 0,
        forall|i: int|
            0 <= i < items@.len() ==> (#[trigger] items@[i]).0 == encode_utf8(
                cluster_texts(items@).take(i).flatten(),
            ).len(),
{
    text.grapheme_indices(true).collect()
}

/// `UnicodeWidthStr::width`: the columns that `text` takes, by the rules of
/// the Unicode width tables. The value is a function of the text alone.
#[verifier::external_body]
pub(crate) fn display_width(text: &str) -> (columns: usize)
    ensures
        columns == display_columns(text@),
{
    text.width()
}

/// `char::is_whitespace`: true for the characters with the property
/// `White_Space`, and for no others.
pub assume_specification[ char::is_whitespace ](c: char) -> (b: bool)
    ensures
        b == white_space(c),
;

/// `char::is_control`: true for the control codes, and for no others.
pub assume_specification[ char::is_control ](c: char) -> (b: bool)
    ensures
        b == control_code(c),
;

} // verus!
