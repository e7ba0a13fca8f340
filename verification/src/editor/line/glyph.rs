//! What a grapheme cluster looks like on screen: how wide it is drawn and
//! which glyph, if any, stands in for it.

use super::graphemewidth::GraphemeWidth;
use super::unicode::{control_code, display_columns, display_width, white_space};
use vstd::prelude::*;
use vstd::string::StrSliceExecFns;

verus! {

/// Drawn in place of whitespace that is neither a space nor a tab.
pub const BLANK_MARK: char = '\u{2423}';

/// Drawn in place of a control character.
pub const CONTROL_MARK: char = '\u{25AF}';

/// Drawn in place of any other cluster that takes no column.
pub const UNPRINTABLE_MARK: char = '\u{00B7}';

/// Whether every character of `text` is whitespace.
pub open spec fn is_blank(text: Seq<char>) -> bool {
    forall|i: int| 0 <= i < text.len() ==> white_space(#[trigger] text[i])
}

/// Whether `text` is one control character and nothing else.
pub open spec fn is_lone_control(text: Seq<char>) -> bool {
    text.len() == 1 && control_code(text[0])
}

/// The substitute glyph and the rendered width of a cluster, given its text,
/// the columns it was measured to take, whether it is all whitespace and
/// whether it is a single control character.
///
/// A space is drawn as it is, a tab as a space. Other whitespace that takes
/// room gets the blank mark. A cluster that takes no room gets the control
/// mark if it is a single control character, else the mark for unprintable
/// text. Each of these is one column wide. Any other cluster is drawn as it
/// is, two columns wide if it measures two or more, else one.
pub open spec fn classify_measured_spec(
    text: Seq<char>,
    columns: int,
    blank: bool,
    lone_control: bool,
) -> (Option<char>, GraphemeWidth) {
    if text == seq![' '] {
        (None, GraphemeWidth::Half)
    } else if text == seq!['\t'] {
        (Some(' '), GraphemeWidth::Half)
    } else if columns > 0 && blank {
        (Some(BLANK_MARK), GraphemeWidth::Half)
    } else if columns == 0 {
        if lone_control {
            (Some(CONTROL_MARK), GraphemeWidth::Half)
        } else {
            (Some(UNPRINTABLE_MARK), GraphemeWidth::Half)
        }
    } else if columns <= 1 {
        (None, GraphemeWidth::Half)
    } else {
        (None, GraphemeWidth::Full)
    }
}

/// The substitute glyph and the rendered width of the cluster `text`.
pub open spec fn classify_spec(text: Seq<char>) -> (Option<char>, GraphemeWidth) {
    classify_measured_spec(
        text,
        display_columns(text) as int,
        is_blank(text),
        is_lone_control(text),
    )
}

/// Whether `text` is exactly the one character `c`.
fn is_single(text: &str, c: char) -> (b: bool)
    ensures
        b == (text@ == seq![c]),
{
    if text.unicode_len() == 1 {
        let first: char = text.get_char(0);
        assert(first == c ==> text@ =~= seq![c]);
        first == c
    } else {
        false
    }
}

/// Decides glyph and width from what was measured of a cluster.
pub fn classify_measured(text: &str, columns: usize, blank: bool, lone_control: bool) -> (glyph: (
    Option<char>,
    GraphemeWidth,
))
    ensures
        glyph == classify_measured_spec(text@, columns as int, blank, lone_control),
{
    if is_single(text, ' ') {
        (None, GraphemeWidth::Half)
    } else if is_single(text, '\t') {
        (Some(' '), GraphemeWidth::Half)
    } else if columns > 0 && blank {
        (Some(BLANK_MARK), GraphemeWidth::Half)
    } else if columns == 0 {
        if lone_control {
            (Some(CONTROL_MARK), GraphemeWidth::Half)
        } else {
            (Some(UNPRINTABLE_MARK), GraphemeWidth::Half)
        }
    } else if columns <= 1 {
        (None, GraphemeWidth::Half)
    } else {
        (None, GraphemeWidth::Full)
    }
}

/// Whether `text` consists of whitespace only; true of the empty text.
pub fn is_blank_text(text: &str) -> (blank: bool)
    ensures
        blank == is_blank(text@),
{
    let len: usize = text.unicode_len();
    let mut i: usize = 0;
    while i < len
        invariant
            i <= len,
            len == text@.len(),
            forall|j: int| 0 <= j < i ==> white_space(#[trigger] text@[j]),
        decreases len - i,
    {
        let c: char = text.get_char(i);
        if !c.is_whitespace() {
            return false;
        }
        i += 1;
    }
    true
}

/// Whether `text` is a single control character.
pub fn is_lone_control_text(text: &str) -> (lone: bool)
    ensures
        lone == is_lone_control(text@),
{
    if text.unicode_len() == 1 {
        let c: char = text.get_char(0);
        c.is_control()
    } else {
        false
    }
}

/// Measures the cluster `text` and decides its glyph and width.
pub fn classify(text: &str) -> (glyph: (Option<char>, GraphemeWidth))
    ensures
        glyph == classify_spec(text@),
{
    let columns: usize = display_width(text);
    let blank: bool = is_blank_text(text);
    let lone_control: bool = is_lone_control_text(text);
    classify_measured(text, columns, blank, lone_control)
}

} // verus!
