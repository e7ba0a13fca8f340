//! One grapheme cluster of a line, with what is needed to draw and find it.

use super::graphemewidth::GraphemeWidth;
use crate::prelude::ByteIdx;
use std::string::String;
use vstd::prelude::*;

verus! {

/// A grapheme cluster as a line stores it.
#[derive(Clone, Debug)]
pub struct TextFragment {
    /// The cluster's own text.
    pub grapheme: String,
    /// The width at which it is drawn.
    pub rendered_width: GraphemeWidth,
    /// The byte offset in the line's text at which it starts.
    pub start: ByteIdx,
}

/// The mathematical content of a `TextFragment`.
pub struct Descriptor {
    pub grapheme: Seq<char>,
    pub rendered_width: GraphemeWidth,
    pub start: int,
}

impl View for TextFragment {
    type V = Descriptor;

    open spec fn view(&self) -> Descriptor {
        Descriptor {
            grapheme: self.grapheme@,
            rendered_width: self.rendered_width,
            start: self.start as int,
        }
    }
}

} // verus!
