//! A place in the text: a line and a grapheme within it.

use super::{GraphemeIdx, LineIdx};
use vstd::prelude::*;

verus! {

#[derive(Copy, Clone, Debug, PartialEq, Eq, Structural)]
pub struct Location {
    pub grapheme_idx: GraphemeIdx,
    pub line_idx: LineIdx,
}

impl Default for Location {
    fn default() -> (location: Self)
        ensures
            location.grapheme_idx == 0,
            location.line_idx == 0,
    {
        Location { grapheme_idx: 0, line_idx: 0 }
    }
}

} // verus!
