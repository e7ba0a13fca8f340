//! The extent of a terminal or of one of its areas.

use vstd::prelude::*;

verus! {

#[derive(Copy, Clone, Debug, PartialEq, Eq, Structural)]
pub struct Size {
    pub height: usize,
    pub width: usize,
}

impl Default for Size {
    fn default() -> (size: Self)
        ensures
            size.height == 0,
            size.width == 0,
    {
        Size { height: 0, width: 0 }
    }
}

} // verus!
