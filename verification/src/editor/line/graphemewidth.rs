//! How many columns a grapheme cluster takes on screen.

use vstd::prelude::*;

verus! {

/// The rendered width of a grapheme cluster: one column or two.
#[derive(Copy, Clone, Debug, PartialEq, Eq, Structural)]
pub enum GraphemeWidth {
    Half,
    Full,
}

impl GraphemeWidth {
    /// The number of columns: 1 for `Half`, 2 for `Full`.
    pub open spec fn columns(self) -> int {
        match self {
            GraphemeWidth::Half => 1,
            GraphemeWidth::Full => 2,
        }
    }
}

impl vstd::std_specs::convert::FromSpecImpl<GraphemeWidth> for usize {
    open spec fn obeys_from_spec() -> bool {
        true
    }

    open spec fn from_spec(val: GraphemeWidth) -> usize {
        match val {
            GraphemeWidth::Half => 1,
            GraphemeWidth::Full => 2,
        }
    }
}

impl From<GraphemeWidth> for usize {
    fn from(val: GraphemeWidth) -> (columns: Self) {
        match val {
            GraphemeWidth::Half => 1,
            GraphemeWidth::Full => 2,
        }
    }
}

} // verus!
