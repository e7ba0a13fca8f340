//! A cell on screen, or a cell of the document measured in columns.

use super::{ColIdx, RowIdx};
use vstd::prelude::*;

verus! {

#[derive(Copy, Clone, Debug, PartialEq, Eq, Structural)]
pub struct Position {
    pub col: ColIdx,
    pub row: RowIdx,
}

/// `a - b`, or zero where `b` is the larger.
pub open spec fn saturating_diff(a: int, b: int) -> int {
    if a >= b {
        a - b
    } else {
        0
    }
}

impl Position {
    /// The componentwise difference, stopping at zero.
    pub fn saturating_sub(self, other: Self) -> (difference: Self)
        ensures
            difference.row == saturating_diff(self.row as int, other.row as int),
            difference.col == saturating_diff(self.col as int, other.col as int),
    {
        Position {
            row: self.row.saturating_sub(other.row),
            col: self.col.saturating_sub(other.col),
        }
    }
}

impl Default for Position {
    fn default() -> (position: Self)
        ensures
            position.col == 0,
            position.row == 0,
    {
        Position { col: 0, row: 0 }
    }
}

} // verus!
