//! Index types and small value types shared by every module.

use vstd::prelude::*;

pub mod location;
pub mod position;
pub mod size;

pub use location::Location;
pub use position::Position;
pub use size::Size;

verus! {

/// Index of a grapheme cluster within a line.
pub type GraphemeIdx = usize;

/// Index of a line within a buffer.
pub type LineIdx = usize;

/// Offset in bytes into a line's text.
pub type ByteIdx = usize;

/// A column on screen or in a line's rendered form.
pub type ColIdx = usize;

/// A row on screen or in the document.
pub type RowIdx = usize;

} // verus!
