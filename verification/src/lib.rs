//! A text engine for a terminal editor: grapheme-aware lines, a buffer of
//! lines, and the mapping from text locations to screen positions.

pub mod editor;
pub mod prelude;
