//! The text area as a value, and what each command makes of it.

use super::buffer::{
    joins_lines, removes_grapheme, with_char_at, with_deletion_at, with_newline_at,
};
use crate::editor::command::{Edit, Move};
use crate::editor::line::segment::{
    clamp_index, cluster_count, columns_until, descriptors_of, lemma_total_columns_bounds,
    saturated, text_between,
};
use crate::prelude::position::saturating_diff;
use crate::prelude::{Location, Position, Size};
use vstd::prelude::*;

verus! {

/// All that a text area holds.
pub struct ViewState {
    /// The text of each line of the document.
    pub texts: Seq<Seq<char>>,
    /// Whether the document has unsaved changes.
    pub dirty: bool,
    /// The path of the document's file, if it has one.
    pub path: Option<Seq<char>>,
    /// Where the cursor stands in the text.
    pub location: Location,
    /// The document cell shown in the top left corner.
    pub scroll_offset: Position,
    /// The extent of the area.
    pub size: Size,
    /// Whether the area is to be drawn again.
    pub needs_redraw: bool,
}

/// `a + b`, or the largest `usize` where the sum is larger.
pub open spec fn saturating_sum(a: int, b: int) -> int {
    if a + b > usize::MAX {
        usize::MAX as int
    } else {
        a + b
    }
}

/// The smaller of two numbers.
pub open spec fn smaller(a: int, b: int) -> int {
    if a <= b {
        a
    } else {
        b
    }
}

/// The number of clusters of the line of index `line`; zero without such a
/// line.
pub open spec fn count_at(texts: Seq<Seq<char>>, line: int) -> int {
    if 0 <= line < texts.len() {
        cluster_count(texts[line]) as int
    } else {
        0
    }
}

/// The column at which the cluster that `at` names starts, as
/// `Line::width_until` sums it; zero where `at` names no line.
pub open spec fn column_of(texts: Seq<Seq<char>>, at: Location) -> int {
    if at.line_idx < texts.len() {
        saturated(columns_until(texts[at.line_idx as int], at.grapheme_idx as int))
    } else {
        0
    }
}

/// The place on line `line` nearest to the cluster index `grapheme`.
pub open spec fn snapped(texts: Seq<Seq<char>>, line: int, grapheme: int) -> Location {
    Location {
        line_idx: line as usize,
        grapheme_idx: smaller(grapheme, count_at(texts, line)) as usize,
    }
}

/// `step` lines up, not above the first line.
pub open spec fn moved_up(texts: Seq<Seq<char>>, at: Location, step: int) -> Location {
    snapped(texts, saturating_diff(at.line_idx as int, step), at.grapheme_idx as int)
}

/// `step` lines down, not below the place after the last line.
pub open spec fn moved_down(texts: Seq<Seq<char>>, at: Location, step: int) -> Location {
    snapped(texts, smaller(at.line_idx + step, texts.len() as int), at.grapheme_idx as int)
}

/// One cluster to the right; from the end of a line to the start of the
/// next. At the end of the last line, and anywhere below it, nothing moves.
pub open spec fn moved_right(texts: Seq<Seq<char>>, at: Location) -> Location {
    if at.grapheme_idx < count_at(texts, at.line_idx as int) {
        Location { grapheme_idx: (at.grapheme_idx + 1) as usize, line_idx: at.line_idx }
    } else if at.line_idx + 1 < texts.len() {
        Location { grapheme_idx: 0, line_idx: (at.line_idx + 1) as usize }
    } else {
        at
    }
}

/// One cluster to the left; from the start of a line to the end of the one
/// before. At the start of the first line nothing moves.
pub open spec fn moved_left(texts: Seq<Seq<char>>, at: Location) -> Location {
    if at.grapheme_idx > 0 {
        Location { grapheme_idx: (at.grapheme_idx - 1) as usize, line_idx: at.line_idx }
    } else if at.line_idx > 0 {
        Location {
            grapheme_idx: count_at(texts, at.line_idx - 1) as usize,
            line_idx: (at.line_idx - 1) as usize,
        }
    } else {
        at
    }
}

/// Where `command` takes the cursor from `at`, in an area `height` rows high.
pub open spec fn moved(texts: Seq<Seq<char>>, at: Location, height: usize, command: Move) -> Location {
    match command {
        Move::Up => moved_up(texts, at, 1),
        Move::Down => moved_down(texts, at, 1),
        Move::Left => moved_left(texts, at),
        Move::Right => moved_right(texts, at),
        Move::PageUp => moved_up(texts, at, saturating_diff(height as int, 1)),
        Move::PageDown => moved_down(texts, at, saturating_diff(height as int, 1)),
        Move::StartOfLine => Location { grapheme_idx: 0, line_idx: at.line_idx },
        Move::EndOfLine => Location {
            grapheme_idx: count_at(texts, at.line_idx as int) as usize,
            line_idx: at.line_idx,
        },
    }
}

/// The offset on one axis after scrolling to show `to`: `to` itself if it
/// lay before the offset; the least offset that shows it if it lay at or
/// past the far edge; else the offset as it was.
pub open spec fn scroll_axis(offset: int, extent: int, to: int) -> int {
    if to < offset {
        to
    } else if to >= saturating_sum(offset, extent) {
        saturating_sum(saturating_diff(to, extent), 1)
    } else {
        offset
    }
}

/// Whether scrolling to show `to` moves the offset on one axis: `to` lies
/// before the offset, or at or past the far edge.
pub open spec fn scrolls(offset: int, extent: int, to: int) -> bool {
    to < offset || to >= saturating_sum(offset, extent)
}

/// The area after scrolling so that the cursor shows. It is to be drawn
/// again if the offset was moved.
pub open spec fn scrolled(state: ViewState) -> ViewState {
    let row = scroll_axis(
        state.scroll_offset.row as int,
        state.size.height as int,
        state.location.line_idx as int,
    );
    let col = scroll_axis(
        state.scroll_offset.col as int,
        state.size.width as int,
        column_of(state.texts, state.location),
    );
    ViewState {
        scroll_offset: Position { row: row as usize, col: col as usize },
        needs_redraw: state.needs_redraw || scrolls(
            state.scroll_offset.row as int,
            state.size.height as int,
            state.location.line_idx as int,
        ) || scrolls(
            state.scroll_offset.col as int,
            state.size.width as int,
            column_of(state.texts, state.location),
        ),
        ..state
    }
}

/// The area after a movement of the cursor.
pub open spec fn after_move(state: ViewState, command: Move) -> ViewState {
    scrolled(
        ViewState {
            location: moved(state.texts, state.location, state.size.height, command),
            ..state
        },
    )
}

/// The area after a deletion at the cursor.
pub open spec fn after_delete(state: ViewState) -> ViewState {
    ViewState {
        texts: with_deletion_at(state.texts, state.location),
        dirty: state.dirty || joins_lines(state.texts, state.location) || removes_grapheme(
            state.texts,
            state.location,
        ),
        needs_redraw: true,
        ..state
    }
}

/// The area after `c` was put in at the cursor. The cursor moves right if
/// its line has gained a cluster.
pub open spec fn after_insert(state: ViewState, c: char) -> ViewState {
    let line = state.location.line_idx as int;
    let changed = ViewState {
        texts: with_char_at(state.texts, c, state.location),
        dirty: state.dirty || state.location.line_idx <= state.texts.len(),
        ..state
    };
    let settled = if count_at(changed.texts, line) > count_at(state.texts, line) {
        after_move(changed, Move::Right)
    } else {
        changed
    };
    ViewState { needs_redraw: true, ..settled }
}

/// The area after the line was broken at the cursor.
pub open spec fn after_newline(state: ViewState) -> ViewState {
    let changed = ViewState {
        texts: with_newline_at(state.texts, state.location),
        dirty: state.dirty || state.location.line_idx <= state.texts.len(),
        ..state
    };
    ViewState { needs_redraw: true, ..after_move(changed, Move::Right) }
}

/// The area after a deletion before the cursor: nothing at the very start of
/// the text, else one step left and a deletion there.
pub open spec fn after_delete_backward(state: ViewState) -> ViewState {
    if state.location.line_idx != 0 || state.location.grapheme_idx != 0 {
        after_delete(after_move(state, Move::Left))
    } else {
        state
    }
}

/// The area after a change to the text.
pub open spec fn after_edit(state: ViewState, command: Edit) -> ViewState {
    match command {
        Edit::Insert(c) => after_insert(state, c),
        Edit::Delete => after_delete(state),
        Edit::DeleteBackward => after_delete_backward(state),
        Edit::InsertNewline => after_newline(state),
    }
}

/// Where the cursor stands in the document, in rows and columns.
pub open spec fn cursor_row(state: ViewState) -> int {
    state.location.line_idx as int
}

/// The column of the document in which the cursor stands.
pub open spec fn cursor_col(state: ViewState) -> int {
    column_of(state.texts, state.location)
}

/// Whether the cursor lies within the part of the document that shows.
pub open spec fn cursor_in_view(state: ViewState) -> bool {
    &&& state.scroll_offset.row <= cursor_row(state) < state.scroll_offset.row
        + state.size.height
    &&& state.scroll_offset.col <= cursor_col(state) < state.scroll_offset.col
        + state.size.width
}

/// What row `row` of the area shows: the clusters of its line that fall
/// between the left and the right edge, or `_` below the last line.
pub open spec fn row_text(state: ViewState, row: int) -> Seq<char> {
    let line = saturating_sum(row, state.scroll_offset.row as int);
    if line < state.texts.len() {
        text_between(
            state.texts[line],
            state.scroll_offset.col as int,
            saturating_sum(state.scroll_offset.col as int, state.size.width as int),
        )
    } else {
        seq!['_']
    }
}

/// Half of `extent`, rounded up.
pub open spec fn half_up(extent: int) -> int {
    extent / 2 + extent % 2
}

/// The area with the cursor brought to its middle, as far as the start of
/// the document allows.
pub open spec fn centered(state: ViewState) -> ViewState {
    ViewState {
        scroll_offset: Position {
            row: saturating_diff(cursor_row(state), half_up(state.size.height as int)) as usize,
            col: saturating_diff(cursor_col(state), half_up(state.size.width as int)) as usize,
        },
        needs_redraw: true,
        ..state
    }
}

/// A column is never negative, and a `usize` can hold it.
pub proof fn lemma_column_of_bounds(texts: Seq<Seq<char>>, at: Location)
    ensures
        0 <= column_of(texts, at) <= usize::MAX,
{
    if at.line_idx < texts.len() {
        let text = texts[at.line_idx as int];
        lemma_total_columns_bounds(
            descriptors_of(text).take(clamp_index(text, at.grapheme_idx as int)),
        );
    }
}

/// Scrolling brings the cursor into an area that has room: afterwards its
/// row lies between the top row shown and the last, and likewise its column.
pub proof fn lemma_scrolled_shows_cursor(state: ViewState)
    requires
        state.size.height > 0,
        state.size.width > 0,
    ensures
        cursor_in_view(scrolled(state)),
{
    lemma_column_of_bounds(state.texts, state.location);
}

} // verus!
