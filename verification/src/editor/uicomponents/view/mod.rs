//! The text area: the buffer it shows and where the cursor stands in it.

pub mod buffer;
pub mod fileinfo;
pub mod state;
pub mod textlines;

pub use buffer::{Buffer, SaveError};
pub use fileinfo::FileInfo;
pub use state::ViewState;

use crate::editor::command::{Edit, Move};
use crate::editor::documentstatus::DocumentStatus;
use crate::prelude::position::saturating_diff;
use crate::prelude::{ColIdx, Location, Position, RowIdx, Size};
use state::{
    after_delete, after_delete_backward, after_edit, after_insert, after_move, after_newline,
    centered, column_of, count_at, cursor_in_view, lemma_column_of_bounds, moved_down, moved_left,
    moved_right, moved_up, row_text, scroll_axis, scrolled, scrolls,
};
use std::string::String;
use std::vec::Vec;
use textlines::split_lines;
use vstd::prelude::*;
use vstd::string::StringExecFns;
use vstd::view::View as _;

verus! {

/// The text area of the editor.
pub struct View {
    buffer: Buffer,
    needs_redraw: bool,
    size: Size,
    text_location: Location,
    scroll_offset: Position,
}

impl vstd::view::View for View {
    type V = ViewState;

    open spec fn view(&self) -> ViewState {
        ViewState {
            texts: self.buffer()@,
            dirty: self.buffer().dirty(),
            path: self.buffer().path(),
            location: self.location(),
            scroll_offset: self.offset(),
            size: self.extent(),
            needs_redraw: self.redraw_pending(),
        }
    }
}

impl View {
    /// The document shown.
    pub closed spec fn buffer(&self) -> Buffer {
        self.buffer
    }

    /// Where the cursor stands in the text.
    pub closed spec fn location(&self) -> Location {
        self.text_location
    }

    /// The document cell shown in the top left corner.
    pub closed spec fn offset(&self) -> Position {
        self.scroll_offset
    }

    /// The extent of the area.
    pub closed spec fn extent(&self) -> Size {
        self.size
    }

    /// Whether the area is to be drawn again.
    pub closed spec fn redraw_pending(&self) -> bool {
        self.needs_redraw
    }

    /// The document is well-formed.
    pub open spec fn wf(&self) -> bool {
        self.buffer().wf()
    }

    /// What the status bar tells of the document: the number of lines, the
    /// cursor's line, whether there are unsaved changes, and the file's name
    /// as `FileInfo::to_string` gives it.
    pub fn get_status(&self) -> (status: DocumentStatus)
        ensures
            status@.total_lines == self@.texts.len(),
            status@.current_line_idx == self@.location.line_idx,
            status@.is_modified == self@.dirty,
            self@.path is None ==> status@.file_name == "[default]"@,
    {
        DocumentStatus {
            total_lines: self.buffer.height(),
            current_line_idx: self.text_location.line_idx,
            file_name: self.buffer.get_file_info().to_string(),
            is_modified: self.buffer.is_dirty(),
        }
    }

    /// Whether the document belongs to a file.
    pub fn is_file_loaded(&self) -> (loaded: bool)
        ensures
            loaded == self@.path is Some,
    {
        self.buffer.is_file_loaded()
    }

    /// The document shown.
    pub fn get_buffer(&self) -> (buffer: &Buffer)
        ensures
            *buffer == self.buffer(),
    {
        &self.buffer
    }

    /// Shows the file at `file_name`, whose text is `contents`, in place of
    /// the document shown so far. Cursor and scroll offset stay.
    pub fn load(&mut self, file_name: &str, contents: &str)
        ensures
            final(self).wf(),
            final(self)@ == (ViewState {
                texts: split_lines(contents@),
                dirty: false,
                path: Some(file_name@),
                needs_redraw: true,
                ..old(self)@
            }),
    {
        self.buffer = Buffer::load(file_name, contents);
        self.set_needs_redraw(true);
    }

    /// Records the outcome of writing the document to its own file; see
    /// `Buffer::save`. After a save the area is to be drawn again.
    pub fn save(&mut self, written: bool) -> (outcome: Result<(), SaveError>)
        ensures
            final(self).buffer().lines() == old(self).buffer().lines(),
            outcome == if old(self)@.path is None {
                Err::<(), SaveError>(SaveError::NoPath)
            } else if written {
                Ok::<(), SaveError>(())
            } else {
                Err::<(), SaveError>(SaveError::WriteFailed)
            },
            final(self)@ == if outcome is Ok {
                ViewState { dirty: false, needs_redraw: true, ..old(self)@ }
            } else {
                old(self)@
            },
    {
        let outcome = self.buffer.save(written);
        if outcome.is_ok() {
            self.set_needs_redraw(true);
        }
        outcome
    }

    /// Records the outcome of writing the document to the file at
    /// `file_name`; see `Buffer::save_as`. After a save the area is to be
    /// drawn again.
    pub fn save_as(&mut self, file_name: &str, written: bool) -> (outcome: Result<(), SaveError>)
        ensures
            final(self).buffer().lines() == old(self).buffer().lines(),
            outcome == if written {
                Ok::<(), SaveError>(())
            } else {
                Err::<(), SaveError>(SaveError::WriteFailed)
            },
            final(self)@ == if written {
                ViewState {
                    dirty: false,
                    path: Some(file_name@),
                    needs_redraw: true,
                    ..old(self)@
                }
            } else {
                old(self)@
            },
    {
        let outcome = self.buffer.save_as(file_name, written);
        if outcome.is_ok() {
            self.set_needs_redraw(true);
        }
        outcome
    }

    /// Changes the text at the cursor.
    pub fn handle_edit_command(&mut self, command: Edit)
        requires
            old(self).wf(),
        ensures
            final(self).wf(),
            final(self)@ == after_edit(old(self)@, command),
    {
        match command {
            Edit::Insert(character) => self.insert_char(character),
            Edit::Delete => self.delete(),
            Edit::DeleteBackward => self.delete_backward(),
            Edit::InsertNewline => self.insert_newline(),
        }
    }

    /// Moves the cursor and scrolls so that it shows. Where the area has
    /// room, the cursor then lies within the part of the document that
    /// shows.
    pub fn handle_move_command(&mut self, command: Move)
        requires
            old(self).wf(),
        ensures
            final(self).wf(),
            final(self).buffer() == old(self).buffer(),
            final(self)@ == after_move(old(self)@, command),
            old(self)@.size.height > 0 && old(self)@.size.width > 0 ==> cursor_in_view(
                final(self)@,
            ),
    {
        let height: usize = self.size.height;
        match command {
            Move::Up => self.move_up(1),
            Move::Down => self.move_down(1),
            Move::Left => self.move_left(),
            Move::Right => self.move_right(),
            Move::PageUp => self.move_up(height.saturating_sub(1)),
            Move::PageDown => self.move_down(height.saturating_sub(1)),
            Move::StartOfLine => self.move_to_start_of_line(),
            Move::EndOfLine => self.move_to_end_of_line(),
        }
        self.scroll_text_location_into_view();
    }

    /// Breaks the line at the cursor and moves to the start of the new line.
    fn insert_newline(&mut self)
        requires
            old(self).wf(),
        ensures
            final(self).wf(),
            final(self)@ == after_newline(old(self)@),
    {
        self.buffer.insert_newline(self.text_location);
        self.handle_move_command(Move::Right);
        self.set_needs_redraw(true);
    }

    /// Deletes what stands before the cursor.
    fn delete_backward(&mut self)
        requires
            old(self).wf(),
        ensures
            final(self).wf(),
            final(self)@ == after_delete_backward(old(self)@),
    {
        if self.text_location.line_idx != 0 || self.text_location.grapheme_idx != 0 {
            self.handle_move_command(Move::Left);
            self.delete();
        }
    }

    /// Deletes what stands at the cursor.
    fn delete(&mut self)
        requires
            old(self).wf(),
        ensures
            final(self).wf(),
            final(self)@ == after_delete(old(self)@),
    {
        self.buffer.delete(self.text_location);
        self.set_needs_redraw(true);
    }

    /// Puts `character` in at the cursor and steps over it.
    fn insert_char(&mut self, character: char)
        requires
            old(self).wf(),
        ensures
            final(self).wf(),
            final(self)@ == after_insert(old(self)@, character),
    {
        let old_len: usize = self.buffer.grapheme_count(self.text_location.line_idx);
        self.buffer.insert_char(character, self.text_location);
        let new_len: usize = self.buffer.grapheme_count(self.text_location.line_idx);
        let grapheme_delta: usize = new_len.saturating_sub(old_len);
        if grapheme_delta > 0 {
            self.handle_move_command(Move::Right);
        }
        self.set_needs_redraw(true);
    }

    /// The rows to print if the area is to be drawn again, which it then no
    /// longer is.
    pub fn render(&mut self) -> (rows: Option<Vec<String>>)
        requires
            old(self).wf(),
        ensures
            final(self).buffer() == old(self).buffer(),
            final(self)@ == (ViewState { needs_redraw: false, ..old(self)@ }),
            rows is Some == old(self)@.needs_redraw,
            rows is Some ==> rows->0@.len() == old(self)@.size.height && forall|row: int|
                0 <= row < rows->0@.len() ==> (#[trigger] rows->0@[row])@ == row_text(
                    old(self)@,
                    row,
                ),
    {
        if self.needs_redraw() {
            let rows: Vec<String> = self.draw();
            self.set_needs_redraw(false);
            Some(rows)
        } else {
            None
        }
    }

    /// What each row of the area shows, from the top: the visible part of
    /// its line, or `_` below the last line.
    pub fn draw(&self) -> (rows: Vec<String>)
        requires
            self.wf(),
        ensures
            rows@.len() == self@.size.height,
            forall|row: int| 0 <= row < rows@.len() ==> (#[trigger] rows@[row])@ == row_text(self@, row),
    {
        let height: usize = self.size.height;
        let width: usize = self.size.width;
        let scroll_top: usize = self.scroll_offset.row;
        let mut rows: Vec<String> = Vec::new();
        let mut current_row: usize = 0;
        while current_row < height
            invariant
                self.wf(),
                height == self.size.height,
                width == self.size.width,
                scroll_top == self.scroll_offset.row,
                current_row <= height,
                rows@.len() == current_row,
                forall|row: int|
                    0 <= row < rows@.len() ==> (#[trigger] rows@[row])@ == row_text(self@, row),
            decreases height - current_row,
        {
            let line_idx: usize = current_row.saturating_add(scroll_top);
            let left: usize = self.scroll_offset.col;
            let right: usize = self.scroll_offset.col.saturating_add(width);
            match self.buffer.get_line(line_idx) {
                Some(line) => {
                    assert(self.buffer().lines()[line_idx as int].wf());
                    assert(line@ == self@.texts[line_idx as int]);
                    rows.push(line.get_visible_graphemes(left..right));
                },
                None => {
                    proof {
                        reveal_strlit("_");
                        assert("_"@ =~= seq!['_']);
                    }
                    rows.push(String::from_str("_"));
                },
            }
            current_row += 1;
        }
        rows
    }

    /// Scrolls up or down so that row `to` shows.
    fn scroll_vertically(&mut self, to: RowIdx)
        ensures
            final(self).buffer == old(self).buffer,
            final(self).size == old(self).size,
            final(self).text_location == old(self).text_location,
            final(self).scroll_offset.col == old(self).scroll_offset.col,
            final(self).scroll_offset.row == scroll_axis(
                old(self).scroll_offset.row as int,
                old(self).size.height as int,
                to as int,
            ),
            final(self).needs_redraw == (old(self).needs_redraw || scrolls(
                old(self).scroll_offset.row as int,
                old(self).size.height as int,
                to as int,
            )),
    {
        let height: usize = self.size.height;
        let offset_changed: bool = if to < self.scroll_offset.row {
            self.scroll_offset.row = to;
            true
        } else if to >= self.scroll_offset.row.saturating_add(height) {
            self.scroll_offset.row = to.saturating_sub(height).saturating_add(1);
            true
        } else {
            false
        };
        if offset_changed {
            self.set_needs_redraw(true);
        }
    }

    /// Scrolls left or right so that column `to` shows.
    fn scroll_horizontally(&mut self, to: ColIdx)
        ensures
            final(self).buffer == old(self).buffer,
            final(self).size == old(self).size,
            final(self).text_location == old(self).text_location,
            final(self).scroll_offset.row == old(self).scroll_offset.row,
            final(self).scroll_offset.col == scroll_axis(
                old(self).scroll_offset.col as int,
                old(self).size.width as int,
                to as int,
            ),
            final(self).needs_redraw == (old(self).needs_redraw || scrolls(
                old(self).scroll_offset.col as int,
                old(self).size.width as int,
                to as int,
            )),
    {
        let width: usize = self.size.width;
        let offset_changed: bool = if to < self.scroll_offset.col {
            self.scroll_offset.col = to;
            true
        } else if to >= self.scroll_offset.col.saturating_add(width) {
            self.scroll_offset.col = to.saturating_sub(width).saturating_add(1);
            true
        } else {
            false
        };
        if offset_changed {
            self.set_needs_redraw(true);
        }
    }

    /// Scrolls so that the cursor shows.
    fn scroll_text_location_into_view(&mut self)
        requires
            old(self).wf(),
        ensures
            final(self).buffer == old(self).buffer,
            final(self)@ == scrolled(old(self)@),
            old(self)@.size.height > 0 && old(self)@.size.width > 0 ==> cursor_in_view(
                final(self)@,
            ),
    {
        let position: Position = self.text_location_to_position();
        self.scroll_vertically(position.row);
        self.scroll_horizontally(position.col);
        proof {
            lemma_column_of_bounds(old(self)@.texts, old(self)@.location);
        }
    }

    /// Scrolls so that the cursor stands in the middle of the area, as far
    /// as the start of the document allows.
    pub fn center_text_location(&mut self)
        requires
            old(self).wf(),
        ensures
            final(self).buffer() == old(self).buffer(),
            final(self)@ == centered(old(self)@),
    {
        let height: usize = self.size.height;
        let width: usize = self.size.width;
        let position: Position = self.text_location_to_position();
        let vertical_mid: usize = height / 2 + height % 2;
        let horizontal_mid: usize = width / 2 + width % 2;
        self.scroll_offset.row = position.row.saturating_sub(vertical_mid);
        self.scroll_offset.col = position.col.saturating_sub(horizontal_mid);
        self.set_needs_redraw(true);
    }

    /// Where the caret stands on screen: the cursor's place in the document,
    /// less the scroll offset.
    pub fn caret_position(&self) -> (caret: Position)
        requires
            self.wf(),
        ensures
            caret.row == saturating_diff(
                self@.location.line_idx as int,
                self@.scroll_offset.row as int,
            ),
            caret.col == saturating_diff(
                column_of(self@.texts, self@.location),
                self@.scroll_offset.col as int,
            ),
            cursor_in_view(self@) ==> caret.row < self@.size.height && caret.col
                < self@.size.width,
    {
        self.text_location_to_position().saturating_sub(self.scroll_offset)
    }

    /// The cursor's place in the document, in rows and columns.
    fn text_location_to_position(&self) -> (position: Position)
        requires
            self.wf(),
        ensures
            position.row == self.text_location.line_idx,
            position.col == column_of(self@.texts, self.text_location),
    {
        let row: usize = self.text_location.line_idx;
        let col: usize = self.buffer.width_until(row, self.text_location.grapheme_idx);
        Position { col, row }
    }

    /// Moves the cursor `step` lines up.
    fn move_up(&mut self, step: usize)
        requires
            old(self).wf(),
        ensures
            final(self).buffer == old(self).buffer,
            final(self).size == old(self).size,
            final(self).scroll_offset == old(self).scroll_offset,
            final(self).needs_redraw == old(self).needs_redraw,
            final(self).text_location == moved_up(
                old(self)@.texts,
                old(self).text_location,
                step as int,
            ),
    {
        self.text_location.line_idx = self.text_location.line_idx.saturating_sub(step);
        self.snap_to_valid_grapheme();
    }

    /// Moves the cursor `step` lines down.
    fn move_down(&mut self, step: usize)
        requires
            old(self).wf(),
        ensures
            final(self).buffer == old(self).buffer,
            final(self).size == old(self).size,
            final(self).scroll_offset == old(self).scroll_offset,
            final(self).needs_redraw == old(self).needs_redraw,
            final(self).text_location == moved_down(
                old(self)@.texts,
                old(self).text_location,
                step as int,
            ),
    {
        self.text_location.line_idx = self.text_location.line_idx.saturating_add(step);
        self.snap_to_valid_grapheme();
        self.snap_to_valid_line();
    }

    /// Moves the cursor one cluster to the right.
    fn move_right(&mut self)
        requires
            old(self).wf(),
        ensures
            final(self).buffer == old(self).buffer,
            final(self).size == old(self).size,
            final(self).scroll_offset == old(self).scroll_offset,
            final(self).needs_redraw == old(self).needs_redraw,
            final(self).text_location == moved_right(old(self)@.texts, old(self).text_location),
    {
        let grapheme_count: usize = self.buffer.grapheme_count(self.text_location.line_idx);
        if self.text_location.grapheme_idx < grapheme_count {
            self.text_location.grapheme_idx += 1;
        } else if self.text_location.line_idx.saturating_add(1) < self.buffer.height() {
            self.move_to_start_of_line();
            self.move_down(1);
        }
    }

    /// Moves the cursor one cluster to the left.
    fn move_left(&mut self)
        requires
            old(self).wf(),
        ensures
            final(self).buffer == old(self).buffer,
            final(self).size == old(self).size,
            final(self).scroll_offset == old(self).scroll_offset,
            final(self).needs_redraw == old(self).needs_redraw,
            final(self).text_location == moved_left(old(self)@.texts, old(self).text_location),
    {
        if self.text_location.grapheme_idx > 0 {
            self.text_location.grapheme_idx -= 1;
        } else if self.text_location.line_idx > 0 {
            self.move_up(1);
            self.move_to_end_of_line();
        }
    }

    /// Moves the cursor to the start of its line.
    fn move_to_start_of_line(&mut self)
        ensures
            final(self).buffer == old(self).buffer,
            final(self).size == old(self).size,
            final(self).scroll_offset == old(self).scroll_offset,
            final(self).needs_redraw == old(self).needs_redraw,
            final(self).text_location == (Location {
                grapheme_idx: 0,
                line_idx: old(self).text_location.line_idx,
            }),
    {
        self.text_location.grapheme_idx = 0;
    }

    /// Moves the cursor to the end of its line.
    fn move_to_end_of_line(&mut self)
        requires
            old(self).wf(),
        ensures
            final(self).buffer == old(self).buffer,
            final(self).size == old(self).size,
            final(self).scroll_offset == old(self).scroll_offset,
            final(self).needs_redraw == old(self).needs_redraw,
            final(self).text_location == (Location {
                grapheme_idx: count_at(
                    old(self)@.texts,
                    old(self).text_location.line_idx as int,
                ) as usize,
                line_idx: old(self).text_location.line_idx,
            }),
    {
        self.text_location.grapheme_idx = self.buffer.grapheme_count(self.text_location.line_idx);
    }

    /// Brings the cursor back onto its line if it stands past the end.
    fn snap_to_valid_grapheme(&mut self)
        requires
            old(self).wf(),
        ensures
            final(self).buffer == old(self).buffer,
            final(self).size == old(self).size,
            final(self).scroll_offset == old(self).scroll_offset,
            final(self).needs_redraw == old(self).needs_redraw,
            final(self).text_location.line_idx == old(self).text_location.line_idx,
            final(self).text_location.grapheme_idx == state::smaller(
                old(self).text_location.grapheme_idx as int,
                count_at(old(self)@.texts, old(self).text_location.line_idx as int),
            ),
    {
        let count: usize = self.buffer.grapheme_count(self.text_location.line_idx);
        if count < self.text_location.grapheme_idx {
            self.text_location.grapheme_idx = count;
        }
    }

    /// Brings the cursor back to the place after the last line if it stands
    /// below.
    fn snap_to_valid_line(&mut self)
        ensures
            final(self).buffer == old(self).buffer,
            final(self).size == old(self).size,
            final(self).scroll_offset == old(self).scroll_offset,
            final(self).needs_redraw == old(self).needs_redraw,
            final(self).text_location.grapheme_idx == old(self).text_location.grapheme_idx,
            final(self).text_location.line_idx == state::smaller(
                old(self).text_location.line_idx as int,
                old(self)@.texts.len() as int,
            ),
            old(self)@.texts.len() <= usize::MAX,
    {
        let height: usize = self.buffer.height();
        if height < self.text_location.line_idx {
            self.text_location.line_idx = height;
        }
    }

    /// Marks the area as to be drawn again, or as drawn.
    pub fn set_needs_redraw(&mut self, value: bool)
        ensures
            final(self).buffer() == old(self).buffer(),
            final(self)@ == (ViewState { needs_redraw: value, ..old(self)@ }),
    {
        self.needs_redraw = value;
    }

    /// Whether the area is to be drawn again.
    pub fn needs_redraw(&self) -> (needed: bool)
        ensures
            needed == self@.needs_redraw,
    {
        self.needs_redraw
    }

    /// Gives the area a new extent and scrolls so that the cursor shows.
    pub fn set_size(&mut self, size: Size)
        requires
            old(self).wf(),
        ensures
            final(self).buffer() == old(self).buffer(),
            final(self)@ == scrolled(ViewState { size, ..old(self)@ }),
            size.height > 0 && size.width > 0 ==> cursor_in_view(final(self)@),
    {
        self.size = size;
        self.scroll_text_location_into_view();
    }

    /// Gives the area a new extent and marks it as to be drawn again.
    pub fn resize(&mut self, size: Size)
        requires
            old(self).wf(),
        ensures
            final(self).buffer() == old(self).buffer(),
            final(self)@ == (ViewState {
                needs_redraw: true,
                ..scrolled(ViewState { size, ..old(self)@ })
            }),
            size.height > 0 && size.width > 0 ==> cursor_in_view(final(self)@),
    {
        self.set_size(size);
        self.set_needs_redraw(true);
    }
}

impl Default for View {
    /// An area without extent that shows an empty document.
    fn default() -> (view: Self)
        ensures
            view.wf(),
            view@ == (ViewState {
                texts: Seq::empty(),
                dirty: false,
                path: None,
                location: Location { grapheme_idx: 0, line_idx: 0 },
                scroll_offset: Position { col: 0, row: 0 },
                size: Size { height: 0, width: 0 },
                needs_redraw: false,
            }),
    {
        View {
            buffer: Buffer::default(),
            needs_redraw: false,
            size: Size::default(),
            text_location: Location::default(),
            scroll_offset: Position::default(),
        }
    }
}

} // verus!
