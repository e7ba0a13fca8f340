//! The bar that tells of the document: its name, its size, whether it was
//! changed, and where the cursor stands.

use crate::editor::documentstatus::{
    line_count, modified_indicator, position_indicator, DocumentStatus, StatusModel,
};
use crate::editor::line::strings::{byte_len, byte_length};
use crate::prelude::position::saturating_diff;
use crate::prelude::Size;
use std::string::String;
use vstd::prelude::*;
use vstd::std_specs::iter::IteratorSpec;
use vstd::string::{StrSliceExecFns, StringExecFns};

verus! {

/// `n` spaces.
pub open spec fn spaces(n: int) -> Seq<char> {
    Seq::new(
        if n > 0 {
            n as nat
        } else {
            0
        },
        |i: int| ' ',
    )
}

/// `text` with spaces before it, as many as it is shorter than `width`.
pub open spec fn right_aligned(text: Seq<char>, width: int) -> Seq<char> {
    spaces(width - text.len()) + text
}

/// `text` cut or filled with spaces to exactly `width` characters.
pub open spec fn fitted(text: Seq<char>, width: int) -> Seq<char> {
    if text.len() >= width {
        text.take(width)
    } else {
        text + spaces(width - text.len())
    }
}

/// What stands at the left of the status line: the file's name, the number
/// of lines, and the mark for unsaved changes.
pub open spec fn status_beginning(status: StatusModel) -> Seq<char> {
    status.file_name + " - "@ + line_count(status) + " "@ + modified_indicator(status)
}

/// The status line for a bar `width` columns wide: the beginning, and the
/// cursor's position at the right edge. Nothing at all if that takes more
/// bytes than the bar has columns.
pub open spec fn status_line(status: StatusModel, width: int) -> Seq<char> {
    let beginning = status_beginning(status);
    let line = beginning + right_aligned(
        position_indicator(status),
        saturating_diff(width, byte_len(beginning) as int),
    );
    if byte_len(line) <= width {
        line
    } else {
        Seq::empty()
    }
}

/// Appends `count` spaces to `text`.
fn push_spaces(text: &mut String, count: usize)
    ensures
        final(text)@ == old(text)@ + spaces(count as int),
{
    let mut i: usize = 0;
    assert(text@ + spaces(0) =~= text@);
    while i < count
        invariant
            i <= count,
            text@ == old(text)@ + spaces(i as int),
        decreases count - i,
    {
        text.push(' ');
        i += 1;
        assert(text@ =~= old(text)@ + spaces(i as int));
    }
}

/// `text` cut or filled with spaces to exactly `width` characters: what a
/// row of the terminal holds when `text` is printed over its whole width.
pub fn fit_to_width(text: &str, width: usize) -> (row: String)
    ensures
        row@ == fitted(text@, width as int),
{
    broadcast use vstd::string::group_string_axioms;

    let mut row: String = String::new();
    let mut chars = text.chars();
    let mut taken: usize = 0;
    assert(text@.take(0) =~= Seq::<char>::empty());
    while taken < width
        invariant_except_break
            taken <= width,
            taken <= text@.len(),
            row@ == text@.take(taken as int),
            chars.remaining() == text@.skip(taken as int),
            chars.decrease() is Some,
        ensures
            row@ == fitted(text@, width as int),
        decreases chars.decrease()->0,
    {
        match chars.next() {
            Some(c) => {
                row.push(c);
                assert(text@.take(taken + 1) =~= text@.take(taken as int).push(c));
                assert(text@.skip(taken + 1) =~= text@.skip(taken as int).drop_first());
                taken += 1;
            },
            None => {
                assert(text@.take(taken as int) =~= text@);
                push_spaces(&mut row, width - taken);
                break ;
            },
        }
    }
    row
}

/// All that a status bar holds.
pub struct StatusBarState {
    /// What the bar tells.
    pub status: StatusModel,
    /// Whether the bar is to be drawn again.
    pub needs_redraw: bool,
    /// The extent of the bar.
    pub size: Size,
}

/// The status bar.
pub struct StatusBar {
    current_status: DocumentStatus,
    needs_redraw: bool,
    size: Size,
}

impl View for StatusBar {
    type V = StatusBarState;

    open spec fn view(&self) -> StatusBarState {
        StatusBarState {
            status: self.status(),
            needs_redraw: self.redraw_pending(),
            size: self.extent(),
        }
    }
}

impl StatusBar {
    /// What the bar tells.
    pub closed spec fn status(&self) -> StatusModel {
        self.current_status@
    }

    /// Whether the bar is to be drawn again.
    pub closed spec fn redraw_pending(&self) -> bool {
        self.needs_redraw
    }

    /// The extent of the bar.
    pub closed spec fn extent(&self) -> Size {
        self.size
    }

    /// Takes `new_status` if it tells anything new; the bar is then to be
    /// drawn again.
    pub fn update_status(&mut self, new_status: DocumentStatus)
        ensures
            final(self).extent() == old(self).extent(),
            final(self).status() == new_status@,
            final(self).redraw_pending() == (old(self).redraw_pending() || new_status@ != old(
                self,
            ).status()),
    {
        if new_status != self.current_status {
            self.current_status = new_status;
            self.set_needs_redraw(true);
        }
    }

    /// Marks the bar as to be drawn again, or as drawn.
    pub fn set_needs_redraw(&mut self, value: bool)
        ensures
            final(self).status() == old(self).status(),
            final(self).extent() == old(self).extent(),
            final(self).redraw_pending() == value,
    {
        self.needs_redraw = value;
    }

    /// Whether the bar is to be drawn again.
    pub fn needs_redraw(&self) -> (needed: bool)
        ensures
            needed == self.redraw_pending(),
    {
        self.needs_redraw
    }

    /// Gives the bar a new extent.
    pub fn set_size(&mut self, size: Size)
        ensures
            final(self).status() == old(self).status(),
            final(self).redraw_pending() == old(self).redraw_pending(),
            final(self).extent() == size,
    {
        self.size = size;
    }

    /// Gives the bar a new extent and marks it as to be drawn again.
    pub fn resize(&mut self, size: Size)
        ensures
            final(self).status() == old(self).status(),
            final(self).redraw_pending(),
            final(self).extent() == size,
    {
        self.set_size(size);
        self.set_needs_redraw(true);
    }

    /// The status line to print if the bar is to be drawn again, which it
    /// then no longer is.
    pub fn render(&mut self) -> (line: Option<String>)
        ensures
            final(self)@ == (StatusBarState { needs_redraw: false, ..old(self)@ }),
            line is Some == old(self)@.needs_redraw,
            line is Some ==> line->0@ == status_line(
                old(self)@.status,
                old(self)@.size.width as int,
            ),
    {
        if self.needs_redraw() {
            let line: String = self.draw();
            self.set_needs_redraw(false);
            Some(line)
        } else {
            None
        }
    }

    /// The status line to print.
    pub fn draw(&self) -> (line: String)
        ensures
            line@ == status_line(self.status(), self.extent().width as int),
    {
        let line_count: String = self.current_status.line_count_to_string();
        let modified_indicator: String = self.current_status.modified_indicator_to_string();
        let mut status: String = self.current_status.file_name.clone();
        status.append(" - ");
        status.append(line_count.as_str());
        status.append(" ");
        status.append(modified_indicator.as_str());
        let ghost beginning = status@;
        assert(beginning == status_beginning(self.status()));
        let back_part: String = self.current_status.position_indicator_to_string();
        let remainder_len: usize = self.size.width.saturating_sub(byte_length(status.as_str()));
        let indicator_len: usize = back_part.as_str().unicode_len();
        push_spaces(&mut status, remainder_len.saturating_sub(indicator_len));
        status.append(back_part.as_str());
        assert(status@ =~= beginning + right_aligned(
            position_indicator(self.status()),
            remainder_len as int,
        ));
        if byte_length(status.as_str()) <= self.size.width {
            status
        } else {
            String::new()
        }
    }
}

impl Default for StatusBar {
    /// A bar without extent that tells of an empty document.
    fn default() -> (bar: Self)
        ensures
            bar.status() == (StatusModel {
                total_lines: 0,
                current_line_idx: 0,
                is_modified: false,
                file_name: Seq::empty(),
            }),
            !bar.redraw_pending(),
            bar.extent() == (Size { height: 0, width: 0 }),
    {
        StatusBar {
            current_status: DocumentStatus::default(),
            needs_redraw: false,
            size: Size::default(),
        }
    }
}

} // verus!
