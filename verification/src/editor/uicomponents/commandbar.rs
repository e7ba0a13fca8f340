//! The bar in which the user answers a prompt.

use crate::editor::command::Edit;
use crate::editor::line::segment::{
    cluster_count, columns_until, saturated, text_between, with_grapheme_deleted,
};
use crate::editor::line::unicode::{display_columns, display_width};
use crate::editor::line::Line;
use crate::editor::line::strings::{byte_len, byte_length};
use crate::prelude::position::saturating_diff;
use crate::prelude::{ColIdx, Size};
use std::string::String;
use vstd::prelude::*;
use vstd::string::StringExecFns;

verus! {

/// The column of the caret in a bar `width` columns wide, after a prompt
/// and a value that take `prompt_columns` and `value_columns`: behind the
/// two, or at the edge of the bar if they do not fit.
pub open spec fn caret_column(prompt_columns: int, value_columns: int, width: int) -> int {
    if prompt_columns + value_columns <= width {
        prompt_columns + value_columns
    } else {
        width
    }
}

/// The value after a change to the text: a character goes to its end,
/// Backspace takes its last cluster away, nothing else changes it.
pub open spec fn value_after(value: Seq<char>, command: Edit) -> Seq<char> {
    match command {
        Edit::Insert(c) => value.push(c),
        Edit::Delete | Edit::InsertNewline => value,
        Edit::DeleteBackward => with_grapheme_deleted(value, cluster_count(value) - 1),
    }
}

/// What the bar shows: the prompt, and of the value the clusters whose
/// index lies between the value's width less the room beside the prompt,
/// and the value's width.
pub open spec fn command_line(prompt: Seq<char>, value: Seq<char>, width: int) -> Seq<char> {
    let room = saturating_diff(width, byte_len(prompt) as int);
    let end = saturated(columns_until(value, cluster_count(value) as int));
    prompt + text_between(value, saturating_diff(end, room), end)
}

/// Decides the caret's column from the measured widths.
pub fn caret_column_for(prompt_columns: usize, value_columns: usize, width: usize) -> (column:
    ColIdx)
    ensures
        column == caret_column(prompt_columns as int, value_columns as int, width as int),
{
    if prompt_columns >= width {
        width
    } else if value_columns >= width - prompt_columns {
        width
    } else {
        prompt_columns + value_columns
    }
}

/// All that a command bar holds.
pub struct CommandBarState {
    /// The prompt.
    pub prompt: Seq<char>,
    /// What the user has typed.
    pub value: Seq<char>,
    /// Whether the bar is to be drawn again.
    pub needs_redraw: bool,
    /// The extent of the bar.
    pub size: Size,
}

/// The command bar.
pub struct CommandBar {
    prompt: String,
    value: Line,
    needs_redraw: bool,
    size: Size,
}

impl View for CommandBar {
    type V = CommandBarState;

    open spec fn view(&self) -> CommandBarState {
        CommandBarState {
            prompt: self.prompt(),
            value: self.typed(),
            needs_redraw: self.redraw_pending(),
            size: self.extent(),
        }
    }
}

impl CommandBar {
    /// The line to print if the bar is to be drawn again, which it then no
    /// longer is.
    pub fn render(&mut self) -> (line: Option<String>)
        requires
            old(self).wf(),
        ensures
            final(self).wf(),
            final(self)@ == (CommandBarState { needs_redraw: false, ..old(self)@ }),
            line is Some == old(self)@.needs_redraw,
            line is Some ==> line->0@ == command_line(
                old(self)@.prompt,
                old(self)@.value,
                old(self)@.size.width as int,
            ),
    {
        if self.needs_redraw() {
            let line: String = self.draw();
            self.set_needs_redraw(false);
            Some(line)
        } else {
            None
        }
    }

    /// The prompt.
    pub closed spec fn prompt(&self) -> Seq<char> {
        self.prompt@
    }

    /// What the user has typed.
    pub closed spec fn typed(&self) -> Seq<char> {
        self.value@
    }

    /// Whether the bar is to be drawn again.
    pub closed spec fn redraw_pending(&self) -> bool {
        self.needs_redraw
    }

    /// The extent of the bar.
    pub closed spec fn extent(&self) -> Size {
        self.size
    }

    /// The line that holds the value is well-formed.
    pub closed spec fn wf(&self) -> bool {
        self.value.wf()
    }

    /// Changes the value; the bar is then to be drawn again.
    pub fn handle_edit_command(&mut self, command: Edit)
        requires
            old(self).wf(),
        ensures
            final(self).wf(),
            final(self).typed() == value_after(old(self).typed(), command),
            final(self).prompt() == old(self).prompt(),
            final(self).extent() == old(self).extent(),
            final(self).redraw_pending(),
    {
        match command {
            Edit::Insert(character) => self.value.append_char(character),
            Edit::Delete | Edit::InsertNewline => {},
            Edit::DeleteBackward => self.value.delete_last(),
        }
        self.set_needs_redraw(true);
    }

    /// The column of the caret: behind prompt and value, or at the edge of
    /// the bar.
    pub fn caret_position_col(&self) -> (column: ColIdx)
        ensures
            column == caret_column(
                display_columns(self.prompt()) as int,
                display_columns(self.typed()) as int,
                self.extent().width as int,
            ),
    {
        let prompt_width: usize = display_width(self.prompt.as_str());
        let value_width: usize = display_width(self.value.as_str());
        caret_column_for(prompt_width, value_width, self.size.width)
    }

    /// What the user has typed.
    pub fn value(&self) -> (value: String)
        ensures
            value@ == self.typed(),
    {
        self.value.to_string()
    }

    /// Sets the prompt; the bar is then to be drawn again.
    pub fn set_prompt(&mut self, prompt: &str)
        requires
            old(self).wf(),
        ensures
            final(self).wf(),
            final(self).prompt() == prompt@,
            final(self).typed() == old(self).typed(),
            final(self).extent() == old(self).extent(),
            final(self).redraw_pending(),
    {
        self.prompt = prompt.to_owned();
        self.set_needs_redraw(true);
    }

    /// Forgets what the user has typed; the bar is then to be drawn again.
    pub fn clear_value(&mut self)
        ensures
            final(self).wf(),
            final(self).typed() == Seq::<char>::empty(),
            final(self).prompt() == old(self).prompt(),
            final(self).extent() == old(self).extent(),
            final(self).redraw_pending(),
    {
        self.value = Line::default();
        self.set_needs_redraw(true);
    }

    /// Marks the bar as to be drawn again, or as drawn.
    pub fn set_needs_redraw(&mut self, value: bool)
        ensures
            final(self).wf() == old(self).wf(),
            final(self).typed() == old(self).typed(),
            final(self).prompt() == old(self).prompt(),
            final(self).extent() == old(self).extent(),
            final(self).redraw_pending() == value,
    {
        self.needs_redraw = value;
    }

    /// Whether the bar is to be drawn again.
    pub fn needs_redraw(&self) -> (needed: bool)
        ensures
            needed == self.redraw_pending(),
    {
        self.needs_redraw
    }

    /// Gives the bar a new extent.
    pub fn set_size(&mut self, size: Size)
        ensures
            final(self).wf() == old(self).wf(),
            final(self).typed() == old(self).typed(),
            final(self).prompt() == old(self).prompt(),
            final(self).redraw_pending() == old(self).redraw_pending(),
            final(self).extent() == size,
    {
        self.size = size;
    }

    /// Gives the bar a new extent and marks it as to be drawn again.
    pub fn resize(&mut self, size: Size)
        ensures
            final(self).wf() == old(self).wf(),
            final(self).typed() == old(self).typed(),
            final(self).prompt() == old(self).prompt(),
            final(self).redraw_pending(),
            final(self).extent() == size,
    {
        self.set_size(size);
        self.set_needs_redraw(true);
    }

    /// The line to print: the prompt and the end of the value.
    pub fn draw(&self) -> (line: String)
        requires
            self.wf(),
        ensures
            line@ == command_line(self.prompt(), self.typed(), self.extent().width as int),
    {
        let area_for_value: usize = self.size.width.saturating_sub(
            byte_length(self.prompt.as_str()),
        );
        let value_end: usize = self.value.width();
        let value_start: usize = value_end.saturating_sub(area_for_value);
        let visible_value: String = self.value.get_visible_graphemes(value_start..value_end);
        let mut message: String = self.prompt.clone();
        message.append(visible_value.as_str());
        message
    }
}

impl Default for CommandBar {
    /// A bar without extent, prompt or value.
    fn default() -> (bar: Self)
        ensures
            bar.wf(),
            bar.prompt() == Seq::<char>::empty(),
            bar.typed() == Seq::<char>::empty(),
            !bar.redraw_pending(),
            bar.extent() == (Size { height: 0, width: 0 }),
    {
        CommandBar {
            prompt: String::new(),
            value: Line::default(),
            needs_redraw: false,
            size: Size::default(),
        }
    }
}

} // verus!
