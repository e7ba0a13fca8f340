//! One sitting at the editor, as a machine of states: it takes commands and
//! reports of the terminal, changes its parts, and says what is to be
//! written to disk or drawn on screen. It does neither itself.

use crate::editor::command::edit::Edit;
use crate::editor::command::key::{Event, KeyEventKind};
use crate::editor::command::movecommand::Move;
use crate::editor::command::system::System;
use crate::editor::command::{command_of, Command};
use crate::editor::documentstatus::{decimal, decimal_string, DocumentStatus, StatusModel};
use crate::editor::line::unicode::display_columns;
use crate::editor::uicomponents::commandbar::{
    caret_column, command_line, value_after, CommandBar, CommandBarState,
};
use crate::editor::uicomponents::messagebar::{
    message_due, message_line, message_rendered, MessageBar, MessageBarState,
};
use crate::editor::uicomponents::statusbar::{status_line, StatusBar, StatusBarState};
use crate::editor::uicomponents::view::state::{
    after_edit, after_move, column_of, row_text, scrolled, ViewState,
};
use crate::editor::uicomponents::view::textlines::split_lines;
use crate::editor::uicomponents::view;
use crate::prelude::position::saturating_diff;
use crate::prelude::{Position, RowIdx, Size};
use std::string::String;
use std::vec::Vec;
use vstd::prelude::*;
use vstd::string::StringExecFns;

verus! {

/// How often in a row the user must ask to quit before unsaved changes are
/// given up.
pub const QUIT_TIMES: u8 = 3;

/// The editor's name, as the terminal's title shows it.
pub const NAME: &'static str = "text_editor";

/// The message shown at the start.
pub const HELP_MESSAGE: &'static str = "Ctrl + S = 保存 | Ctrl + Q = 退出";

/// The message after a save.
pub const SAVED_MESSAGE: &'static str = "文件保存成功！";

/// The message after a save that failed.
pub const SAVE_FAILED_MESSAGE: &'static str = "文件写入失败！";

/// The message after the prompt for a file name was dismissed.
pub const SAVE_ABORTED_MESSAGE: &'static str = "保存已取消。";

/// The prompt for a file name.
pub const SAVE_PROMPT: &'static str = "保存为（Esc 取消）: ";

/// What the bottom bar is used for.
#[derive(Copy, Clone, Debug, PartialEq, Eq, Structural)]
pub enum PromptType {
    /// The user is asked for a file name to save to.
    Save,
    /// The bar shows messages.
    NoPrompt,
}

impl PromptType {
    /// Whether the user is being asked something.
    pub fn is_prompt(&self) -> (prompt: bool)
        ensures
            prompt == (*self == PromptType::Save),
    {
        matches!(self, PromptType::Save)
    }
}

impl Default for PromptType {
    fn default() -> (prompt: Self)
        ensures
            prompt == PromptType::NoPrompt,
    {
        PromptType::NoPrompt
    }
}


/// What the editor asks to be done outside: nothing, or the document written
/// to disk.
#[derive(Debug)]
pub enum Request {
    /// Nothing is to be done.
    Nothing,
    /// Write the document to its own file.
    Save,
    /// Write the document to the file of this name.
    SaveAs(String),
}

/// What a request asks for, as a value.
pub enum RequestModel {
    Nothing,
    Save,
    SaveAs(Seq<char>),
}

impl View for Request {
    type V = RequestModel;

    open spec fn view(&self) -> RequestModel {
        match self {
            Request::Nothing => RequestModel::Nothing,
            Request::Save => RequestModel::Save,
            Request::SaveAs(name) => RequestModel::SaveAs(name@),
        }
    }
}

/// All that a sitting holds.
pub struct EditorState {
    /// Whether the sitting is over.
    pub should_quit: bool,
    /// The text area.
    pub view: ViewState,
    /// The status bar.
    pub status_bar: StatusBarState,
    /// The message bar.
    pub message_bar: MessageBarState,
    /// The command bar.
    pub command_bar: CommandBarState,
    /// What the bottom bar is used for.
    pub prompt_type: PromptType,
    /// The extent of the terminal.
    pub terminal_size: Size,
    /// The title that the terminal was given.
    pub title: Seq<char>,
    /// How often in a row the user has asked to quit.
    pub quit_times: u8,
}

/// The sitting with `text` as its message.
pub open spec fn with_message(state: EditorState, text: Seq<char>) -> EditorState {
    EditorState {
        message_bar: MessageBarState { text, needs_redraw: true, cleared: false },
        ..state
    }
}

/// The sitting with the bottom bar put to a new use: the command bar is
/// emptied, and either gets its prompt or gives way to the message bar.
pub open spec fn with_prompt(state: EditorState, prompt_type: PromptType) -> EditorState {
    EditorState {
        message_bar: MessageBarState {
            needs_redraw: state.message_bar.needs_redraw || prompt_type == PromptType::NoPrompt,
            ..state.message_bar
        },
        command_bar: CommandBarState {
            prompt: if prompt_type == PromptType::Save {
                SAVE_PROMPT@
            } else {
                state.command_bar.prompt
            },
            value: Seq::empty(),
            needs_redraw: true,
            ..state.command_bar
        },
        prompt_type,
        ..state
    }
}

/// The sitting in a terminal of extent `size`: the text area gets all rows
/// but two, each bar one row, and everything is to be drawn again.
pub open spec fn resized(state: EditorState, size: Size) -> EditorState {
    let view_size = Size { height: saturating_diff(size.height as int, 2) as usize, width: size.width };
    let bar_size = Size { height: 1, width: size.width };
    EditorState {
        terminal_size: size,
        view: ViewState { needs_redraw: true, ..scrolled(ViewState { size: view_size, ..state.view }) },
        message_bar: MessageBarState { needs_redraw: true, ..state.message_bar },
        status_bar: StatusBarState { needs_redraw: true, size: bar_size, ..state.status_bar },
        command_bar: CommandBarState { needs_redraw: true, size: bar_size, ..state.command_bar },
        ..state
    }
}

/// The warning that `left` more requests are needed to quit.
pub open spec fn quit_warning(left: nat) -> Seq<char> {
    "WARNING! 文件有未保存的更改。再按 Ctrl-Q "@ + decimal(left) + " 次以退出。"@
}

/// The sitting after a request to quit: over if nothing is unsaved or the
/// user has asked often enough, else one request nearer to it, with a
/// warning.
pub open spec fn quit_requested(state: EditorState) -> EditorState {
    if !state.view.dirty || state.quit_times + 1 == QUIT_TIMES {
        EditorState { should_quit: true, ..state }
    } else {
        EditorState {
            quit_times: (state.quit_times + 1) as u8,
            ..with_message(state, quit_warning((QUIT_TIMES - state.quit_times - 1) as nat))
        }
    }
}

/// The sitting after any command but a request to quit: the count of such
/// requests starts anew, and the warning goes.
pub open spec fn quit_times_reset(state: EditorState) -> EditorState {
    if state.quit_times > 0 {
        EditorState { quit_times: 0, ..with_message(state, Seq::empty()) }
    } else {
        state
    }
}

/// The sitting after the document was to be written: to its own file
/// without a `file_name`, else to the file of that name. `written` tells
/// whether it was.
pub open spec fn save_finished(
    state: EditorState,
    file_name: Option<Seq<char>>,
    written: bool,
) -> EditorState {
    let saved = written && (file_name is Some || state.view.path is Some);
    let view = if saved {
        ViewState {
            dirty: false,
            needs_redraw: true,
            path: if file_name is Some {
                file_name
            } else {
                state.view.path
            },
            ..state.view
        }
    } else {
        state.view
    };
    with_message(
        EditorState { view, ..state },
        if saved {
            SAVED_MESSAGE@
        } else {
            SAVE_FAILED_MESSAGE@
        },
    )
}

/// The sitting after what `request` asked for was done or has failed.
pub open spec fn request_finished(
    state: EditorState,
    request: RequestModel,
    written: bool,
) -> EditorState {
    match request {
        RequestModel::Nothing => state,
        RequestModel::Save => save_finished(state, None, written),
        RequestModel::SaveAs(name) => with_prompt(
            save_finished(state, Some(name), written),
            PromptType::NoPrompt,
        ),
    }
}

/// What a command makes of the sitting while no prompt is open, and what it
/// asks for.
pub open spec fn after_command_no_prompt(state: EditorState, command: Command) -> (
    EditorState,
    RequestModel,
) {
    if command == Command::System(System::Quit) {
        (quit_requested(state), RequestModel::Nothing)
    } else {
        let reset = quit_times_reset(state);
        match command {
            Command::System(System::Save) => if reset.view.path is Some {
                (reset, RequestModel::Save)
            } else {
                (with_prompt(reset, PromptType::Save), RequestModel::Nothing)
            },
            Command::System(_) => (reset, RequestModel::Nothing),
            Command::Edit(edit) => (
                EditorState { view: after_edit(reset.view, edit), ..reset },
                RequestModel::Nothing,
            ),
            Command::Move(movement) => (
                EditorState { view: after_move(reset.view, movement), ..reset },
                RequestModel::Nothing,
            ),
        }
    }
}

/// What a command makes of the sitting while the user is asked for a file
/// name, and what it asks for.
pub open spec fn after_command_during_save(state: EditorState, command: Command) -> (
    EditorState,
    RequestModel,
) {
    match command {
        Command::System(System::Dismiss) => (
            with_message(with_prompt(state, PromptType::NoPrompt), SAVE_ABORTED_MESSAGE@),
            RequestModel::Nothing,
        ),
        Command::System(_) => (state, RequestModel::Nothing),
        Command::Move(_) => (state, RequestModel::Nothing),
        Command::Edit(Edit::InsertNewline) => (state, RequestModel::SaveAs(state.command_bar.value)),
        Command::Edit(edit) => (
            EditorState {
                command_bar: CommandBarState {
                    value: value_after(state.command_bar.value, edit),
                    needs_redraw: true,
                    ..state.command_bar
                },
                ..state
            },
            RequestModel::Nothing,
        ),
    }
}

/// What a command makes of the sitting, and what it asks for.
pub open spec fn after_command(state: EditorState, command: Command) -> (
    EditorState,
    RequestModel,
) {
    match command {
        Command::System(System::Resize(size)) => (resized(state, size), RequestModel::Nothing),
        _ => match state.prompt_type {
            PromptType::Save => after_command_during_save(state, command),
            PromptType::NoPrompt => after_command_no_prompt(state, command),
        },
    }
}

/// Whether the editor heeds a report of the terminal: a key going down, or
/// a new size.
pub open spec fn is_heeded(event: Event) -> bool {
    match event {
        Event::Key(key) => key.kind == KeyEventKind::Press,
        Event::Resize(_, _) => true,
        Event::Other => false,
    }
}

/// What a report of the terminal makes of the sitting, and what it asks
/// for.
pub open spec fn after_event(state: EditorState, event: Event) -> (EditorState, RequestModel) {
    if is_heeded(event) && command_of(event) is Ok {
        after_command(state, command_of(event)->Ok_0)
    } else {
        (state, RequestModel::Nothing)
    }
}

/// The title for a document of this name.
pub open spec fn title_for(file_name: Seq<char>) -> Seq<char> {
    file_name + " - "@ + NAME@
}

/// The message that the file of this name could not be opened.
pub open spec fn open_failed_message(file_name: Seq<char>) -> Seq<char> {
    "ERROR: 无法打开文件: "@ + file_name
}

/// The sitting after the file at `file_name` was read: it shows the text
/// that the file held, or a message that the file could not be opened.
pub open spec fn file_opened(
    state: EditorState,
    file_name: Seq<char>,
    contents: Option<Seq<char>>,
) -> EditorState {
    match contents {
        Some(text) => EditorState {
            view: ViewState {
                texts: split_lines(text),
                dirty: false,
                path: Some(file_name),
                needs_redraw: true,
                ..state.view
            },
            ..state
        },
        None => with_message(state, open_failed_message(file_name)),
    }
}

/// The sitting after the status bar was told of the document, and the title
/// that the terminal is to be given, if it differs from the one it has.
pub open spec fn status_told(state: EditorState, status: StatusModel) -> (
    EditorState,
    Option<Seq<char>>,
) {
    let told = EditorState {
        status_bar: StatusBarState {
            status,
            needs_redraw: state.status_bar.needs_redraw || status != state.status_bar.status,
            ..state.status_bar
        },
        ..state
    };
    let title = title_for(status.file_name);
    (
        told,
        if title != state.title {
            Some(title)
        } else {
            None
        },
    )
}

/// Whether anything is drawn: the terminal has rows and columns.
pub open spec fn has_screen(state: EditorState) -> bool {
    state.terminal_size.height > 0 && state.terminal_size.width > 0
}

/// Whether the bottom bar is drawn anew when the screen is refreshed.
pub open spec fn bottom_bar_due(state: EditorState, message_expired: bool) -> bool {
    has_screen(state) && if state.prompt_type == PromptType::Save {
        state.command_bar.needs_redraw
    } else {
        message_due(state.message_bar, message_expired)
    }
}

/// What the bottom bar shows: the command bar during a prompt, else the
/// message bar.
pub open spec fn bottom_bar_line(state: EditorState, message_expired: bool) -> Seq<char> {
    if state.prompt_type == PromptType::Save {
        command_line(
            state.command_bar.prompt,
            state.command_bar.value,
            state.command_bar.size.width as int,
        )
    } else {
        message_line(state.message_bar, message_expired)
    }
}

/// Whether the status bar is drawn anew when the screen is refreshed: it is
/// due, and the terminal has a row for it.
pub open spec fn status_bar_due(state: EditorState) -> bool {
    has_screen(state) && state.terminal_size.height > 1 && state.status_bar.needs_redraw
}

/// Whether the text area is drawn anew when the screen is refreshed: it is
/// due, and the terminal has rows for it.
pub open spec fn view_due(state: EditorState) -> bool {
    has_screen(state) && state.terminal_size.height > 2 && state.view.needs_redraw
}

/// Where the caret goes: behind what was typed during a prompt, else to the
/// cursor.
pub open spec fn caret_of(state: EditorState) -> (int, int) {
    if state.prompt_type == PromptType::Save {
        (
            state.terminal_size.height - 1,
            caret_column(
                display_columns(state.command_bar.prompt) as int,
                display_columns(state.command_bar.value) as int,
                state.command_bar.size.width as int,
            ),
        )
    } else {
        (
            saturating_diff(
                state.view.location.line_idx as int,
                state.view.scroll_offset.row as int,
            ),
            saturating_diff(
                column_of(state.view.texts, state.view.location),
                state.view.scroll_offset.col as int,
            ),
        )
    }
}

/// The sitting after the screen was refreshed: what was drawn is no longer
/// due.
pub open spec fn screen_refreshed(state: EditorState, message_expired: bool) -> EditorState {
    if !has_screen(state) {
        state
    } else {
        EditorState {
            command_bar: if state.prompt_type == PromptType::Save {
                CommandBarState { needs_redraw: false, ..state.command_bar }
            } else {
                state.command_bar
            },
            message_bar: if state.prompt_type == PromptType::Save {
                state.message_bar
            } else {
                message_rendered(state.message_bar, message_expired)
            },
            status_bar: if state.terminal_size.height > 1 {
                StatusBarState { needs_redraw: false, ..state.status_bar }
            } else {
                state.status_bar
            },
            view: if state.terminal_size.height > 2 {
                ViewState { needs_redraw: false, ..state.view }
            } else {
                state.view
            },
            ..state
        }
    }
}

/// A part of the screen that is drawn by itself.
#[derive(Copy, Clone, Debug, PartialEq, Eq, Structural)]
pub enum Part {
    /// The bottom row: the command bar during a prompt, else the message
    /// bar.
    BottomBar,
    /// The status bar.
    StatusBar,
    /// The text area.
    TextArea,
}

/// The sitting with `part` due to be drawn again.
pub open spec fn marked_due(state: EditorState, part: Part) -> EditorState {
    match part {
        Part::BottomBar => if state.prompt_type == PromptType::Save {
            EditorState {
                command_bar: CommandBarState { needs_redraw: true, ..state.command_bar },
                ..state
            }
        } else {
            EditorState {
                message_bar: MessageBarState { needs_redraw: true, ..state.message_bar },
                ..state
            }
        },
        Part::StatusBar => EditorState {
            status_bar: StatusBarState { needs_redraw: true, ..state.status_bar },
            ..state
        },
        Part::TextArea => EditorState {
            view: ViewState { needs_redraw: true, ..state.view },
            ..state
        },
    }
}

/// What is to be drawn on screen.
pub struct Frame {
    /// The row of the bottom bar.
    pub bottom_bar_row: RowIdx,
    /// What the bottom bar shows, if it is to be drawn.
    pub bottom_bar: Option<String>,
    /// The row of the status bar, where it is to be drawn.
    pub status_bar_row: RowIdx,
    /// What the status bar shows, if it is to be drawn.
    pub status_bar: Option<String>,
    /// The rows of the text area from the top, if it is to be drawn.
    pub view_rows: Option<Vec<String>>,
    /// Where the caret goes.
    pub caret: Position,
}

/// Whether `frame` shows what a sitting in `state` draws of the parts that
/// do not go by the clock: where the bars stand, the status bar and the text
/// area if each is due, and the caret.
pub open spec fn frame_shows_parts(state: EditorState, frame: Frame) -> bool {
    &&& frame.bottom_bar_row == state.terminal_size.height - 1
    &&& frame.status_bar is Some == status_bar_due(state)
    &&& frame.status_bar is Some ==> frame.status_bar_row == state.terminal_size.height - 2
        && frame.status_bar->0@ == status_line(
        state.status_bar.status,
        state.status_bar.size.width as int,
    )
    &&& frame.view_rows is Some == view_due(state)
    &&& frame.view_rows is Some ==> frame.view_rows->0@.len() == state.view.size.height
        && forall|row: int|
        0 <= row < frame.view_rows->0@.len() ==> (#[trigger] frame.view_rows->0@[row])@
            == row_text(state.view, row)
    &&& (frame.caret.row as int, frame.caret.col as int) == caret_of(state)
}

/// Whether `frame` shows what a sitting in `state` draws of the bottom bar,
/// given whether its message has had its time.
pub open spec fn frame_shows_bottom_bar(
    state: EditorState,
    frame: Frame,
    message_expired: bool,
) -> bool {
    &&& frame.bottom_bar is Some == bottom_bar_due(state, message_expired)
    &&& frame.bottom_bar is Some ==> frame.bottom_bar->0@ == bottom_bar_line(
        state,
        message_expired,
    )
}

/// A sitting at the editor.
pub struct Editor {
    should_quit: bool,
    view: view::View,
    status_bar: StatusBar,
    message_bar: MessageBar,
    command_bar: CommandBar,
    prompt_type: PromptType,
    terminal_size: Size,
    title: String,
    quit_times: u8,
}

impl View for Editor {
    type V = EditorState;

    closed spec fn view(&self) -> EditorState {
        EditorState {
            should_quit: self.should_quit,
            view: self.view@,
            status_bar: self.status_bar@,
            message_bar: self.message_bar@,
            command_bar: self.command_bar@,
            prompt_type: self.prompt_type,
            terminal_size: self.terminal_size,
            title: self.title@,
            quit_times: self.quit_times,
        }
    }
}

impl Editor {
    /// The document and the value typed are well-formed, and the user has
    /// not yet asked to quit often enough.
    pub closed spec fn wf(&self) -> bool {
        &&& self.view.wf()
        &&& self.command_bar.wf()
        &&& self.quit_times < QUIT_TIMES
    }

    /// The sitting before anything has happened.
    pub open spec fn initial() -> EditorState {
        EditorState {
            should_quit: false,
            view: ViewState {
                texts: Seq::empty(),
                dirty: false,
                path: None,
                location: crate::prelude::Location { grapheme_idx: 0, line_idx: 0 },
                scroll_offset: Position { col: 0, row: 0 },
                size: Size { height: 0, width: 0 },
                needs_redraw: false,
            },
            status_bar: StatusBarState {
                status: StatusModel {
                    total_lines: 0,
                    current_line_idx: 0,
                    is_modified: false,
                    file_name: Seq::empty(),
                },
                needs_redraw: false,
                size: Size { height: 0, width: 0 },
            },
            message_bar: MessageBarState { text: Seq::empty(), needs_redraw: false, cleared: false },
            command_bar: CommandBarState {
                prompt: Seq::empty(),
                value: Seq::empty(),
                needs_redraw: false,
                size: Size { height: 0, width: 0 },
            },
            prompt_type: PromptType::NoPrompt,
            terminal_size: Size { height: 0, width: 0 },
            title: Seq::empty(),
            quit_times: 0,
        }
    }

    /// A sitting in a terminal of extent `size`, with an empty document and
    /// the message that tells the keys.
    pub fn new(size: Size) -> (editor: Self)
        ensures
            editor.wf(),
            editor@ == with_message(resized(Self::initial(), size), HELP_MESSAGE@),
    {
        let mut editor = Editor {
            should_quit: false,
            view: view::View::default(),
            status_bar: StatusBar::default(),
            message_bar: MessageBar::default(),
            command_bar: CommandBar::default(),
            prompt_type: PromptType::default(),
            terminal_size: Size::default(),
            title: String::new(),
            quit_times: 0,
        };
        editor.handle_resize_command(size);
        editor.update_message(HELP_MESSAGE);
        editor
    }

    /// Takes in the outcome of reading the file at `file_name`: its text, or
    /// nothing if it could not be read.
    pub fn load(&mut self, file_name: &str, contents: Option<&str>)
        requires
            old(self).wf(),
        ensures
            final(self).wf(),
            final(self)@ == file_opened(
                old(self)@,
                file_name@,
                match contents {
                    Some(text) => Some(text@),
                    None => None,
                },
            ),
    {
        match contents {
            Some(text) => {
                self.view.load(file_name, text);
            },
            None => {
                let mut message: String = String::from_str("ERROR: 无法打开文件: ");
                message.append(file_name);
                self.update_message(message.as_str());
            },
        }
    }

    /// Whether the sitting is over.
    pub fn should_quit(&self) -> (over: bool)
        ensures
            over == self@.should_quit,
    {
        self.should_quit
    }

    /// The text area.
    pub fn get_view(&self) -> (area: &view::View)
        ensures
            area@ == self@.view,
            self.wf() ==> area.wf(),
    {
        &self.view
    }

    /// Says what is to be drawn, given whether the message has had its
    /// time; nothing if the terminal has no room at all. What is drawn is
    /// then no longer due.
    pub fn refresh_screen_when(&mut self, message_expired: bool) -> (frame: Option<Frame>)
        requires
            old(self).wf(),
        ensures
            final(self).wf(),
            final(self)@ == screen_refreshed(old(self)@, message_expired),
            frame is Some == has_screen(old(self)@),
            frame is Some ==> frame_shows_parts(old(self)@, frame->0),
            frame is Some ==> frame_shows_bottom_bar(old(self)@, frame->0, message_expired),
    {
        if self.terminal_size.height == 0 || self.terminal_size.width == 0 {
            return None;
        }
        let bottom_bar_row: usize = self.terminal_size.height.saturating_sub(1);
        let bottom_bar: Option<String> = if self.in_prompt() {
            self.command_bar.render()
        } else {
            self.message_bar.render_when(message_expired)
        };
        let status_bar_row: usize = self.terminal_size.height.saturating_sub(2);
        let status_bar: Option<String> = if self.terminal_size.height > 1 {
            self.status_bar.render()
        } else {
            None
        };
        let view_rows: Option<Vec<String>> = if self.terminal_size.height > 2 {
            self.view.render()
        } else {
            None
        };
        let caret: Position = if self.in_prompt() {
            Position { row: bottom_bar_row, col: self.command_bar.caret_position_col() }
        } else {
            self.view.caret_position()
        };
        Some(Frame { bottom_bar_row, bottom_bar, status_bar_row, status_bar, view_rows, caret })
    }

    /// Says what is to be drawn, by the clock of the machine; nothing if
    /// the terminal has no room at all. The clock decides one thing only:
    /// whether the message has had its time. The bottom bar and the sitting
    /// afterwards are as `refresh_screen_when` gives them for that answer.
    pub fn refresh_screen(&mut self) -> (frame: Option<Frame>)
        requires
            old(self).wf(),
        ensures
            final(self).wf(),
            frame is Some == has_screen(old(self)@),
            frame is Some ==> frame_shows_parts(old(self)@, frame->0),
            exists|message_expired: bool|
                final(self)@ == #[trigger] screen_refreshed(old(self)@, message_expired) && (
                frame is Some ==> frame_shows_bottom_bar(old(self)@, frame->0, message_expired)),
    {
        let message_expired: bool = self.message_bar.is_expired();
        self.refresh_screen_when(message_expired)
    }

    /// Takes in that `part`, handed out to be drawn, could not be drawn: it
    /// is due again.
    pub fn drawing_failed(&mut self, part: Part)
        requires
            old(self).wf(),
        ensures
            final(self).wf(),
            final(self)@ == marked_due(old(self)@, part),
    {
        match part {
            Part::BottomBar => {
                if self.in_prompt() {
                    self.command_bar.set_needs_redraw(true);
                } else {
                    self.message_bar.set_needs_redraw(true);
                }
            },
            Part::StatusBar => self.status_bar.set_needs_redraw(true),
            Part::TextArea => self.view.set_needs_redraw(true),
        }
    }

    /// Tells the status bar of the document as `status` describes it, and
    /// returns the title that the terminal is to be given, if it differs
    /// from the one it has.
    pub fn tell_status(&mut self, status: DocumentStatus) -> (title: Option<String>)
        requires
            old(self).wf(),
        ensures
            final(self).wf(),
            final(self)@ == status_told(old(self)@, status@).0,
            match title {
                Some(title) => status_told(old(self)@, status@).1 == Some(title@),
                None => status_told(old(self)@, status@).1 is None,
            },
    {
        let mut title: String = status.file_name.clone();
        title.append(" - ");
        title.append(NAME);
        self.status_bar.update_status(status);
        if title != self.title {
            Some(title)
        } else {
            None
        }
    }

    /// Tells the status bar of the document, and returns the title that the
    /// terminal is to be given, if it differs from the one it has. The
    /// file's name in both is as `FileInfo::to_string` gives it.
    pub fn refresh_status(&mut self) -> (title: Option<String>)
        requires
            old(self).wf(),
        ensures
            final(self).wf(),
            final(self)@.status_bar.size == old(self)@.status_bar.size,
            final(self)@.status_bar.status.total_lines == old(self)@.view.texts.len(),
            final(self)@.status_bar.status.current_line_idx == old(self)@.view.location.line_idx,
            final(self)@.status_bar.status.is_modified == old(self)@.view.dirty,
            old(self)@.view.path is None ==> final(self)@.status_bar.status.file_name
                == "[default]"@,
            final(self)@ == status_told(old(self)@, final(self)@.status_bar.status).0,
            match title {
                Some(title) => status_told(old(self)@, final(self)@.status_bar.status).1 == Some(
                    title@,
                ),
                None => status_told(old(self)@, final(self)@.status_bar.status).1 is None,
            },
    {
        let status: DocumentStatus = self.view.get_status();
        self.tell_status(status)
    }

    /// Records that the terminal was given `title`.
    pub fn set_title(&mut self, title: String)
        requires
            old(self).wf(),
        ensures
            final(self).wf(),
            final(self)@ == (EditorState { title: title@, ..old(self)@ }),
    {
        self.title = title;
    }

    /// Takes a report of the terminal: a key going down or a new size is
    /// turned into a command and carried out; anything else is passed over.
    pub fn evaluate_event(&mut self, event: Event) -> (request: Request)
        requires
            old(self).wf(),
        ensures
            final(self).wf(),
            (final(self)@, request@) == after_event(old(self)@, event),
    {
        let should_process: bool = match event {
            Event::Key(key) => matches!(key.kind, KeyEventKind::Press),
            Event::Resize(_, _) => true,
            Event::Other => false,
        };
        if should_process {
            match Command::try_from(event) {
                Ok(command) => {
                    return self.process_command(command);
                },
                Err(_) => {},
            }
        }
        Request::Nothing
    }

    /// Carries out a command.
    pub fn process_command(&mut self, command: Command) -> (request: Request)
        requires
            old(self).wf(),
        ensures
            final(self).wf(),
            (final(self)@, request@) == after_command(old(self)@, command),
    {
        match command {
            Command::System(System::Resize(size)) => {
                self.handle_resize_command(size);
                Request::Nothing
            },
            _ => match self.prompt_type {
                PromptType::Save => self.process_command_during_save(command),
                PromptType::NoPrompt => self.process_command_no_prompt(command),
            },
        }
    }

    /// Carries out a command while no prompt is open.
    fn process_command_no_prompt(&mut self, command: Command) -> (request: Request)
        requires
            old(self).wf(),
        ensures
            final(self).wf(),
            (final(self)@, request@) == after_command_no_prompt(old(self)@, command),
    {
        if matches!(command, Command::System(System::Quit)) {
            self.handle_quit_command();
            return Request::Nothing;
        }
        self.reset_quit_times();
        match command {
            Command::System(System::Quit) | Command::System(System::Resize(_)) | Command::System(
                System::Dismiss,
            ) => Request::Nothing,
            Command::System(System::Save) => self.handle_save_command(),
            Command::Edit(edit_command) => {
                self.view.handle_edit_command(edit_command);
                Request::Nothing
            },
            Command::Move(move_command) => {
                self.view.handle_move_command(move_command);
                Request::Nothing
            },
        }
    }

    /// Fits the parts into a terminal of extent `size`.
    pub fn handle_resize_command(&mut self, size: Size)
        requires
            old(self).wf(),
        ensures
            final(self).wf(),
            final(self)@ == resized(old(self)@, size),
    {
        self.terminal_size = size;
        self.view.resize(Size { height: size.height.saturating_sub(2), width: size.width });
        let bar_size: Size = Size { height: 1, width: size.width };
        self.message_bar.resize(bar_size);
        self.status_bar.resize(bar_size);
        self.command_bar.resize(bar_size);
    }

    /// Takes a request to quit.
    fn handle_quit_command(&mut self)
        requires
            old(self).wf(),
        ensures
            final(self).wf(),
            final(self)@ == quit_requested(old(self)@),
    {
        let modified: bool = self.view.get_status().is_modified;
        if !modified || self.quit_times + 1 == QUIT_TIMES {
            self.should_quit = true;
        } else {
            let mut message: String = String::from_str("WARNING! 文件有未保存的更改。再按 Ctrl-Q ");
            let left: u8 = QUIT_TIMES - self.quit_times - 1;
            message.append(decimal_string(left as usize).as_str());
            message.append(" 次以退出。");
            self.update_message(message.as_str());
            self.quit_times += 1;
        }
    }

    /// Starts the count of requests to quit anew.
    fn reset_quit_times(&mut self)
        requires
            old(self).wf(),
        ensures
            final(self).wf(),
            final(self)@ == quit_times_reset(old(self)@),
    {
        if self.quit_times > 0 {
            self.quit_times = 0;
            proof {
                reveal_strlit("");
                assert(""@ =~= Seq::<char>::empty());
            }
            self.update_message("");
        }
    }

    /// Takes a request to save: asks for the document to be written if it
    /// has a file, else asks the user for a file name.
    fn handle_save_command(&mut self) -> (request: Request)
        requires
            old(self).wf(),
        ensures
            final(self).wf(),
            old(self)@.view.path is Some ==> final(self)@ == old(self)@ && request@
                == RequestModel::Save,
            old(self)@.view.path is None ==> final(self)@ == with_prompt(
                old(self)@,
                PromptType::Save,
            ) && request@ == RequestModel::Nothing,
    {
        if self.view.is_file_loaded() {
            Request::Save
        } else {
            self.set_prompt(PromptType::Save);
            Request::Nothing
        }
    }

    /// Carries out a command while the user is asked for a file name.
    fn process_command_during_save(&mut self, command: Command) -> (request: Request)
        requires
            old(self).wf(),
        ensures
            final(self).wf(),
            (final(self)@, request@) == after_command_during_save(old(self)@, command),
    {
        match command {
            Command::System(System::Dismiss) => {
                self.set_prompt(PromptType::NoPrompt);
                self.update_message(SAVE_ABORTED_MESSAGE);
                Request::Nothing
            },
            Command::System(_) => Request::Nothing,
            Command::Move(_) => Request::Nothing,
            Command::Edit(Edit::InsertNewline) => Request::SaveAs(self.command_bar.value()),
            Command::Edit(edit_command) => {
                self.command_bar.handle_edit_command(edit_command);
                Request::Nothing
            },
        }
    }

    /// Takes in whether the document was written, to the file at
    /// `file_name` or, without one, to its own, and tells the user.
    pub fn save(&mut self, file_name: Option<&str>, written: bool)
        requires
            old(self).wf(),
        ensures
            final(self).wf(),
            final(self)@ == save_finished(
                old(self)@,
                match file_name {
                    Some(name) => Some(name@),
                    None => None,
                },
                written,
            ),
    {
        let saved: bool = match file_name {
            Some(name) => self.view.save_as(name, written).is_ok(),
            None => self.view.save(written).is_ok(),
        };
        if saved {
            self.update_message(SAVED_MESSAGE);
        } else {
            self.update_message(SAVE_FAILED_MESSAGE);
        }
    }

    /// Takes in whether what `request` asked for was done.
    pub fn finish_request(&mut self, request: &Request, written: bool)
        requires
            old(self).wf(),
        ensures
            final(self).wf(),
            final(self)@ == request_finished(old(self)@, request@, written),
    {
        match request {
            Request::Nothing => {},
            Request::Save => self.save(None, written),
            Request::SaveAs(name) => {
                self.save(Some(name.as_str()), written);
                self.set_prompt(PromptType::NoPrompt);
            },
        }
    }

    /// Leaves a search: the bottom bar shows messages again.
    pub fn process_command_during_search(&mut self, command: Command)
        requires
            old(self).wf(),
        ensures
            final(self).wf(),
            final(self)@ == with_prompt(old(self)@, PromptType::NoPrompt),
    {
        self.set_prompt(PromptType::NoPrompt);
    }

    /// Shows `new_message` in the message bar.
    pub fn update_message(&mut self, new_message: &str)
        requires
            old(self).wf(),
        ensures
            final(self).wf(),
            final(self)@ == with_message(old(self)@, new_message@),
    {
        self.message_bar.update_message(new_message);
    }

    /// Whether the user is being asked something.
    pub fn in_prompt(&self) -> (prompt: bool)
        ensures
            prompt == (self@.prompt_type == PromptType::Save),
    {
        self.prompt_type.is_prompt()
    }

    /// Puts the bottom bar to a new use.
    pub fn set_prompt(&mut self, prompt_type: PromptType)
        requires
            old(self).wf(),
        ensures
            final(self).wf(),
            final(self)@ == with_prompt(old(self)@, prompt_type),
    {
        match prompt_type {
            PromptType::NoPrompt => self.message_bar.set_needs_redraw(true),
            PromptType::Save => self.command_bar.set_prompt(SAVE_PROMPT),
        }
        self.command_bar.clear_value();
        self.prompt_type = prompt_type;
    }
}

} // verus!
