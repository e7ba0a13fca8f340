//! What the terminal reports: keys pressed and changes of its size.

use vstd::prelude::*;

verus! {

/// Which key was pressed.
#[derive(Copy, Clone, Debug, PartialEq, Eq, Structural)]
pub enum KeyCode {
    Char(char),
    Up,
    Down,
    Left,
    Right,
    PageUp,
    PageDown,
    Home,
    End,
    Tab,
    Enter,
    Backspace,
    Delete,
    Esc,
    /// Any key that the editor gives no meaning to.
    Other,
}

/// The modifier keys held down with a key, one bit for each.
#[derive(Copy, Clone, Debug, PartialEq, Eq, Structural)]
pub struct KeyModifiers {
    pub bits: u8,
}

/// The bits of no modifier key.
pub const NONE: u8 = 0;

/// The bits of the shift key alone.
pub const SHIFT: u8 = 1;

/// The bits of the control key alone.
pub const CONTROL: u8 = 2;

/// Whether a key went down, is held, or came up.
#[derive(Copy, Clone, Debug, PartialEq, Eq, Structural)]
pub enum KeyEventKind {
    Press,
    Repeat,
    Release,
}

/// One report of the keyboard.
#[derive(Copy, Clone, Debug, PartialEq, Eq, Structural)]
pub struct KeyEvent {
    pub code: KeyCode,
    pub modifiers: KeyModifiers,
    pub kind: KeyEventKind,
}

/// One report of the terminal.
#[derive(Copy, Clone, Debug, PartialEq, Eq, Structural)]
pub enum Event {
    /// A report of the keyboard.
    Key(KeyEvent),
    /// The terminal now has this many columns and rows.
    Resize(u16, u16),
    /// Any report that the editor gives no meaning to.
    Other,
}

/// Why a report stands for no command.
#[derive(Copy, Clone, Debug, PartialEq, Eq, Structural)]
pub enum Unsupported {
    /// The key means nothing with these modifiers, or at all.
    Key,
    /// The modifiers fit no command of this kind.
    Modifiers,
    /// The report is neither of a key nor of a new size.
    Event,
}

} // verus!
