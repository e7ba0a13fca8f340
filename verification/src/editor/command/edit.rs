//! Commands that change the text.

use super::key::{KeyCode, KeyEvent, Unsupported, NONE, SHIFT};
use vstd::prelude::*;

verus! {

/// A change to the text at the cursor.
#[derive(Copy, Clone, Debug, PartialEq, Eq, Structural)]
pub enum Edit {
    /// Put a character in.
    Insert(char),
    /// Break the line.
    InsertNewline,
    /// Delete what stands at the cursor.
    Delete,
    /// Delete what stands before the cursor.
    DeleteBackward,
}

/// The change that a key stands for: a character, with or without shift,
/// puts that character in; Tab puts a tab in; Enter breaks the line;
/// Backspace and Delete delete. The last four take no modifiers.
pub open spec fn edit_of(event: KeyEvent) -> Result<Edit, Unsupported> {
    match event.code {
        KeyCode::Char(c) => if event.modifiers.bits == NONE || event.modifiers.bits == SHIFT {
            Ok(Edit::Insert(c))
        } else {
            Err(Unsupported::Key)
        },
        KeyCode::Tab => if event.modifiers.bits == NONE {
            Ok(Edit::Insert('\t'))
        } else {
            Err(Unsupported::Key)
        },
        KeyCode::Enter => if event.modifiers.bits == NONE {
            Ok(Edit::InsertNewline)
        } else {
            Err(Unsupported::Key)
        },
        KeyCode::Backspace => if event.modifiers.bits == NONE {
            Ok(Edit::DeleteBackward)
        } else {
            Err(Unsupported::Key)
        },
        KeyCode::Delete => if event.modifiers.bits == NONE {
            Ok(Edit::Delete)
        } else {
            Err(Unsupported::Key)
        },
        _ => Err(Unsupported::Key),
    }
}

impl Edit {
    /// The change that `event` stands for.
    pub fn try_from(event: KeyEvent) -> (command: Result<Self, Unsupported>)
        ensures
            command == edit_of(event),
    {
        let plain: bool = event.modifiers.bits == NONE;
        let shifted: bool = event.modifiers.bits == SHIFT;
        match event.code {
            KeyCode::Char(c) => if plain || shifted {
                Ok(Edit::Insert(c))
            } else {
                Err(Unsupported::Key)
            },
            KeyCode::Tab => if plain {
                Ok(Edit::Insert('\t'))
            } else {
                Err(Unsupported::Key)
            },
            KeyCode::Enter => if plain {
                Ok(Edit::InsertNewline)
            } else {
                Err(Unsupported::Key)
            },
            KeyCode::Backspace => if plain {
                Ok(Edit::DeleteBackward)
            } else {
                Err(Unsupported::Key)
            },
            KeyCode::Delete => if plain {
                Ok(Edit::Delete)
            } else {
                Err(Unsupported::Key)
            },
            _ => Err(Unsupported::Key),
        }
    }
}

} // verus!
