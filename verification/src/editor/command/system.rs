//! Commands to the editor itself.

use super::key::{KeyCode, KeyEvent, Unsupported, CONTROL, NONE};
use crate::prelude::Size;
use vstd::prelude::*;

verus! {

/// A command to the editor itself.
#[derive(Copy, Clone, Debug, PartialEq, Eq, Structural)]
pub enum System {
    Save,
    Resize(Size),
    Quit,
    Dismiss,
}

/// The command that a key stands for: Control-Q quits, Control-S saves,
/// Escape alone dismisses.
pub open spec fn system_of(event: KeyEvent) -> Result<System, Unsupported> {
    if event.modifiers.bits == CONTROL {
        match event.code {
            KeyCode::Char(c) => if c == 'q' {
                Ok(System::Quit)
            } else if c == 's' {
                Ok(System::Save)
            } else {
                Err(Unsupported::Key)
            },
            _ => Err(Unsupported::Key),
        }
    } else if event.modifiers.bits == NONE && event.code == KeyCode::Esc {
        Ok(System::Dismiss)
    } else {
        Err(Unsupported::Modifiers)
    }
}

impl System {
    /// The command that `event` stands for.
    pub fn try_from(event: KeyEvent) -> (command: Result<Self, Unsupported>)
        ensures
            command == system_of(event),
    {
        if event.modifiers.bits == CONTROL {
            match event.code {
                KeyCode::Char('q') => Ok(System::Quit),
                KeyCode::Char('s') => Ok(System::Save),
                _ => Err(Unsupported::Key),
            }
        } else if event.modifiers.bits == NONE && matches!(event.code, KeyCode::Esc) {
            Ok(System::Dismiss)
        } else {
            Err(Unsupported::Modifiers)
        }
    }
}

} // verus!
