//! What the user can ask of the editor, and which key asks for what.

pub mod edit;
pub mod key;
pub mod movecommand;
pub mod system;

pub use edit::Edit;
pub use key::{Event, KeyCode, KeyEvent, KeyEventKind, KeyModifiers, Unsupported};
pub use movecommand::Move;
pub use system::System;

use crate::prelude::Size;
use edit::edit_of;
use movecommand::move_of;
use system::system_of;
use vstd::prelude::*;

verus! {

/// Anything the user can ask of the editor.
#[derive(Copy, Clone, Debug, PartialEq, Eq, Structural)]
pub enum Command {
    Move(Move),
    Edit(Edit),
    System(System),
}

/// The command that a report of the terminal stands for. A key is tried as
/// a change to the text, then as a movement, then as a command to the
/// editor. A new size is a command to resize.
pub open spec fn command_of(event: Event) -> Result<Command, Unsupported> {
    match event {
        Event::Key(key) => match edit_of(key) {
            Ok(edit) => Ok(Command::Edit(edit)),
            Err(_) => match move_of(key) {
                Ok(movement) => Ok(Command::Move(movement)),
                Err(_) => match system_of(key) {
                    Ok(system) => Ok(Command::System(system)),
                    Err(_) => Err(Unsupported::Key),
                },
            },
        },
        Event::Resize(width, height) => Ok(
            Command::System(System::Resize(Size { height: height as usize, width: width as usize })),
        ),
        Event::Other => Err(Unsupported::Event),
    }
}

impl Command {
    /// The command that `event` stands for.
    pub fn try_from(event: Event) -> (command: Result<Self, Unsupported>)
        ensures
            command == command_of(event),
    {
        match event {
            Event::Key(key) => match Edit::try_from(key) {
                Ok(edit) => Ok(Command::Edit(edit)),
                Err(_) => match Move::try_from(key) {
                    Ok(movement) => Ok(Command::Move(movement)),
                    Err(_) => match System::try_from(key) {
                        Ok(system) => Ok(Command::System(system)),
                        Err(_) => Err(Unsupported::Key),
                    },
                },
            },
            Event::Resize(width, height) => Ok(
                Command::System(
                    System::Resize(Size { height: height as usize, width: width as usize }),
                ),
            ),
            Event::Other => Err(Unsupported::Event),
        }
    }
}

} // verus!
