//! Commands that move the cursor.

use super::key::{KeyCode, KeyEvent, Unsupported, NONE};
use vstd::prelude::*;

verus! {

/// A movement of the cursor.
#[derive(Copy, Clone, Debug, PartialEq, Eq, Structural)]
pub enum Move {
    PageUp,
    PageDown,
    StartOfLine,
    EndOfLine,
    Up,
    Left,
    Right,
    Down,
}

/// The movement that a key stands for: the arrow keys, the page keys, Home
/// and End, each without modifiers.
pub open spec fn move_of(event: KeyEvent) -> Result<Move, Unsupported> {
    if event.modifiers.bits == NONE {
        match event.code {
            KeyCode::Up => Ok(Move::Up),
            KeyCode::Down => Ok(Move::Down),
            KeyCode::Left => Ok(Move::Left),
            KeyCode::Right => Ok(Move::Right),
            KeyCode::PageDown => Ok(Move::PageDown),
            KeyCode::PageUp => Ok(Move::PageUp),
            KeyCode::Home => Ok(Move::StartOfLine),
            KeyCode::End => Ok(Move::EndOfLine),
            _ => Err(Unsupported::Key),
        }
    } else {
        Err(Unsupported::Modifiers)
    }
}

impl Move {
    /// The movement that `event` stands for.
    pub fn try_from(event: KeyEvent) -> (command: Result<Self, Unsupported>)
        ensures
            command == move_of(event),
    {
        if event.modifiers.bits == NONE {
            match event.code {
                KeyCode::Up => Ok(Move::Up),
                KeyCode::Down => Ok(Move::Down),
                KeyCode::Left => Ok(Move::Left),
                KeyCode::Right => Ok(Move::Right),
                KeyCode::PageDown => Ok(Move::PageDown),
                KeyCode::PageUp => Ok(Move::PageUp),
                KeyCode::Home => Ok(Move::StartOfLine),
                KeyCode::End => Ok(Move::EndOfLine),
                _ => Err(Unsupported::Key),
            }
        } else {
            Err(Unsupported::Modifiers)
        }
    }
}

} // verus!
