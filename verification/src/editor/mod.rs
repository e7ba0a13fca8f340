//! The editor: its parts, and what each command and each report of the
//! terminal makes of them.

pub mod command;
pub mod documentstatus;
pub mod line;
pub mod session;
pub mod uicomponents;

pub use documentstatus::DocumentStatus;
pub use line::Line;
pub use session::{Editor, Frame, Part, PromptType, Request};
