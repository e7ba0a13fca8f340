//! The areas of the screen and what each of them shows.

pub mod commandbar;
pub mod messagebar;
pub mod statusbar;
pub mod view;

pub use commandbar::CommandBar;
pub use messagebar::MessageBar;
pub use statusbar::StatusBar;
pub use view::View;
