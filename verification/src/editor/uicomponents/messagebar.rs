//! The bar that shows a message for a while.

use crate::prelude::Size;
use std::string::String;
use std::time::{Duration, Instant};
use vstd::prelude::*;

verus! {

/// How long a message shows, in nanoseconds: ten seconds.
pub const LIFETIME_NANOS: u128 = 10_000_000_000;

/// A point in time, as the clock of the machine gives it.
#[verifier::external_type_specification]
#[verifier::external_body]
pub struct ExInstant(Instant);

/// `Instant::now`: the present moment. Nothing is known of it.
pub assume_specification[ Instant::now ]() -> (now: Instant)
;

/// `Instant::duration_since`: the time from `earlier` to `later`, or none if
/// `earlier` is the later of the two. Nothing is claimed of it.
pub assume_specification[ Instant::duration_since ](later: &Instant, earlier: Instant) -> (elapsed:
    Duration)
;

/// `Duration::as_nanos`: the span in nanoseconds. Nothing is claimed of it.
pub assume_specification[ Duration::as_nanos ](duration: &Duration) -> (nanos: u128)
;

/// Whether a message that was set `elapsed_nanos` nanoseconds ago has had
/// its time.
pub fn outlived(elapsed_nanos: u128) -> (expired: bool)
    ensures
        expired == (elapsed_nanos > LIFETIME_NANOS),
{
    elapsed_nanos > LIFETIME_NANOS
}

/// A message and the moment it was set.
struct Message {
    text: String,
    time: Instant,
}

impl Message {
    /// Whether the message was set more than ten seconds ago, by the clock
    /// of the machine.
    fn is_expired(&self) -> (expired: bool) {
        let elapsed: Duration = Instant::now().duration_since(self.time);
        outlived(elapsed.as_nanos())
    }

    /// No text, set now.
    fn default() -> (message: Self)
        ensures
            message.text@ == Seq::<char>::empty(),
    {
        Message { text: String::new(), time: Instant::now() }
    }
}

/// All that a message bar holds, but for the moment the message was set.
pub struct MessageBarState {
    /// The text of the message.
    pub text: Seq<char>,
    /// Whether the bar was asked to be drawn again.
    pub needs_redraw: bool,
    /// Whether the bar was drawn empty since its message had its time.
    pub cleared: bool,
}

/// The message bar.
pub struct MessageBar {
    current_message: Message,
    needs_redraw: bool,
    cleared_after_expiry: bool,
}

impl View for MessageBar {
    type V = MessageBarState;

    open spec fn view(&self) -> MessageBarState {
        MessageBarState {
            text: self.text(),
            needs_redraw: self.redraw_pending(),
            cleared: self.cleared(),
        }
    }
}

/// What the bar prints when drawn: its message, or nothing once the message
/// has had its time.
pub open spec fn message_line(state: MessageBarState, expired: bool) -> Seq<char> {
    if expired {
        Seq::empty()
    } else {
        state.text
    }
}

/// Whether the bar is to be drawn again: if it was asked to, or if the
/// message has expired and the bar was not drawn empty since.
pub open spec fn message_due(state: MessageBarState, expired: bool) -> bool {
    (!state.cleared && expired) || state.needs_redraw
}

/// The bar after it was given the chance to draw itself.
pub open spec fn message_rendered(state: MessageBarState, expired: bool) -> MessageBarState {
    if message_due(state, expired) {
        MessageBarState { needs_redraw: false, cleared: state.cleared || expired, ..state }
    } else {
        state
    }
}

impl MessageBar {
    /// Whether the message has had its time, by the clock of the machine.
    pub fn is_expired(&self) -> (expired: bool) {
        self.current_message.is_expired()
    }

    /// The line to print if the bar is to be drawn again, given whether the
    /// message has had its time. The bar is then no longer to be drawn
    /// again.
    pub fn render_when(&mut self, expired: bool) -> (line: Option<String>)
        ensures
            final(self)@ == message_rendered(old(self)@, expired),
            line is Some == message_due(old(self)@, expired),
            line is Some ==> line->0@ == message_line(old(self)@, expired),
    {
        if self.needs_redraw_when(expired) {
            let line: String = self.draw_when(expired);
            self.set_needs_redraw(false);
            Some(line)
        } else {
            None
        }
    }

    /// The text of the message.
    pub closed spec fn text(&self) -> Seq<char> {
        self.current_message.text@
    }

    /// Whether the bar was asked to be drawn again.
    pub closed spec fn redraw_pending(&self) -> bool {
        self.needs_redraw
    }

    /// Whether the bar was drawn empty since its message had its time.
    pub closed spec fn cleared(&self) -> bool {
        self.cleared_after_expiry
    }

    /// Shows `new_message` from now on; the bar is to be drawn again.
    pub fn update_message(&mut self, new_message: &str)
        ensures
            final(self).text() == new_message@,
            final(self).redraw_pending(),
            !final(self).cleared(),
    {
        self.current_message = Message { text: new_message.to_owned(), time: Instant::now() };
        self.cleared_after_expiry = false;
        self.set_needs_redraw(true);
    }

    /// Marks the bar as to be drawn again, or as drawn.
    pub fn set_needs_redraw(&mut self, value: bool)
        ensures
            final(self).text() == old(self).text(),
            final(self).cleared() == old(self).cleared(),
            final(self).redraw_pending() == value,
    {
        self.needs_redraw = value;
    }

    /// Whether the bar is to be drawn again, given whether its message has
    /// had its time: if it was asked to, or if the message has expired and
    /// the bar was not drawn empty since.
    pub fn needs_redraw_when(&self, expired: bool) -> (needed: bool)
        ensures
            needed == ((!self.cleared() && expired) || self.redraw_pending()),
    {
        (!self.cleared_after_expiry && expired) || self.needs_redraw
    }

    /// Whether the bar is to be drawn again, by the clock of the machine.
    pub fn needs_redraw(&self) -> (needed: bool)
        ensures
            self.redraw_pending() ==> needed,
            needed ==> self.redraw_pending() || !self.cleared(),
    {
        let expired: bool = self.current_message.is_expired();
        self.needs_redraw_when(expired)
    }

    /// The bar has no extent of its own to keep.
    pub fn set_size(&mut self, size: Size)
        ensures
            *final(self) == *old(self),
    {
    }

    /// Marks the bar as to be drawn again.
    pub fn resize(&mut self, size: Size)
        ensures
            final(self).text() == old(self).text(),
            final(self).cleared() == old(self).cleared(),
            final(self).redraw_pending(),
    {
        self.set_size(size);
        self.set_needs_redraw(true);
    }

    /// What to print, given whether the message has had its time: the
    /// message, or nothing once it has expired. The bar then knows that it
    /// was drawn empty.
    pub fn draw_when(&mut self, expired: bool) -> (line: String)
        ensures
            final(self).text() == old(self).text(),
            final(self).redraw_pending() == old(self).redraw_pending(),
            final(self).cleared() == (old(self).cleared() || expired),
            line@ == if expired {
                Seq::<char>::empty()
            } else {
                old(self).text()
            },
    {
        if expired {
            self.cleared_after_expiry = true;
            String::new()
        } else {
            self.current_message.text.clone()
        }
    }

    /// What to print, by the clock of the machine: the message, or nothing
    /// once it has expired.
    pub fn draw(&mut self) -> (line: String)
        ensures
            final(self).text() == old(self).text(),
            final(self).redraw_pending() == old(self).redraw_pending(),
            old(self).cleared() ==> final(self).cleared(),
            line@ == old(self).text() || line@ == Seq::<char>::empty(),
            line@ != old(self).text() ==> final(self).cleared(),
    {
        let expired: bool = self.current_message.is_expired();
        self.draw_when(expired)
    }
}

impl Default for MessageBar {
    /// A bar with an empty message, set now.
    fn default() -> (bar: Self)
        ensures
            bar.text() == Seq::<char>::empty(),
            !bar.redraw_pending(),
            !bar.cleared(),
    {
        MessageBar {
            current_message: Message::default(),
            needs_redraw: false,
            cleared_after_expiry: false,
        }
    }
}

} // verus!
