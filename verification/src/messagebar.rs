//! The message bar: one row that shows a message for a while.

use crate::size::Size;
use crate::uicomponent::{rows_shown, RenderedRow, UIComponent};
use vstd::prelude::*;

verus! {

/// How long a message is shown, in milliseconds.
pub const DEFAULT_DURATION: u64 = 5000;

/// Whether a message shown since `shown_since` has been shown for longer
/// than it is meant to be at the time `now`.
pub open spec fn has_expired(shown_since: u64, now: u64) -> bool {
    now - shown_since > DEFAULT_DURATION
}

struct Message {
    text: String,
    time: u64,
}

/// The message bar. It does not read the clock: it is told the time, in
/// milliseconds since some fixed moment.
pub struct MessageBar {
    current_message: Message,
    needs_redraw: bool,
    cleared_after_expiry: bool,
    now: u64,
}

impl MessageBar {
    /// The message.
    pub closed spec fn text(&self) -> Seq<char> {
        self.current_message.text@
    }

    /// The time at which the message was given.
    pub closed spec fn shown_since(&self) -> u64 {
        self.current_message.time
    }

    /// The time the bar was last told.
    pub closed spec fn time(&self) -> u64 {
        self.now
    }

    /// Whether the bar was marked as out of date.
    pub closed spec fn is_marked(&self) -> bool {
        self.needs_redraw
    }

    /// Whether the bar was drawn empty after its message expired.
    pub closed spec fn is_cleared(&self) -> bool {
        self.cleared_after_expiry
    }

    /// Whether the message has been shown for longer than it is meant to
    /// be.
    pub open spec fn is_expired(&self) -> bool {
        has_expired(self.shown_since(), self.time())
    }

    /// Tells the bar the time.
    pub fn set_time(&mut self, now: u64)
        ensures
            final(self).time() == now,
            final(self).text() == old(self).text(),
            final(self).shown_since() == old(self).shown_since(),
            final(self).is_marked() == old(self).is_marked(),
            final(self).is_cleared() == old(self).is_cleared(),
    {
        self.now = now;
    }

    /// Shows `new_message` from now on.
    pub fn update_message(&mut self, new_message: &str)
        ensures
            final(self).text() == new_message@,
            final(self).shown_since() == old(self).time(),
            final(self).time() == old(self).time(),
            final(self).is_marked(),
            !final(self).is_cleared(),
    {
        self.current_message = Message { text: String::from_str(new_message), time: self.now };
        self.cleared_after_expiry = false;
        self.set_needs_redraw(true);
    }

    fn message_is_expired(&self) -> (expired: bool)
        ensures
            expired == self.is_expired(),
    {
        self.now.saturating_sub(self.current_message.time) > DEFAULT_DURATION
    }
}

impl Default for MessageBar {
    /// The bar without a message, at time 0.
    fn default() -> (bar: MessageBar)
        ensures
            bar.text() == Seq::<char>::empty(),
            bar.shown_since() == 0,
            bar.time() == 0,
            !bar.is_marked(),
            !bar.is_cleared(),
    {
        MessageBar {
            current_message: Message { text: String::new(), time: 0 },
            needs_redraw: false,
            cleared_after_expiry: false,
            now: 0,
        }
    }
}

impl MessageBar {
    /// Marking the bar changes nothing but its mark.
    pub proof fn lemma_marked_as(self, value: bool)
        ensures
            self.marked_as(value).is_marked() == value,
            self.marked_as(value).text() == self.text(),
            self.marked_as(value).shown_since() == self.shown_since(),
            self.marked_as(value).time() == self.time(),
            self.marked_as(value).is_cleared() == self.is_cleared(),
    {
    }

    /// Drawing the bar changes nothing but that it is drawn empty once
    /// its message has expired.
    pub proof fn lemma_after_draw(self)
        ensures
            self.after_draw().is_cleared() == (self.is_cleared() || self.is_expired()),
            self.after_draw().is_marked() == self.is_marked(),
            self.after_draw().text() == self.text(),
            self.after_draw().shown_since() == self.shown_since(),
            self.after_draw().time() == self.time(),
    {
    }
}

impl UIComponent for MessageBar {
    /// The bar is to be drawn again where it was marked, and once after
    /// its message has expired.
    open spec fn redraw_due(&self) -> bool {
        (!self.is_cleared() && self.is_expired()) || self.is_marked()
    }

    open spec fn marked(&self) -> bool {
        self.is_marked()
    }

    closed spec fn marked_as(&self, value: bool) -> MessageBar {
        MessageBar { needs_redraw: value, ..*self }
    }

    /// The bar has no use for a size.
    open spec fn sized(&self, size: Size) -> MessageBar {
        *self
    }

    /// The one row of the bar: the message, or nothing once it has
    /// expired.
    open spec fn shown(&self, origin_row: usize) -> Seq<(usize, Seq<char>)> {
        seq![
            (
                origin_row,
                if self.is_expired() {
                    Seq::<char>::empty()
                } else {
                    self.text()
                },
            ),
        ]
    }

    closed spec fn after_draw(&self) -> MessageBar {
        MessageBar {
            cleared_after_expiry: self.cleared_after_expiry || self.is_expired(),
            ..*self
        }
    }

    proof fn lemma_marked_is_due(&self) {
    }

    fn set_needs_redraw(&mut self, value: bool)
        ensures
            final(self).is_marked() == value,
            final(self).text() == old(self).text(),
            final(self).shown_since() == old(self).shown_since(),
            final(self).time() == old(self).time(),
            final(self).is_cleared() == old(self).is_cleared(),
    {
        self.needs_redraw = value;
    }

    fn needs_redraw(&self) -> (due: bool) {
        (!self.cleared_after_expiry && self.message_is_expired()) || self.needs_redraw
    }

    fn set_size(&mut self, size: Size) {
    }

    fn draw(&mut self, origin_row: usize) -> (rows: Vec<RenderedRow>)
        ensures
            final(self).is_cleared() == (old(self).is_cleared() || old(self).is_expired()),
            final(self).text() == old(self).text(),
            final(self).shown_since() == old(self).shown_since(),
            final(self).time() == old(self).time(),
    {
        let expired = self.message_is_expired();
        if expired {
            self.cleared_after_expiry = true;
        }
        let text = if expired {
            String::new()
        } else {
            self.current_message.text.clone()
        };
        let mut rows: Vec<RenderedRow> = Vec::new();
        rows.push(RenderedRow { row: origin_row, text });
        assert(rows_shown(rows@) =~= old(self).shown(origin_row));
        rows
    }
}

} // verus!
