//! Input events and the mailbox that holds them until the next tick.
//!
//! Whoever reads the terminal posts each event as it arrives. The mailbox
//! has one slot per kind: a flag for "a key was pressed" and the latest
//! size the terminal was given. Any number of key presses leave one flag,
//! and of any burst of resizes only the last is kept.

use vstd::prelude::*;

verus! {

/// The dimensions of a terminal, in character cells.
#[derive(Clone, Copy, Debug, PartialEq, Eq, Structural)]
pub struct Size {
    pub width: u16,
    pub height: u16,
}

/// An input event, as far as the animation tells events apart.
#[derive(Clone, Copy, Debug, PartialEq, Eq, Structural)]
pub enum Event {
    /// A key was pressed.
    Key,
    /// The terminal now has this size.
    Resize(Size),
    /// Anything else.
    Other,
}

/// The events that wait for the next tick.
#[derive(Clone, Copy, Debug, PartialEq, Eq, Structural)]
pub struct Mailbox {
    /// A key was pressed since the last drain.
    pub quit: bool,
    /// The latest size reported since the last drain.
    pub resize: Option<Size>,
}

impl Mailbox {
    /// The mailbox with nothing waiting.
    pub open spec fn empty() -> Mailbox {
        Mailbox { quit: false, resize: None }
    }

    /// The mailbox after `event` has been posted: a key sets the flag, a
    /// resize replaces the size that waits, anything else is ignored.
    pub open spec fn posted(self, event: Event) -> Mailbox {
        match event {
            Event::Key => Mailbox { quit: true, ..self },
            Event::Resize(size) => Mailbox { resize: Some(size), ..self },
            Event::Other => self,
        }
    }

    /// The mailbox after `events` have been posted, first to last.
    pub open spec fn posted_all(self, events: Seq<Event>) -> Mailbox
        decreases events.len(),
    {
        if events.len() == 0 {
            self
        } else {
            self.posted_all(events.drop_last()).posted(events.last())
        }
    }

    /// A mailbox with nothing waiting.
    pub fn new() -> (mailbox: Mailbox)
        ensures
            mailbox == Mailbox::empty(),
    {
        Mailbox { quit: false, resize: None }
    }

    /// Posts one event.
    pub fn post(&mut self, event: Event)
        ensures
            *final(self) == old(self).posted(event),
    {
        match event {
            Event::Key => {
                self.quit = true;
            },
            Event::Resize(size) => {
                self.resize = Some(size);
            },
            Event::Other => {},
        }
    }

    /// Hands out what waits and leaves the mailbox empty.
    pub fn drain(&mut self) -> (waiting: Mailbox)
        ensures
            waiting == *old(self),
            *final(self) == Mailbox::empty(),
    {
        let waiting = *self;
        self.quit = false;
        self.resize = None;
        waiting
    }
}

/// Of a burst of resize events, the mailbox keeps exactly the last: however
/// many arrive before the next drain, one size waits, and it is the size of
/// the last event. The quit flag is not touched.
pub proof fn lemma_resize_burst_coalesces(start: Mailbox, burst: Seq<Event>)
    requires
        burst.len() >= 1,
        forall|i: int| 0 <= i < burst.len() ==> (#[trigger] burst[i]) is Resize,
    ensures
        start.posted_all(burst).resize == Some(burst.last()->Resize_0),
        start.posted_all(burst).quit == start.quit,
    decreases burst.len(),
{
    if burst.len() > 1 {
        lemma_resize_burst_coalesces(start, burst.drop_last());
    } else {
        assert(start.posted_all(burst.drop_last()) == start);
    }
}

/// The quit flag is sticky and idempotent: after any events, it is set if
/// and only if it was set before or one of the events is a key press.
pub proof fn lemma_quit_is_sticky(start: Mailbox, events: Seq<Event>)
    ensures
        start.posted_all(events).quit == (start.quit || exists|i: int|
            0 <= i < events.len() && (#[trigger] events[i]) is Key),
    decreases events.len(),
{
    if events.len() > 0 {
        let front = events.drop_last();
        lemma_quit_is_sticky(start, front);
        if exists|i: int| 0 <= i < events.len() && (#[trigger] events[i]) is Key {
            let i = choose|i: int| 0 <= i < events.len() && (#[trigger] events[i]) is Key;
            if i < front.len() {
                assert(front[i] is Key);
            }
        }
        if exists|i: int| 0 <= i < front.len() && (#[trigger] front[i]) is Key {
            let i = choose|i: int| 0 <= i < front.len() && (#[trigger] front[i]) is Key;
            assert(events[i] is Key);
        }
    }
}

/// The size that waits is the one of the latest resize event: posting more
/// events after a resize changes it only if another resize is among them.
pub proof fn lemma_latest_resize_waits(start: Mailbox, events: Seq<Event>, last: int)
    requires
        0 <= last < events.len(),
        events[last] is Resize,
        forall|i: int| last < i < events.len() ==> !((#[trigger] events[i]) is Resize),
    ensures
        start.posted_all(events).resize == Some(events[last]->Resize_0),
    decreases events.len(),
{
    if last < events.len() - 1 {
        lemma_latest_resize_waits(start, events.drop_last(), last);
    }
}

} // verus!
