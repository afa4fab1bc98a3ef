//! The result mailbox: a FIFO queue of tagged events on its way from
//! background tasks to the orchestrator.
//!
//! This type is the single-consumer buffer itself; the shell that spawns
//! background tasks shares it between producers behind its own lock. `send`
//! only appends and never fails, and `try_drain_all` hands back everything
//! queued, in arrival order, without ever blocking — the two contracts the
//! per-frame drain step depends on.

use vstd::prelude::*;

use crate::data::Event;

verus! {

/// FIFO buffer of pending [`Event`]s. Its view is the queue's contents in
/// arrival order, oldest first.
pub struct Mailbox {
    queue: Vec<Event>,
}

impl View for Mailbox {
    type V = Seq<Event>;

    closed spec fn view(&self) -> Seq<Event> {
        self.queue@
    }
}

impl Mailbox {
    /// An empty mailbox.
    pub fn new() -> (m: Mailbox)
        ensures
            m@ == Seq::<Event>::empty(),
    {
        Mailbox { queue: Vec::new() }
    }

    /// Number of queued events.
    pub fn len(&self) -> (n: usize)
        ensures
            n == self@.len(),
    {
        self.queue.len()
    }

    /// Whether nothing is queued.
    pub fn is_empty(&self) -> (r: bool)
        ensures
            r == (self@.len() == 0),
    {
        self.queue.is_empty()
    }

    /// Appends one event at the back of the queue. Never fails and never
    /// drops or reorders what is already queued.
    pub fn send(&mut self, event: Event)
        ensures
            final(self)@ == old(self)@.push(event),
    {
        self.queue.push(event);
    }

    /// Empties the mailbox, returning every queued event in arrival order.
    /// Never blocks: the queue is plain memory.
    pub fn try_drain_all(&mut self) -> (events: Vec<Event>)
        ensures
            events@ == old(self)@,
            final(self)@ == Seq::<Event>::empty(),
    {
        let mut events: Vec<Event> = Vec::new();
        core::mem::swap(&mut events, &mut self.queue);
        events
    }
}

} // verus!
