//! The queue of events that the bridge sent, oldest first.

use vstd::prelude::*;
use std::collections::VecDeque;
use crate::message::Event;

verus! {

/// Events in the order they arrived; each leaves the queue once.
pub struct EventQueue {
    items: VecDeque<Event>,
}

impl View for EventQueue {
    type V = Seq<Event>;

    closed spec fn view(&self) -> Seq<Event> {
        self.items@
    }
}

impl EventQueue {
    /// An empty queue.
    pub fn new() -> (r: EventQueue)
        ensures
            r@ == Seq::<Event>::empty(),
    {
        EventQueue { items: VecDeque::new() }
    }

    /// How many events wait in the queue.
    pub fn len(&self) -> (r: usize)
        ensures
            r == self@.len(),
    {
        self.items.len()
    }

    /// Adds an event at the back.
    pub fn push(&mut self, e: Event)
        ensures
            final(self)@ == old(self)@.push(e),
    {
        self.items.push_back(e);
    }

    /// Takes the oldest event out, or gives `None` at once where there is
    /// none; it never waits.
    pub fn poll_event(&mut self) -> (r: Option<Event>)
        ensures
            old(self)@.len() == 0 ==> r is None && final(self)@ == old(self)@,
            old(self)@.len() > 0 ==> r == Some(old(self)@[0]) && final(self)@ == old(self)@.drop_first(),
    {
        let r = self.items.pop_front();
        proof {
            assert(old(self)@.len() > 0 ==> old(self)@.drop_first() =~= old(self)@.subrange(1, old(self)@.len() as int));
        }
        r
    }
}

} // verus!
