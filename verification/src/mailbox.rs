//! A bounded actor mailbox: a first-in-first-out queue with a capacity fixed
//! at construction. When a message arrives while the mailbox is full it is
//! dropped (drop-newest), so producers — including interrupt context — never
//! block and never overwrite queued work.

use vstd::prelude::*;

use crate::events::Event;

verus! {

/// A bounded first-in-first-out queue of events, owned by the scheduler.
pub struct Mailbox {
    queue: Vec<Event>,
    capacity: usize,
}

impl View for Mailbox {
    type V = Seq<Event>;

    /// The queued events, oldest first.
    closed spec fn view(&self) -> Seq<Event> {
        self.queue@
    }
}

impl Mailbox {
    /// The fixed capacity the mailbox was constructed with.
    pub closed spec fn capacity_spec(self) -> nat {
        self.capacity as nat
    }

    /// The queue never holds more events than its capacity.
    pub open spec fn wf(self) -> bool {
        self@.len() <= self.capacity_spec()
    }

    /// Constructs an empty mailbox with the given fixed capacity.
    pub fn new(capacity: usize) -> (m: Mailbox)
        ensures
            m@ == Seq::<Event>::empty(),
            m.capacity_spec() == capacity,
            m.wf(),
    {
        Mailbox { queue: Vec::new(), capacity }
    }

    /// How many events are queued.
    pub fn len(&self) -> (n: usize)
        ensures
            n == self@.len(),
    {
        self.queue.len()
    }

    /// Appends an event unless the mailbox is full; a message arriving at a
    /// full mailbox is dropped (drop-newest) and `false` is returned.
    pub fn enqueue(&mut self, event: Event) -> (accepted: bool)
        ensures
            final(self).capacity_spec() == old(self).capacity_spec(),
            accepted == (old(self)@.len() < old(self).capacity_spec()),
            accepted ==> final(self)@ == old(self)@.push(event),
            !accepted ==> final(self)@ == old(self)@,
            old(self).wf() ==> final(self).wf(),
    {
        if self.queue.len() < self.capacity {
            self.queue.push(event);
            true
        } else {
            false
        }
    }

    /// The queued event at a position, oldest first.
    pub fn get(&self, i: usize) -> (event: Event)
        requires
            i < self@.len(),
        ensures
            event == self@[i as int],
    {
        self.queue[i]
    }

    /// Removes and returns the oldest queued event.
    pub fn dequeue(&mut self) -> (event: Event)
        requires
            old(self)@.len() > 0,
        ensures
            event == old(self)@[0],
            final(self)@ == old(self)@.remove(0),
            final(self).capacity_spec() == old(self).capacity_spec(),
            old(self).wf() ==> final(self).wf(),
    {
        self.queue.remove(0)
    }
}

} // verus!
