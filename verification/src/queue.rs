//! The bounded hand-off queue between the notification bridge and the
//! approval orchestrator.
//!
//! A first-in first-out buffer with a fixed capacity chosen at construction.
//! Enqueueing on a full queue fails and hands the event back to the producer
//! unchanged, so a producer that retries never loses an event; dequeueing
//! yields events in the order they were accepted.

use vstd::prelude::*;
use std::collections::VecDeque;
use crate::event::ChangeEvent;

verus! {

/// The reference capacity of the hand-off queue.
pub const DEFAULT_QUEUE_CAPACITY: usize = 100;

pub struct HandoffQueue {
    items: VecDeque<ChangeEvent>,
    capacity: usize,
}

impl View for HandoffQueue {
    type V = Seq<ChangeEvent>;

    closed spec fn view(&self) -> Seq<ChangeEvent> {
        self.items@
    }
}

impl HandoffQueue {
    /// The capacity fixed at construction.
    pub closed spec fn cap(&self) -> nat {
        self.capacity as nat
    }

    /// The queue never holds more events than its capacity.
    pub open spec fn wf(&self) -> bool {
        1 <= self.cap() && self@.len() <= self.cap()
    }

    pub open spec fn is_full(&self) -> bool {
        self@.len() == self.cap()
    }

    pub fn new(capacity: usize) -> (q: HandoffQueue)
        requires
            capacity >= 1,
        ensures
            q.wf(),
            q@ == Seq::<ChangeEvent>::empty(),
            q.cap() == capacity,
    {
        HandoffQueue { items: VecDeque::new(), capacity }
    }

    pub fn capacity(&self) -> (c: usize)
        ensures
            c == self.cap(),
    {
        self.capacity
    }

    pub fn len(&self) -> (n: usize)
        ensures
            n == self@.len(),
    {
        self.items.len()
    }

    /// Accepts an event at the back of the queue, or hands it back unchanged
    /// when the queue is full. No event is ever dropped: a rejected event is
    /// returned to the producer for retry.
    pub fn enqueue(&mut self, e: ChangeEvent) -> (r: Result<(), ChangeEvent>)
        requires
            old(self).wf(),
        ensures
            final(self).wf(),
            final(self).cap() == old(self).cap(),
            old(self).is_full() ==> (r matches Err(back) && back == e && final(self)@ == old(self)@),
            !old(self).is_full() ==> r is Ok && final(self)@ == old(self)@.push(e),
    {
        if self.items.len() == self.capacity {
            Err(e)
        } else {
            self.items.push_back(e);
            Ok(())
        }
    }

    /// Removes and returns the oldest event, in first-in first-out order.
    pub fn dequeue(&mut self) -> (r: Option<ChangeEvent>)
        requires
            old(self).wf(),
        ensures
            final(self).wf(),
            final(self).cap() == old(self).cap(),
            old(self)@.len() == 0 ==> r is None && final(self)@ == old(self)@,
            old(self)@.len() > 0 ==> (r matches Some(front) && front == old(self)@[0]
                && final(self)@ == old(self)@.subrange(1, old(self)@.len() as int)),
    {
        self.items.pop_front()
    }
}

} // verus!
