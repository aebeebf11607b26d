//! The events of several devices, kept apart by device and in the order of
//! their arrival until each device's reader takes them.

use std::collections::HashMap;
use vstd::prelude::*;

verus! {

broadcast use vstd::std_specs::hash::group_hash_axioms;

/// The events that wait, for each device that has any.
pub struct EventQueue<E> {
    queues: HashMap<u8, Vec<E>>,
}

impl<E> View for EventQueue<E> {
    type V = Map<u8, Seq<E>>;

    closed spec fn view(&self) -> Map<u8, Seq<E>> {
        Map::new(|id: u8| self.queues@.contains_key(id), |id: u8| self.queues@[id]@)
    }
}

/// The events that wait for device `id`, the oldest first.
pub open spec fn pending<E>(queues: Map<u8, Seq<E>>, id: u8) -> Seq<E> {
    if queues.contains_key(id) {
        queues[id]
    } else {
        Seq::empty()
    }
}

impl<E> EventQueue<E> {
    /// A queue in which nothing waits.
    pub fn new() -> (r: EventQueue<E>)
        ensures
            forall|id: u8| pending(r@, id) == Seq::<E>::empty(),
    {
        EventQueue { queues: HashMap::new() }
    }

    /// Puts `event` behind the events that wait for device `id`.
    pub fn enqueue(&mut self, id: u8, event: E)
        ensures
            pending(final(self)@, id) == pending(old(self)@, id).push(event),
            forall|other: u8|
                other != id ==> pending(final(self)@, other) == pending(old(self)@, other),
    {
        let mut queue = match self.queues.remove(&id) {
            Some(q) => q,
            None => Vec::new(),
        };
        queue.push(event);
        self.queues.insert(id, queue);
        assert forall|other: u8| other != id implies pending(self@, other) == pending(
            old(self)@,
            other,
        ) by {
            assert(self.queues@.contains_key(other) == old(self).queues@.contains_key(other));
        }
    }

    /// Takes the events that wait for device `id`, the oldest first:
    /// nothing waits for it afterwards.
    pub fn dequeue_event_queue(&mut self, id: u8) -> (r: Vec<E>)
        ensures
            r@ == pending(old(self)@, id),
            pending(final(self)@, id) == Seq::<E>::empty(),
            forall|other: u8|
                other != id ==> pending(final(self)@, other) == pending(old(self)@, other),
    {
        let events = match self.queues.remove(&id) {
            Some(q) => q,
            None => Vec::new(),
        };
        assert forall|other: u8| other != id implies pending(self@, other) == pending(
            old(self)@,
            other,
        ) by {
            assert(self.queues@.contains_key(other) == old(self).queues@.contains_key(other));
        }
        events
    }
}

} // verus!
