//! The ordered stream of lifecycle events.
//!
//! The coordinator appends events here in the order they become visible; the
//! embedding drains the stream and broadcasts each event to its subscribers.
//! Delivery to one subscriber never reorders events, so the stream recorded
//! here is exactly what every subscriber observes.

use vstd::prelude::*;

use crate::events::{EventV, LifecycleEvent};

verus! {

/// The publisher of lifecycle events: an ordered log of everything emitted
/// and not yet handed to the embedding for broadcast.
pub struct EventEmitter {
    pub events: Vec<LifecycleEvent>,
}

impl View for EventEmitter {
    type V = Seq<EventV>;

    open spec fn view(&self) -> Seq<EventV> {
        self.events@.map_values(|e: LifecycleEvent| e@)
    }
}

impl EventEmitter {
    /// A fresh emitter with an empty stream.
    pub fn new() -> (r: Self)
        ensures
            r@ == Seq::<EventV>::empty(),
    {
        let r = EventEmitter { events: Vec::new() };
        proof {
            assert(r@ =~= Seq::<EventV>::empty());
        }
        r
    }

    /// Publish one event: it is appended at the end of the stream.
    pub fn emit(&mut self, event: LifecycleEvent)
        ensures
            final(self)@ == old(self)@.push(event@),
    {
        let ghost before = self@;
        self.events.push(event);
        proof {
            assert(self@ =~= before.push(event@));
        }
    }

    /// How many events the stream currently holds.
    pub fn len(&self) -> (n: usize)
        ensures
            n == self@.len(),
    {
        self.events.len()
    }

    /// Hand the pending events to the embedding, oldest first, leaving the
    /// stream empty. The embedding dispatches them to every subscriber in
    /// this order.
    pub fn drain(&mut self) -> (out: Vec<LifecycleEvent>)
        ensures
            out@.map_values(|e: LifecycleEvent| e@) == old(self)@,
            final(self)@ == Seq::<EventV>::empty(),
    {
        let mut out: Vec<LifecycleEvent> = Vec::new();
        core::mem::swap(&mut out, &mut self.events);
        proof {
            assert(self@ =~= Seq::<EventV>::empty());
        }
        out
    }
}

} // verus!
