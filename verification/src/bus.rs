//! The trigger bus: the single ordered channel between detectors and reactor.
//!
//! Every detector finding is sent onto one queue whose only consumer is the
//! policy reactor. Sends append; the receiver takes the oldest trigger, which
//! leaves the queue — a trigger is delivered at most once and never replayed.
//! The application feeds this queue from its channel; the contracts here pin
//! the order and the at-most-once delivery of what the reactor sees.

use vstd::prelude::*;
use vstd::multiset::Multiset;
use crate::types::Triggers;

verus! {

pub struct TriggerBus {
    pub queue: Vec<Triggers>,
}

/// The effect of a send on the queued triggers: the trigger is appended.
pub open spec fn bus_send_model(q: Seq<Triggers>, t: Triggers) -> Seq<Triggers> {
    q.push(t)
}

/// The effect of a receive on the queued triggers: the queue after the call,
/// paired with the trigger handed to the reactor — the oldest one, if any.
pub open spec fn bus_recv_model(q: Seq<Triggers>) -> (Seq<Triggers>, Option<Triggers>) {
    if q.len() == 0 {
        (q, None)
    } else {
        (q.remove(0), Some(q[0]))
    }
}

impl TriggerBus {
    /// A bus starts out with nothing queued.
    pub fn new() -> (b: TriggerBus)
        ensures
            b.queue@ == Seq::<Triggers>::empty(),
    {
        TriggerBus { queue: Vec::new() }
    }

    /// Post one trigger: it is appended behind every trigger already queued.
    pub fn send(&mut self, t: Triggers)
        ensures
            final(self).queue@ == bus_send_model(old(self).queue@, t),
    {
        self.queue.push(t);
    }

    /// Take the next trigger for the reactor: the oldest queued one, which
    /// thereby leaves the queue; nothing when the queue is empty.
    pub fn recv(&mut self) -> (r: Option<Triggers>)
        ensures
            final(self).queue@ == bus_recv_model(old(self).queue@).0,
            r == bus_recv_model(old(self).queue@).1,
    {
        if self.queue.len() == 0 {
            None
        } else {
            Some(self.queue.remove(0))
        }
    }
}

/// Law of at-most-once delivery: a receive hands out the oldest queued
/// trigger, and one copy of it leaves the queue — the delivered trigger is
/// not replayed.
pub proof fn lemma_delivered_trigger_not_replayed(q: Seq<Triggers>)
    requires
        q.len() > 0,
    ensures
        bus_recv_model(q).1 == Some(q[0]),
        bus_recv_model(q).0.to_multiset().count(q[0]) == q.to_multiset().count(q[0]) - 1,
{
    q.to_multiset_ensures();
    assert(q.to_multiset().contains(q[0])) by {
        assert(q.contains(q[0]));
    }
}

/// Law of ordered delivery: a trigger sent onto an empty bus is the very
/// next one delivered, exactly once, and the bus is empty again after it.
pub proof fn lemma_sent_trigger_delivered_once(t: Triggers)
    ensures
        bus_recv_model(bus_send_model(Seq::empty(), t)).1 == Some(t),
        bus_recv_model(bus_send_model(Seq::empty(), t)).0 == Seq::<Triggers>::empty(),
{
    let q = bus_send_model(Seq::empty(), t);
    assert(q.remove(0) =~= Seq::<Triggers>::empty());
}

} // verus!
