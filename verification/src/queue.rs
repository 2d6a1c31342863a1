//! The bounded input-event queue: a single-producer (IRQ path), single
//! consumer (event task) FIFO. A push onto a full queue drops the new
//! event and counts it; it never blocks.
use vstd::prelude::*;
use crate::event::Event;

verus! {

/// Capacity of the event queue. The hardware sources burst far below this.
pub const EVENT_QUEUE_CAP: usize = 64;

/// Bounded FIFO of input events; oldest at the front.
pub struct EventQueue {
    items: Vec<Event>,
    dropped: u64,
}

/// What a push leaves in the queue: the event is appended while there is
/// room, and dropped once the queue is at capacity.
pub open spec fn spec_push(s: Seq<Event>, e: Event) -> Seq<Event> {
    if s.len() < EVENT_QUEUE_CAP {
        s.push(e)
    } else {
        s
    }
}

/// The queue contents after pushing each event of `es` in order.
pub open spec fn spec_push_all(s: Seq<Event>, es: Seq<Event>) -> Seq<Event>
    decreases es.len(),
{
    if es.len() == 0 {
        s
    } else {
        spec_push_all(spec_push(s, es[0]), es.drop_first())
    }
}

impl EventQueue {
    /// The queued events, oldest first.
    pub closed spec fn view(&self) -> Seq<Event> {
        self.items@
    }

    /// How many pushes arrived while the queue was full.
    pub closed spec fn spec_dropped(&self) -> u64 {
        self.dropped
    }

    /// The queue never holds more than its capacity.
    pub closed spec fn wf(&self) -> bool {
        self.items@.len() <= EVENT_QUEUE_CAP
    }

    /// An empty queue.
    pub fn new() -> (q: EventQueue)
        ensures
            q.wf(),
            q@ == Seq::<Event>::empty(),
            q.spec_dropped() == 0,
    {
        EventQueue { items: Vec::new(), dropped: 0 }
    }

    /// Number of queued events.
    pub fn len(&self) -> (n: usize)
        ensures
            n == self@.len(),
    {
        self.items.len()
    }

    /// Enqueue one event. Called from IRQ handlers with interrupts
    /// disabled; never blocks. On a full queue the new event is dropped
    /// and the drop is counted.
    pub fn push(&mut self, e: Event)
        requires
            old(self).wf(),
        ensures
            final(self).wf(),
            final(self)@ == spec_push(old(self)@, e),
            old(self)@.len() < EVENT_QUEUE_CAP ==> final(self)@ == old(self)@.push(e)
                && final(self).spec_dropped() == old(self).spec_dropped(),
            old(self)@.len() >= EVENT_QUEUE_CAP ==> final(self)@ == old(self)@
                && final(self).spec_dropped() == vstd::wrapping::u64_specs::wrapping_add(
                old(self).spec_dropped(),
                1,
            ),
    {
        if self.items.len() < EVENT_QUEUE_CAP {
            self.items.push(e);
        } else {
            self.dropped = self.dropped.wrapping_add(1);
        }
    }

    /// Dequeue the oldest event, or nothing when the queue is empty.
    /// Called only from the event task, with interrupts disabled.
    pub fn pop(&mut self) -> (r: Option<Event>)
        requires
            old(self).wf(),
        ensures
            final(self).wf(),
            final(self).spec_dropped() == old(self).spec_dropped(),
            old(self)@.len() == 0 ==> r is None && final(self)@ == old(self)@,
            old(self)@.len() > 0 ==> r == Some(old(self)@[0]) && final(self)@ == old(
                self,
            )@.drop_first(),
    {
        if self.items.len() == 0 {
            None
        } else {
            let e = self.items.remove(0);
            assert(self.items@ =~= old(self).items@.drop_first());
            Some(e)
        }
    }
}

/// Strict FIFO order: events pushed in order i1, i2, ... onto a queue with
/// room for all of them are held in exactly that order, appended after what
/// was already queued; the consumer's `pop` returns the front first, so it
/// observes them in push order.
pub proof fn lemma_fifo_order(s: Seq<Event>, es: Seq<Event>)
    requires
        s.len() + es.len() <= EVENT_QUEUE_CAP,
    ensures
        spec_push_all(s, es) == s + es,
    decreases es.len(),
{
    if es.len() == 0 {
        assert(spec_push_all(s, es) =~= s + es);
    } else {
        lemma_fifo_order(s.push(es[0]), es.drop_first());
        assert(s.push(es[0]) + es.drop_first() =~= s + es);
    }
}

} // verus!
