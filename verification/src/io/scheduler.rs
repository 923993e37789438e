use vstd::prelude::*;
use priority_queue::PriorityQueue;
use std::cmp::Reverse;
use std::collections::hash_map::RandomState;
use crate::consts::CLOCK_FREQ;

verus! {

/// Kinds of events on the scheduler.
#[derive(Clone, Copy, Debug, PartialEq, Eq, Hash, Structural)]
pub enum EventType {
    _TimerOverflow(usize),
    FrameSequencer(usize),
}

/// An event of a kind, due at a cycle.
#[derive(Clone, Copy, Debug)]
pub struct Event {
    pub cycle: usize,
    pub event_type: EventType,
}

#[verifier::external_type_specification]
#[verifier::external_body]
#[verifier::reject_recursive_types(I)]
#[verifier::reject_recursive_types(P)]
#[verifier::reject_recursive_types(H)]
pub struct ExPriorityQueue<I, P, H>(PriorityQueue<I, P, H>);

#[verifier::external_type_specification]
#[verifier::external_body]
#[verifier::reject_recursive_types(T)]
pub struct ExReverse<T>(Reverse<T>);

/// A queue of events, ordered by the reversed cycle at which each is due.
pub type EventQueue = PriorityQueue<EventType, Reverse<usize>, RandomState>;

/// What a queue of events holds: each kind at most once, with the cycle at which it is
/// due (its priority is that cycle reversed, so the earliest comes out first).
pub uninterp spec fn pq_contents(q: EventQueue) -> Map<EventType, usize>;

/// No pending event.
pub open spec fn no_events() -> Map<EventType, usize> {
    Map::empty()
}

/// An item with the earliest cycle of a nonempty queue.
pub open spec fn is_earliest(m: Map<EventType, usize>, item: EventType, cycle: usize) -> bool {
    &&& m.contains_key(item)
    &&& m[item] == cycle
    &&& forall|k: EventType| m.contains_key(k) ==> cycle <= #[trigger] m[k]
}

/// `PriorityQueue::new`: an empty queue.
#[verifier::external_body]
fn pq_new() -> (r: EventQueue)
    ensures
        pq_contents(r) == no_events(),
{
    PriorityQueue::new()
}

/// `PriorityQueue::push`: the item enters with the cycle as its priority, replacing
/// the priority of an equal item already there.
#[verifier::external_body]
fn pq_push(q: &mut EventQueue, item: EventType, cycle: usize)
    ensures
        pq_contents(*final(q)) == pq_contents(*old(q)).insert(item, cycle),
{
    q.push(item, Reverse(cycle));
}

/// `PriorityQueue::peek`: an item with the greatest priority (the earliest cycle), or
/// `None` for an empty queue; which of several equal ones comes is left open.
#[verifier::external_body]
fn pq_peek(q: &EventQueue) -> (r: Option<(EventType, usize)>)
    ensures
        r is None <==> pq_contents(*q).dom().is_empty(),
        r matches Some((item, cycle)) ==> is_earliest(pq_contents(*q), item, cycle),
{
    q.peek().map(|(item, cycle)| (*item, cycle.0))
}

/// `PriorityQueue::pop`: takes out an item with the greatest priority (the earliest
/// cycle), or `None` for an empty queue.
#[verifier::external_body]
fn pq_pop(q: &mut EventQueue) -> (r: Option<(EventType, usize)>)
    ensures
        r is None <==> pq_contents(*old(q)).dom().is_empty(),
        r is None ==> pq_contents(*final(q)) == pq_contents(*old(q)),
        r matches Some((item, cycle)) ==> {
            &&& is_earliest(pq_contents(*old(q)), item, cycle)
            &&& pq_contents(*final(q)) == pq_contents(*old(q)).remove(item)
        },
{
    q.pop().map(|(item, cycle)| (item, cycle.0))
}

/// `PriorityQueue::remove`: takes out the item equal to `item`, if there is one.
#[verifier::external_body]
fn pq_remove(q: &mut EventQueue, item: &EventType) -> (r: Option<(EventType, usize)>)
    ensures
        pq_contents(*final(q)) == pq_contents(*old(q)).remove(*item),
        pq_contents(*old(q)).contains_key(*item) ==> r == Some((*item, pq_contents(*old(q))[*item])),
        !pq_contents(*old(q)).contains_key(*item) ==> r is None,
{
    q.remove(item).map(|(item, cycle)| (item, cycle.0))
}

/// The current cycle and the queue of pending events.
pub struct Scheduler {
    pub cycle: usize,
    event_queue: EventQueue,
}

impl Scheduler {
    /// The pending events: each kind with the cycle at which it is due.
    pub closed spec fn events(&self) -> Map<EventType, usize> {
        pq_contents(self.event_queue)
    }

    /// The current cycle.
    pub closed spec fn now(&self) -> usize {
        self.cycle
    }

    /// A scheduler at cycle 0 whose only event is the first frame sequencer step, due
    /// after 1/512 of a second.
    pub fn new() -> (r: Self)
        ensures
            r.now() == 0,
            r.events() == map![EventType::FrameSequencer(0) => (CLOCK_FREQ / 512) as usize],
    {
        let mut queue = pq_new();
        pq_push(&mut queue, EventType::FrameSequencer(0), CLOCK_FREQ / 512);
        let r = Self { cycle: 0, event_queue: queue };
        assert(r.events() =~= map![EventType::FrameSequencer(0) => (CLOCK_FREQ / 512) as usize]);
        r
    }

    /// Takes the earliest event if it is due at the current cycle.
    pub fn get_next_event(&mut self) -> (r: Option<EventType>)
        requires
            !old(self).events().dom().is_empty(),
        ensures
            final(self).now() == old(self).now(),
            r is None ==> final(self).events() == old(self).events() && !exists|k: EventType|
                is_earliest(old(self).events(), k, old(self).now()),
            r matches Some(e) ==> {
                &&& is_earliest(old(self).events(), e, old(self).now())
                &&& final(self).events() == old(self).events().remove(e)
            },
    {
        let (_event_type, cycle) = match pq_peek(&self.event_queue) {
            Some(p) => p,
            None => {
                return None;
            },
        };
        if self.cycle == cycle {
            match pq_pop(&mut self.event_queue) {
                Some((event_type, _)) => Some(event_type),
                None => None,
            }
        } else {
            None
        }
    }

    /// Schedules an event, replacing the cycle of a pending event of the same kind.
    pub fn add(&mut self, event: Event)
        ensures
            final(self).now() == old(self).now(),
            final(self).events() == old(self).events().insert(event.event_type, event.cycle),
    {
        pq_push(&mut self.event_queue, event.event_type, event.cycle);
    }

    /// Drops the pending event of a kind.
    pub fn _remove(&mut self, event_type: EventType)
        ensures
            final(self).now() == old(self).now(),
            final(self).events() == old(self).events().remove(event_type),
    {
        pq_remove(&mut self.event_queue, &event_type);
    }
}

/// An event added for the current cycle is due at once: it is the earliest of what is
/// pending (when nothing else is due earlier), and taking it out leaves what was pending
/// before it was added.
pub proof fn law_added_event_is_due(pending: Map<EventType, usize>, event: Event, now: usize)
    requires
        event.cycle == now,
        !pending.contains_key(event.event_type),
        forall|k: EventType| pending.contains_key(k) ==> now <= #[trigger] pending[k],
    ensures
        is_earliest(pending.insert(event.event_type, event.cycle), event.event_type, now),
        pending.insert(event.event_type, event.cycle).remove(event.event_type) == pending,
{
    assert(pending.insert(event.event_type, event.cycle).remove(event.event_type) =~= pending);
}

} // verus!
