use vstd::prelude::*;

use crate::events::Events;

verus! {

/// Capacity of the event queue.  A fixed small bound, chosen so that bursts
/// such as rapid button presses cannot be lost under normal load; exceeding
/// it stalls the producer rather than dropping an event.
pub const EVENT_QUEUE_CAPACITY: usize = 10;

/// A bounded, ordered, multi-producer/single-consumer queue carrying events
/// from any task to the orchestrator.
///
/// This is the non-suspending core of the channel: `try_send` reports a full
/// queue instead of suspending the producer, and `try_receive` reports an
/// empty queue instead of suspending the consumer.  The platform shell turns
/// those outcomes into the suspension points of the blocking `send` and
/// `receive` operations; internal synchronization of concurrent producers is
/// likewise the shell's concern, so the contracts here describe each
/// operation as one atomic step on the queue's contents.
pub struct EventQueue {
    items: Vec<Events>,
}

impl View for EventQueue {
    type V = Seq<Events>;

    /// The queued events, oldest first.
    closed spec fn view(&self) -> Seq<Events> {
        self.items@
    }
}

/// The contents after offering `e` to a queue holding `q`: appended when
/// there is room, unchanged when the queue is full.
pub open spec fn send_spec(q: Seq<Events>, e: Events) -> Seq<Events> {
    if q.len() < EVENT_QUEUE_CAPACITY {
        q.push(e)
    } else {
        q
    }
}

/// Whether a queue holding `q` accepts one more event.
pub open spec fn send_accepted(q: Seq<Events>) -> bool {
    q.len() < EVENT_QUEUE_CAPACITY
}

/// The contents after one receive from a queue holding `q`.
pub open spec fn receive_spec(q: Seq<Events>) -> Seq<Events> {
    if q.len() == 0 {
        q
    } else {
        q.skip(1)
    }
}

/// The value one receive from a queue holding `q` returns; `None` is the
/// outcome on which a blocking consumer would suspend.
pub open spec fn received_value(q: Seq<Events>) -> Option<Events> {
    if q.len() == 0 {
        None
    } else {
        Some(q[0])
    }
}

impl EventQueue {
    /// Every reachable queue holds at most `EVENT_QUEUE_CAPACITY` events.
    pub open spec fn wf(&self) -> bool {
        self@.len() <= EVENT_QUEUE_CAPACITY
    }

    /// An empty queue.
    pub fn new() -> (queue: EventQueue)
        ensures
            queue@ == Seq::<Events>::empty(),
            queue.wf(),
    {
        EventQueue { items: Vec::new() }
    }

    /// Number of queued events.
    pub fn len(&self) -> (n: usize)
        ensures
            n == self@.len(),
    {
        self.items.len()
    }

    /// Whether the queue holds no event, the outcome on which `receive`
    /// suspends its caller.
    pub fn is_empty(&self) -> (empty: bool)
        ensures
            empty == (self@.len() == 0),
    {
        self.items.len() == 0
    }

    /// Whether the queue is at capacity, the outcome on which `send`
    /// suspends its caller.
    pub fn is_full(&self) -> (full: bool)
        ensures
            full == !send_accepted(self@),
    {
        self.items.len() >= EVENT_QUEUE_CAPACITY
    }

    /// Offers one event.  The event is appended — never dropped, never
    /// reordered — whenever the queue is below capacity; on a full queue
    /// nothing changes and the caller learns that a blocking sender would
    /// have suspended until a slot frees.
    pub fn try_send(&mut self, event: Events) -> (accepted: bool)
        ensures
            accepted == send_accepted(old(self)@),
            final(self)@ == send_spec(old(self)@, event),
    {
        if self.items.len() < EVENT_QUEUE_CAPACITY {
            self.items.push(event);
            true
        } else {
            false
        }
    }

    /// Takes the oldest event, if any.  `None` is the outcome on which a
    /// blocking receiver would suspend until an event arrives.
    pub fn try_receive(&mut self) -> (received: Option<Events>)
        ensures
            received == received_value(old(self)@),
            final(self)@ == receive_spec(old(self)@),
    {
        if self.items.len() == 0 {
            None
        } else {
            let event = self.items.remove(0);
            proof {
                assert(self@ =~= old(self)@.skip(1));
            }
            Some(event)
        }
    }
}

/// The first `k` values that successive receives return from a queue
/// holding `q`.
pub open spec fn drained(q: Seq<Events>, k: nat) -> Seq<Events>
    decreases k,
{
    if k == 0 || q.len() == 0 {
        Seq::<Events>::empty()
    } else {
        seq![q[0]] + drained(receive_spec(q), (k - 1) as nat)
    }
}

/// Receives drain the queue in arrival order: the first `k` receives return
/// exactly the `k` oldest events, oldest first, and leave the rest queued in
/// their order.
pub proof fn lemma_receive_in_order(q: Seq<Events>, k: nat)
    requires
        k <= q.len(),
    ensures
        drained(q, k) == q.take(k as int),
    decreases k,
{
    if k == 0 {
        assert(drained(q, k) =~= q.take(k as int));
    } else {
        lemma_receive_in_order(q.skip(1), (k - 1) as nat);
        assert(drained(q, k) =~= q.take(k as int));
    }
}

/// FIFO order per producer: when one producer sends `a` and then `b` to a
/// queue with room for both, the receive stream is the earlier contents in
/// their order, then `a`, then `b` — so `a` is received before `b`.
pub proof fn lemma_fifo_per_producer(q: Seq<Events>, a: Events, b: Events)
    requires
        q.len() + 2 <= EVENT_QUEUE_CAPACITY,
    ensures
        send_accepted(q),
        send_accepted(send_spec(q, a)),
        drained(send_spec(send_spec(q, a), b), q.len() + 2) == q.push(a).push(b),
{
    let q2 = send_spec(send_spec(q, a), b);
    lemma_receive_in_order(q2, q.len() + 2);
    assert(q2.take(q.len() + 2 as int) =~= q.push(a).push(b));
}

/// The contents after offering every element of `xs` in order.
pub open spec fn send_all_spec(q: Seq<Events>, xs: Seq<Events>) -> Seq<Events>
    decreases xs.len(),
{
    if xs.len() == 0 {
        q
    } else {
        send_all_spec(send_spec(q, xs[0]), xs.skip(1))
    }
}

/// Whether a queue holding `q` accepts every element of `xs` in turn.
pub open spec fn all_sends_accepted(q: Seq<Events>, xs: Seq<Events>) -> bool
    decreases xs.len(),
{
    xs.len() == 0 || (send_accepted(q) && all_sends_accepted(send_spec(q, xs[0]), xs.skip(1)))
}

/// A burst that fits in the remaining room is accepted in full and kept in
/// order: nothing is dropped and nothing is reordered.
pub proof fn lemma_burst_fits(q: Seq<Events>, xs: Seq<Events>)
    requires
        q.len() + xs.len() <= EVENT_QUEUE_CAPACITY,
    ensures
        all_sends_accepted(q, xs),
        send_all_spec(q, xs) == q + xs,
    decreases xs.len(),
{
    if xs.len() == 0 {
        assert(send_all_spec(q, xs) =~= q + xs);
    } else {
        lemma_burst_fits(q.push(xs[0]), xs.skip(1));
        assert(q.push(xs[0]) + xs.skip(1) =~= q + xs);
    }
}

/// No event is lost up to capacity: from an empty queue, every send of a
/// burst of exactly `EVENT_QUEUE_CAPACITY` events is accepted and the queue
/// then holds the whole burst in order; one further send is not accepted and
/// changes nothing — the sender would stall — and becomes accepted again as
/// soon as one receive frees a slot.
pub proof fn lemma_no_loss_up_to_capacity(xs: Seq<Events>, extra: Events)
    requires
        xs.len() == EVENT_QUEUE_CAPACITY,
    ensures
        all_sends_accepted(Seq::<Events>::empty(), xs),
        send_all_spec(Seq::<Events>::empty(), xs) == xs,
        !send_accepted(xs),
        send_spec(xs, extra) == xs,
        send_accepted(receive_spec(xs)),
{
    lemma_burst_fits(Seq::<Events>::empty(), xs);
    assert(Seq::<Events>::empty() + xs =~= xs);
}

} // verus!
