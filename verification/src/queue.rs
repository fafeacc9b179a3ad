//! The event queue: a bounded single-producer/single-consumer ring buffer
//! carrying typed events from the interrupt sources to the dispatch loop.
//!
//! The ring itself is heapless's lock-free spsc queue; this module states
//! what its operations do to the sequence of queued events and wraps them in
//! a verified facade. A ring of `N` slots holds at most `N - 1` events, so
//! the 8-slot queue's capacity is 7.

use vstd::prelude::*;

use crate::event::Message;

verus! {

/// Declares heapless's single-producer/single-consumer ring buffer so it can
/// stand in signatures; Verus treats its values as opaque.
#[verifier::external_type_specification]
#[verifier::external_body]
#[verifier::reject_recursive_types(T)]
pub struct ExSpscQueue<T, const N: usize>(heapless::spsc::Queue<T, N>);

/// The events an 8-slot ring holds, oldest first.
pub uninterp spec fn spec_queue_items(q: heapless::spsc::Queue<Message, 8>) -> Seq<Message>;

/// How many events the event queue holds at most.
pub const EVENT_QUEUE_CAPACITY: usize = 7;

/// Relies on heapless::spsc::Queue::new: a fresh ring is empty.
#[verifier::external_body]
fn spsc_new() -> (q: heapless::spsc::Queue<Message, 8>)
    ensures
        spec_queue_items(q) == Seq::<Message>::empty(),
{
    heapless::spsc::Queue::new()
}

/// Relies on heapless::spsc::Queue::enqueue: below capacity the value goes
/// to the back and `Ok` comes back; on a full ring the value comes back in
/// `Err` and the ring is unchanged.
#[verifier::external_body]
fn spsc_enqueue(q: &mut heapless::spsc::Queue<Message, 8>, m: Message) -> (r: Result<(), Message>)
    ensures
        r == (if spec_queue_items(*old(q)).len() < EVENT_QUEUE_CAPACITY {
            Ok::<(), Message>(())
        } else {
            Err::<(), Message>(m)
        }),
        spec_queue_items(*final(q)) == (if spec_queue_items(*old(q)).len()
            < EVENT_QUEUE_CAPACITY {
            spec_queue_items(*old(q)).push(m)
        } else {
            spec_queue_items(*old(q))
        }),
{
    q.enqueue(m)
}

/// Relies on heapless::spsc::Queue::dequeue: the oldest event comes off the
/// front, or nothing if the ring is empty.
#[verifier::external_body]
fn spsc_dequeue(q: &mut heapless::spsc::Queue<Message, 8>) -> (r: Option<Message>)
    ensures
        r == (if spec_queue_items(*old(q)).len() == 0 {
            None::<Message>
        } else {
            Some(spec_queue_items(*old(q))[0])
        }),
        spec_queue_items(*final(q)) == (if spec_queue_items(*old(q)).len() == 0 {
            spec_queue_items(*old(q))
        } else {
            spec_queue_items(*old(q)).drop_first()
        }),
{
    q.dequeue()
}

/// Relies on heapless::spsc::Queue::len: the exact number of queued events,
/// under this crate's exclusive access.
#[verifier::external_body]
fn spsc_len(q: &heapless::spsc::Queue<Message, 8>) -> (n: usize)
    ensures
        n == spec_queue_items(*q).len(),
{
    q.len()
}

/// One enqueue against the queue's model: below capacity the event is
/// appended and accepted, at capacity the queue is unchanged and the event
/// refused.
pub open spec fn spec_enqueue_step(items: Seq<Message>, m: Message) -> (Seq<Message>, bool) {
    if items.len() < EVENT_QUEUE_CAPACITY {
        (items.push(m), true)
    } else {
        (items, false)
    }
}

/// Enqueuing a whole sequence of events, none dequeued in between: the
/// resulting queue and how many events were refused.
pub open spec fn spec_fill(items: Seq<Message>, incoming: Seq<Message>) -> (Seq<Message>, nat)
    decreases incoming.len(),
{
    if incoming.len() == 0 {
        (items, 0nat)
    } else {
        let (items1, accepted) = spec_enqueue_step(items, incoming[0]);
        let (items2, refused) = spec_fill(items1, incoming.drop_first());
        (
            items2,
            refused + (if accepted {
                0nat
            } else {
                1nat
            }),
        )
    }
}

/// The event queue, owned on the consumer side by the dispatch loop.
pub struct EventQueue {
    inner: heapless::spsc::Queue<Message, 8>,
}

impl View for EventQueue {
    type V = Seq<Message>;

    closed spec fn view(&self) -> Seq<Message> {
        spec_queue_items(self.inner)
    }
}

impl EventQueue {
    /// A fresh, empty queue.
    pub fn new() -> (q: EventQueue)
        ensures
            q@ == Seq::<Message>::empty(),
    {
        EventQueue { inner: spsc_new() }
    }

    /// How many events are queued.
    pub fn len(&self) -> (n: usize)
        ensures
            n == self@.len(),
    {
        spsc_len(&self.inner)
    }

    /// Appends one event, or hands it back if the queue is full. Losing a
    /// power/reset/protocol event is unsafe to paper over, so a caller must
    /// treat the refusal as a fatal fault, never drop it silently.
    pub fn enqueue(&mut self, m: Message) -> (r: Result<(), Message>)
        ensures
            final(self)@ == spec_enqueue_step(old(self)@, m).0,
            r is Ok <==> spec_enqueue_step(old(self)@, m).1,
            r is Err ==> r == Err::<(), Message>(m),
    {
        spsc_enqueue(&mut self.inner, m)
    }

    /// Removes and returns the oldest event, if any.
    pub fn dequeue(&mut self) -> (r: Option<Message>)
        ensures
            old(self)@.len() == 0 ==> r is None && final(self)@ == old(self)@,
            old(self)@.len() > 0 ==> r == Some(old(self)@[0]) && final(self)@ == old(
                self,
            )@.drop_first(),
    {
        spsc_dequeue(&mut self.inner)
    }
}

/// Filling a queue that holds `items`: everything up to the free room is
/// accepted in order, and exactly the events beyond it are refused.
proof fn lemma_fill(items: Seq<Message>, incoming: Seq<Message>)
    requires
        items.len() <= EVENT_QUEUE_CAPACITY,
    ensures
        items.len() + incoming.len() <= EVENT_QUEUE_CAPACITY ==> spec_fill(items, incoming) == (
            items + incoming,
            0nat,
        ),
        items.len() + incoming.len() > EVENT_QUEUE_CAPACITY ==> spec_fill(items, incoming) == (
            items + incoming.take(EVENT_QUEUE_CAPACITY - items.len()),
            (items.len() + incoming.len() - EVENT_QUEUE_CAPACITY) as nat,
        ),
    decreases incoming.len(),
{
    if incoming.len() == 0 {
        assert(items + incoming =~= items);
    } else {
        let (items1, accepted) = spec_enqueue_step(items, incoming[0]);
        lemma_fill(items1, incoming.drop_first());
        if accepted {
            if items1.len() + incoming.drop_first().len() <= EVENT_QUEUE_CAPACITY {
                assert(items1 + incoming.drop_first() =~= items + incoming);
            } else {
                assert(items1 + incoming.drop_first().take(
                    EVENT_QUEUE_CAPACITY - items1.len(),
                ) =~= items + incoming.take(EVENT_QUEUE_CAPACITY - items.len()));
            }
        } else {
            assert(incoming.take(0) =~= Seq::<Message>::empty());
            assert(items + incoming.take(0) =~= items);
            if items.len() + incoming.drop_first().len() > EVENT_QUEUE_CAPACITY {
                assert(items + incoming.drop_first().take(EVENT_QUEUE_CAPACITY - items.len())
                    =~= items);
            } else {
                assert(items + incoming.drop_first() =~= items);
            }
        }
    }
}

/// Law: enqueuing no more events than the capacity, while none are dequeued,
/// loses nothing — the queue then holds exactly those events in order.
pub proof fn lemma_queue_holds_capacity(incoming: Seq<Message>)
    requires
        incoming.len() <= EVENT_QUEUE_CAPACITY,
    ensures
        spec_fill(Seq::<Message>::empty(), incoming) == (incoming, 0nat),
{
    lemma_fill(Seq::<Message>::empty(), incoming);
    assert(Seq::<Message>::empty() + incoming =~= incoming);
}

/// Law: enqueuing more events than the capacity, while none are dequeued, is
/// observable as the overflow fault — every event beyond the capacity is
/// refused, and the queue keeps exactly the first `EVENT_QUEUE_CAPACITY`.
pub proof fn lemma_queue_overflow(incoming: Seq<Message>)
    requires
        incoming.len() > EVENT_QUEUE_CAPACITY,
    ensures
        spec_fill(Seq::<Message>::empty(), incoming).1 == incoming.len() - EVENT_QUEUE_CAPACITY,
        spec_fill(Seq::<Message>::empty(), incoming).0 == incoming.take(
            EVENT_QUEUE_CAPACITY as int,
        ),
{
    lemma_fill(Seq::<Message>::empty(), incoming);
    assert(Seq::<Message>::empty() + incoming.take(EVENT_QUEUE_CAPACITY as int) =~= incoming.take(
        EVENT_QUEUE_CAPACITY as int,
    ));
}

} // verus!
