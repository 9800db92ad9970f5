//! The bounded queue between the transport adapters and the consumer.
//!
//! Events leave in the order in which they were accepted. An event offered
//! to a full channel is dropped: the producer is never held up, and what is
//! already queued is never displaced.

use std::collections::VecDeque;
use vstd::prelude::*;
use crate::event::{SessionVerificationEvent, VerificationEventView, event_view};

verus! {

/// What a channel of the given capacity holds after `event` was offered to
/// it: the event joins the back of the queue if there is room for it.
pub open spec fn offered(
    queue: Seq<VerificationEventView>,
    capacity: nat,
    event: VerificationEventView,
) -> Seq<VerificationEventView> {
    if queue.len() < capacity {
        queue.push(event)
    } else {
        queue
    }
}

/// How many of `count` events offered in a row a channel accepts that
/// already holds `held` events.
pub open spec fn room_for(held: nat, capacity: nat, count: nat) -> nat {
    if held >= capacity {
        0
    } else if count <= capacity - held {
        count
    } else {
        (capacity - held) as nat
    }
}

/// What a channel holds after `events` were offered to it one after the
/// other, with nothing taken out in between.
pub open spec fn offered_all(
    queue: Seq<VerificationEventView>,
    capacity: nat,
    events: Seq<VerificationEventView>,
) -> Seq<VerificationEventView>
    decreases events.len(),
{
    if events.len() == 0 {
        queue
    } else {
        offered(offered_all(queue, capacity, events.drop_last()), capacity, events.last())
    }
}

/// The events among `events` that a channel drops when they are offered to
/// it one after the other, with nothing taken out in between.
pub open spec fn dropped_all(
    queue: Seq<VerificationEventView>,
    capacity: nat,
    events: Seq<VerificationEventView>,
) -> Seq<VerificationEventView>
    decreases events.len(),
{
    if events.len() == 0 {
        Seq::empty()
    } else {
        let earlier = dropped_all(queue, capacity, events.drop_last());
        if offered_all(queue, capacity, events.drop_last()).len() < capacity {
            earlier
        } else {
            earlier.push(events.last())
        }
    }
}

/// Offering one more event after `events` is offering it to what `events`
/// left in the channel; it is dropped if they left the channel full.
pub proof fn lemma_one_more_offered(
    queue: Seq<VerificationEventView>,
    capacity: nat,
    events: Seq<VerificationEventView>,
    event: VerificationEventView,
)
    ensures
        offered_all(queue, capacity, events.push(event)) == offered(
            offered_all(queue, capacity, events),
            capacity,
            event,
        ),
        dropped_all(queue, capacity, events.push(event)) == if offered_all(
            queue,
            capacity,
            events,
        ).len() < capacity {
            dropped_all(queue, capacity, events)
        } else {
            dropped_all(queue, capacity, events).push(event)
        },
{
    assert(events.push(event).drop_last() =~= events);
}

/// Overflow drops the newest arrivals: of events offered in a row, the
/// channel accepts the earliest for which it has room, behind what it held
/// before and in the order in which they came, and drops every later one.
pub proof fn lemma_overflow_drops_newest(
    queue: Seq<VerificationEventView>,
    capacity: nat,
    events: Seq<VerificationEventView>,
)
    requires
        queue.len() <= capacity,
    ensures
        offered_all(queue, capacity, events) == queue + events.take(
            room_for(queue.len(), capacity, events.len()) as int,
        ),
        dropped_all(queue, capacity, events) == events.skip(
            room_for(queue.len(), capacity, events.len()) as int,
        ),
        offered_all(queue, capacity, events).len() <= capacity,
    decreases events.len(),
{
    if events.len() > 0 {
        lemma_overflow_drops_newest(queue, capacity, events.drop_last());
    }
}

/// Where one batch ends and the next begins makes no difference: offering
/// two batches one after the other is offering all their events in a row.
pub proof fn lemma_batches_in_a_row(
    queue: Seq<VerificationEventView>,
    capacity: nat,
    first: Seq<VerificationEventView>,
    second: Seq<VerificationEventView>,
)
    ensures
        offered_all(offered_all(queue, capacity, first), capacity, second) == offered_all(
            queue,
            capacity,
            first + second,
        ),
        dropped_all(queue, capacity, first) + dropped_all(
            offered_all(queue, capacity, first),
            capacity,
            second,
        ) == dropped_all(queue, capacity, first + second),
    decreases second.len(),
{
    if second.len() > 0 {
        let earlier = second.drop_last();
        lemma_batches_in_a_row(queue, capacity, first, earlier);
        assert((first + second).drop_last() =~= first + earlier);
    }
}

/// A burst into an empty channel with no consumer at work: the first
/// `capacity` events of the burst wait in the channel, in their order, and
/// the rest of the burst is dropped.
pub proof fn lemma_burst_into_empty_channel(capacity: nat, events: Seq<VerificationEventView>)
    ensures
        events.len() <= capacity ==> offered_all(Seq::empty(), capacity, events) == events
            && dropped_all(Seq::empty(), capacity, events) == Seq::<
            VerificationEventView,
        >::empty(),
        events.len() > capacity ==> offered_all(Seq::empty(), capacity, events) == events.take(
            capacity as int,
        ) && dropped_all(Seq::empty(), capacity, events) == events.skip(capacity as int),
{
    lemma_overflow_drops_newest(Seq::empty(), capacity, events);
}

/// A first-in, first-out queue of verification events with a fixed
/// capacity.
pub struct DispatchChannel {
    queue: VecDeque<SessionVerificationEvent>,
    limit: usize,
}

impl View for DispatchChannel {
    type V = Seq<VerificationEventView>;

    closed spec fn view(&self) -> Seq<VerificationEventView> {
        self.queue@.map_values(|e: SessionVerificationEvent| e@)
    }
}

impl DispatchChannel {
    #[verifier::type_invariant]
    spec fn within_capacity(&self) -> bool {
        self.queue@.len() <= self.limit
    }

    /// The largest number of events the channel holds at a time.
    pub closed spec fn spec_capacity(&self) -> usize {
        self.limit
    }

    /// An empty channel that holds up to `capacity` events.
    pub fn new(capacity: usize) -> (channel: Self)
        ensures
            channel@ == Seq::<VerificationEventView>::empty(),
            channel.capacity() == capacity,
    {
        DispatchChannel { queue: VecDeque::new(), limit: capacity }
    }

    #[verifier::when_used_as_spec(spec_capacity)]
    pub fn capacity(&self) -> (capacity: usize)
        ensures
            capacity == self.spec_capacity(),
    {
        self.limit
    }

    /// The number of events waiting for the consumer.
    pub fn len(&self) -> (len: usize)
        ensures
            len == self@.len(),
            len <= self.capacity(),
    {
        proof {
            use_type_invariant(self);
        }
        self.queue.len()
    }

    pub fn is_empty(&self) -> (empty: bool)
        ensures
            empty == (self@.len() == 0),
    {
        self.queue.len() == 0
    }

    /// Whether the next event offered will be dropped.
    pub fn is_full(&self) -> (full: bool)
        ensures
            full == (self@.len() >= self.capacity()),
    {
        self.queue.len() >= self.limit
    }

    /// Offers an event to the channel without ever waiting. The event is
    /// queued behind those already waiting if the channel has room, and
    /// dropped if it is full. Returns whether it was queued.
    pub fn enqueue(&mut self, event: SessionVerificationEvent) -> (accepted: bool)
        ensures
            accepted == (old(self)@.len() < old(self).capacity()),
            final(self)@ == offered(old(self)@, old(self).capacity() as nat, event@),
            final(self).capacity() == old(self).capacity(),
    {
        if self.queue.len() < self.limit {
            // The queue grows outside the channel and is put back whole.
            let mut queue = VecDeque::new();
            core::mem::swap(&mut self.queue, &mut queue);
            queue.push_back(event);
            self.queue = queue;
            true
        } else {
            false
        }
    }

    /// Hands out the event that has waited longest, if any is waiting.
    pub fn dequeue(&mut self) -> (event: Option<SessionVerificationEvent>)
        ensures
            final(self).capacity() == old(self).capacity(),
            old(self)@.len() == 0 ==> event is None && final(self)@ == old(self)@,
            old(self)@.len() > 0 ==> event_view(event) == Some(old(self)@.first()) && final(self)@
                == old(self)@.drop_first(),
    {
        proof {
            use_type_invariant(&*self);
        }
        // The queue shrinks outside the channel and is put back whole.
        let mut queue = VecDeque::new();
        core::mem::swap(&mut self.queue, &mut queue);
        let event = queue.pop_front();
        self.queue = queue;
        event
    }
}

} // verus!
