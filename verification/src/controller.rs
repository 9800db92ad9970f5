//! The controller: the one place where normalised events enter the
//! dispatch channel and where the consumer's handle is given out.

use vstd::prelude::*;
use crate::channel::{
    DispatchChannel, dropped_all, lemma_burst_into_empty_channel, lemma_one_more_offered, offered,
    offered_all,
};
use crate::event::{SessionVerificationEvent, VerificationEventView, event_view};
use crate::timeline::{JoinedRoomTimeline, RoomEvent, TimelineEvent};
use crate::to_device::ToDeviceEvent;

verus! {

/// The number of events that wait for the consumer at most.
pub const CHANNEL_CAPACITY: usize = 10;

/// The consumer's end of the dispatch channel. A controller gives it out
/// once; whoever holds it is the only one who can take events out.
#[derive(Debug)]
pub struct EventReceiver {
    sealed: (),
}

/// What became of one raw event that was handed to the controller.
#[derive(Debug, PartialEq, Eq)]
pub enum Dispatch {
    /// The event is no stage of a verification handshake.
    Ignored,
    /// The normalised event waits for the consumer.
    Queued,
    /// The channel was full and the normalised event was dropped.
    Dropped { transaction_id: String },
}

impl Dispatch {
    /// Whether this is the outcome of handing `event` to a channel that has
    /// room for one more event or has none.
    pub open spec fn reports(self, has_room: bool, event: Option<VerificationEventView>) -> bool {
        match event {
            None => self is Ignored,
            Some(v) => if has_room {
                self is Queued
            } else {
                self matches Dispatch::Dropped { transaction_id } && transaction_id@
                    == v.transaction_id
            },
        }
    }
}

/// The verification events that a batch of to-device events stands for, in
/// the order of the batch. Entries that could not be deserialized and events
/// that are no stage of a handshake stand for none.
pub open spec fn to_device_batch(
    batch: Seq<Option<ToDeviceEvent>>,
    local_device: Seq<char>,
) -> Seq<VerificationEventView>
    decreases batch.len(),
{
    if batch.len() == 0 {
        Seq::empty()
    } else {
        let earlier = to_device_batch(batch.drop_last(), local_device);
        match batch.last() {
            Some(event) => match event.normalized(local_device) {
                Some(v) => earlier.push(v),
                None => earlier,
            },
            None => earlier,
        }
    }
}

/// The verification events that the timeline of one room stands for, in the
/// order of the timeline.
pub open spec fn timeline_batch(
    events: Seq<Option<RoomEvent>>,
    local_device: Seq<char>,
) -> Seq<VerificationEventView>
    decreases events.len(),
{
    if events.len() == 0 {
        Seq::empty()
    } else {
        let earlier = timeline_batch(events.drop_last(), local_device);
        match events.last() {
            Some(event) => match event.normalized(local_device) {
                Some(v) => earlier.push(v),
                None => earlier,
            },
            None => earlier,
        }
    }
}

/// The verification events that the timelines of several rooms stand for:
/// room after room, each in the order of its timeline.
pub open spec fn rooms_batch(
    rooms: Seq<JoinedRoomTimeline>,
    local_device: Seq<char>,
) -> Seq<VerificationEventView>
    decreases rooms.len(),
{
    if rooms.len() == 0 {
        Seq::empty()
    } else {
        rooms_batch(rooms.drop_last(), local_device) + timeline_batch(
            rooms.last().events@,
            local_device,
        )
    }
}

/// What one protocol round delivered over one of the two transports.
#[derive(Debug, PartialEq, Eq)]
pub enum RawBatch {
    /// The timelines of the joined rooms.
    RoomTimelines(Vec<JoinedRoomTimeline>),
    /// The to-device events. An entry that could not be deserialized is
    /// `None`.
    ToDevice(Vec<Option<ToDeviceEvent>>),
}

impl RawBatch {
    /// The verification events that the batch stands for, in the order in
    /// which its transport's adapter comes upon them.
    pub open spec fn events(self, local_device: Seq<char>) -> Seq<VerificationEventView> {
        match self {
            RawBatch::RoomTimelines(rooms) => rooms_batch(rooms@, local_device),
            RawBatch::ToDevice(events) => to_device_batch(events@, local_device),
        }
    }
}

/// The transaction ids of a sequence of events.
pub open spec fn transactions_of(events: Seq<VerificationEventView>) -> Seq<Seq<char>> {
    events.map_values(|v: VerificationEventView| v.transaction_id)
}

/// The texts of a sequence of strings.
pub open spec fn texts_of(strings: Seq<String>) -> Seq<Seq<char>> {
    strings.map_values(|s: String| s@)
}

/// The state of a controller: what waits in its channel, oldest first, how
/// much the channel holds, and whether the consumer's end is still there to
/// be given out.
pub struct ControllerView {
    pub pending: Seq<VerificationEventView>,
    pub capacity: nat,
    pub consumer_available: bool,
}

impl ControllerView {
    /// A controller that has seen nothing yet.
    pub open spec fn fresh(capacity: nat) -> ControllerView {
        ControllerView { pending: Seq::empty(), capacity, consumer_available: true }
    }

    /// Whether the channel takes one more event.
    pub open spec fn has_room(self) -> bool {
        self.pending.len() < self.capacity
    }

    /// The state after a raw event was handed in that stands for `event`.
    pub open spec fn handed(self, event: Option<VerificationEventView>) -> ControllerView {
        match event {
            Some(v) => ControllerView {
                pending: offered(self.pending, self.capacity, v),
                ..self
            },
            None => self,
        }
    }

    /// The state after a batch was handed in that stands for `events`.
    pub open spec fn handed_all(self, events: Seq<VerificationEventView>) -> ControllerView {
        ControllerView { pending: offered_all(self.pending, self.capacity, events), ..self }
    }

    /// The events of such a batch that found the channel full.
    pub open spec fn overflow(self, events: Seq<VerificationEventView>) -> Seq<
        VerificationEventView,
    > {
        dropped_all(self.pending, self.capacity, events)
    }

    /// The state after the consumer's end was asked for.
    pub open spec fn consumer_taken(self) -> ControllerView {
        ControllerView { consumer_available: false, ..self }
    }

    /// The event that the consumer gets next.
    pub open spec fn next(self) -> Option<VerificationEventView> {
        if self.pending.len() > 0 {
            Some(self.pending.first())
        } else {
            None
        }
    }

    /// The state after the consumer took what was next.
    pub open spec fn advanced(self) -> ControllerView {
        if self.pending.len() > 0 {
            ControllerView { pending: self.pending.drop_first(), ..self }
        } else {
            self
        }
    }

    /// The state after the consumer took out `count` events, one after the
    /// other.
    pub open spec fn advanced_by(self, count: nat) -> ControllerView
        decreases count,
    {
        if count == 0 {
            self
        } else {
            self.advanced().advanced_by((count - 1) as nat)
        }
    }
}

/// The consumer's end is given out exactly once: a fresh controller grants
/// the first request, and no request is granted after one was made, whatever
/// is handed in or taken out in between.
pub proof fn lemma_consumer_given_out_once(
    state: ControllerView,
    capacity: nat,
    event: Option<VerificationEventView>,
    events: Seq<VerificationEventView>,
)
    ensures
        ControllerView::fresh(capacity).consumer_available,
        !state.consumer_taken().consumer_available,
        state.consumer_taken().consumer_taken() == state.consumer_taken(),
        state.handed(event).consumer_available == state.consumer_available,
        state.handed_all(events).consumer_available == state.consumer_available,
        state.advanced().consumer_available == state.consumer_available,
        state.consumer_taken().pending == state.pending,
{
}

/// With no consumer at work, a controller that has seen nothing yet keeps
/// the first `capacity` events of what is handed in, in their order, and
/// drops the rest. Handing in never fails, and never leaves more than
/// `capacity` events waiting.
pub proof fn lemma_overflow_keeps_earliest(capacity: nat, events: Seq<VerificationEventView>)
    ensures
        events.len() <= capacity ==> ControllerView::fresh(capacity).handed_all(events).pending
            == events,
        events.len() > capacity ==> ControllerView::fresh(capacity).handed_all(events).pending
            == events.take(capacity as int),
        events.len() > capacity ==> ControllerView::fresh(capacity).overflow(events)
            == events.skip(capacity as int),
        ControllerView::fresh(capacity).handed_all(events).pending.len() <= capacity,
{
    lemma_burst_into_empty_channel(capacity, events);
}

/// The consumer gets the events in the order in which they were accepted:
/// taking one out hands over the oldest and leaves the others in place.
pub proof fn lemma_first_in_first_out(state: ControllerView, event: VerificationEventView)
    requires
        state.has_room(),
    ensures
        state.pending.len() == 0 ==> state.handed(Some(event)).next() == Some(event),
        state.pending.len() > 0 ==> state.handed(Some(event)).next() == state.next(),
        state.pending.len() > 0 ==> state.handed(Some(event)).advanced() == state.advanced().handed(
            Some(event),
        ),
{
    if state.pending.len() > 0 {
        assert(state.pending.push(event).drop_first() =~= state.pending.drop_first().push(event));
    }
}

/// Draining hands over what waits, oldest first: after `count` events were
/// taken out, the next one is the one that stood at place `count`, and once
/// all are taken out nothing is left.
pub proof fn lemma_drained_in_order(state: ControllerView, count: nat)
    requires
        count <= state.pending.len(),
    ensures
        state.advanced_by(count).pending == state.pending.skip(count as int),
        state.advanced_by(count).capacity == state.capacity,
        state.advanced_by(count).consumer_available == state.consumer_available,
        count < state.pending.len() ==> state.advanced_by(count).next() == Some(
            state.pending[count as int],
        ),
        count == state.pending.len() ==> state.advanced_by(count).next() is None,
    decreases count,
{
    if count > 0 {
        lemma_drained_in_order(state.advanced(), (count - 1) as nat);
    }
}

/// Owns the producer's end of the dispatch channel, feeds it from the two
/// transports, and gives the consumer's end out once.
pub struct SessionVerificationController {
    channel: DispatchChannel,
    event_rx: Option<EventReceiver>,
}

impl View for SessionVerificationController {
    type V = ControllerView;

    closed spec fn view(&self) -> ControllerView {
        ControllerView {
            pending: self.channel@,
            capacity: self.channel.capacity() as nat,
            consumer_available: self.event_rx is Some,
        }
    }
}

impl SessionVerificationController {
    /// A controller with an empty channel, which still holds the consumer's
    /// end.
    pub fn new() -> (controller: Self)
        ensures
            controller@ == ControllerView::fresh(CHANNEL_CAPACITY as nat),
    {
        SessionVerificationController {
            channel: DispatchChannel::new(CHANNEL_CAPACITY),
            event_rx: Some(EventReceiver { sealed: () }),
        }
    }

    /// Gives out the consumer's end of the channel: on the first call only.
    /// Every later call finds it gone.
    pub fn get_event_rx(&mut self) -> (receiver: Option<EventReceiver>)
        ensures
            receiver is Some <==> old(self)@.consumer_available,
            final(self)@ == old(self)@.consumer_taken(),
    {
        self.event_rx.take()
    }

    /// The number of events that wait for the consumer.
    pub fn queued(&self) -> (count: usize)
        ensures
            count == self@.pending.len(),
            count <= self@.capacity,
    {
        self.channel.len()
    }

    /// Pushes a normalised event onto the channel without ever waiting. On
    /// a full channel the event is dropped, and the outcome names its
    /// transaction for the diagnostic.
    pub fn enqueue(&mut self, event: SessionVerificationEvent) -> (outcome: Dispatch)
        ensures
            final(self)@ == old(self)@.handed(Some(event@)),
            outcome.reports(old(self)@.has_room(), Some(event@)),
    {
        if self.channel.is_full() {
            Dispatch::Dropped { transaction_id: event.get_txn_id() }
        } else {
            self.channel.enqueue(event);
            Dispatch::Queued
        }
    }

    fn dispatch(&mut self, event: Option<SessionVerificationEvent>) -> (outcome: Dispatch)
        ensures
            final(self)@ == old(self)@.handed(event_view(event)),
            outcome.reports(old(self)@.has_room(), event_view(event)),
    {
        match event {
            Some(event) => self.enqueue(event),
            None => Dispatch::Ignored,
        }
    }

    /// Handles one message-like event of a room timeline: a stage of a
    /// handshake is normalised and pushed onto the channel, anything else is
    /// ignored.
    pub fn handle_sync_messages(
        &mut self,
        local_device: &str,
        evt: &TimelineEvent,
    ) -> (outcome: Dispatch)
        ensures
            final(self)@ == old(self)@.handed(evt.normalized(local_device@)),
            outcome.reports(old(self)@.has_room(), evt.normalized(local_device@)),
    {
        self.dispatch(evt.normalize(local_device))
    }

    /// Handles one to-device event: a stage of a handshake is normalised and
    /// pushed onto the channel, anything else is ignored.
    pub fn handle_to_device_messages(
        &mut self,
        local_device: &str,
        evt: &ToDeviceEvent,
    ) -> (outcome: Dispatch)
        ensures
            final(self)@ == old(self)@.handed(evt.normalized(local_device@)),
            outcome.reports(old(self)@.has_room(), evt.normalized(local_device@)),
    {
        self.dispatch(evt.normalize(local_device))
    }
}

impl SessionVerificationController {
    /// Handles the timelines of the joined rooms that one protocol round
    /// delivered: room after room, each event in the order of its timeline.
    /// Entries that could not be deserialized and state events are skipped.
    /// Returns the transaction ids of the events that were dropped because
    /// the channel was full, in the order in which they came.
    pub fn process_sync_messages(
        &mut self,
        local_device: &str,
        rooms: &Vec<JoinedRoomTimeline>,
    ) -> (dropped: Vec<String>)
        ensures
            final(self)@ == old(self)@.handed_all(rooms_batch(rooms@, local_device@)),
            texts_of(dropped@) == transactions_of(
                old(self)@.overflow(rooms_batch(rooms@, local_device@)),
            ),
            dropped@.len() == old(self)@.overflow(rooms_batch(rooms@, local_device@)).len(),
    {
        let ghost start = self@.pending;
        let ghost capacity = self@.capacity;
        let ghost consumer = self@.consumer_available;
        let ghost local = local_device@;
        let mut dropped: Vec<String> = Vec::new();
        let mut r: usize = 0;
        while r < rooms.len()
            invariant
                r <= rooms.len(),
                local == local_device@,
                self@.capacity == capacity,
                self@.consumer_available == consumer,
                self@.pending == offered_all(
                    start,
                    capacity,
                    rooms_batch(rooms@.take(r as int), local),
                ),
                texts_of(dropped@) == transactions_of(
                    dropped_all(start, capacity, rooms_batch(rooms@.take(r as int), local)),
                ),
            decreases rooms.len() - r,
        {
            let events = &rooms[r].events;
            let ghost before = rooms_batch(rooms@.take(r as int), local);
            let mut i: usize = 0;
            while i < events.len()
                invariant
                    i <= events.len(),
                    local == local_device@,
                    self@.capacity == capacity,
                    self@.consumer_available == consumer,
                    self@.pending == offered_all(
                        start,
                        capacity,
                        before + timeline_batch(events@.take(i as int), local),
                    ),
                    texts_of(dropped@) == transactions_of(
                        dropped_all(
                            start,
                            capacity,
                            before + timeline_batch(events@.take(i as int), local),
                        ),
                    ),
                decreases events.len() - i,
            {
                let ghost seen = timeline_batch(events@.take(i as int), local);
                let outcome = match &events[i] {
                    Some(RoomEvent::MessageLike(evt)) => self.handle_sync_messages(
                        local_device,
                        evt,
                    ),
                    _ => Dispatch::Ignored,
                };
                proof {
                    assert(events@.take(i + 1).drop_last() =~= events@.take(i as int));
                    if let Some(event) = events@[i as int] {
                        if let Some(v) = event.normalized(local) {
                            lemma_one_more_offered(start, capacity, before + seen, v);
                        }
                    }
                }
                if let Dispatch::Dropped { transaction_id } = outcome {
                    assert(texts_of(dropped@.push(transaction_id)) =~= texts_of(dropped@).push(
                        transaction_id@,
                    ));
                    dropped.push(transaction_id);
                }
                i += 1;
            }
            proof {
                assert(events@.take(events@.len() as int) =~= events@);
                assert(rooms@.take(r + 1).drop_last() =~= rooms@.take(r as int));
            }
            r += 1;
        }
        proof {
            assert(rooms@.take(rooms@.len() as int) =~= rooms@);
        }
        dropped
    }

    /// Handles the to-device events that one protocol round delivered, in
    /// their order. Entries that could not be deserialized are skipped.
    /// Returns the transaction ids of the events that were dropped because
    /// the channel was full, in the order in which they came.
    pub fn process_to_device_messages(
        &mut self,
        local_device: &str,
        to_device: Vec<Option<ToDeviceEvent>>,
    ) -> (dropped: Vec<String>)
        ensures
            final(self)@ == old(self)@.handed_all(to_device_batch(to_device@, local_device@)),
            texts_of(dropped@) == transactions_of(
                old(self)@.overflow(to_device_batch(to_device@, local_device@)),
            ),
            dropped@.len() == old(self)@.overflow(to_device_batch(to_device@, local_device@)).len(),
    {
        let ghost start = self@.pending;
        let ghost capacity = self@.capacity;
        let ghost consumer = self@.consumer_available;
        let ghost local = local_device@;
        let mut dropped: Vec<String> = Vec::new();
        let mut i: usize = 0;
        while i < to_device.len()
            invariant
                i <= to_device.len(),
                local == local_device@,
                self@.capacity == capacity,
                self@.consumer_available == consumer,
                self@.pending == offered_all(
                    start,
                    capacity,
                    to_device_batch(to_device@.take(i as int), local),
                ),
                texts_of(dropped@) == transactions_of(
                    dropped_all(start, capacity, to_device_batch(to_device@.take(i as int), local)),
                ),
            decreases to_device.len() - i,
        {
            let ghost seen = to_device_batch(to_device@.take(i as int), local);
            let outcome = match &to_device[i] {
                Some(evt) => self.handle_to_device_messages(local_device, evt),
                None => Dispatch::Ignored,
            };
            proof {
                assert(to_device@.take(i + 1).drop_last() =~= to_device@.take(i as int));
                if let Some(event) = to_device@[i as int] {
                    if let Some(v) = event.normalized(local) {
                        lemma_one_more_offered(start, capacity, seen, v);
                    }
                }
            }
            if let Dispatch::Dropped { transaction_id } = outcome {
                assert(texts_of(dropped@.push(transaction_id)) =~= texts_of(dropped@).push(
                    transaction_id@,
                ));
                dropped.push(transaction_id);
            }
            i += 1;
        }
        proof {
            assert(to_device@.take(to_device@.len() as int) =~= to_device@);
        }
        dropped
    }
}

impl SessionVerificationController {
    /// Hands a raw batch to the adapter of its transport. What the adapter
    /// makes of it is pushed onto the channel in the order of arrival.
    /// Returns the transaction ids of the events that were dropped because
    /// the channel was full, in the order in which they came.
    pub fn route(&mut self, local_device: &str, batch: RawBatch) -> (dropped: Vec<String>)
        ensures
            final(self)@ == old(self)@.handed_all(batch.events(local_device@)),
            texts_of(dropped@) == transactions_of(
                old(self)@.overflow(batch.events(local_device@)),
            ),
            dropped@.len() == old(self)@.overflow(batch.events(local_device@)).len(),
    {
        match batch {
            RawBatch::RoomTimelines(rooms) => self.process_sync_messages(local_device, &rooms),
            RawBatch::ToDevice(events) => self.process_to_device_messages(local_device, events),
        }
    }
}

impl EventReceiver {
    /// Takes the event that has waited longest out of the controller's
    /// channel, if any is waiting.
    pub fn try_next(&mut self, controller: &mut SessionVerificationController) -> (event: Option<
        SessionVerificationEvent,
    >)
        ensures
            event_view(event) == old(controller)@.next(),
            final(controller)@ == old(controller)@.advanced(),
    {
        controller.channel.dequeue()
    }
}

} // verus!
