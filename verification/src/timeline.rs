//! Verification events that arrive in the timeline of a joined room.
//!
//! A handshake opens with an ordinary room message whose message type marks
//! it as a verification request; the event id of that message becomes the
//! transaction id. Every later stage refers back to that message.

use vstd::prelude::*;
use crate::event::{EventKind, SessionVerificationEvent, VerificationEventView, event_view};

verus! {

/// The sub-type of a room message, as far as verification looks at it.
#[derive(Clone, Copy, Debug, PartialEq, Eq, Structural)]
pub enum MessageType {
    VerificationRequest,
    /// Text, media and every other kind of message.
    Other,
}

/// The content of a message-like timeline event, by its shape.
#[derive(Debug, PartialEq, Eq)]
pub enum TimelineContent {
    RoomMessage { msgtype: MessageType },
    KeyVerificationReady { relates_to: String, from_device: String },
    KeyVerificationStart { relates_to: String, from_device: String },
    KeyVerificationAccept { relates_to: String },
    KeyVerificationCancel { relates_to: String, code: String, reason: String },
    KeyVerificationKey { relates_to: String },
    KeyVerificationMac { relates_to: String },
    KeyVerificationDone { relates_to: String },
    /// A redacted event, or one of a type that is no stage of a handshake.
    Other,
}

/// A deserialized message-like event of a room timeline.
#[derive(Debug, PartialEq, Eq)]
pub struct TimelineEvent {
    pub sender: String,
    pub event_id: String,
    pub content: TimelineContent,
}

/// A deserialized event of a room timeline.
#[derive(Debug, PartialEq, Eq)]
pub enum RoomEvent {
    MessageLike(TimelineEvent),
    /// A state event.
    State,
}

/// The timeline of one joined room, as one protocol round delivered it.
/// An entry that could not be deserialized is `None`.
#[derive(Debug, PartialEq, Eq)]
pub struct JoinedRoomTimeline {
    pub room_id: String,
    pub events: Vec<Option<RoomEvent>>,
}

impl TimelineContent {
    /// The handshake stage of a recognised shape.
    pub open spec fn stage(self) -> Option<EventKind> {
        match self {
            TimelineContent::RoomMessage { msgtype: MessageType::VerificationRequest } => Some(
                EventKind::VerificationRequest,
            ),
            TimelineContent::RoomMessage { msgtype: MessageType::Other } => None,
            TimelineContent::KeyVerificationReady { .. } => Some(EventKind::Ready),
            TimelineContent::KeyVerificationStart { .. } => Some(EventKind::Start),
            TimelineContent::KeyVerificationAccept { .. } => Some(EventKind::Accept),
            TimelineContent::KeyVerificationCancel { .. } => Some(EventKind::Cancel),
            TimelineContent::KeyVerificationKey { .. } => Some(EventKind::Key),
            TimelineContent::KeyVerificationMac { .. } => Some(EventKind::Mac),
            TimelineContent::KeyVerificationDone { .. } => Some(EventKind::Done),
            TimelineContent::Other => None,
        }
    }

    /// The event that a follow-on stage refers back to.
    pub open spec fn reference(self) -> Option<Seq<char>> {
        match self {
            TimelineContent::KeyVerificationReady { relates_to, .. } => Some(relates_to@),
            TimelineContent::KeyVerificationStart { relates_to, .. } => Some(relates_to@),
            TimelineContent::KeyVerificationAccept { relates_to } => Some(relates_to@),
            TimelineContent::KeyVerificationCancel { relates_to, .. } => Some(relates_to@),
            TimelineContent::KeyVerificationKey { relates_to } => Some(relates_to@),
            TimelineContent::KeyVerificationMac { relates_to } => Some(relates_to@),
            TimelineContent::KeyVerificationDone { relates_to } => Some(relates_to@),
            _ => None,
        }
    }

    /// The originating device, on the shapes whose device the event reports.
    pub open spec fn launcher(self) -> Option<Seq<char>> {
        match self {
            TimelineContent::KeyVerificationReady { from_device, .. } => Some(from_device@),
            TimelineContent::KeyVerificationStart { from_device, .. } => Some(from_device@),
            _ => None,
        }
    }

    /// The code and the reason of a cancellation.
    pub open spec fn cancellation(self) -> Option<(Seq<char>, Seq<char>)> {
        match self {
            TimelineContent::KeyVerificationCancel { code, reason, .. } => Some((code@, reason@)),
            _ => None,
        }
    }
}

impl TimelineEvent {
    /// The transaction that the event belongs to: the event a follow-on
    /// stage refers back to, and the event's own id for the opening request.
    pub open spec fn transaction(self) -> Seq<char> {
        match self.content.reference() {
            Some(id) => id,
            None => self.event_id@,
        }
    }

    /// The verification event that this timeline event stands for, if it is
    /// a stage of a handshake.
    pub open spec fn normalized(self, local_device: Seq<char>) -> Option<VerificationEventView> {
        match self.content.stage() {
            Some(kind) => Some(
                VerificationEventView {
                    kind,
                    transaction_id: self.transaction(),
                    sender: self.sender@,
                    launcher_device: self.content.launcher(),
                    cancel_code: match self.content.cancellation() {
                        Some(c) => Some(c.0),
                        None => None,
                    },
                    cancel_reason: match self.content.cancellation() {
                        Some(c) => Some(c.1),
                        None => None,
                    },
                    local_device,
                },
            ),
            None => None,
        }
    }

    /// Projects the event onto the normalised shape: one verification event
    /// for a stage of a handshake, none for anything else.
    pub fn normalize(&self, local_device: &str) -> (event: Option<SessionVerificationEvent>)
        ensures
            event_view(event) == self.normalized(local_device@),
    {
        let device = local_device.to_owned();
        let sender = self.sender.clone();
        match &self.content {
            TimelineContent::RoomMessage { msgtype } => match msgtype {
                MessageType::VerificationRequest => Some(
                    SessionVerificationEvent::new(
                        device,
                        EventKind::VerificationRequest,
                        self.event_id.clone(),
                        sender,
                        None,
                        None,
                        None,
                    ),
                ),
                MessageType::Other => None,
            },
            TimelineContent::KeyVerificationReady { relates_to, from_device } => Some(
                SessionVerificationEvent::new(
                    device,
                    EventKind::Ready,
                    relates_to.clone(),
                    sender,
                    Some(from_device.clone()),
                    None,
                    None,
                ),
            ),
            TimelineContent::KeyVerificationStart { relates_to, from_device } => Some(
                SessionVerificationEvent::new(
                    device,
                    EventKind::Start,
                    relates_to.clone(),
                    sender,
                    Some(from_device.clone()),
                    None,
                    None,
                ),
            ),
            TimelineContent::KeyVerificationAccept { relates_to } => Some(
                SessionVerificationEvent::new(
                    device,
                    EventKind::Accept,
                    relates_to.clone(),
                    sender,
                    None,
                    None,
                    None,
                ),
            ),
            TimelineContent::KeyVerificationCancel { relates_to, code, reason } => Some(
                SessionVerificationEvent::new(
                    device,
                    EventKind::Cancel,
                    relates_to.clone(),
                    sender,
                    None,
                    Some(code.clone()),
                    Some(reason.clone()),
                ),
            ),
            TimelineContent::KeyVerificationKey { relates_to } => Some(
                SessionVerificationEvent::new(
                    device,
                    EventKind::Key,
                    relates_to.clone(),
                    sender,
                    None,
                    None,
                    None,
                ),
            ),
            TimelineContent::KeyVerificationMac { relates_to } => Some(
                SessionVerificationEvent::new(
                    device,
                    EventKind::Mac,
                    relates_to.clone(),
                    sender,
                    None,
                    None,
                    None,
                ),
            ),
            TimelineContent::KeyVerificationDone { relates_to } => Some(
                SessionVerificationEvent::new(
                    device,
                    EventKind::Done,
                    relates_to.clone(),
                    sender,
                    None,
                    None,
                    None,
                ),
            ),
            TimelineContent::Other => None,
        }
    }
}

impl RoomEvent {
    /// The verification event that this room event stands for: state events
    /// stand for none.
    pub open spec fn normalized(self, local_device: Seq<char>) -> Option<VerificationEventView> {
        match self {
            RoomEvent::MessageLike(event) => event.normalized(local_device),
            RoomEvent::State => None,
        }
    }
}

/// Each recognised timeline shape yields one event of the matching stage.
/// Its transaction id is the id of the event itself for the opening request,
/// and the event referred back to for every later stage. Any other event
/// yields none.
pub proof fn lemma_timeline_transaction(event: TimelineEvent, local_device: Seq<char>)
    ensures
        event.content matches TimelineContent::RoomMessage {
            msgtype: MessageType::VerificationRequest,
        } ==> event.normalized(local_device) matches Some(v) && v.kind
            == EventKind::VerificationRequest && v.transaction_id == event.event_id@,
        event.content matches TimelineContent::KeyVerificationReady { relates_to, .. }
            ==> event.normalized(local_device) matches Some(v) && v.kind == EventKind::Ready
            && v.transaction_id == relates_to@,
        event.content matches TimelineContent::KeyVerificationStart { relates_to, .. }
            ==> event.normalized(local_device) matches Some(v) && v.kind == EventKind::Start
            && v.transaction_id == relates_to@,
        event.content matches TimelineContent::KeyVerificationAccept { relates_to }
            ==> event.normalized(local_device) matches Some(v) && v.kind == EventKind::Accept
            && v.transaction_id == relates_to@,
        event.content matches TimelineContent::KeyVerificationCancel { relates_to, .. }
            ==> event.normalized(local_device) matches Some(v) && v.kind == EventKind::Cancel
            && v.transaction_id == relates_to@,
        event.content matches TimelineContent::KeyVerificationKey { relates_to }
            ==> event.normalized(local_device) matches Some(v) && v.kind == EventKind::Key
            && v.transaction_id == relates_to@,
        event.content matches TimelineContent::KeyVerificationMac { relates_to }
            ==> event.normalized(local_device) matches Some(v) && v.kind == EventKind::Mac
            && v.transaction_id == relates_to@,
        event.content matches TimelineContent::KeyVerificationDone { relates_to }
            ==> event.normalized(local_device) matches Some(v) && v.kind == EventKind::Done
            && v.transaction_id == relates_to@,
        event.content matches TimelineContent::RoomMessage { msgtype: MessageType::Other }
            ==> event.normalized(local_device) is None,
        event.content is Other ==> event.normalized(local_device) is None,
        event.normalized(local_device) matches Some(v) ==> v.sender == event.sender@
            && v.local_device == local_device,
{
}

/// No stage-specific field is lost or made up: an event normalised from a
/// room timeline carries a cancellation code and reason exactly when it is a
/// cancel event, and a launcher device exactly on the ready and start
/// stages; each is the one that the timeline event carried.
pub proof fn lemma_timeline_stage_fields(event: TimelineEvent, local_device: Seq<char>)
    ensures
        event.normalized(local_device) matches Some(v) ==> {
            &&& v.cancel_code is Some <==> v.kind == EventKind::Cancel
            &&& v.cancel_reason is Some <==> v.kind == EventKind::Cancel
            &&& v.launcher_device is Some <==> v.kind == EventKind::Ready || v.kind
                == EventKind::Start
            &&& v.well_formed()
        },
        event.content matches TimelineContent::KeyVerificationCancel { code, reason, .. }
            ==> event.normalized(local_device) matches Some(v) && v.cancel_code == Some(code@)
            && v.cancel_reason == Some(reason@),
        event.content matches TimelineContent::KeyVerificationReady { from_device, .. }
            ==> event.normalized(local_device) matches Some(v) && v.launcher_device == Some(
            from_device@,
        ),
        event.content matches TimelineContent::KeyVerificationStart { from_device, .. }
            ==> event.normalized(local_device) matches Some(v) && v.launcher_device == Some(
            from_device@,
        ),
{
}

} // verus!
