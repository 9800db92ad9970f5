//! Verification events that arrive as direct to-device messages.
//!
//! Every to-device verification event carries its transaction id in a field
//! of its own.

use vstd::prelude::*;
use crate::event::{EventKind, SessionVerificationEvent, VerificationEventView, event_view};

verus! {

/// The content of a to-device event, by its shape.
#[derive(Debug, PartialEq, Eq)]
pub enum ToDeviceContent {
    KeyVerificationRequest { transaction_id: String, from_device: String },
    KeyVerificationReady { transaction_id: String, from_device: String },
    KeyVerificationStart { transaction_id: String, from_device: String },
    KeyVerificationAccept { transaction_id: String },
    KeyVerificationCancel { transaction_id: String, code: String, reason: String },
    KeyVerificationKey { transaction_id: String },
    KeyVerificationMac { transaction_id: String },
    KeyVerificationDone { transaction_id: String },
    /// Any event that is no stage of a verification handshake.
    Other,
}

/// A deserialized to-device event.
#[derive(Debug, PartialEq, Eq)]
pub struct ToDeviceEvent {
    pub sender: String,
    pub content: ToDeviceContent,
}

impl ToDeviceContent {
    /// The handshake stage of a recognised shape.
    pub open spec fn stage(self) -> Option<EventKind> {
        match self {
            ToDeviceContent::KeyVerificationRequest { .. } => Some(EventKind::VerificationRequest),
            ToDeviceContent::KeyVerificationReady { .. } => Some(EventKind::Ready),
            ToDeviceContent::KeyVerificationStart { .. } => Some(EventKind::Start),
            ToDeviceContent::KeyVerificationAccept { .. } => Some(EventKind::Accept),
            ToDeviceContent::KeyVerificationCancel { .. } => Some(EventKind::Cancel),
            ToDeviceContent::KeyVerificationKey { .. } => Some(EventKind::Key),
            ToDeviceContent::KeyVerificationMac { .. } => Some(EventKind::Mac),
            ToDeviceContent::KeyVerificationDone { .. } => Some(EventKind::Done),
            ToDeviceContent::Other => None,
        }
    }

    /// The explicit transaction field of the shape.
    pub open spec fn transaction(self) -> Seq<char> {
        match self {
            ToDeviceContent::KeyVerificationRequest { transaction_id, .. } => transaction_id@,
            ToDeviceContent::KeyVerificationReady { transaction_id, .. } => transaction_id@,
            ToDeviceContent::KeyVerificationStart { transaction_id, .. } => transaction_id@,
            ToDeviceContent::KeyVerificationAccept { transaction_id } => transaction_id@,
            ToDeviceContent::KeyVerificationCancel { transaction_id, .. } => transaction_id@,
            ToDeviceContent::KeyVerificationKey { transaction_id } => transaction_id@,
            ToDeviceContent::KeyVerificationMac { transaction_id } => transaction_id@,
            ToDeviceContent::KeyVerificationDone { transaction_id } => transaction_id@,
            ToDeviceContent::Other => Seq::empty(),
        }
    }

    /// The originating device, on the shapes that carry one.
    pub open spec fn launcher(self) -> Option<Seq<char>> {
        match self {
            ToDeviceContent::KeyVerificationRequest { from_device, .. } => Some(from_device@),
            ToDeviceContent::KeyVerificationReady { from_device, .. } => Some(from_device@),
            ToDeviceContent::KeyVerificationStart { from_device, .. } => Some(from_device@),
            _ => None,
        }
    }

    /// The code and the reason of a cancellation.
    pub open spec fn cancellation(self) -> Option<(Seq<char>, Seq<char>)> {
        match self {
            ToDeviceContent::KeyVerificationCancel { code, reason, .. } => Some((code@, reason@)),
            _ => None,
        }
    }
}

impl ToDeviceEvent {
    /// The verification event that this to-device event stands for, if it
    /// is a stage of a handshake.
    pub open spec fn normalized(self, local_device: Seq<char>) -> Option<VerificationEventView> {
        match self.content.stage() {
            Some(kind) => Some(
                VerificationEventView {
                    kind,
                    transaction_id: self.content.transaction(),
                    sender: self.sender@,
                    launcher_device: self.content.launcher(),
                    cancel_code: match self.content.cancellation() {
                        Some(c) => Some(c.0),
                        None => None,
                    },
                    cancel_reason: match self.content.cancellation() {
                        Some(c) => Some(c.1),
                        None => None,
                    },
                    local_device,
                },
            ),
            None => None,
        }
    }

    /// Projects the event onto the normalised shape: one verification event
    /// for a stage of a handshake, none for anything else.
    pub fn normalize(&self, local_device: &str) -> (event: Option<SessionVerificationEvent>)
        ensures
            event_view(event) == self.normalized(local_device@),
    {
        let device = local_device.to_owned();
        let sender = self.sender.clone();
        match &self.content {
            ToDeviceContent::KeyVerificationRequest { transaction_id, from_device } => Some(
                SessionVerificationEvent::new(
                    device,
                    EventKind::VerificationRequest,
                    transaction_id.clone(),
                    sender,
                    Some(from_device.clone()),
                    None,
                    None,
                ),
            ),
            ToDeviceContent::KeyVerificationReady { transaction_id, from_device } => Some(
                SessionVerificationEvent::new(
                    device,
                    EventKind::Ready,
                    transaction_id.clone(),
                    sender,
                    Some(from_device.clone()),
                    None,
                    None,
                ),
            ),
            ToDeviceContent::KeyVerificationStart { transaction_id, from_device } => Some(
                SessionVerificationEvent::new(
                    device,
                    EventKind::Start,
                    transaction_id.clone(),
                    sender,
                    Some(from_device.clone()),
                    None,
                    None,
                ),
            ),
            ToDeviceContent::KeyVerificationAccept { transaction_id } => Some(
                SessionVerificationEvent::new(
                    device,
                    EventKind::Accept,
                    transaction_id.clone(),
                    sender,
                    None,
                    None,
                    None,
                ),
            ),
            ToDeviceContent::KeyVerificationCancel { transaction_id, code, reason } => Some(
                SessionVerificationEvent::new(
                    device,
                    EventKind::Cancel,
                    transaction_id.clone(),
                    sender,
                    None,
                    Some(code.clone()),
                    Some(reason.clone()),
                ),
            ),
            ToDeviceContent::KeyVerificationKey { transaction_id } => Some(
                SessionVerificationEvent::new(
                    device,
                    EventKind::Key,
                    transaction_id.clone(),
                    sender,
                    None,
                    None,
                    None,
                ),
            ),
            ToDeviceContent::KeyVerificationMac { transaction_id } => Some(
                SessionVerificationEvent::new(
                    device,
                    EventKind::Mac,
                    transaction_id.clone(),
                    sender,
                    None,
                    None,
                    None,
                ),
            ),
            ToDeviceContent::KeyVerificationDone { transaction_id } => Some(
                SessionVerificationEvent::new(
                    device,
                    EventKind::Done,
                    transaction_id.clone(),
                    sender,
                    None,
                    None,
                    None,
                ),
            ),
            ToDeviceContent::Other => None,
        }
    }
}

/// Each recognised to-device shape yields one event of the matching stage,
/// whose transaction id is the shape's explicit transaction field; any other
/// event yields none.
pub proof fn lemma_to_device_transaction(event: ToDeviceEvent, local_device: Seq<char>)
    ensures
        event.content matches ToDeviceContent::KeyVerificationRequest { transaction_id, .. }
            ==> event.normalized(local_device) matches Some(v) && v.kind
            == EventKind::VerificationRequest && v.transaction_id == transaction_id@,
        event.content matches ToDeviceContent::KeyVerificationReady { transaction_id, .. }
            ==> event.normalized(local_device) matches Some(v) && v.kind == EventKind::Ready
            && v.transaction_id == transaction_id@,
        event.content matches ToDeviceContent::KeyVerificationStart { transaction_id, .. }
            ==> event.normalized(local_device) matches Some(v) && v.kind == EventKind::Start
            && v.transaction_id == transaction_id@,
        event.content matches ToDeviceContent::KeyVerificationAccept { transaction_id }
            ==> event.normalized(local_device) matches Some(v) && v.kind == EventKind::Accept
            && v.transaction_id == transaction_id@,
        event.content matches ToDeviceContent::KeyVerificationCancel { transaction_id, .. }
            ==> event.normalized(local_device) matches Some(v) && v.kind == EventKind::Cancel
            && v.transaction_id == transaction_id@,
        event.content matches ToDeviceContent::KeyVerificationKey { transaction_id }
            ==> event.normalized(local_device) matches Some(v) && v.kind == EventKind::Key
            && v.transaction_id == transaction_id@,
        event.content matches ToDeviceContent::KeyVerificationMac { transaction_id }
            ==> event.normalized(local_device) matches Some(v) && v.kind == EventKind::Mac
            && v.transaction_id == transaction_id@,
        event.content matches ToDeviceContent::KeyVerificationDone { transaction_id }
            ==> event.normalized(local_device) matches Some(v) && v.kind == EventKind::Done
            && v.transaction_id == transaction_id@,
        event.content is Other ==> event.normalized(local_device) is None,
        event.normalized(local_device) matches Some(v) ==> v.sender == event.sender@
            && v.local_device == local_device,
{
}

/// No stage-specific field is lost or made up: an event normalised from a
/// to-device message carries a cancellation code and reason exactly when it
/// is a cancel event, and a launcher device exactly on the request, ready
/// and start stages; each is the one that the message carried.
pub proof fn lemma_to_device_stage_fields(event: ToDeviceEvent, local_device: Seq<char>)
    ensures
        event.normalized(local_device) matches Some(v) ==> {
            &&& v.cancel_code is Some <==> v.kind == EventKind::Cancel
            &&& v.cancel_reason is Some <==> v.kind == EventKind::Cancel
            &&& v.launcher_device is Some <==> v.kind.names_launcher()
            &&& v.well_formed()
        },
        event.content matches ToDeviceContent::KeyVerificationCancel { code, reason, .. }
            ==> event.normalized(local_device) matches Some(v) && v.cancel_code == Some(code@)
            && v.cancel_reason == Some(reason@),
        event.content matches ToDeviceContent::KeyVerificationRequest { from_device, .. }
            ==> event.normalized(local_device) matches Some(v) && v.launcher_device == Some(
            from_device@,
        ),
        event.content matches ToDeviceContent::KeyVerificationReady { from_device, .. }
            ==> event.normalized(local_device) matches Some(v) && v.launcher_device == Some(
            from_device@,
        ),
        event.content matches ToDeviceContent::KeyVerificationStart { from_device, .. }
            ==> event.normalized(local_device) matches Some(v) && v.launcher_device == Some(
            from_device@,
        ),
{
}

} // verus!
