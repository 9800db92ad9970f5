//! The normalised verification event.

use vstd::prelude::*;

verus! {

/// The stage of the handshake that an event reports.
#[derive(Clone, Copy, Debug, PartialEq, Eq, Structural)]
pub enum EventKind {
    VerificationRequest,
    Ready,
    Start,
    Accept,
    Cancel,
    Key,
    Mac,
    Done,
}

impl EventKind {
    /// The protocol name under which events of this stage travel.
    pub open spec fn wire_name(self) -> Seq<char> {
        match self {
            EventKind::VerificationRequest => "m.key.verification.request"@,
            EventKind::Ready => "m.key.verification.ready"@,
            EventKind::Start => "m.key.verification.start"@,
            EventKind::Accept => "m.key.verification.accept"@,
            EventKind::Cancel => "m.key.verification.cancel"@,
            EventKind::Key => "m.key.verification.key"@,
            EventKind::Mac => "m.key.verification.mac"@,
            EventKind::Done => "m.key.verification.done"@,
        }
    }

    /// Whether events of this stage may name the device that launched the
    /// handshake.
    pub open spec fn names_launcher(self) -> bool {
        self == EventKind::VerificationRequest || self == EventKind::Ready || self
            == EventKind::Start
    }

    /// The protocol name of this stage.
    pub fn event_type(&self) -> (name: &'static str)
        ensures
            name@ == self.wire_name(),
    {
        match self {
            EventKind::VerificationRequest => "m.key.verification.request",
            EventKind::Ready => "m.key.verification.ready",
            EventKind::Start => "m.key.verification.start",
            EventKind::Accept => "m.key.verification.accept",
            EventKind::Cancel => "m.key.verification.cancel",
            EventKind::Key => "m.key.verification.key",
            EventKind::Mac => "m.key.verification.mac",
            EventKind::Done => "m.key.verification.done",
        }
    }
}

/// The text of an optional string.
pub open spec fn text_of(value: Option<String>) -> Option<Seq<char>> {
    match value {
        Some(s) => Some(s@),
        None => None,
    }
}

/// What a verification event says, as mathematical values.
pub struct VerificationEventView {
    pub kind: EventKind,
    pub transaction_id: Seq<char>,
    pub sender: Seq<char>,
    pub launcher_device: Option<Seq<char>>,
    pub cancel_code: Option<Seq<char>>,
    pub cancel_reason: Option<Seq<char>>,
    pub local_device: Seq<char>,
}

impl VerificationEventView {
    /// The cancellation fields are present exactly on a cancel event, and a
    /// launcher device only on the stages that name one.
    pub open spec fn well_formed(self) -> bool {
        &&& self.cancel_code is Some <==> self.kind == EventKind::Cancel
        &&& self.cancel_reason is Some <==> self.kind == EventKind::Cancel
        &&& self.launcher_device is Some ==> self.kind.names_launcher()
    }
}

/// One handshake-stage notification, whichever transport it came over.
///
/// `local_device` is the device id of the client that received the event; it
/// stands for that client wherever the event is asked about its origin.
#[derive(Debug)]
pub struct SessionVerificationEvent {
    local_device: String,
    kind: EventKind,
    txn_id: String,
    sender: String,
    launcher: Option<String>,
    cancel_code: Option<String>,
    reason: Option<String>,
}

impl View for SessionVerificationEvent {
    type V = VerificationEventView;

    closed spec fn view(&self) -> VerificationEventView {
        VerificationEventView {
            kind: self.kind,
            transaction_id: self.txn_id@,
            sender: self.sender@,
            launcher_device: text_of(self.launcher),
            cancel_code: text_of(self.cancel_code),
            cancel_reason: text_of(self.reason),
            local_device: self.local_device@,
        }
    }
}

/// The view of an event that may be absent.
pub open spec fn event_view(event: Option<SessionVerificationEvent>) -> Option<
    VerificationEventView,
> {
    match event {
        Some(e) => Some(e@),
        None => None,
    }
}

fn clone_text(value: &Option<String>) -> (copy: Option<String>)
    ensures
        copy == *value,
{
    match value {
        Some(s) => Some(s.clone()),
        None => None,
    }
}

impl Clone for SessionVerificationEvent {
    fn clone(&self) -> (copy: Self)
        ensures
            copy@ == self@,
    {
        proof {
            use_type_invariant(self);
        }
        SessionVerificationEvent {
            local_device: self.local_device.clone(),
            kind: self.kind,
            txn_id: self.txn_id.clone(),
            sender: self.sender.clone(),
            launcher: clone_text(&self.launcher),
            cancel_code: clone_text(&self.cancel_code),
            reason: clone_text(&self.reason),
        }
    }
}

impl SessionVerificationEvent {
    #[verifier::type_invariant]
    spec fn holds_together(&self) -> bool {
        self@.well_formed()
    }

    pub(crate) fn new(
        local_device: String,
        kind: EventKind,
        txn_id: String,
        sender: String,
        launcher: Option<String>,
        cancel_code: Option<String>,
        reason: Option<String>,
    ) -> (event: Self)
        requires
            cancel_code is Some <==> kind == EventKind::Cancel,
            reason is Some <==> kind == EventKind::Cancel,
            launcher is Some ==> kind.names_launcher(),
        ensures
            event@ == (VerificationEventView {
                kind,
                transaction_id: txn_id@,
                sender: sender@,
                launcher_device: text_of(launcher),
                cancel_code: text_of(cancel_code),
                cancel_reason: text_of(reason),
                local_device: local_device@,
            }),
    {
        SessionVerificationEvent {
            local_device,
            kind,
            txn_id,
            sender,
            launcher,
            cancel_code,
            reason,
        }
    }

    /// The stage this event reports.
    pub fn event_kind(&self) -> (kind: EventKind)
        ensures
            kind == self@.kind,
    {
        self.kind
    }

    /// The protocol name of the stage this event reports.
    pub fn get_event_name(&self) -> (name: String)
        ensures
            name@ == self@.kind.wire_name(),
    {
        self.kind.event_type().to_owned()
    }

    pub fn get_txn_id(&self) -> (id: String)
        ensures
            id@ == self@.transaction_id,
    {
        self.txn_id.clone()
    }

    pub fn get_sender(&self) -> (sender: String)
        ensures
            sender@ == self@.sender,
    {
        self.sender.clone()
    }

    /// The device that launched the handshake, on the stages that name it.
    pub fn get_launcher_device(&self) -> (device: Option<String>)
        ensures
            text_of(device) == self@.launcher_device,
            device is Some ==> self@.kind.names_launcher(),
    {
        proof {
            use_type_invariant(self);
        }
        clone_text(&self.launcher)
    }

    /// The cancellation code: present exactly on a cancel event.
    pub fn get_cancel_code(&self) -> (code: Option<String>)
        ensures
            text_of(code) == self@.cancel_code,
            code is Some <==> self@.kind == EventKind::Cancel,
    {
        proof {
            use_type_invariant(self);
        }
        clone_text(&self.cancel_code)
    }

    /// The human-readable cancellation reason: present exactly on a cancel
    /// event.
    pub fn get_reason(&self) -> (reason: Option<String>)
        ensures
            text_of(reason) == self@.cancel_reason,
            reason is Some <==> self@.kind == EventKind::Cancel,
    {
        proof {
            use_type_invariant(self);
        }
        clone_text(&self.reason)
    }

    /// Whether the handshake was launched from the receiving client's own
    /// device; `None` where the event names no launcher.
    pub fn was_triggered_from_this_device(&self) -> (local: Option<bool>)
        ensures
            local == match self@.launcher_device {
                Some(device) => Some(device == self@.local_device),
                None => None,
            },
    {
        match &self.launcher {
            Some(device) => Some(*device == self.local_device),
            None => None,
        }
    }
}

} // verus!
