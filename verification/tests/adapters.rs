use session_verification::{
    EventKind, MessageType, SessionVerificationEvent, TimelineContent, TimelineEvent,
    ToDeviceContent, ToDeviceEvent,
};

fn to_device(sender: &str, content: ToDeviceContent) -> ToDeviceEvent {
    ToDeviceEvent { sender: sender.to_owned(), content }
}

fn timeline(sender: &str, event_id: &str, content: TimelineContent) -> TimelineEvent {
    TimelineEvent { sender: sender.to_owned(), event_id: event_id.to_owned(), content }
}

fn s(text: &str) -> String {
    text.to_owned()
}

fn assert_plain(event: &SessionVerificationEvent, kind: EventKind, name: &str, txn: &str) {
    assert_eq!(event.event_kind(), kind);
    assert_eq!(event.get_event_name(), name);
    assert_eq!(event.get_txn_id(), txn);
    assert_eq!(event.get_sender(), "@bob:example.org");
    assert_eq!(event.get_cancel_code(), None);
    assert_eq!(event.get_reason(), None);
}

#[test]
fn to_device_request_scenario() {
    let raw = to_device(
        "@alice:example.org",
        ToDeviceContent::KeyVerificationRequest {
            transaction_id: s("txn1"),
            from_device: s("DEVICEA"),
        },
    );
    let event = raw.normalize("DEVICEB").expect("a request is a stage of the handshake");
    assert_eq!(event.event_kind(), EventKind::VerificationRequest);
    assert_eq!(event.get_event_name(), "m.key.verification.request");
    assert_eq!(event.get_sender(), "@alice:example.org");
    assert_eq!(event.get_txn_id(), "txn1");
    assert_eq!(event.get_launcher_device(), Some(s("DEVICEA")));
    assert_eq!(event.get_cancel_code(), None);
    assert_eq!(event.get_reason(), None);
}

#[test]
fn to_device_cancel_scenario() {
    let raw = to_device(
        "@alice:example.org",
        ToDeviceContent::KeyVerificationCancel {
            transaction_id: s("txn1"),
            code: s("m.mismatched_sas"),
            reason: s("User rejected"),
        },
    );
    let event = raw.normalize("DEVICEB").expect("a cancellation is a stage of the handshake");
    assert_eq!(event.event_kind(), EventKind::Cancel);
    assert_eq!(event.get_event_name(), "m.key.verification.cancel");
    assert_eq!(event.get_txn_id(), "txn1");
    assert_eq!(event.get_cancel_code(), Some(s("m.mismatched_sas")));
    assert_eq!(event.get_reason(), Some(s("User rejected")));
    assert_eq!(event.get_launcher_device(), None);
    assert_eq!(event.was_triggered_from_this_device(), None);
}

#[test]
fn to_device_ready_and_start_name_the_launcher() {
    let ready = to_device(
        "@bob:example.org",
        ToDeviceContent::KeyVerificationReady { transaction_id: s("t2"), from_device: s("DEV2") },
    )
    .normalize("HERE")
    .unwrap();
    assert_plain(&ready, EventKind::Ready, "m.key.verification.ready", "t2");
    assert_eq!(ready.get_launcher_device(), Some(s("DEV2")));

    let start = to_device(
        "@bob:example.org",
        ToDeviceContent::KeyVerificationStart { transaction_id: s("t3"), from_device: s("DEV3") },
    )
    .normalize("HERE")
    .unwrap();
    assert_plain(&start, EventKind::Start, "m.key.verification.start", "t3");
    assert_eq!(start.get_launcher_device(), Some(s("DEV3")));
}

#[test]
fn to_device_later_stages_take_the_explicit_transaction() {
    let accept =
        to_device(
            "@bob:example.org",
            ToDeviceContent::KeyVerificationAccept { transaction_id: s("a") },
        )
        .normalize("HERE")
        .unwrap();
    assert_plain(&accept, EventKind::Accept, "m.key.verification.accept", "a");
    assert_eq!(accept.get_launcher_device(), None);

    let key =
        to_device(
            "@bob:example.org",
            ToDeviceContent::KeyVerificationKey { transaction_id: s("k") },
        )
        .normalize("HERE")
        .unwrap();
    assert_plain(&key, EventKind::Key, "m.key.verification.key", "k");
    assert_eq!(key.get_launcher_device(), None);

    let mac =
        to_device(
            "@bob:example.org",
            ToDeviceContent::KeyVerificationMac { transaction_id: s("m") },
        )
        .normalize("HERE")
        .unwrap();
    assert_plain(&mac, EventKind::Mac, "m.key.verification.mac", "m");
    assert_eq!(mac.get_launcher_device(), None);

    let done =
        to_device(
            "@bob:example.org",
            ToDeviceContent::KeyVerificationDone { transaction_id: s("d") },
        )
        .normalize("HERE")
        .unwrap();
    assert_plain(&done, EventKind::Done, "m.key.verification.done", "d");
    assert_eq!(done.get_launcher_device(), None);
}

#[test]
fn to_device_events_of_other_types_yield_nothing() {
    assert!(to_device("@bob:example.org", ToDeviceContent::Other).normalize("HERE").is_none());
}

#[test]
fn timeline_request_takes_its_own_event_id() {
    let raw = timeline(
        "@bob:example.org",
        "$request:example.org",
        TimelineContent::RoomMessage { msgtype: MessageType::VerificationRequest },
    );
    let event = raw.normalize("HERE").unwrap();
    assert_plain(
        &event,
        EventKind::VerificationRequest,
        "m.key.verification.request",
        "$request:example.org",
    );
    assert_eq!(event.get_launcher_device(), None);
}

#[test]
fn timeline_ordinary_message_yields_nothing() {
    let raw = timeline(
        "@bob:example.org",
        "$text:example.org",
        TimelineContent::RoomMessage { msgtype: MessageType::Other },
    );
    assert!(raw.normalize("HERE").is_none());
    assert!(timeline("@bob:example.org", "$x:example.org", TimelineContent::Other)
        .normalize("HERE")
        .is_none());
}

#[test]
fn timeline_later_stages_take_the_event_referred_to() {
    let ready = timeline(
        "@bob:example.org",
        "$own1",
        TimelineContent::KeyVerificationReady { relates_to: s("$request"), from_device: s("DEV2") },
    )
    .normalize("HERE")
    .unwrap();
    assert_plain(&ready, EventKind::Ready, "m.key.verification.ready", "$request");
    assert_eq!(ready.get_launcher_device(), Some(s("DEV2")));

    let start = timeline(
        "@bob:example.org",
        "$own2",
        TimelineContent::KeyVerificationStart { relates_to: s("$request"), from_device: s("DEV3") },
    )
    .normalize("HERE")
    .unwrap();
    assert_plain(&start, EventKind::Start, "m.key.verification.start", "$request");
    assert_eq!(start.get_launcher_device(), Some(s("DEV3")));

    let accept = timeline(
        "@bob:example.org",
        "$own3",
        TimelineContent::KeyVerificationAccept { relates_to: s("$request") },
    )
    .normalize("HERE")
    .unwrap();
    assert_plain(&accept, EventKind::Accept, "m.key.verification.accept", "$request");

    let key = timeline(
        "@bob:example.org",
        "$own4",
        TimelineContent::KeyVerificationKey { relates_to: s("$request") },
    )
    .normalize("HERE")
    .unwrap();
    assert_plain(&key, EventKind::Key, "m.key.verification.key", "$request");

    let mac = timeline(
        "@bob:example.org",
        "$own5",
        TimelineContent::KeyVerificationMac { relates_to: s("$request") },
    )
    .normalize("HERE")
    .unwrap();
    assert_plain(&mac, EventKind::Mac, "m.key.verification.mac", "$request");

    let done = timeline(
        "@bob:example.org",
        "$own6",
        TimelineContent::KeyVerificationDone { relates_to: s("$request") },
    )
    .normalize("HERE")
    .unwrap();
    assert_plain(&done, EventKind::Done, "m.key.verification.done", "$request");
}

#[test]
fn timeline_cancel_carries_code_and_reason() {
    let event = timeline(
        "@alice:example.org",
        "$own",
        TimelineContent::KeyVerificationCancel {
            relates_to: s("$request"),
            code: s("m.timeout"),
            reason: s("Timed out"),
        },
    )
    .normalize("HERE")
    .unwrap();
    assert_eq!(event.event_kind(), EventKind::Cancel);
    assert_eq!(event.get_txn_id(), "$request");
    assert_eq!(event.get_cancel_code(), Some(s("m.timeout")));
    assert_eq!(event.get_reason(), Some(s("Timed out")));
    assert_eq!(event.get_launcher_device(), None);
}

#[test]
fn cancel_fields_are_set_exactly_on_cancel_events() {
    let shapes = vec![
        ToDeviceContent::KeyVerificationRequest { transaction_id: s("t"), from_device: s("D") },
        ToDeviceContent::KeyVerificationReady { transaction_id: s("t"), from_device: s("D") },
        ToDeviceContent::KeyVerificationStart { transaction_id: s("t"), from_device: s("D") },
        ToDeviceContent::KeyVerificationAccept { transaction_id: s("t") },
        ToDeviceContent::KeyVerificationCancel {
            transaction_id: s("t"),
            code: s("m.user"),
            reason: s("no"),
        },
        ToDeviceContent::KeyVerificationKey { transaction_id: s("t") },
        ToDeviceContent::KeyVerificationMac { transaction_id: s("t") },
        ToDeviceContent::KeyVerificationDone { transaction_id: s("t") },
    ];
    let mut seen: usize = 0;
    for content in shapes {
        let event = to_device("@bob:example.org", content).normalize("HERE").unwrap();
        let is_cancel = event.event_kind() == EventKind::Cancel;
        assert_eq!(event.get_cancel_code().is_some(), is_cancel);
        assert_eq!(event.get_reason().is_some(), is_cancel);
        seen += 1;
    }
    assert_eq!(seen, 8);
}

#[test]
fn cancel_fields_are_set_exactly_on_cancel_events_of_a_timeline() {
    let shapes = vec![
        TimelineContent::RoomMessage { msgtype: MessageType::VerificationRequest },
        TimelineContent::KeyVerificationReady { relates_to: s("$r"), from_device: s("D") },
        TimelineContent::KeyVerificationStart { relates_to: s("$r"), from_device: s("D") },
        TimelineContent::KeyVerificationAccept { relates_to: s("$r") },
        TimelineContent::KeyVerificationCancel {
            relates_to: s("$r"),
            code: s("m.user"),
            reason: s("no"),
        },
        TimelineContent::KeyVerificationKey { relates_to: s("$r") },
        TimelineContent::KeyVerificationMac { relates_to: s("$r") },
        TimelineContent::KeyVerificationDone { relates_to: s("$r") },
    ];
    let mut cancels: usize = 0;
    for content in shapes {
        let event = timeline("@bob:example.org", "$r", content).normalize("HERE").unwrap();
        let is_cancel = event.event_kind() == EventKind::Cancel;
        assert_eq!(event.get_cancel_code().is_some(), is_cancel);
        assert_eq!(event.get_reason().is_some(), is_cancel);
        if is_cancel {
            cancels += 1;
        }
    }
    assert_eq!(cancels, 1);
}

#[test]
fn local_origin_compares_launcher_with_own_device() {
    let request = ToDeviceContent::KeyVerificationRequest {
        transaction_id: s("t"),
        from_device: s("DEVICEA"),
    };
    let here = to_device("@alice:example.org", request).normalize("DEVICEA").unwrap();
    assert_eq!(here.was_triggered_from_this_device(), Some(true));

    let request = ToDeviceContent::KeyVerificationRequest {
        transaction_id: s("t"),
        from_device: s("DEVICEA"),
    };
    let elsewhere = to_device("@alice:example.org", request).normalize("DEVICEB").unwrap();
    assert_eq!(elsewhere.was_triggered_from_this_device(), Some(false));

    let accept = ToDeviceContent::KeyVerificationAccept { transaction_id: s("t") };
    let none = to_device("@alice:example.org", accept).normalize("DEVICEA").unwrap();
    assert_eq!(none.was_triggered_from_this_device(), None);
}

#[test]
fn event_kinds_have_their_protocol_names() {
    assert_eq!(EventKind::VerificationRequest.event_type(), "m.key.verification.request");
    assert_eq!(EventKind::Ready.event_type(), "m.key.verification.ready");
    assert_eq!(EventKind::Start.event_type(), "m.key.verification.start");
    assert_eq!(EventKind::Accept.event_type(), "m.key.verification.accept");
    assert_eq!(EventKind::Cancel.event_type(), "m.key.verification.cancel");
    assert_eq!(EventKind::Key.event_type(), "m.key.verification.key");
    assert_eq!(EventKind::Mac.event_type(), "m.key.verification.mac");
    assert_eq!(EventKind::Done.event_type(), "m.key.verification.done");
}

#[test]
fn a_cloned_event_says_the_same() {
    let event = to_device(
        "@alice:example.org",
        ToDeviceContent::KeyVerificationCancel {
            transaction_id: s("txn9"),
            code: s("m.user"),
            reason: s("changed my mind"),
        },
    )
    .normalize("DEVICEB")
    .unwrap();
    let copy = event.clone();
    assert_eq!(copy.event_kind(), event.event_kind());
    assert_eq!(copy.get_txn_id(), event.get_txn_id());
    assert_eq!(copy.get_sender(), event.get_sender());
    assert_eq!(copy.get_cancel_code(), event.get_cancel_code());
    assert_eq!(copy.get_reason(), event.get_reason());
}
