use session_verification::{
    Dispatch, DispatchChannel, EventKind, JoinedRoomTimeline, MessageType, RawBatch, RoomEvent,
    SessionVerificationController, SessionVerificationEvent, TimelineContent, TimelineEvent,
    ToDeviceContent, ToDeviceEvent, CHANNEL_CAPACITY,
};

fn key_event(txn: &str) -> ToDeviceEvent {
    ToDeviceEvent {
        sender: "@alice:example.org".to_owned(),
        content: ToDeviceContent::KeyVerificationKey { transaction_id: txn.to_owned() },
    }
}

fn event(txn: &str) -> SessionVerificationEvent {
    key_event(txn).normalize("HERE").unwrap()
}

fn room_stage(txn: &str) -> Option<RoomEvent> {
    Some(RoomEvent::MessageLike(TimelineEvent {
        sender: "@alice:example.org".to_owned(),
        event_id: format!("$own-{}", txn),
        content: TimelineContent::KeyVerificationMac { relates_to: txn.to_owned() },
    }))
}

fn drain(controller: &mut SessionVerificationController) -> Vec<String> {
    let mut rx = controller.get_event_rx().expect("the consumer's end is still there");
    let mut seen = Vec::new();
    while let Some(event) = rx.try_next(controller) {
        seen.push(event.get_txn_id());
    }
    seen
}

#[test]
fn capacity_is_ten() {
    assert_eq!(CHANNEL_CAPACITY, 10);
    let controller = SessionVerificationController::new();
    assert_eq!(controller.queued(), 0);
}

#[test]
fn twelve_events_into_a_channel_of_ten() {
    let mut controller = SessionVerificationController::new();
    let mut outcomes = Vec::new();
    for i in 1..=12 {
        outcomes.push(controller.handle_to_device_messages("HERE", &key_event(&format!("E{}", i))));
    }
    for outcome in &outcomes[..10] {
        assert_eq!(*outcome, Dispatch::Queued);
    }
    assert_eq!(outcomes[10], Dispatch::Dropped { transaction_id: "E11".to_owned() });
    assert_eq!(outcomes[11], Dispatch::Dropped { transaction_id: "E12".to_owned() });
    assert_eq!(controller.queued(), 10);

    let delivered = drain(&mut controller);
    assert_eq!(delivered, vec!["E1", "E2", "E3", "E4", "E5", "E6", "E7", "E8", "E9", "E10"]);
    assert_eq!(controller.queued(), 0);
}

#[test]
fn a_burst_within_capacity_is_delivered_whole() {
    let mut controller = SessionVerificationController::new();
    for i in 1..=10 {
        assert_eq!(controller.enqueue(event(&format!("E{}", i))), Dispatch::Queued);
    }
    let delivered = drain(&mut controller);
    assert_eq!(delivered.len(), 10);
    assert_eq!(delivered[0], "E1");
    assert_eq!(delivered[9], "E10");
}

#[test]
fn room_is_made_by_taking_events_out() {
    let mut controller = SessionVerificationController::new();
    let mut rx = controller.get_event_rx().unwrap();
    for i in 1..=10 {
        controller.enqueue(event(&format!("E{}", i)));
    }
    assert_eq!(
        controller.enqueue(event("E11")),
        Dispatch::Dropped { transaction_id: "E11".to_owned() }
    );
    assert_eq!(rx.try_next(&mut controller).unwrap().get_txn_id(), "E1");
    assert_eq!(controller.enqueue(event("E12")), Dispatch::Queued);
    let mut rest = Vec::new();
    while let Some(event) = rx.try_next(&mut controller) {
        rest.push(event.get_txn_id());
    }
    assert_eq!(rest, vec!["E2", "E3", "E4", "E5", "E6", "E7", "E8", "E9", "E10", "E12"]);
}

#[test]
fn the_consumers_end_is_given_out_once() {
    let mut controller = SessionVerificationController::new();
    assert!(controller.get_event_rx().is_some());
    assert!(controller.get_event_rx().is_none());
    controller.enqueue(event("E1"));
    assert!(controller.get_event_rx().is_none());
    assert_eq!(controller.queued(), 1);
}

#[test]
fn an_empty_channel_hands_out_nothing() {
    let mut controller = SessionVerificationController::new();
    let mut rx = controller.get_event_rx().unwrap();
    assert!(rx.try_next(&mut controller).is_none());
    assert!(rx.try_next(&mut controller).is_none());
}

#[test]
fn events_that_are_no_stage_are_ignored() {
    let mut controller = SessionVerificationController::new();
    let other = ToDeviceEvent { sender: "@a:b.c".to_owned(), content: ToDeviceContent::Other };
    assert_eq!(controller.handle_to_device_messages("HERE", &other), Dispatch::Ignored);
    let text = TimelineEvent {
        sender: "@a:b.c".to_owned(),
        event_id: "$1".to_owned(),
        content: TimelineContent::RoomMessage { msgtype: MessageType::Other },
    };
    assert_eq!(controller.handle_sync_messages("HERE", &text), Dispatch::Ignored);
    assert_eq!(controller.queued(), 0);
}

#[test]
fn a_timeline_request_is_queued() {
    let mut controller = SessionVerificationController::new();
    let request = TimelineEvent {
        sender: "@alice:example.org".to_owned(),
        event_id: "$req".to_owned(),
        content: TimelineContent::RoomMessage { msgtype: MessageType::VerificationRequest },
    };
    assert_eq!(controller.handle_sync_messages("HERE", &request), Dispatch::Queued);
    let mut rx = controller.get_event_rx().unwrap();
    let event = rx.try_next(&mut controller).unwrap();
    assert_eq!(event.event_kind(), EventKind::VerificationRequest);
    assert_eq!(event.get_txn_id(), "$req");
}

#[test]
fn a_to_device_batch_is_queued_in_order_and_skips_what_it_cannot_read() {
    let mut controller = SessionVerificationController::new();
    let batch = vec![
        Some(key_event("A")),
        None,
        Some(ToDeviceEvent { sender: "@a:b.c".to_owned(), content: ToDeviceContent::Other }),
        Some(key_event("B")),
        Some(key_event("C")),
    ];
    let dropped = controller.process_to_device_messages("HERE", batch);
    assert!(dropped.is_empty());
    assert_eq!(drain(&mut controller), vec!["A", "B", "C"]);
}

#[test]
fn a_to_device_batch_that_overflows_names_what_it_dropped() {
    let mut controller = SessionVerificationController::new();
    controller.enqueue(event("first"));
    let mut batch = Vec::new();
    for i in 1..=11 {
        batch.push(Some(key_event(&format!("B{}", i))));
        batch.push(None);
    }
    let dropped = controller.process_to_device_messages("HERE", batch);
    assert_eq!(dropped, vec!["B10", "B11"]);
    assert_eq!(
        drain(&mut controller),
        vec!["first", "B1", "B2", "B3", "B4", "B5", "B6", "B7", "B8", "B9"]
    );
}

#[test]
fn room_timelines_are_handled_room_after_room() {
    let mut controller = SessionVerificationController::new();
    let rooms = vec![
        JoinedRoomTimeline {
            room_id: "!one:example.org".to_owned(),
            events: vec![room_stage("A"), None, Some(RoomEvent::State), room_stage("B")],
        },
        JoinedRoomTimeline { room_id: "!two:example.org".to_owned(), events: vec![] },
        JoinedRoomTimeline {
            room_id: "!three:example.org".to_owned(),
            events: vec![
                Some(RoomEvent::MessageLike(TimelineEvent {
                    sender: "@a:b.c".to_owned(),
                    event_id: "$t".to_owned(),
                    content: TimelineContent::Other,
                })),
                room_stage("C"),
            ],
        },
    ];
    let dropped = controller.process_sync_messages("HERE", &rooms);
    assert!(dropped.is_empty());
    assert_eq!(drain(&mut controller), vec!["A", "B", "C"]);
}

#[test]
fn room_timelines_that_overflow_name_what_they_dropped() {
    let mut controller = SessionVerificationController::new();
    let mut first = Vec::new();
    for i in 1..=7 {
        first.push(room_stage(&format!("R{}", i)));
    }
    let mut second = Vec::new();
    for i in 8..=13 {
        second.push(room_stage(&format!("R{}", i)));
    }
    let rooms = vec![
        JoinedRoomTimeline { room_id: "!one:example.org".to_owned(), events: first },
        JoinedRoomTimeline { room_id: "!two:example.org".to_owned(), events: second },
    ];
    let dropped = controller.process_sync_messages("HERE", &rooms);
    assert_eq!(dropped, vec!["R11", "R12", "R13"]);
    assert_eq!(
        drain(&mut controller),
        vec!["R1", "R2", "R3", "R4", "R5", "R6", "R7", "R8", "R9", "R10"]
    );
}

#[test]
fn a_channel_keeps_the_order_of_arrival() {
    let mut channel = DispatchChannel::new(3);
    assert_eq!(channel.capacity(), 3);
    assert!(channel.is_empty());
    assert!(!channel.is_full());
    assert!(channel.enqueue(event("a")));
    assert!(channel.enqueue(event("b")));
    assert_eq!(channel.len(), 2);
    assert!(channel.enqueue(event("c")));
    assert!(channel.is_full());
    assert!(!channel.enqueue(event("d")));
    assert_eq!(channel.len(), 3);
    assert_eq!(channel.dequeue().unwrap().get_txn_id(), "a");
    assert!(!channel.is_full());
    assert!(channel.enqueue(event("e")));
    assert_eq!(channel.dequeue().unwrap().get_txn_id(), "b");
    assert_eq!(channel.dequeue().unwrap().get_txn_id(), "c");
    assert_eq!(channel.dequeue().unwrap().get_txn_id(), "e");
    assert!(channel.dequeue().is_none());
    assert!(channel.is_empty());
}

#[test]
fn a_channel_without_room_drops_everything() {
    let mut channel = DispatchChannel::new(0);
    assert!(channel.is_full());
    assert!(!channel.enqueue(event("a")));
    assert!(channel.dequeue().is_none());
    assert_eq!(channel.len(), 0);
}

#[test]
fn two_batches_are_queued_like_one() {
    let mut in_two = SessionVerificationController::new();
    let mut dropped = in_two.process_to_device_messages(
        "HERE",
        vec![Some(key_event("A")), Some(key_event("B")), Some(key_event("C"))],
    );
    let mut later = Vec::new();
    for i in 1..=9 {
        later.push(Some(key_event(&format!("L{}", i))));
    }
    dropped.extend(in_two.process_to_device_messages("HERE", later));

    let mut in_one = SessionVerificationController::new();
    let mut all = vec![Some(key_event("A")), Some(key_event("B")), Some(key_event("C"))];
    for i in 1..=9 {
        all.push(Some(key_event(&format!("L{}", i))));
    }
    let dropped_in_one = in_one.process_to_device_messages("HERE", all);

    assert_eq!(dropped, vec!["L8", "L9"]);
    assert_eq!(dropped, dropped_in_one);
    assert_eq!(drain(&mut in_two), drain(&mut in_one));
}

#[test]
fn both_transports_feed_the_same_channel() {
    let mut controller = SessionVerificationController::new();
    controller.handle_to_device_messages("HERE", &key_event("first"));
    let rooms = vec![JoinedRoomTimeline {
        room_id: "!one:example.org".to_owned(),
        events: vec![room_stage("second")],
    }];
    controller.process_sync_messages("HERE", &rooms);
    controller.handle_to_device_messages("HERE", &key_event("third"));
    assert_eq!(drain(&mut controller), vec!["first", "second", "third"]);
}

#[test]
fn a_batch_is_routed_to_the_adapter_of_its_transport() {
    let mut controller = SessionVerificationController::new();
    let rooms = vec![JoinedRoomTimeline {
        room_id: "!one:example.org".to_owned(),
        events: vec![room_stage("room-1"), None, room_stage("room-2")],
    }];
    assert!(controller.route("HERE", RawBatch::RoomTimelines(rooms)).is_empty());
    let direct = vec![None, Some(key_event("direct-1"))];
    assert!(controller.route("HERE", RawBatch::ToDevice(direct)).is_empty());
    let mut more = Vec::new();
    for i in 1..=8 {
        more.push(Some(key_event(&format!("more-{}", i))));
    }
    assert_eq!(controller.route("HERE", RawBatch::ToDevice(more)), vec!["more-8"]);
    assert_eq!(
        drain(&mut controller),
        vec![
            "room-1", "room-2", "direct-1", "more-1", "more-2", "more-3", "more-4", "more-5",
            "more-6", "more-7"
        ]
    );
}
