use fusioncord_core::{
    handle_gateway_close, CloseInfo, DecodeFailure, DecodedEvent, DispatchPayload, FrameOutcome,
    Message, TransportOutcome, WaitingForReady,
};

fn live_session(sequence: u64) -> fusioncord_core::Initialized {
    let phase = WaitingForReady { heartbeat_interval: 41250 };
    let event: Result<DecodedEvent, DecodeFailure> =
        Ok(DecodedEvent::Dispatch { sequence, payload: DispatchPayload::Ready });
    phase.wait_for_ready(&event, 20_000_000).expect("ready must advance")
}

#[test]
fn tick_with_unacked_signal_counts_a_miss() {
    let mut session = live_session(7);
    session.last_heartbeat_acked = false;
    let mut missed: u64 = 0;
    let sequence = session.heartbeat_tick(20_000_500, &mut missed);
    assert_eq!(missed, 1);
    // The keep-alive send is issued regardless: the sequence is handed out,
    // the signal is unacknowledged again, and the send time is updated.
    assert_eq!(sequence, 7);
    assert!(!session.last_heartbeat_acked);
    assert_eq!(session.last_heartbeat, 20_000_500);
}

#[test]
fn tick_with_acked_signal_lowers_tally() {
    let mut session = live_session(7);
    let mut missed: u64 = 5;
    session.heartbeat_tick(21_000_000, &mut missed);
    assert_eq!(missed, 1);
    assert!(!session.last_heartbeat_acked);
    let mut low: u64 = 0;
    let mut acked = live_session(7);
    acked.heartbeat_tick(21_000_000, &mut low);
    assert_eq!(low, 0);
}

#[test]
fn consecutive_unacked_ticks_reach_n_and_ack_resets() {
    let mut session = live_session(3);
    session.last_heartbeat_acked = false;
    let mut missed: u64 = 0;
    for n in 1..=4u64 {
        session.heartbeat_tick(n, &mut missed);
        assert_eq!(missed, n);
    }
    // An acknowledgment before the next tick leaves the tally alone; the
    // next tick then sees an acknowledged state and lowers it toward zero.
    let outcome = session.handle_event(Ok(DecodedEvent::KeepAliveAck), "", 5, &mut missed);
    assert!(matches!(outcome, FrameOutcome::Acknowledged));
    assert_eq!(missed, 4);
    assert!(session.last_heartbeat_acked);
    session.heartbeat_tick(6, &mut missed);
    assert_eq!(missed, 1);
}

#[test]
fn keep_alive_request_triggers_immediate_send() {
    let mut session = live_session(42);
    let mut missed: u64 = 0;
    let outcome = session.handle_event(Ok(DecodedEvent::KeepAliveRequest), "", 30_000_000, &mut missed);
    match outcome {
        FrameOutcome::KeepAliveDue { sequence } => assert_eq!(sequence, 42),
        other => panic!("expected a keep-alive send, got {other:?}"),
    }
    assert!(!session.last_heartbeat_acked);
    assert_eq!(session.last_heartbeat, 30_000_000);
}

#[test]
fn dispatch_overwrites_sequence_unconditionally() {
    let mut session = live_session(7);
    let mut missed: u64 = 0;
    session.handle_event(
        Ok(DecodedEvent::Dispatch { sequence: 9, payload: DispatchPayload::Unhandled }),
        "",
        0,
        &mut missed,
    );
    assert_eq!(session.last_seq, 9);
    // A lower sequence still overwrites: no ordering check is enforced.
    let outcome = session.handle_event(
        Ok(DecodedEvent::Dispatch { sequence: 3, payload: DispatchPayload::Unhandled }),
        "",
        0,
        &mut missed,
    );
    assert_eq!(session.last_seq, 3);
    assert!(matches!(
        outcome,
        FrameOutcome::Dispatched { payload: DispatchPayload::Unhandled }
    ));
}

#[test]
fn ready_dispatch_in_session_is_logged_only() {
    let mut session = live_session(7);
    let mut missed: u64 = 0;
    let outcome = session.handle_event(
        Ok(DecodedEvent::Dispatch { sequence: 8, payload: DispatchPayload::Ready }),
        "",
        0,
        &mut missed,
    );
    // No state re-initialization: only the sequence moves.
    assert!(matches!(outcome, FrameOutcome::Dispatched { payload: DispatchPayload::Ready }));
    assert_eq!(session.last_seq, 8);
    assert_eq!(session.heartbeat_interval, 41250);
    assert!(session.last_heartbeat_acked);
}

#[test]
fn other_events_are_ignored() {
    let mut session = live_session(7);
    let mut missed: u64 = 2;
    let outcome = session.handle_event(Ok(DecodedEvent::Other), "", 0, &mut missed);
    assert!(matches!(outcome, FrameOutcome::Ignored));
    assert_eq!(session.last_seq, 7);
    assert_eq!(missed, 2);
    let outcome = session.handle_event(
        Ok(DecodedEvent::Hello { heartbeat_interval: 9 }),
        "",
        0,
        &mut missed,
    );
    assert!(matches!(outcome, FrameOutcome::Ignored));
    assert_eq!(session.heartbeat_interval, 41250);
}

#[test]
fn unknown_event_failure_updates_capture() {
    let mut session = live_session(7);
    let mut missed: u64 = 0;
    let raw = "{\"t\":\"SOME_FUTURE_EVENT\",\"s\":3,\"op\":0,\"d\":{\"k\":1}}";
    let outcome = session.handle_event(
        Err(DecodeFailure::UnknownEvent {
            name: "SOME_FUTURE_EVENT".to_string(),
            message: "unknown variant `SOME_FUTURE_EVENT`, there are no variants".to_string(),
        }),
        raw,
        0,
        &mut missed,
    );
    match outcome {
        FrameOutcome::CaptureUpdated { name, .. } => assert_eq!(name, "SOME_FUTURE_EVENT"),
        other => panic!("expected a capture, got {other:?}"),
    }
    let stored = session
        .client_specific_payloads
        .get(&"SOME_FUTURE_EVENT".to_string())
        .expect("entry must exist");
    assert_eq!(stored.as_str(), raw);
    assert_eq!(session.last_seq, 7);
}

#[test]
fn repeated_unknown_name_overwrites_in_place() {
    let mut session = live_session(7);
    let mut missed: u64 = 0;
    for raw in ["{\"a\":1}", "{\"a\":2}"] {
        session.handle_event(
            Err(DecodeFailure::UnknownEvent {
                name: "EV_A".to_string(),
                message: "unknown variant `EV_A`, there are no variants".to_string(),
            }),
            raw,
            0,
            &mut missed,
        );
    }
    session.handle_event(
        Err(DecodeFailure::UnknownEvent {
            name: "EV_B".to_string(),
            message: "unknown variant `EV_B`, there are no variants".to_string(),
        }),
        "{\"b\":1}",
        0,
        &mut missed,
    );
    let table = &session.client_specific_payloads;
    assert_eq!(table.len(), 2);
    assert_eq!(table.entry(0).name, "EV_A");
    assert_eq!(table.entry(0).payload, "{\"a\":2}");
    assert_eq!(table.entry(1).name, "EV_B");
}

#[test]
fn malformed_failure_changes_nothing() {
    let mut session = live_session(7);
    let mut missed: u64 = 1;
    let outcome = session.handle_event(
        Err(DecodeFailure::Malformed { message: "expected value at line 1 column 1".to_string() }),
        "{",
        0,
        &mut missed,
    );
    match outcome {
        FrameOutcome::DecodeFailed { message } => {
            assert_eq!(message, "expected value at line 1 column 1")
        },
        other => panic!("expected a decode failure, got {other:?}"),
    }
    assert_eq!(session.client_specific_payloads.len(), 0);
    assert_eq!(missed, 1);
}

#[test]
fn recognized_close_code_is_reported_and_loop_continues() {
    let mut session = live_session(7);
    let mut missed: u64 = 0;
    let close = Message::Close(Some(CloseInfo { code: 4008, reason: "rate limited".to_string() }));
    let outcome = session.handle_transport_message(close, 0, &mut missed);
    match outcome {
        TransportOutcome::Close(code) => assert!(code.is_some()),
        other => panic!("expected a close outcome, got {other:?}"),
    }
    // The session is untouched; the loop does not exit and no reconnection
    // is attempted.
    assert_eq!(session.last_seq, 7);
    assert!(!session.interrupted);
}

#[test]
fn text_frame_through_transport_is_decoded_and_routed() {
    let mut session = live_session(7);
    let mut missed: u64 = 0;
    let frame = "{\"op\":11,\"d\":null}".to_string();
    session.last_heartbeat_acked = false;
    let outcome = session.handle_transport_message(Message::Text(frame), 0, &mut missed);
    match outcome {
        TransportOutcome::Frame(FrameOutcome::Acknowledged) => {}
        other => panic!("expected an acknowledgment, got {other:?}"),
    }
    assert!(session.last_heartbeat_acked);
}

#[test]
fn unassigned_close_codes_are_not_recognized() {
    assert!(handle_gateway_close(&Some(CloseInfo { code: 4006, reason: String::new() })).is_none());
    assert!(handle_gateway_close(&Some(CloseInfo { code: 1000, reason: String::new() })).is_none());
    assert!(handle_gateway_close(&None).is_none());
    assert!(handle_gateway_close(&Some(CloseInfo { code: 4000, reason: String::new() })).is_some());
    assert!(handle_gateway_close(&Some(CloseInfo { code: 4014, reason: String::new() })).is_some());
}
