use fusioncord_core::{
    ClientError, DecodeFailure, DecodedEvent, DispatchPayload, WaitingForHello, WaitingForIdentify,
    WaitingForReady,
};

#[test]
fn hello_advances_with_interval() {
    let phase = WaitingForHello;
    let event: Result<DecodedEvent, DecodeFailure> =
        Ok(DecodedEvent::Hello { heartbeat_interval: 41250 });
    let next = phase.wait_for_hello(&event).expect("hello must advance");
    assert_eq!(next.heartbeat_interval, 41250);
    // The identify transition carries the interval forward unchanged.
    let ready = WaitingForReady::from(next);
    assert_eq!(ready.heartbeat_interval, 41250);
}

#[test]
fn ack_in_hello_phase_is_no_handshake() {
    let phase = WaitingForHello;
    let event: Result<DecodedEvent, DecodeFailure> = Ok(DecodedEvent::KeepAliveAck);
    let r = phase.wait_for_hello(&event);
    assert!(matches!(r, Err(ClientError::NoHandshake)));
}

#[test]
fn every_non_hello_event_is_no_handshake() {
    let events: Vec<Result<DecodedEvent, DecodeFailure>> = vec![
        Ok(DecodedEvent::KeepAliveRequest),
        Ok(DecodedEvent::KeepAliveAck),
        Ok(DecodedEvent::Dispatch { sequence: 1, payload: DispatchPayload::Ready }),
        Ok(DecodedEvent::Dispatch { sequence: 2, payload: DispatchPayload::Unhandled }),
        Ok(DecodedEvent::Other),
        Err(DecodeFailure::Malformed { message: "broken".to_string() }),
        Err(DecodeFailure::UnknownEvent {
            name: "SOME_FUTURE_EVENT".to_string(),
            message: "unknown variant `SOME_FUTURE_EVENT`, there are no variants".to_string(),
        }),
    ];
    for event in events {
        let phase = WaitingForHello;
        assert!(matches!(phase.wait_for_hello(&event), Err(ClientError::NoHandshake)));
    }
}

#[test]
fn ready_dispatch_enters_session() {
    let phase = WaitingForReady { heartbeat_interval: 41250 };
    let event: Result<DecodedEvent, DecodeFailure> =
        Ok(DecodedEvent::Dispatch { sequence: 7, payload: DispatchPayload::Ready });
    let session = phase.wait_for_ready(&event, 20_000_000).expect("ready must advance");
    assert_eq!(session.last_seq, 7);
    assert!(session.last_heartbeat_acked);
    assert_eq!(session.heartbeat_interval, 41250);
    assert_eq!(session.last_heartbeat, 10_000_000);
    assert_eq!(session.client_specific_payloads.len(), 0);
    assert!(!session.interrupted);
}

#[test]
fn far_past_send_time_saturates_at_zero() {
    let phase = WaitingForReady { heartbeat_interval: 1000 };
    let event: Result<DecodedEvent, DecodeFailure> =
        Ok(DecodedEvent::Dispatch { sequence: 1, payload: DispatchPayload::Ready });
    let session = phase.wait_for_ready(&event, 5).expect("ready must advance");
    assert_eq!(session.last_heartbeat, 0);
}

#[test]
fn every_non_ready_event_is_no_ready() {
    let events: Vec<Result<DecodedEvent, DecodeFailure>> = vec![
        Ok(DecodedEvent::Hello { heartbeat_interval: 1 }),
        Ok(DecodedEvent::KeepAliveRequest),
        Ok(DecodedEvent::KeepAliveAck),
        Ok(DecodedEvent::Dispatch { sequence: 2, payload: DispatchPayload::Unhandled }),
        Ok(DecodedEvent::Other),
        Err(DecodeFailure::Malformed { message: "broken".to_string() }),
    ];
    for event in events {
        let phase = WaitingForReady { heartbeat_interval: 41250 };
        assert!(matches!(phase.wait_for_ready(&event, 0), Err(ClientError::NoReady)));
    }
}

#[test]
fn consuming_transitions_thread_one_interval() {
    // Hello fixes 41250 once; it survives identify and ready unchanged.
    let hello = WaitingForHello;
    let event: Result<DecodedEvent, DecodeFailure> =
        Ok(DecodedEvent::Hello { heartbeat_interval: 41250 });
    let identify: WaitingForIdentify = hello.wait_for_hello(&event).unwrap();
    let ready: WaitingForReady = identify.into();
    let dispatch: Result<DecodedEvent, DecodeFailure> =
        Ok(DecodedEvent::Dispatch { sequence: 9, payload: DispatchPayload::Ready });
    let session = ready.wait_for_ready(&dispatch, 0).unwrap();
    assert_eq!(session.heartbeat_interval, 41250);
}
