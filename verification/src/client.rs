//! The linear handshake state machine. Four phases, strictly forward:
//! `WaitingForHello` → `WaitingForIdentify` → `WaitingForReady` →
//! `Initialized`. Each transition consumes the old phase value, so a
//! consumed phase cannot be reused, and the keep-alive interval learned from
//! `Hello` is threaded forward unchanged.

use crate::events::{decode_view, DecodeFailure, DecodeFailureView, DecodedEvent, DispatchPayload};
use crate::capture::CaptureTable;
use crate::session::{is_initial_session, Initialized, FAR_PAST_MILLIS};
use vstd::prelude::*;

verus! {

/// Errors of the handshake: each waiting phase has one designated event, and
/// every other decode outcome yields that phase's error.
#[derive(Clone, Copy, Debug, PartialEq, Eq, Structural)]
pub enum ClientError {
    /// The first decoded outcome was not a `Hello` event.
    NoHandshake,
    /// The decoded outcome after identifying was not the `Ready` dispatch.
    NoReady,
}

/// Closes the set of client phases: only types of this crate implement it.
pub trait Sealed {}

/// Marker for the phases of the client state machine.
pub trait ClientState: Sealed {}

/// Initial phase: the client waits for a `Hello` event to begin its
/// handshake.
#[derive(Debug)]
pub struct WaitingForHello;

/// The client has received `Hello` and must now send an identify message.
#[derive(Debug)]
pub struct WaitingForIdentify {
    /// Keep-alive period in milliseconds, carried by `Hello`.
    pub heartbeat_interval: u64,
}

/// The client has sent its identify message and waits for the `Ready`
/// dispatch.
#[derive(Debug)]
pub struct WaitingForReady {
    /// Keep-alive period in milliseconds, carried forward from `Hello`.
    pub heartbeat_interval: u64,
}

impl Sealed for WaitingForHello {

}

impl Sealed for WaitingForIdentify {

}

impl Sealed for WaitingForReady {

}

impl Sealed for Initialized {

}

impl ClientState for WaitingForHello {

}

impl ClientState for WaitingForIdentify {

}

impl ClientState for WaitingForReady {

}

impl ClientState for Initialized {

}

/// The hello transition: only a decoded `Hello` advances, carrying its
/// interval; every other event and every decode failure is `NoHandshake`.
pub open spec fn spec_wait_for_hello(event: Result<DecodedEvent, DecodeFailureView>) -> Result<
    WaitingForIdentify,
    ClientError,
> {
    match event {
        Ok(DecodedEvent::Hello { heartbeat_interval }) => Ok(
            WaitingForIdentify { heartbeat_interval },
        ),
        _ => Err(ClientError::NoHandshake),
    }
}

/// The event that alone completes the ready phase: a dispatch carrying the
/// `Ready` payload.
pub open spec fn is_ready_dispatch(event: Result<DecodedEvent, DecodeFailureView>) -> bool {
    event matches Ok(DecodedEvent::Dispatch { payload: DispatchPayload::Ready, .. })
}

impl WaitingForHello {
    /// Consume the hello phase with the first decoded outcome. A `Hello`
    /// event advances to `WaitingForIdentify` with the interval it carries;
    /// every other event, and every decode failure, yields `NoHandshake` and
    /// no transition.
    pub fn wait_for_hello(self, event: &Result<DecodedEvent, DecodeFailure>) -> (r: Result<
        WaitingForIdentify,
        ClientError,
    >)
        ensures
            r == spec_wait_for_hello(decode_view(*event)),
    {
        match event {
            Ok(DecodedEvent::Hello { heartbeat_interval }) => Ok(
                WaitingForIdentify { heartbeat_interval: *heartbeat_interval },
            ),
            _ => Err(ClientError::NoHandshake),
        }
    }
}

impl From<WaitingForIdentify> for WaitingForReady {
    /// The identify transition: once the identify message is on the wire,
    /// the phase advances, carrying the keep-alive interval unchanged.
    fn from(value: WaitingForIdentify) -> (r: Self) {
        WaitingForReady { heartbeat_interval: value.heartbeat_interval }
    }
}

impl vstd::std_specs::convert::FromSpecImpl<WaitingForIdentify> for WaitingForReady {
    open spec fn obeys_from_spec() -> bool {
        true
    }

    open spec fn from_spec(t: WaitingForIdentify) -> WaitingForReady {
        WaitingForReady { heartbeat_interval: t.heartbeat_interval }
    }
}

impl WaitingForReady {
    /// Consume the ready phase with the next decoded outcome, at clock
    /// reading `now` (milliseconds). A dispatch carrying `Ready` advances to
    /// the live session: interval carried over, last send time in the far
    /// past, signal counted as acknowledged, sequence taken from the
    /// dispatch, no captures, not interrupted. Every other event, and every
    /// decode failure, yields `NoReady` and no transition.
    pub fn wait_for_ready(self, event: &Result<DecodedEvent, DecodeFailure>, now: u64) -> (r:
        Result<Initialized, ClientError>)
        ensures
            (decode_view(*event) matches Ok(
                DecodedEvent::Dispatch { sequence, payload: DispatchPayload::Ready },
            ) ==> (r matches Ok(s) && is_initial_session(
                s,
                self.heartbeat_interval,
                sequence,
                now,
            ))),
            !is_ready_dispatch(decode_view(*event)) ==> r == Err::<
                Initialized,
                ClientError,
            >(ClientError::NoReady),
    {
        match event {
            Ok(DecodedEvent::Dispatch { sequence, payload: DispatchPayload::Ready }) => {
                let last_heartbeat = if now >= FAR_PAST_MILLIS {
                    now - FAR_PAST_MILLIS
                } else {
                    0
                };
                Ok(
                    Initialized {
                        heartbeat_interval: self.heartbeat_interval,
                        last_heartbeat,
                        last_heartbeat_acked: true,
                        last_seq: *sequence,
                        client_specific_payloads: CaptureTable::new(),
                        interrupted: false,
                    },
                )
            },
            _ => Err(ClientError::NoReady),
        }
    }
}

/// From each waiting phase, exactly one decode outcome advances the state
/// machine: a `Hello` event out of the hello phase, and a dispatch carrying
/// `Ready` out of the ready phase. Every other event, and every decode
/// failure, yields the phase's designated error and no transition. (The
/// ready phase's contract states the error side directly on
/// `wait_for_ready`; the identify transition is caller-triggered and
/// total.)
pub proof fn lemma_only_designated_event_advances(event: Result<DecodedEvent, DecodeFailureView>)
    ensures
        spec_wait_for_hello(event) is Ok <==> event matches Ok(DecodedEvent::Hello { .. }),
        spec_wait_for_hello(event) is Err ==> spec_wait_for_hello(event) == Err::<
            WaitingForIdentify,
            ClientError,
        >(ClientError::NoHandshake),
        is_ready_dispatch(event) <==> event matches Ok(
            DecodedEvent::Dispatch { payload: DispatchPayload::Ready, .. },
        ),
{
}

/// The keep-alive interval carried by `Hello` is what the hello transition
/// stores, and the identify transition threads it forward unchanged; the
/// ready transition's contract stores the same value in the live session,
/// where no step changes it (see `lemma_interval_fixed_in_session`).
pub proof fn lemma_interval_carried_through_handshake(heartbeat_interval: u64)
    ensures
        spec_wait_for_hello(Ok(DecodedEvent::Hello { heartbeat_interval })) == Ok::<
            WaitingForIdentify,
            ClientError,
        >(WaitingForIdentify { heartbeat_interval }),
        <WaitingForReady as vstd::std_specs::convert::FromSpec<WaitingForIdentify>>::from_spec(
            WaitingForIdentify { heartbeat_interval },
        ).heartbeat_interval == heartbeat_interval,
{
}

} // verus!
