//! Core of a persistent-connection protocol client: the linear handshake
//! state machine, the keep-alive bookkeeping, the steady-state event routing,
//! and the capture table for dispatch events the schema layer does not
//! recognize. Transport I/O and timers live outside; this crate holds the
//! decisions they feed.

pub mod capture;
pub mod client;
pub mod events;
pub mod session;
pub mod thread_create;
pub mod transport;

pub use capture::{CaptureEntry, CaptureTable};
pub use client::{
    ClientError, ClientState, Sealed, WaitingForHello, WaitingForIdentify, WaitingForReady,
};
pub use events::{decode_frame, unknown_variant_name, DecodeFailure, DecodedEvent, DispatchPayload};
pub use session::{FrameOutcome, Initialized, TransportOutcome};
pub use thread_create::ThreadCreate;
pub use transport::{handle_gateway_close, CloseInfo, Message};
