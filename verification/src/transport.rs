//! The two-variant transport message type and close-notification
//! interpretation. The transport itself (the stream, its reads and writes)
//! lives outside the crate; it hands frames over in this shape.

use twilight_model::gateway::CloseCode;
use vstd::prelude::*;

verus! {

/// A close notification's contents as the transport hands them over.
#[derive(Debug)]
pub struct CloseInfo {
    /// The close code the peer sent.
    pub code: u16,
    /// The peer's reason text.
    pub reason: String,
}

/// An inbound transport frame, reduced to the two kinds the protocol
/// allows: a text payload or a close notification. Any other frame kind is
/// a transport error before it reaches the session core.
#[derive(Debug)]
pub enum Message {
    Text(String),
    Close(Option<CloseInfo>),
}

#[verifier::external_type_specification]
#[verifier::external_body]
pub struct ExCloseCode(CloseCode);

/// The close codes the protocol assigns: 4000 through 4014, with 4006
/// unassigned.
pub open spec fn spec_known_close_code(code: u16) -> bool {
    4000 <= code <= 4014 && code != 4006
}

/// Relies on `twilight_model::gateway::CloseCode::try_from::<u16>`: its
/// match returns a close code exactly for the values 4000 through 4014
/// other than 4006, and an error for every other value.
#[verifier::external_body]
fn close_code_from(code: u16) -> (r: Option<CloseCode>)
    ensures
        r is Some <==> spec_known_close_code(code),
{
    CloseCode::try_from(code).ok()
}

/// Interpret a close notification: the recognized close code it carries, if
/// any. The session loop only logs the code; it neither exits nor
/// reconnects on a close notification.
pub fn handle_gateway_close(close_frame: &Option<CloseInfo>) -> (r: Option<CloseCode>)
    ensures
        r is Some <==> (close_frame matches Some(f) && spec_known_close_code(f.code)),
{
    match close_frame {
        Some(f) => close_code_from(f.code),
        None => None,
    }
}

} // verus!
