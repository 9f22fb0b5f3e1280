//! Inbound frames, decoded into the tagged shape the session core routes on,
//! and the classification of decode failures.

use serde::de::DeserializeSeed;
use twilight_model::gateway::event::{DispatchEvent, GatewayEvent, GatewayEventDeserializer};
use vstd::prelude::*;

verus! {

/// What decoding a text frame yields: a function of the frame text alone.
/// `Ok` carries the decoded event; `Err` carries the decoder's rendered
/// message.
pub uninterp spec fn decode_of(s: Seq<char>) -> Result<DecodedEvent, Seq<char>>;

/// The payload of a dispatch-class event, as far as the session core needs to
/// tell payloads apart: the `Ready` payload completes the handshake; every
/// other payload the schema layer recognizes is carried opaquely and only
/// logged by callers.
#[derive(Clone, Copy, Debug, PartialEq, Eq, Structural)]
pub enum DispatchPayload {
    Ready,
    Unhandled,
}

/// An inbound text frame after decoding.
#[derive(Clone, Copy, Debug, PartialEq, Eq, Structural)]
pub enum DecodedEvent {
    /// Opening event of the handshake; carries the keep-alive period in
    /// milliseconds.
    Hello { heartbeat_interval: u64 },
    /// The peer asks the client for an immediate out-of-cycle keep-alive.
    KeepAliveRequest,
    /// The peer acknowledges the client's last keep-alive signal.
    KeepAliveAck,
    /// A named, sequenced event describing a state change.
    Dispatch { sequence: u64, payload: DispatchPayload },
    /// Any other event the schema layer recognizes; the session core ignores
    /// it.
    Other,
}

/// Why a text frame could not be decoded.
#[derive(Debug)]
pub enum DecodeFailure {
    /// The decoder rejected the frame because its dispatch event name is not
    /// one the schema layer knows. `name` is the rejected event name, taken
    /// out of the decoder's rendered message; `message` is that whole
    /// message.
    UnknownEvent { name: String, message: String },
    /// Any other decode failure, carried as the decoder's rendered message.
    Malformed { message: String },
}

/// The mathematical shadow of [`DecodeFailure`], over sequences of
/// characters.
pub enum DecodeFailureView {
    UnknownEvent { name: Seq<char>, message: Seq<char> },
    Malformed { message: Seq<char> },
}

impl View for DecodeFailure {
    type V = DecodeFailureView;

    open spec fn view(&self) -> DecodeFailureView {
        match self {
            DecodeFailure::UnknownEvent { name, message } => (DecodeFailureView::UnknownEvent {
                name: name@,
                message: message@,
            }),
            DecodeFailure::Malformed { message } => (DecodeFailureView::Malformed {
                message: message@,
            }),
        }
    }
}

/// A decode outcome as the contracts speak of it: the decoded event, or the
/// view of the classified failure.
pub open spec fn decode_view(r: Result<DecodedEvent, DecodeFailure>) -> Result<
    DecodedEvent,
    DecodeFailureView,
> {
    match r {
        Ok(e) => Ok(e),
        Err(f) => Err(f@),
    }
}

/// The text with which the decoder's message announces an unrecognized
/// dispatch event name; the name itself follows, up to the next backtick.
pub open spec fn unknown_marker() -> Seq<char> {
    "unknown variant `"@
}

/// The marker occurs in `s` starting at position `i`.
pub open spec fn marker_at(s: Seq<char>, i: int) -> bool {
    &&& 0 <= i
    &&& i + unknown_marker().len() <= s.len()
    &&& forall|t: int| 0 <= t < unknown_marker().len() ==> s[i + t] == unknown_marker()[t]
}

/// The marker occurs at `i` and nowhere earlier.
pub open spec fn first_marker_at(s: Seq<char>, i: int) -> bool {
    &&& marker_at(s, i)
    &&& forall|j: int| 0 <= j < i ==> !marker_at(s, j)
}

/// `k` is the position of the first backtick at or after `start`.
pub open spec fn name_end_at(s: Seq<char>, start: int, k: int) -> bool {
    &&& start <= k < s.len()
    &&& s[k] == '`'
    &&& forall|j: int| start <= j < k ==> s[j] != '`'
}

/// `k` closes the name of a marker occurrence at `i`: it is the first
/// backtick after the marker's end.
pub open spec fn name_close_at(s: Seq<char>, i: int, k: int) -> bool {
    name_end_at(s, i + unknown_marker().len(), k)
}

/// The message `s` announces an unrecognized event name: the marker occurs,
/// and a backtick closes the name after its first occurrence.
pub open spec fn names_unknown_event(s: Seq<char>) -> bool {
    exists|i: int, k: int| first_marker_at(s, i) && #[trigger] name_close_at(s, i, k)
}

/// `name` is the event name that the message `s` announces as unrecognized:
/// the characters between the first occurrence of the marker and the next
/// backtick.
pub open spec fn is_unknown_name(s: Seq<char>, name: Seq<char>) -> bool {
    exists|i: int, k: int|
        {
            &&& first_marker_at(s, i)
            &&& #[trigger] name_close_at(s, i, k)
            &&& name == s.subrange(i + unknown_marker().len(), k)
        }
}

/// `f` classifies the decode failure message `m`: an unrecognized-name
/// failure exactly when `m` announces one, carrying the announced name, and
/// a malformed-frame failure otherwise; either way `f` carries `m` whole.
/// By `lemma_unknown_name_unique`, at most one `f` classifies each `m`.
pub open spec fn classifies(m: Seq<char>, f: DecodeFailureView) -> bool {
    match f {
        DecodeFailureView::UnknownEvent { name, message } => message == m && is_unknown_name(
            m,
            name,
        ),
        DecodeFailureView::Malformed { message } => message == m && !names_unknown_event(m),
    }
}

/// At most one name is announced by a message: the first marker occurrence
/// and the first closing backtick after it are unique.
pub proof fn lemma_unknown_name_unique(s: Seq<char>, n1: Seq<char>, n2: Seq<char>)
    requires
        is_unknown_name(s, n1),
        is_unknown_name(s, n2),
    ensures
        n1 == n2,
{
    let (i1, k1) = choose|i: int, k: int|
        {
            &&& first_marker_at(s, i)
            &&& #[trigger] name_close_at(s, i, k)
            &&& n1 == s.subrange(i + unknown_marker().len(), k)
        };
    let (i2, k2) = choose|i: int, k: int|
        {
            &&& first_marker_at(s, i)
            &&& #[trigger] name_close_at(s, i, k)
            &&& n2 == s.subrange(i + unknown_marker().len(), k)
        };
    assert(i1 == i2) by {
        if i1 < i2 {
            assert(!marker_at(s, i1));
        }
        if i2 < i1 {
            assert(!marker_at(s, i2));
        }
    }
    assert(k1 == k2) by {
        if k1 < k2 {
            assert(s[k1] != '`');
        }
        if k2 < k1 {
            assert(s[k2] != '`');
        }
    }
}

/// Extract the event name that a decode failure message announces as
/// unrecognized: the characters between the first occurrence of
/// ``unknown variant ` `` and the next backtick. Returns `None` when the
/// message announces no such name.
pub fn unknown_variant_name(msg: &str) -> (r: Option<String>)
    ensures
        match r {
            Some(name) => is_unknown_name(msg@, name@),
            None => !names_unknown_event(msg@),
        },
{
    let marker = "unknown variant `";
    proof {
        reveal_strlit("unknown variant `");
    }
    let mlen = marker.unicode_len();
    let n = msg.unicode_len();
    assert(marker@ == unknown_marker());
    if n < mlen {
        proof {
            assert forall|j: int| !marker_at(msg@, j) by {
                if 0 <= j && j + unknown_marker().len() <= msg@.len() {
                    assert(false);
                }
            }
        }
        return None;
    }
    let limit = n - mlen;
    let mut i: usize = 0;
    loop
        invariant
            mlen == unknown_marker().len(),
            marker@ == unknown_marker(),
            n == msg@.len(),
            mlen <= n,
            limit == n - mlen,
            i <= limit + 1,
            forall|j: int| 0 <= j < i ==> !marker_at(msg@, j),
        decreases limit + 1 - i,
    {
        if i > limit {
            proof {
                assert forall|j: int| !marker_at(msg@, j) by {
                    if 0 <= j && j + unknown_marker().len() <= msg@.len() {
                        assert(j <= limit);
                        assert(!marker_at(msg@, j));
                    }
                }
            }
            return None;
        }
        let mut t: usize = 0;
        while t < mlen && msg.get_char(i + t) == marker.get_char(t)
            invariant
                mlen == unknown_marker().len(),
                n == msg@.len(),
                i + mlen <= n,
                t <= mlen,
                marker@ == unknown_marker(),
                forall|u: int| 0 <= u < t ==> msg@[i + u] == unknown_marker()[u],
            decreases mlen - t,
        {
            t = t + 1;
        }
        if t == mlen {
            // The marker's first occurrence starts at `i`; look for the
            // backtick that closes the name.
            assert(marker_at(msg@, i as int));
            assert(first_marker_at(msg@, i as int));
            let start = i + mlen;
            let mut e = start;
            while e < n && msg.get_char(e) != '`'
                invariant
                    n == msg@.len(),
                    start <= e <= n,
                    forall|j: int| start <= j < e ==> msg@[j] != '`',
                decreases n - e,
            {
                e = e + 1;
            }
            if e < n {
                assert(name_end_at(msg@, start as int, e as int));
                let name_part = msg.substring_char(start, e);
                let name = name_part.to_owned();
                proof {
                    let ii = i as int;
                    let kk = e as int;
                    assert(first_marker_at(msg@, ii) && name_close_at(msg@, ii, kk)
                        && name@ == msg@.subrange(ii + unknown_marker().len(), kk));
                }
                return Some(name);
            } else {
                proof {
                    assert forall|i2: int, k2: int|
                        !(first_marker_at(msg@, i2) && #[trigger] name_close_at(msg@, i2, k2)) by {
                        if first_marker_at(msg@, i2) {
                            assert(i2 == i as int) by {
                                if i2 < i as int {
                                    assert(!marker_at(msg@, i2));
                                }
                                if (i as int) < i2 {
                                    assert(!marker_at(msg@, i as int));
                                }
                            }
                            if name_close_at(msg@, i2, k2) {
                                assert(msg@[k2] == '`');
                                assert(false);
                            }
                        }
                    }
                }
                return None;
            }
        } else {
            assert(msg@[i + t] != unknown_marker()[t as int]);
            assert(!marker_at(msg@, i as int));
            i = i + 1;
        }
    }
}

/// Relies on `twilight_model::gateway::event::GatewayEventDeserializer`
/// (its `from_json` scan for the opcode and event name, and its
/// `DeserializeSeed` impl run over a `serde_json::Deserializer` of the same
/// text) to decode one frame, and on `serde_json::Error::to_string` for the
/// rendered message of a failure. Decoding consults nothing but the frame
/// text, so the outcome is named by `decode_of`.
#[verifier::external_body]
fn decode_gateway_event(json: &str) -> (r: Result<DecodedEvent, String>)
    ensures
        decode_of(json@) == (match r {
            Ok(e) => Ok::<DecodedEvent, Seq<char>>(e),
            Err(m) => Err::<DecodedEvent, Seq<char>>(m@),
        }),
{
    let de = match GatewayEventDeserializer::from_json(json) {
        Some(de) => de,
        None => return Err("missing opcode".to_owned()),
    };
    match de.deserialize(&mut serde_json::Deserializer::from_str(json)) {
        Ok(GatewayEvent::Hello(h)) => Ok(DecodedEvent::Hello { heartbeat_interval: h.heartbeat_interval }),
        Ok(GatewayEvent::Heartbeat) => Ok(DecodedEvent::KeepAliveRequest),
        Ok(GatewayEvent::HeartbeatAck) => Ok(DecodedEvent::KeepAliveAck),
        Ok(GatewayEvent::Dispatch(sequence, DispatchEvent::Ready(_))) => Ok(DecodedEvent::Dispatch { sequence, payload: DispatchPayload::Ready }),
        Ok(GatewayEvent::Dispatch(sequence, _)) => Ok(DecodedEvent::Dispatch { sequence, payload: DispatchPayload::Unhandled }),
        Ok(_) => Ok(DecodedEvent::Other),
        Err(e) => Err(e.to_string()),
    }
}

/// Decode one inbound text frame. A decodable frame yields its event; a
/// failure is classified: a message announcing an unrecognized event name
/// becomes `UnknownEvent` carrying that name, anything else `Malformed`.
pub fn decode_frame(json: &str) -> (r: Result<DecodedEvent, DecodeFailure>)
    ensures
        (decode_of(json@) matches Ok(e) ==> r == Ok::<DecodedEvent, DecodeFailure>(e)),
        (decode_of(json@) matches Err(m) ==> r matches Err(f) && classifies(m, f@)),
{
    match decode_gateway_event(json) {
        Ok(e) => Ok(e),
        Err(message) => match unknown_variant_name(message.as_str()) {
            Some(name) => Err(DecodeFailure::UnknownEvent { name, message }),
            None => Err(DecodeFailure::Malformed { message }),
        },
    }
}

} // verus!
