//! The steady-state session: the `Initialized` phase carried by the client
//! after the handshake, the keep-alive bookkeeping run on every timer tick,
//! and the routing of decoded inbound events.

use crate::capture::{spec_insert, CaptureTable};
use crate::events::{
    classifies, decode_frame, decode_of, decode_view, DecodeFailure, DecodeFailureView,
    DecodedEvent, DispatchPayload,
};
use crate::transport::{handle_gateway_close, Message};
use twilight_model::gateway::CloseCode;
use vstd::prelude::*;

verus! {

/// How far in the past the initial keep-alive send time is placed, in
/// milliseconds, so that the first timer tick is never treated as early.
pub const FAR_PAST_MILLIS: u64 = 10_000_000;

/// The initial keep-alive send time for a session entered at `now`.
pub open spec fn spec_far_past(now: u64) -> u64 {
    if now >= FAR_PAST_MILLIS {
        (now - FAR_PAST_MILLIS) as u64
    } else {
        0
    }
}

/// Client state once the handshake has completed: the session is live and
/// the keep-alive scheduler and event loop drive it.
#[derive(Debug)]
pub struct Initialized {
    /// Keep-alive period in milliseconds, fixed when `Hello` was received
    /// and never changed afterwards.
    pub heartbeat_interval: u64,
    /// When the last keep-alive signal was sent, as a caller-supplied
    /// millisecond clock reading.
    pub last_heartbeat: u64,
    /// Whether the peer has acknowledged the last keep-alive signal.
    pub last_heartbeat_acked: bool,
    /// The most recently observed dispatch sequence number.
    pub last_seq: u64,
    /// Raw frames of dispatch events whose names the schema layer does not
    /// recognize, keyed by that name.
    pub client_specific_payloads: CaptureTable,
    /// Cooperative interruption flag consulted once per loop iteration.
    /// Plumbed through for an external cancellation signal; nothing in the
    /// core sets it.
    pub interrupted: bool,
}

/// The session state `wait_for_ready` hands out: keep-alive interval carried
/// over, send time in the far past, signal counted as acknowledged, sequence
/// taken from the `Ready` dispatch, no captures, not interrupted.
pub open spec fn is_initial_session(s: Initialized, interval: u64, sequence: u64, now: u64) -> bool {
    &&& s.heartbeat_interval == interval
    &&& s.last_heartbeat == spec_far_past(now)
    &&& s.last_heartbeat_acked == true
    &&& s.last_seq == sequence
    &&& s.client_specific_payloads@ =~= Seq::<(Seq<char>, Seq<char>)>::empty()
    &&& s.client_specific_payloads.wf()
    &&& s.interrupted == false
}

/// The missed-acknowledgment tally after a tick that sees `acked`: one more
/// missed signal when unacknowledged (saturating at the counter's limit),
/// otherwise lowered toward zero, to at most one.
pub open spec fn spec_next_missed(acked: bool, missed: u64) -> u64 {
    if !acked {
        if missed == u64::MAX {
            missed
        } else {
            (missed + 1) as u64
        }
    } else if missed > 1 {
        1
    } else {
        missed
    }
}

/// The session state after a keep-alive send at `now`: the new signal is
/// unacknowledged and its send time recorded; everything else is unchanged.
pub open spec fn spec_after_tick(s: Initialized, now: u64) -> Initialized {
    Initialized {
        heartbeat_interval: s.heartbeat_interval,
        last_heartbeat: now,
        last_heartbeat_acked: false,
        last_seq: s.last_seq,
        client_specific_payloads: s.client_specific_payloads,
        interrupted: s.interrupted,
    }
}

/// `s` with the last keep-alive signal marked acknowledged.
pub open spec fn spec_with_acked(s: Initialized) -> Initialized {
    Initialized {
        heartbeat_interval: s.heartbeat_interval,
        last_heartbeat: s.last_heartbeat,
        last_heartbeat_acked: true,
        last_seq: s.last_seq,
        client_specific_payloads: s.client_specific_payloads,
        interrupted: s.interrupted,
    }
}

/// `s` with the last observed dispatch sequence number overwritten —
/// unconditionally, whether or not `sequence` is larger than the old value.
pub open spec fn spec_with_seq(s: Initialized, sequence: u64) -> Initialized {
    Initialized {
        heartbeat_interval: s.heartbeat_interval,
        last_heartbeat: s.last_heartbeat,
        last_heartbeat_acked: s.last_heartbeat_acked,
        last_seq: sequence,
        client_specific_payloads: s.client_specific_payloads,
        interrupted: s.interrupted,
    }
}

/// What the session loop must do after one inbound text frame.
#[derive(Debug)]
pub enum FrameOutcome {
    /// The peer asked for liveness proof: send a keep-alive signal carrying
    /// `sequence` now.
    KeepAliveDue { sequence: u64 },
    /// The peer acknowledged the last keep-alive signal.
    Acknowledged,
    /// A dispatch event was routed; its payload is only logged.
    Dispatched { payload: DispatchPayload },
    /// An event with no work attached.
    Ignored,
    /// A dispatch event of unrecognized name was captured under `name`;
    /// persist the capture table, log the decode failure's `message`, and
    /// continue.
    CaptureUpdated { name: String, message: String },
    /// The frame could not be decoded for any other reason; log `message`
    /// and continue.
    DecodeFailed { message: String },
}

/// The steady-state transition relation: one decoded outcome (or classified
/// decode failure) of the raw frame `raw`, arriving at `now`, takes the
/// session from `pre` with missed-acknowledgment tally `pre_missed` to
/// `post` with `post_missed`, demanding `outcome` of the caller.
pub open spec fn spec_step(
    pre: Initialized,
    pre_missed: u64,
    event: Result<DecodedEvent, DecodeFailureView>,
    raw: Seq<char>,
    now: u64,
    post: Initialized,
    post_missed: u64,
    outcome: FrameOutcome,
) -> bool {
    match event {
        Ok(DecodedEvent::KeepAliveRequest) => {
            &&& post == spec_after_tick(pre, now)
            &&& post_missed == spec_next_missed(pre.last_heartbeat_acked, pre_missed)
            &&& outcome == (FrameOutcome::KeepAliveDue { sequence: pre.last_seq })
        },
        Ok(DecodedEvent::KeepAliveAck) => {
            &&& post == spec_with_acked(pre)
            &&& post_missed == pre_missed
            &&& outcome == FrameOutcome::Acknowledged
        },
        Ok(DecodedEvent::Dispatch { sequence, payload }) => {
            &&& post == spec_with_seq(pre, sequence)
            &&& post_missed == pre_missed
            &&& outcome == (FrameOutcome::Dispatched { payload })
        },
        Ok(DecodedEvent::Hello { .. }) | Ok(DecodedEvent::Other) => {
            &&& post == pre
            &&& post_missed == pre_missed
            &&& outcome == FrameOutcome::Ignored
        },
        Err(DecodeFailureView::UnknownEvent { name, message }) => {
            &&& post.client_specific_payloads@ == spec_insert(
                pre.client_specific_payloads@,
                name,
                raw,
            )
            &&& (pre.client_specific_payloads.wf() ==> post.client_specific_payloads.wf())
            &&& post.heartbeat_interval == pre.heartbeat_interval
            &&& post.last_heartbeat == pre.last_heartbeat
            &&& post.last_heartbeat_acked == pre.last_heartbeat_acked
            &&& post.last_seq == pre.last_seq
            &&& post.interrupted == pre.interrupted
            &&& post_missed == pre_missed
            &&& (outcome matches FrameOutcome::CaptureUpdated { name: n, message: m } && n@
                == name && m@ == message)
        },
        Err(DecodeFailureView::Malformed { message }) => {
            &&& post == pre
            &&& post_missed == pre_missed
            &&& (outcome matches FrameOutcome::DecodeFailed { message: m } && m@ == message)
        },
    }
}

impl Initialized {
    /// One keep-alive timer tick: count a missed acknowledgment (or lower
    /// the tally toward zero on an acknowledged signal), mark the new signal
    /// unacknowledged, record its send time, and hand back the sequence
    /// number the outgoing keep-alive signal must carry.
    pub fn heartbeat_tick(&mut self, now: u64, missed_acks: &mut u64) -> (sequence: u64)
        ensures
            *final(self) == spec_after_tick(*old(self), now),
            *final(missed_acks) == spec_next_missed(
                old(self).last_heartbeat_acked,
                *old(missed_acks),
            ),
            sequence == old(self).last_seq,
    {
        if !self.last_heartbeat_acked {
            if *missed_acks < u64::MAX {
                *missed_acks = *missed_acks + 1;
            }
        } else {
            if *missed_acks > 1 {
                *missed_acks = 1;
            }
        }
        self.last_heartbeat_acked = false;
        self.last_heartbeat = now;
        self.last_seq
    }

    /// Route one decoded outcome of the raw text frame `raw`: keep-alive
    /// requests run a full keep-alive tick, acknowledgments mark the signal
    /// acknowledged, dispatches overwrite the sequence number, unrecognized
    /// event names are captured, and everything else is ignored.
    pub fn handle_event(
        &mut self,
        event: Result<DecodedEvent, DecodeFailure>,
        raw: &str,
        now: u64,
        missed_acks: &mut u64,
    ) -> (r: FrameOutcome)
        ensures
            spec_step(
                *old(self),
                *old(missed_acks),
                decode_view(event),
                raw@,
                now,
                *final(self),
                *final(missed_acks),
                r,
            ),
    {
        match event {
            Ok(DecodedEvent::KeepAliveRequest) => {
                let sequence = self.heartbeat_tick(now, missed_acks);
                FrameOutcome::KeepAliveDue { sequence }
            },
            Ok(DecodedEvent::KeepAliveAck) => {
                self.last_heartbeat_acked = true;
                FrameOutcome::Acknowledged
            },
            Ok(DecodedEvent::Dispatch { sequence, payload }) => {
                self.last_seq = sequence;
                FrameOutcome::Dispatched { payload }
            },
            Ok(DecodedEvent::Hello { .. }) | Ok(DecodedEvent::Other) => FrameOutcome::Ignored,
            Err(DecodeFailure::UnknownEvent { name, message }) => {
                let captured = name.clone();
                self.client_specific_payloads.insert(name, raw.to_owned());
                FrameOutcome::CaptureUpdated { name: captured, message }
            },
            Err(DecodeFailure::Malformed { message }) => FrameOutcome::DecodeFailed { message },
        }
    }

    /// Decode one inbound text frame and route it: the per-frame step of
    /// the steady-state loop. The decode outcome is what `decode_of` names
    /// of the frame text; a failure is routed under its classification.
    pub fn handle_message(&mut self, json: &str, now: u64, missed_acks: &mut u64) -> (r:
        FrameOutcome)
        ensures
            (decode_of(json@) matches Ok(e) ==> spec_step(
                *old(self),
                *old(missed_acks),
                Ok(e),
                json@,
                now,
                *final(self),
                *final(missed_acks),
                r,
            )),
            (decode_of(json@) matches Err(m) ==> exists|fv: DecodeFailureView|
                #[trigger] spec_step(
                    *old(self),
                    *old(missed_acks),
                    Err(fv),
                    json@,
                    now,
                    *final(self),
                    *final(missed_acks),
                    r,
                ) && classifies(m, fv)),
    {
        let event = decode_frame(json);
        let ghost gv = decode_view(event);
        let r = self.handle_event(event, json, now, missed_acks);
        proof {
            if decode_of(json@) is Err {
                let m = if let Err(m) = decode_of(json@) {
                    m
                } else {
                    arbitrary()
                };
                let fv = if let Err(f) = gv {
                    f
                } else {
                    arbitrary()
                };
                assert(classifies(m, fv));
                assert(spec_step(
                    *old(self),
                    *old(missed_acks),
                    Err(fv),
                    json@,
                    now,
                    *self,
                    *missed_acks,
                    r,
                ));
            }
        }
        r
    }

    /// Service one inbound transport message: a text frame is decoded and
    /// routed; a close notification leaves the session untouched and is
    /// interpreted for logging only.
    pub fn handle_transport_message(&mut self, msg: Message, now: u64, missed_acks: &mut u64) -> (r:
        TransportOutcome)
        ensures
            (msg matches Message::Text(json) ==> r matches TransportOutcome::Frame(f) && {
                &&& (decode_of(json@) matches Ok(e) ==> spec_step(
                    *old(self),
                    *old(missed_acks),
                    Ok(e),
                    json@,
                    now,
                    *final(self),
                    *final(missed_acks),
                    f,
                ))
                &&& (decode_of(json@) matches Err(m) ==> exists|fv: DecodeFailureView|
                    #[trigger] spec_step(
                        *old(self),
                        *old(missed_acks),
                        Err(fv),
                        json@,
                        now,
                        *final(self),
                        *final(missed_acks),
                        f,
                    ) && classifies(m, fv))
            }),
            (msg matches Message::Close(cf) ==> {
                &&& *final(self) == *old(self)
                &&& *final(missed_acks) == *old(missed_acks)
                &&& r matches TransportOutcome::Close(c) && (c is Some <==> (cf matches Some(ci)
                    && crate::transport::spec_known_close_code(ci.code)))
            }),
    {
        match msg {
            Message::Text(json) => {
                let f = self.handle_message(json.as_str(), now, missed_acks);
                TransportOutcome::Frame(f)
            },
            Message::Close(close_frame) => TransportOutcome::Close(
                handle_gateway_close(&close_frame),
            ),
        }
    }
}

/// The tally and session state after `n` keep-alive ticks at clock reading
/// `now`, starting from `s` with tally `missed`.
pub open spec fn spec_ticks(s: Initialized, missed: u64, now: u64, n: nat) -> (Initialized, u64)
    decreases n,
{
    if n == 0 {
        (s, missed)
    } else {
        let (s1, m1) = spec_ticks(s, missed, now, (n - 1) as nat);
        (spec_after_tick(s1, now), spec_next_missed(s1.last_heartbeat_acked, m1))
    }
}

/// Ticks leave the signal unacknowledged, so starting unacknowledged every
/// one of `n` consecutive ticks counts a miss: the tally grows by exactly
/// `n`.
pub proof fn lemma_ticks_count(s: Initialized, missed: u64, now: u64, n: nat)
    requires
        !s.last_heartbeat_acked,
        missed + n <= u64::MAX,
    ensures
        !spec_ticks(s, missed, now, n).0.last_heartbeat_acked,
        spec_ticks(s, missed, now, n).1 == missed + n,
    decreases n,
{
    if n > 0 {
        lemma_ticks_count(s, missed, now, (n - 1) as nat);
    }
}

/// Missed-acknowledgment counting: `n` consecutive keep-alive ticks with
/// the signal unacknowledged at tick time drive the tally from zero to `n`.
pub proof fn lemma_missed_ack_counting(s: Initialized, now: u64, n: nat)
    requires
        !s.last_heartbeat_acked,
        n <= u64::MAX,
    ensures
        spec_ticks(s, 0, now, n).1 == n,
{
    lemma_ticks_count(s, 0, now, n);
}

/// An acknowledgment arriving before the next tick marks the signal
/// acknowledged without touching the tally, and the next tick then sees an
/// acknowledged state: it lowers the tally toward zero instead of counting
/// a miss.
pub proof fn lemma_ack_before_next_tick(
    pre: Initialized,
    pre_missed: u64,
    raw: Seq<char>,
    now: u64,
    post: Initialized,
    post_missed: u64,
    outcome: FrameOutcome,
)
    requires
        spec_step(
            pre,
            pre_missed,
            Ok(DecodedEvent::KeepAliveAck),
            raw,
            now,
            post,
            post_missed,
            outcome,
        ),
    ensures
        post.last_heartbeat_acked,
        post_missed == pre_missed,
        spec_next_missed(post.last_heartbeat_acked, post_missed) == (if pre_missed > 1 {
            1u64
        } else {
            pre_missed
        }),
{
}

/// No steady-state step and no keep-alive tick changes the keep-alive
/// interval: it stays what `Hello` fixed at handshake time.
pub proof fn lemma_interval_fixed_in_session(
    pre: Initialized,
    pre_missed: u64,
    event: Result<DecodedEvent, DecodeFailureView>,
    raw: Seq<char>,
    now: u64,
    post: Initialized,
    post_missed: u64,
    outcome: FrameOutcome,
)
    requires
        spec_step(pre, pre_missed, event, raw, now, post, post_missed, outcome),
    ensures
        post.heartbeat_interval == pre.heartbeat_interval,
        spec_after_tick(pre, now).heartbeat_interval == pre.heartbeat_interval,
{
}

/// `last_seq` tracks the most recently observed dispatch: a dispatch
/// overwrites it unconditionally — also when the arriving sequence number
/// is lower than the stored one — and no other event or tick changes it.
pub proof fn lemma_last_sequence_tracks_dispatches(
    pre: Initialized,
    pre_missed: u64,
    event: Result<DecodedEvent, DecodeFailureView>,
    raw: Seq<char>,
    now: u64,
    post: Initialized,
    post_missed: u64,
    outcome: FrameOutcome,
)
    requires
        spec_step(pre, pre_missed, event, raw, now, post, post_missed, outcome),
    ensures
        (event matches Ok(DecodedEvent::Dispatch { sequence, .. }) ==> post.last_seq == sequence),
        !(event matches Ok(DecodedEvent::Dispatch { .. })) ==> post.last_seq == pre.last_seq,
        spec_after_tick(pre, now).last_seq == pre.last_seq,
{
}

/// Unknown-event capture: a step on a dispatch frame whose event name the
/// schema layer does not recognize makes the capture table map that name to
/// the frame's raw text, leaves every other name's entry unchanged, and
/// keeps the table well formed. (The caller persists the whole table to the
/// side file after every such step.)
pub proof fn lemma_unknown_event_capture(
    pre: Initialized,
    pre_missed: u64,
    name: Seq<char>,
    message: Seq<char>,
    raw: Seq<char>,
    now: u64,
    post: Initialized,
    post_missed: u64,
    outcome: FrameOutcome,
    other: Seq<char>,
)
    requires
        spec_step(
            pre,
            pre_missed,
            Err(DecodeFailureView::UnknownEvent { name, message }),
            raw,
            now,
            post,
            post_missed,
            outcome,
        ),
        pre.client_specific_payloads.wf(),
        other != name,
    ensures
        crate::capture::spec_lookup(post.client_specific_payloads@, name) == Some(raw),
        crate::capture::spec_lookup(post.client_specific_payloads@, other)
            == crate::capture::spec_lookup(pre.client_specific_payloads@, other),
        post.client_specific_payloads.wf(),
{
    crate::capture::lemma_insert_lookup(pre.client_specific_payloads@, name, raw, other);
}

/// What the session loop must do after one transport message.
#[derive(Debug)]
pub enum TransportOutcome {
    /// The message was a text frame, routed with this outcome.
    Frame(FrameOutcome),
    /// The message was a close notification; the recognized close code it
    /// carried, if any, is to be logged. The loop continues either way.
    Close(Option<CloseCode>),
}

} // verus!
