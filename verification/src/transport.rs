//! Pairing and authentication decisions of the peer-to-peer transport, and the
//! bookkeeping of outbound send attempts.
use vstd::prelude::*;

use crate::logging::{backend_event_line, bounded_push, log_backend_event_with_state};
use crate::models::TransportMessage;
use crate::network::set_transport_status;
use crate::state::{AppState, MAX_DIAGNOSTIC_EVENTS};
use crate::sync::{
    apply_incoming_image, apply_incoming_text, inbound_label, inbound_peer_label, IncomingOutcome,
};
use crate::text::concat2;

verus! {

/// A `Hello` from `device_name` carrying `token` is accepted exactly when the
/// device is trusted under that token.
pub open spec fn hello_accepted(trusted: Map<Seq<char>, String>, device_name: Seq<char>, token: Seq<char>) -> bool {
    trusted.contains_key(device_name) && trusted[device_name]@ == token
}

/// `ack` is this device's answer to a `Hello` from `device_name` carrying `token`.
pub open spec fn is_hello_answer(state: AppState, device_name: Seq<char>, token: Seq<char>, ack: TransportMessage) -> bool {
    let accepted = hello_accepted(state.settings.trusted_peers@, device_name, token);
    ack matches TransportMessage::HelloAck { device_name: local, accepted: a, reason } && local
        == state.device_name && a == accepted && reason@ == (if accepted {
        "authenticated"@
    } else {
        "token_mismatch"@
    })
}

/// The answer to a `Hello` from `device_name` carrying `token`.
pub fn answer_hello(state: &AppState, device_name: &str, token: &str) -> (r: TransportMessage)
    requires
        state.settings.trusted_peers.wf(),
    ensures
        is_hello_answer(*state, device_name@, token@, r),
{
    let accepted = match state.settings.trusted_peers.get(device_name) {
        Some(t) => *t == token.to_owned(),
        None => false,
    };
    let reason = if accepted {
        "authenticated".to_owned()
    } else {
        "token_mismatch".to_owned()
    };
    TransportMessage::HelloAck { device_name: state.device_name.clone(), accepted, reason }
}

/// The effect of recording the authentication result of a `Hello` from
/// `device_name` at `peer_ip`: diagnostic `line`, and the transport status of
/// the label `name (ip)`.
pub open spec fn hello_outcome_recorded(
    pre: AppState,
    post: AppState,
    device_name: Seq<char>,
    peer_ip: Seq<char>,
    accepted: bool,
    line: String,
) -> bool {
    let label = inbound_label(device_name, peer_ip);
    &&& line@ == (if accepted {
        backend_event_line("SUCCESS"@, "PAIRING_AUTH_INBOUND"@, "peer="@ + label + " authenticated"@)
    } else {
        backend_event_line("FAILED"@, "PAIRING_AUTH_INBOUND"@, "peer="@ + label + " auth mismatch"@)
    })
    &&& post.diagnostic_events@ == bounded_push(pre.diagnostic_events@, line, MAX_DIAGNOSTIC_EVENTS as nat)
    &&& post.transport_status@.contains_key(label)
    &&& post.transport_status@[label]@ == (if accepted {
        "authenticated (inbound)"@
    } else {
        "rejected: token mismatch"@
    })
    &&& post.transport_status@.remove(label) == pre.transport_status@.remove(label)
    &&& post == (AppState {
        transport_status: post.transport_status,
        diagnostic_events: post.diagnostic_events,
        ..pre
    })
}

/// Records the result of authenticating an inbound `Hello` from `device_name` at
/// `peer_ip`, and returns the diagnostic line.
pub fn record_hello_outcome(state: &mut AppState, device_name: &str, peer_ip: &str, accepted: bool) -> (r: String)
    requires
        old(state).wf(),
    ensures
        final(state).wf(),
        hello_outcome_recorded(*old(state), *final(state), device_name@, peer_ip@, accepted, r),
{
    let label = inbound_peer_label(device_name, peer_ip);
    let mut details = concat2("peer=", label.as_str());
    let line = if accepted {
        details.append(" authenticated");
        log_backend_event_with_state(state, "SUCCESS", "PAIRING_AUTH_INBOUND", details.as_str())
    } else {
        details.append(" auth mismatch");
        log_backend_event_with_state(state, "FAILED", "PAIRING_AUTH_INBOUND", details.as_str())
    };
    let status = if accepted {
        "authenticated (inbound)".to_owned()
    } else {
        "rejected: token mismatch".to_owned()
    };
    let ghost l = label@;
    set_transport_status(state, label, status);
    proof {
        assert(final(state).transport_status@.remove(l) =~= old(state).transport_status@.remove(l));
    }
    line
}

/// The effect of a pairing request from `device_name` offering `token`: it is
/// queued for approval and `line` is recorded.
pub open spec fn pairing_request_recorded(pre: AppState, post: AppState, device_name: Seq<char>, token: String, line: String) -> bool {
    &&& line@ == backend_event_line("INFO"@, "PAIRING_REQUEST_RCVD"@, "peer="@ + device_name + " requested pairing"@)
    &&& post.pending_pairing_requests@ == pre.pending_pairing_requests@.insert(device_name, token)
    &&& post.diagnostic_events@ == bounded_push(pre.diagnostic_events@, line, MAX_DIAGNOSTIC_EVENTS as nat)
    &&& post == (AppState {
        pending_pairing_requests: post.pending_pairing_requests,
        diagnostic_events: post.diagnostic_events,
        ..pre
    })
}

/// Records a pairing request from `device_name` offering `token`, and returns
/// the diagnostic line.
pub fn record_pairing_request(state: &mut AppState, device_name: String, token: String) -> (r: String)
    requires
        old(state).wf(),
    ensures
        final(state).wf(),
        pairing_request_recorded(*old(state), *final(state), device_name@, token, r),
{
    let mut details = concat2("peer=", device_name.as_str());
    details.append(" requested pairing");
    state.pending_pairing_requests.insert(device_name, token);
    log_backend_event_with_state(state, "INFO", "PAIRING_REQUEST_RCVD", details.as_str())
}

/// `"true"` or `"false"`.
pub open spec fn bool_text(b: bool) -> Seq<char> {
    if b {
        "true"@
    } else {
        "false"@
    }
}

/// The effect of a peer's answer to our pairing request: `line` is recorded, the
/// request is forgotten, and on acceptance its token becomes trusted; `changed`
/// says whether the trusted peers changed.
pub open spec fn pairing_response_applied(
    pre: AppState,
    post: AppState,
    device_name: Seq<char>,
    accepted: bool,
    line: String,
    changed: bool,
) -> bool {
    &&& line@ == backend_event_line(
        "INFO"@,
        "PAIRING_RESPONSE_RCVD"@,
        "peer="@ + device_name + " pairing accepted="@ + bool_text(accepted),
    )
    &&& post.diagnostic_events@ == bounded_push(pre.diagnostic_events@, line, MAX_DIAGNOSTIC_EVENTS as nat)
    &&& post.outgoing_pairing_requests@ == pre.outgoing_pairing_requests@.remove(device_name)
    &&& changed == (accepted && pre.outgoing_pairing_requests@.contains_key(device_name))
    &&& post.settings.trusted_peers@ == (if changed {
        pre.settings.trusted_peers@.insert(device_name, pre.outgoing_pairing_requests@[device_name])
    } else {
        pre.settings.trusted_peers@
    })
    &&& post.settings == (crate::models::AppSettings { trusted_peers: post.settings.trusted_peers, ..pre.settings })
    &&& post == (AppState {
        outgoing_pairing_requests: post.outgoing_pairing_requests,
        settings: post.settings,
        diagnostic_events: post.diagnostic_events,
        ..pre
    })
}

/// Applies a peer's answer to a pairing request this device sent. An acceptance
/// moves the token offered in the request into the trusted peers; a refusal
/// forgets the request. Returns the diagnostic line and whether the trusted
/// peers changed (so that the settings must be saved).
pub fn apply_pairing_response(state: &mut AppState, device_name: &str, accepted: bool) -> (r: (String, bool))
    requires
        old(state).wf(),
    ensures
        final(state).wf(),
        pairing_response_applied(*old(state), *final(state), device_name@, accepted, r.0, r.1),
{
    let mut details = concat2("peer=", device_name);
    details.append(" pairing accepted=");
    if accepted {
        details.append("true");
    } else {
        details.append("false");
    }
    let line = log_backend_event_with_state(state, "INFO", "PAIRING_RESPONSE_RCVD", details.as_str());
    let removed = state.outgoing_pairing_requests.remove(device_name);
    let mut changed = false;
    if accepted {
        match removed {
            Some(token) => {
                state.settings.trusted_peers.insert(device_name.to_owned(), token);
                changed = true;
            },
            None => {},
        }
    }
    (line, changed)
}

/// Starts a pairing request to `peer_name` under `token`: the peer must have
/// been discovered; the request is remembered and the peer's address returned.
pub fn begin_pairing_request_with_token(state: &mut AppState, peer_name: &str, token: String) -> (r: Result<String, String>)
    requires
        old(state).wf(),
    ensures
        final(state).wf(),
        match r {
            Ok(addr) => old(state).discovered@.contains_key(peer_name@) && addr == old(state).discovered@[peer_name@]
                && final(state).outgoing_pairing_requests@ == old(state).outgoing_pairing_requests@.insert(
                peer_name@,
                token,
            ),
            Err(e) => !old(state).discovered@.contains_key(peer_name@) && e@ == "Device not found on network"@
                && final(state).outgoing_pairing_requests == old(state).outgoing_pairing_requests,
        },
        *final(state) == (AppState {
            outgoing_pairing_requests: final(state).outgoing_pairing_requests,
            ..*old(state)
        }),
{
    let addr = match state.discovered.get(peer_name) {
        Some(a) => a.clone(),
        None => {
            return Err("Device not found on network".to_owned());
        },
    };
    state.outgoing_pairing_requests.insert(peer_name.to_owned(), token);
    Ok(addr)
}

/// A pairing token as printed by the `uuid` crate for a random (version 4)
/// UUID: 36 characters, lowercase hex digits with `-` at positions 8, 13, 18
/// and 23, the version digit `4` at position 14, and one of `8`, `9`, `a`, `b`
/// (the RFC 4122 variant) at position 19.
pub open spec fn is_uuid_text(s: Seq<char>) -> bool {
    &&& s.len() == 36
    &&& forall|i: int|
        0 <= i < 36 ==> (if i == 8 || i == 13 || i == 18 || i == 23 {
            #[trigger] s[i] == '-'
        } else {
            ('0' <= s[i] && s[i] <= '9') || ('a' <= s[i] && s[i] <= 'f')
        })
    &&& s[14] == '4'
    &&& (s[19] == '8' || s[19] == '9' || s[19] == 'a' || s[19] == 'b')
}

/// The lowercase hex digit of a nibble.
pub open spec fn hex_digit(n: u8) -> char {
    if n < 10 {
        (n + 48) as char
    } else {
        (n + 87) as char
    }
}

/// The bytes of a random (version 4, RFC 4122 variant) UUID built from
/// `bytes`: the high nibble of byte 6 becomes 4 and the two high bits of byte
/// 8 become `10`.
pub open spec fn v4_bytes(bytes: Seq<u8>) -> Seq<u8> {
    bytes.update(6, (bytes[6] & 0x0f) | 0x40).update(8, (bytes[8] & 0x3f) | 0x80)
}

/// The hyphenated lowercase hex text of 16 UUID bytes: 32 hex digits, high
/// nibble first, grouped 8-4-4-4-12.
pub open spec fn uuid_hex_text(bytes: Seq<u8>) -> Seq<char> {
    Seq::new(
        36,
        |i: int|
            if i == 8 || i == 13 || i == 18 || i == 23 {
                '-'
            } else {
                let j = i - (if i < 8 {
                    0int
                } else if i < 13 {
                    1int
                } else if i < 18 {
                    2int
                } else if i < 23 {
                    3int
                } else {
                    4int
                });
                let x = bytes[j / 2];
                hex_digit(
                    if j % 2 == 0 {
                        x >> 4
                    } else {
                        x & 0x0f
                    },
                )
            },
    )
}

/// The text of a random UUID built from any 16 bytes is a pairing token.
pub proof fn lemma_v4_text_is_token(bytes: Seq<u8>)
    requires
        bytes.len() == 16,
    ensures
        is_uuid_text(uuid_hex_text(v4_bytes(bytes))),
{
    let b = v4_bytes(bytes);
    let s = uuid_hex_text(b);
    assert forall|x: u8| #![auto] (x >> 4u8) < 16 && (x & 0x0fu8) < 16 by {
        assert((x >> 4u8) < 16 && (x & 0x0fu8) < 16) by (bit_vector);
    }
    assert forall|i: int| 0 <= i < 36 implies (if i == 8 || i == 13 || i == 18 || i == 23 {
        #[trigger] s[i] == '-'
    } else {
        ('0' <= s[i] && s[i] <= '9') || ('a' <= s[i] && s[i] <= 'f')
    }) by {
        if !(i == 8 || i == 13 || i == 18 || i == 23) {
            let j = i - (if i < 8 {
                0int
            } else if i < 13 {
                1int
            } else if i < 18 {
                2int
            } else if i < 23 {
                3int
            } else {
                4int
            });
            let x = b[j / 2];
            let n = if j % 2 == 0 {
                x >> 4
            } else {
                x & 0x0f
            };
            assert(n < 16);
            assert(s[i] == hex_digit(n));
        }
    }
    let x6 = bytes[6];
    let x8 = bytes[8];
    assert((((x6 & 0x0f) | 0x40) >> 4u8) == 4) by (bit_vector);
    let h = ((x8 & 0x3f) | 0x80) >> 4u8;
    assert(8 <= h <= 11) by (bit_vector)
        requires
            h == ((x8 & 0x3f) | 0x80) >> 4u8,
    ;
    assert(b[6] == (x6 & 0x0f) | 0x40);
    assert(b[8] == (x8 & 0x3f) | 0x80);
    assert(s[14] == hex_digit(b[6] >> 4));
    assert(s[19] == hex_digit(b[8] >> 4));
}

/// Fills 16 bytes from the operating system's random source with
/// `getrandom::fill`. The bytes are random, so nothing is stated of them;
/// `None` when the source reports an error.
#[verifier::external_body]
fn random_token_bytes() -> (r: Option<[u8; 16]>) {
    let mut bytes = [0u8; 16];
    match getrandom::fill(&mut bytes) {
        Ok(()) => Some(bytes),
        Err(_) => None,
    }
}

/// Builds a random UUID from `bytes` with `uuid::Builder::from_random_bytes`
/// and renders it with `to_string`. The builder sets the version nibble to 4
/// and the variant bits to `10` (`with_version`, `with_variant`), and uuid's
/// formatting writes the 16 bytes as hyphenated lowercase hex, 8-4-4-4-12.
#[verifier::external_body]
fn uuid_v4_text(bytes: [u8; 16]) -> (r: String)
    ensures
        r@ == uuid_hex_text(v4_bytes(bytes@)),
{
    uuid::Builder::from_random_bytes(bytes).into_uuid().to_string()
}

/// The pairing token made from 16 random bytes: the text of the random
/// (version 4) UUID built from them.
pub fn pairing_token_from_bytes(bytes: [u8; 16]) -> (r: String)
    ensures
        r@ == uuid_hex_text(v4_bytes(bytes@)),
        is_uuid_text(r@),
{
    proof {
        lemma_v4_text_is_token(bytes@);
    }
    uuid_v4_text(bytes)
}

/// The error returned when no random token could be made.
pub open spec fn token_failure_error() -> Seq<char> {
    "Could not generate a pairing token"@
}

/// Starts a pairing request to `peer_name` under a fresh random token. Returns the
/// peer's address and the token. The token is drawn before the peer is looked
/// up; when the random source fails, nothing changes and an error is returned.
pub fn begin_pairing_request(state: &mut AppState, peer_name: &str) -> (r: Result<(String, String), String>)
    requires
        old(state).wf(),
    ensures
        final(state).wf(),
        match r {
            Ok((addr, token)) => old(state).discovered@.contains_key(peer_name@) && addr
                == old(state).discovered@[peer_name@] && is_uuid_text(token@)
                && final(state).outgoing_pairing_requests@ == old(state).outgoing_pairing_requests@.insert(
                peer_name@,
                token,
            ),
            Err(e) => (e@ == token_failure_error() || (!old(state).discovered@.contains_key(peer_name@)
                && e@ == "Device not found on network"@))
                && final(state).outgoing_pairing_requests == old(state).outgoing_pairing_requests,
        },
        !old(state).discovered@.contains_key(peer_name@) ==> r is Err,
        *final(state) == (AppState {
            outgoing_pairing_requests: final(state).outgoing_pairing_requests,
            ..*old(state)
        }),
{
    let token = match random_token_bytes() {
        Some(bytes) => pairing_token_from_bytes(bytes),
        None => {
            return Err("Could not generate a pairing token".to_owned());
        },
    };
    let kept = token.clone();
    match begin_pairing_request_with_token(state, peer_name, token) {
        Ok(addr) => Ok((addr, kept)),
        Err(e) => Err(e),
    }
}

/// Approves the pending pairing request of `peer_name`: the token it offered
/// becomes trusted. Returns the peer's address, when known, to send the answer to.
pub fn approve_pairing(state: &mut AppState, peer_name: &str) -> (r: Result<Option<String>, String>)
    requires
        old(state).wf(),
    ensures
        final(state).wf(),
        final(state).pending_pairing_requests@ == old(state).pending_pairing_requests@.remove(peer_name@),
        match r {
            Ok(addr) => old(state).pending_pairing_requests@.contains_key(peer_name@)
                && final(state).settings.trusted_peers@ == old(state).settings.trusted_peers@.insert(
                peer_name@,
                old(state).pending_pairing_requests@[peer_name@],
            ) && addr == (if old(state).discovered@.contains_key(peer_name@) {
                Some(old(state).discovered@[peer_name@])
            } else {
                None
            }),
            Err(e) => !old(state).pending_pairing_requests@.contains_key(peer_name@) && e@
                == "No pending request for this device"@ && final(state).settings.trusted_peers
                == old(state).settings.trusted_peers,
        },
        final(state).settings == (crate::models::AppSettings {
            trusted_peers: final(state).settings.trusted_peers,
            ..old(state).settings
        }),
        *final(state) == (AppState {
            pending_pairing_requests: final(state).pending_pairing_requests,
            settings: final(state).settings,
            ..*old(state)
        }),
{
    match state.pending_pairing_requests.remove(peer_name) {
        Some(token) => {
            state.settings.trusted_peers.insert(peer_name.to_owned(), token);
            let addr = match state.discovered.get(peer_name) {
                Some(a) => Some(a.clone()),
                None => None,
            };
            Ok(addr)
        },
        None => Err("No pending request for this device".to_owned()),
    }
}

/// Rejects the pending pairing request of `peer_name`, if any. Returns the
/// peer's address when there was a request and the peer is known.
pub fn reject_pairing(state: &mut AppState, peer_name: &str) -> (r: Option<String>)
    requires
        old(state).wf(),
    ensures
        final(state).wf(),
        final(state).pending_pairing_requests@ == old(state).pending_pairing_requests@.remove(peer_name@),
        r == (if old(state).pending_pairing_requests@.contains_key(peer_name@)
            && old(state).discovered@.contains_key(peer_name@) {
            Some(old(state).discovered@[peer_name@])
        } else {
            None
        }),
        *final(state) == (AppState {
            pending_pairing_requests: final(state).pending_pairing_requests,
            ..*old(state)
        }),
{
    match state.pending_pairing_requests.remove(peer_name) {
        Some(_) => match state.discovered.get(peer_name) {
            Some(a) => Some(a.clone()),
            None => None,
        },
        None => None,
    }
}


/// Whether a reply to our `Hello` accepts the session.
pub fn hello_ack_accepted(reply: &TransportMessage) -> (r: bool)
    ensures
        r == (*reply matches TransportMessage::HelloAck { accepted, .. } && accepted),
{
    match reply {
        TransportMessage::HelloAck { accepted, .. } => *accepted,
        _ => false,
    }
}

/// The kind of payload, as shown in the transport status.
pub open spec fn payload_kind(msg: TransportMessage) -> Seq<char> {
    match msg {
        TransportMessage::SyncImage { .. } => "image"@,
        TransportMessage::SyncText { .. } => "text"@,
        _ => "payload"@,
    }
}

/// The kind of payload, as shown in the transport status.
pub fn payload_label(msg: &TransportMessage) -> (r: &'static str)
    ensures
        r@ == payload_kind(*msg),
{
    match msg {
        TransportMessage::SyncImage { .. } => "image",
        TransportMessage::SyncText { .. } => "text",
        _ => "payload",
    }
}

/// The step at which an outbound payload delivery ended.
#[derive(Clone, Copy, Debug, PartialEq, Eq, Structural)]
pub enum SendOutcome {
    /// The connection could not be opened.
    ConnectFailed,
    /// The `Hello` could not be encoded.
    HelloEncodeFailed,
    /// The `Hello` could not be sent.
    HelloSendFailed,
    /// No textual answer arrived in time.
    AckMissing,
    /// The peer did not accept the session.
    Rejected,
    /// The payload could not be encoded.
    PayloadEncodeFailed,
    /// The payload was sent.
    Sent,
    /// The session was accepted but the payload could not be sent.
    SendFailed,
}

/// Diagnostic details logged for an outcome, if any.
pub open spec fn send_outcome_details(outcome: SendOutcome, peer: Seq<char>) -> Option<Seq<char>> {
    match outcome {
        SendOutcome::ConnectFailed => Some("peer="@ + peer + " connect failed"@),
        SendOutcome::HelloEncodeFailed => Some("hello serialization failed"@),
        SendOutcome::HelloSendFailed => Some("send hello failed"@),
        SendOutcome::AckMissing => Some("ack timeout"@),
        SendOutcome::Rejected => Some("rejected: pairing mismatch"@),
        SendOutcome::PayloadEncodeFailed => Some("payload serialization failed"@),
        SendOutcome::Sent => None,
        SendOutcome::SendFailed => None,
    }
}

/// Transport status recorded for an outcome, if any.
pub open spec fn send_outcome_status(outcome: SendOutcome, kind: Seq<char>) -> Option<Seq<char>> {
    match outcome {
        SendOutcome::ConnectFailed => Some("connect failed"@),
        SendOutcome::HelloEncodeFailed => None,
        SendOutcome::HelloSendFailed => Some("send hello failed"@),
        SendOutcome::AckMissing => Some("ack timeout"@),
        SendOutcome::Rejected => Some("rejected: pairing mismatch"@),
        SendOutcome::PayloadEncodeFailed => None,
        SendOutcome::Sent => Some("authenticated + sent "@ + kind),
        SendOutcome::SendFailed => Some("authenticated but send failed"@),
    }
}

/// Records how delivering a payload of kind `kind` to `peer_name` ended, at time
/// `now`: the diagnostic line (returned for printing), the peer's transport
/// status, and, when the payload went out, the sent counter and the time of the
/// last successful authentication.
pub fn record_payload_send_outcome(
    state: &mut AppState,
    peer_name: String,
    outcome: SendOutcome,
    kind: &str,
    now: u64,
) -> (r: Option<String>)
    requires
        old(state).wf(),
        outcome == SendOutcome::Sent ==> old(state).sync_sent_count < u64::MAX,
    ensures
        final(state).wf(),
        match send_outcome_details(outcome, peer_name@) {
            Some(d) => r matches Some(line) && line@ == backend_event_line("FAILED"@, "PAYLOAD_SEND"@, d)
                && final(state).diagnostic_events@ == bounded_push(
                old(state).diagnostic_events@,
                line,
                MAX_DIAGNOSTIC_EVENTS as nat,
            ),
            None => r is None && final(state).diagnostic_events == old(state).diagnostic_events,
        },
        match send_outcome_status(outcome, kind@) {
            Some(st) => final(state).transport_status@.contains_key(peer_name@)
                && final(state).transport_status@[peer_name@]@ == st
                && final(state).transport_status@.remove(peer_name@) == old(state).transport_status@.remove(
                peer_name@,
            ),
            None => final(state).transport_status == old(state).transport_status,
        },
        outcome == SendOutcome::Sent ==> final(state).sync_sent_count == old(state).sync_sent_count + 1
            && final(state).last_auth_success_ms == now,
        outcome != SendOutcome::Sent ==> final(state).sync_sent_count == old(state).sync_sent_count
            && final(state).last_auth_success_ms == old(state).last_auth_success_ms,
        *final(state) == (AppState {
            transport_status: final(state).transport_status,
            diagnostic_events: final(state).diagnostic_events,
            sync_sent_count: final(state).sync_sent_count,
            last_auth_success_ms: final(state).last_auth_success_ms,
            ..*old(state)
        }),
{
    let ghost name = peer_name@;
    let line = match outcome {
        SendOutcome::ConnectFailed => {
            let mut d = concat2("peer=", peer_name.as_str());
            d.append(" connect failed");
            Some(log_backend_event_with_state(state, "FAILED", "PAYLOAD_SEND", d.as_str()))
        },
        SendOutcome::HelloEncodeFailed => Some(
            log_backend_event_with_state(state, "FAILED", "PAYLOAD_SEND", "hello serialization failed"),
        ),
        SendOutcome::HelloSendFailed => Some(
            log_backend_event_with_state(state, "FAILED", "PAYLOAD_SEND", "send hello failed"),
        ),
        SendOutcome::AckMissing => Some(
            log_backend_event_with_state(state, "FAILED", "PAYLOAD_SEND", "ack timeout"),
        ),
        SendOutcome::Rejected => Some(
            log_backend_event_with_state(state, "FAILED", "PAYLOAD_SEND", "rejected: pairing mismatch"),
        ),
        SendOutcome::PayloadEncodeFailed => Some(
            log_backend_event_with_state(state, "FAILED", "PAYLOAD_SEND", "payload serialization failed"),
        ),
        SendOutcome::Sent => None,
        SendOutcome::SendFailed => None,
    };
    match outcome {
        SendOutcome::ConnectFailed => set_transport_status(state, peer_name, "connect failed".to_owned()),
        SendOutcome::HelloSendFailed => set_transport_status(state, peer_name, "send hello failed".to_owned()),
        SendOutcome::AckMissing => set_transport_status(state, peer_name, "ack timeout".to_owned()),
        SendOutcome::Rejected => set_transport_status(
            state,
            peer_name,
            "rejected: pairing mismatch".to_owned(),
        ),
        SendOutcome::Sent => {
            set_transport_status(state, peer_name, concat2("authenticated + sent ", kind));
            state.sync_sent_count = state.sync_sent_count + 1;
            state.last_auth_success_ms = now;
        },
        SendOutcome::SendFailed => set_transport_status(
            state,
            peer_name,
            "authenticated but send failed".to_owned(),
        ),
        _ => {},
    }
    proof {
        assert(final(state).transport_status@.remove(name) =~= old(state).transport_status@.remove(name)
            || final(state).transport_status == old(state).transport_status);
    }
    line
}

/// What the transport server does after the first message of a connection.
pub struct InboundAction {
    /// Message to send back, if any.
    pub reply: Option<TransportMessage>,
    /// Whether to wait for one sync payload after the reply.
    pub await_sync: bool,
    /// Whether the settings changed and must be saved.
    pub save_settings: bool,
    /// Diagnostic line to print, if any.
    pub log_line: Option<String>,
}

/// The effect of the first message `msg` of an inbound connection from `peer_ip`.
pub open spec fn inbound_handled(pre: AppState, post: AppState, msg: TransportMessage, peer_ip: Seq<char>, r: InboundAction) -> bool {
    match msg {
        TransportMessage::PairingRequest { device_name, token } => {
            &&& r.reply is None
            &&& !r.await_sync
            &&& !r.save_settings
            &&& r.log_line matches Some(line) && pairing_request_recorded(
                pre,
                post,
                device_name@,
                token,
                line,
            )
        },
        TransportMessage::PairingResponse { device_name, accepted } => {
            &&& r.reply is None
            &&& !r.await_sync
            &&& r.log_line matches Some(line) && pairing_response_applied(
                pre,
                post,
                device_name@,
                accepted,
                line,
                r.save_settings,
            )
        },
        TransportMessage::Hello { device_name, token } => {
            let ok = hello_accepted(pre.settings.trusted_peers@, device_name@, token@);
            &&& r.reply matches Some(ack) && is_hello_answer(pre, device_name@, token@, ack)
            &&& r.await_sync == ok
            &&& !r.save_settings
            &&& r.log_line matches Some(line) && hello_outcome_recorded(
                pre,
                post,
                device_name@,
                peer_ip,
                ok,
                line,
            )
        },
        _ => r.reply is None && !r.await_sync && !r.save_settings && r.log_line is None
            && post == pre,
    }
}

/// Handles the first message received on an inbound connection from `peer_ip`.
/// Pairing requests are queued for approval, pairing answers settle our own
/// requests, and a `Hello` is answered and, when accepted, followed by one
/// sync payload. Other messages are ignored.
pub fn handle_inbound_message(state: &mut AppState, msg: TransportMessage, peer_ip: &str) -> (r: InboundAction)
    requires
        old(state).wf(),
    ensures
        final(state).wf(),
        inbound_handled(*old(state), *final(state), msg, peer_ip@, r),
{
    match msg {
        TransportMessage::PairingRequest { device_name, token } => {
            let line = record_pairing_request(state, device_name, token);
            InboundAction { reply: None, await_sync: false, save_settings: false, log_line: Some(line) }
        },
        TransportMessage::PairingResponse { device_name, accepted } => {
            let (line, changed) = apply_pairing_response(state, device_name.as_str(), accepted);
            InboundAction { reply: None, await_sync: false, save_settings: changed, log_line: Some(line) }
        },
        TransportMessage::Hello { device_name, token } => {
            let ack = answer_hello(state, device_name.as_str(), token.as_str());
            let accepted = hello_ack_accepted(&ack);
            let line = record_hello_outcome(state, device_name.as_str(), peer_ip, accepted);
            InboundAction { reply: Some(ack), await_sync: accepted, save_settings: false, log_line: Some(line) }
        },
        _ => InboundAction { reply: None, await_sync: false, save_settings: false, log_line: None },
    }
}

/// Counting the outcome of `msg` as a sync payload cannot overflow.
pub open spec fn inbound_sync_room(pre: AppState, msg: TransportMessage) -> bool {
    match msg {
        TransportMessage::SyncText { sender_id, timestamp_ms, message_hash, .. } => crate::sync::counter_room_for_incoming(
            pre,
            sender_id@,
            timestamp_ms,
            message_hash,
        ),
        TransportMessage::SyncImage { sender_id, timestamp_ms, message_hash, .. } => crate::sync::counter_room_for_incoming(
            pre,
            sender_id@,
            timestamp_ms,
            message_hash,
        ),
        _ => true,
    }
}

/// Whether applying `msg` as a sync payload can count its outcome without overflow.
pub fn inbound_sync_has_room(state: &AppState, msg: &TransportMessage) -> (r: bool)
    ensures
        r == inbound_sync_room(*state, *msg),
{
    match msg {
        TransportMessage::SyncText { sender_id, timestamp_ms, message_hash, .. } => crate::sync::incoming_has_room(
            state,
            sender_id.as_str(),
            *timestamp_ms,
            *message_hash,
        ),
        TransportMessage::SyncImage { sender_id, timestamp_ms, message_hash, .. } => crate::sync::incoming_has_room(
            state,
            sender_id.as_str(),
            *timestamp_ms,
            *message_hash,
        ),
        _ => true,
    }
}

/// Applies the sync payload that follows an accepted `Hello`. Only text and
/// image payloads are applied; anything else is ignored (`None`).
pub fn apply_inbound_sync(state: &mut AppState, msg: TransportMessage, peer_ip: &str) -> (r: Option<IncomingOutcome>)
    requires
        old(state).wf(),
        inbound_sync_room(*old(state), msg),
    ensures
        final(state).wf(),
        match msg {
            TransportMessage::SyncText { sender_id, timestamp_ms, message_hash, text } => r is Some
                && crate::sync::incoming_decision(*old(state), *final(state), sender_id@, timestamp_ms, message_hash, r->0)
                && crate::sync::incoming_frame(
                *old(state),
                *final(state),
                inbound_label(sender_id@, peer_ip@),
                "authenticated (inbound) + synced text"@,
            ) && final(state).pending_remote_text == (if r->0 == IncomingOutcome::Applied {
                Some(text)
            } else {
                old(state).pending_remote_text
            }) && final(state).pending_remote_image == old(state).pending_remote_image,
            TransportMessage::SyncImage { sender_id, timestamp_ms, message_hash, mime_type, image_base64 } => r
                is Some && crate::sync::incoming_decision(*old(state), *final(state), sender_id@, timestamp_ms, message_hash, r->0)
                && crate::sync::incoming_frame(
                *old(state),
                *final(state),
                inbound_label(sender_id@, peer_ip@),
                "authenticated (inbound) + synced image"@,
            ) && final(state).pending_remote_image == (if r->0 == IncomingOutcome::Applied {
                Some(crate::models::IncomingImage { mime_type, image_base64 })
            } else {
                old(state).pending_remote_image
            }) && final(state).pending_remote_text == old(state).pending_remote_text,
            _ => r is None && *final(state) == *old(state),
        },
{
    match msg {
        TransportMessage::SyncText { sender_id, timestamp_ms, message_hash, text } => Some(
            apply_incoming_text(state, sender_id, timestamp_ms, message_hash, text, peer_ip),
        ),
        TransportMessage::SyncImage { sender_id, timestamp_ms, message_hash, mime_type, image_base64 } => Some(
            apply_incoming_image(state, sender_id, timestamp_ms, message_hash, mime_type, image_base64, peer_ip),
        ),
        _ => None,
    }
}

/// The `Hello` that checks a trusted peer still accepts this device: this
/// device's name and the token the peer was paired under, or nothing for a
/// peer that is not trusted.
pub fn handshake_hello(state: &AppState, peer_name: &str) -> (r: Option<TransportMessage>)
    requires
        state.settings.trusted_peers.wf(),
    ensures
        match r {
            Some(msg) => state.settings.trusted_peers@.contains_key(peer_name@) && (msg matches TransportMessage::Hello { device_name, token } && device_name@
                == state.device_name@ && token@ == state.settings.trusted_peers@[peer_name@]@),
            None => !state.settings.trusted_peers@.contains_key(peer_name@),
        },
{
    match state.settings.trusted_peers.get(peer_name) {
        Some(token) => Some(
            TransportMessage::Hello { device_name: state.device_name.clone(), token: token.clone() },
        ),
        None => None,
    }
}

/// How a handshake with a trusted peer ended.
#[derive(Clone, Debug)]
pub enum HandshakeOutcome {
    /// The connection could not be opened.
    ConnectFailed,
    /// No readable answer arrived in time.
    AckMissing,
    /// The peer answered without accepting the session.
    Rejected,
    /// The peer accepted the session under the name it gave.
    Authenticated(String),
}

/// The outcome of a handshake whose connection opened, from the decoded reply
/// (`None` when no readable reply arrived in time).
pub open spec fn handshake_outcome_of(reply: Option<TransportMessage>) -> HandshakeOutcome {
    match reply {
        None => HandshakeOutcome::AckMissing,
        Some(TransportMessage::HelloAck { device_name, accepted, .. }) => if accepted {
            HandshakeOutcome::Authenticated(device_name)
        } else {
            HandshakeOutcome::Rejected
        },
        Some(_) => HandshakeOutcome::Rejected,
    }
}

/// The outcome of a handshake whose connection opened, from the decoded reply.
pub fn handshake_outcome(reply: Option<TransportMessage>) -> (r: HandshakeOutcome)
    ensures
        r == handshake_outcome_of(reply),
{
    match reply {
        None => HandshakeOutcome::AckMissing,
        Some(TransportMessage::HelloAck { device_name, accepted, .. }) => if accepted {
            HandshakeOutcome::Authenticated(device_name)
        } else {
            HandshakeOutcome::Rejected
        },
        Some(_) => HandshakeOutcome::Rejected,
    }
}

/// The transport status shown for a peer after a handshake.
pub open spec fn handshake_status(outcome: HandshakeOutcome) -> Seq<char> {
    match outcome {
        HandshakeOutcome::ConnectFailed => "connect failed"@,
        HandshakeOutcome::AckMissing => "ack timeout"@,
        HandshakeOutcome::Rejected => "rejected: pairing mismatch"@,
        HandshakeOutcome::Authenticated(name) => "authenticated with "@ + name@,
    }
}

/// Records how a handshake with `peer_name` ended at time `now`: the peer's
/// transport status, and on success the time of the last authentication.
pub fn record_handshake_outcome(state: &mut AppState, peer_name: String, outcome: HandshakeOutcome, now: u64)
    requires
        old(state).wf(),
    ensures
        final(state).wf(),
        final(state).transport_status@.contains_key(peer_name@),
        final(state).transport_status@[peer_name@]@ == handshake_status(outcome),
        final(state).transport_status@.remove(peer_name@) == old(state).transport_status@.remove(peer_name@),
        final(state).last_auth_success_ms == (if outcome is Authenticated {
            now
        } else {
            old(state).last_auth_success_ms
        }),
        *final(state) == (AppState {
            transport_status: final(state).transport_status,
            last_auth_success_ms: final(state).last_auth_success_ms,
            ..*old(state)
        }),
{
    let status = match outcome {
        HandshakeOutcome::ConnectFailed => "connect failed".to_owned(),
        HandshakeOutcome::AckMissing => "ack timeout".to_owned(),
        HandshakeOutcome::Rejected => "rejected: pairing mismatch".to_owned(),
        HandshakeOutcome::Authenticated(name) => {
            state.last_auth_success_ms = now;
            concat2("authenticated with ", name.as_str())
        },
    };
    let ghost name = peer_name@;
    set_transport_status(state, peer_name, status);
    assert(state.transport_status@.remove(name) =~= old(state).transport_status@.remove(name));
}

} // verus!
