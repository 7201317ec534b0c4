//! Decisions of the clipboard sync pipeline: what a local clipboard change is
//! sent to, and how a payload from a peer is applied.
use vstd::prelude::*;

use crate::hashing::{
    compute_image_hash, compute_text_hash, image_hash, recent_hash_seen, remember_hash, remembered,
    text_hash,
};
use crate::logging::{backend_event_line, bounded_push, format_backend_event, now_ms, push_diagnostic};
use crate::models::{IncomingImage, TransportMessage};
use crate::network::set_transport_status;
use crate::security::{should_accept_incoming, wins_over};
use crate::state::{AppState, MAX_DIAGNOSTIC_EVENTS};
use vstd::utf8::encode_utf8;

use crate::text::{concat3, decimal, has_substring, str_contains, str_greater, u64_to_decimal};

verus! {

/// Local clipboard changes are sent only while sync is on, and, unless
/// background mode is enabled, only while the app is in the foreground.
pub open spec fn send_allowed(state: AppState) -> bool {
    state.sync_enabled && (state.is_app_foreground || state.settings.background_mode_enabled)
}

/// Whether local clipboard changes may be sent now.
pub fn sync_allowed(state: &AppState) -> (r: bool)
    ensures
        r == send_allowed(*state),
{
    state.sync_enabled && (state.is_app_foreground || state.settings.background_mode_enabled)
}

/// `r` lists, once each, every discovered peer that is trusted and whose name does
/// not contain `own_name`, with its address and its token.
pub open spec fn is_send_target_list(
    r: Seq<(String, String, String)>,
    discovered: Map<Seq<char>, String>,
    trusted: Map<Seq<char>, String>,
    own_name: Seq<char>,
) -> bool {
    &&& forall|j: int|
        0 <= j < r.len() ==> {
            let (name, addr, token) = #[trigger] r[j];
            &&& discovered.contains_key(name@)
            &&& discovered[name@] == addr
            &&& trusted.contains_key(name@)
            &&& trusted[name@] == token
            &&& !has_substring(name@, own_name)
        }
    &&& forall|a: int, b: int| 0 <= a < b < r.len() ==> (#[trigger] r[a]).0@ != (#[trigger] r[b]).0@
    &&& forall|k: Seq<char>|
        #[trigger] discovered.contains_key(k) && trusted.contains_key(k) && !has_substring(k, own_name)
            ==> exists|j: int| 0 <= j < r.len() && r[j].0@ == k
}

/// The peers a local clipboard change is sent to.
pub fn send_targets(state: &AppState) -> (r: Vec<(String, String, String)>)
    requires
        state.discovered.wf(),
        state.settings.trusted_peers.wf(),
    ensures
        is_send_target_list(r@, state.discovered@, state.settings.trusted_peers@, state.device_name@),
{
    let ghost p = |k: Seq<char>|
        state.settings.trusted_peers@.contains_key(k) && !has_substring(k, state.device_name@);
    let ghost mut names: Seq<Seq<char>> = Seq::empty();
    let n = state.discovered.len();
    proof {
        state.discovered.lemma_walk_filter_start(p);
    }
    let mut out: Vec<(String, String, String)> = Vec::new();
    let mut i: usize = 0;
    while i < n
        invariant
            state.discovered.wf(),
            state.settings.trusted_peers.wf(),
            n == state.discovered.size(),
            i <= n,
            p == (|k: Seq<char>|
                state.settings.trusted_peers@.contains_key(k) && !has_substring(k, state.device_name@)),
            state.discovered.walk_filtered(p, names, i as int),
            names.len() == out@.len(),
            forall|j: int|
                0 <= j < out@.len() ==> {
                    let (name, addr, token) = #[trigger] out@[j];
                    &&& name@ == names[j]
                    &&& state.discovered@[names[j]] == addr
                    &&& state.settings.trusted_peers@[names[j]] == token
                },
        decreases n - i,
    {
        proof {
            state.discovered.lemma_walk_filter_step(p, names, i as int);
        }
        let name = state.discovered.key_ref(i);
        let trusted = state.settings.trusted_peers.get(name.as_str());
        match trusted {
            Some(token) => {
                if !str_contains(name.as_str(), state.device_name.as_str()) {
                    let addr = state.discovered.value_ref(i).clone();
                    out.push((name.clone(), addr, token.clone()));
                    proof {
                        assert(p(state.discovered.key_at(i as int)));
                        names = names.push(name@);
                    }
                } else {
                    assert(!p(state.discovered.key_at(i as int)));
                }
            },
            None => {
                assert(!p(state.discovered.key_at(i as int)));
            },
        }
        i = i + 1;
    }
    proof {
        state.discovered.lemma_walk_filter_done(p, names);
        assert forall|k: Seq<char>|
            #[trigger] state.discovered@.contains_key(k) && state.settings.trusted_peers@.contains_key(k)
                && !has_substring(k, state.device_name@) implies exists|j: int|
            0 <= j < out@.len() && out@[j].0@ == k by {
            assert(p(k));
            let j = choose|j: int| 0 <= j < names.len() && names[j] == k;
            assert(out@[j].0@ == k);
        }
        assert forall|a: int, b: int| 0 <= a < b < out@.len() implies (#[trigger] out@[a]).0@
            != (#[trigger] out@[b]).0@ by {
            assert(names[a] != names[b]);
        }
        assert forall|j: int| 0 <= j < out@.len() implies {
            let (name, addr, token) = #[trigger] out@[j];
            &&& state.discovered@.contains_key(name@)
            &&& state.discovered@[name@] == addr
            &&& state.settings.trusted_peers@.contains_key(name@)
            &&& state.settings.trusted_peers@[name@] == token
            &&& !has_substring(name@, state.device_name@)
        } by {
            assert(p(names[j]));
        }
    }
    out
}


/// Counting a dropped local payload cannot overflow: the counter is below its
/// maximum whenever `hash` is already cached.
pub open spec fn counter_room_for_send(pre: AppState, hash: u64) -> bool {
    pre.recent_hashes@.contains(hash) ==> pre.sync_dropped_count < u64::MAX
}

/// Counting the outcome of a local image cannot overflow.
pub open spec fn counter_room_for_image(pre: AppState, mime_type: Seq<char>, image_base64: Seq<char>) -> bool {
    if image_size_kb_of(encode_utf8(image_base64).len()) > pre.settings.max_image_size_kb {
        pre.sync_dropped_count < u64::MAX
    } else {
        counter_room_for_send(pre, image_hash(pre.device_name@, mime_type, image_base64))
    }
}

/// Counting the outcome of an incoming payload cannot overflow.
pub open spec fn counter_room_for_incoming(pre: AppState, sender: Seq<char>, timestamp_ms: u64, hash: u64) -> bool {
    if pre.recent_hashes@.contains(hash) {
        pre.sync_dropped_count < u64::MAX
    } else if !wins_over(timestamp_ms, sender, pre.last_applied_timestamp_ms, pre.last_applied_sender@) {
        pre.sync_rejected_stale_count < u64::MAX
    } else {
        pre.sync_received_count < u64::MAX
    }
}

/// Whether planning to send `text` can count its outcome without overflow.
pub fn text_send_has_room(state: &AppState, text: &str) -> (r: bool)
    ensures
        r == counter_room_for_send(*state, text_hash(state.device_name@, text@)),
{
    let hash = compute_text_hash(state.device_name.as_str(), text);
    !recent_hash_seen(state, hash) || state.sync_dropped_count < u64::MAX
}

/// Whether planning to send an image can compute its size and count its
/// outcome without overflow.
pub fn image_send_has_room(state: &AppState, mime_type: &str, image_base64: &str) -> (r: bool)
    requires
        encode_utf8(image_base64@).len() <= usize::MAX,
    ensures
        r == (encode_utf8(image_base64@).len() * 3 <= usize::MAX && counter_room_for_image(
            *state,
            mime_type@,
            image_base64@,
        )),
{
    let len = image_base64.len();
    if len > usize::MAX / 3 {
        assert(len * 3 > usize::MAX) by (nonlinear_arith)
            requires
                len > usize::MAX / 3,
        ;
        return false;
    }
    assert(len * 3 <= usize::MAX) by (nonlinear_arith)
        requires
            len <= usize::MAX / 3,
    ;
    let size_kb = image_size_kb(len);
    if size_kb > state.settings.max_image_size_kb {
        state.sync_dropped_count < u64::MAX
    } else {
        let hash = compute_image_hash(state.device_name.as_str(), mime_type, image_base64);
        !recent_hash_seen(state, hash) || state.sync_dropped_count < u64::MAX
    }
}

/// Whether applying a payload from `sender_id` stamped `timestamp_ms` with
/// `message_hash` can count its outcome without overflow.
pub fn incoming_has_room(state: &AppState, sender_id: &str, timestamp_ms: u64, message_hash: u64) -> (r: bool)
    ensures
        r == counter_room_for_incoming(*state, sender_id@, timestamp_ms, message_hash),
{
    if recent_hash_seen(state, message_hash) {
        state.sync_dropped_count < u64::MAX
    } else if !(timestamp_ms > state.last_applied_timestamp_ms || (timestamp_ms
        == state.last_applied_timestamp_ms && str_greater(sender_id, state.last_applied_sender.as_str()))) {
        state.sync_rejected_stale_count < u64::MAX
    } else {
        state.sync_received_count < u64::MAX
    }
}

/// What to do with a local clipboard change.
pub enum LocalSendPlan {
    /// The payload was sent or received recently; it is dropped.
    Duplicate { event: String },
    /// The image is over the size limit; `error` is reported to the caller.
    TooLarge { event: String, error: String },
    /// Sync is off, or the app is in the background without background mode.
    Blocked { event: String },
    /// Send `payload` to each `(peer name, address, token)` of `targets`.
    Send { payload: TransportMessage, targets: Vec<(String, String, String)> },
}

/// The state after counting one dropped payload and recording `event`.
pub open spec fn dropped_with(pre: AppState, post: AppState, event: String) -> bool {
    &&& post == (AppState {
        sync_dropped_count: (pre.sync_dropped_count + 1) as u64,
        diagnostic_events: post.diagnostic_events,
        ..pre
    })
    &&& post.diagnostic_events@ == bounded_push(pre.diagnostic_events@, event, MAX_DIAGNOSTIC_EVENTS as nat)
}

/// The state after remembering `hash`, and, when `event` is given, recording it.
pub open spec fn remembered_with(pre: AppState, post: AppState, hash: u64, event: Option<String>) -> bool {
    &&& post == (AppState {
        recent_hashes: post.recent_hashes,
        diagnostic_events: post.diagnostic_events,
        ..pre
    })
    &&& post.recent_hashes@ == remembered(pre.recent_hashes@, hash)
    &&& post.diagnostic_events@ == match event {
        Some(e) => bounded_push(pre.diagnostic_events@, e, MAX_DIAGNOSTIC_EVENTS as nat),
        None => pre.diagnostic_events@,
    }
}

/// The outcome of a local send, once the hash is known: a duplicate is dropped,
/// a blocked send is recorded, otherwise `payload` goes to the send targets.
pub open spec fn send_decision(
    pre: AppState,
    post: AppState,
    hash: u64,
    channel: Seq<char>,
    payload: TransportMessage,
    r: LocalSendPlan,
) -> bool {
    if pre.recent_hashes@.contains(hash) {
        r matches LocalSendPlan::Duplicate { event } && event@ == backend_event_line(
            "FAILED"@,
            channel,
            "duplicate local hash dropped"@,
        ) && dropped_with(pre, post, event)
    } else if !send_allowed(pre) {
        r matches LocalSendPlan::Blocked { event } && event@ == backend_event_line(
            "FAILED"@,
            channel,
            "blocked: sync disabled or backgrounded"@,
        ) && remembered_with(pre, post, hash, Some(event))
    } else {
        r matches LocalSendPlan::Send { payload: p, targets } && p == payload && is_send_target_list(
            targets@,
            pre.discovered@,
            pre.settings.trusted_peers@,
            pre.device_name@,
        ) && remembered_with(pre, post, hash, None)
    }
}

/// Drops duplicates, remembers the hash, and decides whether and where `payload` is sent.
fn decide_local_send(state: &mut AppState, hash: u64, channel: &str, payload: TransportMessage) -> (r: LocalSendPlan)
    requires
        old(state).wf(),
        counter_room_for_send(*old(state), hash),
    ensures
        final(state).wf(),
        send_decision(*old(state), *final(state), hash, channel@, payload, r),
{
    if recent_hash_seen(state, hash) {
        state.sync_dropped_count = state.sync_dropped_count + 1;
        let event = format_backend_event("FAILED", channel, "duplicate local hash dropped");
        let line = event.clone();
        push_diagnostic(state, event);
        return LocalSendPlan::Duplicate { event: line };
    }
    remember_hash(state, hash);
    if !sync_allowed(state) {
        let event = format_backend_event("FAILED", channel, "blocked: sync disabled or backgrounded");
        let line = event.clone();
        push_diagnostic(state, event);
        return LocalSendPlan::Blocked { event: line };
    }
    let targets = send_targets(state);
    LocalSendPlan::Send { payload, targets }
}

/// Plans sending local clipboard text stamped `timestamp_ms`.
pub fn plan_local_text_send_at(state: &mut AppState, text: String, timestamp_ms: u64) -> (r: LocalSendPlan)
    requires
        old(state).wf(),
        counter_room_for_send(*old(state), text_hash(old(state).device_name@, text@)),
    ensures
        final(state).wf(),
        text_plan_holds(*old(state), *final(state), text, timestamp_ms, r),
{
    let hash = compute_text_hash(state.device_name.as_str(), text.as_str());
    let payload = TransportMessage::SyncText {
        sender_id: state.device_name.clone(),
        timestamp_ms,
        message_hash: hash,
        text,
    };
    decide_local_send(state, hash, "TEXT_SEND_LOCAL", payload)
}

/// Plans sending local clipboard text, stamped with the current time.
pub fn plan_local_text_send(state: &mut AppState, text: String) -> (r: LocalSendPlan)
    requires
        old(state).wf(),
        counter_room_for_send(*old(state), text_hash(old(state).device_name@, text@)),
    ensures
        final(state).wf(),
        exists|timestamp_ms: u64|
            #[trigger] text_plan_holds(*old(state), *final(state), text, timestamp_ms, r),
{
    let now = now_ms();
    plan_local_text_send_at(state, text, now)
}

/// Approximate decoded size, in KB, of a base64 payload of `len` bytes.
pub open spec fn image_size_kb_of(len: nat) -> u32 {
    ((len * 3 / 4) as u32) / 1024
}

/// Approximate decoded size, in KB, of a base64 payload of `len` bytes.
pub fn image_size_kb(len: usize) -> (r: u32)
    requires
        len * 3 <= usize::MAX,
    ensures
        r == image_size_kb_of(len as nat),
{
    ((len * 3 / 4) as u32) / 1024
}

/// Message returned when an image is over the size limit.
pub open spec fn too_large_error(size_kb: u32) -> Seq<char> {
    "Image exceeds maximum size ("@ + decimal(size_kb as nat) + " KB)."@
}

/// Diagnostic details when an image is over the size limit.
pub open spec fn too_large_details(size_kb: u32) -> Seq<char> {
    "image too large ("@ + decimal(size_kb as nat) + " KB)"@
}

/// The effect of planning a local image send stamped `timestamp_ms`.
pub open spec fn image_plan_holds(
    pre: AppState,
    post: AppState,
    mime_type: String,
    image_base64: String,
    timestamp_ms: u64,
    r: LocalSendPlan,
) -> bool {
    let size_kb = image_size_kb_of(encode_utf8(image_base64@).len());
    let hash = image_hash(pre.device_name@, mime_type@, image_base64@);
    if size_kb > pre.settings.max_image_size_kb {
        r matches LocalSendPlan::TooLarge { event, error } && event@ == backend_event_line(
            "FAILED"@,
            "IMAGE_SEND_LOCAL"@,
            too_large_details(size_kb),
        ) && error@ == too_large_error(size_kb) && dropped_with(pre, post, event)
    } else {
        send_decision(
            pre,
            post,
            hash,
            "IMAGE_SEND_LOCAL"@,
            TransportMessage::SyncImage {
                sender_id: pre.device_name,
                timestamp_ms,
                message_hash: hash,
                mime_type,
                image_base64,
            },
            r,
        )
    }
}

/// The effect of planning a local text send stamped `timestamp_ms`.
pub open spec fn text_plan_holds(pre: AppState, post: AppState, text: String, timestamp_ms: u64, r: LocalSendPlan) -> bool {
    let hash = text_hash(pre.device_name@, text@);
    send_decision(
        pre,
        post,
        hash,
        "TEXT_SEND_LOCAL"@,
        TransportMessage::SyncText { sender_id: pre.device_name, timestamp_ms, message_hash: hash, text },
        r,
    )
}

/// Plans sending a local clipboard image stamped `timestamp_ms`. Images over the
/// size limit are refused before the duplicate check.
pub fn plan_local_image_send_at(state: &mut AppState, mime_type: String, image_base64: String, timestamp_ms: u64) -> (r: LocalSendPlan)
    requires
        old(state).wf(),
        counter_room_for_image(*old(state), mime_type@, image_base64@),
        encode_utf8(image_base64@).len() * 3 <= usize::MAX,
    ensures
        final(state).wf(),
        image_plan_holds(*old(state), *final(state), mime_type, image_base64, timestamp_ms, r),
{
    let hash = compute_image_hash(state.device_name.as_str(), mime_type.as_str(), image_base64.as_str());
    let size_kb = image_size_kb(image_base64.as_str().len());
    if size_kb > state.settings.max_image_size_kb {
        state.sync_dropped_count = state.sync_dropped_count + 1;
        let kb = u64_to_decimal(size_kb as u64);
        let mut details = "image too large (".to_owned();
        details.append(kb.as_str());
        details.append(" KB)");
        let event = format_backend_event("FAILED", "IMAGE_SEND_LOCAL", details.as_str());
        let line = event.clone();
        push_diagnostic(state, event);
        let mut error = "Image exceeds maximum size (".to_owned();
        error.append(kb.as_str());
        error.append(" KB).");
        return LocalSendPlan::TooLarge { event: line, error };
    }
    let payload = TransportMessage::SyncImage {
        sender_id: state.device_name.clone(),
        timestamp_ms,
        message_hash: hash,
        mime_type,
        image_base64,
    };
    decide_local_send(state, hash, "IMAGE_SEND_LOCAL", payload)
}

/// Plans sending a local clipboard image, stamped with the current time.
pub fn plan_local_image_send(state: &mut AppState, mime_type: String, image_base64: String) -> (r: LocalSendPlan)
    requires
        old(state).wf(),
        counter_room_for_image(*old(state), mime_type@, image_base64@),
        encode_utf8(image_base64@).len() * 3 <= usize::MAX,
    ensures
        final(state).wf(),
        exists|timestamp_ms: u64|
            #[trigger] image_plan_holds(*old(state), *final(state), mime_type, image_base64, timestamp_ms, r),
{
    let now = now_ms();
    plan_local_image_send_at(state, mime_type, image_base64, now)
}


/// How a payload received from a peer was handled.
#[derive(Clone, Copy, Debug, PartialEq, Eq, Structural)]
pub enum IncomingOutcome {
    /// Its hash was already in the loop-prevention cache.
    Duplicate,
    /// It lost to the last applied payload under the conflict policy.
    Stale,
    /// It became the pending remote clipboard content.
    Applied,
}

/// The label under which an authenticated inbound peer appears: `name (ip)`.
pub open spec fn inbound_label(name: Seq<char>, peer_ip: Seq<char>) -> Seq<char> {
    name + " ("@ + peer_ip + ")"@
}

/// Formats `name (ip)`.
pub fn inbound_peer_label(name: &str, peer_ip: &str) -> (r: String)
    ensures
        r@ == inbound_label(name@, peer_ip@),
{
    let mut r = concat3(name, " (", peer_ip);
    r.append(")");
    r
}

/// How a payload with `hash` from `sender` stamped `timestamp_ms` changes the
/// counters, the hash cache and the conflict-policy record: a cached hash is a
/// duplicate, a payload that does not win over the last applied one is stale,
/// anything else is applied and remembered.
pub open spec fn incoming_decision(
    pre: AppState,
    post: AppState,
    sender: Seq<char>,
    timestamp_ms: u64,
    hash: u64,
    r: IncomingOutcome,
) -> bool {
    if pre.recent_hashes@.contains(hash) {
        &&& r == IncomingOutcome::Duplicate
        &&& post.sync_dropped_count == pre.sync_dropped_count + 1
        &&& post.sync_rejected_stale_count == pre.sync_rejected_stale_count
        &&& post.sync_received_count == pre.sync_received_count
        &&& post.recent_hashes == pre.recent_hashes
        &&& post.last_applied_timestamp_ms == pre.last_applied_timestamp_ms
        &&& post.last_applied_sender == pre.last_applied_sender
    } else if !wins_over(timestamp_ms, sender, pre.last_applied_timestamp_ms, pre.last_applied_sender@) {
        &&& r == IncomingOutcome::Stale
        &&& post.sync_dropped_count == pre.sync_dropped_count
        &&& post.sync_rejected_stale_count == pre.sync_rejected_stale_count + 1
        &&& post.sync_received_count == pre.sync_received_count
        &&& post.recent_hashes == pre.recent_hashes
        &&& post.last_applied_timestamp_ms == pre.last_applied_timestamp_ms
        &&& post.last_applied_sender == pre.last_applied_sender
    } else {
        &&& r == IncomingOutcome::Applied
        &&& post.sync_dropped_count == pre.sync_dropped_count
        &&& post.sync_rejected_stale_count == pre.sync_rejected_stale_count
        &&& post.sync_received_count == pre.sync_received_count + 1
        &&& post.recent_hashes@ == remembered(pre.recent_hashes@, hash)
        &&& post.last_applied_timestamp_ms == timestamp_ms
        &&& post.last_applied_sender@ == sender
    }
}

/// Only the fields an incoming payload may touch differ between `pre` and `post`,
/// and the sender's inbound label gets the status `status`.
pub open spec fn incoming_frame(pre: AppState, post: AppState, label: Seq<char>, status: Seq<char>) -> bool {
    &&& post == (AppState {
        sync_dropped_count: post.sync_dropped_count,
        sync_rejected_stale_count: post.sync_rejected_stale_count,
        sync_received_count: post.sync_received_count,
        recent_hashes: post.recent_hashes,
        last_applied_timestamp_ms: post.last_applied_timestamp_ms,
        last_applied_sender: post.last_applied_sender,
        pending_remote_text: post.pending_remote_text,
        pending_remote_image: post.pending_remote_image,
        transport_status: post.transport_status,
        ..pre
    })
    &&& post.transport_status@.contains_key(label)
    &&& post.transport_status@[label]@ == status
    &&& post.transport_status@.remove(label) == pre.transport_status@.remove(label)
}

/// Counts, deduplicates and arbitrates a received payload; the caller stores
/// the content when it is applied.
fn decide_incoming(state: &mut AppState, sender_id: &str, timestamp_ms: u64, message_hash: u64) -> (r: IncomingOutcome)
    requires
        old(state).wf(),
        counter_room_for_incoming(*old(state), sender_id@, timestamp_ms, message_hash),
    ensures
        final(state).wf(),
        incoming_decision(*old(state), *final(state), sender_id@, timestamp_ms, message_hash, r),
        *final(state) == (AppState {
            sync_dropped_count: final(state).sync_dropped_count,
            sync_rejected_stale_count: final(state).sync_rejected_stale_count,
            sync_received_count: final(state).sync_received_count,
            recent_hashes: final(state).recent_hashes,
            last_applied_timestamp_ms: final(state).last_applied_timestamp_ms,
            last_applied_sender: final(state).last_applied_sender,
            ..*old(state)
        }),
{
    if recent_hash_seen(state, message_hash) {
        state.sync_dropped_count = state.sync_dropped_count + 1;
        IncomingOutcome::Duplicate
    } else if !should_accept_incoming(state, sender_id, timestamp_ms) {
        state.sync_rejected_stale_count = state.sync_rejected_stale_count + 1;
        IncomingOutcome::Stale
    } else {
        remember_hash(state, message_hash);
        state.sync_received_count = state.sync_received_count + 1;
        IncomingOutcome::Applied
    }
}

/// Records the status of the inbound sender after a payload.
fn mark_inbound(state: &mut AppState, sender_id: &str, peer_ip: &str, status: &str)
    requires
        old(state).wf(),
    ensures
        final(state).wf(),
        *final(state) == (AppState { transport_status: final(state).transport_status, ..*old(state) }),
        final(state).transport_status@ == old(state).transport_status@.insert(
            inbound_label(sender_id@, peer_ip@),
            final(state).transport_status@[inbound_label(sender_id@, peer_ip@)],
        ),
        final(state).transport_status@[inbound_label(sender_id@, peer_ip@)]@ == status@,
{
    let label = inbound_peer_label(sender_id, peer_ip);
    set_transport_status(state, label, status.to_owned());
}

/// Applies clipboard text received from an authenticated peer at `peer_ip`.
pub fn apply_incoming_text(
    state: &mut AppState,
    sender_id: String,
    timestamp_ms: u64,
    message_hash: u64,
    text: String,
    peer_ip: &str,
) -> (r: IncomingOutcome)
    requires
        old(state).wf(),
        counter_room_for_incoming(*old(state), sender_id@, timestamp_ms, message_hash),
    ensures
        final(state).wf(),
        incoming_decision(*old(state), *final(state), sender_id@, timestamp_ms, message_hash, r),
        incoming_frame(
            *old(state),
            *final(state),
            inbound_label(sender_id@, peer_ip@),
            "authenticated (inbound) + synced text"@,
        ),
        final(state).pending_remote_text == (if r == IncomingOutcome::Applied {
            Some(text)
        } else {
            old(state).pending_remote_text
        }),
        final(state).pending_remote_image == old(state).pending_remote_image,
{
    let r = decide_incoming(state, sender_id.as_str(), timestamp_ms, message_hash);
    if r == IncomingOutcome::Applied {
        state.pending_remote_text = Some(text);
    }
    mark_inbound(state, sender_id.as_str(), peer_ip, "authenticated (inbound) + synced text");
    proof {
        let label = inbound_label(sender_id@, peer_ip@);
        assert(final(state).transport_status@.remove(label) =~= old(state).transport_status@.remove(label));
    }
    r
}

/// Applies a clipboard image received from an authenticated peer at `peer_ip`.
pub fn apply_incoming_image(
    state: &mut AppState,
    sender_id: String,
    timestamp_ms: u64,
    message_hash: u64,
    mime_type: String,
    image_base64: String,
    peer_ip: &str,
) -> (r: IncomingOutcome)
    requires
        old(state).wf(),
        counter_room_for_incoming(*old(state), sender_id@, timestamp_ms, message_hash),
    ensures
        final(state).wf(),
        incoming_decision(*old(state), *final(state), sender_id@, timestamp_ms, message_hash, r),
        incoming_frame(
            *old(state),
            *final(state),
            inbound_label(sender_id@, peer_ip@),
            "authenticated (inbound) + synced image"@,
        ),
        final(state).pending_remote_image == (if r == IncomingOutcome::Applied {
            Some(IncomingImage { mime_type, image_base64 })
        } else {
            old(state).pending_remote_image
        }),
        final(state).pending_remote_text == old(state).pending_remote_text,
{
    let r = decide_incoming(state, sender_id.as_str(), timestamp_ms, message_hash);
    if r == IncomingOutcome::Applied {
        state.pending_remote_image = Some(IncomingImage { mime_type, image_base64 });
    }
    mark_inbound(state, sender_id.as_str(), peer_ip, "authenticated (inbound) + synced image");
    proof {
        let label = inbound_label(sender_id@, peer_ip@);
        assert(final(state).transport_status@.remove(label) =~= old(state).transport_status@.remove(label));
    }
    r
}

} // verus!
