//! Properties of the library that span several calls or hold of every state.
use vstd::prelude::*;

use crate::hashing::{remembered, text_hash};
use crate::logging::{backend_event_line, bounded_push};
use crate::models::TransportMessage;
use crate::network::{is_handshake_target_list, is_stale, stale_peers};
use crate::security::wins_over;
use crate::state::{AppState, MAX_RECENT_HASHES};
use crate::sync::{incoming_decision, send_decision, text_plan_holds, IncomingOutcome, LocalSendPlan};
use crate::text::{lemma_lex_asymmetric, lemma_lex_irreflexive, lemma_lex_total, lemma_lex_transitive};
use crate::status::authenticated_peers;
use crate::text::{has_substring, lex_greater};
use crate::transport::{hello_accepted, inbound_handled, pairing_request_recorded, pairing_response_applied, InboundAction};

verus! {

/// The conflict-policy record after a payload stamped `(timestamp_ms, sender)`
/// arrives while `(last_ms, last_sender)` is the last applied one.
pub open spec fn policy_step(last_ms: u64, last_sender: Seq<char>, timestamp_ms: u64, sender: Seq<char>) -> (u64, Seq<char>) {
    if wins_over(timestamp_ms, sender, last_ms, last_sender) {
        (timestamp_ms, sender)
    } else {
        (last_ms, last_sender)
    }
}

/// A payload that was applied loses to itself: delivering the same timestamp and
/// sender again is rejected as stale.
pub proof fn law_replay_is_stale(timestamp_ms: u64, sender: Seq<char>)
    ensures
        !wins_over(timestamp_ms, sender, timestamp_ms, sender),
{
    lemma_lex_irreflexive(sender);
}

/// The last applied payload only moves forward: winning is transitive.
pub proof fn law_policy_transitive(
    t0: u64,
    s0: Seq<char>,
    t1: u64,
    s1: Seq<char>,
    t2: u64,
    s2: Seq<char>,
)
    requires
        wins_over(t1, s1, t0, s0),
        wins_over(t2, s2, t1, s1),
    ensures
        wins_over(t2, s2, t0, s0),
{
    if t2 == t0 {
        lemma_lex_transitive(s2, s1, s0);
    }
}

/// Of two different payloads exactly one wins over the other, so every device
/// settles on the same one.
pub proof fn law_policy_decides(t1: u64, s1: Seq<char>, t2: u64, s2: Seq<char>)
    requires
        (t1, s1) != (t2, s2),
    ensures
        wins_over(t1, s1, t2, s2) != wins_over(t2, s2, t1, s1),
{
    lemma_lex_total(s1, s2);
    lemma_lex_asymmetric(s1, s2);
}

/// The conflict policy does not depend on arrival order: two payloads delivered
/// in either order leave the same last applied payload.
pub proof fn law_arrival_order_irrelevant(
    last_ms: u64,
    last_sender: Seq<char>,
    ta: u64,
    sa: Seq<char>,
    tb: u64,
    sb: Seq<char>,
)
    ensures
        ({
            let ab0 = policy_step(last_ms, last_sender, ta, sa);
            let ab = policy_step(ab0.0, ab0.1, tb, sb);
            let ba0 = policy_step(last_ms, last_sender, tb, sb);
            let ba = policy_step(ba0.0, ba0.1, ta, sa);
            ab == ba
        }),
{
    lemma_lex_total(sa, sb);
    lemma_lex_asymmetric(sa, sb);
    lemma_lex_total(sa, last_sender);
    lemma_lex_total(sb, last_sender);
    if wins_over(ta, sa, last_ms, last_sender) && !wins_over(tb, sb, last_ms, last_sender) {
        if wins_over(tb, sb, ta, sa) {
            law_policy_transitive(last_ms, last_sender, ta, sa, tb, sb);
        }
    }
    if wins_over(tb, sb, last_ms, last_sender) && !wins_over(ta, sa, last_ms, last_sender) {
        if wins_over(ta, sa, tb, sb) {
            law_policy_transitive(last_ms, last_sender, tb, sb, ta, sa);
        }
    }
    if (ta, sa) == (tb, sb) {
        law_replay_is_stale(ta, sa);
    }
}

/// A remembered hash is in the cache, and the cache stays within capacity and
/// free of repeats.
pub proof fn law_remembered_hash_is_cached(cache: Seq<u64>, hash: u64)
    requires
        cache.len() <= MAX_RECENT_HASHES,
        cache.no_duplicates(),
    ensures
        remembered(cache, hash).contains(hash),
        remembered(cache, hash).len() <= MAX_RECENT_HASHES,
        remembered(cache, hash).no_duplicates(),
{
    let r = remembered(cache, hash);
    if !cache.contains(hash) {
        assert(cache.push(hash)[cache.len() as int] == hash);
        if cache.len() + 1 > MAX_RECENT_HASHES {
            assert(r[r.len() - 1] == hash);
        }
    }
}

/// A payload from a peer that was applied is dropped as a duplicate when it is
/// delivered again.
pub proof fn law_applied_payload_not_applied_twice(
    pre: AppState,
    mid: AppState,
    post: AppState,
    sender: Seq<char>,
    timestamp_ms: u64,
    hash: u64,
    again: IncomingOutcome,
)
    requires
        pre.wf(),
        incoming_decision(pre, mid, sender, timestamp_ms, hash, IncomingOutcome::Applied),
        incoming_decision(mid, post, sender, timestamp_ms, hash, again),
    ensures
        again == IncomingOutcome::Duplicate,
{
    law_remembered_hash_is_cached(pre.recent_hashes@, hash);
}

/// A local clipboard change that was sent (or blocked) is dropped as a duplicate
/// when the same content is offered again: the clipboard does not echo. The
/// second offer leaves the hash cache as it was and counts one more drop.
pub proof fn law_local_change_not_sent_twice(
    pre: AppState,
    mid: AppState,
    post: AppState,
    hash: u64,
    channel: Seq<char>,
    first_payload: TransportMessage,
    second_payload: TransportMessage,
    first: LocalSendPlan,
    second: LocalSendPlan,
)
    requires
        pre.wf(),
        send_decision(pre, mid, hash, channel, first_payload, first),
        !(first is Duplicate),
        send_decision(mid, post, hash, channel, second_payload, second),
    ensures
        second is Duplicate,
        post.recent_hashes == mid.recent_hashes,
        post.sync_dropped_count == (mid.sync_dropped_count + 1) as u64,
        mid.sync_dropped_count < u64::MAX ==> post.sync_dropped_count == mid.sync_dropped_count + 1,
{
    law_remembered_hash_is_cached(pre.recent_hashes@, hash);
}

/// Offering the same local text a second time, with the device name and the
/// hash cache untouched since the first offer, drops it as a duplicate: the
/// plan sends nothing, records the duplicate line, leaves the hash cache as it
/// was, and counts one more drop.
pub proof fn law_repeated_text_dropped(
    pre: AppState,
    mid: AppState,
    again: AppState,
    post: AppState,
    text: String,
    first_ms: u64,
    second_ms: u64,
    first: LocalSendPlan,
    second: LocalSendPlan,
)
    requires
        pre.wf(),
        text_plan_holds(pre, mid, text, first_ms, first),
        again.device_name == mid.device_name,
        again.recent_hashes == mid.recent_hashes,
        text_plan_holds(again, post, text, second_ms, second),
    ensures
        second matches LocalSendPlan::Duplicate { event } && event@ == backend_event_line(
            "FAILED"@,
            "TEXT_SEND_LOCAL"@,
            "duplicate local hash dropped"@,
        ),
        post == (AppState {
            sync_dropped_count: post.sync_dropped_count,
            diagnostic_events: post.diagnostic_events,
            ..again
        }),
        post.recent_hashes == again.recent_hashes,
        post.sync_dropped_count == (again.sync_dropped_count + 1) as u64,
        again.sync_dropped_count < u64::MAX ==> post.sync_dropped_count == again.sync_dropped_count + 1,
{
    law_remembered_hash_is_cached(pre.recent_hashes@, text_hash(pre.device_name@, text@));
}

/// Nothing is sent while sync is off, nor while the app is in the background
/// with background mode disabled.
pub proof fn law_send_requires_permission(
    pre: AppState,
    post: AppState,
    hash: u64,
    channel: Seq<char>,
    payload: TransportMessage,
    plan: LocalSendPlan,
)
    requires
        send_decision(pre, post, hash, channel, payload, plan),
        plan is Send,
    ensures
        pre.sync_enabled,
        pre.is_app_foreground || pre.settings.background_mode_enabled,
{
}

/// Local changes go only to trusted peers, never to this device itself.
pub proof fn law_send_only_to_trusted_peers(
    pre: AppState,
    post: AppState,
    hash: u64,
    channel: Seq<char>,
    payload: TransportMessage,
    plan: LocalSendPlan,
)
    requires
        send_decision(pre, post, hash, channel, payload, plan),
    ensures
        plan matches LocalSendPlan::Send { targets, .. } ==> forall|j: int|
            0 <= j < targets@.len() ==> pre.settings.trusted_peers@.contains_key(
                (#[trigger] targets@[j]).0@,
            ) && pre.settings.trusted_peers@[targets@[j].0@] == targets@[j].2
                && !crate::text::has_substring(targets@[j].0@, pre.device_name@),
{
}

/// The diagnostics buffer never grows past its capacity, and the newest line is last.
pub proof fn law_diagnostics_bounded(buffer: Seq<String>, line: String, cap: nat)
    requires
        cap > 0,
        buffer.len() <= cap,
    ensures
        bounded_push(buffer, line, cap).len() <= cap,
        bounded_push(buffer, line, cap).last() == line,
{
}

/// After pruning, every peer that is still known was seen within the time-to-live.
pub proof fn law_pruned_peers_are_fresh(
    discovered: Map<Seq<char>, String>,
    last_seen: Map<Seq<char>, u64>,
    now: u64,
    k: Seq<char>,
)
    requires
        discovered.dom() == last_seen.dom(),
        discovered.remove_keys(stale_peers(last_seen, now)).contains_key(k),
    ensures
        last_seen.remove_keys(stale_peers(last_seen, now)).contains_key(k),
        !is_stale(now, last_seen.remove_keys(stale_peers(last_seen, now))[k]),
{
}

/// Once a peer is trusted under a token, a `Hello` from it with that token is accepted.
pub proof fn law_trusted_token_authenticates(trusted: Map<Seq<char>, String>, peer: Seq<char>, token: String)
    ensures
        hello_accepted(trusted.insert(peer, token), peer, token@),
{
}

/// A `Hello` with any other token than the trusted one is refused.
pub proof fn law_wrong_token_refused(trusted: Map<Seq<char>, String>, peer: Seq<char>, token: Seq<char>)
    requires
        trusted.contains_key(peer) ==> trusted[peer]@ != token,
    ensures
        !hello_accepted(trusted, peer, token),
{
}


/// A payload from a peer is only awaited after a `Hello` that carried the
/// peer's trusted token.
pub proof fn law_sync_only_after_authentication(
    pre: AppState,
    post: AppState,
    msg: TransportMessage,
    peer_ip: Seq<char>,
    action: InboundAction,
)
    requires
        inbound_handled(pre, post, msg, peer_ip, action),
        action.await_sync,
    ensures
        msg matches TransportMessage::Hello { device_name, token } && hello_accepted(
            pre.settings.trusted_peers@,
            device_name@,
            token@,
        ),
{
}

/// When a peer accepts our pairing request, the token we offered authenticates
/// it from then on.
pub proof fn law_accepted_response_authenticates(
    pre: AppState,
    post: AppState,
    peer: Seq<char>,
    line: String,
    changed: bool,
)
    requires
        pairing_response_applied(pre, post, peer, true, line, changed),
        pre.outgoing_pairing_requests@.contains_key(peer),
    ensures
        changed,
        hello_accepted(post.settings.trusted_peers@, peer, pre.outgoing_pairing_requests@[peer]@),
{
}

/// With the hash not cached, a local change is sent exactly when sync is on
/// and the app is in the foreground or background mode is on; otherwise it is
/// blocked and nothing is sent.
pub proof fn law_send_permission_exact(
    pre: AppState,
    post: AppState,
    hash: u64,
    channel: Seq<char>,
    payload: TransportMessage,
    plan: LocalSendPlan,
)
    requires
        send_decision(pre, post, hash, channel, payload, plan),
        !pre.recent_hashes@.contains(hash),
    ensures
        (plan is Send) == (pre.sync_enabled && (pre.is_app_foreground || pre.settings.background_mode_enabled)),
        (plan is Blocked) == !(pre.sync_enabled && (pre.is_app_foreground || pre.settings.background_mode_enabled)),
{
}

/// New local text, offered while sync is on and the app is in the foreground,
/// is sent, whatever background mode is: the plan carries the text stamped
/// with this device's name and goes to every trusted, discovered peer other
/// than this device.
pub proof fn law_foreground_text_is_sent(pre: AppState, post: AppState, text: String, timestamp_ms: u64, plan: LocalSendPlan)
    requires
        text_plan_holds(pre, post, text, timestamp_ms, plan),
        pre.sync_enabled,
        pre.is_app_foreground,
        !pre.recent_hashes@.contains(text_hash(pre.device_name@, text@)),
    ensures
        plan matches LocalSendPlan::Send { payload, targets } && payload == (TransportMessage::SyncText {
            sender_id: pre.device_name,
            timestamp_ms,
            message_hash: text_hash(pre.device_name@, text@),
            text,
        }) && (forall|k: Seq<char>|
            #[trigger] pre.discovered@.contains_key(k) && pre.settings.trusted_peers@.contains_key(k)
                && !has_substring(k, pre.device_name@) ==> (exists|j: int|
                0 <= j < targets@.len() && targets@[j].0@ == k)),
{
}

/// After a pairing request from `device_name` offering `token`, the pending
/// request of that device holds exactly `token`, whatever it held before, and
/// the other pending requests are untouched.
pub proof fn law_pairing_request_holds_offered_token(
    pre: AppState,
    post: AppState,
    device_name: Seq<char>,
    token: String,
    line: String,
)
    requires
        pairing_request_recorded(pre, post, device_name, token, line),
    ensures
        post.pending_pairing_requests@.contains_key(device_name),
        post.pending_pairing_requests@[device_name] == token,
        forall|k: Seq<char>|
            k != device_name ==> (#[trigger] post.pending_pairing_requests@.contains_key(k)
                == pre.pending_pairing_requests@.contains_key(k) && (pre.pending_pairing_requests@.contains_key(k)
                ==> post.pending_pairing_requests@[k] == pre.pending_pairing_requests@[k])),
{
}

/// A pairing request received on an inbound connection, once approved, lets
/// the requesting device authenticate with the token it offered last.
pub proof fn law_approved_request_authenticates(
    pre: AppState,
    mid: AppState,
    post: AppState,
    device_name: String,
    token: String,
    peer_ip: Seq<char>,
    action: InboundAction,
)
    requires
        inbound_handled(pre, mid, TransportMessage::PairingRequest { device_name, token }, peer_ip, action),
        post.settings.trusted_peers@ == mid.settings.trusted_peers@.insert(
            device_name@,
            mid.pending_pairing_requests@[device_name@],
        ),
    ensures
        mid.pending_pairing_requests@[device_name@] == token,
        hello_accepted(post.settings.trusted_peers@, device_name@, token@),
{
}

/// The handshake targets reach every discovered peer whose name does not
/// contain this device's name, each at its discovered address, and no other.
pub proof fn law_handshake_targets_complete(r: Seq<(String, String)>, discovered: Map<Seq<char>, String>, own_name: Seq<char>)
    requires
        is_handshake_target_list(r, discovered, own_name),
    ensures
        forall|k: Seq<char>|
            #[trigger] discovered.contains_key(k) && !has_substring(k, own_name) ==> exists|j: int|
                0 <= j < r.len() && r[j].0@ == k && r[j].1 == discovered[k],
        forall|j: int| 0 <= j < r.len() ==> discovered.contains_key((#[trigger] r[j]).0@) && !has_substring(r[j].0@, own_name),
{
    assert forall|k: Seq<char>| #[trigger] discovered.contains_key(k) && !has_substring(k, own_name) implies exists|j: int|
        0 <= j < r.len() && r[j].0@ == k && r[j].1 == discovered[k] by {
        let j = choose|j: int| 0 <= j < r.len() && r[j].0@ == k;
        assert(discovered[r[j].0@] == r[j].1);
    }
}

/// A pairing answer asks for the settings to be saved exactly when it added a
/// trusted peer: the answer accepted and a request of ours to that peer was
/// outstanding. The trusted token is then the one we offered.
pub proof fn law_accepted_response_is_saved(
    pre: AppState,
    post: AppState,
    device_name: String,
    accepted: bool,
    peer_ip: Seq<char>,
    action: InboundAction,
)
    requires
        inbound_handled(pre, post, TransportMessage::PairingResponse { device_name, accepted }, peer_ip, action),
    ensures
        action.save_settings == (accepted && pre.outgoing_pairing_requests@.contains_key(device_name@)),
        action.save_settings ==> post.settings.trusted_peers@.contains_key(device_name@)
            && post.settings.trusted_peers@[device_name@] == pre.outgoing_pairing_requests@[device_name@],
        !action.save_settings ==> post.settings.trusted_peers@ == pre.settings.trusted_peers@,
{
}

/// A peer counts as authenticated exactly when it has a transport status and
/// that status mentions `authenticated` anywhere.
pub proof fn law_authenticated_means_mentioned(status: Map<Seq<char>, String>, k: Seq<char>)
    ensures
        authenticated_peers(status).contains(k) == (status.contains_key(k) && has_substring(
            status[k]@,
            "authenticated"@,
        )),
{
}

/// Every status that starts with `authenticated` (such as `authenticated with
/// X`, `authenticated (inbound)` or `authenticated + sent text`) is counted.
pub proof fn law_authenticated_prefix_counts(status: Map<Seq<char>, String>, k: Seq<char>)
    requires
        status.contains_key(k),
        status[k]@.len() >= 13,
        status[k]@.subrange(0, 13) == "authenticated"@,
    ensures
        authenticated_peers(status).contains(k),
{
    reveal_strlit("authenticated");
    let v = status[k]@;
    assert(v.subrange(0, 0 + "authenticated"@.len() as int) == "authenticated"@);
}

/// The conflict policy: a newer timestamp always wins, an older one always
/// loses, and at the same timestamp the sender that sorts later wins.
pub proof fn law_conflict_policy_direction(timestamp_ms: u64, sender: Seq<char>, last_ms: u64, last_sender: Seq<char>)
    ensures
        timestamp_ms > last_ms ==> wins_over(timestamp_ms, sender, last_ms, last_sender),
        timestamp_ms < last_ms ==> !wins_over(timestamp_ms, sender, last_ms, last_sender),
        timestamp_ms == last_ms ==> wins_over(timestamp_ms, sender, last_ms, last_sender) == lex_greater(
            sender,
            last_sender,
        ),
{
}

/// The sender order used to break ties compares names character by character:
/// after a common prefix of length `i`, the name with the larger code point at
/// the first difference sorts later, and a name sorts later than each of its
/// proper prefixes.
pub proof fn law_sender_order_is_lexicographic(a: Seq<char>, b: Seq<char>, i: int)
    requires
        0 <= i <= a.len(),
        i <= b.len(),
        a.subrange(0, i) == b.subrange(0, i),
    ensures
        i < a.len() && i < b.len() && a[i] != b[i] ==> lex_greater(a, b) == ((a[i] as int) > (b[i] as int)),
        i == b.len() && i < a.len() ==> lex_greater(a, b),
        i == a.len() ==> !lex_greater(a, b),
    decreases i,
{
    if i > 0 {
        assert(a[0] == a.subrange(0, i)[0]);
        assert(b[0] == b.subrange(0, i)[0]);
        assert(a.drop_first().subrange(0, i - 1) =~= a.subrange(0, i).drop_first());
        assert(b.drop_first().subrange(0, i - 1) =~= b.subrange(0, i).drop_first());
        law_sender_order_is_lexicographic(a.drop_first(), b.drop_first(), i - 1);
    }
}

/// Remembering a hash keeps the cache's newest entries: the hash is present
/// afterwards, nothing else is added, every cached hash stays while there is
/// room, and when the cache is full only the oldest entry is evicted.
pub proof fn law_cache_keeps_newest(cache: Seq<u64>, hash: u64)
    requires
        cache.len() <= MAX_RECENT_HASHES,
        cache.no_duplicates(),
    ensures
        remembered(cache, hash).contains(hash),
        forall|x: u64| #[trigger] remembered(cache, hash).contains(x) ==> x == hash || cache.contains(x),
        cache.contains(hash) ==> remembered(cache, hash) == cache,
        !cache.contains(hash) && cache.len() < MAX_RECENT_HASHES ==> forall|x: u64|
            cache.contains(x) ==> #[trigger] remembered(cache, hash).contains(x),
        !cache.contains(hash) && cache.len() == MAX_RECENT_HASHES ==> !remembered(cache, hash).contains(cache[0])
            && forall|j: int| 1 <= j < cache.len() ==> remembered(cache, hash).contains(#[trigger] cache[j]),
{
    law_remembered_hash_is_cached(cache, hash);
    let r = remembered(cache, hash);
    assert forall|x: u64| #[trigger] r.contains(x) implies x == hash || cache.contains(x) by {
        let j = choose|j: int| 0 <= j < r.len() && r[j] == x;
        if !cache.contains(hash) {
            if cache.len() + 1 > MAX_RECENT_HASHES {
                assert(r[j] == cache.push(hash)[j + 1]);
                if j + 1 < cache.len() {
                    assert(cache[j + 1] == x);
                }
            } else {
                if j < cache.len() {
                    assert(cache[j] == x);
                }
            }
        }
    }
    if !cache.contains(hash) && cache.len() < MAX_RECENT_HASHES {
        assert forall|x: u64| cache.contains(x) implies #[trigger] r.contains(x) by {
            let j = choose|j: int| 0 <= j < cache.len() && cache[j] == x;
            assert(r[j] == x);
        }
    }
    if !cache.contains(hash) && cache.len() == MAX_RECENT_HASHES {
        assert forall|j: int| 1 <= j < cache.len() implies r.contains(#[trigger] cache[j]) by {
            assert(r[j - 1] == cache[j]);
        }
        if r.contains(cache[0]) {
            let j = choose|j: int| 0 <= j < r.len() && r[j] == cache[0];
            if j + 1 < cache.len() {
                assert(cache[j + 1] == cache[0]);
            } else {
                assert(r[j] == hash);
                assert(cache.contains(hash));
            }
        }
    }
}

/// An incoming payload whose hash is cached is a duplicate; otherwise a newer
/// one is applied and an older one rejected as stale. Exactly one of the
/// dropped, stale and received counters goes up by one, and an applied payload
/// becomes the last applied one and is cached.
pub proof fn law_incoming_outcome(
    pre: AppState,
    post: AppState,
    sender: Seq<char>,
    timestamp_ms: u64,
    hash: u64,
    r: IncomingOutcome,
)
    requires
        pre.wf(),
        incoming_decision(pre, post, sender, timestamp_ms, hash, r),
    ensures
        pre.recent_hashes@.contains(hash) ==> r == IncomingOutcome::Duplicate,
        !pre.recent_hashes@.contains(hash) && timestamp_ms > pre.last_applied_timestamp_ms ==> r
            == IncomingOutcome::Applied,
        !pre.recent_hashes@.contains(hash) && timestamp_ms < pre.last_applied_timestamp_ms ==> r
            == IncomingOutcome::Stale,
        post.sync_dropped_count + post.sync_rejected_stale_count + post.sync_received_count == pre.sync_dropped_count
            + pre.sync_rejected_stale_count + pre.sync_received_count + 1,
        (r == IncomingOutcome::Duplicate) == (post.sync_dropped_count == pre.sync_dropped_count + 1),
        (r == IncomingOutcome::Stale) == (post.sync_rejected_stale_count == pre.sync_rejected_stale_count + 1),
        (r == IncomingOutcome::Applied) == (post.sync_received_count == pre.sync_received_count + 1),
        r == IncomingOutcome::Applied ==> post.last_applied_timestamp_ms == timestamp_ms
            && post.last_applied_sender@ == sender && post.recent_hashes@.contains(hash),
        r != IncomingOutcome::Applied ==> post.recent_hashes == pre.recent_hashes
            && post.last_applied_timestamp_ms == pre.last_applied_timestamp_ms,
{
    law_remembered_hash_is_cached(pre.recent_hashes@, hash);
}

/// A peer is stale exactly when it is known and was last seen more than 30
/// seconds before `now`.
pub proof fn law_stale_after_thirty_seconds(last_seen: Map<Seq<char>, u64>, now: u64, k: Seq<char>)
    ensures
        stale_peers(last_seen, now).contains(k) == (last_seen.contains_key(k) && now > last_seen[k] + 30000),
{
}

} // verus!
