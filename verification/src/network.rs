//! Bookkeeping of discovered peers and of the transport status shown per peer.
use vstd::prelude::*;

use crate::logging::{backend_event_line, bounded_push, format_backend_event, now_ms, push_diagnostic};
use crate::models::UdpDiscoveryBeacon;
use crate::name_map::NameMap;
use crate::security::{ip_is_local, ip_is_private_or_loopback, IpAddress};
use crate::state::{AppState, MAX_DIAGNOSTIC_EVENTS};
use crate::text::{concat2, concat3, decimal, has_substring, str_contains, u64_to_decimal};

verus! {

/// A peer that has not been seen for longer than this is forgotten.
pub const PEER_TTL_MS: u64 = 30000;

/// Records that `device_name` was seen at `addr` at time `now`.
pub fn record_discovered_device(state: &mut AppState, device_name: String, addr: String, now: u64)
    requires
        old(state).wf(),
    ensures
        final(state).wf(),
        final(state).discovered@ == old(state).discovered@.insert(device_name@, addr),
        final(state).discovered_last_seen_ms@ == old(state).discovered_last_seen_ms@.insert(
            device_name@,
            now,
        ),
        *final(state) == (AppState {
            discovered: final(state).discovered,
            discovered_last_seen_ms: final(state).discovered_last_seen_ms,
            ..*old(state)
        }),
{
    let name = device_name.clone();
    state.discovered.insert(device_name, addr);
    state.discovered_last_seen_ms.insert(name, now);
}

/// Records that `device_name` was seen at `addr`, stamped with the current time.
pub fn upsert_discovered_device(state: &mut AppState, device_name: String, addr: String)
    requires
        old(state).wf(),
    ensures
        final(state).wf(),
        final(state).discovered@ == old(state).discovered@.insert(device_name@, addr),
        final(state).discovered_last_seen_ms@.contains_key(device_name@),
        final(state).discovered_last_seen_ms@.remove(device_name@)
            == old(state).discovered_last_seen_ms@.remove(device_name@),
        *final(state) == (AppState {
            discovered: final(state).discovered,
            discovered_last_seen_ms: final(state).discovered_last_seen_ms,
            ..*old(state)
        }),
{
    let now = now_ms();
    record_discovered_device(state, device_name, addr, now);
    assert(old(state).discovered_last_seen_ms@.insert(device_name@, now).remove(device_name@)
        =~= old(state).discovered_last_seen_ms@.remove(device_name@));
}

/// Records the last transport outcome for `peer`.
pub fn set_transport_status(state: &mut AppState, peer: String, status: String)
    requires
        old(state).wf(),
    ensures
        final(state).wf(),
        final(state).transport_status@ == old(state).transport_status@.insert(peer@, status),
        *final(state) == (AppState { transport_status: final(state).transport_status, ..*old(state) }),
{
    state.transport_status.insert(peer, status);
}

/// A peer last seen at `seen` is stale at time `now`.
pub open spec fn is_stale(now: u64, seen: u64) -> bool {
    now - seen > PEER_TTL_MS
}

/// The peers that are stale at time `now`.
pub open spec fn stale_peers(last_seen: Map<Seq<char>, u64>, now: u64) -> Set<Seq<char>> {
    Set::new(|k: Seq<char>| last_seen.contains_key(k) && is_stale(now, last_seen[k]))
}

/// The diagnostic line for a pruned peer.
pub open spec fn prune_event(name: Seq<char>) -> Seq<char> {
    backend_event_line("INFO"@, "PEER_PRUNED"@, "peer="@ + name)
}

/// The buffer after appending every line of `lines` in order.
pub open spec fn push_all(buffer: Seq<String>, lines: Seq<String>) -> Seq<String>
    decreases lines.len(),
{
    if lines.len() == 0 {
        buffer
    } else {
        bounded_push(push_all(buffer, lines.drop_last()), lines.last(), MAX_DIAGNOSTIC_EVENTS as nat)
    }
}

/// The names in `last_seen` that are stale at time `now`, each once, in walk order.
fn stale_names(last_seen: &NameMap<u64>, now: u64) -> (names: Vec<String>)
    requires
        last_seen.wf(),
    ensures
        names@.map_values(|s: String| s@).no_duplicates(),
        names@.map_values(|s: String| s@).to_set() == stale_peers(last_seen@, now),
        stale_peers(last_seen@, now).finite(),
        names@.len() == stale_peers(last_seen@, now).len(),
{
    let ghost p = |k: Seq<char>| is_stale(now, last_seen@[k]);
    let ghost mut nseq: Seq<Seq<char>> = Seq::empty();
    let n = last_seen.len();
    proof {
        last_seen.lemma_walk_filter_start(p);
    }
    let mut names: Vec<String> = Vec::new();
    let mut i: usize = 0;
    while i < n
        invariant
            last_seen.wf(),
            n == last_seen.size(),
            i <= n,
            p == (|k: Seq<char>| is_stale(now, last_seen@[k])),
            last_seen.walk_filtered(p, nseq, i as int),
            nseq == names@.map_values(|s: String| s@),
        decreases n - i,
    {
        proof {
            last_seen.lemma_walk_filter_step(p, nseq, i as int);
        }
        let seen = *last_seen.value_ref(i);
        if now > seen && now - seen > PEER_TTL_MS {
            let name = last_seen.key_ref(i).clone();
            proof {
                assert(p(last_seen.key_at(i as int)));
                nseq = nseq.push(last_seen.key_at(i as int));
            }
            names.push(name);
            assert(nseq =~= names@.map_values(|s: String| s@));
        } else {
            assert(!p(last_seen.key_at(i as int)));
        }
        i = i + 1;
    }
    proof {
        last_seen.lemma_walk_filter_done(p, nseq);
        assert(last_seen@.dom().filter(p) =~= stale_peers(last_seen@, now));
    }
    names
}

/// Whether the pruned-peer counter can take every peer that is stale at time
/// `now` without overflowing.
pub fn prune_has_room(state: &AppState, now: u64) -> (r: bool)
    requires
        state.discovered_last_seen_ms.wf(),
    ensures
        r == (state.stale_peers_pruned + stale_peers(state.discovered_last_seen_ms@, now).len() <= u64::MAX),
{
    let names = stale_names(&state.discovered_last_seen_ms, now);
    let count = names.len() as u64;
    count <= u64::MAX - state.stale_peers_pruned
}

/// Forgets every peer that is stale at time `now`, counts them, and records one
/// diagnostic line per pruned peer. Returns those lines.
pub fn prune_stale_peers(state: &mut AppState, now: u64) -> (events: Vec<String>)
    requires
        old(state).wf(),
        old(state).stale_peers_pruned + stale_peers(old(state).discovered_last_seen_ms@, now).len()
            <= u64::MAX,
    ensures
        final(state).wf(),
        ({
            let gone = stale_peers(old(state).discovered_last_seen_ms@, now);
            &&& final(state).discovered@ == old(state).discovered@.remove_keys(gone)
            &&& final(state).discovered_last_seen_ms@ == old(state).discovered_last_seen_ms@.remove_keys(gone)
            &&& final(state).transport_status@ == old(state).transport_status@.remove_keys(gone)
            &&& final(state).stale_peers_pruned == old(state).stale_peers_pruned + gone.len()
            &&& gone.finite()
            &&& events@.len() == gone.len()
            &&& forall|i: int| 0 <= i < events@.len() ==> exists|k: Seq<char>| #[trigger] gone.contains(k)
                && (#[trigger] events@[i])@ == prune_event(k)
            &&& forall|k: Seq<char>| #[trigger] gone.contains(k) ==> exists|i: int|
                0 <= i < events@.len() && events@[i]@ == prune_event(k)
        }),
        final(state).diagnostic_events@ == push_all(old(state).diagnostic_events@, events@),
        *final(state) == (AppState {
            discovered: final(state).discovered,
            discovered_last_seen_ms: final(state).discovered_last_seen_ms,
            transport_status: final(state).transport_status,
            stale_peers_pruned: final(state).stale_peers_pruned,
            diagnostic_events: final(state).diagnostic_events,
            ..*old(state)
        }),
{
    let ghost gone = stale_peers(state.discovered_last_seen_ms@, now);
    let ghost start = *state;
    let names = stale_names(&state.discovered_last_seen_ms, now);
    let ghost nseq = names@.map_values(|s: String| s@);
    proof {
        assert forall|j: int| 0 <= j < nseq.len() implies nseq[j] == #[trigger] names@[j]@ by {}
    }
    // Forget each stale name.
    let mut events: Vec<String> = Vec::new();
    let m = names.len();
    let mut i: usize = 0;
    while i < m
        invariant
            state.wf(),
            start.wf(),
            m == names@.len(),
            m == nseq.len(),
            i <= m,
            forall|j: int| 0 <= j < nseq.len() ==> nseq[j] == #[trigger] names@[j]@,
            nseq.no_duplicates(),
            nseq.to_set() == gone,
            gone == stale_peers(start.discovered_last_seen_ms@, now),
            gone.len() == m,
            start.stale_peers_pruned + gone.len() <= u64::MAX,
            ({
                let done = nseq.take(i as int).to_set();
                &&& state.discovered@ == start.discovered@.remove_keys(done)
                &&& state.discovered_last_seen_ms@ == start.discovered_last_seen_ms@.remove_keys(done)
                &&& state.transport_status@ == start.transport_status@.remove_keys(done)
            }),
            state.stale_peers_pruned == start.stale_peers_pruned + i,
            events@.len() == i,
            forall|j: int| 0 <= j < i ==> (#[trigger] events@[j])@ == prune_event(nseq[j]),
            state.diagnostic_events@ == push_all(start.diagnostic_events@, events@),
            *state == (AppState {
                discovered: state.discovered,
                discovered_last_seen_ms: state.discovered_last_seen_ms,
                transport_status: state.transport_status,
                stale_peers_pruned: state.stale_peers_pruned,
                diagnostic_events: state.diagnostic_events,
                ..start
            }),
        decreases m - i,
    {
        let name = &names[i];
        let ghost k = nseq[i as int];
        let ghost done = nseq.take(i as int).to_set();
        proof {
            assert(nseq.take(i + 1).to_set() =~= done.insert(k)) by {
                assert(nseq.take(i + 1) =~= nseq.take(i as int).push(k));
                assert forall|x: Seq<char>| nseq.take(i + 1).contains(x) implies done.insert(k).contains(x) by {
                    let j = choose|j: int| 0 <= j < i + 1 && #[trigger] nseq.take(i + 1)[j] == x;
                    if j < i {
                        assert(nseq.take(i as int)[j] == x);
                    }
                }
                assert forall|x: Seq<char>| done.insert(k).contains(x) implies nseq.take(i + 1).contains(x) by {
                    if x == k {
                        assert(nseq.take(i + 1)[i as int] == x);
                    } else {
                        let j = choose|j: int| 0 <= j < i && #[trigger] nseq.take(i as int)[j] == x;
                        assert(nseq.take(i + 1)[j] == x);
                    }
                }
            }
            assert(gone.contains(k)) by {
                assert(nseq.to_set().contains(nseq[i as int]));
            }
            assert(start.discovered_last_seen_ms@.contains_key(k));
        }
        state.discovered.remove(name.as_str());
        state.discovered_last_seen_ms.remove(name.as_str());
        state.transport_status.remove(name.as_str());
        state.stale_peers_pruned = state.stale_peers_pruned + 1;
        let details = concat2("peer=", name.as_str());
        let event = format_backend_event("INFO", "PEER_PRUNED", details.as_str());
        let line = event.clone();
        push_diagnostic(state, event);
        let ghost prev_events = events@;
        events.push(line);
        proof {
            let done2 = done.insert(k);
            assert(state.discovered@ =~= start.discovered@.remove_keys(done2));
            assert(state.discovered_last_seen_ms@ =~= start.discovered_last_seen_ms@.remove_keys(done2));
            assert(state.transport_status@ =~= start.transport_status@.remove_keys(done2));
            assert(events@.drop_last() =~= prev_events);
        }
        i = i + 1;
    }
    proof {
        assert(nseq.take(m as int) =~= nseq);
        assert forall|k: Seq<char>| #[trigger] gone.contains(k) implies exists|j: int|
            0 <= j < events@.len() && events@[j]@ == prune_event(k) by {
            assert(nseq.to_set().contains(k));
            let j = choose|j: int| 0 <= j < nseq.len() && nseq[j] == k;
            assert(events@[j]@ == prune_event(nseq[j]));
        }
        assert forall|j: int| 0 <= j < events@.len() implies exists|k: Seq<char>| #[trigger] gone.contains(k)
            && (#[trigger] events@[j])@ == prune_event(k) by {
            assert(nseq.to_set().contains(nseq[j]));
            assert(events@[j]@ == prune_event(nseq[j]));
        }
    }
    events
}

/// The peers to try a handshake with: every discovered peer except entries
/// whose name contains this device's own name.
pub open spec fn is_handshake_target_list(
    r: Seq<(String, String)>,
    discovered: Map<Seq<char>, String>,
    own_name: Seq<char>,
) -> bool {
    &&& forall|j: int|
        0 <= j < r.len() ==> discovered.contains_key((#[trigger] r[j]).0@) && discovered[r[j].0@]
            == r[j].1 && !has_substring(r[j].0@, own_name)
    &&& forall|a: int, b: int| 0 <= a < b < r.len() ==> (#[trigger] r[a]).0@ != (#[trigger] r[b]).0@
    &&& forall|k: Seq<char>|
        #[trigger] discovered.contains_key(k) && !has_substring(k, own_name) ==> exists|j: int|
            0 <= j < r.len() && r[j].0@ == k
}

/// Discovered peers, with their addresses, that the handshake loop contacts.
pub fn handshake_targets(state: &AppState) -> (r: Vec<(String, String)>)
    requires
        state.discovered.wf(),
    ensures
        is_handshake_target_list(r@, state.discovered@, state.device_name@),
{
    let ghost p = |k: Seq<char>| !has_substring(k, state.device_name@);
    let ghost mut names: Seq<Seq<char>> = Seq::empty();
    let n = state.discovered.len();
    proof {
        state.discovered.lemma_walk_filter_start(p);
    }
    let mut out: Vec<(String, String)> = Vec::new();
    let mut i: usize = 0;
    while i < n
        invariant
            state.discovered.wf(),
            n == state.discovered.size(),
            i <= n,
            p == (|k: Seq<char>| !has_substring(k, state.device_name@)),
            state.discovered.walk_filtered(p, names, i as int),
            names.len() == out@.len(),
            forall|j: int|
                0 <= j < out@.len() ==> (#[trigger] out@[j]).0@ == names[j] && state.discovered@[names[j]]
                    == out@[j].1,
        decreases n - i,
    {
        proof {
            state.discovered.lemma_walk_filter_step(p, names, i as int);
        }
        let name = state.discovered.key_ref(i);
        if !str_contains(name.as_str(), state.device_name.as_str()) {
            let addr = state.discovered.value_ref(i).clone();
            out.push((name.clone(), addr));
            proof {
                assert(p(state.discovered.key_at(i as int)));
                names = names.push(name@);
            }
        } else {
            assert(!p(state.discovered.key_at(i as int)));
        }
        i = i + 1;
    }
    proof {
        state.discovered.lemma_walk_filter_done(p, names);
        assert forall|k: Seq<char>|
            #[trigger] state.discovered@.contains_key(k) && !has_substring(k, state.device_name@) implies exists|j: int|
            0 <= j < out@.len() && out@[j].0@ == k by {
            assert(p(k));
            let j = choose|j: int| 0 <= j < names.len() && names[j] == k;
            assert(out@[j].0@ == k);
        }
        assert forall|a: int, b: int| 0 <= a < b < out@.len() implies (#[trigger] out@[a]).0@
            != (#[trigger] out@[b]).0@ by {
            assert(names[a] != names[b]);
        }
        assert forall|j: int| 0 <= j < out@.len() implies state.discovered@.contains_key((#[trigger] out@[j]).0@)
            && state.discovered@[out@[j].0@] == out@[j].1 && !has_substring(out@[j].0@, state.device_name@) by {
            assert(p(names[j]));
        }
    }
    out
}


/// The transport address `ip:port`.
pub open spec fn socket_address(ip: Seq<char>, port: u16) -> Seq<char> {
    ip + ":"@ + decimal(port as nat)
}

/// Formats the transport address `ip:port`.
pub fn format_socket_address(ip: &str, port: u16) -> (r: String)
    ensures
        r@ == socket_address(ip@, port),
{
    let p = u64_to_decimal(port as u64);
    concat3(ip, ":", p.as_str())
}

/// Handles a discovery beacon received from `src_ip` by the device announcing
/// itself as `local_name` with transport port `ws_port`, at time `now`. Our own
/// beacons are ignored; any other peer is recorded at `src_ip:<its port>` and,
/// unless its beacon was itself a reply, answered with a reply beacon.
pub fn handle_udp_beacon(
    state: &mut AppState,
    remote: UdpDiscoveryBeacon,
    src_ip: &str,
    local_name: &str,
    ws_port: u16,
    now: u64,
) -> (r: Option<UdpDiscoveryBeacon>)
    requires
        old(state).wf(),
    ensures
        final(state).wf(),
        remote.name@ == local_name@ ==> r is None && *final(state) == *old(state),
        remote.name@ != local_name@ ==> {
            &&& final(state).discovered@.contains_key(remote.name@)
            &&& final(state).discovered@ == old(state).discovered@.insert(
                remote.name@,
                final(state).discovered@[remote.name@],
            )
            &&& final(state).discovered@[remote.name@]@ == socket_address(src_ip@, remote.ws_port)
            &&& final(state).discovered_last_seen_ms@ == old(state).discovered_last_seen_ms@.insert(
                remote.name@,
                now,
            )
            &&& *final(state) == (AppState {
                discovered: final(state).discovered,
                discovered_last_seen_ms: final(state).discovered_last_seen_ms,
                ..*old(state)
            })
            &&& if remote.is_reply {
                r is None
            } else {
                r matches Some(reply) && reply.name@ == local_name@ && reply.ws_port == ws_port && reply.is_reply
            }
        },
{
    if remote.name == local_name.to_owned() {
        return None;
    }
    let addr = format_socket_address(src_ip, remote.ws_port);
    let is_reply = remote.is_reply;
    record_discovered_device(state, remote.name, addr, now);
    if is_reply {
        None
    } else {
        Some(UdpDiscoveryBeacon { name: local_name.to_owned(), ws_port, is_reply: true })
    }
}

/// Handles a resolved mDNS service `fullname` whose first address is `first_ip`
/// and whose port is `port`, seen at time `now` by the device announcing itself
/// as `local_name`. Services whose name contains our own name are ignored, as
/// are services without an address. Returns whether a peer was recorded.
pub fn handle_resolved_service(
    state: &mut AppState,
    fullname: String,
    first_ip: Option<String>,
    port: u16,
    local_name: &str,
    now: u64,
) -> (r: bool)
    requires
        old(state).wf(),
    ensures
        final(state).wf(),
        r == (!has_substring(fullname@, local_name@) && first_ip is Some),
        !r ==> *final(state) == *old(state),
        r ==> {
            &&& final(state).discovered@.contains_key(fullname@)
            &&& final(state).discovered@ == old(state).discovered@.insert(
                fullname@,
                final(state).discovered@[fullname@],
            )
            &&& final(state).discovered@[fullname@]@ == socket_address(first_ip->0@, port)
            &&& final(state).discovered_last_seen_ms@ == old(state).discovered_last_seen_ms@.insert(
                fullname@,
                now,
            )
            &&& *final(state) == (AppState {
                discovered: final(state).discovered,
                discovered_last_seen_ms: final(state).discovered_last_seen_ms,
                ..*old(state)
            })
        },
{
    if str_contains(fullname.as_str(), local_name) {
        return false;
    }
    match first_ip {
        Some(ip) => {
            let addr = format_socket_address(ip.as_str(), port);
            record_discovered_device(state, fullname, addr, now);
            true
        },
        None => false,
    }
}


/// Decides whether the handshake loop may contact `peer_name`, whose address
/// host parsed as `host` (`None` when it is not an IP address). Only private,
/// loopback and link-local hosts are contacted; any other peer is marked
/// `skipped: non-local address`.
pub fn screen_handshake_peer(state: &mut AppState, peer_name: String, host: Option<IpAddress>) -> (r: bool)
    requires
        old(state).wf(),
    ensures
        final(state).wf(),
        r == (host matches Some(ip) && ip_is_local(ip)),
        r ==> *final(state) == *old(state),
        !r ==> final(state).transport_status@.contains_key(peer_name@)
            && final(state).transport_status@[peer_name@]@ == "skipped: non-local address"@
            && final(state).transport_status@.remove(peer_name@) == old(state).transport_status@.remove(
            peer_name@,
        ) && *final(state) == (AppState { transport_status: final(state).transport_status, ..*old(state) }),
{
    let local = match &host {
        Some(ip) => ip_is_private_or_loopback(ip),
        None => false,
    };
    if !local {
        let ghost k = peer_name@;
        set_transport_status(state, peer_name, "skipped: non-local address".to_owned());
        assert(final(state).transport_status@.remove(k) =~= old(state).transport_status@.remove(k));
    }
    local
}

} // verus!
