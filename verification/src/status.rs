//! Runtime status reported to the user interface and the tray, and the state
//! changes made by user commands.

use vstd::prelude::*;

use crate::logging::{backend_event_line, bounded_push, log_backend_event_with_state};
use crate::models::{AppSettings, IncomingImage};
use crate::name_map::NameMap;
use crate::settings::{device_name_for, effective_device_name};
use crate::state::{AppState, MAX_DIAGNOSTIC_EVENTS};
use crate::text::{concat2, decimal, has_substring, str_contains, u64_to_decimal};

verus! {

/// The peers whose transport status mentions `authenticated`.
pub open spec fn authenticated_peers(status: Map<Seq<char>, String>) -> Set<Seq<char>> {
    status.dom().filter(|k: Seq<char>| has_substring(status[k]@, "authenticated"@))
}

/// Number of peers whose transport status mentions `authenticated`.
pub fn count_authenticated(status: &NameMap<String>) -> (r: usize)
    requires
        status.wf(),
    ensures
        r == authenticated_peers(status@).len(),
        authenticated_peers(status@).finite(),
{
    let ghost p = |k: Seq<char>| has_substring(status@[k]@, "authenticated"@);
    let ghost mut names: Seq<Seq<char>> = Seq::empty();
    let n = status.len();
    proof {
        status.lemma_walk_filter_start(p);
    }
    let mut count: usize = 0;
    let mut i: usize = 0;
    while i < n
        invariant
            status.wf(),
            n == status.size(),
            i <= n,
            p == (|k: Seq<char>| has_substring(status@[k]@, "authenticated"@)),
            status.walk_filtered(p, names, i as int),
            count == names.len(),
            count <= i,
        decreases n - i,
    {
        proof {
            status.lemma_walk_filter_step(p, names, i as int);
        }
        let v = status.value_ref(i);
        if str_contains(v.as_str(), "authenticated") {
            proof {
                assert(p(status.key_at(i as int)));
                names = names.push(status.key_at(i as int));
            }
            count = count + 1;
        } else {
            assert(!p(status.key_at(i as int)));
        }
        i = i + 1;
    }
    proof {
        status.lemma_walk_filter_done(p, names);
        assert(status@.dom().filter(p) == authenticated_peers(status@));
    }
    count
}

/// The tray tooltip: sync switch, discovered peers and authenticated peers.
pub open spec fn tray_text(sync_enabled: bool, discovered: nat, authenticated: nat) -> Seq<char> {
    "ClipSync | Sync: "@ + (if sync_enabled {
        "ON"@
    } else {
        "OFF"@
    }) + " | Discovered: "@ + decimal(discovered) + " | Authenticated: "@ + decimal(authenticated)
}

/// The tray tooltip for the current state.
pub fn build_tray_status_text(state: &AppState) -> (r: String)
    requires
        state.discovered.wf(),
        state.transport_status.wf(),
    ensures
        r@ == tray_text(
            state.sync_enabled,
            state.discovered@.len(),
            authenticated_peers(state.transport_status@).len(),
        ),
{
    let discovered = state.discovered.len();
    let authenticated = count_authenticated(&state.transport_status);
    let mut r = "ClipSync | Sync: ".to_owned();
    if state.sync_enabled {
        r.append("ON");
    } else {
        r.append("OFF");
    }
    r.append(" | Discovered: ");
    r.append(u64_to_decimal(discovered as u64).as_str());
    r.append(" | Authenticated: ");
    r.append(u64_to_decimal(authenticated as u64).as_str());
    r
}

/// What the dashboard shows.
pub struct StatusSummary {
    /// `connected` when a peer is discovered, otherwise `searching`.
    pub status: String,
    pub sync_enabled: bool,
    /// Whether some peer is trusted.
    pub paired: bool,
    pub devices: Vec<String>,
    pub peer_transport: Vec<(String, String)>,
    pub is_app_foreground: bool,
    pub visibility_report_age_ms: u64,
    pub background_mode_enabled: bool,
    /// Time since the last successful authentication; `u64::MAX` when there was none.
    pub last_auth_age_ms: u64,
    pub stale_peers_pruned: u64,
    pub authenticated_peer_count: usize,
    pub sent: u64,
    pub received: u64,
    pub dropped: u64,
    pub stale_rejected: u64,
    pub pending_requests: Vec<String>,
    pub outgoing_requests: Vec<String>,
    pub trusted_peers: Vec<String>,
}

/// `a - b`, or 0 when `b` is larger.
pub open spec fn age(now: u64, then: u64) -> u64 {
    if now > then {
        (now - then) as u64
    } else {
        0
    }
}

/// `names` lists every name of `m` once.
pub open spec fn lists_names<V>(names: Seq<String>, m: Map<Seq<char>, V>) -> bool {
    &&& names.len() == m.len()
    &&& forall|j: int| 0 <= j < names.len() ==> m.contains_key(#[trigger] names[j]@)
    &&& forall|a: int, b: int| 0 <= a < b < names.len() ==> (#[trigger] names[a])@ != (#[trigger] names[b])@
    &&& forall|k: Seq<char>| #[trigger] m.contains_key(k) ==> exists|j: int| 0 <= j < names.len() && names[j]@ == k
}

/// Every `(peer, status)` entry of a transport-status table, once each.
fn status_entries(m: &NameMap<String>) -> (r: Vec<(String, String)>)
    requires
        m.wf(),
    ensures
        r@.len() == m@.len(),
        forall|j: int| 0 <= j < r@.len() ==> m@.contains_key((#[trigger] r@[j]).0@) && m@[r@[j].0@] == r@[j].1,
        forall|a: int, b: int| 0 <= a < b < r@.len() ==> (#[trigger] r@[a]).0@ != (#[trigger] r@[b]).0@,
        forall|k: Seq<char>| #[trigger] m@.contains_key(k) ==> exists|j: int| 0 <= j < r@.len() && r@[j].0@ == k,
{
    let n = m.len();
    proof {
        m.lemma_walk();
    }
    let mut out: Vec<(String, String)> = Vec::new();
    let mut i: usize = 0;
    while i < n
        invariant
            m.wf(),
            n == m.size(),
            i <= n,
            out@.len() == i,
            forall|j: int| 0 <= j < i ==> (#[trigger] out@[j]).0@ == m.key_at(j) && m@[m.key_at(j)] == out@[j].1,
        decreases n - i,
    {
        out.push((m.key_ref(i).clone(), m.value_ref(i).clone()));
        i = i + 1;
    }
    proof {
        m.lemma_walk();
        assert forall|k: Seq<char>| #[trigger] m@.contains_key(k) implies exists|j: int| 0 <= j < out@.len() && out@[j].0@ == k by {
            let t = choose|t: int| 0 <= t < m.size() && #[trigger] m.key_at(t) == k;
            assert(out@[t].0@ == k);
        }
        assert forall|a: int, b: int| 0 <= a < b < out@.len() implies (#[trigger] out@[a]).0@ != (#[trigger] out@[b]).0@ by {
            assert(m.key_at(a) != m.key_at(b));
        }
    }
    out
}

/// The dashboard summary at time `now`.
pub fn status_summary(state: &AppState, now: u64) -> (r: StatusSummary)
    requires
        state.discovered.wf(),
        state.transport_status.wf(),
        state.settings.trusted_peers.wf(),
        state.pending_pairing_requests.wf(),
        state.outgoing_pairing_requests.wf(),
    ensures
        r.status@ == (if state.discovered@.len() > 0 {
            "connected"@
        } else {
            "searching"@
        }),
        r.sync_enabled == state.sync_enabled,
        r.paired == (state.settings.trusted_peers@.len() > 0),
        lists_names(r.devices@, state.discovered@),
        r.peer_transport@.len() == state.transport_status@.len(),
        forall|j: int|
            0 <= j < r.peer_transport@.len() ==> state.transport_status@.contains_key(
                (#[trigger] r.peer_transport@[j]).0@,
            ) && state.transport_status@[r.peer_transport@[j].0@] == r.peer_transport@[j].1,
        forall|k: Seq<char>|
            #[trigger] state.transport_status@.contains_key(k) ==> exists|j: int|
                0 <= j < r.peer_transport@.len() && r.peer_transport@[j].0@ == k,
        r.is_app_foreground == state.is_app_foreground,
        r.visibility_report_age_ms == age(now, state.last_visibility_report_ms),
        r.background_mode_enabled == state.settings.background_mode_enabled,
        r.last_auth_age_ms == (if state.last_auth_success_ms == 0 {
            u64::MAX
        } else {
            age(now, state.last_auth_success_ms)
        }),
        r.stale_peers_pruned == state.stale_peers_pruned,
        r.authenticated_peer_count == authenticated_peers(state.transport_status@).len(),
        r.sent == state.sync_sent_count,
        r.received == state.sync_received_count,
        r.dropped == state.sync_dropped_count,
        r.stale_rejected == state.sync_rejected_stale_count,
        lists_names(r.pending_requests@, state.pending_pairing_requests@),
        lists_names(r.outgoing_requests@, state.outgoing_pairing_requests@),
        lists_names(r.trusted_peers@, state.settings.trusted_peers@),
{
    let devices = state.discovered.keys();
    let status = if devices.len() > 0 {
        "connected".to_owned()
    } else {
        "searching".to_owned()
    };
    let visibility_report_age_ms = if now > state.last_visibility_report_ms {
        now - state.last_visibility_report_ms
    } else {
        0
    };
    let last_auth_age_ms = if state.last_auth_success_ms == 0 {
        u64::MAX
    } else if now > state.last_auth_success_ms {
        now - state.last_auth_success_ms
    } else {
        0
    };
    let peer_transport = status_entries(&state.transport_status);
    let ghost entries = peer_transport@;
    let r = StatusSummary {
        status,
        sync_enabled: state.sync_enabled,
        paired: state.settings.trusted_peers.len() > 0,
        devices,
        peer_transport,
        is_app_foreground: state.is_app_foreground,
        visibility_report_age_ms,
        background_mode_enabled: state.settings.background_mode_enabled,
        last_auth_age_ms,
        stale_peers_pruned: state.stale_peers_pruned,
        authenticated_peer_count: count_authenticated(&state.transport_status),
        sent: state.sync_sent_count,
        received: state.sync_received_count,
        dropped: state.sync_dropped_count,
        stale_rejected: state.sync_rejected_stale_count,
        pending_requests: state.pending_pairing_requests.keys(),
        outgoing_requests: state.outgoing_pairing_requests.keys(),
        trusted_peers: state.settings.trusted_peers.keys(),
    };
    proof {
        assert forall|k: Seq<char>| #[trigger] state.transport_status@.contains_key(k) implies exists|j: int|
            0 <= j < r.peer_transport@.len() && r.peer_transport@[j].0@ == k by {
            let j = choose|j: int| 0 <= j < entries.len() && entries[j].0@ == k;
            assert(r.peer_transport@[j].0@ == k);
        }
    }
    r
}


/// Switches sync on or off from the dashboard. Turning sync on requires a
/// paired (trusted) peer: a refused attempt leaves the state as it was but for
/// the diagnostic line, and comes back as `Err`. Returns the diagnostic line.
pub fn apply_sync_toggle(state: &mut AppState, enabled: bool) -> (r: Result<String, String>)
    requires
        old(state).wf(),
    ensures
        final(state).wf(),
        enabled && old(state).settings.trusted_peers@.len() == 0 ==> (r matches Err(line) && line@
            == backend_event_line(
            "FAILED"@,
            "SYNC_TOGGLE"@,
            "blocked: pairing required before enabling sync"@,
        ) && final(state).sync_enabled == old(state).sync_enabled),
        !(enabled && old(state).settings.trusted_peers@.len() == 0) ==> (r matches Ok(line) && line@
            == backend_event_line(
            "SUCCESS"@,
            "SYNC_TOGGLE"@,
            if enabled {
                "enabled"@
            } else {
                "disabled"@
            },
        ) && final(state).sync_enabled == enabled),
        final(state).diagnostic_events@ == bounded_push(
            old(state).diagnostic_events@,
            match r {
                Ok(line) => line,
                Err(line) => line,
            },
            MAX_DIAGNOSTIC_EVENTS as nat,
        ),
        *final(state) == (AppState {
            sync_enabled: final(state).sync_enabled,
            diagnostic_events: final(state).diagnostic_events,
            ..*old(state)
        }),
{
    if enabled && state.settings.trusted_peers.len() == 0 {
        return Err(
            log_backend_event_with_state(
                state,
                "FAILED",
                "SYNC_TOGGLE",
                "blocked: pairing required before enabling sync",
            ),
        );
    }
    state.sync_enabled = enabled;
    let details = if enabled {
        "enabled"
    } else {
        "disabled"
    };
    Ok(log_backend_event_with_state(state, "SUCCESS", "SYNC_TOGGLE", details))
}

/// Flips sync from the tray menu. Turning sync on requires pairing; a refused
/// attempt leaves sync off. Returns the diagnostic line.
pub fn apply_tray_sync_toggle(state: &mut AppState) -> (r: String)
    requires
        old(state).wf(),
    ensures
        final(state).wf(),
        !old(state).sync_enabled && !old(state).paired ==> final(state).sync_enabled == false && r@
            == backend_event_line(
            "FAILED"@,
            "SYNC_TOGGLE_TRAY"@,
            "blocked: pairing required before enabling sync"@,
        ),
        old(state).sync_enabled || old(state).paired ==> final(state).sync_enabled == !old(state).sync_enabled
            && r@ == backend_event_line(
            "SUCCESS"@,
            "SYNC_TOGGLE_TRAY"@,
            if final(state).sync_enabled {
                "enabled"@
            } else {
                "disabled"@
            },
        ),
        final(state).diagnostic_events@ == bounded_push(
            old(state).diagnostic_events@,
            r,
            MAX_DIAGNOSTIC_EVENTS as nat,
        ),
        *final(state) == (AppState {
            sync_enabled: final(state).sync_enabled,
            diagnostic_events: final(state).diagnostic_events,
            ..*old(state)
        }),
{
    if !state.sync_enabled && !state.paired {
        log_backend_event_with_state(
            state,
            "FAILED",
            "SYNC_TOGGLE_TRAY",
            "blocked: pairing required before enabling sync",
        )
    } else {
        state.sync_enabled = !state.sync_enabled;
        let details = if state.sync_enabled {
            "enabled"
        } else {
            "disabled"
        };
        log_backend_event_with_state(state, "SUCCESS", "SYNC_TOGGLE_TRAY", details)
    }
}

/// Records whether the app is in the foreground, reported at time `now`, and
/// returns the diagnostic line.
pub fn apply_visibility_report(state: &mut AppState, is_foreground: bool, now: u64) -> (r: String)
    requires
        old(state).wf(),
    ensures
        final(state).wf(),
        r@ == backend_event_line(
            "INFO"@,
            "APP_VISIBILITY"@,
            if is_foreground {
                "foreground"@
            } else {
                "background"@
            },
        ),
        final(state).diagnostic_events@ == bounded_push(
            old(state).diagnostic_events@,
            r,
            MAX_DIAGNOSTIC_EVENTS as nat,
        ),
        *final(state) == (AppState {
            is_app_foreground: is_foreground,
            last_visibility_report_ms: now,
            diagnostic_events: final(state).diagnostic_events,
            ..*old(state)
        }),
{
    state.is_app_foreground = is_foreground;
    state.last_visibility_report_ms = now;
    let details = if is_foreground {
        "foreground"
    } else {
        "background"
    };
    log_backend_event_with_state(state, "INFO", "APP_VISIBILITY", details)
}

/// Hands out the text received from a peer, once.
pub fn take_pending_remote_text(state: &mut AppState) -> (r: Option<String>)
    ensures
        r == old(state).pending_remote_text,
        *final(state) == (AppState { pending_remote_text: None, ..*old(state) }),
{
    state.pending_remote_text.take()
}

/// Hands out the image received from a peer, once.
pub fn take_pending_remote_image(state: &mut AppState) -> (r: Option<IncomingImage>)
    ensures
        r == old(state).pending_remote_image,
        *final(state) == (AppState { pending_remote_image: None, ..*old(state) }),
{
    state.pending_remote_image.take()
}

/// The diagnostic lines, oldest first.
pub fn diagnostics_snapshot(state: &AppState) -> (r: Vec<String>)
    ensures
        r@ == state.diagnostic_events@,
{
    let n = state.diagnostic_events.len();
    let mut out: Vec<String> = Vec::new();
    let mut i: usize = 0;
    while i < n
        invariant
            n == state.diagnostic_events@.len(),
            i <= n,
            out@ == state.diagnostic_events@.subrange(0, i as int),
        decreases n - i,
    {
        out.push(state.diagnostic_events[i].clone());
        i = i + 1;
        assert(out@ =~= state.diagnostic_events@.subrange(0, i as int));
    }
    assert(out@ =~= state.diagnostic_events@);
    out
}

/// Installs the loaded settings and the announced name at start-up (time `now`)
/// and returns the start-up diagnostic line.
pub fn apply_startup(state: &mut AppState, settings: AppSettings, device_name: String, ws_port: u16, now: u64) -> (r: String)
    requires
        old(state).wf(),
        settings.wf(),
    ensures
        final(state).wf(),
        r@ == backend_event_line(
            "INFO"@,
            "APP_STARTUP"@,
            "device_name="@ + device_name@ + " ws_port="@ + decimal(ws_port as nat),
        ),
        final(state).diagnostic_events@ == bounded_push(
            old(state).diagnostic_events@,
            r,
            MAX_DIAGNOSTIC_EVENTS as nat,
        ),
        *final(state) == (AppState {
            settings,
            device_name,
            last_visibility_report_ms: now,
            diagnostic_events: final(state).diagnostic_events,
            ..*old(state)
        }),
{
    let mut details = concat2("device_name=", device_name.as_str());
    details.append(" ws_port=");
    details.append(u64_to_decimal(ws_port as u64).as_str());
    state.settings = settings;
    state.device_name = device_name;
    state.last_visibility_report_ms = now;
    log_backend_event_with_state(state, "INFO", "APP_STARTUP", details.as_str())
}

/// Saves the settings edited by the user: trusted peers and the pairing code are
/// kept, everything else is replaced, and the announced name is derived again
/// from the new override and `host_name`.
pub fn apply_saved_settings(
    state: &mut AppState,
    max_image_size_kb: u32,
    device_name_override: String,
    background_mode_enabled: bool,
    windows_start_on_login: bool,
    dev_mode_enabled: bool,
    host_name: &str,
)
    requires
        old(state).wf(),
    ensures
        final(state).wf(),
        final(state).settings == (AppSettings {
            max_image_size_kb,
            device_name_override,
            background_mode_enabled,
            windows_start_on_login,
            dev_mode_enabled,
            ..old(state).settings
        }),
        final(state).device_name@ == device_name_for(device_name_override@, host_name@),
        *final(state) == (AppState {
            settings: final(state).settings,
            device_name: final(state).device_name,
            ..*old(state)
        }),
{
    state.settings.max_image_size_kb = max_image_size_kb;
    state.settings.device_name_override = device_name_override;
    state.settings.background_mode_enabled = background_mode_enabled;
    state.settings.windows_start_on_login = windows_start_on_login;
    state.settings.dev_mode_enabled = dev_mode_enabled;
    state.device_name = effective_device_name(&state.settings, host_name);
}

} // verus!
