//! The runtime state shared by the discovery, transport and command layers.
use std::collections::VecDeque;

use vstd::prelude::*;

use crate::models::{AppSettings, IncomingImage};
use crate::name_map::NameMap;

verus! {

/// Capacity of the loop-prevention hash cache.
pub const MAX_RECENT_HASHES: usize = 64;

/// Capacity of the diagnostics buffer.
pub const MAX_DIAGNOSTIC_EVENTS: usize = 120;

/// Runtime state of the service.
pub struct AppState {
    pub sync_enabled: bool,
    pub paired: bool,
    /// Discovered peers and their `host:port` transport address.
    pub discovered: NameMap<String>,
    /// When each discovered peer was last seen, in milliseconds since the epoch.
    pub discovered_last_seen_ms: NameMap<u64>,
    /// Last transport outcome per peer label.
    pub transport_status: NameMap<String>,
    pub settings: AppSettings,
    pub device_name: String,
    /// Hashes of recently sent or applied payloads, oldest first.
    pub recent_hashes: VecDeque<u64>,
    pub sync_sent_count: u64,
    pub sync_received_count: u64,
    pub sync_dropped_count: u64,
    pub sync_rejected_stale_count: u64,
    pub pending_remote_text: Option<String>,
    pub pending_remote_image: Option<IncomingImage>,
    /// Timestamp and sender of the last payload accepted from a peer.
    pub last_applied_timestamp_ms: u64,
    pub last_applied_sender: String,
    /// Diagnostic lines, oldest first.
    pub diagnostic_events: VecDeque<String>,
    pub is_app_foreground: bool,
    pub last_visibility_report_ms: u64,
    pub last_auth_success_ms: u64,
    pub stale_peers_pruned: u64,
    /// Pairing requests received from peers, with the token they offered.
    pub pending_pairing_requests: NameMap<String>,
    /// Pairing requests this device sent, with the token it offered.
    pub outgoing_pairing_requests: NameMap<String>,
}

impl AppState {
    /// Invariant kept by every operation of the library.
    pub open spec fn wf(&self) -> bool {
        &&& self.discovered.wf()
        &&& self.discovered_last_seen_ms.wf()
        &&& self.transport_status.wf()
        &&& self.settings.wf()
        &&& self.pending_pairing_requests.wf()
        &&& self.outgoing_pairing_requests.wf()
        &&& self.discovered@.dom() == self.discovered_last_seen_ms@.dom()
        &&& self.recent_hashes@.len() <= MAX_RECENT_HASHES
        &&& self.recent_hashes@.no_duplicates()
        &&& self.diagnostic_events@.len() <= MAX_DIAGNOSTIC_EVENTS
    }

    /// The state of a freshly started service.
    pub open spec fn is_initial(&self) -> bool {
        &&& self.wf()
        &&& self.sync_enabled
        &&& !self.paired
        &&& self.discovered@ == Map::<Seq<char>, String>::empty()
        &&& self.discovered_last_seen_ms@ == Map::<Seq<char>, u64>::empty()
        &&& self.transport_status@ == Map::<Seq<char>, String>::empty()
        &&& self.settings.is_initial()
        &&& self.device_name@ == Seq::<char>::empty()
        &&& self.recent_hashes@ == Seq::<u64>::empty()
        &&& self.sync_sent_count == 0
        &&& self.sync_received_count == 0
        &&& self.sync_dropped_count == 0
        &&& self.sync_rejected_stale_count == 0
        &&& self.pending_remote_text.is_none()
        &&& self.pending_remote_image.is_none()
        &&& self.last_applied_timestamp_ms == 0
        &&& self.last_applied_sender@ == Seq::<char>::empty()
        &&& self.diagnostic_events@ == Seq::<String>::empty()
        &&& self.is_app_foreground
        &&& self.last_visibility_report_ms == 0
        &&& self.last_auth_success_ms == 0
        &&& self.stale_peers_pruned == 0
        &&& self.pending_pairing_requests@ == Map::<Seq<char>, String>::empty()
        &&& self.outgoing_pairing_requests@ == Map::<Seq<char>, String>::empty()
    }
}

impl Default for AppState {
    fn default() -> (r: Self)
        ensures
            r.is_initial(),
    {
        AppState {
            sync_enabled: true,
            paired: false,
            discovered: NameMap::new(),
            discovered_last_seen_ms: NameMap::new(),
            transport_status: NameMap::new(),
            settings: AppSettings::default(),
            device_name: String::new(),
            recent_hashes: VecDeque::new(),
            sync_sent_count: 0,
            sync_received_count: 0,
            sync_dropped_count: 0,
            sync_rejected_stale_count: 0,
            pending_remote_text: None,
            pending_remote_image: None,
            last_applied_timestamp_ms: 0,
            last_applied_sender: String::new(),
            diagnostic_events: VecDeque::new(),
            is_app_foreground: true,
            last_visibility_report_ms: 0,
            last_auth_success_ms: 0,
            stale_peers_pruned: 0,
            pending_pairing_requests: NameMap::new(),
            outgoing_pairing_requests: NameMap::new(),
        }
    }
}

} // verus!
