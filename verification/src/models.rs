//! Settings, wire messages and payloads exchanged between peers.
use vstd::prelude::*;

use crate::name_map::NameMap;

verus! {

/// Settings the user can change; they persist across restarts.
#[derive(Clone)]
pub struct AppSettings {
    /// Largest image, in KB of decoded data, that is sent to peers.
    pub max_image_size_kb: u32,
    /// Pairing code entered by the user.
    pub pairing_code: String,
    /// Peers that were approved, each with the token that authenticates it.
    pub trusted_peers: NameMap<String>,
    /// Name to announce instead of the one derived from the host name.
    pub device_name_override: String,
    /// Whether local clipboard changes are sent while the app is in the background.
    pub background_mode_enabled: bool,
    /// Whether the desktop app starts when the user logs in.
    pub windows_start_on_login: bool,
    /// Whether the user interface shows developer tools.
    pub dev_mode_enabled: bool,
}

/// Default image size limit, in KB.
pub const DEFAULT_MAX_IMAGE_SIZE_KB: u32 = 2048;

impl AppSettings {
    /// The trusted-peer table is well formed.
    pub open spec fn wf(&self) -> bool {
        self.trusted_peers.wf()
    }

    /// The settings of a fresh installation.
    pub open spec fn is_initial(&self) -> bool {
        &&& self.wf()
        &&& self.max_image_size_kb == DEFAULT_MAX_IMAGE_SIZE_KB
        &&& self.pairing_code@ == Seq::<char>::empty()
        &&& self.trusted_peers@ == Map::<Seq<char>, String>::empty()
        &&& self.device_name_override@ == Seq::<char>::empty()
        &&& self.background_mode_enabled
        &&& !self.windows_start_on_login
        &&& !self.dev_mode_enabled
    }
}

impl Default for AppSettings {
    fn default() -> (r: Self)
        ensures
            r.is_initial(),
    {
        AppSettings {
            max_image_size_kb: DEFAULT_MAX_IMAGE_SIZE_KB,
            pairing_code: String::new(),
            trusted_peers: NameMap::new(),
            device_name_override: String::new(),
            background_mode_enabled: true,
            windows_start_on_login: false,
            dev_mode_enabled: false,
        }
    }
}

/// An image received from a peer and waiting to be placed on the clipboard.
#[derive(Clone, Debug, PartialEq, Eq)]
pub struct IncomingImage {
    pub mime_type: String,
    pub image_base64: String,
}

/// The datagram that announces a device on the local network.
#[derive(Clone, Debug, PartialEq, Eq)]
pub struct UdpDiscoveryBeacon {
    pub name: String,
    pub ws_port: u16,
    pub is_reply: bool,
}

/// Messages exchanged over the peer-to-peer transport.
#[derive(Clone, Debug, PartialEq, Eq)]
pub enum TransportMessage {
    /// Asks the receiving device to trust the sender under `token`.
    PairingRequest { device_name: String, token: String },
    /// Answers a pairing request.
    PairingResponse { device_name: String, accepted: bool },
    /// Opens an authenticated session with the token of an earlier pairing.
    Hello { device_name: String, token: String },
    /// Answers a `Hello`.
    HelloAck { device_name: String, accepted: bool, reason: String },
    /// Clipboard text.
    SyncText { sender_id: String, timestamp_ms: u64, message_hash: u64, text: String },
    /// Clipboard image.
    SyncImage {
        sender_id: String,
        timestamp_ms: u64,
        message_hash: u64,
        mime_type: String,
        image_base64: String,
    },
}

} // verus!
