//! Verified core of a local clipboard synchronisation service: device
//! discovery bookkeeping, pairing and authentication decisions, the
//! loop-prevention hash cache, the conflict policy for incoming clipboard
//! payloads and the runtime status that the user interface shows.
pub mod clipboard;
pub mod hashing;
pub mod laws;
pub mod logging;
pub mod models;
pub mod name_map;
pub mod network;
pub mod security;
pub mod settings;
pub mod sync;
pub mod state;
pub mod status;
pub mod text;
pub mod transport;
