//! Device naming and the settings the user saves.
use vstd::prelude::*;

use crate::models::AppSettings;
use crate::text::{concat2, trim_str, trimmed};

verus! {

/// The name a device announces: the trimmed override when it is not empty,
/// otherwise `clipsync-<host name>`.
pub open spec fn device_name_for(override_name: Seq<char>, host_name: Seq<char>) -> Seq<char> {
    if trimmed(override_name).len() == 0 {
        "clipsync-"@ + host_name
    } else {
        trimmed(override_name)
    }
}

/// The name this device announces on the network.
pub fn effective_device_name(settings: &AppSettings, host_name: &str) -> (r: String)
    ensures
        r@ == device_name_for(settings.device_name_override@, host_name@),
{
    let custom = trim_str(settings.device_name_override.as_str());
    if custom.unicode_len() == 0 {
        concat2("clipsync-", host_name)
    } else {
        custom
    }
}

} // verus!
