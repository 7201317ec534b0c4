//! Conflict policy for incoming payloads and the local-network scoping of peers.
use vstd::prelude::*;

use crate::state::AppState;
use crate::text::{lex_greater, str_greater};

verus! {

/// A payload stamped `(timestamp_ms, sender)` wins over the last applied one
/// `(last_ms, last_sender)`: newer timestamps win, and a tie goes to the
/// sender name that sorts last.
pub open spec fn wins_over(timestamp_ms: u64, sender: Seq<char>, last_ms: u64, last_sender: Seq<char>) -> bool {
    timestamp_ms > last_ms || (timestamp_ms == last_ms && lex_greater(sender, last_sender))
}

/// Decides whether an incoming payload from `sender_id` stamped `timestamp_ms`
/// is applied, and records it as the last applied payload when it is.
pub fn should_accept_incoming(state: &mut AppState, sender_id: &str, timestamp_ms: u64) -> (r: bool)
    ensures
        r == wins_over(
            timestamp_ms,
            sender_id@,
            old(state).last_applied_timestamp_ms,
            old(state).last_applied_sender@,
        ),
        r ==> final(state).last_applied_timestamp_ms == timestamp_ms
            && final(state).last_applied_sender@ == sender_id@,
        !r ==> final(state).last_applied_timestamp_ms == old(state).last_applied_timestamp_ms
            && final(state).last_applied_sender == old(state).last_applied_sender,
        *final(state) == (AppState {
            last_applied_timestamp_ms: final(state).last_applied_timestamp_ms,
            last_applied_sender: final(state).last_applied_sender,
            ..*old(state)
        }),
{
    if timestamp_ms > state.last_applied_timestamp_ms {
        state.last_applied_timestamp_ms = timestamp_ms;
        state.last_applied_sender = sender_id.to_owned();
        return true;
    }
    if timestamp_ms == state.last_applied_timestamp_ms && str_greater(
        sender_id,
        state.last_applied_sender.as_str(),
    ) {
        state.last_applied_sender = sender_id.to_owned();
        return true;
    }
    false
}

/// An IP address as its numeric parts.
#[derive(Clone, Copy, Debug, PartialEq, Eq)]
pub enum IpAddress {
    /// The four octets of an IPv4 address.
    V4([u8; 4]),
    /// The eight 16-bit segments of an IPv6 address.
    V6([u16; 8]),
}

/// Private (10/8, 172.16/12, 192.168/16), loopback (127/8) or link-local (169.254/16).
pub open spec fn ipv4_is_local(o: Seq<u8>) -> bool {
    ||| o[0] == 10
    ||| (o[0] == 172 && 16 <= o[1] && o[1] <= 31)
    ||| (o[0] == 192 && o[1] == 168)
    ||| o[0] == 127
    ||| (o[0] == 169 && o[1] == 254)
}

/// Loopback (::1), unique local (fc00::/7) or unicast link-local (fe80::/10).
pub open spec fn ipv6_is_local(s: Seq<u16>) -> bool {
    ||| (s[0] == 0 && s[1] == 0 && s[2] == 0 && s[3] == 0 && s[4] == 0 && s[5] == 0 && s[6] == 0
        && s[7] == 1)
    ||| (0xfc00 <= s[0] && s[0] <= 0xfdff)
    ||| (0xfe80 <= s[0] && s[0] <= 0xfebf)
}

/// The address belongs to this machine or to the local network.
pub open spec fn ip_is_local(ip: IpAddress) -> bool {
    match ip {
        IpAddress::V4(o) => ipv4_is_local(o@),
        IpAddress::V6(s) => ipv6_is_local(s@),
    }
}

/// Whether a peer at `ip` may be contacted: only private, loopback and
/// link-local addresses are.
pub fn ip_is_private_or_loopback(ip: &IpAddress) -> (r: bool)
    ensures
        r == ip_is_local(*ip),
{
    match ip {
        IpAddress::V4(o) => {
            let a = o[0];
            let b = o[1];
            a == 10 || (a == 172 && 16 <= b && b <= 31) || (a == 192 && b == 168) || a == 127 || (a
                == 169 && b == 254)
        },
        IpAddress::V6(s) => {
            (s[0] == 0 && s[1] == 0 && s[2] == 0 && s[3] == 0 && s[4] == 0 && s[5] == 0 && s[6] == 0
                && s[7] == 1) || (0xfc00 <= s[0] && s[0] <= 0xfdff) || (0xfe80 <= s[0] && s[0]
                <= 0xfebf)
        },
    }
}

/// The part of a `host:port` address before the first `:` (all of it when there is none).
pub open spec fn host_part(addr: Seq<char>) -> Seq<char>
    decreases addr.len(),
{
    if addr.len() == 0 {
        addr
    } else if addr[0] == ':' {
        Seq::<char>::empty()
    } else {
        seq![addr[0]] + host_part(addr.drop_first())
    }
}

proof fn lemma_host_part_prefix(addr: Seq<char>, i: int)
    requires
        0 <= i <= addr.len(),
        forall|k: int| 0 <= k < i ==> addr[k] != ':',
        i == addr.len() || addr[i] == ':',
    ensures
        host_part(addr) == addr.subrange(0, i),
    decreases i,
{
    if i == 0 {
        assert(addr.subrange(0, 0) =~= Seq::<char>::empty());
        if addr.len() == 0 {
            assert(addr =~= Seq::<char>::empty());
        }
    } else {
        lemma_host_part_prefix(addr.drop_first(), i - 1);
        assert(addr.subrange(0, i) =~= seq![addr[0]] + addr.drop_first().subrange(0, i - 1));
    }
}

/// The host of a `host:port` address (as `addr.split(':').next()`).
pub fn address_host(addr: &str) -> (r: String)
    ensures
        r@ == host_part(addr@),
{
    let n = addr.unicode_len();
    let mut i: usize = 0;
    while i < n && addr.get_char(i) != ':'
        invariant
            n == addr@.len(),
            i <= n,
            forall|k: int| 0 <= k < i ==> addr@[k] != ':',
        decreases n - i,
    {
        i = i + 1;
    }
    proof {
        lemma_host_part_prefix(addr@, i as int);
    }
    addr.substring_char(0, i).to_owned()
}

} // verus!
