//! Clock readings, backend event lines and the bounded diagnostics buffer.
use std::time::{Duration, SystemTime};

use vstd::prelude::*;

use crate::state::{AppState, MAX_DIAGNOSTIC_EVENTS};
use crate::text::concat3;

verus! {

#[verifier::external_type_specification]
#[verifier::external_body]
pub struct ExSystemTime(SystemTime);

/// Calls `std::time::SystemTime::now`. The reading depends on the clock;
/// nothing is promised of it.
#[verifier::external_body]
fn system_time_now() -> (r: SystemTime) {
    SystemTime::now()
}

/// Calls `SystemTime::duration_since` with `UNIX_EPOCH`, turning the error
/// (a time before the epoch) into `None`. Nothing is promised of the value.
#[verifier::external_body]
fn duration_since_unix_epoch(t: &SystemTime) -> (r: Option<Duration>) {
    t.duration_since(std::time::UNIX_EPOCH).ok()
}

/// Calls `Duration::as_millis`. Durations are opaque here, so nothing is
/// promised of the count.
#[verifier::external_body]
fn duration_as_millis(d: &Duration) -> (r: u128) {
    d.as_millis()
}

/// The timestamp recorded for a clock reading: the milliseconds since the
/// epoch truncated to 64 bits, or 0 when the clock is before the epoch.
pub fn timestamp_from_millis(millis: Option<u128>) -> (r: u64)
    ensures
        r == match millis {
            Some(m) => m as u64,
            None => 0u64,
        },
{
    match millis {
        Some(m) => m as u64,
        None => 0,
    }
}

/// Milliseconds since the Unix epoch, or 0 when the clock is before the epoch.
pub fn now_ms() -> (r: u64) {
    let now = system_time_now();
    let millis = match duration_since_unix_epoch(&now) {
        Some(d) => Some(duration_as_millis(&d)),
        None => None,
    };
    timestamp_from_millis(millis)
}

/// The line `[level] event :: details`.
pub open spec fn backend_event_line(level: Seq<char>, event: Seq<char>, details: Seq<char>) -> Seq<char> {
    "["@ + level + "] "@ + event + " :: "@ + details
}

/// Formats a backend event as `[level] event :: details`.
pub fn format_backend_event(level: &str, event: &str, details: &str) -> (r: String)
    ensures
        r@ == backend_event_line(level@, event@, details@),
{
    let mut r = concat3("[", level, "] ");
    r.append(event);
    r.append(" :: ");
    r.append(details);
    r
}

/// The buffer after appending `x`, dropping the oldest entry past `cap`.
pub open spec fn bounded_push<T>(buffer: Seq<T>, x: T, cap: nat) -> Seq<T> {
    if buffer.len() + 1 > cap {
        buffer.push(x).drop_first()
    } else {
        buffer.push(x)
    }
}

/// Appends a line to the diagnostics buffer, which keeps the newest
/// `MAX_DIAGNOSTIC_EVENTS` lines.
pub fn push_diagnostic(state: &mut AppState, event: String)
    requires
        old(state).wf(),
    ensures
        final(state).wf(),
        final(state).diagnostic_events@ == bounded_push(
            old(state).diagnostic_events@,
            event,
            MAX_DIAGNOSTIC_EVENTS as nat,
        ),
        *final(state) == (AppState { diagnostic_events: final(state).diagnostic_events, ..*old(state) }),
{
    let ghost before = state.diagnostic_events@;
    state.diagnostic_events.push_back(event);
    if state.diagnostic_events.len() > MAX_DIAGNOSTIC_EVENTS {
        state.diagnostic_events.pop_front();
    }
    proof {
        if before.len() + 1 > MAX_DIAGNOSTIC_EVENTS {
            assert(state.diagnostic_events@ =~= before.push(event).drop_first());
        }
    }
}

/// Formats an event, records it in the diagnostics buffer and returns the
/// line for the caller to print on the backend console.
pub fn log_backend_event_with_state(state: &mut AppState, level: &str, event: &str, details: &str) -> (r: String)
    requires
        old(state).wf(),
    ensures
        final(state).wf(),
        r@ == backend_event_line(level@, event@, details@),
        final(state).diagnostic_events@ == bounded_push(
            old(state).diagnostic_events@,
            r,
            MAX_DIAGNOSTIC_EVENTS as nat,
        ),
        *final(state) == (AppState { diagnostic_events: final(state).diagnostic_events, ..*old(state) }),
{
    let message = format_backend_event(level, event, details);
    let line = message.clone();
    push_diagnostic(state, message);
    line
}

} // verus!
