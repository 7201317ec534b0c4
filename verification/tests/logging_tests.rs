use clipsync::logging::{format_backend_event, log_backend_event_with_state, now_ms, push_diagnostic, timestamp_from_millis};
use clipsync::state::AppState;

#[test]
fn event_line_format() {
    assert_eq!(format_backend_event("INFO", "APP_STARTUP", "ok"), "[INFO] APP_STARTUP :: ok");
    assert_eq!(format_backend_event("", "", ""), "[]  :: ");
}

#[test]
fn diagnostics_keep_newest_120() {
    let mut s = AppState::default();
    for i in 0..125 {
        push_diagnostic(&mut s, format!("e{i}"));
    }
    assert_eq!(s.diagnostic_events.len(), 120);
    assert_eq!(s.diagnostic_events.front().unwrap(), "e5");
    assert_eq!(s.diagnostic_events.back().unwrap(), "e124");
}

#[test]
fn event_with_state_is_recorded_and_returned() {
    let mut s = AppState::default();
    let line = log_backend_event_with_state(&mut s, "FAILED", "PAIRING_REQ", "peer=x connect failed");
    assert_eq!(line, "[FAILED] PAIRING_REQ :: peer=x connect failed");
    assert_eq!(s.diagnostic_events.back().unwrap(), &line);
}

#[test]
fn clock_readings() {
    assert_eq!(timestamp_from_millis(None), 0);
    assert_eq!(timestamp_from_millis(Some(1234)), 1234);
    assert_eq!(timestamp_from_millis(Some((1u128 << 64) + 5)), 5);
    assert!(now_ms() > 1_600_000_000_000);
}
