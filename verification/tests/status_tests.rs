use clipsync::models::AppSettings;
use clipsync::network::{record_discovered_device, set_transport_status};
use clipsync::state::AppState;
use clipsync::status::{
    apply_startup, apply_sync_toggle, apply_tray_sync_toggle, apply_visibility_report,
    build_tray_status_text, count_authenticated, diagnostics_snapshot, status_summary,
    take_pending_remote_image, take_pending_remote_text,
};
use clipsync::models::IncomingImage;

#[test]
fn tray_text() {
    let mut s = AppState::default();
    assert_eq!(build_tray_status_text(&s), "ClipSync | Sync: ON | Discovered: 0 | Authenticated: 0");
    record_discovered_device(&mut s, "phone".into(), "10.0.0.2:1".into(), 1);
    record_discovered_device(&mut s, "tablet".into(), "10.0.0.3:1".into(), 1);
    set_transport_status(&mut s, "phone".into(), "authenticated + sent text".into());
    set_transport_status(&mut s, "tablet".into(), "rejected: pairing mismatch".into());
    s.sync_enabled = false;
    assert_eq!(build_tray_status_text(&s), "ClipSync | Sync: OFF | Discovered: 2 | Authenticated: 1");
    assert_eq!(count_authenticated(&s.transport_status), 1);
}

#[test]
fn tray_toggle_requires_pairing_to_enable() {
    let mut s = AppState::default();
    s.sync_enabled = false;
    let line = apply_tray_sync_toggle(&mut s);
    assert_eq!(line, "[FAILED] SYNC_TOGGLE_TRAY :: blocked: pairing required before enabling sync");
    assert!(!s.sync_enabled);
    s.paired = true;
    assert_eq!(apply_tray_sync_toggle(&mut s), "[SUCCESS] SYNC_TOGGLE_TRAY :: enabled");
    assert!(s.sync_enabled);
    s.paired = false;
    assert_eq!(apply_tray_sync_toggle(&mut s), "[SUCCESS] SYNC_TOGGLE_TRAY :: disabled");
    assert!(!s.sync_enabled);
}

#[test]
fn dashboard_toggle_and_visibility() {
    let mut s = AppState::default();
    assert_eq!(apply_sync_toggle(&mut s, false), Ok("[SUCCESS] SYNC_TOGGLE :: disabled".to_string()));
    assert!(!s.sync_enabled);
    assert_eq!(apply_visibility_report(&mut s, false, 500), "[INFO] APP_VISIBILITY :: background");
    assert!(!s.is_app_foreground);
    assert_eq!(s.last_visibility_report_ms, 500);
    assert_eq!(diagnostics_snapshot(&s), vec![
        "[SUCCESS] SYNC_TOGGLE :: disabled".to_string(),
        "[INFO] APP_VISIBILITY :: background".to_string(),
    ]);
}

#[test]
fn summary() {
    let mut s = AppState::default();
    let sum = status_summary(&s, 1000);
    assert_eq!(sum.status, "searching");
    assert_eq!(sum.last_auth_age_ms, u64::MAX);
    assert_eq!(sum.visibility_report_age_ms, 1000);
    assert!(!sum.paired);
    record_discovered_device(&mut s, "phone".into(), "10.0.0.2:1".into(), 1);
    s.settings.trusted_peers.insert("phone".into(), "t".into());
    s.last_auth_success_ms = 900;
    s.last_visibility_report_ms = 2000;
    let sum = status_summary(&s, 1000);
    assert_eq!(sum.status, "connected");
    assert_eq!(sum.devices, vec!["phone".to_string()]);
    assert_eq!(sum.trusted_peers, vec!["phone".to_string()]);
    assert!(sum.paired);
    assert_eq!(sum.last_auth_age_ms, 100);
    assert_eq!(sum.visibility_report_age_ms, 0);
}

#[test]
fn pending_content_is_handed_out_once() {
    let mut s = AppState::default();
    s.pending_remote_text = Some("x".into());
    assert_eq!(take_pending_remote_text(&mut s), Some("x".to_string()));
    assert_eq!(take_pending_remote_text(&mut s), None);
    s.pending_remote_image = Some(IncomingImage { mime_type: "image/png".into(), image_base64: "QQ==".into() });
    assert!(take_pending_remote_image(&mut s).is_some());
    assert!(take_pending_remote_image(&mut s).is_none());
}

#[test]
fn startup_line() {
    let mut s = AppState::default();
    let line = apply_startup(&mut s, AppSettings::default(), "clipsync-box".into(), 10190, 33);
    assert_eq!(line, "[INFO] APP_STARTUP :: device_name=clipsync-box ws_port=10190");
    assert_eq!(s.device_name, "clipsync-box");
    assert_eq!(s.last_visibility_report_ms, 33);
}

#[test]
fn tray_text_counts_peers_without_last_seen_time() {
    let mut s = AppState::default();
    s.sync_enabled = false;
    s.discovered.insert("a".to_string(), "10.0.0.2:10190".to_string());
    s.transport_status.insert("a".to_string(), "authenticated + sent text".to_string());
    s.transport_status.insert("b".to_string(), "rejected: pairing mismatch".to_string());
    assert_eq!(build_tray_status_text(&s), "ClipSync | Sync: OFF | Discovered: 1 | Authenticated: 1");
    let sum = status_summary(&s, 10);
    assert_eq!(sum.status, "connected");
    assert_eq!(sum.authenticated_peer_count, 1);
}

#[test]
fn dashboard_toggle_requires_pairing_to_enable() {
    let mut s = AppState::default();
    assert_eq!(apply_sync_toggle(&mut s, false), Ok("[SUCCESS] SYNC_TOGGLE :: disabled".to_string()));
    assert!(!s.sync_enabled);
    assert_eq!(
        apply_sync_toggle(&mut s, true),
        Err("[FAILED] SYNC_TOGGLE :: blocked: pairing required before enabling sync".to_string())
    );
    assert!(!s.sync_enabled);
    assert_eq!(
        s.diagnostic_events.back().unwrap(),
        "[FAILED] SYNC_TOGGLE :: blocked: pairing required before enabling sync"
    );
    s.settings.trusted_peers.insert("phone".into(), "tok".into());
    assert_eq!(apply_sync_toggle(&mut s, true), Ok("[SUCCESS] SYNC_TOGGLE :: enabled".to_string()));
    assert!(s.sync_enabled);
}
