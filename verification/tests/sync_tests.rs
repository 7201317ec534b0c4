use clipsync::hashing::{compute_image_hash, compute_text_hash};
use clipsync::models::{IncomingImage, TransportMessage};
use clipsync::network::record_discovered_device;
use clipsync::state::AppState;
use clipsync::sync::{
    apply_incoming_image, apply_incoming_text, image_send_has_room, image_size_kb, incoming_has_room,
    text_send_has_room, plan_local_image_send_at,
    plan_local_text_send, plan_local_text_send_at, send_targets, sync_allowed, IncomingOutcome,
    LocalSendPlan,
};

fn paired_state() -> AppState {
    let mut s = AppState::default();
    s.device_name = "laptop".into();
    record_discovered_device(&mut s, "phone".into(), "10.0.0.2:10190".into(), 1);
    record_discovered_device(&mut s, "tablet".into(), "10.0.0.3:10190".into(), 1);
    record_discovered_device(&mut s, "laptop-echo".into(), "10.0.0.4:10190".into(), 1);
    s.settings.trusted_peers.insert("phone".into(), "tok-phone".into());
    s.settings.trusted_peers.insert("laptop-echo".into(), "tok-echo".into());
    s
}

#[test]
fn text_goes_to_trusted_discovered_peers_only() {
    let mut s = paired_state();
    let plan = plan_local_text_send_at(&mut s, "hello".into(), 42);
    let hash = compute_text_hash("laptop", "hello");
    match plan {
        LocalSendPlan::Send { payload, targets } => {
            assert_eq!(payload, TransportMessage::SyncText {
                sender_id: "laptop".into(),
                timestamp_ms: 42,
                message_hash: hash,
                text: "hello".into(),
            });
            assert_eq!(targets, vec![("phone".to_string(), "10.0.0.2:10190".to_string(), "tok-phone".to_string())]);
        }
        _ => panic!("expected a send"),
    }
    assert!(s.recent_hashes.contains(&hash));
}

#[test]
fn same_text_twice_is_dropped() {
    let mut s = paired_state();
    let _ = plan_local_text_send_at(&mut s, "again".into(), 1);
    match plan_local_text_send(&mut s, "again".into()) {
        LocalSendPlan::Duplicate { event } => {
            assert_eq!(event, "[FAILED] TEXT_SEND_LOCAL :: duplicate local hash dropped")
        }
        _ => panic!("expected a duplicate"),
    }
    assert_eq!(s.sync_dropped_count, 1);
}

#[test]
fn background_without_background_mode_blocks() {
    let mut s = paired_state();
    s.is_app_foreground = false;
    s.settings.background_mode_enabled = false;
    assert!(!sync_allowed(&s));
    match plan_local_text_send_at(&mut s, "bg".into(), 1) {
        LocalSendPlan::Blocked { event } => {
            assert_eq!(event, "[FAILED] TEXT_SEND_LOCAL :: blocked: sync disabled or backgrounded")
        }
        _ => panic!("expected blocked"),
    }
    assert!(s.recent_hashes.contains(&compute_text_hash("laptop", "bg")));
    s.settings.background_mode_enabled = true;
    assert!(sync_allowed(&s));
    s.sync_enabled = false;
    assert!(!sync_allowed(&s));
}

#[test]
fn send_targets_list() {
    let s = paired_state();
    assert_eq!(send_targets(&s).len(), 1);
}

#[test]
fn oversized_image_is_refused() {
    assert_eq!(image_size_kb(4096), 3);
    assert_eq!(image_size_kb(0), 0);
    let mut s = paired_state();
    s.settings.max_image_size_kb = 1;
    let big = "A".repeat(4096);
    match plan_local_image_send_at(&mut s, "image/png".into(), big, 9) {
        LocalSendPlan::TooLarge { event, error } => {
            assert_eq!(event, "[FAILED] IMAGE_SEND_LOCAL :: image too large (3 KB)");
            assert_eq!(error, "Image exceeds maximum size (3 KB).");
        }
        _ => panic!("expected too large"),
    }
    assert_eq!(s.sync_dropped_count, 1);
    assert!(s.recent_hashes.is_empty());
}

#[test]
fn image_within_limit_is_sent() {
    let mut s = paired_state();
    let data = "QUJD".to_string();
    match plan_local_image_send_at(&mut s, "image/png".into(), data.clone(), 9) {
        LocalSendPlan::Send { payload, targets } => {
            assert_eq!(payload, TransportMessage::SyncImage {
                sender_id: "laptop".into(),
                timestamp_ms: 9,
                message_hash: compute_image_hash("laptop", "image/png", &data),
                mime_type: "image/png".into(),
                image_base64: data,
            });
            assert_eq!(targets.len(), 1);
        }
        _ => panic!("expected a send"),
    }
}

#[test]
fn incoming_text_applied_then_duplicate_then_stale() {
    let mut s = AppState::default();
    let r = apply_incoming_text(&mut s, "phone".into(), 10, 77, "hi".into(), "10.0.0.2");
    assert_eq!(r, IncomingOutcome::Applied);
    assert_eq!(s.pending_remote_text.as_deref(), Some("hi"));
    assert_eq!(s.sync_received_count, 1);
    assert_eq!(s.transport_status.get("phone (10.0.0.2)"), Some(&"authenticated (inbound) + synced text".to_string()));
    let r = apply_incoming_text(&mut s, "phone".into(), 11, 77, "hi".into(), "10.0.0.2");
    assert_eq!(r, IncomingOutcome::Duplicate);
    assert_eq!(s.sync_dropped_count, 1);
    let r = apply_incoming_text(&mut s, "phone".into(), 9, 78, "old".into(), "10.0.0.2");
    assert_eq!(r, IncomingOutcome::Stale);
    assert_eq!(s.sync_rejected_stale_count, 1);
    assert_eq!(s.pending_remote_text.as_deref(), Some("hi"));
}

#[test]
fn incoming_image_is_queued() {
    let mut s = AppState::default();
    let r = apply_incoming_image(&mut s, "phone".into(), 5, 1, "image/png".into(), "QUJD".into(), "10.0.0.2");
    assert_eq!(r, IncomingOutcome::Applied);
    assert_eq!(s.pending_remote_image, Some(IncomingImage { mime_type: "image/png".into(), image_base64: "QUJD".into() }));
    assert_eq!(s.transport_status.get("phone (10.0.0.2)"), Some(&"authenticated (inbound) + synced image".to_string()));
}

#[test]
fn counter_room_checks() {
    let mut s = paired_state();
    assert!(text_send_has_room(&s, "x"));
    s.sync_dropped_count = u64::MAX;
    assert!(text_send_has_room(&s, "x"));
    let _ = plan_local_text_send_at(&mut s, "x".into(), 1);
    assert!(!text_send_has_room(&s, "x"));
    assert!(image_send_has_room(&s, "image/png", "QQ=="));
    s.settings.max_image_size_kb = 0;
    assert!(image_send_has_room(&s, "image/png", "QQ=="));
    assert!(!image_send_has_room(&s, "image/png", &"A".repeat(4096)));
    let t = AppState::default();
    assert!(incoming_has_room(&t, "p", 1, 1));
}

#[test]
fn repeated_text_leaves_cache_and_counts_one_drop() {
    let mut s = paired_state();
    let first = plan_local_text_send_at(&mut s, "same".into(), 5);
    assert!(matches!(first, LocalSendPlan::Send { .. }));
    let hashes = s.recent_hashes.clone();
    let dropped = s.sync_dropped_count;
    s.sync_enabled = false;
    let second = plan_local_text_send_at(&mut s, "same".into(), 6);
    match second {
        LocalSendPlan::Duplicate { event } => {
            assert_eq!(event, "[FAILED] TEXT_SEND_LOCAL :: duplicate local hash dropped")
        }
        _ => panic!("expected a duplicate"),
    }
    assert_eq!(s.recent_hashes, hashes);
    assert_eq!(s.sync_dropped_count, dropped + 1);
}
