use clipsync::models::UdpDiscoveryBeacon;
use clipsync::network::{
    format_socket_address, handle_resolved_service, handle_udp_beacon, handshake_targets,
    prune_has_room, prune_stale_peers, record_discovered_device, screen_handshake_peer, set_transport_status,
    upsert_discovered_device,
};
use clipsync::security::IpAddress;
use clipsync::state::AppState;

#[test]
fn discovery_records_address_and_time() {
    let mut s = AppState::default();
    record_discovered_device(&mut s, "phone".into(), "192.168.1.5:10190".into(), 1000);
    assert_eq!(s.discovered.get("phone"), Some(&"192.168.1.5:10190".to_string()));
    assert_eq!(s.discovered_last_seen_ms.get("phone"), Some(&1000));
    record_discovered_device(&mut s, "phone".into(), "192.168.1.6:10190".into(), 2000);
    assert_eq!(s.discovered.len(), 1);
    assert_eq!(s.discovered.get("phone"), Some(&"192.168.1.6:10190".to_string()));
    upsert_discovered_device(&mut s, "tablet".into(), "10.0.0.2:10190".into());
    assert_eq!(s.discovered.len(), 2);
    assert!(*s.discovered_last_seen_ms.get("tablet").unwrap() > 0);
}

#[test]
fn transport_status_is_per_peer() {
    let mut s = AppState::default();
    set_transport_status(&mut s, "phone".into(), "connect failed".into());
    set_transport_status(&mut s, "phone".into(), "authenticated + sent text".into());
    assert_eq!(s.transport_status.len(), 1);
    assert_eq!(s.transport_status.get("phone"), Some(&"authenticated + sent text".to_string()));
}

#[test]
fn stale_peers_are_pruned_after_ttl() {
    let mut s = AppState::default();
    record_discovered_device(&mut s, "old".into(), "10.0.0.1:1".into(), 1_000);
    record_discovered_device(&mut s, "edge".into(), "10.0.0.2:1".into(), 20_000);
    record_discovered_device(&mut s, "new".into(), "10.0.0.3:1".into(), 45_000);
    set_transport_status(&mut s, "old".into(), "authenticated".into());
    set_transport_status(&mut s, "new".into(), "ack timeout".into());
    let events = prune_stale_peers(&mut s, 50_000);
    assert_eq!(events, vec!["[INFO] PEER_PRUNED :: peer=old".to_string()]);
    assert_eq!(s.stale_peers_pruned, 1);
    assert!(s.discovered.get("old").is_none());
    assert!(s.discovered_last_seen_ms.get("old").is_none());
    assert!(s.transport_status.get("old").is_none());
    assert!(s.discovered.get("edge").is_some());
    assert!(s.transport_status.get("new").is_some());
    assert_eq!(s.diagnostic_events.back().unwrap(), "[INFO] PEER_PRUNED :: peer=old");
    let more = prune_stale_peers(&mut s, 50_001);
    assert_eq!(more, vec!["[INFO] PEER_PRUNED :: peer=edge".to_string()]);
    assert_eq!(s.stale_peers_pruned, 2);
    assert_eq!(s.discovered.len(), 1);
}

#[test]
fn handshake_skips_own_entries() {
    let mut s = AppState::default();
    s.device_name = "clipsync-box".into();
    record_discovered_device(&mut s, "clipsync-box._clipsync._tcp.local.".into(), "10.0.0.1:1".into(), 1);
    record_discovered_device(&mut s, "phone".into(), "10.0.0.2:1".into(), 1);
    let t = handshake_targets(&s);
    assert_eq!(t, vec![("phone".to_string(), "10.0.0.2:1".to_string())]);
}

#[test]
fn udp_beacons_are_recorded_and_answered() {
    let mut s = AppState::default();
    let own = UdpDiscoveryBeacon { name: "me".into(), ws_port: 10190, is_reply: false };
    assert_eq!(handle_udp_beacon(&mut s, own, "10.0.0.9", "me", 10190, 5), None);
    assert_eq!(s.discovered.len(), 0);
    let hello = UdpDiscoveryBeacon { name: "phone".into(), ws_port: 4000, is_reply: false };
    let reply = handle_udp_beacon(&mut s, hello, "10.0.0.7", "me", 10190, 5);
    assert_eq!(reply, Some(UdpDiscoveryBeacon { name: "me".into(), ws_port: 10190, is_reply: true }));
    assert_eq!(s.discovered.get("phone"), Some(&"10.0.0.7:4000".to_string()));
    let answer = UdpDiscoveryBeacon { name: "tablet".into(), ws_port: 4001, is_reply: true };
    assert_eq!(handle_udp_beacon(&mut s, answer, "10.0.0.8", "me", 10190, 6), None);
    assert_eq!(s.discovered.get("tablet"), Some(&"10.0.0.8:4001".to_string()));
}

#[test]
fn mdns_services_are_recorded() {
    let mut s = AppState::default();
    assert!(!handle_resolved_service(&mut s, "me._clipsync._tcp.local.".into(), Some("10.0.0.1".into()), 10190, "me", 1));
    assert!(!handle_resolved_service(&mut s, "phone._clipsync._tcp.local.".into(), None, 10190, "me", 1));
    assert_eq!(s.discovered.len(), 0);
    assert!(handle_resolved_service(&mut s, "phone._clipsync._tcp.local.".into(), Some("10.0.0.2".into()), 10190, "me", 1));
    assert_eq!(s.discovered.get("phone._clipsync._tcp.local."), Some(&"10.0.0.2:10190".to_string()));
    assert_eq!(format_socket_address("::1", 80), "::1:80");
}

#[test]
fn only_local_peers_are_contacted() {
    let mut s = AppState::default();
    assert!(screen_handshake_peer(&mut s, "lan".into(), Some(IpAddress::V4([192, 168, 0, 4]))));
    assert!(s.transport_status.get("lan").is_none());
    assert!(!screen_handshake_peer(&mut s, "wan".into(), Some(IpAddress::V4([8, 8, 4, 4]))));
    assert_eq!(s.transport_status.get("wan"), Some(&"skipped: non-local address".to_string()));
    assert!(!screen_handshake_peer(&mut s, "named".into(), None));
    assert_eq!(s.transport_status.get("named"), Some(&"skipped: non-local address".to_string()));
}

#[test]
fn prune_room_counts_stale_peers() {
    let mut s = AppState::default();
    record_discovered_device(&mut s, "old".into(), "10.0.0.1:1".into(), 1_000);
    record_discovered_device(&mut s, "older".into(), "10.0.0.2:1".into(), 500);
    record_discovered_device(&mut s, "new".into(), "10.0.0.3:1".into(), 45_000);
    assert!(prune_has_room(&s, 50_000));
    s.stale_peers_pruned = u64::MAX - 2;
    assert!(prune_has_room(&s, 50_000));
    s.stale_peers_pruned = u64::MAX - 1;
    assert!(!prune_has_room(&s, 50_000));
    assert!(prune_has_room(&s, 31_000));
    s.stale_peers_pruned = u64::MAX;
    assert!(prune_has_room(&s, 30_000));
    assert!(!prune_has_room(&s, 31_000));
}
