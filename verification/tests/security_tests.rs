use clipsync::security::{address_host, ip_is_private_or_loopback, should_accept_incoming, IpAddress};
use clipsync::state::AppState;

#[test]
fn newer_timestamp_wins() {
    let mut s = AppState::default();
    assert!(should_accept_incoming(&mut s, "phone", 100));
    assert_eq!(s.last_applied_timestamp_ms, 100);
    assert_eq!(s.last_applied_sender, "phone");
    assert!(should_accept_incoming(&mut s, "laptop", 101));
    assert_eq!(s.last_applied_sender, "laptop");
    assert!(!should_accept_incoming(&mut s, "zeta", 99));
    assert_eq!(s.last_applied_timestamp_ms, 101);
    assert_eq!(s.last_applied_sender, "laptop");
}

#[test]
fn tie_goes_to_greater_sender() {
    let mut s = AppState::default();
    assert!(should_accept_incoming(&mut s, "b", 5));
    assert!(should_accept_incoming(&mut s, "c", 5));
    assert!(!should_accept_incoming(&mut s, "a", 5));
    assert!(!should_accept_incoming(&mut s, "c", 5));
    assert_eq!(s.last_applied_sender, "c");
}

#[test]
fn arrival_order_does_not_matter() {
    let mut x = AppState::default();
    should_accept_incoming(&mut x, "a", 7);
    should_accept_incoming(&mut x, "b", 7);
    let mut y = AppState::default();
    should_accept_incoming(&mut y, "b", 7);
    should_accept_incoming(&mut y, "a", 7);
    assert_eq!(x.last_applied_sender, y.last_applied_sender);
    assert_eq!(x.last_applied_timestamp_ms, y.last_applied_timestamp_ms);
}

#[test]
fn local_addresses_are_recognised() {
    assert!(ip_is_private_or_loopback(&IpAddress::V4([10, 1, 2, 3])));
    assert!(ip_is_private_or_loopback(&IpAddress::V4([172, 16, 0, 1])));
    assert!(ip_is_private_or_loopback(&IpAddress::V4([172, 31, 255, 1])));
    assert!(!ip_is_private_or_loopback(&IpAddress::V4([172, 32, 0, 1])));
    assert!(ip_is_private_or_loopback(&IpAddress::V4([192, 168, 1, 20])));
    assert!(ip_is_private_or_loopback(&IpAddress::V4([127, 0, 0, 1])));
    assert!(ip_is_private_or_loopback(&IpAddress::V4([169, 254, 3, 4])));
    assert!(!ip_is_private_or_loopback(&IpAddress::V4([8, 8, 8, 8])));
    assert!(ip_is_private_or_loopback(&IpAddress::V6([0, 0, 0, 0, 0, 0, 0, 1])));
    assert!(ip_is_private_or_loopback(&IpAddress::V6([0xfd12, 0, 0, 0, 0, 0, 0, 1])));
    assert!(ip_is_private_or_loopback(&IpAddress::V6([0xfe80, 0, 0, 0, 0, 0, 0, 1])));
    assert!(!ip_is_private_or_loopback(&IpAddress::V6([0x2001, 0xdb8, 0, 0, 0, 0, 0, 1])));
}

#[test]
fn host_is_text_before_first_colon() {
    assert_eq!(address_host("192.168.1.5:10190"), "192.168.1.5");
    assert_eq!(address_host("nohost"), "nohost");
    assert_eq!(address_host(":1"), "");
    assert_eq!(address_host("fe80::1:10190"), "fe80");
}
