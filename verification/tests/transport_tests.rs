use clipsync::models::TransportMessage;
use clipsync::network::record_discovered_device;
use clipsync::state::AppState;
use clipsync::sync::IncomingOutcome;
use clipsync::transport::{
    answer_hello, apply_inbound_sync, apply_pairing_response, approve_pairing, begin_pairing_request,
    begin_pairing_request_with_token, handle_inbound_message, handshake_hello, handshake_outcome, hello_ack_accepted,
    pairing_token_from_bytes, payload_label, record_handshake_outcome, record_hello_outcome, record_pairing_request, record_payload_send_outcome, reject_pairing, HandshakeOutcome, SendOutcome,
};

#[test]
fn hello_is_accepted_only_with_trusted_token() {
    let mut s = AppState::default();
    s.device_name = "laptop".into();
    s.settings.trusted_peers.insert("phone".into(), "tok".into());
    let ok = answer_hello(&s, "phone", "tok");
    assert_eq!(ok, TransportMessage::HelloAck { device_name: "laptop".into(), accepted: true, reason: "authenticated".into() });
    assert!(hello_ack_accepted(&ok));
    let bad = answer_hello(&s, "phone", "other");
    assert_eq!(bad, TransportMessage::HelloAck { device_name: "laptop".into(), accepted: false, reason: "token_mismatch".into() });
    assert!(!hello_ack_accepted(&bad));
    assert!(!hello_ack_accepted(&answer_hello(&s, "stranger", "tok")));
    assert!(!hello_ack_accepted(&TransportMessage::PairingResponse { device_name: "x".into(), accepted: true }));
}

#[test]
fn hello_outcome_status() {
    let mut s = AppState::default();
    let line = record_hello_outcome(&mut s, "phone", "10.0.0.2", false);
    assert_eq!(line, "[FAILED] PAIRING_AUTH_INBOUND :: peer=phone (10.0.0.2) auth mismatch");
    assert_eq!(s.transport_status.get("phone (10.0.0.2)"), Some(&"rejected: token mismatch".to_string()));
    let line = record_hello_outcome(&mut s, "phone", "10.0.0.2", true);
    assert_eq!(line, "[SUCCESS] PAIRING_AUTH_INBOUND :: peer=phone (10.0.0.2) authenticated");
    assert_eq!(s.transport_status.get("phone (10.0.0.2)"), Some(&"authenticated (inbound)".to_string()));
}

#[test]
fn pairing_request_then_approval_trusts_the_token() {
    let mut s = AppState::default();
    record_discovered_device(&mut s, "phone".into(), "10.0.0.2:10190".into(), 1);
    let line = record_pairing_request(&mut s, "phone".into(), "tok".into());
    assert_eq!(line, "[INFO] PAIRING_REQUEST_RCVD :: peer=phone requested pairing");
    assert_eq!(approve_pairing(&mut s, "phone"), Ok(Some("10.0.0.2:10190".to_string())));
    assert_eq!(s.settings.trusted_peers.get("phone"), Some(&"tok".to_string()));
    assert!(s.pending_pairing_requests.get("phone").is_none());
    assert_eq!(approve_pairing(&mut s, "phone"), Err("No pending request for this device".to_string()));
    assert!(hello_ack_accepted(&answer_hello(&s, "phone", "tok")));
}

#[test]
fn rejection_forgets_the_request() {
    let mut s = AppState::default();
    record_discovered_device(&mut s, "phone".into(), "10.0.0.2:10190".into(), 1);
    record_pairing_request(&mut s, "phone".into(), "tok".into());
    record_pairing_request(&mut s, "ghost".into(), "tok2".into());
    assert_eq!(reject_pairing(&mut s, "phone"), Some("10.0.0.2:10190".to_string()));
    assert_eq!(reject_pairing(&mut s, "phone"), None);
    assert_eq!(reject_pairing(&mut s, "ghost"), None);
    assert_eq!(s.pending_pairing_requests.len(), 0);
    assert_eq!(s.settings.trusted_peers.len(), 0);
}

#[test]
fn outgoing_request_and_response() {
    let mut s = AppState::default();
    assert_eq!(begin_pairing_request_with_token(&mut s, "phone", "t".into()), Err("Device not found on network".to_string()));
    record_discovered_device(&mut s, "phone".into(), "10.0.0.2:10190".into(), 1);
    assert_eq!(begin_pairing_request_with_token(&mut s, "phone", "t".into()), Ok("10.0.0.2:10190".to_string()));
    let (line, changed) = apply_pairing_response(&mut s, "phone", true);
    assert_eq!(line, "[INFO] PAIRING_RESPONSE_RCVD :: peer=phone pairing accepted=true");
    assert!(changed);
    assert_eq!(s.settings.trusted_peers.get("phone"), Some(&"t".to_string()));
    assert!(s.outgoing_pairing_requests.get("phone").is_none());
    let (_, changed) = apply_pairing_response(&mut s, "phone", true);
    assert!(!changed);
    let (token_addr, token) = begin_pairing_request(&mut s, "phone").unwrap();
    assert_eq!(token_addr, "10.0.0.2:10190");
    assert_eq!(token.len(), 36);
    assert_eq!(token.chars().filter(|c| *c == '-').count(), 4);
    assert_eq!(token.chars().nth(14), Some('4'));
    assert!(matches!(token.chars().nth(19), Some('8' | '9' | 'a' | 'b')));
    let (line, changed) = apply_pairing_response(&mut s, "phone", false);
    assert_eq!(line, "[INFO] PAIRING_RESPONSE_RCVD :: peer=phone pairing accepted=false");
    assert!(!changed);
    assert!(s.outgoing_pairing_requests.get("phone").is_none());
    assert_eq!(s.settings.trusted_peers.get("phone"), Some(&"t".to_string()));
}

#[test]
fn send_outcomes_update_status_and_counters() {
    let mut s = AppState::default();
    let line = record_payload_send_outcome(&mut s, "phone".into(), SendOutcome::ConnectFailed, "text", 5);
    assert_eq!(line.as_deref(), Some("[FAILED] PAYLOAD_SEND :: peer=phone connect failed"));
    assert_eq!(s.transport_status.get("phone"), Some(&"connect failed".to_string()));
    let line = record_payload_send_outcome(&mut s, "phone".into(), SendOutcome::Rejected, "text", 5);
    assert_eq!(line.as_deref(), Some("[FAILED] PAYLOAD_SEND :: rejected: pairing mismatch"));
    assert_eq!(s.transport_status.get("phone"), Some(&"rejected: pairing mismatch".to_string()));
    let line = record_payload_send_outcome(&mut s, "phone".into(), SendOutcome::Sent, "image", 77);
    assert_eq!(line, None);
    assert_eq!(s.transport_status.get("phone"), Some(&"authenticated + sent image".to_string()));
    assert_eq!(s.sync_sent_count, 1);
    assert_eq!(s.last_auth_success_ms, 77);
    let line = record_payload_send_outcome(&mut s, "phone".into(), SendOutcome::HelloEncodeFailed, "text", 5);
    assert_eq!(line.as_deref(), Some("[FAILED] PAYLOAD_SEND :: hello serialization failed"));
    assert_eq!(s.transport_status.get("phone"), Some(&"authenticated + sent image".to_string()));
    let _ = record_payload_send_outcome(&mut s, "phone".into(), SendOutcome::SendFailed, "text", 5);
    assert_eq!(s.transport_status.get("phone"), Some(&"authenticated but send failed".to_string()));
    assert_eq!(s.sync_sent_count, 1);
}

#[test]
fn labels() {
    let text = TransportMessage::SyncText { sender_id: "a".into(), timestamp_ms: 1, message_hash: 2, text: "t".into() };
    assert_eq!(payload_label(&text), "text");
    let hello = TransportMessage::Hello { device_name: "a".into(), token: "b".into() };
    assert_eq!(payload_label(&hello), "payload");
}

#[test]
fn inbound_dispatch() {
    let mut s = AppState::default();
    s.device_name = "laptop".into();
    s.settings.trusted_peers.insert("phone".into(), "tok".into());
    let a = handle_inbound_message(&mut s, TransportMessage::Hello { device_name: "phone".into(), token: "tok".into() }, "10.0.0.2");
    assert!(a.await_sync);
    assert!(!a.save_settings);
    assert_eq!(a.reply, Some(TransportMessage::HelloAck { device_name: "laptop".into(), accepted: true, reason: "authenticated".into() }));
    let r = apply_inbound_sync(&mut s, TransportMessage::SyncText { sender_id: "phone".into(), timestamp_ms: 3, message_hash: 9, text: "x".into() }, "10.0.0.2");
    assert_eq!(r, Some(IncomingOutcome::Applied));
    let r = apply_inbound_sync(&mut s, TransportMessage::Hello { device_name: "x".into(), token: "y".into() }, "10.0.0.2");
    assert_eq!(r, None);
    let b = handle_inbound_message(&mut s, TransportMessage::Hello { device_name: "phone".into(), token: "bad".into() }, "10.0.0.2");
    assert!(!b.await_sync);
    let c = handle_inbound_message(&mut s, TransportMessage::PairingRequest { device_name: "tablet".into(), token: "t2".into() }, "10.0.0.3");
    assert!(c.reply.is_none());
    assert_eq!(s.pending_pairing_requests.get("tablet"), Some(&"t2".to_string()));
    let d = handle_inbound_message(&mut s, TransportMessage::SyncText { sender_id: "p".into(), timestamp_ms: 1, message_hash: 1, text: "t".into() }, "10.0.0.3");
    assert!(d.reply.is_none() && d.log_line.is_none());
}

#[test]
fn outbound_handshake_steps() {
    let mut s = AppState::default();
    s.device_name = "laptop".into();
    assert!(handshake_hello(&s, "phone").is_none());
    s.settings.trusted_peers.insert("phone".into(), "tok".into());
    assert_eq!(
        handshake_hello(&s, "phone"),
        Some(TransportMessage::Hello { device_name: "laptop".into(), token: "tok".into() })
    );

    assert!(matches!(handshake_outcome(None), HandshakeOutcome::AckMissing));
    let ok = TransportMessage::HelloAck { device_name: "phone-x".into(), accepted: true, reason: "authenticated".into() };
    match handshake_outcome(Some(ok)) {
        HandshakeOutcome::Authenticated(name) => assert_eq!(name, "phone-x"),
        _ => panic!("expected authentication"),
    }
    let no = TransportMessage::HelloAck { device_name: "phone".into(), accepted: false, reason: "token_mismatch".into() };
    assert!(matches!(handshake_outcome(Some(no)), HandshakeOutcome::Rejected));
    let other = TransportMessage::PairingResponse { device_name: "phone".into(), accepted: true };
    assert!(matches!(handshake_outcome(Some(other)), HandshakeOutcome::Rejected));

    record_handshake_outcome(&mut s, "phone".into(), HandshakeOutcome::ConnectFailed, 100);
    assert_eq!(s.transport_status.get("phone"), Some(&"connect failed".to_string()));
    assert_eq!(s.last_auth_success_ms, 0);
    record_handshake_outcome(&mut s, "phone".into(), HandshakeOutcome::AckMissing, 200);
    assert_eq!(s.transport_status.get("phone"), Some(&"ack timeout".to_string()));
    record_handshake_outcome(&mut s, "phone".into(), HandshakeOutcome::Rejected, 300);
    assert_eq!(s.transport_status.get("phone"), Some(&"rejected: pairing mismatch".to_string()));
    assert_eq!(s.last_auth_success_ms, 0);
    record_handshake_outcome(&mut s, "phone".into(), HandshakeOutcome::Authenticated("phone-x".into()), 400);
    assert_eq!(s.transport_status.get("phone"), Some(&"authenticated with phone-x".to_string()));
    assert_eq!(s.last_auth_success_ms, 400);
    assert_eq!(s.transport_status.len(), 1);
}

#[test]
fn pairing_token_is_the_v4_uuid_of_the_bytes() {
    let bytes = [0x12, 0x34, 0x56, 0x78, 0x9a, 0xbc, 0xde, 0xf0, 0x12, 0x34, 0x56, 0x78, 0x9a, 0xbc, 0xde, 0xf0];
    assert_eq!(pairing_token_from_bytes(bytes), "12345678-9abc-4ef0-9234-56789abcdef0");
    assert_eq!(pairing_token_from_bytes([0u8; 16]), "00000000-0000-4000-8000-000000000000");
    assert_eq!(pairing_token_from_bytes([0xffu8; 16]), "ffffffff-ffff-4fff-bfff-ffffffffffff");
}

#[test]
fn pairing_request_to_unknown_peer_fails() {
    let mut s = AppState::default();
    let r = begin_pairing_request(&mut s, "ghost");
    assert_eq!(r, Err("Device not found on network".to_string()));
    assert_eq!(s.outgoing_pairing_requests.len(), 0);
}
