use std::collections::hash_map::DefaultHasher;
use std::hash::{Hash, Hasher};

use clipsync::hashing::{compute_image_hash, compute_text_hash, remember_hash};
use clipsync::state::AppState;

#[test]
fn text_hash_is_deterministic_and_sender_seeded() {
    let a = compute_text_hash("laptop", "hello");
    let b = compute_text_hash("laptop", "hello");
    let c = compute_text_hash("phone", "hello");
    assert_eq!(a, b);
    assert_ne!(a, c);
}

#[test]
fn remember_hash_keeps_newest_64() {
    let mut s = AppState::default();
    for h in 0..70u64 {
        remember_hash(&mut s, h);
    }
    assert_eq!(s.recent_hashes.len(), 64);
    assert_eq!(s.recent_hashes.front(), Some(&6));
    assert_eq!(s.recent_hashes.back(), Some(&69));
    remember_hash(&mut s, 30);
    assert_eq!(s.recent_hashes.len(), 64);
    assert_eq!(s.recent_hashes.back(), Some(&69));
    let _ = compute_image_hash("a", "image/png", "AAAA");
}

#[test]
fn hashes_equal_hashing_the_strings_in_order() {
    let mut h = DefaultHasher::new();
    "laptop".hash(&mut h);
    "hello world".hash(&mut h);
    assert_eq!(compute_text_hash("laptop", "hello world"), h.finish());
    let mut h = DefaultHasher::new();
    "phone".hash(&mut h);
    "image/png".hash(&mut h);
    "iVBORw0KGgo=".hash(&mut h);
    assert_eq!(compute_image_hash("phone", "image/png", "iVBORw0KGgo="), h.finish());
}
