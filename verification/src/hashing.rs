//! Payload hashing and the loop-prevention cache of recent hashes.
use std::collections::hash_map::DefaultHasher;
use std::hash::Hasher;

use vstd::prelude::*;
use vstd::std_specs::hash::DefaultHasherAdditionalSpecFns;
use vstd::utf8::encode_utf8;

use crate::state::{AppState, MAX_RECENT_HASHES};

verus! {

/// The byte writes that hashing a string performs: its UTF-8 bytes,
/// then the `0xff` terminator that keeps string hashes prefix-free.
pub open spec fn str_writes(s: Seq<char>) -> Seq<Seq<u8>> {
    seq![encode_utf8(s), seq![0xffu8]]
}

/// Hash identifying a text payload of `sender`.
pub open spec fn text_hash(sender: Seq<char>, text: Seq<char>) -> u64 {
    DefaultHasher::spec_finish(str_writes(sender) + str_writes(text))
}

/// Hash identifying an image payload of `sender`.
pub open spec fn image_hash(sender: Seq<char>, mime_type: Seq<char>, image_base64: Seq<char>) -> u64 {
    DefaultHasher::spec_finish(str_writes(sender) + str_writes(mime_type) + str_writes(image_base64))
}

/// Feeds `s` to the hasher as `str::hash` does.
fn hash_str(h: &mut DefaultHasher, s: &str)
    ensures
        final(h)@ == old(h)@ + str_writes(s@),
{
    h.write(s.as_bytes());
    let terminator: [u8; 1] = [0xffu8];
    h.write(terminator.as_slice());
    proof {
        assert(terminator@ =~= seq![0xffu8]);
    }
    assert(final(h)@ =~= old(h)@ + str_writes(s@));
}

/// Hash of a text payload, seeded with the sender's name.
pub fn compute_text_hash(sender: &str, text: &str) -> (r: u64)
    ensures
        r == text_hash(sender@, text@),
{
    let mut h = DefaultHasher::new();
    hash_str(&mut h, sender);
    hash_str(&mut h, text);
    assert(h@ =~= str_writes(sender@) + str_writes(text@));
    h.finish()
}

/// Hash of an image payload, seeded with the sender's name.
pub fn compute_image_hash(sender: &str, mime_type: &str, image_base64: &str) -> (r: u64)
    ensures
        r == image_hash(sender@, mime_type@, image_base64@),
{
    let mut h = DefaultHasher::new();
    hash_str(&mut h, sender);
    hash_str(&mut h, mime_type);
    hash_str(&mut h, image_base64);
    assert(h@ =~= str_writes(sender@) + str_writes(mime_type@) + str_writes(image_base64@));
    h.finish()
}

/// The cache after remembering `hash`: unchanged if present, otherwise the hash is
/// appended and, past capacity, the oldest entry is evicted.
pub open spec fn remembered(cache: Seq<u64>, hash: u64) -> Seq<u64> {
    if cache.contains(hash) {
        cache
    } else if cache.len() + 1 > MAX_RECENT_HASHES {
        cache.push(hash).drop_first()
    } else {
        cache.push(hash)
    }
}

/// Whether `hash` is in the loop-prevention cache.
pub fn recent_hash_seen(state: &AppState, hash: u64) -> (r: bool)
    ensures
        r == state.recent_hashes@.contains(hash),
{
    let n = state.recent_hashes.len();
    let mut i: usize = 0;
    while i < n
        invariant
            n == state.recent_hashes@.len(),
            i <= n,
            forall|j: int| 0 <= j < i ==> state.recent_hashes@[j] != hash,
        decreases n - i,
    {
        if state.recent_hashes[i] == hash {
            return true;
        }
        i = i + 1;
    }
    false
}

/// Adds `hash` to the loop-prevention cache.
pub fn remember_hash(state: &mut AppState, hash: u64)
    requires
        old(state).wf(),
    ensures
        final(state).wf(),
        final(state).recent_hashes@ == remembered(old(state).recent_hashes@, hash),
        final(state).recent_hashes@.contains(hash),
        *final(state) == (AppState { recent_hashes: final(state).recent_hashes, ..*old(state) }),
{
    if recent_hash_seen(state, hash) {
        return;
    }
    let ghost before = state.recent_hashes@;
    state.recent_hashes.push_back(hash);
    if state.recent_hashes.len() > MAX_RECENT_HASHES {
        state.recent_hashes.pop_front();
    }
    proof {
        let after = state.recent_hashes@;
        assert(before.push(hash).no_duplicates());
        if before.len() + 1 > MAX_RECENT_HASHES {
            assert(after =~= before.push(hash).drop_first());
            assert(after[after.len() - 1] == hash);
        }
        assert(after.contains(hash)) by {
            assert(after[after.len() - 1] == hash);
        }
    }
}

} // verus!
