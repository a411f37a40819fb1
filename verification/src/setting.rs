//! Settings the service keeps in its store: the key that signs session
//! cookies.

use vstd::prelude::*;

verus! {

/// The length in bytes of the cookie signing key.
pub const COOKIE_SESSION_KEY_LEN: usize = 32;

/// Calls `rand::Rng::fill` on `rand::thread_rng()` over the whole buffer.
/// Claimed: the buffer keeps its length. Which bytes it gets is chance.
#[verifier::external_body]
fn fill_random(buf: &mut Vec<u8>)
    ensures
        final(buf)@.len() == old(buf)@.len(),
{
    rand::Rng::fill(&mut rand::thread_rng(), &mut buf[..])
}

/// A fresh random key for signing session cookies, used when the store
/// holds none yet.
pub fn new_cookie_session_key() -> (r: Vec<u8>)
    ensures
        r@.len() == COOKIE_SESSION_KEY_LEN,
{
    let mut key: Vec<u8> = Vec::new();
    let mut i: usize = 0;
    while i < COOKIE_SESSION_KEY_LEN
        invariant
            i <= COOKIE_SESSION_KEY_LEN,
            key@.len() == i,
        decreases COOKIE_SESSION_KEY_LEN - i,
    {
        key.push(0u8);
        i = i + 1;
    }
    fill_random(&mut key);
    key
}

} // verus!
