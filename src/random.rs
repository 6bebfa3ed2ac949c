use vstd::prelude::*;

use crate::kdf::SECRET_LEN;

verus! {

/// Relies on rand::fill: every byte of `buf` is overwritten from the
/// thread-local cryptographically secure generator; nothing is promised of
/// the values, and the length stays.
#[verifier::external_body]
fn fill_random(buf: &mut [u8])
    ensures
        final(buf)@.len() == old(buf)@.len(),
{
    rand::fill(buf)
}

/// A fresh random secret of `SECRET_LEN` bytes, the AES-256 key length.
pub fn new_secret() -> (r: Vec<u8>)
    ensures
        r@.len() == SECRET_LEN,
{
    let mut key = vec![0u8; SECRET_LEN];
    fill_random(key.as_mut_slice());
    key
}

/// A fresh random 16-byte salt.
pub fn new_salt() -> (r: [u8; 16])
    ensures
        r@.len() == 16,
{
    let mut salt = [0u8; 16];
    fill_random(&mut salt);
    salt
}

} // verus!
