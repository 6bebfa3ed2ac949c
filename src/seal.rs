use vstd::prelude::*;
use vstd::string::StringSliceAdditionalSpecFns;

use crate::error::ContentError;
use crate::kdf::{derived_key, SECRET_LEN};
use crate::nonce::{nonce_of, CounterNonceSequence};

verus! {

/// Length in bytes of the authentication tag that sealing appends.
pub const TAG_LEN: usize = 16;

/// The associated data bound into every tag. It separates this use of the
/// key from any other; sender and receiver must agree on it byte for byte.
pub const ASSOCIATED_DATA: &'static str = "~~ super secret cat pic ( 0 _ 0 ) ~~";

/// The bytes of `ASSOCIATED_DATA`.
pub open spec fn associated_data() -> Seq<u8> {
    ASSOCIATED_DATA.spec_bytes()
}

/// The largest plaintext, in bytes, that AES-GCM seals under one nonce: its
/// 32-bit block counter leaves room for 2^32 - 2 blocks of 16 bytes.
pub open spec fn max_seal_len() -> nat {
    68_719_476_704
}

/// Ciphertext followed by the 16-byte tag that AES-256-GCM gives for `key`,
/// `nonce`, `aad` and `plaintext`.
pub uninterp spec fn aes256gcm_seal(
    key: Seq<u8>,
    nonce: Seq<u8>,
    aad: Seq<u8>,
    plaintext: Seq<u8>,
) -> Seq<u8>;

/// What sealing `plaintext` with `key` and `nonce` leaves in the buffer.
pub open spec fn sealed(key: Seq<u8>, nonce: Seq<u8>, plaintext: Seq<u8>) -> Seq<u8> {
    aes256gcm_seal(key, nonce, associated_data(), plaintext)
}

/// What `encrypt` leaves in the buffer: `plaintext` sealed with the key
/// derived from `secret` and `salt` and the nonce of counter value `counter`.
pub open spec fn encrypted(secret: Seq<u8>, salt: Seq<u8>, counter: u32, plaintext: Seq<u8>) -> Seq<
    u8,
> {
    sealed(derived_key(secret, salt), nonce_of(counter), plaintext)
}

/// Relies on ring::aead: `UnboundKey::new(&AES_256_GCM, key)`, which accepts
/// any 32-byte key, and `LessSafeKey::seal_in_place_append_tag`, which
/// encrypts the buffer in place and appends the 16-byte tag. Sealing fails
/// only when the buffer is longer than `max_seal_len()` bytes, and then
/// before anything is written.
#[verifier::external_body]
fn aes256gcm_seal_in_place(
    key: &[u8; 32],
    nonce: [u8; 12],
    aad: &[u8],
    buffer: &mut Vec<u8>,
) -> (r: Result<(), ring::error::Unspecified>)
    ensures
        r is Ok <==> old(buffer)@.len() <= max_seal_len(),
        r is Ok ==> final(buffer)@ == aes256gcm_seal(key@, nonce@, aad@, old(buffer)@),
        r is Ok ==> final(buffer)@.len() == old(buffer)@.len() + TAG_LEN,
        r is Err ==> final(buffer)@ == old(buffer)@,
{
    let key = ring::aead::UnboundKey::new(&ring::aead::AES_256_GCM, key)?;
    let nonce = ring::aead::Nonce::assume_unique_for_key(nonce);
    let aad = ring::aead::Aad::from(aad);
    ring::aead::LessSafeKey::new(key).seal_in_place_append_tag(nonce, aad, buffer)
}

/// Seals `buffer` in place with AES-256-GCM under `key` and `nonce`: the
/// ciphertext replaces the plaintext and the tag is appended. A buffer too
/// long for one nonce is refused with `SealError` and left as it was.
pub fn seal(buffer: &mut Vec<u8>, key: &[u8; 32], nonce: [u8; 12]) -> (r: Result<(), ContentError>)
    ensures
        old(buffer)@.len() <= max_seal_len() ==> r is Ok && final(buffer)@ == sealed(
            key@,
            nonce@,
            old(buffer)@,
        ) && final(buffer)@.len() == old(buffer)@.len() + TAG_LEN,
        old(buffer)@.len() > max_seal_len() ==> r == Err::<(), ContentError>(
            ContentError::SealError,
        ) && final(buffer)@ == old(buffer)@,
{
    match aes256gcm_seal_in_place(key, nonce, ASSOCIATED_DATA.as_bytes(), buffer) {
        Ok(()) => Ok(()),
        Err(_) => Err(ContentError::SealError),
    }
}

/// Seals `buffer` under `key` with the next nonce of `sequence`, which then
/// moves on by one, so that a key used for several messages never sees the
/// same nonce twice. On failure neither the buffer nor the sequence changes:
/// `NonceExhausted` when the counter cannot advance, `SealError` when the
/// buffer is too long.
pub fn seal_next(buffer: &mut Vec<u8>, key: &[u8; 32], sequence: &mut CounterNonceSequence) -> (r:
    Result<(), ContentError>)
    ensures
        r is Err ==> final(buffer)@ == old(buffer)@ && final(sequence).spec_counter() == old(
            sequence,
        ).spec_counter(),
        r is Ok <==> (old(sequence).spec_counter() < u32::MAX && old(buffer)@.len()
            <= max_seal_len()),
        r is Ok ==> final(buffer)@ == sealed(key@, nonce_of(old(sequence).spec_counter()), old(buffer)@),
        r is Ok ==> final(buffer)@.len() == old(buffer)@.len() + TAG_LEN,
        r is Ok ==> final(sequence).spec_counter() == old(sequence).spec_counter() + 1,
        old(sequence).spec_counter() == u32::MAX ==> r == Err::<(), ContentError>(
            ContentError::NonceExhausted,
        ),
        old(sequence).spec_counter() < u32::MAX && old(buffer)@.len() > max_seal_len() ==> r
            == Err::<(), ContentError>(ContentError::SealError),
{
    if sequence.counter() == u32::MAX {
        return Err(ContentError::NonceExhausted);
    }
    seal(buffer, key, sequence.next())?;
    let _ = sequence.advance();
    Ok(())
}

/// Encrypts `buffer` in place: derives the key from `secret` and `salt`, takes
/// the nonce of counter value `nonce` from a fresh sequence, and seals.
///
/// Fails, leaving the buffer as it was, with `PreconditionError` when the
/// secret is not 32 bytes long, with `NonceExhausted` when the counter cannot
/// advance, and with `SealError` when the buffer is too long to seal.
pub fn encrypt(buffer: &mut Vec<u8>, secret: &[u8], salt: [u8; 16], nonce: u32) -> (r: Result<
    (),
    ContentError,
>)
    ensures
        r is Err ==> final(buffer)@ == old(buffer)@,
        r is Ok <==> (secret@.len() == SECRET_LEN && nonce < u32::MAX && old(buffer)@.len()
            <= max_seal_len()),
        r is Ok ==> final(buffer)@ == encrypted(secret@, salt@, nonce, old(buffer)@),
        r is Ok ==> final(buffer)@.len() == old(buffer)@.len() + TAG_LEN,
        secret@.len() != SECRET_LEN ==> r == Err::<(), ContentError>(
            ContentError::PreconditionError,
        ),
        secret@.len() == SECRET_LEN && nonce == u32::MAX ==> r == Err::<(), ContentError>(
            ContentError::NonceExhausted,
        ),
        secret@.len() == SECRET_LEN && nonce < u32::MAX && old(buffer)@.len() > max_seal_len()
            ==> r == Err::<(), ContentError>(ContentError::SealError),
{
    let key = crate::kdf::derive(secret, &salt)?;
    let mut sequence = CounterNonceSequence::new(nonce);
    seal_next(buffer, &key, &mut sequence)
}

} // verus!
