use vstd::prelude::*;

use crate::error::ContentError;

verus! {

/// Length in bytes of a secret; it equals the AES-256 key length.
pub const SECRET_LEN: usize = 32;

/// Length in bytes of a salt.
pub const SALT_LEN: usize = 16;

/// Length in bytes of a derived key.
pub const KEY_LEN: usize = 32;

/// The 32 output octets of HKDF-SHA256 over `secret` with `salt` and an
/// empty info string.
pub uninterp spec fn hkdf_sha256_okm(secret: Seq<u8>, salt: Seq<u8>) -> Seq<u8>;

/// The key derived from a secret and a salt.
pub open spec fn derived_key(secret: Seq<u8>, salt: Seq<u8>) -> Seq<u8> {
    hkdf_sha256_okm(secret, salt)
}

/// Relies on ring::hkdf with HKDF_SHA256: `Salt::new(..).extract(secret)`
/// followed by `Prk::expand(&[], HKDF_SHA256)` and `Okm::fill`. The expand step
/// fails only for outputs longer than 255 digests and `fill` only when the
/// buffer length differs from the one asked for; neither happens for one
/// 32-byte digest, so the result is always `Ok`.
#[verifier::external_body]
fn hkdf_sha256(secret: &[u8], salt: &[u8; 16]) -> (r: Result<[u8; 32], ring::error::Unspecified>)
    ensures
        r is Ok,
        r is Ok ==> r->Ok_0@ == hkdf_sha256_okm(secret@, salt@),
{
    let prk = ring::hkdf::Salt::new(ring::hkdf::HKDF_SHA256, salt).extract(secret);
    let mut okm = [0u8; 32];
    prk.expand(&[], ring::hkdf::HKDF_SHA256)?.fill(&mut okm)?;
    Ok(okm)
}

/// Derives the 32-byte AES-256 key for `secret` and `salt`. A secret whose
/// length is not the key length is refused with `PreconditionError`.
pub fn derive(secret: &[u8], salt: &[u8; 16]) -> (r: Result<[u8; 32], ContentError>)
    ensures
        secret@.len() != SECRET_LEN ==> r == Err::<[u8; 32], ContentError>(
            ContentError::PreconditionError,
        ),
        secret@.len() == SECRET_LEN ==> (r matches Ok(k) && k@ == derived_key(secret@, salt@)),
{
    if secret.len() != SECRET_LEN {
        return Err(ContentError::PreconditionError);
    }
    match hkdf_sha256(secret, salt) {
        Ok(k) => Ok(k),
        Err(_) => Err(ContentError::KeyDerivationError),
    }
}

/// Key derivation is a function of its inputs: equal secrets and equal salts
/// give equal keys.
pub proof fn lemma_derive_deterministic(
    secret1: Seq<u8>,
    salt1: Seq<u8>,
    secret2: Seq<u8>,
    salt2: Seq<u8>,
)
    requires
        secret1 == secret2,
        salt1 == salt2,
    ensures
        derived_key(secret1, salt1) == derived_key(secret2, salt2),
{
}

} // verus!
