use vstd::prelude::*;

verus! {

/// The ways in which building an encrypted attachment can fail.
#[derive(Debug, Clone, Copy, PartialEq, Eq, Structural)]
pub enum ContentError {
    /// The HKDF extract or expand step reported a failure.
    KeyDerivationError,
    /// The AEAD cipher refused to seal the buffer.
    SealError,
    /// The secret does not have the length of the cipher's key.
    PreconditionError,
    /// The nonce counter cannot advance without overflowing 32 bits.
    NonceExhausted,
}

} // verus!

verus! {

/// ring's error value, which carries no detail.
#[verifier::external_type_specification]
#[verifier::external_body]
pub struct ExUnspecified(ring::error::Unspecified);

} // verus!
