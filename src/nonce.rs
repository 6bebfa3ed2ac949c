use vstd::prelude::*;

use crate::error::ContentError;

verus! {

/// Length in bytes of an AES-GCM nonce.
pub const NONCE_LEN: usize = 12;

/// The nonce for counter value `c`: eight zero bytes, then `c` in big-endian
/// order.
pub open spec fn nonce_of(c: u32) -> Seq<u8> {
    seq![
        0u8, 0u8, 0u8, 0u8, 0u8, 0u8, 0u8, 0u8,
        (c / 0x100_0000) as u8,
        ((c / 0x1_0000) % 0x100) as u8,
        ((c / 0x100) % 0x100) as u8,
        (c % 0x100) as u8,
    ]
}

/// The 96-bit nonce for a counter value.
pub fn nonce_bytes(c: u32) -> (r: [u8; 12])
    ensures
        r@ == nonce_of(c),
{
    let r: [u8; 12] = [
        0u8, 0u8, 0u8, 0u8, 0u8, 0u8, 0u8, 0u8,
        (c / 0x100_0000) as u8,
        ((c / 0x1_0000) % 0x100) as u8,
        ((c / 0x100) % 0x100) as u8,
        (c % 0x100) as u8,
    ];
    assert(r@ =~= nonce_of(c));
    r
}

/// The counter value that the last four bytes of a nonce hold, big-endian.
pub open spec fn counter_of(n: Seq<u8>) -> int {
    n[8] as int * 0x100_0000 + n[9] as int * 0x1_0000 + n[10] as int * 0x100 + n[11] as int
}

/// A nonce gives back the counter value it was built from, so distinct
/// counter values never share a nonce.
pub proof fn lemma_nonce_injective(c1: u32, c2: u32)
    ensures
        counter_of(nonce_of(c1)) == c1,
        nonce_of(c1).len() == NONCE_LEN,
        c1 != c2 ==> nonce_of(c1) != nonce_of(c2),
{
    lemma_counter_of_nonce(c1);
    lemma_counter_of_nonce(c2);
}

proof fn lemma_counter_of_nonce(c: u32)
    ensures
        counter_of(nonce_of(c)) == c,
{
    let n = nonce_of(c);
    assert(n[8] as int == c / 0x100_0000);
    assert(n[9] as int == (c / 0x1_0000) % 0x100);
    assert(n[10] as int == (c / 0x100) % 0x100);
    assert(n[11] as int == c % 0x100);
    assert(c as int == (c / 0x100_0000) * 0x100_0000 + ((c / 0x1_0000) % 0x100) * 0x1_0000 + ((c
        / 0x100) % 0x100) * 0x100 + c % 0x100) by (nonlinear_arith);
}

/// A sequence of nonces for one key, each built from a 32-bit counter that
/// goes up by one with every nonce handed out.
pub struct CounterNonceSequence {
    counter: u32,
}

impl CounterNonceSequence {
    /// The value of the counter that the next nonce is built from.
    pub closed spec fn spec_counter(&self) -> u32 {
        self.counter
    }

    /// A sequence whose first nonce is built from `start`.
    pub fn new(start: u32) -> (r: Self)
        ensures
            r.spec_counter() == start,
    {
        CounterNonceSequence { counter: start }
    }

    /// The current counter value.
    pub fn counter(&self) -> (r: u32)
        ensures
            r == self.spec_counter(),
    {
        self.counter
    }

    /// The nonce for the current counter value; the counter is left as it is.
    pub fn next(&self) -> (r: [u8; 12])
        ensures
            r@ == nonce_of(self.spec_counter()),
    {
        nonce_bytes(self.counter)
    }

    /// Hands out the nonce for the current counter value and moves the
    /// counter on by one. Where the counter cannot move on without leaving
    /// 32 bits, fails with `NonceExhausted` and changes nothing.
    pub fn advance(&mut self) -> (r: Result<[u8; 12], ContentError>)
        ensures
            old(self).spec_counter() < u32::MAX ==> (r matches Ok(n) && n@ == nonce_of(
                old(self).spec_counter(),
            ) && final(self).spec_counter() == old(self).spec_counter() + 1),
            old(self).spec_counter() == u32::MAX ==> r == Err::<[u8; 12], ContentError>(
                ContentError::NonceExhausted,
            ) && final(self).spec_counter() == old(self).spec_counter(),
    {
        if self.counter == u32::MAX {
            return Err(ContentError::NonceExhausted);
        }
        let n = nonce_bytes(self.counter);
        self.counter = self.counter + 1;
        Ok(n)
    }
}

} // verus!
