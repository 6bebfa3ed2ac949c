use vstd::prelude::*;
use vstd::string::StringExecFns;

verus! {

/// The lowercase hexadecimal digit for `d`, which is below 16.
pub open spec fn hex_digit(d: int) -> char {
    if d < 10 {
        ((48 + d) as u8) as char
    } else {
        ((87 + d) as u8) as char
    }
}

/// Lowercase hexadecimal text for `b`: two digits per byte, high nibble
/// first.
pub open spec fn hex_of(b: Seq<u8>) -> Seq<char> {
    Seq::new(
        2 * b.len(),
        |i: int|
            if i % 2 == 0 {
                hex_digit(b[i / 2] as int / 16)
            } else {
                hex_digit(b[i / 2] as int % 16)
            },
    )
}

/// `b` as text: `0x` followed by its lowercase hexadecimal digits.
pub open spec fn prefixed_hex_of(b: Seq<u8>) -> Seq<char> {
    seq!['0', 'x'] + hex_of(b)
}

/// Relies on hex::encode: two lowercase hexadecimal digits per byte, in
/// order, high nibble first.
#[verifier::external_body]
fn hex_encode(b: &[u8]) -> (r: String)
    ensures
        r@ == hex_of(b@),
{
    hex::encode(b)
}

/// `b` as `0x`-prefixed lowercase hexadecimal text.
pub fn to_prefixed_hex(b: &[u8]) -> (r: String)
    ensures
        r@ == prefixed_hex_of(b@),
        r@.len() == 2 + 2 * b@.len(),
{
    let digits = hex_encode(b);
    let prefix = String::from_str("0x");
    proof {
        reveal_strlit("0x");
    }
    let r = prefix.concat(digits.as_str());
    assert(r@ =~= prefixed_hex_of(b@));
    r
}

} // verus!
