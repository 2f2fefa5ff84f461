//! The SHA-256 digest of a run of bytes, in hexadecimal.

use sha2::Digest;
use vstd::prelude::*;
use vstd::slice::*;

use crate::ids;
use crate::text;

verus! {

/// The SHA-256 digest of some bytes.
pub uninterp spec fn sha256(bytes: Seq<u8>) -> Seq<u8>;

/// Two lower-case hexadecimal digits for each byte, the high one first.
pub open spec fn hex_text(bytes: Seq<u8>) -> Seq<char> {
    Seq::new(
        2 * bytes.len(),
        |i: int|
            if i % 2 == 0 {
                text::hex_digit(bytes[i / 2] as int / 16)
            } else {
                text::hex_digit(bytes[i / 2] as int % 16)
            },
    )
}

/// `Sha256::digest`: the digest of the bytes, which is 32 bytes long. What it is on given
/// bytes is left to the algorithm.
#[verifier::external_body]
fn sha256_of(bytes: &[u8]) -> (r: Vec<u8>)
    ensures
        r@ == sha256(bytes@),
        r@.len() == 32,
{
    sha2::Sha256::digest(bytes).to_vec()
}

/// `hex::encode`: two lower-case hexadecimal digits for each byte.
#[verifier::external_body]
fn hex_of(bytes: &Vec<u8>) -> (r: String)
    requires
        bytes@.len() <= 32,
    ensures
        r@ == hex_text(bytes@),
{
    hex::encode(bytes)
}

/// The SHA-256 digest of some bytes, as text.
pub open spec fn sha256_text(bytes: Seq<u8>) -> Seq<char> {
    hex_text(sha256(bytes))
}

/// The SHA-256 digest of some bytes, as text.
pub fn sha256_hex(bytes: &Vec<u8>) -> (r: String)
    ensures
        r@ == sha256_text(bytes@),
        r@.len() == 64,
{
    hex_of(&sha256_of(bytes.as_slice()))
}

/// The text of some bytes has two lower-case digits for each, which denote that byte, the high
/// digit first.
pub proof fn law_hex_texts_denote_their_bytes(bytes: Seq<u8>, i: int)
    requires
        0 <= i < bytes.len(),
    ensures
        hex_text(bytes).len() == 2 * bytes.len(),
        text::is_lower_hex(hex_text(bytes)[2 * i]),
        text::is_lower_hex(hex_text(bytes)[2 * i + 1]),
        ids::hex_value(hex_text(bytes)[2 * i])->0 * 16 + ids::hex_value(
            hex_text(bytes)[2 * i + 1],
        )->0 == bytes[i],
{
    let b = bytes[i] as int;
    assert(hex_text(bytes)[2 * i] == text::hex_digit(b / 16));
    assert(hex_text(bytes)[2 * i + 1] == text::hex_digit(b % 16));
    assert(b / 16 * 16 + b % 16 == b);
}

/// Two runs of bytes have the same text exactly where they have the same digest.
pub proof fn law_digests_are_told_apart(a: Seq<u8>, b: Seq<u8>)
    ensures
        sha256_text(a) == sha256_text(b) <==> sha256(a) == sha256(b),
        sha256_text(a) == hex_text(sha256(a)),
{
    let x = sha256(a);
    let y = sha256(b);
    if hex_text(x) == hex_text(y) {
        assert(hex_text(x).len() == 2 * x.len());
        assert(hex_text(y).len() == 2 * y.len());
        assert forall|i: int| 0 <= i < x.len() implies x[i] == y[i] by {
            law_hex_texts_denote_their_bytes(x, i);
            law_hex_texts_denote_their_bytes(y, i);
        }
        assert(x =~= y);
    }
}

} // verus!
