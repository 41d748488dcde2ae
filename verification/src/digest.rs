//! Content digests.
//!
//! The mirror trusts an artifact exactly when the SHA-256 digest of its
//! bytes, written as lowercase hex, equals the digest the upstream
//! manifest declares.  The digest itself comes from the `sha2` crate and
//! the hex encoding from the `hex` crate; everything downstream speaks of
//! them through `sha256_of` and `spec_hex`.

use vstd::prelude::*;
use sha2::Digest;

verus! {

/// The lowercase hex digit for a nibble value.
pub open spec fn hex_digit(n: int) -> char {
    seq!['0', '1', '2', '3', '4', '5', '6', '7', '8', '9', 'a', 'b', 'c', 'd', 'e', 'f'][n]
}

/// Lowercase hex encoding of a byte sequence: two digits per byte,
/// high nibble first.
pub open spec fn spec_hex(bytes: Seq<u8>) -> Seq<char>
    decreases bytes.len(),
{
    if bytes.len() == 0 {
        Seq::empty()
    } else {
        seq![hex_digit(bytes.first() as int / 16), hex_digit(bytes.first() as int % 16)]
            + spec_hex(bytes.drop_first())
    }
}

pub proof fn lemma_spec_hex_len(bytes: Seq<u8>)
    ensures
        spec_hex(bytes).len() == 2 * bytes.len(),
    decreases bytes.len(),
{
    if bytes.len() > 0 {
        lemma_spec_hex_len(bytes.drop_first());
    }
}

/// The SHA-256 digest of a byte sequence, a function of the bytes alone.
pub uninterp spec fn sha256_of(data: Seq<u8>) -> Seq<u8>;

/// Relies on `hex::encode`: lowercase hex, two digits per byte, high
/// nibble first, in input order.
#[verifier::external_body]
fn hex_encode(bytes: &[u8]) -> (r: String)
    ensures
        r@ == spec_hex(bytes@),
{
    hex::encode(bytes)
}

/// Relies on `sha2::Sha256::digest`: the 32-byte SHA-256 digest of the
/// input, depending on the input bytes alone.
#[verifier::external_body]
fn sha256(data: &[u8]) -> (r: Vec<u8>)
    ensures
        r@ == sha256_of(data@),
        r@.len() == 32,
{
    sha2::Sha256::digest(data).to_vec()
}

/// The digest a mirrored file is checked against: SHA-256 as lowercase hex.
pub open spec fn spec_content_digest(data: Seq<u8>) -> Seq<char> {
    spec_hex(sha256_of(data))
}

/// Computes the SHA-256 digest of `data` as a 64-character lowercase hex
/// string.
pub fn content_digest(data: &[u8]) -> (r: String)
    ensures
        r@ == spec_content_digest(data@),
        r@.len() == 64,
{
    let digest = sha256(data);
    let r = hex_encode(digest.as_slice());
    proof {
        lemma_spec_hex_len(sha256_of(data@));
    }
    r
}

} // verus!
