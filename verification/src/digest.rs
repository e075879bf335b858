//! SHA-256 digests and their lowercase hexadecimal text.

use sha2::{Digest, Sha256};
use vstd::prelude::*;

verus! {

/// The SHA-256 digest of a byte string.
pub uninterp spec fn sha256(data: Seq<u8>) -> Seq<u8>;

/// Calls `sha2::Sha256::digest`. The contract names the digest `sha256(data)` and
/// claims that it is 32 bytes long, as the algorithm's output size fixes it.
#[verifier::external_body]
pub(crate) fn sha256_digest(data: &[u8]) -> (out: Vec<u8>)
    ensures
        out@ == sha256(data@),
        out@.len() == 32,
{
    Sha256::digest(data).to_vec()
}

/// The sixteen lowercase hexadecimal digits, in order of value.
pub open spec fn hex_digits() -> Seq<char> {
    seq!['0', '1', '2', '3', '4', '5', '6', '7', '8', '9', 'a', 'b', 'c', 'd', 'e', 'f']
}

/// Whether `c` is one of `0-9` or `a-f`.
pub open spec fn is_lower_hex(c: char) -> bool {
    hex_digits().contains(c)
}

/// The character at position `i` of the hexadecimal text of `bytes`: the high
/// half of a byte at even positions, the low half at odd ones.
pub open spec fn hex_char_at(bytes: Seq<u8>, i: int) -> char {
    if i % 2 == 0 {
        hex_digits()[bytes[i / 2] as int / 16]
    } else {
        hex_digits()[bytes[i / 2] as int % 16]
    }
}

/// The lowercase hexadecimal text of `bytes`, two digits per byte.
pub open spec fn hex_encoding(bytes: Seq<u8>) -> Seq<char> {
    Seq::new(2 * bytes.len(), |i: int| hex_char_at(bytes, i))
}

/// Calls `hex::encode`. The contract claims what the crate documents: two
/// lowercase digits per byte, high half first.
#[verifier::external_body]
pub(crate) fn hex_lower(data: &[u8]) -> (text: String)
    ensures
        text@ == hex_encoding(data@),
{
    hex::encode(data)
}

/// Hexadecimal text is twice as long as the bytes and holds lowercase digits only.
pub proof fn lemma_hex_encoding_shape(bytes: Seq<u8>)
    ensures
        hex_encoding(bytes).len() == 2 * bytes.len(),
        forall|i: int| 0 <= i < hex_encoding(bytes).len() ==> is_lower_hex(#[trigger] hex_encoding(bytes)[i]),
{
    assert forall|i: int| 0 <= i < hex_encoding(bytes).len() implies is_lower_hex(
        #[trigger] hex_encoding(bytes)[i],
    ) by {
        let b = bytes[i / 2] as int;
        let d = if i % 2 == 0 { b / 16 } else { b % 16 };
        assert(0 <= d < 16);
        assert(hex_encoding(bytes)[i] == hex_digits()[d]);
    }
}

/// The hexadecimal text of the SHA-256 digest of `data`.
pub open spec fn sha256_hex(data: Seq<u8>) -> Seq<char> {
    hex_encoding(sha256(data))
}

/// Computes the SHA-256 digest of `data` as lowercase hexadecimal text.
pub fn sha256_hex_of(data: &[u8]) -> (text: String)
    ensures
        text@ == sha256_hex(data@),
        text@.len() == 64,
{
    let digest = sha256_digest(data);
    hex_lower(digest.as_slice())
}

} // verus!
