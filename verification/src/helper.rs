//! The checksum from which addresses are derived.

use sha2::Digest;
use vstd::prelude::*;
use vstd::utf8::is_ascii_chars;

verus! {

/// The SHA-512 digest of a byte sequence.
pub uninterp spec fn sha512_digest(data: Seq<u8>) -> Seq<u8>;

/// `Sha512` of the `sha2` crate, fed `data` whole: the digest is a function
/// of the data alone and is 64 bytes long.
#[verifier::external_body]
fn sha512(data: &[u8]) -> (digest: Vec<u8>)
    ensures
        digest@ == sha512_digest(data@),
        digest@.len() == 64,
{
    let mut hasher = sha2::Sha512::new();
    hasher.update(data);
    hasher.finalize().to_vec()
}

/// The hexadecimal digits in lower case, in order of their value.
pub open spec fn hex_digits() -> Seq<char> {
    seq!['0', '1', '2', '3', '4', '5', '6', '7', '8', '9', 'a', 'b', 'c', 'd', 'e', 'f']
}

/// Bytes written in hexadecimal: two lower-case digits for each byte, the
/// high half first.
pub open spec fn hex_lower(bytes: Seq<u8>) -> Seq<char> {
    Seq::new(
        2 * bytes.len(),
        |i: int|
            if i % 2 == 0 {
                hex_digits()[bytes[i / 2] as int / 16]
            } else {
                hex_digits()[bytes[i / 2] as int % 16]
            },
    )
}

/// `HEXLOWER.encode` of the `data_encoding` crate: the bytes in lower-case
/// hexadecimal.
#[verifier::external_body]
fn encode_hex_lower(bytes: &[u8]) -> (text: String)
    ensures
        text@ == hex_lower(bytes@),
{
    data_encoding::HEXLOWER.encode(bytes)
}

/// The checksum of a byte sequence: its SHA-512 digest in lower-case
/// hexadecimal.
pub open spec fn checksum(data: Seq<u8>) -> Seq<char> {
    hex_lower(sha512_digest(data))
}

/// Hexadecimal text holds ASCII characters only.
pub proof fn lemma_hex_lower_is_ascii(bytes: Seq<u8>)
    ensures
        is_ascii_chars(hex_lower(bytes)),
        hex_lower(bytes).len() == 2 * bytes.len(),
{
    assert forall|i: int| 0 <= i < hex_lower(bytes).len() implies '\0' <= #[trigger] hex_lower(
        bytes,
    )[i] <= '\u{7f}' by {
        let byte = bytes[i / 2];
        assert(0 <= byte as int / 16 < 16);
        assert(0 <= byte as int % 16 < 16);
    }
}

/// Computes the checksum of `data`: 128 hexadecimal digits.
pub fn calculate_checksum(data: &[u8]) -> (text: String)
    ensures
        text@ == checksum(data@),
        text@.len() == 128,
        is_ascii_chars(text@),
{
    let digest = sha512(data);
    proof {
        lemma_hex_lower_is_ascii(digest@);
    }
    encode_hex_lower(digest.as_slice())
}

} // verus!
