//! Standard base64, CRC32 and SHA-256, and their lowercase hexadecimal
//! renderings.
//!
//! The transforms themselves come from the `base64`, `crc32fast` and `sha2`
//! crates; their results are named here and carried through the library's
//! contracts.

use vstd::prelude::*;
use vstd::string::StringSliceAdditionalSpecFns;
use base64::Engine as _;
use base64::engine::general_purpose::STANDARD as BASE64_STANDARD;
use sha2::Digest as _;
use crate::text::{
    hex_fixed, hex_of_bytes, hex_of_byte_slice, is_lower_hex_digit, lemma_hex_fixed_shape,
    lemma_hex_of_bytes_shape, push_hex_fixed,
};

verus! {

/// Result of decoding `text` as standard (RFC 4648, padded) base64: the bytes,
/// or the text of the decoder's error.
pub uninterp spec fn base64_decode_text(text: Seq<char>) -> Result<Seq<u8>, Seq<char>>;

/// Standard (RFC 4648, padded) base64 encoding of `bytes`.
pub uninterp spec fn base64_encode_bytes(bytes: Seq<u8>) -> Seq<char>;

/// `text` decodes as standard base64 to exactly `bytes`.
pub open spec fn decodes_to(text: Seq<char>, bytes: Seq<u8>) -> bool {
    base64_decode_text(text) == Ok::<Seq<u8>, Seq<char>>(bytes)
}

/// The CRC-32 (IEEE) checksum of `bytes`.
pub uninterp spec fn crc32_of(bytes: Seq<u8>) -> u32;

/// The SHA-256 digest of `bytes`.
pub uninterp spec fn sha256_of(bytes: Seq<u8>) -> Seq<u8>;

/// Decodes standard base64 with `base64::engine::general_purpose::STANDARD`
/// (`Engine::decode`). The contract states that the outcome, bytes or error
/// text, is `base64_decode_text` of the input characters.
#[verifier::external_body]
pub(crate) fn b64_decode(text: &str) -> (r: Result<Vec<u8>, String>)
    ensures
        base64_decode_text(text@) == (match r {
            Ok(bytes) => Ok(bytes@),
            Err(msg) => Err(msg@),
        }),
{
    match BASE64_STANDARD.decode(text) {
        Ok(bytes) => Ok(bytes),
        Err(e) => Err(e.to_string()),
    }
}

/// Encodes bytes as standard base64 with `base64::engine::general_purpose::STANDARD`
/// (`Engine::encode`). The contract states that the result is
/// `base64_encode_bytes` of the input, and that decoding it with the same
/// engine gives the input back (the engine's documented round trip).
#[verifier::external_body]
pub(crate) fn b64_encode(bytes: &[u8]) -> (encoded: String)
    ensures
        encoded@ == base64_encode_bytes(bytes@),
        decodes_to(encoded@, bytes@),
{
    BASE64_STANDARD.encode(bytes)
}

/// Computes `crc32fast::hash`. The contract states that the result is
/// `crc32_of` of the input bytes.
#[verifier::external_body]
pub(crate) fn crc32_hash(bytes: &[u8]) -> (crc: u32)
    ensures
        crc == crc32_of(bytes@),
{
    crc32fast::hash(bytes)
}

/// Computes `sha2::Sha256::digest`. The contract states that the result is
/// `sha256_of` of the input bytes, and that it is 32 bytes long.
#[verifier::external_body]
pub(crate) fn sha256_digest(bytes: &[u8]) -> (digest: Vec<u8>)
    ensures
        digest@ == sha256_of(bytes@),
        digest@.len() == 32,
{
    sha2::Sha256::digest(bytes).to_vec()
}

/// The CRC-32 of a string's UTF-8 bytes as exactly 8 lowercase hexadecimal
/// digits.
pub fn crc32_hex(text: &str) -> (hex: String)
    ensures
        hex@ == hex_fixed(crc32_of(text.spec_bytes()) as nat, 8),
        hex@.len() == 8,
        forall|i: int| 0 <= i < 8 ==> is_lower_hex_digit(#[trigger] hex@[i]),
{
    let crc = crc32_hash(text.as_bytes());
    let mut s = String::new();
    push_hex_fixed(&mut s, crc as u64, 8);
    proof {
        lemma_hex_fixed_shape(crc as nat, 8);
    }
    s
}

/// The SHA-256 of `bytes` as 64 lowercase hexadecimal digits.
pub fn sha256_hex(bytes: &[u8]) -> (hex: String)
    ensures
        hex@ == hex_of_bytes(sha256_of(bytes@)),
        hex@.len() == 64,
        forall|i: int| 0 <= i < 64 ==> is_lower_hex_digit(#[trigger] hex@[i]),
{
    let digest = sha256_digest(bytes);
    proof {
        lemma_hex_of_bytes_shape(digest@);
    }
    hex_of_byte_slice(digest.as_slice())
}

} // verus!
