//! The request signature: a concatenate-then-hash construction.
//!
//! The subscription secret, device identity, opaque data and decimal
//! timestamp string are concatenated byte for byte, in that exact order and
//! with no separators, hashed with SHA-256, and the digest is rendered as
//! lowercase hexadecimal. The server recomputes the same function, so the
//! concatenation order and the rendering are fixed.

use vstd::prelude::*;
use vstd::utf8::encode_utf8;

use sha2::{Digest, Sha256};

use crate::hexfmt::{bytes_to_hex, hex_of, is_hex_digit_char, lemma_hex_of_digits};

verus! {

/// The SHA-256 digest of a byte string, as `sha2::Sha256` computes it.
pub uninterp spec fn sha256_of(bytes: Seq<u8>) -> Seq<u8>;

/// Relies on `sha2::Sha256` (the `Digest::digest` one-shot): the SHA-256
/// digest of the input, 32 bytes long, a function of the input bytes alone.
#[verifier::external_body]
fn sha256_digest(bytes: &[u8]) -> (r: Vec<u8>)
    ensures
        r@ == sha256_of(bytes@),
        r@.len() == 32,
{
    Sha256::digest(bytes).to_vec()
}

/// The exact byte string fed to the hash: the UTF-8 bytes of the secret,
/// the device identity, the opaque data and the timestamp string, in that
/// order, with no separators.
pub open spec fn signature_input(
    key: Seq<char>,
    device: Seq<char>,
    data: Seq<char>,
    timestamp: Seq<char>,
) -> Seq<u8> {
    encode_utf8(key) + encode_utf8(device) + encode_utf8(data) + encode_utf8(timestamp)
}

/// The signature as transmitted: the digest of [`signature_input`] in
/// lowercase hexadecimal.
pub open spec fn signature_hex(
    key: Seq<char>,
    device: Seq<char>,
    data: Seq<char>,
    timestamp: Seq<char>,
) -> Seq<char> {
    hex_of(sha256_of(signature_input(key, device, data, timestamp)))
}

/// Compute the request signature over the four inputs.
///
/// The result is determined by the inputs alone: every call on equal
/// strings returns the same 64-character lowercase hexadecimal digest.
pub fn create_signature(
    subscription_key: &str,
    device_hash: &str,
    data: &str,
    timestamp: &str,
) -> (r: String)
    ensures
        r@ == signature_hex(subscription_key@, device_hash@, data@, timestamp@),
        r@.len() == 64,
        forall|i: int| 0 <= i < r@.len() ==> is_hex_digit_char(#[trigger] r@[i]),
{
    let mut input: Vec<u8> = Vec::new();
    input.extend_from_slice(subscription_key.as_bytes());
    input.extend_from_slice(device_hash.as_bytes());
    input.extend_from_slice(data.as_bytes());
    input.extend_from_slice(timestamp.as_bytes());
    proof {
        assert(input@ =~= signature_input(subscription_key@, device_hash@, data@, timestamp@));
    }
    let digest = sha256_digest(input.as_slice());
    let r = bytes_to_hex(digest.as_slice());
    proof {
        lemma_hex_of_digits(digest@);
    }
    r
}

} // verus!
