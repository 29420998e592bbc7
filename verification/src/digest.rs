//! Hashing and hexadecimal encoding, as the outside crates compute them.

use vstd::prelude::*;

use crypto::digest::Digest;

use crate::text::hex_lower;

verus! {

/// The SHA3-512 digest that rust-crypto computes of the UTF-8 bytes of `text`.
pub uninterp spec fn sha3_512_digest(text: Seq<char>) -> Seq<u8>;

/// Hashes `text` with SHA3-512 and returns the digest in hexadecimal.
///
/// Calls `crypto::sha3::Sha3::sha3_512`, `Digest::input_str` and
/// `Digest::result_str` of rust-crypto. Claimed: the result is the 64-byte
/// digest (named `sha3_512_digest`) written as lower-case hexadecimal digits,
/// two per byte, high half first (`result_str` hex-encodes a buffer of
/// `output_bits / 8` = 64 bytes with rustc-serialize's `to_hex`, whose table
/// is `0123456789abcdef`). That the digest is SHA3-512 is not stated.
#[verifier::external_body]
pub(crate) fn sha3_512_hex(text: &str) -> (res: String)
    ensures
        res@ == hex_lower(sha3_512_digest(text@)),
        res@.len() == 128,
{
    let mut hasher = crypto::sha3::Sha3::sha3_512();
    hasher.input_str(text);
    hasher.result_str()
}

/// Encodes bytes as hexadecimal digits.
///
/// Calls `hex::encode`. Claimed: each byte becomes two lower-case hexadecimal
/// digits, high half first (`hex_write` with the table `0123456789abcdef`).
#[verifier::external_body]
pub(crate) fn hex_encode(bytes: &[u8]) -> (res: String)
    ensures
        res@ == hex_lower(bytes@),
{
    hex::encode(bytes)
}

} // verus!
