//! SHA-256 and HMAC-SHA256, computed by the `sha2` and `hmac` crates.
use vstd::prelude::*;
use hmac::Mac;
use sha2::Digest;

use crate::encoding::{hex_of, to_hex};

verus! {

/// The SHA-256 digest of a byte string.
pub uninterp spec fn sha256_of(data: Seq<u8>) -> Seq<u8>;

/// The HMAC-SHA256 tag of `message` under `key`.
pub uninterp spec fn hmac_sha256_of(key: Seq<u8>, message: Seq<u8>) -> Seq<u8>;

/// Relies on `sha2::Sha256::digest`: the SHA-256 digest of `data`, 32 bytes long.
#[verifier::external_body]
fn sha256(data: &[u8]) -> (r: Vec<u8>)
    ensures
        r@ == sha256_of(data@),
        r@.len() == 32,
{
    sha2::Sha256::digest(data).to_vec()
}

/// Relies on `hmac::Hmac<sha2::Sha256>`: `new_from_slice` accepts a key of
/// any length, and the finalized tag is 32 bytes long.
#[verifier::external_body]
fn hmac_sha256(key: &[u8], message: &[u8]) -> (r: Vec<u8>)
    ensures
        r@ == hmac_sha256_of(key@, message@),
        r@.len() == 32,
{
    let mut mac = hmac::Hmac::<sha2::Sha256>::new_from_slice(key).expect("HMAC takes keys of any length");
    mac.update(message);
    mac.finalize().into_bytes().to_vec()
}

/// Lowercase hex text of the SHA-256 digest of `data`.
pub open spec fn hex_sha256_of(data: Seq<u8>) -> Seq<char> {
    hex_of(sha256_of(data))
}

/// Lowercase hex text of the HMAC-SHA256 tag of `message` under `key`.
pub open spec fn hex_hmac_sha256_of(key: Seq<u8>, message: Seq<u8>) -> Seq<char> {
    hex_of(hmac_sha256_of(key, message))
}

/// The SHA-256 digest of `data` as 64 lowercase hex digits.
pub fn hex_sha256(data: &[u8]) -> (r: String)
    ensures
        r@ == hex_sha256_of(data@),
        r@.len() == 64,
{
    let d = sha256(data);
    proof {
        crate::encoding::lemma_hex_len(d@);
    }
    to_hex(d.as_slice())
}

/// The HMAC-SHA256 tag of `message` under `key` as 64 lowercase hex digits.
pub fn hex_hmac_sha256(key: &[u8], message: &[u8]) -> (r: String)
    ensures
        r@ == hex_hmac_sha256_of(key@, message@),
        r@.len() == 64,
{
    let d = hmac_sha256(key, message);
    proof {
        crate::encoding::lemma_hex_len(d@);
    }
    to_hex(d.as_slice())
}

/// The payload hash follows the body: where the hex hashes of two bodies
/// differ, so do the bodies; and the hex text changes exactly where the
/// digest does.
pub proof fn lemma_payload_hash_follows_body(a: Seq<u8>, b: Seq<u8>)
    ensures
        hex_sha256_of(a) != hex_sha256_of(b) ==> a != b,
        hex_sha256_of(a) == hex_sha256_of(b) <==> sha256_of(a) == sha256_of(b),
{
    if hex_sha256_of(a) == hex_sha256_of(b) {
        crate::encoding::lemma_hex_injective(sha256_of(a), sha256_of(b));
    }
}

} // verus!
