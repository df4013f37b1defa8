//! Hash functions the gateway relies on.

use vstd::prelude::*;
use sha2::Digest;
use hmac::Mac;

verus! {

/// The SHA-256 digest of `b`.
pub uninterp spec fn sha256_of(b: Seq<u8>) -> Seq<u8>;

/// The RIPEMD-160 digest of `b`.
pub uninterp spec fn ripemd160_of(b: Seq<u8>) -> Seq<u8>;

/// The HMAC-SHA-256 of `message` under `key`.
pub uninterp spec fn hmac_sha256_of(key: Seq<u8>, message: Seq<u8>) -> Seq<u8>;

/// RIPEMD-160 of SHA-256: the 20-byte hash that identifies a public key.
pub open spec fn hash160_of(b: Seq<u8>) -> Seq<u8> {
    ripemd160_of(sha256_of(b))
}

/// Relies on `sha2::Sha256::digest`.
#[verifier::external_body]
pub(crate) fn sha256(b: &[u8]) -> (r: Vec<u8>)
    ensures
        r@ == sha256_of(b@),
        r@.len() == 32,
{
    sha2::Sha256::digest(b).to_vec()
}

/// Relies on `ripemd::Ripemd160::digest`.
#[verifier::external_body]
pub(crate) fn ripemd160(b: &[u8]) -> (r: Vec<u8>)
    ensures
        r@ == ripemd160_of(b@),
        r@.len() == 20,
{
    ripemd::Ripemd160::digest(b).to_vec()
}

/// Relies on `hmac::Hmac::<Sha256>`: keyed with `key` (any length), fed
/// `message`, finalized.
#[verifier::external_body]
pub(crate) fn hmac_sha256(key: &[u8], message: &[u8]) -> (r: Vec<u8>)
    ensures
        r@ == hmac_sha256_of(key@, message@),
        r@.len() == 32,
{
    let mut mac = <hmac::Hmac<sha2::Sha256> as Mac>::new_from_slice(key).unwrap();
    mac.update(message);
    mac.finalize().into_bytes().to_vec()
}

/// The 20-byte hash of `b`: RIPEMD-160 of its SHA-256.
pub fn hash160(b: &[u8]) -> (r: Vec<u8>)
    ensures
        r@ == hash160_of(b@),
        r@.len() == 20,
{
    let inner = sha256(b);
    ripemd160(inner.as_slice())
}

} // verus!
