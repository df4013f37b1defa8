//! Signing of completion notifications.

use vstd::prelude::*;
use vstd::string::StringSliceAdditionalSpecFns;
use crate::encoding::{hex_encode, hex_text};
use crate::hashing::{hmac_sha256, hmac_sha256_of};

verus! {

/// The signature header of a notification: the HMAC-SHA-256 of the payload
/// under the shared secret, in hexadecimal.
pub fn payload_signature(secret: &str, payload: &str) -> (r: String)
    ensures
        r@ == hex_text(hmac_sha256_of(secret.spec_bytes(), payload.spec_bytes())),
{
    let mac = hmac_sha256(secret.as_bytes(), payload.as_bytes());
    hex_encode(mac.as_slice())
}

} // verus!
