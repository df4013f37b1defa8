//! Encryption at rest of private key material.
//!
//! A blob is the hexadecimal text of `nonce ‖ tag ‖ ciphertext`, sealed with
//! AES-256-GCM under the vault's key and a fresh 96-bit nonce.

use vstd::prelude::*;
use vstd::utf8::*;
use vstd::string::StringSliceAdditionalSpecFns;
use crate::encoding::{append_bytes, hex_decode, hex_encode, hex_text, hex_value, is_valid_hex, lemma_hex_round_trip};
use aes_gcm::aead::{Aead, KeyInit};
use aes_gcm::aead::rand_core::RngCore;

verus! {

/// Length of the symmetric key, in bytes.
pub const KEY_LEN: usize = 32;

/// Length of a GCM nonce, in bytes.
pub const NONCE_LEN: usize = 12;

/// Length of a GCM authentication tag, in bytes.
pub const TAG_LEN: usize = 16;

/// The largest plaintext that AES-GCM seals, in bytes.
pub const MAX_PLAINTEXT_LEN: u64 = 0x10_0000_0000;

/// What AES-256-GCM yields for `key`, `nonce` and `plaintext` with no
/// associated data: the ciphertext followed by the 16-byte tag.
pub uninterp spec fn gcm_seal_of(key: Seq<u8>, nonce: Seq<u8>, plaintext: Seq<u8>) -> Seq<u8>;

/// Relies on `Aes256Gcm::encrypt`: it fails only on a plaintext longer than
/// its limit, and the output is the ciphertext (as long as the plaintext)
/// followed by the tag.
#[verifier::external_body]
fn gcm_seal(key: &[u8], nonce: &[u8], plaintext: &[u8]) -> (r: Option<Vec<u8>>)
    requires
        key@.len() == KEY_LEN,
        nonce@.len() == NONCE_LEN,
    ensures
        r is Some <==> plaintext@.len() <= MAX_PLAINTEXT_LEN,
        r matches Some(c) ==> c@ == gcm_seal_of(key@, nonce@, plaintext@),
        r matches Some(c) ==> c@.len() == plaintext@.len() + TAG_LEN,
{
    let cipher = aes_gcm::Aes256Gcm::new(aes_gcm::Key::<aes_gcm::Aes256Gcm>::from_slice(key));
    cipher.encrypt(aes_gcm::Nonce::from_slice(nonce), plaintext).ok()
}

/// Relies on `Aes256Gcm::decrypt`: it returns a plaintext exactly when the
/// sealed input authenticates, and that plaintext is the one it was sealed
/// from. Inputs are kept to what sealing a plaintext within the limit gives.
#[verifier::external_body]
fn gcm_open(key: &[u8], nonce: &[u8], sealed: &[u8]) -> (r: Option<Vec<u8>>)
    requires
        key@.len() == KEY_LEN,
        nonce@.len() == NONCE_LEN,
        sealed@.len() <= MAX_PLAINTEXT_LEN + TAG_LEN,
    ensures
        r matches Some(p) ==> gcm_seal_of(key@, nonce@, p@) == sealed@,
        r matches Some(p) ==> p@.len() <= MAX_PLAINTEXT_LEN,
        r is None ==> forall|p: Seq<u8>|
            p.len() <= MAX_PLAINTEXT_LEN ==> #[trigger] gcm_seal_of(key@, nonce@, p) != sealed@,
        r matches Some(q) ==> forall|p: Seq<u8>| #[trigger] gcm_seal_of(key@, nonce@, p) == sealed@ ==> q@ == p,
{
    let cipher = aes_gcm::Aes256Gcm::new(aes_gcm::Key::<aes_gcm::Aes256Gcm>::from_slice(key));
    cipher.decrypt(aes_gcm::Nonce::from_slice(nonce), sealed).ok()
}

/// Relies on `OsRng::fill_bytes` (as `aes_gcm::aead` exports it) over an
/// AES-GCM nonce: twelve bytes from the operating system's generator.
#[verifier::external_body]
fn fresh_nonce() -> (r: Vec<u8>)
    ensures
        r@.len() == NONCE_LEN,
{
    let mut iv = aes_gcm::aead::Nonce::<aes_gcm::Aes256Gcm>::default();
    aes_gcm::aead::OsRng.fill_bytes(&mut iv);
    iv.to_vec()
}

/// Relies on `String::from_utf8`: it accepts exactly the valid UTF-8 byte
/// strings and decodes them.
#[verifier::external_body]
fn utf8_string(b: Vec<u8>) -> (r: Option<String>)
    ensures
        r is Some <==> valid_utf8(b@),
        r matches Some(s) ==> s@ == decode_utf8(b@),
{
    String::from_utf8(b).ok()
}

/// Why a vault operation was refused.
#[derive(Debug, Clone, Copy, PartialEq, Eq, Structural)]
pub enum VaultError {
    /// The symmetric key is not the hexadecimal text of 32 bytes.
    Configuration,
    /// The blob is not hexadecimal text, too short to hold nonce and tag, or
    /// holds a ciphertext longer than the cipher seals.
    MalformedBlob,
    /// The tag does not verify: the blob was corrupted, tampered with, or
    /// sealed under another key.
    AuthenticationFailure,
    /// The authenticated plaintext is not UTF-8 text.
    NotText,
}

/// The blob layout for a nonce and what the cipher sealed:
/// `nonce ‖ tag ‖ ciphertext`.
pub open spec fn blob_layout(nonce: Seq<u8>, sealed: Seq<u8>) -> Seq<u8> {
    nonce + sealed.subrange(sealed.len() - TAG_LEN, sealed.len() as int) + sealed.subrange(
        0,
        sealed.len() - TAG_LEN,
    )
}

/// The blob (as bytes) for `plaintext` sealed under `key` with `nonce`.
pub open spec fn blob_of(key: Seq<u8>, nonce: Seq<u8>, plaintext: Seq<u8>) -> Seq<u8> {
    blob_layout(nonce, gcm_seal_of(key, nonce, plaintext))
}

/// The nonce part of a blob.
pub open spec fn blob_nonce(b: Seq<u8>) -> Seq<u8> {
    b.subrange(0, NONCE_LEN as int)
}

/// What the cipher sealed, taken back out of a blob: `ciphertext ‖ tag`.
pub open spec fn blob_sealed(b: Seq<u8>) -> Seq<u8> {
    b.subrange((NONCE_LEN + TAG_LEN) as int, b.len() as int) + b.subrange(
        NONCE_LEN as int,
        (NONCE_LEN + TAG_LEN) as int,
    )
}

/// `plaintext` is what the blob bytes `b` authenticate to under `key`.
pub open spec fn opens_to(key: Seq<u8>, b: Seq<u8>, plaintext: Seq<u8>) -> bool {
    plaintext.len() <= MAX_PLAINTEXT_LEN && gcm_seal_of(key, blob_nonce(b), plaintext)
        == blob_sealed(b)
}

/// `h` is a blob that sealing `plaintext` under `key` can give: the text of
/// `nonce ‖ tag ‖ ciphertext` for some 12-byte nonce.
pub open spec fn is_encryption_of(key: Seq<u8>, plaintext: Seq<u8>, h: Seq<char>) -> bool {
    exists|nonce: Seq<u8>|
        {
            &&& nonce.len() == NONCE_LEN
            &&& plaintext.len() <= MAX_PLAINTEXT_LEN
            &&& gcm_seal_of(key, nonce, plaintext).len() == plaintext.len() + TAG_LEN
            &&& h == #[trigger] hex_text(blob_of(key, nonce, plaintext))
        }
}

/// Hexadecimal text `h` can be a blob: long enough to hold nonce and tag,
/// with a ciphertext no longer than the cipher seals.
pub open spec fn well_formed_blob(h: Seq<char>) -> bool {
    &&& is_valid_hex(h)
    &&& hex_value(h).len() >= NONCE_LEN + TAG_LEN
    &&& hex_value(h).len() - (NONCE_LEN + TAG_LEN) <= MAX_PLAINTEXT_LEN
}

/// `r` is what opening the blob text `h` under `key` gives: `MalformedBlob`
/// exactly when `h` is not a well-formed blob;
/// `AuthenticationFailure` exactly when no plaintext authenticates; else the
/// authenticated plaintext as text, or `NotText` when it is not UTF-8.
pub open spec fn is_decryption(key: Seq<u8>, h: Seq<char>, r: Result<String, VaultError>) -> bool {
    &&& !well_formed_blob(h) <==> r == Err::<String, VaultError>(VaultError::MalformedBlob)
    &&& well_formed_blob(h) ==> (r == Err::<String, VaultError>(VaultError::AuthenticationFailure)
        <==> !exists|p: Seq<u8>| opens_to(key, hex_value(h), p))
    &&& r matches Ok(s) ==> exists|p: Seq<u8>|
        opens_to(key, hex_value(h), p) && valid_utf8(p) && s@ == decode_utf8(p)
    &&& forall|p: Seq<u8>|
        well_formed_blob(h) && #[trigger] opens_to(key, hex_value(h), p) ==> if valid_utf8(p) {
            r matches Ok(s) && s@ == decode_utf8(p)
        } else {
            r == Err::<String, VaultError>(VaultError::NotText)
        }
}

/// Holds the process-wide symmetric key.
pub struct KeyVault {
    key: Vec<u8>,
}

impl View for KeyVault {
    type V = Seq<u8>;

    /// The symmetric key.
    closed spec fn view(&self) -> Seq<u8> {
        self.key@
    }
}

impl KeyVault {
    #[verifier::type_invariant]
    spec fn key_length(self) -> bool {
        self.key@.len() == KEY_LEN
    }

    /// A vault over the key whose hexadecimal text is `hex_key`.
    pub fn from_hex_key(hex_key: &str) -> (r: Result<KeyVault, VaultError>)
        ensures
            r is Ok <==> (is_valid_hex(hex_key@) && hex_value(hex_key@).len() == KEY_LEN),
            r matches Ok(v) ==> v@ == hex_value(hex_key@),
            r matches Err(e) ==> e == VaultError::Configuration,
    {
        match hex_decode(hex_key) {
            Some(key) => {
                if key.len() == KEY_LEN {
                    Ok(KeyVault { key })
                } else {
                    Err(VaultError::Configuration)
                }
            },
            None => Err(VaultError::Configuration),
        }
    }

    /// Seals the text `wif` under a fresh nonce; the blob differs from call
    /// to call.
    pub fn encrypt_wif(&self, wif: &str) -> (r: String)
        requires
            wif.spec_bytes().len() <= MAX_PLAINTEXT_LEN,
        ensures
            is_encryption_of(self@, wif.spec_bytes(), r@),
    {
        proof {
            use_type_invariant(self);
        }
        let nonce = fresh_nonce();
        let pt = wif.as_bytes();
        let sealed = match gcm_seal(self.key.as_slice(), nonce.as_slice(), pt) {
            Some(c) => c,
            None => {
                assert(false);
                Vec::new()
            },
        };
        let split = sealed.len() - TAG_LEN;
        let mut blob: Vec<u8> = Vec::new();
        append_bytes(&mut blob, nonce.as_slice());
        append_bytes(&mut blob, &sealed.as_slice()[split..sealed.len()]);
        append_bytes(&mut blob, &sealed.as_slice()[0..split]);
        let r = hex_encode(blob.as_slice());
        assert(blob@ =~= blob_of(self@, nonce@, wif.spec_bytes()));
        r
    }

    /// Opens a blob made by `encrypt_wif` under the same key.
    pub fn decrypt_wif(&self, h: &str) -> (r: Result<String, VaultError>)
        ensures
            is_decryption(self@, h@, r),
    {
        proof {
            use_type_invariant(self);
        }
        let b = match hex_decode(h) {
            Some(b) => b,
            None => return Err(VaultError::MalformedBlob),
        };
        if b.len() < NONCE_LEN + TAG_LEN {
            return Err(VaultError::MalformedBlob);
        }
        if (b.len() - (NONCE_LEN + TAG_LEN)) as u64 > MAX_PLAINTEXT_LEN {
            return Err(VaultError::MalformedBlob);
        }
        let nonce = &b.as_slice()[0..NONCE_LEN];
        let mut sealed: Vec<u8> = Vec::new();
        append_bytes(&mut sealed, &b.as_slice()[NONCE_LEN + TAG_LEN..b.len()]);
        append_bytes(&mut sealed, &b.as_slice()[NONCE_LEN..NONCE_LEN + TAG_LEN]);
        match gcm_open(self.key.as_slice(), nonce, sealed.as_slice()) {
            Some(p) => {
                let ghost pv = p@;
                assert(opens_to(self@, hex_value(h@), pv));
                match utf8_string(p) {
                    Some(s) => Ok(s),
                    None => Err(VaultError::NotText),
                }
            },
            None => Err(VaultError::AuthenticationFailure),
        }
    }
}

/// A blob that sealing gave authenticates, under the same key, to the
/// sealed bytes.
pub proof fn lemma_sealed_blob_opens(key: Seq<u8>, pt: Seq<u8>, blob_text: Seq<char>)
    requires
        key.len() == KEY_LEN,
        is_encryption_of(key, pt, blob_text),
    ensures
        well_formed_blob(blob_text),
        opens_to(key, hex_value(blob_text), pt),
{
    let nonce = choose|nonce: Seq<u8>|
        {
            &&& nonce.len() == NONCE_LEN
            &&& pt.len() <= MAX_PLAINTEXT_LEN
            &&& gcm_seal_of(key, nonce, pt).len() == pt.len() + TAG_LEN
            &&& blob_text == #[trigger] hex_text(blob_of(key, nonce, pt))
        };
    let b = blob_of(key, nonce, pt);
    lemma_hex_round_trip(b);
    let sealed = gcm_seal_of(key, nonce, pt);
    assert(blob_nonce(b) =~= nonce);
    assert(blob_sealed(b) =~= sealed);
}

/// Opening a blob that `encrypt_wif` made gives back the text it sealed:
/// for any text `wif`, whatever blob sealing it gave, decrypting that blob
/// under the same key yields exactly `wif`.
pub proof fn lemma_encrypt_decrypt_round_trip(
    key: Seq<u8>,
    wif: Seq<char>,
    blob_text: Seq<char>,
    r: Result<String, VaultError>,
)
    requires
        key.len() == KEY_LEN,
        is_encryption_of(key, encode_utf8(wif), blob_text),
        is_decryption(key, blob_text, r),
    ensures
        r matches Ok(s) && s@ == wif,
{
    let pt = encode_utf8(wif);
    lemma_sealed_blob_opens(key, pt, blob_text);
    encode_utf8_valid_utf8(wif);
    encode_utf8_decode_utf8(wif);
    assert(opens_to(key, hex_value(blob_text), pt));
}

} // verus!
