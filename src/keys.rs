//! Key pairs and addresses: native segregated-witness version-0 (P2WPKH)
//! addresses in checksummed base-32 text, and the script identifier that the
//! chain indexer tracks an address by.

use vstd::prelude::*;
use crate::encoding::{hex_encode, hex_text};
use crate::hashing::{hash160, hash160_of, sha256, sha256_of};
use bech32::{FromBase32, ToBase32};

verus! {

/// Big-endian value of a byte string.
pub open spec fn be_value(b: Seq<u8>) -> nat
    decreases b.len(),
{
    if b.len() == 0 {
        0
    } else {
        be_value(b.drop_last()) * 256 + b.last() as nat
    }
}

/// Order of the secp256k1 group.
pub open spec fn secp256k1_order() -> nat {
    let high: nat = 0xFFFF_FFFF_FFFF_FFFF_FFFF_FFFF_FFFF_FFFE;
    let low: nat = 0xBAAE_DCE6_AF48_A03B_BFD2_5E8C_D036_4141;
    let half: nat = 0x1_0000_0000_0000_0000;
    high * half * half + low
}

/// `b` is a secp256k1 secret key: 32 bytes whose value is non-zero and below
/// the group order.
pub open spec fn valid_secret_key(b: Seq<u8>) -> bool {
    b.len() == 32 && 0 < be_value(b) < secp256k1_order()
}


/// The 33-byte compressed public key of the secret key `sk`.
pub uninterp spec fn public_key_of(sk: Seq<u8>) -> Seq<u8>;

/// The DER encoding of the deterministic (RFC 6979) ECDSA signature of the
/// 32-byte `digest` under the secret key `sk`.
pub uninterp spec fn ecdsa_der_of(sk: Seq<u8>, digest: Seq<u8>) -> Seq<u8>;

/// The base-32 values (each below 32) of the bits of `b`, in groups of five,
/// the last group padded with zero bits.
pub uninterp spec fn base32_of(b: Seq<u8>) -> Seq<u8>;

/// The bytes that the bits of the base-32 values `d` spell, or `None` when
/// the padding is longer than four bits or not all zero.
pub uninterp spec fn bytes_from_base32_of(d: Seq<u8>) -> Option<Seq<u8>>;

/// The bech32 text (BIP-173 checksum) of the prefix `hrp` and the base-32
/// values `data`.
pub uninterp spec fn bech32_text_of(hrp: Seq<char>, data: Seq<u8>) -> Seq<char>;

/// The base-32 values of the data part of the bech32 or bech32m text `s`,
/// checksum removed; `None` when `s` is not such text.
pub uninterp spec fn bech32_data_of(s: Seq<char>) -> Option<Seq<u8>>;

/// Every value of `d` is a base-32 digit.
pub open spec fn all_base32(d: Seq<u8>) -> bool {
    forall|i: int| 0 <= i < d.len() ==> #[trigger] d[i] < 32
}

/// `c` is an ASCII lower-case letter.
pub open spec fn is_lower_letter(c: char) -> bool {
    97 <= c as u32 <= 122
}

/// `c` is an ASCII upper-case letter.
pub open spec fn is_upper_letter(c: char) -> bool {
    65 <= c as u32 <= 90
}

/// `h` can prefix a bech32 text: 1 to 83 printable ASCII characters, not
/// of mixed case.
pub open spec fn valid_hrp(h: Seq<char>) -> bool {
    &&& 1 <= h.len() <= 83
    &&& forall|i: int| 0 <= i < h.len() ==> 33 <= #[trigger] (h[i] as u32) <= 126
    &&& !((exists|i: int| 0 <= i < h.len() && is_lower_letter(#[trigger] h[i])) && (exists|j: int|
        0 <= j < h.len() && is_upper_letter(#[trigger] h[j])))
}

/// Relies on `secp256k1::SecretKey::new` with the thread's generator: a
/// fresh, valid secret key.
#[verifier::external_body]
fn fresh_secret_key() -> (r: Vec<u8>)
    ensures
        valid_secret_key(r@),
{
    secp256k1::SecretKey::new(&mut secp256k1::rand::thread_rng()).secret_bytes().to_vec()
}

/// Relies on `secp256k1::SecretKey::from_slice`, which accepts exactly the
/// valid secret keys.
#[verifier::external_body]
pub(crate) fn secret_key_accepted(b: &[u8]) -> (r: bool)
    ensures
        r == valid_secret_key(b@),
{
    secp256k1::SecretKey::from_slice(b).is_ok()
}

/// Relies on `secp256k1::PublicKey::from_secret_key` and `serialize`: the
/// compressed public key.
#[verifier::external_body]
pub(crate) fn public_key(sk: &[u8]) -> (r: Vec<u8>)
    requires
        valid_secret_key(sk@),
    ensures
        r@ == public_key_of(sk@),
        r@.len() == 33,
{
    let k = secp256k1::SecretKey::from_slice(sk).unwrap();
    let secp = secp256k1::Secp256k1::signing_only();
    secp256k1::PublicKey::from_secret_key(&secp, &k).serialize().to_vec()
}

/// Relies on `secp256k1::Secp256k1::sign_ecdsa` (RFC 6979 nonces) and
/// `Signature::serialize_der`.
#[verifier::external_body]
pub(crate) fn sign_digest(sk: &[u8], digest: &[u8]) -> (r: Vec<u8>)
    requires
        valid_secret_key(sk@),
        digest@.len() == 32,
    ensures
        r@ == ecdsa_der_of(sk@, digest@),
{
    let k = secp256k1::SecretKey::from_slice(sk).unwrap();
    let m = secp256k1::Message::from_slice(digest).unwrap();
    secp256k1::Secp256k1::signing_only().sign_ecdsa(&m, &k).serialize_der().to_vec()
}

/// Relies on `bech32::ToBase32::to_base32`.
#[verifier::external_body]
fn to_base32(b: &[u8]) -> (r: Vec<u8>)
    ensures
        r@ == base32_of(b@),
        all_base32(r@),
{
    b.to_base32().iter().map(|x| x.to_u8()).collect()
}

/// Relies on `bech32::FromBase32::from_base32` for `Vec<u8>`.
#[verifier::external_body]
fn from_base32(d: &[u8]) -> (r: Option<Vec<u8>>)
    requires
        all_base32(d@),
    ensures
        r is Some <==> bytes_from_base32_of(d@) is Some,
        r matches Some(b) ==> bytes_from_base32_of(d@) == Some(b@),
{
    let v: Vec<bech32::u5> = d.iter().map(|x| bech32::u5::try_from_u8(*x).unwrap()).collect();
    Vec::<u8>::from_base32(&v).ok()
}

/// Relies on `bech32::encode` with the BIP-173 checksum: it fails only on an
/// unusable prefix.
#[verifier::external_body]
fn bech32_encode(hrp: &str, data: &[u8]) -> (r: Option<String>)
    requires
        all_base32(data@),
    ensures
        r is Some <==> valid_hrp(hrp@),
        r matches Some(s) ==> s@ == bech32_text_of(hrp@, data@),
{
    let v: Vec<bech32::u5> = data.iter().map(|x| bech32::u5::try_from_u8(*x).unwrap()).collect();
    bech32::encode(hrp, v, bech32::Variant::Bech32).ok()
}

/// Relies on `bech32::decode`: the data part's values, checksum removed.
#[verifier::external_body]
fn bech32_decode(s: &str) -> (r: Option<Vec<u8>>)
    ensures
        r is Some <==> bech32_data_of(s@) is Some,
        r matches Some(d) ==> bech32_data_of(s@) == Some(d@) && all_base32(d@),
{
    bech32::decode(s).ok().map(|(_, d, _)| d.iter().map(|x| x.to_u8()).collect())
}

/// Relies on `bitcoin::Script::new_v0_p2wpkh`: version 0 (`OP_0`), then a
/// push of the 20-byte program.
#[verifier::external_body]
fn v0_p2wpkh_script(program: &[u8]) -> (r: Vec<u8>)
    requires
        program@.len() == 20,
    ensures
        r@ == p2wpkh_script(program@),
{
    let h = <bitcoin::WPubkeyHash as bitcoin::hashes::Hash>::from_slice(program).unwrap();
    bitcoin::Script::new_v0_p2wpkh(&h).to_bytes()
}

/// Relies on `bitcoin::Script::new_p2pkh`: `OP_DUP OP_HASH160 <20 bytes>
/// OP_EQUALVERIFY OP_CHECKSIG`.
#[verifier::external_body]
pub(crate) fn p2pkh_script(pubkey_hash: &[u8]) -> (r: Vec<u8>)
    requires
        pubkey_hash@.len() == 20,
    ensures
        r@ == p2pkh_script_of(pubkey_hash@),
{
    let h = <bitcoin::PubkeyHash as bitcoin::hashes::Hash>::from_slice(pubkey_hash).unwrap();
    bitcoin::Script::new_p2pkh(&h).to_bytes()
}

/// The spending script of a version-0 program of 20 bytes.
pub open spec fn p2wpkh_script(program: Seq<u8>) -> Seq<u8> {
    seq![0u8, 20u8] + program
}

/// The pay-to-public-key-hash script for a 20-byte hash, which is the script
/// code that a P2WPKH input signs.
pub open spec fn p2pkh_script_of(h: Seq<u8>) -> Seq<u8> {
    seq![0x76u8, 0xa9u8, 20u8] + h + seq![0x88u8, 0xacu8]
}

/// The default prefix of the gateway's addresses.
pub open spec fn address_prefix() -> Seq<char> {
    "ltc"@
}

/// The P2WPKH address, under prefix `hrp`, of the public key `pk`.
pub open spec fn address_of(hrp: Seq<char>, pk: Seq<u8>) -> Seq<char> {
    bech32_text_of(hrp, seq![0u8] + base32_of(hash160_of(pk)))
}

/// Why an address was refused.
#[derive(Debug, Clone, Copy, PartialEq, Eq, Structural)]
pub enum AddressError {
    /// Not bech32 text, no data, or data that is not whole bytes.
    Malformed,
    /// A witness version other than 0.
    UnsupportedVersion,
    /// A version-0 program that is not a 20-byte public key hash.
    UnsupportedProgram,
}

/// The witness program that the address `a` carries.
pub open spec fn witness_program_of(a: Seq<char>) -> Result<Seq<u8>, AddressError> {
    match bech32_data_of(a) {
        None => Err(AddressError::Malformed),
        Some(d) => if d.len() == 0 {
            Err(AddressError::Malformed)
        } else if d[0] != 0 {
            Err(AddressError::UnsupportedVersion)
        } else {
            match bytes_from_base32_of(d.drop_first()) {
                None => Err(AddressError::Malformed),
                Some(p) => if p.len() != 20 {
                    Err(AddressError::UnsupportedProgram)
                } else {
                    Ok(p)
                },
            }
        },
    }
}

/// The chain indexer's identifier of the script that locks to `program`:
/// the SHA-256 of the script, bytes reversed, in hexadecimal.
pub open spec fn script_identifier_of(program: Seq<u8>) -> Seq<char> {
    hex_text(sha256_of(p2wpkh_script(program)).reverse())
}

/// Generates a key pair with its address under the prefix `hrp`: the secret
/// key's bytes, its hexadecimal text, and the address; `None` when `hrp`
/// cannot prefix a bech32 text.
pub fn new_key_with_prefix(hrp: &str) -> (r: Option<(Vec<u8>, String, String)>)
    ensures
        r is Some <==> valid_hrp(hrp@),
        r matches Some(k) ==> {
            &&& valid_secret_key(k.0@)
            &&& k.1@ == hex_text(k.0@)
            &&& hash160_of(public_key_of(k.0@)).len() == 20
            &&& k.2@ == address_of(hrp@, public_key_of(k.0@))
        },
{
    let sk = fresh_secret_key();
    let pk = public_key(sk.as_slice());
    let program = hash160(pk.as_slice());
    let mut data: Vec<u8> = vec![0u8];
    let groups = to_base32(program.as_slice());
    crate::encoding::append_bytes(&mut data, groups.as_slice());
    assert(data@ =~= seq![0u8] + base32_of(hash160_of(pk@)));
    let addr = match bech32_encode(hrp, data.as_slice()) {
        Some(a) => a,
        None => return None,
    };
    let wif = hex_encode(sk.as_slice());
    Some((sk, wif, addr))
}

/// Generates a key pair with its address under the gateway's default
/// prefix.
pub fn new_key() -> (r: (Vec<u8>, String, String))
    ensures
        valid_secret_key(r.0@),
        r.1@ == hex_text(r.0@),
        hash160_of(public_key_of(r.0@)).len() == 20,
        r.2@ == address_of(address_prefix(), public_key_of(r.0@)),
{
    proof {
        reveal_strlit("ltc");
        assert(valid_hrp("ltc"@));
    }
    match new_key_with_prefix("ltc") {
        Some(k) => k,
        None => {
            assert(false);
            (Vec::new(), String::new(), String::new())
        },
    }
}

/// Reverses a byte string.
fn reversed(b: &[u8]) -> (r: Vec<u8>)
    ensures
        r@ == b@.reverse(),
{
    let mut r: Vec<u8> = Vec::new();
    let mut i: usize = b.len();
    while i > 0
        invariant
            i <= b@.len(),
            r@.len() == b@.len() - i,
            forall|j: int| 0 <= j < r@.len() ==> r@[j] == b@[b@.len() - 1 - j],
        decreases i,
    {
        i = i - 1;
        r.push(b[i]);
    }
    assert(r@ =~= b@.reverse());
    r
}

/// The witness program of a version-0 P2WPKH address.
pub fn witness_program(addr: &str) -> (r: Result<Vec<u8>, AddressError>)
    ensures
        witness_program_of(addr@) is Ok <==> r is Ok,
        r matches Ok(p) ==> witness_program_of(addr@) == Ok::<Seq<u8>, AddressError>(p@),
        r matches Err(e) ==> witness_program_of(addr@) == Err::<Seq<u8>, AddressError>(e),
{
    let d = match bech32_decode(addr) {
        Some(d) => d,
        None => return Err(AddressError::Malformed),
    };
    if d.len() == 0 {
        return Err(AddressError::Malformed);
    }
    if d[0] != 0 {
        return Err(AddressError::UnsupportedVersion);
    }
    let rest = &d.as_slice()[1..d.len()];
    assert(rest@ =~= d@.drop_first());
    match from_base32(rest) {
        None => Err(AddressError::Malformed),
        Some(p) => if p.len() != 20 {
            Err(AddressError::UnsupportedProgram)
        } else {
            Ok(p)
        },
    }
}

/// The locking script of a version-0 P2WPKH address.
pub fn addr_to_script(addr: &str) -> (r: Result<Vec<u8>, AddressError>)
    ensures
        r matches Ok(s) ==> witness_program_of(addr@) matches Ok(p) && s@ == p2wpkh_script(p),
        r matches Err(e) ==> witness_program_of(addr@) == Err::<Seq<u8>, AddressError>(e),
        r is Ok <==> witness_program_of(addr@) is Ok,
{
    let p = witness_program(addr)?;
    Ok(v0_p2wpkh_script(p.as_slice()))
}

/// The chain indexer's identifier of the address `addr`: the SHA-256 of its
/// locking script, bytes reversed, in hexadecimal.
pub fn script_hash(addr: &str) -> (r: Result<String, AddressError>)
    ensures
        r matches Ok(s) ==> witness_program_of(addr@) matches Ok(p) && s@ == script_identifier_of(p),
        r matches Ok(s) ==> s@.len() == 64,
        r matches Err(e) ==> witness_program_of(addr@) == Err::<Seq<u8>, AddressError>(e),
        r is Ok <==> witness_program_of(addr@) is Ok,
{
    let script = addr_to_script(addr)?;
    let digest = sha256(script.as_slice());
    let rev = reversed(digest.as_slice());
    Ok(hex_encode(rev.as_slice()))
}

/// The script identifier is a function of the address's witness program:
/// two addresses that carry the same program get the same identifier, and
/// different programs lock with different scripts.
pub proof fn lemma_script_identifier_deterministic(a1: Seq<char>, a2: Seq<char>)
    requires
        witness_program_of(a1) is Ok,
        witness_program_of(a2) is Ok,
    ensures
        witness_program_of(a1) == witness_program_of(a2) ==> script_identifier_of(
            witness_program_of(a1)->Ok_0,
        ) == script_identifier_of(witness_program_of(a2)->Ok_0),
        witness_program_of(a1) != witness_program_of(a2) ==> p2wpkh_script(
            witness_program_of(a1)->Ok_0,
        ) != p2wpkh_script(witness_program_of(a2)->Ok_0),
{
    let p1 = witness_program_of(a1)->Ok_0;
    let p2 = witness_program_of(a2)->Ok_0;
    if p1 != p2 {
        if p2wpkh_script(p1) == p2wpkh_script(p2) {
            assert(p1 =~= p2wpkh_script(p1).subrange(2, 22));
            assert(p2 =~= p2wpkh_script(p2).subrange(2, 22));
        }
    }
}

} // verus!
