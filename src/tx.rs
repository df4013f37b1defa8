//! The sweep transaction: every unspent output of a payment address spent
//! to one output, each input signed with a segregated-witness (BIP-143)
//! digest.

use vstd::prelude::*;
use crate::chain::Utxo;
use crate::encoding::{copy_bytes, hex_value, is_valid_hex};
use crate::hashing::{hash160, hash160_of};
use crate::keys::{ecdsa_der_of, p2pkh_script, p2pkh_script_of, public_key, public_key_of, sign_digest, valid_secret_key};
use bitcoin::{EcdsaSighashType, OutPoint, Script, Transaction, TxIn, TxOut, Txid, Witness};
use bitcoin::hashes::Hash as _;
use bitcoin::util::sighash::SighashCache;
use std::str::FromStr;

verus! {

/// Transaction format version.
pub const TX_VERSION: i32 = 2;

/// Lock time: none.
pub const TX_LOCK_TIME: u32 = 0;

/// Input sequence number: final.
pub const FINAL_SEQUENCE: u32 = 0xffff_ffff;

/// Virtual bytes added to the unsigned size for the witnesses.
pub const WITNESS_ALLOWANCE: u64 = 68;

/// Signature-hash type: the signature commits to all inputs and outputs.
pub const SIGHASH_ALL: u32 = 1;

/// An input: the output it spends, that output's value, and its witness.
#[derive(Debug, Clone)]
pub struct TxInput {
    /// Id of the transaction that made the output, in internal byte order.
    pub txid: Vec<u8>,
    pub vout: u32,
    /// Value of the spent output, in base units.
    pub value: u64,
    pub sequence: u32,
    pub witness: Vec<Vec<u8>>,
}

/// A transaction with a single output.
#[derive(Debug, Clone)]
pub struct SweepTx {
    pub version: i32,
    pub lock_time: u32,
    pub inputs: Vec<TxInput>,
    pub output_script: Vec<u8>,
    pub output_value: u64,
}

/// The virtual size (BIP-141 weight divided by four, rounded up) of `tx`.
pub uninterp spec fn vsize_of(tx: SweepTx) -> nat;

/// The BIP-143 digest that input `index` of `tx` signs, for `script_code`,
/// the input's value and the signature-hash type `sighash_type`.
pub uninterp spec fn segwit_digest_of(tx: SweepTx, index: nat, script_code: Seq<u8>, sighash_type: u32) -> Seq<u8>;

/// The consensus serialization of `tx`.
pub uninterp spec fn tx_bytes_of(tx: SweepTx) -> Seq<u8>;

/// Every input names its transaction by 32 bytes.
pub open spec fn txids_well_formed(tx: SweepTx) -> bool {
    forall|i: int| 0 <= i < tx.inputs@.len() ==> (#[trigger] tx.inputs@[i]).txid@.len() == 32
}

/// The standard signature-hash types.
pub open spec fn standard_sighash(t: u32) -> bool {
    t == 1 || t == 2 || t == 3 || t == 0x81 || t == 0x82 || t == 0x83
}

/// Relies on `bitcoin::Transaction::vsize`.
#[verifier::external_body]
fn tx_vsize(tx: &SweepTx) -> (r: usize)
    requires
        txids_well_formed(*tx),
    ensures
        r as nat == vsize_of(*tx),
{
    let input = tx.inputs.iter().map(|i| TxIn { previous_output: OutPoint::new(Txid::from_slice(&i.txid).unwrap(), i.vout), script_sig: Script::new(), sequence: i.sequence, witness: Witness::from_vec(i.witness.clone()) }).collect();
    let output = vec![TxOut { value: tx.output_value, script_pubkey: Script::from(tx.output_script.clone()) }];
    Transaction { version: tx.version, lock_time: tx.lock_time, input, output }.vsize()
}

/// Relies on `bitcoin::util::sighash::SighashCache::segwit_signature_hash`,
/// which fails only on an input index out of range.
#[verifier::external_body]
fn segwit_digest(tx: &SweepTx, index: usize, script_code: &[u8], sighash_type: u32) -> (r: Vec<u8>)
    requires
        txids_well_formed(*tx),
        index < tx.inputs@.len(),
        standard_sighash(sighash_type),
    ensures
        r@ == segwit_digest_of(*tx, index as nat, script_code@, sighash_type),
        r@.len() == 32,
{
    let input = tx.inputs.iter().map(|i| TxIn { previous_output: OutPoint::new(Txid::from_slice(&i.txid).unwrap(), i.vout), script_sig: Script::new(), sequence: i.sequence, witness: Witness::from_vec(i.witness.clone()) }).collect();
    let output = vec![TxOut { value: tx.output_value, script_pubkey: Script::from(tx.output_script.clone()) }];
    let t = Transaction { version: tx.version, lock_time: tx.lock_time, input, output };
    let kind = EcdsaSighashType::from_standard(sighash_type).unwrap();
    let code = Script::from(script_code.to_vec());
    SighashCache::new(&t).segwit_signature_hash(index, &code, tx.inputs[index].value, kind).unwrap().into_inner().to_vec()
}

/// Relies on `bitcoin::consensus::encode::serialize` of a transaction.
#[verifier::external_body]
fn tx_bytes(tx: &SweepTx) -> (r: Vec<u8>)
    requires
        txids_well_formed(*tx),
    ensures
        r@ == tx_bytes_of(*tx),
{
    let input = tx.inputs.iter().map(|i| TxIn { previous_output: OutPoint::new(Txid::from_slice(&i.txid).unwrap(), i.vout), script_sig: Script::new(), sequence: i.sequence, witness: Witness::from_vec(i.witness.clone()) }).collect();
    let output = vec![TxOut { value: tx.output_value, script_pubkey: Script::from(tx.output_script.clone()) }];
    bitcoin::consensus::encode::serialize(&Transaction { version: tx.version, lock_time: tx.lock_time, input, output })
}

/// Relies on `bitcoin::Txid::from_str`: 64 hexadecimal digits of either
/// case, in display order (the bytes reversed).
#[verifier::external_body]
fn parse_txid(s: &str) -> (r: Option<Vec<u8>>)
    ensures
        r is Some <==> (is_valid_hex(s@) && s@.len() == 64),
        r matches Some(b) ==> b@ == hex_value(s@).reverse(),
{
    Txid::from_str(s).ok().map(|t| t.into_inner().to_vec())
}


/// Why a sweep transaction could not be assembled.
#[derive(Debug, Clone, Copy, PartialEq, Eq, Structural)]
pub enum TxError {
    /// An unspent output whose transaction id is not 64 hexadecimal digits,
    /// or whose index does not fit 32 bits.
    BadUtxo,
    /// The values add up past the largest `u64`.
    ValueOverflow,
}

/// The indexer's report of `u` can be spent from.
pub open spec fn utxo_ok(u: Utxo) -> bool {
    is_valid_hex(u.tx_hash@) && u.tx_hash@.len() == 64 && u.tx_pos <= u32::MAX
}

/// Sum of the values of `us`.
pub open spec fn total_value(us: Seq<Utxo>) -> int
    decreases us.len(),
{
    if us.len() == 0 {
        0
    } else {
        total_value(us.drop_last()) + us.last().value
    }
}

/// `input` spends `u`, unsigned.
pub open spec fn spends(input: TxInput, u: Utxo) -> bool {
    &&& input.txid@ == hex_value(u.tx_hash@).reverse()
    &&& input.vout == u.tx_pos
    &&& input.value == u.value
    &&& input.sequence == FINAL_SEQUENCE
    &&& input.witness@.len() == 0
}

/// `tx` spends every output of `us`, in order, to one output locked by
/// `script`, with the output's value still to be set.
pub open spec fn is_unsigned_sweep(tx: SweepTx, us: Seq<Utxo>, script: Seq<u8>) -> bool {
    &&& tx.version == TX_VERSION
    &&& tx.lock_time == TX_LOCK_TIME
    &&& tx.output_script@ == script
    &&& tx.output_value == 0
    &&& tx.inputs@.len() == us.len()
    &&& forall|i: int| 0 <= i < us.len() ==> spends(#[trigger] tx.inputs@[i], us[i])
}

/// A longer list of outputs is worth at least as much as any prefix.
pub proof fn lemma_total_value_prefix(us: Seq<Utxo>, n: int)
    requires
        0 <= n <= us.len(),
    ensures
        total_value(us.subrange(0, n)) <= total_value(us),
        total_value(us) >= 0,
    decreases us.len(),
{
    if us.len() > 0 {
        if n == us.len() {
            assert(us.subrange(0, n) =~= us);
            lemma_total_value_prefix(us.drop_last(), 0);
        } else {
            assert(us.drop_last().subrange(0, n) =~= us.subrange(0, n));
            lemma_total_value_prefix(us.drop_last(), n);
        }
    }
}

/// Assembles the unsigned sweep of `utxos` to `script`, with their total.
pub fn build_sweep(utxos: &Vec<Utxo>, script: &Vec<u8>) -> (r: Result<(SweepTx, u64), TxError>)
    ensures
        r is Ok <==> (forall|i: int| 0 <= i < utxos@.len() ==> utxo_ok(#[trigger] utxos@[i]))
            && total_value(utxos@) <= u64::MAX,
        r matches Ok((tx, total)) ==> is_unsigned_sweep(tx, utxos@, script@) && total
            == total_value(utxos@) && txids_well_formed(tx),
        r == Err::<(SweepTx, u64), TxError>(TxError::BadUtxo) ==> exists|i: int|
            0 <= i < utxos@.len() && !utxo_ok(#[trigger] utxos@[i]),
        r == Err::<(SweepTx, u64), TxError>(TxError::ValueOverflow) ==> total_value(utxos@)
            > u64::MAX,
{
    let mut inputs: Vec<TxInput> = Vec::new();
    let mut total: u64 = 0;
    let mut i: usize = 0;
    while i < utxos.len()
        invariant
            i <= utxos@.len(),
            inputs@.len() == i,
            total == total_value(utxos@.subrange(0, i as int)),
            forall|j: int| 0 <= j < i ==> utxo_ok(#[trigger] utxos@[j]),
            forall|j: int| 0 <= j < i ==> spends(#[trigger] inputs@[j], utxos@[j]),
            forall|j: int| 0 <= j < i ==> (#[trigger] inputs@[j]).txid@.len() == 32,
        decreases utxos@.len() - i,
    {
        let u = &utxos[i];
        let txid = match parse_txid(u.tx_hash.as_str()) {
            Some(t) => t,
            None => return Err(TxError::BadUtxo),
        };
        if u.tx_pos > u32::MAX as u64 {
            return Err(TxError::BadUtxo);
        }
        assert(utxos@.subrange(0, i + 1) .drop_last() =~= utxos@.subrange(0, i as int));
        total = match total.checked_add(u.value) {
            Some(t) => t,
            None => {
                proof {
                    lemma_total_value_prefix(utxos@, i + 1);
                }
                return Err(TxError::ValueOverflow);
            },
        };
        inputs.push(
            TxInput {
                txid,
                vout: u.tx_pos as u32,
                value: u.value,
                sequence: FINAL_SEQUENCE,
                witness: Vec::new(),
            },
        );
        i = i + 1;
    }
    assert(utxos@.subrange(0, utxos@.len() as int) =~= utxos@);
    let tx = SweepTx {
        version: TX_VERSION,
        lock_time: TX_LOCK_TIME,
        inputs,
        output_script: copy_bytes(script.as_slice()),
        output_value: 0,
    };
    Ok((tx, total))
}

/// The witness of input `i` of `tx` signed with the secret key `sk`: the
/// DER signature of the input's digest followed by the signature-hash type,
/// then the compressed public key.
pub open spec fn witness_for(tx: SweepTx, i: int, sk: Seq<u8>) -> Seq<Seq<u8>> {
    let pk = public_key_of(sk);
    let digest = segwit_digest_of(tx, i as nat, p2pkh_script_of(hash160_of(pk)), SIGHASH_ALL);
    seq![ecdsa_der_of(sk, digest).push(SIGHASH_ALL as u8), pk]
}

/// `signed` is `tx` with the witness of every input set by `sk`.
pub open spec fn is_signed_with(signed: SweepTx, tx: SweepTx, sk: Seq<u8>) -> bool {
    &&& signed.version == tx.version
    &&& signed.lock_time == tx.lock_time
    &&& signed.output_script@ == tx.output_script@
    &&& signed.output_value == tx.output_value
    &&& signed.inputs@.len() == tx.inputs@.len()
    &&& forall|i: int|
        0 <= i < tx.inputs@.len() ==> {
            let a = #[trigger] signed.inputs@[i];
            let b = tx.inputs@[i];
            &&& a.txid@ == b.txid@
            &&& a.vout == b.vout
            &&& a.value == b.value
            &&& a.sequence == b.sequence
            &&& a.witness@.len() == 2
            &&& a.witness@[0]@ == witness_for(tx, i, sk)[0]
            &&& a.witness@[1]@ == witness_for(tx, i, sk)[1]
        }
}

/// Signs every input of `tx` with the secret key `sk` (the inputs' digests
/// are those of `tx`; a witness never enters a BIP-143 digest).
pub fn sign_inputs(tx: &SweepTx, sk: &[u8]) -> (r: SweepTx)
    requires
        valid_secret_key(sk@),
        txids_well_formed(*tx),
    ensures
        is_signed_with(r, *tx, sk@),
        txids_well_formed(r),
{
    let pk = public_key(sk);
    let pkh = hash160(pk.as_slice());
    let script_code = p2pkh_script(pkh.as_slice());
    let mut inputs: Vec<TxInput> = Vec::new();
    let mut i: usize = 0;
    while i < tx.inputs.len()
        invariant
            i <= tx.inputs@.len(),
            inputs@.len() == i,
            valid_secret_key(sk@),
            txids_well_formed(*tx),
            pk@ == public_key_of(sk@),
            script_code@ == p2pkh_script_of(hash160_of(pk@)),
            forall|j: int|
                0 <= j < i ==> {
                    let a = #[trigger] inputs@[j];
                    let b = tx.inputs@[j];
                    &&& a.txid@ == b.txid@
                    &&& a.vout == b.vout
                    &&& a.value == b.value
                    &&& a.sequence == b.sequence
                    &&& a.witness@.len() == 2
                    &&& a.witness@[0]@ == witness_for(*tx, j, sk@)[0]
                    &&& a.witness@[1]@ == witness_for(*tx, j, sk@)[1]
                },
        decreases tx.inputs@.len() - i,
    {
        let digest = segwit_digest(tx, i, script_code.as_slice(), SIGHASH_ALL);
        let mut sig = sign_digest(sk, digest.as_slice());
        sig.push(SIGHASH_ALL as u8);
        let input = &tx.inputs[i];
        let witness: Vec<Vec<u8>> = vec![sig, copy_bytes(pk.as_slice())];
        inputs.push(
            TxInput {
                txid: copy_bytes(input.txid.as_slice()),
                vout: input.vout,
                value: input.value,
                sequence: input.sequence,
                witness,
            },
        );
        i = i + 1;
    }
    SweepTx {
        version: tx.version,
        lock_time: tx.lock_time,
        inputs,
        output_script: copy_bytes(tx.output_script.as_slice()),
        output_value: tx.output_value,
    }
}

/// The estimated virtual size of `tx` once signed: its unsigned size plus
/// an allowance for the witnesses, saturated at the largest `u64`.
pub open spec fn estimated_vsize_of(tx: SweepTx) -> u64 {
    if vsize_of(tx) + WITNESS_ALLOWANCE > u64::MAX {
        u64::MAX
    } else {
        (vsize_of(tx) + WITNESS_ALLOWANCE) as u64
    }
}

/// The estimated virtual size of the signed sweep: that of the unsigned
/// transaction plus an allowance for the witnesses.
pub fn estimated_vsize(tx: &SweepTx) -> (r: u64)
    requires
        txids_well_formed(*tx),
    ensures
        r == estimated_vsize_of(*tx),
{
    let v = tx_vsize(tx);
    if v as u64 > u64::MAX - WITNESS_ALLOWANCE {
        u64::MAX
    } else {
        v as u64 + WITNESS_ALLOWANCE
    }
}

/// The consensus serialization of `tx`.
pub fn serialize(tx: &SweepTx) -> (r: Vec<u8>)
    requires
        txids_well_formed(*tx),
    ensures
        r@ == tx_bytes_of(*tx),
{
    tx_bytes(tx)
}

} // verus!
