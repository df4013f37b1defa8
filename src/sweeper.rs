//! The sweep engine's decisions.
//!
//! Each timer tick the engine walks every payment. For one payment it asks
//! the chain indexer, in order, for the address's history, the chain tip,
//! the confirmed balance and the unspent outputs, then for a fee estimate;
//! when every gate passes it hands back a signed transaction to broadcast.
//! `Sweep` holds the evaluation of one payment: the caller performs each
//! `Step::Ask` and feeds the answer back through `Sweep::advance`.

use vstd::prelude::*;
use vstd::utf8::*;
use crate::chain::{confirmations, fee_of, fee_sat, is_confirmation_count, Request, Utxo};
use crate::db::{Payment, PaymentStatus};
use crate::encoding::{copy_bytes, hex_decode, hex_encode, hex_text, hex_value, is_valid_hex, lemma_hex_round_trip};
use crate::keys::{addr_to_script, script_hash, secret_key_accepted, valid_secret_key, witness_program_of, p2wpkh_script, script_identifier_of, AddressError};
use crate::tx::{utxo_ok, build_sweep, estimated_vsize, estimated_vsize_of, is_signed_with, is_unsigned_sweep, serialize, sign_inputs, total_value, tx_bytes_of, txids_well_formed, SweepTx, TxError, TX_LOCK_TIME, TX_VERSION};
use crate::vault::{is_encryption_of, lemma_sealed_blob_opens, opens_to, well_formed_blob, KeyVault, VaultError, KEY_LEN};

verus! {

/// Seconds between two ticks.
pub const TICK_SECONDS: u64 = 10;

/// Confirmations required when none are configured.
pub const DEFAULT_CONFIRMATIONS: u64 = 2;

/// Ticks between two re-checks of a payment in a final state.
pub const DEFAULT_RECHECK_TICKS: u64 = 360;

/// Balance that makes a payment in a final state worth sweeping again.
pub const LATE_DEPOSIT_MIN: u64 = 1;

/// Settings of the sweep engine.
#[derive(Debug, Clone)]
pub struct SweepConfig {
    /// Confirmations required before a sweep.
    pub confirmations_needed: u64,
    /// Locking script of the cold-storage address.
    pub cold_script: Vec<u8>,
    /// Ticks between two re-checks of a payment that is completed or expired.
    pub recheck_ticks: u64,
}

impl SweepConfig {
    /// Settings that sweep to `cold_address`.
    pub fn new(confirmations_needed: u64, cold_address: &str, recheck_ticks: u64) -> (r: Result<
        SweepConfig,
        AddressError,
    >)
        ensures
            r is Ok <==> witness_program_of(cold_address@) is Ok,
            r matches Ok(c) ==> c.confirmations_needed == confirmations_needed && c.recheck_ticks
                == recheck_ticks && c.cold_script@ == p2wpkh_script(
                witness_program_of(cold_address@)->Ok_0,
            ),
            r matches Err(e) ==> witness_program_of(cold_address@) == Err::<Seq<u8>, AddressError>(
                e,
            ),
    {
        let cold_script = addr_to_script(cold_address)?;
        Ok(SweepConfig { confirmations_needed, cold_script, recheck_ticks })
    }
}

/// A payment is evaluated on this tick: a pending one on every tick, one in
/// a final state only on every `recheck_ticks`-th tick (never when that is 0).
pub open spec fn evaluated_on(status: PaymentStatus, tick: u64, recheck_ticks: u64) -> bool {
    status == PaymentStatus::Pending || (recheck_ticks > 0 && tick % recheck_ticks == 0)
}

/// Whether to evaluate a payment with status `status` on tick `tick`.
pub fn should_evaluate(status: PaymentStatus, tick: u64, recheck_ticks: u64) -> (r: bool)
    ensures
        r == evaluated_on(status, tick, recheck_ticks),
{
    match status {
        PaymentStatus::Pending => true,
        _ => recheck_ticks > 0 && tick % recheck_ticks == 0,
    }
}

/// A pending payment whose deadline (when it has one) is before `now`.
pub open spec fn is_expiry_due(p: Payment, now: i64) -> bool {
    p.status == PaymentStatus::Pending && p.expires_at != 0 && p.expires_at < now
}

/// Whether the payment's deadline has passed while it is still pending.
pub fn expiry_due(p: &Payment, now: i64) -> (r: bool)
    ensures
        r == is_expiry_due(*p, now),
{
    p.status == PaymentStatus::Pending && p.expires_at != 0 && p.expires_at < now
}

/// Confirmed balance a payment needs before a sweep: the full amount while
/// pending, any positive amount once in a final state.
pub open spec fn required_of(status: PaymentStatus, amount: u64) -> u64 {
    if status == PaymentStatus::Pending {
        amount
    } else {
        LATE_DEPOSIT_MIN
    }
}

/// The confirmed balance required before sweeping `p`.
pub fn required_balance(p: &Payment) -> (r: u64)
    ensures
        r == required_of(p.status, p.amount),
{
    if p.status == PaymentStatus::Pending {
        p.amount
    } else {
        LATE_DEPOSIT_MIN
    }
}

/// Where the evaluation of a payment stands.
#[derive(Debug, Clone, Copy, PartialEq, Eq, Structural)]
pub enum Stage {
    AwaitHistory,
    AwaitTip,
    AwaitBalance,
    AwaitUnspent,
    AwaitFeeEstimate,
    AwaitBroadcast,
    Finished,
}

/// Order of the stages.
pub open spec fn rank(s: Stage) -> nat {
    match s {
        Stage::AwaitHistory => 0,
        Stage::AwaitTip => 1,
        Stage::AwaitBalance => 2,
        Stage::AwaitUnspent => 3,
        Stage::AwaitFeeEstimate => 4,
        Stage::AwaitBroadcast => 5,
        Stage::Finished => 6,
    }
}

/// An answer of the chain indexer, read into the fields the engine uses.
#[derive(Debug, Clone)]
pub enum Reply {
    /// Heights of the history entries; `None` where no non-negative height
    /// was reported.
    History(Vec<Option<u64>>),
    /// Height of the chain tip, if reported.
    Tip(Option<u64>),
    /// Confirmed balance, if reported.
    Balance(Option<u64>),
    Unspent(Vec<Utxo>),
    /// Fee estimate in base units per 1000 virtual bytes, rounded up.
    FeeEstimate(Option<u64>),
    /// The transaction was accepted.
    Broadcast,
    /// The call failed after its retries.
    CallFailed,
}

/// Why a payment is left alone on this tick.
#[derive(Debug, Clone, Copy, PartialEq, Eq, Structural)]
pub enum SkipReason {
    NotConfirmed,
    InsufficientBalance,
    /// The outputs are worth no more than the fee.
    Dust,
}

/// Why the evaluation of a payment failed; its state stays as it was.
#[derive(Debug, Clone, Copy, PartialEq, Eq, Structural)]
pub enum SweepError {
    Address(AddressError),
    Tx(TxError),
    Key(VaultError),
    /// The decrypted key is not a valid secret key.
    InvalidSecretKey,
    /// A call to the chain indexer failed.
    Chain,
    /// An answer that does not fit the stage.
    UnexpectedReply,
}

/// What the caller is to do next.
#[derive(Debug, Clone)]
pub enum Step {
    /// Make this call and feed the answer back.
    Ask(Request),
    /// The sweep was broadcast: mark the payment completed.
    MarkCompleted,
    Skip(SkipReason),
    Fail(SweepError),
}

/// `sk` is the secret key sealed in the blob `wif_enc` under `key`: the blob
/// opens to UTF-8 text that is the hexadecimal text of `sk`.
pub open spec fn key_opens(key: Seq<u8>, wif_enc: Seq<char>, sk: Seq<u8>) -> bool {
    well_formed_blob(wif_enc) && exists|p: Seq<u8>|
        #[trigger] opens_to(key, hex_value(wif_enc), p) && valid_utf8(p) && is_valid_hex(
            decode_utf8(p),
        ) && hex_value(decode_utf8(p)) == sk
}

/// The secret key that creating a payment sealed (its hexadecimal text,
/// encrypted under the vault's key) opens again when the payment is swept,
/// so the fee step signs rather than fails.
pub proof fn lemma_created_key_opens(key: Seq<u8>, sk: Seq<u8>, wif_enc: Seq<char>)
    requires
        key.len() == KEY_LEN,
        valid_secret_key(sk),
        is_encryption_of(key, encode_utf8(hex_text(sk)), wif_enc),
    ensures
        key_opens(key, wif_enc, sk),
{
    let text = hex_text(sk);
    let pt = encode_utf8(text);
    lemma_sealed_blob_opens(key, pt, wif_enc);
    encode_utf8_valid_utf8(text);
    encode_utf8_decode_utf8(text);
    lemma_hex_round_trip(sk);
    assert(opens_to(key, hex_value(wif_enc), pt));
}

/// Opens the sealed secret key of a payment.
pub fn secret_key_from_blob(vault: &KeyVault, wif_enc: &str) -> (r: Result<Vec<u8>, SweepError>)
    ensures
        r matches Ok(sk) ==> valid_secret_key(sk@) && key_opens(vault@, wif_enc@, sk@),
        r is Err ==> !exists|sk: Seq<u8>| valid_secret_key(sk) && key_opens(vault@, wif_enc@, sk),
{
    let wif = match vault.decrypt_wif(wif_enc) {
        Ok(w) => w,
        Err(e) => return Err(SweepError::Key(e)),
    };
    let sk = match hex_decode(wif.as_str()) {
        Some(b) => b,
        None => return Err(SweepError::InvalidSecretKey),
    };
    if !secret_key_accepted(sk.as_slice()) {
        return Err(SweepError::InvalidSecretKey);
    }
    proof {
        let p = choose|p: Seq<u8>|
            opens_to(vault@, hex_value(wif_enc@), p) && valid_utf8(p) && wif@ == decode_utf8(p);
        assert(opens_to(vault@, hex_value(wif_enc@), p));
    }
    Ok(sk)
}

/// `tx` with its output's value set to `value`.
pub open spec fn with_output_value(tx: SweepTx, value: u64) -> SweepTx {
    SweepTx { output_value: value, ..tx }
}

/// The evaluation of one payment.
#[derive(Debug, Clone)]
pub struct Sweep {
    pub stage: Stage,
    /// The indexer's identifier of the payment's address.
    pub script_id: String,
    pub status: PaymentStatus,
    pub amount: u64,
    pub wif_enc: String,
    pub confirmations_needed: u64,
    pub cold_script: Vec<u8>,
    /// Heights of the history entries.
    pub heights: Vec<Option<u64>>,
    /// Height of the tip; 0 when not reported.
    pub tip: u64,
    pub confirmations: u64,
    pub confirmed_balance: u64,
    /// The unsigned transaction, output value 0.
    pub unsigned: SweepTx,
    /// Sum of the spent outputs' values.
    pub total: u64,
    pub fee: u64,
    /// The signed transaction handed out for broadcast.
    pub signed: SweepTx,
}

/// `reply` is the kind of answer that `stage` waits for (a failed fee
/// estimate counts: the minimum rate stands in).
pub open spec fn answers(stage: Stage, reply: Reply) -> bool {
    match stage {
        Stage::AwaitHistory => reply is History,
        Stage::AwaitTip => reply is Tip,
        Stage::AwaitBalance => reply is Balance,
        Stage::AwaitUnspent => reply is Unspent,
        Stage::AwaitFeeEstimate => reply is FeeEstimate || reply is CallFailed,
        Stage::AwaitBroadcast => reply is Broadcast,
        Stage::Finished => false,
    }
}

/// An empty transaction, before any is assembled.
fn empty_tx() -> (r: SweepTx)
    ensures
        r.inputs@.len() == 0,
{
    SweepTx {
        version: TX_VERSION,
        lock_time: TX_LOCK_TIME,
        inputs: Vec::new(),
        output_script: Vec::new(),
        output_value: 0,
    }
}

impl Sweep {
    /// What every stage past the confirmation gate has established.
    pub open spec fn wf(&self) -> bool {
        &&& rank(self.stage) >= 2 && self.stage != Stage::Finished ==> {
            &&& is_confirmation_count(self.tip, self.heights@, self.confirmations as nat)
            &&& self.confirmations >= self.confirmations_needed
        }
        &&& rank(self.stage) >= 3 && self.stage != Stage::Finished ==> self.confirmed_balance
            >= required_of(self.status, self.amount)
        &&& rank(self.stage) >= 4 && self.stage != Stage::Finished ==> {
            &&& txids_well_formed(self.unsigned)
            &&& self.unsigned.output_script@ == self.cold_script@
        }
        &&& self.stage == Stage::AwaitBroadcast ==> self.total > self.fee
    }

    /// Every gate of a sweep passed: enough confirmations, enough confirmed
    /// balance, and outputs worth more than the fee.
    pub open spec fn gates_passed(&self) -> bool {
        &&& is_confirmation_count(self.tip, self.heights@, self.confirmations as nat)
        &&& self.confirmations >= self.confirmations_needed
        &&& self.confirmed_balance >= required_of(self.status, self.amount)
        &&& self.total > self.fee
    }

    /// Starts evaluating `p`: the first call asks for the address's history.
    pub fn begin(p: &Payment, config: &SweepConfig) -> (r: (Sweep, Step))
        ensures
            r.0.wf(),
            r.0.status == p.status,
            r.0.amount == p.amount,
            r.0.wif_enc == p.wif_enc,
            r.0.confirmations_needed == config.confirmations_needed,
            r.0.cold_script@ == config.cold_script@,
            witness_program_of(p.address@) matches Ok(prog) ==> r.0.stage == Stage::AwaitHistory
                && r.0.script_id@ == script_identifier_of(prog) && r.1 == Step::Ask(
                Request::History(r.0.script_id),
            ),
            witness_program_of(p.address@) matches Err(e) ==> r.0.stage == Stage::Finished && r.1
                == Step::Fail(SweepError::Address(e)),
    {
        let (stage, script_id, step) = match script_hash(p.address.as_str()) {
            Ok(sid) => {
                let req = Request::History(sid.clone());
                (Stage::AwaitHistory, sid, Step::Ask(req))
            },
            Err(e) => (Stage::Finished, String::new(), Step::Fail(SweepError::Address(e))),
        };
        let sweep = Sweep {
            stage,
            script_id,
            status: p.status,
            amount: p.amount,
            wif_enc: p.wif_enc.clone(),
            confirmations_needed: config.confirmations_needed,
            cold_script: copy_bytes(config.cold_script.as_slice()),
            heights: Vec::new(),
            tip: 0,
            confirmations: 0,
            confirmed_balance: 0,
            unsigned: empty_tx(),
            total: 0,
            fee: 0,
            signed: empty_tx(),
        };
        (sweep, step)
    }

    /// Feeds the answer to the last `Step::Ask` back and returns the next
    /// step. A broadcast is only ever asked for once every gate passed.
    pub fn advance(&mut self, reply: Reply, vault: &KeyVault) -> (r: Step)
        requires
            old(self).wf(),
        ensures
            final(self).wf(),
            final(self).status == old(self).status,
            final(self).amount == old(self).amount,
            final(self).confirmations_needed == old(self).confirmations_needed,
            // a broadcast only once every gate passed
            r matches Step::Ask(Request::Broadcast(_)) ==> final(self).gates_passed()
                && final(self).stage == Stage::AwaitBroadcast,
            // the history is recorded, then the tip is asked for
            reply matches Reply::History(hs) ==> (old(self).stage == Stage::AwaitHistory
                ==> final(self).heights@ == hs@ && final(self).stage == Stage::AwaitTip && r
                == Step::Ask(Request::Tip)),
            // the confirmation gate
            reply matches Reply::Tip(t) ==> old(self).stage == Stage::AwaitTip ==> {
                &&& final(self).tip == t.unwrap_or(0)
                &&& is_confirmation_count(
                    final(self).tip,
                    old(self).heights@,
                    final(self).confirmations as nat,
                )
                &&& final(self).confirmations < old(self).confirmations_needed ==> r == Step::Skip(
                    SkipReason::NotConfirmed,
                ) && final(self).stage == Stage::Finished
                &&& final(self).confirmations >= old(self).confirmations_needed ==> r == Step::Ask(
                    Request::Balance(old(self).script_id),
                ) && final(self).stage == Stage::AwaitBalance
            },
            // the balance gate
            reply matches Reply::Balance(b) ==> old(self).stage == Stage::AwaitBalance ==> {
                &&& final(self).confirmed_balance == b.unwrap_or(0)
                &&& final(self).confirmed_balance < required_of(old(self).status, old(self).amount)
                    ==> r == Step::Skip(SkipReason::InsufficientBalance) && final(self).stage
                    == Stage::Finished
                &&& final(self).confirmed_balance >= required_of(old(self).status, old(self).amount)
                    ==> r == Step::Ask(Request::Unspent(old(self).script_id)) && final(self).stage
                    == Stage::AwaitUnspent
            },
            // the outputs are gathered into one transaction to cold storage
            reply matches Reply::Unspent(us) ==> old(self).stage == Stage::AwaitUnspent ==> {
                &&& r is Fail || r == Step::Ask(Request::FeeEstimate)
                &&& r == Step::Ask(Request::FeeEstimate) <==> (forall|i: int|
                    0 <= i < us@.len() ==> utxo_ok(#[trigger] us@[i])) && total_value(us@)
                    <= u64::MAX
                &&& r == Step::Ask(Request::FeeEstimate) ==> {
                    &&& is_unsigned_sweep(final(self).unsigned, us@, old(self).cold_script@)
                    &&& final(self).total == total_value(us@)
                    &&& final(self).stage == Stage::AwaitFeeEstimate
                }
            },
            // the fee gate, then signing
            old(self).stage == Stage::AwaitFeeEstimate && (reply is FeeEstimate
                || reply is CallFailed) ==> {
                let estimate = if let Reply::FeeEstimate(e) = reply {
                    e
                } else {
                    None
                };
                &&& final(self).fee == fee_of(estimated_vsize_of(old(self).unsigned), estimate)
                &&& final(self).total == old(self).total
                &&& final(self).unsigned == old(self).unsigned
                &&& final(self).heights == old(self).heights
                &&& final(self).tip == old(self).tip
                &&& final(self).confirmations == old(self).confirmations
                &&& final(self).confirmed_balance == old(self).confirmed_balance
                &&& old(self).total <= final(self).fee ==> r == Step::Skip(SkipReason::Dust)
                    && final(self).stage == Stage::Finished
                &&& old(self).total > final(self).fee ==> (r is Fail || r is Ask)
                &&& old(self).total > final(self).fee ==> (r is Fail <==> !exists|sk: Seq<u8>|
                    valid_secret_key(sk) && key_opens(vault@, old(self).wif_enc@, sk))
                &&& r matches Step::Ask(Request::Broadcast(h)) ==> exists|sk: Seq<u8>|
                    {
                        &&& valid_secret_key(sk)
                        &&& key_opens(vault@, old(self).wif_enc@, sk)
                        &&& #[trigger] is_signed_with(
                            final(self).signed,
                            with_output_value(old(self).unsigned, (old(self).total - final(self).fee) as u64),
                            sk,
                        )
                        &&& h@ == hex_text(tx_bytes_of(final(self).signed))
                    }
            },
            // the broadcast was accepted
            old(self).stage == Stage::AwaitBroadcast && reply is Broadcast ==> r
                == Step::MarkCompleted && final(self).stage == Stage::Finished,
            // an answer that does not fit the stage ends the evaluation
            !answers(old(self).stage, reply) ==> final(self).stage == Stage::Finished && r == if reply is CallFailed {
                Step::Fail(SweepError::Chain)
            } else {
                Step::Fail(SweepError::UnexpectedReply)
            },
            r is Fail || r is Skip || r is MarkCompleted ==> final(self).stage == Stage::Finished,
    {
        match (self.stage, reply) {
            (Stage::AwaitHistory, Reply::History(hs)) => {
                self.heights = hs;
                self.stage = Stage::AwaitTip;
                Step::Ask(Request::Tip)
            },
            (Stage::AwaitTip, Reply::Tip(t)) => {
                let tip: u64 = match t {
                    Some(x) => x,
                    None => 0,
                };
                self.tip = tip;
                self.confirmations = confirmations(t, &self.heights);
                if self.confirmations < self.confirmations_needed {
                    self.stage = Stage::Finished;
                    Step::Skip(SkipReason::NotConfirmed)
                } else {
                    self.stage = Stage::AwaitBalance;
                    Step::Ask(Request::Balance(self.script_id.clone()))
                }
            },
            (Stage::AwaitBalance, Reply::Balance(b)) => {
                self.confirmed_balance = match b {
                    Some(x) => x,
                    None => 0,
                };
                let needed = if self.status == PaymentStatus::Pending {
                    self.amount
                } else {
                    LATE_DEPOSIT_MIN
                };
                if self.confirmed_balance < needed {
                    self.stage = Stage::Finished;
                    Step::Skip(SkipReason::InsufficientBalance)
                } else {
                    self.stage = Stage::AwaitUnspent;
                    Step::Ask(Request::Unspent(self.script_id.clone()))
                }
            },
            (Stage::AwaitUnspent, Reply::Unspent(us)) => {
                match build_sweep(&us, &self.cold_script) {
                    Ok((tx, total)) => {
                        self.unsigned = tx;
                        self.total = total;
                        self.stage = Stage::AwaitFeeEstimate;
                        Step::Ask(Request::FeeEstimate)
                    },
                    Err(e) => {
                        self.stage = Stage::Finished;
                        Step::Fail(SweepError::Tx(e))
                    },
                }
            },
            (Stage::AwaitFeeEstimate, Reply::FeeEstimate(e)) => self.finish_fee(e, vault),
            (Stage::AwaitFeeEstimate, Reply::CallFailed) => self.finish_fee(None, vault),
            (Stage::AwaitBroadcast, Reply::Broadcast) => {
                self.stage = Stage::Finished;
                Step::MarkCompleted
            },
            (_, Reply::CallFailed) => {
                self.stage = Stage::Finished;
                Step::Fail(SweepError::Chain)
            },
            _ => {
                self.stage = Stage::Finished;
                Step::Fail(SweepError::UnexpectedReply)
            },
        }
    }

    /// The fee gate and the signing, once the estimate is known.
    fn finish_fee(&mut self, estimate: Option<u64>, vault: &KeyVault) -> (r: Step)
        requires
            old(self).wf(),
            old(self).stage == Stage::AwaitFeeEstimate,
        ensures
            final(self).wf(),
            final(self).status == old(self).status,
            final(self).amount == old(self).amount,
            final(self).confirmations_needed == old(self).confirmations_needed,
            final(self).tip == old(self).tip,
            final(self).heights == old(self).heights,
            final(self).confirmations == old(self).confirmations,
            final(self).confirmed_balance == old(self).confirmed_balance,
            final(self).total == old(self).total,
            final(self).unsigned == old(self).unsigned,
            final(self).fee == fee_of(estimated_vsize_of(old(self).unsigned), estimate),
            old(self).total <= final(self).fee ==> r == Step::Skip(SkipReason::Dust)
                && final(self).stage == Stage::Finished,
            old(self).total > final(self).fee ==> (r is Fail || r is Ask),
            old(self).total > final(self).fee ==> (r is Fail <==> !exists|sk: Seq<u8>|
                valid_secret_key(sk) && key_opens(vault@, old(self).wif_enc@, sk)),
            r is Fail ==> final(self).stage == Stage::Finished,
            r is Ask ==> final(self).stage == Stage::AwaitBroadcast,
            r is Ask ==> (r matches Step::Ask(Request::Broadcast(_))),
            r matches Step::Ask(Request::Broadcast(h)) ==> exists|sk: Seq<u8>|
                {
                    &&& valid_secret_key(sk)
                    &&& key_opens(vault@, old(self).wif_enc@, sk)
                    &&& #[trigger] is_signed_with(
                        final(self).signed,
                        with_output_value(old(self).unsigned, (old(self).total - final(self).fee) as u64),
                        sk,
                    )
                    &&& h@ == hex_text(tx_bytes_of(final(self).signed))
                },
    {
        let ghost u0 = self.unsigned;
        let vsize = estimated_vsize(&self.unsigned);
        self.fee = fee_sat(vsize, estimate);
        if self.total <= self.fee {
            self.stage = Stage::Finished;
            return Step::Skip(SkipReason::Dust);
        }
        let sk = match secret_key_from_blob(vault, self.wif_enc.as_str()) {
            Ok(k) => k,
            Err(e) => {
                self.stage = Stage::Finished;
                return Step::Fail(e);
            },
        };
        let mut tx = empty_tx();
        core::mem::swap(&mut tx, &mut self.unsigned);
        let kept = tx.output_value;
        tx.output_value = self.total - self.fee;
        assert(tx == with_output_value(u0, (self.total - self.fee) as u64));
        let signed = sign_inputs(&tx, sk.as_slice());
        tx.output_value = kept;
        self.unsigned = tx;
        let raw = serialize(&signed);
        let h = hex_encode(raw.as_slice());
        self.signed = signed;
        self.stage = Stage::AwaitBroadcast;
        assert(is_signed_with(self.signed, with_output_value(u0, (self.total - self.fee) as u64), sk@));
        Step::Ask(Request::Broadcast(h))
    }
}

} // verus!
