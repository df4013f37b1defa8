use bitcoin::hashes::Hash as _;
use ltc_gateway::chain::{fee_sat, Request, Utxo};
use ltc_gateway::db::{Payment, PaymentStatus};
use ltc_gateway::keys::{addr_to_script, new_key};
use ltc_gateway::payments::{chain_status, create_payment, CreateError};
use ltc_gateway::sweeper::{
    expiry_due, required_balance, should_evaluate, Reply, SkipReason, Stage, Sweep, SweepConfig,
    SweepError,
};
use ltc_gateway::tx::{build_sweep, TxError};
use ltc_gateway::vault::KeyVault;

const KEY_HEX: &str = "000102030405060708090a0b0c0d0e0f101112131415161718191a1b1c1d1e1f";
const NOW: i64 = 1_700_000_000;
const TXID_A: &str = "1111111111111111111111111111111111111111111111111111111111111111";
const TXID_B: &str = "a1b2c3d4e5f60718293a4b5c6d7e8f90a1b2c3d4e5f60718293a4b5c6d7e8f90";

fn vault() -> KeyVault {
    KeyVault::from_hex_key(KEY_HEX).unwrap()
}

fn cold() -> (String, SweepConfig) {
    let (_, _, addr) = new_key();
    let cfg = SweepConfig::new(2, &addr, 360).unwrap();
    (addr, cfg)
}

fn utxo(txid: &str, pos: u64, value: u64) -> Utxo {
    Utxo { tx_hash: txid.to_string(), tx_pos: pos, value }
}

/// Virtual size of a broadcast transaction without its witnesses, plus the
/// allowance the engine adds for them.
fn estimated_vsize(raw_hex: &str) -> u64 {
    let mut tx: bitcoin::Transaction =
        bitcoin::consensus::deserialize(&hex::decode(raw_hex).unwrap()).unwrap();
    for input in tx.input.iter_mut() {
        input.witness = bitcoin::Witness::default();
    }
    tx.vsize() as u64 + 68
}

fn ask(step: &ltc_gateway::sweeper::Step) -> Request {
    match step {
        ltc_gateway::sweeper::Step::Ask(r) => r.clone(),
        other => panic!("expected a request, got {:?}", other),
    }
}

/// Runs a pending payment of `amount` up to the fee estimate.
fn up_to_fee(amount: u64, utxos: Vec<Utxo>) -> (KeyVault, Payment, SweepConfig, Sweep) {
    let v = vault();
    let p = create_payment(&v, "ltc", "p1".to_string(), amount, 3600, NOW).unwrap();
    let (_, cfg) = cold();
    let (mut s, step) = Sweep::begin(&p, &cfg);
    assert!(matches!(ask(&step), Request::History(_)));
    let step = s.advance(Reply::History(vec![Some(98), Some(0)]), &v);
    assert_eq!(ask(&step), Request::Tip);
    let step = s.advance(Reply::Tip(Some(100)), &v);
    assert!(matches!(ask(&step), Request::Balance(_)));
    let step = s.advance(Reply::Balance(Some(amount)), &v);
    assert!(matches!(ask(&step), Request::Unspent(_)));
    let step = s.advance(Reply::Unspent(utxos), &v);
    assert_eq!(ask(&step), Request::FeeEstimate);
    (v, p, cfg, s)
}

#[test]
fn create_payment_scenario() {
    let v = vault();
    let p = create_payment(&v, "ltc", "id-1".to_string(), 1_000_000, 3600, NOW).unwrap();
    assert_eq!(p.status, PaymentStatus::Pending);
    assert_eq!(p.expires_at, NOW + 3600);
    assert_eq!(p.created_at, NOW);
    assert_eq!(p.amount, 1_000_000);
    let (hrp, _, variant) = bech32::decode(&p.address).unwrap();
    assert_eq!(hrp, "ltc");
    assert_eq!(variant, bech32::Variant::Bech32);
    let wif = v.decrypt_wif(&p.wif_enc).unwrap();
    assert_eq!(wif.len(), 64);
}

#[test]
fn create_payment_refusals_and_no_expiry() {
    let v = vault();
    assert_eq!(
        create_payment(&v, "ltc", "x".to_string(), 0, 10, NOW).err(),
        Some(CreateError::InvalidAmount)
    );
    assert_eq!(
        create_payment(&v, "ltc", "x".to_string(), 5, u64::MAX, NOW).err(),
        Some(CreateError::InvalidTtl)
    );
    assert_eq!(create_payment(&v, "ltc", "x".to_string(), 5, 0, NOW).unwrap().expires_at, 0);
    assert_eq!(
        create_payment(&v, "", "x".to_string(), 5, 0, NOW).err(),
        Some(CreateError::InvalidPrefix)
    );
    assert_eq!(
        create_payment(&v, "Ltc", "x".to_string(), 5, 0, NOW).err(),
        Some(CreateError::InvalidPrefix)
    );
    let p = create_payment(&v, "tltc", "x".to_string(), 5, 0, NOW).unwrap();
    assert!(p.address.starts_with("tltc1q"));
}

#[test]
fn full_sweep_produces_one_signed_transaction_to_cold_storage() {
    let v = vault();
    let p = create_payment(&v, "ltc", "p1".to_string(), 1_000_000, 3600, NOW).unwrap();
    let (cold_addr, cfg) = cold();
    let (mut s, step) = Sweep::begin(&p, &cfg);
    assert!(matches!(ask(&step), Request::History(_)));
    assert!(matches!(ask(&s.advance(Reply::History(vec![Some(98), Some(0), Some(95)]), &v)), Request::Tip));
    assert!(matches!(ask(&s.advance(Reply::Tip(Some(100)), &v)), Request::Balance(_)));
    assert_eq!(s.confirmations, 3);
    assert!(matches!(ask(&s.advance(Reply::Balance(Some(1_000_000)), &v)), Request::Unspent(_)));
    let utxos = vec![utxo(TXID_A, 0, 600_000), utxo(TXID_B, 3, 400_000)];
    assert_eq!(ask(&s.advance(Reply::Unspent(utxos), &v)), Request::FeeEstimate);
    let raw_hex = match ask(&s.advance(Reply::FeeEstimate(Some(10_000)), &v)) {
        Request::Broadcast(h) => h,
        other => panic!("expected a broadcast, got {:?}", other),
    };
    assert_eq!(s.stage, Stage::AwaitBroadcast);

    let tx: bitcoin::Transaction =
        bitcoin::consensus::deserialize(&hex::decode(&raw_hex).unwrap()).unwrap();
    assert_eq!(tx.version, 2);
    assert_eq!(tx.output.len(), 1);
    assert_eq!(tx.output[0].script_pubkey.as_bytes(), addr_to_script(&cold_addr).unwrap().as_slice());
    assert_eq!(s.fee, fee_sat(estimated_vsize(&raw_hex), Some(10_000)));
    assert_eq!(s.fee, 10 * estimated_vsize(&raw_hex));
    assert_eq!(tx.output[0].value, 1_000_000 - s.fee);
    assert_eq!(tx.input.len(), 2);
    assert_eq!(tx.input[0].previous_output.vout, 0);
    assert_eq!(tx.input[1].previous_output.vout, 3);
    assert_eq!(tx.input[0].previous_output.txid.to_string(), TXID_A);
    assert_eq!(tx.input[1].previous_output.txid.to_string(), TXID_B);

    let sk_hex = v.decrypt_wif(&p.wif_enc).unwrap();
    let sk = secp256k1::SecretKey::from_slice(&hex::decode(sk_hex).unwrap()).unwrap();
    let secp = secp256k1::Secp256k1::new();
    let own_pk = secp256k1::PublicKey::from_secret_key(&secp, &sk);
    let values = [600_000u64, 400_000u64];
    for (i, input) in tx.input.iter().enumerate() {
        let w = input.witness.to_vec();
        assert_eq!(w.len(), 2);
        let pk = secp256k1::PublicKey::from_slice(&w[1]).unwrap();
        assert_eq!(pk, own_pk);
        assert_eq!(*w[0].last().unwrap(), 1u8);
        let sig = secp256k1::ecdsa::Signature::from_der(&w[0][..w[0].len() - 1]).unwrap();
        let code = bitcoin::Script::new_p2pkh(&bitcoin::PubkeyHash::hash(&pk.serialize()));
        let digest = bitcoin::util::sighash::SighashCache::new(&tx)
            .segwit_signature_hash(i, &code, values[i], bitcoin::EcdsaSighashType::All)
            .unwrap();
        let msg = secp256k1::Message::from_slice(&digest[..]).unwrap();
        assert!(secp.verify_ecdsa(&msg, &sig, &pk).is_ok());
    }

    let step = s.advance(Reply::Broadcast, &v);
    assert!(matches!(step, ltc_gateway::sweeper::Step::MarkCompleted));
    assert_eq!(s.stage, Stage::Finished);
}

#[test]
fn too_few_confirmations_skip() {
    let v = vault();
    let p = create_payment(&v, "ltc", "p1".to_string(), 1000, 0, NOW).unwrap();
    let (_, cfg) = cold();
    let (mut s, _) = Sweep::begin(&p, &cfg);
    s.advance(Reply::History(vec![Some(100), Some(0)]), &v);
    let step = s.advance(Reply::Tip(Some(100)), &v);
    assert!(matches!(step, ltc_gateway::sweeper::Step::Skip(SkipReason::NotConfirmed)));
    assert_eq!(s.stage, Stage::Finished);
    // an unconfirmed-only history is never enough
    let (mut s, _) = Sweep::begin(&p, &cfg);
    s.advance(Reply::History(vec![Some(0)]), &v);
    let step = s.advance(Reply::Tip(Some(100)), &v);
    assert!(matches!(step, ltc_gateway::sweeper::Step::Skip(SkipReason::NotConfirmed)));
}

#[test]
fn short_balance_skips() {
    let v = vault();
    let p = create_payment(&v, "ltc", "p1".to_string(), 1000, 0, NOW).unwrap();
    let (_, cfg) = cold();
    let (mut s, _) = Sweep::begin(&p, &cfg);
    s.advance(Reply::History(vec![Some(90)]), &v);
    s.advance(Reply::Tip(Some(100)), &v);
    let step = s.advance(Reply::Balance(Some(999)), &v);
    assert!(matches!(step, ltc_gateway::sweeper::Step::Skip(SkipReason::InsufficientBalance)));
    let (mut s, _) = Sweep::begin(&p, &cfg);
    s.advance(Reply::History(vec![Some(90)]), &v);
    s.advance(Reply::Tip(Some(100)), &v);
    let step = s.advance(Reply::Balance(None), &v);
    assert!(matches!(step, ltc_gateway::sweeper::Step::Skip(SkipReason::InsufficientBalance)));
}

#[test]
fn dust_is_not_broadcast() {
    let (v, _, _, mut s) = up_to_fee(100, vec![utxo(TXID_A, 0, 100)]);
    let step = s.advance(Reply::FeeEstimate(Some(10_000)), &v);
    assert!(matches!(step, ltc_gateway::sweeper::Step::Skip(SkipReason::Dust)));
    assert!(s.total <= s.fee);
}

#[test]
fn failed_estimate_uses_the_minimum_rate() {
    let (v, _, _, mut s) = up_to_fee(50_000, vec![utxo(TXID_A, 1, 50_000)]);
    let step = s.advance(Reply::CallFailed, &v);
    let raw_hex = match ask(&step) {
        Request::Broadcast(h) => h,
        other => panic!("expected a broadcast, got {:?}", other),
    };
    assert_eq!(s.fee, estimated_vsize(&raw_hex));
}

#[test]
fn bad_unspent_reports_fail_the_evaluation() {
    let v = vault();
    let p = create_payment(&v, "ltc", "p1".to_string(), 10, 0, NOW).unwrap();
    let (_, cfg) = cold();
    let (mut s, _) = Sweep::begin(&p, &cfg);
    s.advance(Reply::History(vec![Some(1)]), &v);
    s.advance(Reply::Tip(Some(100)), &v);
    s.advance(Reply::Balance(Some(10)), &v);
    let step = s.advance(Reply::Unspent(vec![utxo("xyz", 0, 10)]), &v);
    assert!(matches!(step, ltc_gateway::sweeper::Step::Fail(SweepError::Tx(TxError::BadUtxo))));
}

#[test]
fn build_sweep_checks_its_inputs() {
    let script = vec![0u8; 22];
    assert_eq!(
        build_sweep(&vec![utxo(TXID_A, 1 << 32, 5)], &script).err(),
        Some(TxError::BadUtxo)
    );
    assert_eq!(
        build_sweep(&vec![utxo(TXID_A, 0, u64::MAX), utxo(TXID_B, 0, 1)], &script).err(),
        Some(TxError::ValueOverflow)
    );
    let (tx, total) = build_sweep(&vec![utxo(TXID_A, 0, 5), utxo(TXID_B, 2, 7)], &script).unwrap();
    assert_eq!(total, 12);
    assert_eq!(tx.inputs.len(), 2);
    assert_eq!(tx.inputs[1].vout, 2);
    assert_eq!(tx.inputs[0].sequence, 0xffff_ffff);
    let mut display = tx.inputs[1].txid.clone();
    display.reverse();
    assert_eq!(hex::encode(display), TXID_B);
    assert_eq!(tx.output_value, 0);
}

#[test]
fn wrong_vault_key_fails_before_signing() {
    let (_, _, _, mut s) = up_to_fee(50_000, vec![utxo(TXID_A, 1, 50_000)]);
    let other = KeyVault::from_hex_key(&"ab".repeat(32)).unwrap();
    let step = s.advance(Reply::FeeEstimate(Some(1000)), &other);
    assert!(matches!(
        step,
        ltc_gateway::sweeper::Step::Fail(SweepError::Key(ltc_gateway::vault::VaultError::AuthenticationFailure))
    ));
}

#[test]
fn out_of_order_replies_end_the_evaluation() {
    let v = vault();
    let p = create_payment(&v, "ltc", "p1".to_string(), 10, 0, NOW).unwrap();
    let (_, cfg) = cold();
    let (mut s, _) = Sweep::begin(&p, &cfg);
    let step = s.advance(Reply::Broadcast, &v);
    assert!(matches!(step, ltc_gateway::sweeper::Step::Fail(SweepError::UnexpectedReply)));
    let (mut s, _) = Sweep::begin(&p, &cfg);
    let step = s.advance(Reply::CallFailed, &v);
    assert!(matches!(step, ltc_gateway::sweeper::Step::Fail(SweepError::Chain)));
}

#[test]
fn bad_payment_address_fails_at_once() {
    let v = vault();
    let mut p = create_payment(&v, "ltc", "p1".to_string(), 10, 0, NOW).unwrap();
    p.address = "nonsense".to_string();
    let (_, cfg) = cold();
    let (s, step) = Sweep::begin(&p, &cfg);
    assert_eq!(s.stage, Stage::Finished);
    assert!(matches!(step, ltc_gateway::sweeper::Step::Fail(SweepError::Address(_))));
}

#[test]
fn final_payments_need_any_positive_balance() {
    let v = vault();
    let mut p = create_payment(&v, "ltc", "p1".to_string(), 1_000_000, 0, NOW).unwrap();
    assert_eq!(required_balance(&p), 1_000_000);
    p.status = PaymentStatus::Completed;
    assert_eq!(required_balance(&p), 1);
    let (_, cfg) = cold();
    let (mut s, _) = Sweep::begin(&p, &cfg);
    s.advance(Reply::History(vec![Some(50)]), &v);
    s.advance(Reply::Tip(Some(100)), &v);
    let step = s.advance(Reply::Balance(Some(1)), &v);
    assert!(matches!(ask(&step), Request::Unspent(_)));
}

#[test]
fn two_speed_polling() {
    assert!(should_evaluate(PaymentStatus::Pending, 7, 360));
    assert!(!should_evaluate(PaymentStatus::Completed, 7, 360));
    assert!(should_evaluate(PaymentStatus::Completed, 720, 360));
    assert!(should_evaluate(PaymentStatus::Expired, 0, 360));
    assert!(!should_evaluate(PaymentStatus::Expired, 360, 0));
}

#[test]
fn expiry_is_due_only_for_pending_payments_past_their_deadline() {
    let v = vault();
    let mut p = create_payment(&v, "ltc", "p1".to_string(), 10, 3600, NOW).unwrap();
    assert!(!expiry_due(&p, NOW + 3600));
    assert!(expiry_due(&p, NOW + 3601));
    p.status = PaymentStatus::Completed;
    assert!(!expiry_due(&p, NOW + 3601));
    let q = create_payment(&v, "ltc", "p2".to_string(), 10, 0, NOW).unwrap();
    assert!(!expiry_due(&q, i64::MAX));
}

#[test]
fn lookup_status_counts_confirmed_and_unconfirmed_funds() {
    let st = chain_status(Some(100), &vec![Some(98), Some(0), Some(95)], Some(700), Some(-5));
    assert_eq!(st.confirmations, 3);
    assert_eq!(st.received, 700);
    let st = chain_status(None, &vec![], None, Some(300));
    assert_eq!(st.confirmations, 0);
    assert_eq!(st.received, 300);
}

#[test]
fn sealed_text_that_is_not_a_secret_key_fails() {
    for text in ["00".repeat(32), "zz".to_string(), "ff".repeat(32)] {
        let (v, mut p, cfg, _) = up_to_fee(50_000, vec![utxo(TXID_A, 1, 50_000)]);
        p.wif_enc = v.encrypt_wif(&text);
        let (mut s, _) = Sweep::begin(&p, &cfg);
        s.advance(Reply::History(vec![Some(1)]), &v);
        s.advance(Reply::Tip(Some(100)), &v);
        s.advance(Reply::Balance(Some(50_000)), &v);
        s.advance(Reply::Unspent(vec![utxo(TXID_A, 1, 50_000)]), &v);
        let step = s.advance(Reply::FeeEstimate(Some(1000)), &v);
        assert!(matches!(step, ltc_gateway::sweeper::Step::Fail(SweepError::InvalidSecretKey)));
    }
}

#[test]
fn cold_storage_must_be_a_p2wpkh_address() {
    assert!(SweepConfig::new(2, "nonsense", 360).is_err());
    let taproot = "bc1p0xlxvlhemja6c4dqv22uapctqupfhlxm9h8z3k2e72q4k9hcz7vqzk5jj0";
    assert!(SweepConfig::new(2, taproot, 360).is_err());
    let cfg = SweepConfig::new(3, "bc1qw508d6qejxtdg4y5r3zarvary0c5xw7kv8f3t4", 360).unwrap();
    assert_eq!(cfg.confirmations_needed, 3);
    assert_eq!(hex::encode(&cfg.cold_script), "0014751e76e8199196d454941c45d1b3a323f1433bd6");
}
