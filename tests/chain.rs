use ltc_gateway::chain::{
    confirmations, fee_rate, fee_sat, ConnectionPool, Request, RetryDecision, RetryPolicy, RpcParam,
};

#[test]
fn confirmations_take_the_shallowest_confirmed_entry() {
    let heights = vec![Some(98), Some(0), Some(95)];
    assert_eq!(confirmations(Some(100), &heights), 3);
}

#[test]
fn confirmations_without_confirmed_entries_are_zero() {
    assert_eq!(confirmations(Some(100), &vec![]), 0);
    assert_eq!(confirmations(Some(100), &vec![Some(0), None]), 0);
}

#[test]
fn confirmations_of_the_tip_block_are_one() {
    assert_eq!(confirmations(Some(100), &vec![Some(100)]), 1);
}

#[test]
fn entries_above_the_tip_count_as_no_depth() {
    // the tip answer may lag the history answer
    assert_eq!(confirmations(Some(100), &vec![Some(101), Some(90)]), 0);
    assert_eq!(confirmations(None, &vec![Some(5)]), 0);
}

#[test]
fn fee_rate_rounds_up_and_has_a_floor() {
    assert_eq!(fee_rate(None), 1);
    assert_eq!(fee_rate(Some(0)), 1);
    assert_eq!(fee_rate(Some(999)), 1);
    assert_eq!(fee_rate(Some(1000)), 1);
    assert_eq!(fee_rate(Some(1001)), 2);
    // 0.0001 coin per kB
    assert_eq!(fee_rate(Some(10_000)), 10);
}

#[test]
fn fee_is_size_times_rate() {
    assert_eq!(fee_sat(200, Some(10_000)), 2000);
    assert_eq!(fee_sat(200, Some(0)), 200);
    assert_eq!(fee_sat(200, None), 200);
    assert_eq!(fee_sat(0, Some(50_000)), 0);
    assert_eq!(fee_sat(u64::MAX, Some(2000)), u64::MAX);
}

#[test]
fn fee_does_not_decrease_with_size() {
    let mut last = 0;
    for v in 0..500u64 {
        let f = fee_sat(v, Some(12_345));
        assert!(f >= last);
        assert!(f >= v);
        last = f;
    }
}

#[test]
fn retry_waits_linearly_then_gives_up() {
    let p = RetryPolicy::standard();
    assert_eq!(p.max_attempts, 3);
    assert_eq!(p.after_failure(1), RetryDecision::RetryAfter(500));
    assert_eq!(p.after_failure(2), RetryDecision::RetryAfter(1000));
    assert_eq!(p.after_failure(3), RetryDecision::GiveUp);
    let big = RetryPolicy { max_attempts: 10, backoff_step_ms: u64::MAX };
    assert_eq!(big.after_failure(2), RetryDecision::RetryAfter(u64::MAX));
}

#[test]
fn pool_hands_back_the_last_healthy_connection() {
    let mut pool: ConnectionPool<u32> = ConnectionPool::new(1);
    assert_eq!(pool.checkout(), None);
    assert_eq!(pool.checkin(7), None);
    assert_eq!(pool.checkin(8), Some(8));
    assert_eq!(pool.idle_count(), 1);
    assert_eq!(pool.checkout(), Some(7));
    assert_eq!(pool.checkout(), None);
}

#[test]
fn requests_name_their_methods_and_parameters() {
    assert_eq!(Request::Tip.method(), "blockchain.headers.subscribe");
    assert_eq!(Request::FeeEstimate.method(), "blockchain.estimatefee");
    assert_eq!(Request::FeeEstimate.params(), vec![RpcParam::U32(6)]);
    assert_eq!(Request::Tip.params(), vec![]);
    let h = Request::History("ab".to_string());
    assert_eq!(h.method(), "blockchain.scripthash.get_history");
    assert_eq!(h.params(), vec![RpcParam::Str("ab".to_string())]);
    assert_eq!(
        Request::Handshake.params(),
        vec![RpcParam::Str("ltc-payments/1.0".to_string()), RpcParam::Str("1.4".to_string())]
    );
    assert_eq!(Request::Broadcast("00".to_string()).method(), "blockchain.transaction.broadcast");
}

#[test]
fn integer_parameters_use_the_narrowest_width() {
    assert_eq!(RpcParam::from_u64(6), RpcParam::U32(6));
    assert_eq!(RpcParam::from_u64(u32::MAX as u64), RpcParam::U32(u32::MAX));
    assert_eq!(RpcParam::from_u64(u32::MAX as u64 + 1), RpcParam::Usize(u32::MAX as usize + 1));
}
