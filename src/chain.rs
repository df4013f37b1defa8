//! Chain-indexer client policy: what each remote call asks, how replies are
//! read, how failed calls are retried, how connections are pooled, and how a
//! fee is derived from the network's estimate.

use vstd::prelude::*;

verus! {

/// Attempts per remote call.
pub const MAX_ATTEMPTS: u32 = 3;

/// Wait after the first failed attempt, in milliseconds; the wait after
/// attempt `n` is `n` times this.
pub const BACKOFF_STEP_MS: u64 = 500;

/// Confirmation target, in blocks, of the fee estimate.
pub const FEE_TARGET_BLOCKS: u32 = 6;

/// The lowest fee rate ever used, in base units per virtual byte.
pub const MIN_FEE_RATE: u64 = 1;

/// A positional parameter of a remote call.
#[derive(Debug, Clone, PartialEq, Eq)]
pub enum RpcParam {
    Str(String),
    Bool(bool),
    U32(u32),
    Usize(usize),
    Bytes(Vec<u8>),
}

impl RpcParam {
    /// An integer parameter: 32 bits wide where it fits, else machine-wide.
    pub fn from_u64(n: u64) -> (r: RpcParam)
        ensures
            n <= u32::MAX ==> r == RpcParam::U32(n as u32),
            n > u32::MAX ==> r == RpcParam::Usize(n as usize),
    {
        if n <= u32::MAX as u64 {
            RpcParam::U32(n as u32)
        } else {
            RpcParam::Usize(n as usize)
        }
    }
}

/// A call that the gateway makes on the chain indexer.
#[derive(Debug, Clone, PartialEq, Eq)]
pub enum Request {
    /// `server.version`: the capability handshake.
    Handshake,
    /// `blockchain.scripthash.get_history` of a script identifier.
    History(String),
    /// `blockchain.headers.subscribe`: the chain tip.
    Tip,
    /// `blockchain.scripthash.get_balance` of a script identifier.
    Balance(String),
    /// `blockchain.scripthash.listunspent` of a script identifier.
    Unspent(String),
    /// `blockchain.estimatefee` for the confirmation target.
    FeeEstimate,
    /// `blockchain.transaction.broadcast` of a raw transaction in hexadecimal.
    Broadcast(String),
}

impl Request {
    /// The protocol's name of the method.
    pub open spec fn method_of(&self) -> Seq<char> {
        match self {
            Request::Handshake => "server.version"@,
            Request::History(_) => "blockchain.scripthash.get_history"@,
            Request::Tip => "blockchain.headers.subscribe"@,
            Request::Balance(_) => "blockchain.scripthash.get_balance"@,
            Request::Unspent(_) => "blockchain.scripthash.listunspent"@,
            Request::FeeEstimate => "blockchain.estimatefee"@,
            Request::Broadcast(_) => "blockchain.transaction.broadcast"@,
        }
    }

    /// The protocol's name of the method.
    pub fn method(&self) -> (r: &'static str)
        ensures
            r@ == self.method_of(),
    {
        match self {
            Request::Handshake => "server.version",
            Request::History(_) => "blockchain.scripthash.get_history",
            Request::Tip => "blockchain.headers.subscribe",
            Request::Balance(_) => "blockchain.scripthash.get_balance",
            Request::Unspent(_) => "blockchain.scripthash.listunspent",
            Request::FeeEstimate => "blockchain.estimatefee",
            Request::Broadcast(_) => "blockchain.transaction.broadcast",
        }
    }

    /// The positional parameters of the call.
    pub fn params(&self) -> (r: Vec<RpcParam>)
        ensures
            match self {
                Request::Handshake => {
                    &&& r@.len() == 2
                    &&& (r@[0] matches RpcParam::Str(c) && c@ == "ltc-payments/1.0"@)
                    &&& (r@[1] matches RpcParam::Str(v) && v@ == "1.4"@)
                },
                Request::Tip => r@.len() == 0,
                Request::FeeEstimate => r@ == seq![RpcParam::U32(FEE_TARGET_BLOCKS)],
                Request::History(s) => r@ == seq![RpcParam::Str(*s)],
                Request::Balance(s) => r@ == seq![RpcParam::Str(*s)],
                Request::Unspent(s) => r@ == seq![RpcParam::Str(*s)],
                Request::Broadcast(s) => r@ == seq![RpcParam::Str(*s)],
            },
    {
        match self {
            Request::Handshake => {
                let client = String::from_str("ltc-payments/1.0");
                let version = String::from_str("1.4");
                vec![RpcParam::Str(client), RpcParam::Str(version)]
            },
            Request::Tip => Vec::new(),
            Request::FeeEstimate => vec![RpcParam::U32(FEE_TARGET_BLOCKS)],
            Request::History(s) => vec![RpcParam::Str(s.clone())],
            Request::Balance(s) => vec![RpcParam::Str(s.clone())],
            Request::Unspent(s) => vec![RpcParam::Str(s.clone())],
            Request::Broadcast(s) => vec![RpcParam::Str(s.clone())],
        }
    }
}

/// An unspent output of an address, as the indexer reports it.
#[derive(Debug, Clone)]
pub struct Utxo {
    /// Id of the transaction that made it, in hexadecimal display order.
    pub tx_hash: String,
    /// Its index among that transaction's outputs.
    pub tx_pos: u64,
    /// Its value, in base units.
    pub value: u64,
}

/// What to do after an attempt of a remote call failed.
#[derive(Debug, Clone, Copy, PartialEq, Eq, Structural)]
pub enum RetryDecision {
    /// Wait this many milliseconds, then try again on a fresh connection.
    RetryAfter(u64),
    /// Stop: the call failed for good.
    GiveUp,
}

/// Bounded retry with linear backoff.
#[derive(Debug, Clone, Copy, PartialEq, Eq, Structural)]
pub struct RetryPolicy {
    pub max_attempts: u32,
    pub backoff_step_ms: u64,
}

/// The wait after failed attempt `attempt` under `p`, saturated at the
/// largest `u64`.
pub open spec fn backoff_ms(p: RetryPolicy, attempt: u32) -> u64 {
    let w = p.backoff_step_ms as int * attempt as int;
    if w > u64::MAX {
        u64::MAX
    } else {
        w as u64
    }
}

impl RetryPolicy {
    /// Three attempts, waiting 500 ms times the attempt number in between.
    pub fn standard() -> (r: RetryPolicy)
        ensures
            r.max_attempts == MAX_ATTEMPTS,
            r.backoff_step_ms == BACKOFF_STEP_MS,
    {
        RetryPolicy { max_attempts: MAX_ATTEMPTS, backoff_step_ms: BACKOFF_STEP_MS }
    }

    /// The decision after attempt number `attempt` (counted from 1) failed.
    pub fn after_failure(&self, attempt: u32) -> (r: RetryDecision)
        ensures
            attempt < self.max_attempts ==> r == RetryDecision::RetryAfter(backoff_ms(*self, attempt)),
            attempt >= self.max_attempts ==> r == RetryDecision::GiveUp,
    {
        if attempt >= self.max_attempts {
            return RetryDecision::GiveUp;
        }
        let wait = match self.backoff_step_ms.checked_mul(attempt as u64) {
            Some(w) => w,
            None => u64::MAX,
        };
        RetryDecision::RetryAfter(wait)
    }
}

/// Idle connections, checked out for a call and checked back in only after
/// the call succeeded; a connection whose call failed is dropped instead.
pub struct ConnectionPool<C> {
    idle: Vec<C>,
    capacity: usize,
}

impl<C> View for ConnectionPool<C> {
    type V = Seq<C>;

    /// The idle connections, the most recently returned last.
    closed spec fn view(&self) -> Seq<C> {
        self.idle@
    }
}

impl<C> ConnectionPool<C> {
    /// The most idle connections the pool keeps.
    pub closed spec fn spec_capacity(&self) -> nat {
        self.capacity as nat
    }

    /// An empty pool that keeps at most `capacity` idle connections.
    pub fn new(capacity: usize) -> (r: ConnectionPool<C>)
        ensures
            r@ == Seq::<C>::empty(),
            r.spec_capacity() == capacity,
    {
        ConnectionPool { idle: Vec::new(), capacity }
    }

    /// Takes the most recently returned idle connection, if any.
    pub fn checkout(&mut self) -> (r: Option<C>)
        ensures
            final(self).spec_capacity() == old(self).spec_capacity(),
            old(self)@.len() == 0 ==> r is None && final(self)@ == old(self)@,
            old(self)@.len() > 0 ==> r == Some(old(self)@.last()) && final(self)@
                == old(self)@.drop_last(),
    {
        self.idle.pop()
    }

    /// Returns a healthy connection; it is handed back when the pool is full.
    pub fn checkin(&mut self, c: C) -> (r: Option<C>)
        ensures
            final(self).spec_capacity() == old(self).spec_capacity(),
            old(self)@.len() < old(self).spec_capacity() ==> r is None && final(self)@ == old(
                self,
            )@.push(c),
            old(self)@.len() >= old(self).spec_capacity() ==> r == Some(c) && final(self)@ == old(
                self,
            )@,
    {
        if self.idle.len() < self.capacity {
            self.idle.push(c);
            None
        } else {
            Some(c)
        }
    }

    /// Number of idle connections.
    pub fn idle_count(&self) -> (r: usize)
        ensures
            r == self@.len(),
    {
        self.idle.len()
    }
}

/// Depth of a block at `height` below a tip at `tip`, counting the block
/// itself; nothing when the block is above the tip.
pub open spec fn depth(tip: u64, height: u64) -> nat {
    if height <= tip {
        (tip - height + 1) as nat
    } else {
        0
    }
}

/// An entry of the history is confirmed when it reports a positive height.
pub open spec fn is_confirmed(h: Option<u64>) -> bool {
    h matches Some(x) && x > 0
}

/// `c` is the confirmation count of a history with entry heights `heights`
/// under a tip at `tip`: the least depth of a confirmed entry, or 0 when no
/// entry is confirmed.
pub open spec fn is_confirmation_count(tip: u64, heights: Seq<Option<u64>>, c: nat) -> bool {
    if exists|i: int| 0 <= i < heights.len() && is_confirmed(#[trigger] heights[i]) {
        &&& exists|i: int|
            0 <= i < heights.len() && is_confirmed(#[trigger] heights[i]) && depth(
                tip,
                heights[i]->Some_0,
            ) == c
        &&& forall|i: int|
            0 <= i < heights.len() && is_confirmed(#[trigger] heights[i]) ==> c <= depth(
                tip,
                heights[i]->Some_0,
            )
    } else {
        c == 0
    }
}

/// Confirmations of an address: the least depth among the confirmed entries
/// of its history (entries at height 0 or with no height are unconfirmed),
/// 0 when none is confirmed. A tip that is not reported counts as height 0.
pub fn confirmations(tip: Option<u64>, heights: &Vec<Option<u64>>) -> (r: u64)
    ensures
        is_confirmation_count(tip.unwrap_or(0), heights@, r as nat),
{
    let t: u64 = match tip {
        Some(t) => t,
        None => 0,
    };
    let mut best: Option<u64> = None;
    let mut i: usize = 0;
    while i < heights.len()
        invariant
            i <= heights@.len(),
            best is None <==> !exists|j: int| 0 <= j < i && is_confirmed(#[trigger] heights@[j]),
            best matches Some(b) ==> exists|j: int|
                0 <= j < i && is_confirmed(#[trigger] heights@[j]) && depth(t, heights@[j]->Some_0)
                    == b,
            best matches Some(b) ==> forall|j: int|
                0 <= j < i && is_confirmed(#[trigger] heights@[j]) ==> b <= depth(
                    t,
                    heights@[j]->Some_0,
                ),
        decreases heights@.len() - i,
    {
        if let Some(h) = heights[i] {
            if h > 0 {
                let d: u64 = if h <= t {
                    t - h + 1
                } else {
                    0
                };
                best = match best {
                    Some(b) => if d < b {
                        Some(d)
                    } else {
                        Some(b)
                    },
                    None => Some(d),
                };
            }
        }
        i = i + 1;
    }
    match best {
        Some(b) => b,
        None => 0,
    }
}

/// Fee rate, in base units per virtual byte, for an estimate of
/// `sat_per_kvb` base units per 1000 virtual bytes: rounded up, never below
/// the minimum. No estimate means the minimum.
pub open spec fn fee_rate_of(sat_per_kvb: Option<u64>) -> u64 {
    match sat_per_kvb {
        Some(k) => if (k as int + 999) / 1000 < MIN_FEE_RATE {
            MIN_FEE_RATE
        } else {
            ((k as int + 999) / 1000) as u64
        },
        None => MIN_FEE_RATE,
    }
}

/// Fee, in base units, for `vsize` virtual bytes at the rate derived from
/// the estimate, saturated at the largest `u64`.
pub open spec fn fee_of(vsize: u64, sat_per_kvb: Option<u64>) -> u64 {
    let f = vsize as int * fee_rate_of(sat_per_kvb) as int;
    if f > u64::MAX {
        u64::MAX
    } else {
        f as u64
    }
}

/// The fee rate, in base units per virtual byte, for a network estimate in
/// base units per 1000 virtual bytes (`None` when the estimate failed).
pub fn fee_rate(sat_per_kvb: Option<u64>) -> (r: u64)
    ensures
        r == fee_rate_of(sat_per_kvb),
{
    match sat_per_kvb {
        Some(k) => {
            let per_vb = k / 1000 + if k % 1000 == 0 {
                0
            } else {
                1
            };
            assert(per_vb as int == (k as int + 999) / 1000);
            if per_vb < MIN_FEE_RATE {
                MIN_FEE_RATE
            } else {
                per_vb
            }
        },
        None => MIN_FEE_RATE,
    }
}

/// The fee for `vsize` virtual bytes given the network estimate (see
/// `fee_rate`).
pub fn fee_sat(vsize: u64, sat_per_kvb: Option<u64>) -> (r: u64)
    ensures
        r == fee_of(vsize, sat_per_kvb),
{
    let rate = fee_rate(sat_per_kvb);
    match vsize.checked_mul(rate) {
        Some(f) => f,
        None => u64::MAX,
    }
}

/// The fee never decreases as the size grows, and the rate is never below
/// one base unit per virtual byte, whatever the estimate (zero or failed).
pub proof fn lemma_fee_monotonic(v1: u64, v2: u64, sat_per_kvb: Option<u64>)
    requires
        v1 <= v2,
    ensures
        fee_of(v1, sat_per_kvb) <= fee_of(v2, sat_per_kvb),
        fee_rate_of(sat_per_kvb) >= MIN_FEE_RATE,
        fee_of(v1, sat_per_kvb) >= v1 || fee_of(v1, sat_per_kvb) == u64::MAX,
{
    let r = fee_rate_of(sat_per_kvb) as int;
    assert(v1 as int * r <= v2 as int * r) by (nonlinear_arith)
        requires
            v1 <= v2,
            r >= 0,
    ;
    assert(v1 as int * r >= v1 as int) by (nonlinear_arith)
        requires
            r >= 1,
            v1 >= 0,
    ;
}

} // verus!
