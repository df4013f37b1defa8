//! What the request-handling layer asks of the core: creating a payment and
//! reporting its chain status.

use vstd::prelude::*;
use vstd::utf8::*;
use crate::chain::{confirmations, is_confirmation_count};
use crate::db::{Payment, PaymentStatus};
use crate::encoding::{hex_digit, hex_text};
use crate::hashing::hash160_of;
use crate::keys::{address_of, new_key_with_prefix, public_key_of, valid_hrp, valid_secret_key};
use crate::vault::{is_encryption_of, KeyVault};

verus! {

/// Why a payment request was refused.
#[derive(Debug, Clone, Copy, PartialEq, Eq, Structural)]
pub enum CreateError {
    /// The amount is zero.
    InvalidAmount,
    /// The deadline does not fit a timestamp.
    InvalidTtl,
    /// The address prefix cannot prefix a bech32 text.
    InvalidPrefix,
}

/// The deadline of a payment created at `now` that lives `ttl` seconds:
/// none (0) when `ttl` is 0.
pub open spec fn expiry_of(now: i64, ttl: u64) -> int {
    if ttl == 0 {
        0
    } else {
        now + ttl
    }
}

/// The hexadecimal text of a byte string is ASCII.
proof fn lemma_hex_text_ascii(b: Seq<u8>)
    ensures
        is_ascii_chars(hex_text(b)),
{
    let s = hex_text(b);
    assert forall|i: int| 0 <= i < s.len() implies '\0' <= #[trigger] s[i] <= '\u{7f}' by {
        let n: int = if i % 2 == 0 {
            b[i / 2] as int / 16
        } else {
            b[i / 2] as int % 16
        };
        assert(s[i] == hex_digit(n));
        let code: u8 = (if n < 10 {
            48 + n
        } else {
            87 + n
        }) as u8;
        assert(code <= 102);
        assert(s[i] == code as char);
    }
}

/// A new pending payment of `amount` base units under id `id`, created at
/// `now`, expiring `ttl` seconds later (never when `ttl` is 0), with a fresh
/// key whose address is under the prefix `hrp` and whose secret is sealed by
/// `vault`.
pub fn create_payment(
    vault: &KeyVault,
    hrp: &str,
    id: String,
    amount: u64,
    ttl: u64,
    now: i64,
) -> (r: Result<Payment, CreateError>)
    ensures
        amount == 0 ==> r == Err::<Payment, CreateError>(CreateError::InvalidAmount),
        amount > 0 && expiry_of(now, ttl) > i64::MAX ==> r == Err::<Payment, CreateError>(
            CreateError::InvalidTtl,
        ),
        amount > 0 && expiry_of(now, ttl) <= i64::MAX && !valid_hrp(hrp@) ==> r == Err::<
            Payment,
            CreateError,
        >(CreateError::InvalidPrefix),
        r is Ok <==> amount > 0 && expiry_of(now, ttl) <= i64::MAX && valid_hrp(hrp@),
        r matches Ok(p) ==> {
            &&& p.id == id
            &&& p.amount == amount
            &&& p.status == PaymentStatus::Pending
            &&& p.created_at == now
            &&& p.updated_at == now
            &&& p.expires_at == expiry_of(now, ttl)
            &&& exists|sk: Seq<u8>|
                {
                    &&& valid_secret_key(sk)
                    &&& hash160_of(public_key_of(sk)).len() == 20
                    &&& #[trigger] address_of(hrp@, public_key_of(sk)) == p.address@
                    &&& is_encryption_of(vault@, encode_utf8(hex_text(sk)), p.wif_enc@)
                }
        },
{
    if amount == 0 {
        return Err(CreateError::InvalidAmount);
    }
    let expires_at: i64 = if ttl == 0 {
        0
    } else {
        let t: i128 = now as i128 + ttl as i128;
        if t > i64::MAX as i128 {
            return Err(CreateError::InvalidTtl);
        }
        t as i64
    };
    let (sk, wif, address) = match new_key_with_prefix(hrp) {
        Some(k) => k,
        None => return Err(CreateError::InvalidPrefix),
    };
    proof {
        lemma_hex_text_ascii(sk@);
        is_ascii_chars_encode_utf8(wif@);
    }
    let wif_enc = vault.encrypt_wif(wif.as_str());
    assert(address_of(hrp@, public_key_of(sk@)) == address@);
    Ok(
        Payment {
            id,
            address,
            wif_enc,
            amount,
            status: PaymentStatus::Pending,
            created_at: now,
            updated_at: now,
            expires_at,
        },
    )
}

/// Base units received by an address, confirmed and not, counting a
/// missing or negative figure as nothing.
pub open spec fn received_of(confirmed: Option<i64>, unconfirmed: Option<i64>) -> int {
    let c = match confirmed {
        Some(x) => if x > 0 {
            x as int
        } else {
            0
        },
        None => 0,
    };
    let u = match unconfirmed {
        Some(x) => if x > 0 {
            x as int
        } else {
            0
        },
        None => 0,
    };
    c + u
}

/// What the lookup of a payment reports besides its record.
#[derive(Debug, Clone, Copy, PartialEq, Eq, Structural)]
pub struct ChainStatus {
    pub confirmations: u64,
    /// Confirmed and unconfirmed base units received.
    pub received: u64,
}

/// The chain status of an address from the indexer's answers.
pub fn chain_status(
    tip: Option<u64>,
    heights: &Vec<Option<u64>>,
    confirmed: Option<i64>,
    unconfirmed: Option<i64>,
) -> (r: ChainStatus)
    ensures
        is_confirmation_count(tip.unwrap_or(0), heights@, r.confirmations as nat),
        r.received == received_of(confirmed, unconfirmed),
{
    let c: u64 = match confirmed {
        Some(x) => if x > 0 {
            x as u64
        } else {
            0
        },
        None => 0,
    };
    let u: u64 = match unconfirmed {
        Some(x) => if x > 0 {
            x as u64
        } else {
            0
        },
        None => 0,
    };
    ChainStatus { confirmations: confirmations(tip, heights), received: c + u }
}

} // verus!
