//! Verified core of a custodial payment gateway: key material, chain-query
//! policy, the sweep engine and the payment store.

pub mod encoding;
pub mod vault;
pub mod hashing;
pub mod keys;
pub mod chain;
pub mod db;
pub mod tx;
pub mod sweeper;
pub mod payments;
pub mod webhook;
