//! A payments ledger: validated payment events are applied to per-client
//! balances under the rules recorded in a transaction store.
//!
//! - [`events`] turns an untrusted [`events::Record`] into a valid
//!   [`events::Event`], or rejects it.
//! - [`storage`] keeps one record per transaction id, bound for good to the
//!   client that created it.
//! - [`clients`] holds the rules by which an event changes a client's
//!   balances and the store, and the accounts that obey them.
//! - [`ledger`] keeps one account per client over one store, record by
//!   record.
//! - [`invariants`] proves what the rules guarantee.
//!
//! One store serves all clients of a ledger. It is lent to each step by
//! exclusive borrow, so a step sees and leaves the store as no other step
//! can interleave with it; callers that share a store between threads put
//! it behind a lock and hold the lock for the step.

use vstd::prelude::*;

pub mod clients;
pub mod events;
pub mod invariants;
pub mod ledger;
pub mod storage;

verus! {

/// An amount of money, counted in the smallest unit the ledger keeps.
/// All sums and differences of amounts are exact.
pub type Amount = i64;

} // verus!
