//! The transaction store: one authoritative record per transaction id,
//! bound for good to the client that created it.

use crate::Amount;
use std::collections::HashMap;
use vstd::prelude::*;

verus! {

/// What the store knows of every transaction: its owner and its state.
pub type Entries = Map<u32, (u16, TxState)>;

/// The amount and current state of a transaction.
#[derive(Clone, Copy, Debug, PartialEq, Eq, Structural)]
pub enum TxState {
    /// A deposit whose funds are available for withdrawal.
    Deposit(Amount),
    /// A deposit whose funds are held under dispute.
    Dispute(Amount),
    /// A withdrawal. It can never be disputed.
    Withdrawal,
}

/// Why the store refused a write.
#[derive(Clone, Copy, Debug, PartialEq, Eq, Structural)]
pub enum StoreError {
    /// The transaction id is already bound to another client.
    OwnershipConflict,
}

/// What `client_id` sees under `tx_id`: the state of a transaction of its
/// own, and nothing for a transaction that belongs to someone else.
pub open spec fn lookup(entries: Entries, client_id: u16, tx_id: u32) -> Option<TxState> {
    if entries.contains_key(tx_id) && entries[tx_id].0 == client_id {
        Some(entries[tx_id].1)
    } else {
        None
    }
}

/// Whether `client_id` may write under `tx_id`: the id is free, or already its own.
pub open spec fn writable(entries: Entries, client_id: u16, tx_id: u32) -> bool {
    entries.contains_key(tx_id) ==> entries[tx_id].0 == client_id
}

/// A store of transactions, shared by all clients of one ledger.
///
/// Any backing will do that answers as the two contracts say. A step of
/// the ledger borrows the store exclusively, so the lookup and the write
/// of one step are never parted by the write of another.
pub trait TxStore {
    /// The records that the store holds.
    spec fn view(&self) -> Entries;

    /// Returns the state of transaction `tx_id` if it exists and belongs to
    /// `client_id`.
    fn get(&self, client_id: u16, tx_id: u32) -> (found: Option<TxState>)
        ensures
            found == lookup(self@, client_id, tx_id),
    ;

    /// Creates transaction `tx_id` for `client_id`, or overwrites its state
    /// if `client_id` already owns it. A transaction of another client is
    /// left untouched.
    fn upsert(&mut self, client_id: u16, tx_id: u32, tx: TxState) -> (res: Result<(), StoreError>)
        ensures
            writable(old(self)@, client_id, tx_id) ==> {
                &&& res is Ok
                &&& final(self)@ == old(self)@.insert(tx_id, (client_id, tx))
            },
            !writable(old(self)@, client_id, tx_id) ==> {
                &&& res == Err::<(), StoreError>(StoreError::OwnershipConflict)
                &&& final(self)@ == old(self)@
            },
    ;
}

/// An in-memory transaction store backed by a hash map.
#[derive(Debug)]
pub struct MemoryStore {
    transactions: HashMap<u32, (u16, TxState)>,
}

impl MemoryStore {
    /// An empty store.
    pub fn new() -> (store: MemoryStore)
        ensures
            store@ == Entries::empty(),
    {
        MemoryStore { transactions: HashMap::new() }
    }
}

impl Default for MemoryStore {
    /// An empty store.
    fn default() -> (store: MemoryStore)
        ensures
            store@ == Entries::empty(),
    {
        MemoryStore::new()
    }
}

impl TxStore for MemoryStore {
    closed spec fn view(&self) -> Entries {
        self.transactions@
    }

    fn get(&self, client_id: u16, tx_id: u32) -> (found: Option<TxState>) {
        match self.transactions.get(&tx_id) {
            Some(entry) => {
                if entry.0 == client_id {
                    Some(entry.1)
                } else {
                    None
                }
            },
            None => None,
        }
    }

    fn upsert(&mut self, client_id: u16, tx_id: u32, tx: TxState) -> (res: Result<(), StoreError>) {
        let taken = match self.transactions.get(&tx_id) {
            Some(entry) => entry.0 != client_id,
            None => false,
        };
        if taken {
            Err(StoreError::OwnershipConflict)
        } else {
            self.transactions.insert(tx_id, (client_id, tx));
            Ok(())
        }
    }
}

} // verus!
