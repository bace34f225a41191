//! The ledger: one account per client that a record has named, over one
//! store of transactions that all of them share.

use crate::clients::{apply, Account, ApplyError, Client};
use crate::events::{classify, Event, Record, ValidationError};
use crate::invariants::{amount_nonnegative, amounts_nonnegative, in_step, lemma_post_keeps_balance};
use crate::storage::{Entries, TxStore};
use std::collections::HashMap;
use vstd::prelude::*;

verus! {

/// Why a record had no effect.
#[derive(Clone, Copy, Debug, PartialEq, Eq, Structural)]
pub enum EntryError {
    /// The record is no valid event.
    Invalid(ValidationError),
    /// The event breaks a rule of the ledger.
    Rejected(ApplyError),
}

/// The ledger as a whole: the accounts by client id, and the store's records.
pub struct Books {
    /// The account of every client that a valid record has named.
    pub accounts: Map<u16, Account>,
    /// The records of the store that the accounts share.
    pub entries: Entries,
}

impl Books {
    /// The ledger before the first record.
    pub open spec fn empty() -> Books {
        Books { accounts: Map::empty(), entries: Map::empty() }
    }

    /// The account that the ledger keeps for `id`: the one on record, or a
    /// new one if no record has named the client yet.
    pub open spec fn account(self, id: u16) -> Account {
        if self.accounts.contains_key(id) {
            self.accounts[id]
        } else {
            Account::opened(id)
        }
    }

    /// What becomes of a record: it is refused as invalid, or judged by
    /// [`apply`] against the account of the client it names.
    pub open spec fn verdict(self, record: Record) -> Result<(), EntryError> {
        match classify(record.kind@, record.amount) {
            Err(error) => Err(EntryError::Invalid(error)),
            Ok(kind) => match apply(
                self.account(record.client),
                self.entries,
                record.tx,
                kind,
            ).result {
                Ok(_) => Ok(()),
                Err(error) => Err(EntryError::Rejected(error)),
            },
        }
    }

    /// The ledger after a record. An invalid record changes nothing. A
    /// valid one leaves what [`apply`] makes of the account of the client
    /// it names and of the store; the client has an account afterwards,
    /// whether the event was accepted or not.
    pub open spec fn post(self, record: Record) -> Books {
        match classify(record.kind@, record.amount) {
            Err(_) => self,
            Ok(kind) => {
                let out = apply(self.account(record.client), self.entries, record.tx, kind);
                Books {
                    accounts: self.accounts.insert(record.client, out.account),
                    entries: out.entries,
                }
            },
        }
    }

    /// The ledger after a sequence of records, taken in order.
    pub open spec fn post_all(self, records: Seq<Record>) -> Books
        decreases records.len(),
    {
        if records.len() == 0 {
            self
        } else {
            self.post_all(records.drop_last()).post(records.last())
        }
    }

    /// Whether the accounts and the store agree: every account is on record
    /// under its own id, not overdrawn and in step with the store, every
    /// transaction belongs to a client with an account, and no recorded
    /// amount is negative.
    pub open spec fn balanced(self) -> bool {
        &&& amounts_nonnegative(self.entries)
        &&& forall|id: u16| #[trigger]
            self.accounts.contains_key(id) ==> {
                &&& self.accounts[id].id == id
                &&& 0 <= self.accounts[id].available
                &&& in_step(self.accounts[id], self.entries)
            }
        &&& forall|tx: u32| #[trigger]
            self.entries.contains_key(tx) ==> self.accounts.contains_key(self.entries[tx].0)
    }
}

/// Whether a record brings no negative amount into the ledger.
pub open spec fn record_nonnegative(record: Record) -> bool {
    match classify(record.kind@, record.amount) {
        Ok(kind) => amount_nonnegative(kind),
        Err(_) => true,
    }
}

/// The ledger that a map of clients and the records of a store make up.
pub open spec fn books_of(clients: Map<u16, Client>, entries: Entries) -> Books {
    Books { accounts: clients.map_values(|client: Client| client@), entries }
}

/// Validates one record and applies it to the account of the client it
/// names, which is opened first if this is the client's first record.
///
/// The result and the ledger afterwards are those of [`Books::verdict`] and
/// [`Books::post`]: an invalid record changes nothing; a valid one is
/// judged by [`apply`] against the client's account and the store, and
/// whether it is accepted or not, the client has an account afterwards. No
/// other account is touched. A balanced ledger stays balanced if the
/// record brings no negative amount.
pub fn handle_entry<S: TxStore>(
    record: Record,
    clients: &mut HashMap<u16, Client>,
    store: &mut S,
) -> (res: Result<(), EntryError>)
    ensures
        res == books_of(old(clients)@, old(store)@).verdict(record),
        books_of(final(clients)@, final(store)@) == books_of(old(clients)@, old(store)@).post(
            record,
        ),
        classify(record.kind@, record.amount) is Err ==> final(clients)@ == old(clients)@,
        classify(record.kind@, record.amount) is Ok ==> {
            &&& final(clients)@.dom() == old(clients)@.dom().insert(record.client)
            &&& final(clients)@[record.client]@ == books_of(old(clients)@, old(store)@).post(
                record,
            ).accounts[record.client]
            &&& forall|id: u16|
                id != record.client && old(clients)@.contains_key(id)
                    ==> #[trigger] final(clients)@[id] == old(clients)@[id]
        },
        books_of(old(clients)@, old(store)@).balanced() && record_nonnegative(record) ==> books_of(
            final(clients)@,
            final(store)@,
        ).balanced(),
{
    let ghost before = books_of(clients@, store@);
    proof {
        if before.balanced() && record_nonnegative(record) {
            lemma_post_keeps_balance(before, record);
        }
    }
    let event = match Event::try_from(record) {
        Ok(event) => event,
        Err(error) => {
            return Err(EntryError::Invalid(error));
        },
    };
    let id = event.client_id();
    let mut client = match clients.get(&id) {
        Some(known) => *known,
        None => Client::new(id),
    };
    let res = client.update(store, &event);
    clients.insert(id, client);
    assert(books_of(clients@, store@).accounts =~= before.post(record).accounts);
    match res {
        Ok(_) => Ok(()),
        Err(error) => Err(EntryError::Rejected(error)),
    }
}

} // verus!
