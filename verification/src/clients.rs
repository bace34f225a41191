//! Client accounts and the rules by which a payment event changes them.
//!
//! Every transaction id names at most one deposit or withdrawal. Withdrawals
//! are recorded in the store like deposits: their id cannot be used again,
//! and they cannot be disputed.

use crate::events::{Event, EventType};
use crate::storage::{lookup, writable, Entries, TxState, TxStore};
use crate::Amount;
use vstd::prelude::*;

verus! {

/// Why an event was not applied.
#[derive(Clone, Copy, Debug, PartialEq, Eq, Structural)]
pub enum ApplyError {
    /// The account is frozen: it accepts no event.
    AccountFrozen,
    /// A deposit or withdrawal names a transaction that the client already has.
    DuplicateTransaction,
    /// A withdrawal or dispute asks for more than the available funds.
    InsufficientFunds,
    /// The client has no such transaction; one of another client counts as absent.
    TransactionNotFound,
    /// A resolve or chargeback names a transaction that is not under dispute.
    TransactionNotDisputed,
    /// A dispute names a transaction that is already under dispute.
    TransactionAlreadyDisputed,
    /// A dispute names a withdrawal.
    TransactionCannotBeDisputed,
    /// The balances after the event would not fit an [`Amount`].
    BalanceOverflow,
}

/// The balances of one client, as mathematical integers.
pub struct Account {
    /// The client that the account belongs to.
    pub id: u16,
    /// The funds that the client may withdraw.
    pub available: int,
    /// The funds that the client has in all, available and held.
    pub total: int,
    /// Whether the account is frozen.
    pub locked: bool,
}

impl Account {
    /// The funds under dispute: what is in the account but cannot be withdrawn.
    pub open spec fn held(self) -> int {
        self.total - self.available
    }

    /// The account of a client that no event has touched yet.
    pub open spec fn opened(id: u16) -> Account {
        Account { id, available: 0, total: 0, locked: false }
    }

    /// Whether all three balances can be told as an [`Amount`].
    pub open spec fn representable(self) -> bool {
        &&& i64::MIN <= self.available <= i64::MAX
        &&& i64::MIN <= self.total <= i64::MAX
        &&& i64::MIN <= self.held() <= i64::MAX
    }
}

/// The amount that an event moves: its own for a deposit or withdrawal, the
/// recorded one for a dispute, resolve or chargeback of a recorded deposit.
pub open spec fn moved(account: Account, entries: Entries, tx: u32, kind: EventType) -> Amount {
    match kind {
        EventType::Deposit(amount) => amount,
        EventType::Withdrawal(amount) => amount,
        _ => match lookup(entries, account.id, tx) {
            Some(TxState::Deposit(amount)) => amount,
            Some(TxState::Dispute(amount)) => amount,
            _ => 0,
        },
    }
}

/// The account after an event that was accepted: a deposit adds to the
/// available and the total funds and a withdrawal takes from both; a dispute
/// moves the deposit from the available funds to the held ones and a resolve
/// moves it back; a chargeback takes the held deposit out of the total and
/// freezes the account.
pub open spec fn balances_after(account: Account, entries: Entries, tx: u32, kind: EventType)
    -> Account {
    let amount = moved(account, entries, tx, kind);
    match kind {
        EventType::Deposit(_) => Account {
            available: account.available + amount,
            total: account.total + amount,
            ..account
        },
        EventType::Withdrawal(_) => Account {
            available: account.available - amount,
            total: account.total - amount,
            ..account
        },
        EventType::Dispute => Account { available: account.available - amount, ..account },
        EventType::Resolve => Account { available: account.available + amount, ..account },
        EventType::Chargeback => Account { total: account.total - amount, locked: true, ..account },
    }
}

/// The store's records after an event that was accepted: a deposit and a
/// withdrawal are recorded under their transaction id, a dispute and a
/// resolve change the state of the deposit they name, and a chargeback
/// leaves the deposit under dispute.
pub open spec fn entries_after(account: Account, entries: Entries, tx: u32, kind: EventType)
    -> Entries {
    match kind {
        EventType::Deposit(amount) => entries.insert(tx, (account.id, TxState::Deposit(amount))),
        EventType::Withdrawal(_) => entries.insert(tx, (account.id, TxState::Withdrawal)),
        EventType::Dispute => entries.insert(
            tx,
            (account.id, TxState::Dispute(moved(account, entries, tx, kind))),
        ),
        EventType::Resolve => entries.insert(
            tx,
            (account.id, TxState::Deposit(moved(account, entries, tx, kind))),
        ),
        EventType::Chargeback => entries,
    }
}

/// The first guard that the event fails, if there is one.
///
/// A frozen account fails every event. Otherwise the guards stand in this order:
/// - deposit: the client has no transaction under this id; the new balances
///   fit; the id is not another client's;
/// - withdrawal: the available funds suffice; then as for a deposit;
/// - dispute: the client has a transaction under this id; it is a deposit
///   not under dispute; the available funds suffice; the new balances fit;
/// - resolve and chargeback: the client has a transaction under this id; it
///   is a deposit under dispute; the new balances fit.
pub open spec fn refusal(account: Account, entries: Entries, tx: u32, kind: EventType) -> Option<
    ApplyError,
> {
    let found = lookup(entries, account.id, tx);
    let overflows = !balances_after(account, entries, tx, kind).representable();
    if account.locked {
        Some(ApplyError::AccountFrozen)
    } else {
        match kind {
            EventType::Deposit(_) => if found is Some {
                Some(ApplyError::DuplicateTransaction)
            } else if overflows {
                Some(ApplyError::BalanceOverflow)
            } else if entries.contains_key(tx) {
                Some(ApplyError::TransactionNotFound)
            } else {
                None
            },
            EventType::Withdrawal(amount) => if account.available < amount {
                Some(ApplyError::InsufficientFunds)
            } else if found is Some {
                Some(ApplyError::DuplicateTransaction)
            } else if overflows {
                Some(ApplyError::BalanceOverflow)
            } else if entries.contains_key(tx) {
                Some(ApplyError::TransactionNotFound)
            } else {
                None
            },
            EventType::Dispute => match found {
                None => Some(ApplyError::TransactionNotFound),
                Some(TxState::Dispute(_)) => Some(ApplyError::TransactionAlreadyDisputed),
                Some(TxState::Withdrawal) => Some(ApplyError::TransactionCannotBeDisputed),
                Some(TxState::Deposit(amount)) => if amount > account.available {
                    Some(ApplyError::InsufficientFunds)
                } else if overflows {
                    Some(ApplyError::BalanceOverflow)
                } else {
                    None
                },
            },
            _ => match found {
                None => Some(ApplyError::TransactionNotFound),
                Some(TxState::Dispute(_)) => if overflows {
                    Some(ApplyError::BalanceOverflow)
                } else {
                    None
                },
                Some(_) => Some(ApplyError::TransactionNotDisputed),
            },
        }
    }
}

/// What an event leaves behind: the verdict, the account and the store's records.
pub struct Outcome {
    /// Whether the event was accepted, and if not, why.
    pub result: Result<(), ApplyError>,
    /// The account after the event.
    pub account: Account,
    /// The store's records after the event.
    pub entries: Entries,
}

/// The ledger's transition: an event that fails a guard changes nothing, and
/// one that passes them all changes the account and the store together.
pub open spec fn apply(account: Account, entries: Entries, tx: u32, kind: EventType) -> Outcome {
    match refusal(account, entries, tx, kind) {
        Some(error) => Outcome { result: Err(error), account, entries },
        None => Outcome {
            result: Ok(()),
            account: balances_after(account, entries, tx, kind),
            entries: entries_after(account, entries, tx, kind),
        },
    }
}

/// A client's account: the funds it may withdraw, the funds it has in all,
/// and whether it is frozen.
#[derive(Clone, Copy, Debug)]
pub struct Client {
    id: u16,
    available: Amount,
    total: Amount,
    locked: bool,
}

impl View for Client {
    type V = Account;

    closed spec fn view(&self) -> Account {
        Account {
            id: self.id,
            available: self.available as int,
            total: self.total as int,
            locked: self.locked,
        }
    }
}

impl Client {
    #[verifier::type_invariant]
    closed spec fn held_fits(self) -> bool {
        i64::MIN <= self.total - self.available <= i64::MAX
    }

    /// A new account with no funds, not frozen.
    pub fn new(id: u16) -> (client: Client)
        ensures
            client@ == Account::opened(id),
    {
        Client { id, available: 0, total: 0, locked: false }
    }

    /// The unique identifier of the client.
    pub fn id(&self) -> (id: u16)
        ensures
            id == self@.id,
    {
        self.id
    }

    /// The funds available for withdrawal.
    pub fn available(&self) -> (available: Amount)
        ensures
            available == self@.available,
    {
        self.available
    }

    /// The funds held under dispute.
    pub fn held(&self) -> (held: Amount)
        ensures
            held == self@.held(),
    {
        proof {
            use_type_invariant(self);
        }
        self.total - self.available
    }

    /// The funds available and held together.
    pub fn total(&self) -> (total: Amount)
        ensures
            total == self@.total,
    {
        self.total
    }

    /// Whether the account is frozen.
    pub fn locked(&self) -> (locked: bool)
        ensures
            locked == self@.locked,
    {
        self.locked
    }

    /// This account with other balances, if they and their difference fit.
    fn with_balances(
        &self,
        available: Option<Amount>,
        total: Option<Amount>,
        locked: bool,
    ) -> (next: Option<Client>)
        ensures
            match next {
                Some(client) => {
                    &&& available is Some
                    &&& total is Some
                    &&& client@.representable()
                    &&& client@ == (Account {
                        id: self@.id,
                        available: available->Some_0 as int,
                        total: total->Some_0 as int,
                        locked,
                    })
                },
                None => {
                    ||| available is None
                    ||| total is None
                    ||| !(i64::MIN <= total->Some_0 - available->Some_0 <= i64::MAX)
                },
            },
    {
        match (available, total) {
            (Some(available), Some(total)) => match total.checked_sub(available) {
                Some(_) => Some(Client { id: self.id, available, total, locked }),
                None => None,
            },
            _ => None,
        }
    }

    /// Records `state` under `tx` and takes over the balances of `next`, or
    /// does neither: without balances that fit, and under a transaction id
    /// that belongs to another client, nothing changes.
    fn settle<S: TxStore>(
        &mut self,
        store: &mut S,
        tx: u32,
        state: TxState,
        next: Option<Client>,
    ) -> (res: Result<(), ApplyError>)
        ensures
            match next {
                None => {
                    &&& res == Err::<(), ApplyError>(ApplyError::BalanceOverflow)
                    &&& final(self)@ == old(self)@
                    &&& final(store)@ == old(store)@
                },
                Some(client) => if writable(old(store)@, old(self)@.id, tx) {
                    &&& res == Ok::<(), ApplyError>(())
                    &&& final(self)@ == client@
                    &&& final(store)@ == old(store)@.insert(tx, (old(self)@.id, state))
                } else {
                    &&& res == Err::<(), ApplyError>(ApplyError::TransactionNotFound)
                    &&& final(self)@ == old(self)@
                    &&& final(store)@ == old(store)@
                },
            },
    {
        match next {
            None => Err(ApplyError::BalanceOverflow),
            Some(client) => match store.upsert(self.id, tx, state) {
                Err(_) => Err(ApplyError::TransactionNotFound),
                Ok(_) => {
                    *self = client;
                    Ok(())
                },
            },
        }
    }

    /// Applies a payment event to the account, under the records of `store`.
    ///
    /// The event is judged by [`apply`]: a frozen account accepts nothing; a
    /// deposit or withdrawal needs a transaction id that is new, a
    /// withdrawal and a dispute need enough available funds, and a dispute,
    /// resolve or chargeback needs a transaction of this client in the right
    /// state. A refused event leaves the account and the store as they were.
    ///
    /// The event is applied to this account whatever client it names: it is
    /// the caller that routes events. The store is borrowed exclusively for
    /// the whole step, so that looking a transaction up and writing it are
    /// one action towards every other client of the store.
    pub fn update<S: TxStore>(&mut self, store: &mut S, event: &Event) -> (res: Result<
        (),
        ApplyError,
    >)
        ensures
            res == apply(old(self)@, old(store)@, event.tx(), *event.kind()).result,
            final(self)@ == apply(old(self)@, old(store)@, event.tx(), *event.kind()).account,
            final(store)@ == apply(old(self)@, old(store)@, event.tx(), *event.kind()).entries,
    {
        if self.locked {
            return Err(ApplyError::AccountFrozen);
        }
        let tx = event.tx();
        let found = store.get(self.id, tx);
        match *event.kind() {
            EventType::Deposit(amount) => {
                if found.is_some() {
                    return Err(ApplyError::DuplicateTransaction);
                }
                let next = self.with_balances(
                    self.available.checked_add(amount),
                    self.total.checked_add(amount),
                    false,
                );
                self.settle(store, tx, TxState::Deposit(amount), next)
            },
            EventType::Withdrawal(amount) => {
                if self.available < amount {
                    return Err(ApplyError::InsufficientFunds);
                }
                if found.is_some() {
                    return Err(ApplyError::DuplicateTransaction);
                }
                let next = self.with_balances(
                    self.available.checked_sub(amount),
                    self.total.checked_sub(amount),
                    false,
                );
                self.settle(store, tx, TxState::Withdrawal, next)
            },
            EventType::Dispute => match found {
                None => Err(ApplyError::TransactionNotFound),
                Some(TxState::Dispute(_)) => Err(ApplyError::TransactionAlreadyDisputed),
                Some(TxState::Withdrawal) => Err(ApplyError::TransactionCannotBeDisputed),
                Some(TxState::Deposit(amount)) => {
                    if amount > self.available {
                        return Err(ApplyError::InsufficientFunds);
                    }
                    let next = self.with_balances(
                        self.available.checked_sub(amount),
                        Some(self.total),
                        false,
                    );
                    self.settle(store, tx, TxState::Dispute(amount), next)
                },
            },
            EventType::Resolve => match found {
                None => Err(ApplyError::TransactionNotFound),
                Some(TxState::Dispute(amount)) => {
                    let next = self.with_balances(
                        self.available.checked_add(amount),
                        Some(self.total),
                        false,
                    );
                    self.settle(store, tx, TxState::Deposit(amount), next)
                },
                Some(_) => Err(ApplyError::TransactionNotDisputed),
            },
            EventType::Chargeback => match found {
                None => Err(ApplyError::TransactionNotFound),
                Some(TxState::Dispute(amount)) => {
                    let next = self.with_balances(
                        Some(self.available),
                        self.total.checked_sub(amount),
                        true,
                    );
                    match next {
                        None => Err(ApplyError::BalanceOverflow),
                        Some(client) => {
                            *self = client;
                            Ok(())
                        },
                    }
                },
                Some(_) => Err(ApplyError::TransactionNotDisputed),
            },
        }
    }
}

} // verus!
