//! What holds of every account and every store, whatever events arrive:
//! held funds are never negative, a transaction id is never taken over or
//! replayed, and a frozen account stays as it is.
//!
//! Each statement comes twice: of one event, over [`apply`], for those who
//! drive [`Client::update`](crate::clients::Client::update) themselves, and
//! of any sequence of records, over [`Books::post_all`], for a ledger that
//! is run through [`handle_entry`](crate::ledger::handle_entry).

use crate::clients::{apply, Account, ApplyError, Outcome};
use crate::events::{classify, EventType, Record, ValidationError};
use crate::ledger::{record_nonnegative, Books, EntryError};
use crate::storage::{lookup, Entries, TxState};
use crate::Amount;
use vstd::prelude::*;

verus! {

/// The funds that transaction `tx` holds back from `client`: the amount of
/// a deposit of its own that is under dispute, and nothing otherwise.
pub open spec fn held_by(entries: Entries, client: u16, tx: u32) -> int {
    match lookup(entries, client, tx) {
        Some(TxState::Dispute(amount)) => amount as int,
        _ => 0,
    }
}

/// The funds that the transactions with an id below `bound` hold back from `client`.
pub open spec fn held_below(entries: Entries, client: u16, bound: nat) -> int
    decreases bound,
{
    if bound == 0 {
        0
    } else {
        held_below(entries, client, (bound - 1) as nat) + held_by(
            entries,
            client,
            (bound - 1) as u32,
        )
    }
}

/// The funds that all of `client`'s disputed deposits hold back.
pub open spec fn disputed_total(entries: Entries, client: u16) -> int {
    held_below(entries, client, 0x1_0000_0000)
}

/// Whether no recorded transaction has a negative amount.
pub open spec fn amounts_nonnegative(entries: Entries) -> bool {
    forall|tx: u32| #[trigger]
        entries.contains_key(tx) ==> match entries[tx].1 {
            TxState::Deposit(amount) => amount >= 0,
            TxState::Dispute(amount) => amount >= 0,
            TxState::Withdrawal => true,
        }
}

/// Whether an event brings no negative amount with it.
pub open spec fn amount_nonnegative(kind: EventType) -> bool {
    match kind {
        EventType::Deposit(amount) => amount >= 0,
        EventType::Withdrawal(amount) => amount >= 0,
        _ => true,
    }
}

/// Whether an account agrees with the store: while it is open, its held
/// funds are exactly what its disputed deposits hold back; once frozen, its
/// held funds are what was left under dispute when it froze.
pub open spec fn in_step(account: Account, entries: Entries) -> bool {
    if account.locked {
        0 <= account.held()
    } else {
        account.held() == disputed_total(entries, account.id)
    }
}

proof fn lemma_held_below_nonnegative(entries: Entries, client: u16, bound: nat)
    requires
        amounts_nonnegative(entries),
    ensures
        0 <= held_below(entries, client, bound),
    decreases bound,
{
    if bound > 0 {
        lemma_held_below_nonnegative(entries, client, (bound - 1) as nat);
    }
}

proof fn lemma_held_below_covers(entries: Entries, client: u16, bound: nat, tx: u32)
    requires
        amounts_nonnegative(entries),
        tx < bound,
    ensures
        held_by(entries, client, tx) <= held_below(entries, client, bound),
    decreases bound,
{
    if tx == bound - 1 {
        lemma_held_below_nonnegative(entries, client, (bound - 1) as nat);
    } else {
        lemma_held_below_covers(entries, client, (bound - 1) as nat, tx);
    }
}

proof fn lemma_held_below_after_write(
    entries: Entries,
    client: u16,
    bound: nat,
    tx: u32,
    entry: (u16, TxState),
)
    requires
        bound <= 0x1_0000_0000,
    ensures
        held_below(entries.insert(tx, entry), client, bound) == held_below(entries, client, bound)
            + if tx < bound {
            held_by(entries.insert(tx, entry), client, tx) - held_by(entries, client, tx)
        } else {
            0
        },
    decreases bound,
{
    if bound > 0 {
        lemma_held_below_after_write(entries, client, (bound - 1) as nat, tx, entry);
    }
}

proof fn lemma_held_below_without_transactions(entries: Entries, client: u16, bound: nat)
    requires
        forall|tx: u32| #[trigger] entries.contains_key(tx) ==> entries[tx].0 != client,
    ensures
        held_below(entries, client, bound) == 0,
    decreases bound,
{
    if bound > 0 {
        lemma_held_below_without_transactions(entries, client, (bound - 1) as nat);
    }
}

/// A client that owns no transaction has nothing under dispute, so a new
/// account agrees with the store.
pub proof fn lemma_new_account_in_step(id: u16, entries: Entries)
    requires
        forall|tx: u32| #[trigger] entries.contains_key(tx) ==> entries[tx].0 != id,
    ensures
        in_step(Account::opened(id), entries),
{
    lemma_held_below_without_transactions(entries, id, 0x1_0000_0000);
}

/// Held funds are never negative: an account that agrees with a store of
/// non-negative amounts has `available <= total`.
pub proof fn lemma_held_never_negative(account: Account, entries: Entries)
    requires
        in_step(account, entries),
        amounts_nonnegative(entries),
    ensures
        0 <= account.held(),
        account.available <= account.total,
{
    lemma_held_below_nonnegative(entries, account.id, 0x1_0000_0000);
}

/// Every event keeps the account in step with the store, accepted or not,
/// so long as no amount is negative. With [`lemma_held_never_negative`]
/// this makes `available <= total` hold after every event. Nor does an
/// event overdraw the account: available funds that were not negative stay so.
pub proof fn lemma_apply_keeps_in_step(
    account: Account,
    entries: Entries,
    tx: u32,
    kind: EventType,
)
    requires
        in_step(account, entries),
        amounts_nonnegative(entries),
        amount_nonnegative(kind),
    ensures
        in_step(
            apply(account, entries, tx, kind).account,
            apply(account, entries, tx, kind).entries,
        ),
        amounts_nonnegative(apply(account, entries, tx, kind).entries),
        0 <= apply(account, entries, tx, kind).account.held(),
        0 <= account.available ==> 0 <= apply(account, entries, tx, kind).account.available,
{
    let out = apply(account, entries, tx, kind);
    lemma_held_never_negative(account, entries);
    if out.result is Ok {
        match kind {
            EventType::Chargeback => {
                lemma_held_below_covers(entries, account.id, 0x1_0000_0000, tx);
            },
            _ => {
                lemma_held_below_after_write(
                    entries,
                    account.id,
                    0x1_0000_0000,
                    tx,
                    out.entries[tx],
                );
                assert(out.entries =~= entries.insert(tx, out.entries[tx]));
            },
        }
    }
    lemma_held_never_negative(out.account, out.entries);
}

/// Only a deposit can fail for want of room: while no amount is negative,
/// an account that is in step and not overdrawn never meets
/// [`ApplyError::BalanceOverflow`] on a withdrawal, dispute, resolve or
/// chargeback.
pub proof fn lemma_only_deposits_overflow(
    account: Account,
    entries: Entries,
    tx: u32,
    kind: EventType,
)
    requires
        account.representable(),
        0 <= account.available,
        in_step(account, entries),
        amounts_nonnegative(entries),
        amount_nonnegative(kind),
        !(kind is Deposit),
    ensures
        apply(account, entries, tx, kind).result != Err::<(), ApplyError>(
            ApplyError::BalanceOverflow,
        ),
{
    lemma_held_never_negative(account, entries);
    if kind is Resolve || kind is Chargeback {
        lemma_held_below_covers(entries, account.id, 0x1_0000_0000, tx);
    }
}

/// An event of one client leaves every other client's account in step with
/// the store: it writes only under transaction ids of its own.
pub proof fn lemma_apply_spares_others(
    account: Account,
    entries: Entries,
    tx: u32,
    kind: EventType,
    other: Account,
)
    requires
        other.id != account.id,
        in_step(other, entries),
    ensures
        in_step(other, apply(account, entries, tx, kind).entries),
        disputed_total(apply(account, entries, tx, kind).entries, other.id) == disputed_total(
            entries,
            other.id,
        ),
{
    let out = apply(account, entries, tx, kind);
    if out.entries != entries {
        lemma_held_below_after_write(entries, other.id, 0x1_0000_0000, tx, out.entries[tx]);
        assert(out.entries =~= entries.insert(tx, out.entries[tx]));
    }
}

/// Whether `later` still holds every transaction of `earlier` under the
/// owner it had: what a store may become, whatever events arrive.
pub open spec fn keeps_owners(earlier: Entries, later: Entries) -> bool {
    forall|tx: u32| #[trigger]
        earlier.contains_key(tx) ==> later.contains_key(tx) && later[tx].0 == earlier[tx].0
}

/// A transaction, once recorded, stays recorded under the same owner,
/// whatever event is applied for whatever client.
pub proof fn lemma_apply_keeps_owners(account: Account, entries: Entries, tx: u32, kind: EventType)
    ensures
        keeps_owners(entries, apply(account, entries, tx, kind).entries),
{
}

/// An accepted deposit or withdrawal records its transaction id for the
/// client, and the id was not the client's before.
pub proof fn lemma_accepted_transaction_is_recorded(
    account: Account,
    entries: Entries,
    tx: u32,
    kind: EventType,
)
    requires
        kind is Deposit || kind is Withdrawal,
        apply(account, entries, tx, kind).result is Ok,
    ensures
        !entries.contains_key(tx),
        lookup(apply(account, entries, tx, kind).entries, account.id, tx) is Some,
        apply(account, entries, tx, kind).account.id == account.id,
{
}

/// A deposit under a transaction id that the client has had at any earlier
/// time is rejected, whatever its amount and whatever has happened since,
/// and changes nothing; so it is rejected again however often it is replayed.
pub proof fn lemma_replayed_deposit_rejected(
    account: Account,
    earlier: Entries,
    later: Entries,
    tx: u32,
    amount: Amount,
)
    requires
        lookup(earlier, account.id, tx) is Some,
        keeps_owners(earlier, later),
    ensures
        apply(account, later, tx, EventType::Deposit(amount)) == (Outcome {
            result: Err(
                if account.locked {
                    ApplyError::AccountFrozen
                } else {
                    ApplyError::DuplicateTransaction
                },
            ),
            account,
            entries: later,
        }),
{
}

/// A transaction of one client cannot be reached by another, then or at any
/// later time: a dispute, resolve or chargeback of it fails as if there
/// were no such transaction, a deposit or withdrawal under its id fails
/// too, and nothing changes.
pub proof fn lemma_foreign_transaction_unreachable(
    account: Account,
    earlier: Entries,
    later: Entries,
    tx: u32,
    kind: EventType,
)
    requires
        earlier.contains_key(tx),
        earlier[tx].0 != account.id,
        keeps_owners(earlier, later),
    ensures
        apply(account, later, tx, kind).result is Err,
        apply(account, later, tx, kind).account == account,
        apply(account, later, tx, kind).entries == later,
        !account.locked && (kind is Dispute || kind is Resolve || kind is Chargeback) ==> apply(
            account,
            later,
            tx,
            kind,
        ).result == Err::<(), ApplyError>(ApplyError::TransactionNotFound),
{
}

/// A frozen account is frozen for good: every event fails with
/// [`ApplyError::AccountFrozen`], under every store, and changes nothing.
pub proof fn lemma_frozen_is_absorbing(account: Account, entries: Entries, tx: u32, kind: EventType)
    requires
        account.locked,
    ensures
        apply(account, entries, tx, kind) == (Outcome {
            result: Err(ApplyError::AccountFrozen),
            account,
            entries,
        }),
{
}

/// An accepted chargeback freezes the account: whatever event comes next,
/// under whatever store, fails with [`ApplyError::AccountFrozen`] and
/// leaves the account frozen.
pub proof fn lemma_chargeback_is_final(
    account: Account,
    entries: Entries,
    tx: u32,
    later: Entries,
    next_tx: u32,
    next_kind: EventType,
)
    requires
        apply(account, entries, tx, EventType::Chargeback).result is Ok,
    ensures
        apply(account, entries, tx, EventType::Chargeback).account.locked,
        apply(
            apply(account, entries, tx, EventType::Chargeback).account,
            later,
            next_tx,
            next_kind,
        ) == (Outcome {
            result: Err(ApplyError::AccountFrozen),
            account: apply(account, entries, tx, EventType::Chargeback).account,
            entries: later,
        }),
{
}

/// A ledger without accounts and transactions is balanced.
pub proof fn lemma_empty_books_balanced()
    ensures
        Books::empty().balanced(),
{
}

/// In a balanced ledger no account holds a negative sum, and none is
/// overdrawn: `0 <= available <= total` for every client.
pub proof fn lemma_balanced_books_hold_nothing_negative(books: Books, id: u16)
    requires
        books.balanced(),
        books.accounts.contains_key(id),
    ensures
        0 <= books.accounts[id].held(),
        0 <= books.accounts[id].available <= books.accounts[id].total,
{
    lemma_held_never_negative(books.accounts[id], books.entries);
}

/// A record without a negative amount leaves a balanced ledger balanced,
/// whether it is accepted or not.
pub proof fn lemma_post_keeps_balance(books: Books, record: Record)
    requires
        books.balanced(),
        record_nonnegative(record),
    ensures
        books.post(record).balanced(),
{
    match classify(record.kind@, record.amount) {
        Err(_) => {},
        Ok(kind) => {
            let id = record.client;
            let account = books.account(id);
            let after = books.post(record);
            if !books.accounts.contains_key(id) {
                lemma_new_account_in_step(id, books.entries);
            }
            lemma_apply_keeps_in_step(account, books.entries, record.tx, kind);
            assert forall|other: u16| #[trigger]
                after.accounts.contains_key(other) implies after.accounts[other].id == other && 0
                <= after.accounts[other].available && in_step(
                after.accounts[other],
                after.entries,
            ) by {
                if other != id {
                    lemma_apply_spares_others(
                        account,
                        books.entries,
                        record.tx,
                        kind,
                        books.accounts[other],
                    );
                }
            }
        },
    }
}

/// Held funds are never negative: after any sequence of records without a
/// negative amount, from a ledger that was balanced (an empty one is), the
/// ledger is balanced, and `0 <= available <= total` for every client.
pub proof fn lemma_run_keeps_balance(books: Books, records: Seq<Record>)
    requires
        books.balanced(),
        forall|i: int| 0 <= i < records.len() ==> record_nonnegative(#[trigger] records[i]),
    ensures
        books.post_all(records).balanced(),
        forall|id: u16| #[trigger]
            books.post_all(records).accounts.contains_key(id) ==> 0 <= books.post_all(
                records,
            ).accounts[id].held() && 0 <= books.post_all(records).accounts[id].available,
    decreases records.len(),
{
    if records.len() > 0 {
        lemma_run_keeps_balance(books, records.drop_last());
        lemma_post_keeps_balance(books.post_all(records.drop_last()), records.last());
    }
    let after = books.post_all(records);
    assert forall|id: u16| #[trigger] after.accounts.contains_key(id) implies 0
        <= after.accounts[id].held() && 0 <= after.accounts[id].available by {
        lemma_balanced_books_hold_nothing_negative(after, id);
    }
}

/// From the first record on, every client has `0 <= available <= total`:
/// after any sequence of records without a negative amount, applied to an
/// empty ledger, no account holds a negative sum and none is overdrawn, so
/// that no total is negative either.
pub proof fn lemma_available_never_exceeds_total(records: Seq<Record>, id: u16)
    requires
        forall|i: int| 0 <= i < records.len() ==> record_nonnegative(#[trigger] records[i]),
        Books::empty().post_all(records).accounts.contains_key(id),
    ensures
        0 <= Books::empty().post_all(records).accounts[id].held(),
        0 <= Books::empty().post_all(records).accounts[id].available
            <= Books::empty().post_all(records).accounts[id].total,
{
    lemma_run_keeps_balance(Books::empty(), records);
}

/// No sequence of records removes a transaction from the store or hands it
/// to another client, and none changes the id of an account.
pub proof fn lemma_run_keeps_owners(books: Books, records: Seq<Record>)
    ensures
        keeps_owners(books.entries, books.post_all(records).entries),
        forall|id: u16| #[trigger]
            books.post_all(records).account(id).id == books.account(id).id,
    decreases records.len(),
{
    if records.len() > 0 {
        lemma_run_keeps_owners(books, records.drop_last());
        let before = books.post_all(records.drop_last());
        let after = books.post_all(records);
        assert forall|id: u16| #[trigger] after.account(id).id == books.account(id).id by {
            assert(before.account(id).id == books.account(id).id);
        }
    }
}

/// A record of a deposit or withdrawal that was accepted leaves its
/// transaction id with the client it names.
pub proof fn lemma_accepted_record_is_recorded(books: Books, record: Record)
    requires
        classify(record.kind@, record.amount) is Ok,
        classify(record.kind@, record.amount)->Ok_0 is Deposit || classify(
            record.kind@,
            record.amount,
        )->Ok_0 is Withdrawal,
        books.verdict(record) is Ok,
    ensures
        lookup(
            books.post(record).entries,
            books.post(record).account(record.client).id,
            record.tx,
        ) is Some,
{
}

/// A deposit under a transaction id that the client has already is rejected
/// every time: whatever records have come in between and whatever amount
/// the deposit names, it fails as a duplicate (or, should the account have
/// been frozen since, as one to a frozen account) and changes no balance
/// and no transaction.
pub proof fn lemma_replayed_deposit_always_rejected(
    books: Books,
    between: Seq<Record>,
    replay: Record,
)
    requires
        classify(replay.kind@, replay.amount) is Ok,
        classify(replay.kind@, replay.amount)->Ok_0 is Deposit,
        lookup(books.entries, books.account(replay.client).id, replay.tx) is Some,
    ensures
        books.post_all(between).verdict(replay) == Err::<(), EntryError>(
            EntryError::Rejected(
                if books.post_all(between).account(replay.client).locked {
                    ApplyError::AccountFrozen
                } else {
                    ApplyError::DuplicateTransaction
                },
            ),
        ),
        books.post_all(between).post(replay).entries == books.post_all(between).entries,
        books.post_all(between).post(replay).account(replay.client) == books.post_all(
            between,
        ).account(replay.client),
{
    lemma_run_keeps_owners(books, between);
    let later = books.post_all(between);
    lemma_replayed_deposit_rejected(
        later.account(replay.client),
        books.entries,
        later.entries,
        replay.tx,
        classify(replay.kind@, replay.amount)->Ok_0->Deposit_0,
    );
}

/// A transaction of one client stays out of reach of every other for good:
/// whatever records have come in between, an event of another client that
/// names it fails and changes no balance and no transaction; a dispute,
/// resolve or chargeback fails as if there were no such transaction.
pub proof fn lemma_foreign_transaction_never_reachable(
    books: Books,
    between: Seq<Record>,
    intruder: Record,
)
    requires
        classify(intruder.kind@, intruder.amount) is Ok,
        books.entries.contains_key(intruder.tx),
        books.entries[intruder.tx].0 != books.account(intruder.client).id,
    ensures
        books.post_all(between).verdict(intruder) is Err,
        books.post_all(between).post(intruder).entries == books.post_all(between).entries,
        books.post_all(between).post(intruder).account(intruder.client) == books.post_all(
            between,
        ).account(intruder.client),
        classify(intruder.kind@, intruder.amount) matches Ok(kind) && (kind is Dispute
            || kind is Resolve || kind is Chargeback) ==> books.post_all(between).verdict(intruder)
            == Err::<(), EntryError>(
            EntryError::Rejected(
                if books.post_all(between).account(intruder.client).locked {
                    ApplyError::AccountFrozen
                } else {
                    ApplyError::TransactionNotFound
                },
            ),
        ),
{
    lemma_run_keeps_owners(books, between);
    let later = books.post_all(between);
    lemma_foreign_transaction_unreachable(
        later.account(intruder.client),
        books.entries,
        later.entries,
        intruder.tx,
        classify(intruder.kind@, intruder.amount)->Ok_0,
    );
}

/// A frozen account stays frozen with the balances it froze with, whatever
/// records follow.
pub proof fn lemma_run_spares_frozen(books: Books, records: Seq<Record>, id: u16)
    requires
        books.accounts.contains_key(id),
        books.accounts[id].locked,
    ensures
        books.post_all(records).accounts.contains_key(id),
        books.post_all(records).accounts[id] == books.accounts[id],
    decreases records.len(),
{
    if records.len() > 0 {
        lemma_run_spares_frozen(books, records.drop_last(), id);
    }
}

/// Freezing is for good: once a chargeback has been accepted for a client,
/// every later event for that client fails with
/// [`ApplyError::AccountFrozen`], whatever records have come in between,
/// and changes no balance and no transaction.
pub proof fn lemma_nothing_follows_a_chargeback(
    books: Books,
    chargeback: Record,
    between: Seq<Record>,
    next: Record,
)
    requires
        classify(chargeback.kind@, chargeback.amount) == Ok::<EventType, ValidationError>(
            EventType::Chargeback,
        ),
        books.verdict(chargeback) is Ok,
        classify(next.kind@, next.amount) is Ok,
        next.client == chargeback.client,
    ensures
        books.post(chargeback).post_all(between).verdict(next) == Err::<(), EntryError>(
            EntryError::Rejected(ApplyError::AccountFrozen),
        ),
        books.post(chargeback).post_all(between).post(next).entries == books.post(
            chargeback,
        ).post_all(between).entries,
        books.post(chargeback).post_all(between).post(next).accounts[next.client] == books.post(
            chargeback,
        ).accounts[next.client],
{
    lemma_run_spares_frozen(books.post(chargeback), between, next.client);
}

} // verus!
