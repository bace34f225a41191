use payments::clients::{ApplyError, Client};
use payments::events::{Event, Record};
use payments::storage::{MemoryStore, TxState, TxStore};
use payments::Amount;

fn event_for(kind: &str, client: u16, tx: u32, amount: Option<Amount>) -> Event {
    Event::try_from(Record {
        kind: kind.to_string(),
        client,
        tx,
        amount,
    })
    .unwrap()
}

fn deposit(tx: u32, amount: Amount) -> Event {
    event_for("deposit", 1, tx, Some(amount))
}

fn withdrawal(tx: u32, amount: Amount) -> Event {
    event_for("withdrawal", 1, tx, Some(amount))
}

fn dispute(tx: u32) -> Event {
    event_for("dispute", 1, tx, None)
}

fn resolve(tx: u32) -> Event {
    event_for("resolve", 1, tx, None)
}

fn chargeback(tx: u32) -> Event {
    event_for("chargeback", 1, tx, None)
}

fn balances(client: &Client) -> (Amount, Amount, Amount, bool) {
    (
        client.available(),
        client.held(),
        client.total(),
        client.locked(),
    )
}

#[test]
fn new_client_is_empty_and_open() {
    let client = Client::new(1337);
    assert_eq!(client.id(), 1337);
    assert_eq!(balances(&client), (0, 0, 0, false));
}

#[test]
fn deposit_adds_to_available_and_total_and_records_the_transaction() {
    let mut store = MemoryStore::new();
    let mut client = Client::new(1);
    assert_eq!(client.update(&mut store, &deposit(1, 25)), Ok(()));
    assert_eq!(balances(&client), (25, 0, 25, false));
    assert_eq!(store.get(1, 1), Some(TxState::Deposit(25)));
    assert_eq!(client.update(&mut store, &deposit(2, 17)), Ok(()));
    assert_eq!(balances(&client), (42, 0, 42, false));
    assert_eq!(store.get(1, 2), Some(TxState::Deposit(17)));
}

#[test]
fn withdrawal_takes_from_available_and_total_and_records_the_transaction() {
    let mut store = MemoryStore::new();
    let mut client = Client::new(1);
    client.update(&mut store, &deposit(1, 100)).unwrap();
    assert_eq!(client.update(&mut store, &withdrawal(2, 30)), Ok(()));
    assert_eq!(balances(&client), (70, 0, 70, false));
    assert_eq!(store.get(1, 2), Some(TxState::Withdrawal));
    assert_eq!(client.update(&mut store, &withdrawal(3, 70)), Ok(()));
    assert_eq!(balances(&client), (0, 0, 0, false));
}

#[test]
fn dispute_moves_the_deposit_from_available_to_held() {
    let mut store = MemoryStore::new();
    let mut client = Client::new(1);
    client.update(&mut store, &deposit(1, 100)).unwrap();
    client.update(&mut store, &deposit(2, 11)).unwrap();
    assert_eq!(client.update(&mut store, &dispute(1)), Ok(()));
    assert_eq!(balances(&client), (11, 100, 111, false));
    assert_eq!(store.get(1, 1), Some(TxState::Dispute(100)));
    assert_eq!(store.get(1, 2), Some(TxState::Deposit(11)));
}

#[test]
fn resolve_moves_the_deposit_back_to_available() {
    let mut store = MemoryStore::new();
    let mut client = Client::new(1);
    client.update(&mut store, &deposit(1, 100)).unwrap();
    client.update(&mut store, &dispute(1)).unwrap();
    assert_eq!(client.update(&mut store, &resolve(1)), Ok(()));
    assert_eq!(balances(&client), (100, 0, 100, false));
    assert_eq!(store.get(1, 1), Some(TxState::Deposit(100)));
}

#[test]
fn resolved_deposit_can_be_disputed_again() {
    let mut store = MemoryStore::new();
    let mut client = Client::new(1);
    client.update(&mut store, &deposit(1, 100)).unwrap();
    client.update(&mut store, &dispute(1)).unwrap();
    client.update(&mut store, &resolve(1)).unwrap();
    assert_eq!(client.update(&mut store, &dispute(1)), Ok(()));
    assert_eq!(balances(&client), (0, 100, 100, false));
}

#[test]
fn chargeback_takes_the_held_deposit_and_freezes() {
    let mut store = MemoryStore::new();
    let mut client = Client::new(1);
    client.update(&mut store, &deposit(1, 100)).unwrap();
    client.update(&mut store, &deposit(2, 11)).unwrap();
    client.update(&mut store, &dispute(1)).unwrap();
    assert_eq!(client.update(&mut store, &chargeback(1)), Ok(()));
    assert_eq!(balances(&client), (11, 0, 11, true));
    assert_eq!(store.get(1, 1), Some(TxState::Dispute(100)));
}

#[test]
fn frozen_account_refuses_every_kind_of_event() {
    let mut store = MemoryStore::new();
    let mut client = Client::new(1);
    client.update(&mut store, &deposit(1, 100)).unwrap();
    client.update(&mut store, &deposit(2, 50)).unwrap();
    client.update(&mut store, &dispute(1)).unwrap();
    client.update(&mut store, &dispute(2)).unwrap();
    client.update(&mut store, &chargeback(1)).unwrap();
    let frozen = balances(&client);
    assert_eq!(frozen, (0, 50, 50, true));
    for event in [
        deposit(3, 10),
        withdrawal(4, 0),
        dispute(2),
        resolve(2),
        chargeback(2),
        chargeback(1),
        deposit(1, 10),
    ] {
        assert_eq!(
            client.update(&mut store, &event),
            Err(ApplyError::AccountFrozen)
        );
        assert_eq!(balances(&client), frozen);
    }
    assert_eq!(store.get(1, 3), None);
    assert_eq!(store.get(1, 4), None);
    assert_eq!(store.get(1, 2), Some(TxState::Dispute(50)));
}

#[test]
fn deposit_under_a_known_id_is_a_duplicate_whatever_the_amount() {
    let mut store = MemoryStore::new();
    let mut client = Client::new(1);
    client.update(&mut store, &deposit(1, 100)).unwrap();
    for amount in [100, 5, 0, -3, i64::MAX, i64::MIN] {
        assert_eq!(
            client.update(&mut store, &deposit(1, amount)),
            Err(ApplyError::DuplicateTransaction)
        );
        assert_eq!(balances(&client), (100, 0, 100, false));
        assert_eq!(store.get(1, 1), Some(TxState::Deposit(100)));
    }
}

#[test]
fn deposit_under_the_id_of_a_withdrawal_or_disputed_deposit_is_a_duplicate() {
    let mut store = MemoryStore::new();
    let mut client = Client::new(1);
    client.update(&mut store, &deposit(1, 100)).unwrap();
    client.update(&mut store, &deposit(3, 10)).unwrap();
    client.update(&mut store, &withdrawal(2, 10)).unwrap();
    client.update(&mut store, &dispute(1)).unwrap();
    assert_eq!(
        client.update(&mut store, &deposit(2, 1)),
        Err(ApplyError::DuplicateTransaction)
    );
    assert_eq!(
        client.update(&mut store, &deposit(1, 1)),
        Err(ApplyError::DuplicateTransaction)
    );
    assert_eq!(balances(&client), (0, 100, 100, false));
}

#[test]
fn withdrawal_under_a_known_id_is_a_duplicate() {
    let mut store = MemoryStore::new();
    let mut client = Client::new(1);
    client.update(&mut store, &deposit(1, 100)).unwrap();
    assert_eq!(
        client.update(&mut store, &withdrawal(1, 5)),
        Err(ApplyError::DuplicateTransaction)
    );
    client.update(&mut store, &withdrawal(2, 5)).unwrap();
    assert_eq!(
        client.update(&mut store, &withdrawal(2, 5)),
        Err(ApplyError::DuplicateTransaction)
    );
    assert_eq!(balances(&client), (95, 0, 95, false));
    assert_eq!(store.get(1, 1), Some(TxState::Deposit(100)));
}

#[test]
fn withdrawal_beyond_available_funds_is_refused() {
    let mut store = MemoryStore::new();
    let mut client = Client::new(1);
    client.update(&mut store, &deposit(1, 100)).unwrap();
    assert_eq!(
        client.update(&mut store, &withdrawal(2, 101)),
        Err(ApplyError::InsufficientFunds)
    );
    assert_eq!(balances(&client), (100, 0, 100, false));
    assert_eq!(store.get(1, 2), None);
    assert_eq!(client.update(&mut store, &withdrawal(2, 100)), Ok(()));
}

#[test]
fn withdrawal_cannot_touch_held_funds() {
    let mut store = MemoryStore::new();
    let mut client = Client::new(1);
    client.update(&mut store, &deposit(1, 100)).unwrap();
    client.update(&mut store, &dispute(1)).unwrap();
    assert_eq!(
        client.update(&mut store, &withdrawal(2, 1)),
        Err(ApplyError::InsufficientFunds)
    );
    assert_eq!(balances(&client), (0, 100, 100, false));
}

#[test]
fn insufficient_funds_are_reported_before_a_duplicate_withdrawal() {
    let mut store = MemoryStore::new();
    let mut client = Client::new(1);
    client.update(&mut store, &deposit(1, 100)).unwrap();
    assert_eq!(
        client.update(&mut store, &withdrawal(1, 101)),
        Err(ApplyError::InsufficientFunds)
    );
}

#[test]
fn dispute_beyond_available_funds_is_refused() {
    let mut store = MemoryStore::new();
    let mut client = Client::new(1);
    client.update(&mut store, &deposit(1, 100)).unwrap();
    client.update(&mut store, &withdrawal(2, 1)).unwrap();
    assert_eq!(
        client.update(&mut store, &dispute(1)),
        Err(ApplyError::InsufficientFunds)
    );
    assert_eq!(balances(&client), (99, 0, 99, false));
    assert_eq!(store.get(1, 1), Some(TxState::Deposit(100)));
}

#[test]
fn dispute_resolve_chargeback_of_an_unknown_transaction_are_not_found() {
    let mut store = MemoryStore::new();
    let mut client = Client::new(1);
    client.update(&mut store, &deposit(1, 100)).unwrap();
    for event in [dispute(9), resolve(9), chargeback(9)] {
        assert_eq!(
            client.update(&mut store, &event),
            Err(ApplyError::TransactionNotFound)
        );
        assert_eq!(balances(&client), (100, 0, 100, false));
    }
    assert_eq!(store.get(1, 9), None);
}

#[test]
fn resolve_and_chargeback_need_a_dispute() {
    let mut store = MemoryStore::new();
    let mut client = Client::new(1);
    client.update(&mut store, &deposit(1, 100)).unwrap();
    client.update(&mut store, &withdrawal(2, 10)).unwrap();
    for event in [resolve(1), chargeback(1), resolve(2), chargeback(2)] {
        assert_eq!(
            client.update(&mut store, &event),
            Err(ApplyError::TransactionNotDisputed)
        );
        assert_eq!(balances(&client), (90, 0, 90, false));
    }
    assert_eq!(store.get(1, 1), Some(TxState::Deposit(100)));
    assert_eq!(store.get(1, 2), Some(TxState::Withdrawal));
}

#[test]
fn disputed_transaction_cannot_be_disputed_again() {
    let mut store = MemoryStore::new();
    let mut client = Client::new(1);
    client.update(&mut store, &deposit(1, 100)).unwrap();
    client.update(&mut store, &deposit(2, 100)).unwrap();
    client.update(&mut store, &dispute(1)).unwrap();
    assert_eq!(
        client.update(&mut store, &dispute(1)),
        Err(ApplyError::TransactionAlreadyDisputed)
    );
    assert_eq!(balances(&client), (100, 100, 200, false));
}

#[test]
fn withdrawal_cannot_be_disputed() {
    let mut store = MemoryStore::new();
    let mut client = Client::new(1);
    client.update(&mut store, &deposit(1, 100)).unwrap();
    client.update(&mut store, &withdrawal(2, 40)).unwrap();
    assert_eq!(
        client.update(&mut store, &dispute(2)),
        Err(ApplyError::TransactionCannotBeDisputed)
    );
    assert_eq!(balances(&client), (60, 0, 60, false));
    assert_eq!(store.get(1, 2), Some(TxState::Withdrawal));
}

#[test]
fn deposit_that_would_overflow_is_refused_and_changes_nothing() {
    let mut store = MemoryStore::new();
    let mut client = Client::new(1);
    client.update(&mut store, &deposit(1, i64::MAX)).unwrap();
    assert_eq!(balances(&client), (i64::MAX, 0, i64::MAX, false));
    assert_eq!(
        client.update(&mut store, &deposit(2, 1)),
        Err(ApplyError::BalanceOverflow)
    );
    assert_eq!(balances(&client), (i64::MAX, 0, i64::MAX, false));
    assert_eq!(store.get(1, 2), None);
    assert_eq!(client.update(&mut store, &deposit(2, 0)), Ok(()));
}

#[test]
fn withdrawal_of_a_negative_amount_that_would_overflow_is_refused() {
    let mut store = MemoryStore::new();
    let mut client = Client::new(1);
    client.update(&mut store, &deposit(1, i64::MAX)).unwrap();
    assert_eq!(
        client.update(&mut store, &withdrawal(2, -1)),
        Err(ApplyError::BalanceOverflow)
    );
    assert_eq!(balances(&client), (i64::MAX, 0, i64::MAX, false));
    assert_eq!(store.get(1, 2), None);
}

#[test]
fn held_funds_that_would_not_fit_are_refused() {
    let mut store = MemoryStore::new();
    let mut client = Client::new(1);
    client.update(&mut store, &deposit(1, -10)).unwrap();
    client.update(&mut store, &deposit(2, i64::MAX)).unwrap();
    client.update(&mut store, &dispute(1)).unwrap();
    assert_eq!(balances(&client), (i64::MAX, -10, i64::MAX - 10, false));
    client.update(&mut store, &dispute(2)).unwrap();
    client.update(&mut store, &deposit(3, 1)).unwrap();
    client.update(&mut store, &dispute(3)).unwrap();
    assert_eq!(balances(&client), (0, i64::MAX - 9, i64::MAX - 9, false));
    // Resolving the negative deposit would leave available -10 and total
    // i64::MAX - 9: more held than an amount can tell.
    assert_eq!(
        client.update(&mut store, &resolve(1)),
        Err(ApplyError::BalanceOverflow)
    );
    assert_eq!(balances(&client), (0, i64::MAX - 9, i64::MAX - 9, false));
    assert_eq!(store.get(1, 1), Some(TxState::Dispute(-10)));
    assert_eq!(
        client.update(&mut store, &chargeback(1)),
        Err(ApplyError::BalanceOverflow)
    );
    assert_eq!(balances(&client), (0, i64::MAX - 9, i64::MAX - 9, false));
}

#[test]
fn negative_deposit_under_dispute_makes_held_negative() {
    let mut store = MemoryStore::new();
    let mut client = Client::new(1);
    client.update(&mut store, &deposit(1, -5)).unwrap();
    assert_eq!(balances(&client), (-5, 0, -5, false));
    client.update(&mut store, &dispute(1)).unwrap();
    assert_eq!(balances(&client), (0, -5, -5, false));
}

#[test]
fn zero_amounts_are_accepted() {
    let mut store = MemoryStore::new();
    let mut client = Client::new(1);
    assert_eq!(client.update(&mut store, &deposit(1, 0)), Ok(()));
    assert_eq!(client.update(&mut store, &withdrawal(2, 0)), Ok(()));
    assert_eq!(client.update(&mut store, &dispute(1)), Ok(()));
    assert_eq!(client.update(&mut store, &chargeback(1)), Ok(()));
    assert_eq!(balances(&client), (0, 0, 0, true));
}

#[test]
fn event_is_applied_to_the_account_it_is_given_to() {
    let mut store = MemoryStore::new();
    let mut client = Client::new(5);
    let event = event_for("deposit", 6, 1, Some(10));
    assert_eq!(client.update(&mut store, &event), Ok(()));
    assert_eq!(balances(&client), (10, 0, 10, false));
    assert_eq!(store.get(5, 1), Some(TxState::Deposit(10)));
    assert_eq!(store.get(6, 1), None);
}

#[test]
fn transaction_of_another_client_cannot_be_reached() {
    let mut store = MemoryStore::new();
    let mut owner = Client::new(1);
    owner.update(&mut store, &deposit(1, 100)).unwrap();
    owner.update(&mut store, &deposit(2, 100)).unwrap();
    owner.update(&mut store, &dispute(2)).unwrap();

    let mut other = Client::new(2);
    other
        .update(&mut store, &event_for("deposit", 2, 10, Some(500)))
        .unwrap();
    for tx in [1, 2] {
        for kind in ["dispute", "resolve", "chargeback"] {
            assert_eq!(
                other.update(&mut store, &event_for(kind, 2, tx, None)),
                Err(ApplyError::TransactionNotFound)
            );
        }
        assert_eq!(
            other.update(&mut store, &event_for("deposit", 2, tx, Some(7))),
            Err(ApplyError::TransactionNotFound)
        );
        assert_eq!(
            other.update(&mut store, &event_for("withdrawal", 2, tx, Some(7))),
            Err(ApplyError::TransactionNotFound)
        );
    }
    assert_eq!(balances(&other), (500, 0, 500, false));
    assert_eq!(balances(&owner), (100, 100, 200, false));
    assert_eq!(store.get(1, 1), Some(TxState::Deposit(100)));
    assert_eq!(store.get(1, 2), Some(TxState::Dispute(100)));
    assert_eq!(store.get(2, 1), None);
    assert_eq!(store.get(2, 2), None);
}

#[test]
fn overflow_is_reported_before_a_foreign_transaction_id() {
    let mut store = MemoryStore::new();
    let mut owner = Client::new(1);
    owner.update(&mut store, &deposit(1, 100)).unwrap();
    let mut other = Client::new(2);
    other
        .update(&mut store, &event_for("deposit", 2, 2, Some(i64::MAX)))
        .unwrap();
    assert_eq!(
        other.update(&mut store, &event_for("deposit", 2, 1, Some(1))),
        Err(ApplyError::BalanceOverflow)
    );
    assert_eq!(store.get(1, 1), Some(TxState::Deposit(100)));
}

#[test]
fn failed_event_does_not_stop_later_events() {
    let mut store = MemoryStore::new();
    let mut client = Client::new(1);
    client.update(&mut store, &deposit(1, 100)).unwrap();
    assert!(client.update(&mut store, &withdrawal(2, 500)).is_err());
    assert!(client.update(&mut store, &resolve(1)).is_err());
    assert_eq!(client.update(&mut store, &withdrawal(2, 50)), Ok(()));
    assert_eq!(balances(&client), (50, 0, 50, false));
}

#[test]
fn held_is_total_minus_available_after_every_step() {
    let mut store = MemoryStore::new();
    let mut client = Client::new(1);
    let events = [
        deposit(1, 300),
        deposit(2, 200),
        dispute(1),
        withdrawal(3, 150),
        resolve(1),
        dispute(2),
        withdrawal(4, 1000),
        dispute(1),
        chargeback(2),
        deposit(5, 1),
    ];
    for event in events {
        let _ = client.update(&mut store, &event);
        assert_eq!(client.held(), client.total() - client.available());
        assert!(client.held() >= 0);
        assert!(client.available() <= client.total());
    }
    assert_eq!(balances(&client), (150, 0, 150, true));
}

#[test]
fn only_deposits_run_out_of_room() {
    let mut store = MemoryStore::new();
    let mut client = Client::new(1);
    client.update(&mut store, &deposit(1, i64::MAX)).unwrap();
    assert_eq!(client.update(&mut store, &dispute(1)), Ok(()));
    assert_eq!(balances(&client), (0, i64::MAX, i64::MAX, false));
    assert_eq!(client.update(&mut store, &resolve(1)), Ok(()));
    assert_eq!(balances(&client), (i64::MAX, 0, i64::MAX, false));
    assert_eq!(client.update(&mut store, &withdrawal(2, i64::MAX)), Ok(()));
    assert_eq!(balances(&client), (0, 0, 0, false));
    client.update(&mut store, &deposit(3, i64::MAX)).unwrap();
    client.update(&mut store, &dispute(3)).unwrap();
    assert_eq!(client.update(&mut store, &chargeback(3)), Ok(()));
    assert_eq!(balances(&client), (0, 0, 0, true));
}
