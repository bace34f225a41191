use payments::storage::{MemoryStore, StoreError, TxState, TxStore};

#[test]
fn new_store_is_empty() {
    let store = MemoryStore::new();
    assert_eq!(store.get(1337, 1), None);
    assert_eq!(store.get(0, 0), None);
    assert_eq!(store.get(u16::MAX, u32::MAX), None);
}

#[test]
fn upsert_creates_and_get_returns_the_state() {
    let mut store = MemoryStore::new();
    assert_eq!(store.upsert(1337, 1, TxState::Deposit(10_000)), Ok(()));
    assert_eq!(store.get(1337, 1), Some(TxState::Deposit(10_000)));
    assert_eq!(store.get(1337, 2), None);
}

#[test]
fn get_hides_a_transaction_from_other_clients() {
    let mut store = MemoryStore::new();
    store.upsert(1337, 1, TxState::Deposit(10_000)).unwrap();
    assert_eq!(store.get(1234, 1), None);
    assert_eq!(store.get(1336, 1), None);
    assert_eq!(store.get(1337, 1), Some(TxState::Deposit(10_000)));
}

#[test]
fn upsert_by_the_owner_overwrites_the_state() {
    let mut store = MemoryStore::new();
    store.upsert(7, 3, TxState::Deposit(500)).unwrap();
    assert_eq!(store.upsert(7, 3, TxState::Dispute(500)), Ok(()));
    assert_eq!(store.get(7, 3), Some(TxState::Dispute(500)));
    assert_eq!(store.upsert(7, 3, TxState::Deposit(500)), Ok(()));
    assert_eq!(store.get(7, 3), Some(TxState::Deposit(500)));
}

#[test]
fn upsert_by_another_client_is_refused_and_changes_nothing() {
    let mut store = MemoryStore::new();
    store.upsert(7, 3, TxState::Deposit(500)).unwrap();
    assert_eq!(
        store.upsert(8, 3, TxState::Deposit(900)),
        Err(StoreError::OwnershipConflict)
    );
    assert_eq!(
        store.upsert(8, 3, TxState::Withdrawal),
        Err(StoreError::OwnershipConflict)
    );
    assert_eq!(store.get(7, 3), Some(TxState::Deposit(500)));
    assert_eq!(store.get(8, 3), None);
}

#[test]
fn transactions_of_different_clients_live_side_by_side() {
    let mut store = MemoryStore::new();
    store.upsert(1, 10, TxState::Deposit(1)).unwrap();
    store.upsert(2, 11, TxState::Withdrawal).unwrap();
    store.upsert(1, 12, TxState::Dispute(3)).unwrap();
    assert_eq!(store.get(1, 10), Some(TxState::Deposit(1)));
    assert_eq!(store.get(2, 11), Some(TxState::Withdrawal));
    assert_eq!(store.get(1, 12), Some(TxState::Dispute(3)));
    assert_eq!(store.get(2, 10), None);
    assert_eq!(store.get(1, 11), None);
}

#[test]
fn default_store_is_empty() {
    let mut store = MemoryStore::default();
    assert_eq!(store.get(1, 1), None);
    assert_eq!(store.upsert(1, 1, TxState::Withdrawal), Ok(()));
    assert_eq!(store.get(1, 1), Some(TxState::Withdrawal));
}
