use deposit_registry::{Error, InMemoryLedger, Ledger};

#[test]
fn reserve_moves_value_from_free_to_reserved() {
    let mut ledger = InMemoryLedger::new();
    ledger.credit_free(1, 100);
    assert_eq!(ledger.reserve(1, 60), Ok(()));
    assert_eq!(ledger.free_balance(1), 40);
    assert_eq!(ledger.reserved_balance(1), 60);
}

#[test]
fn reserve_fails_when_free_balance_is_short() {
    let mut ledger = InMemoryLedger::new();
    ledger.credit_free(1, 10);
    assert_eq!(ledger.reserve(1, 11), Err(Error::InsufficientBalance));
    assert_eq!(ledger.free_balance(1), 10);
    assert_eq!(ledger.reserved_balance(1), 0);
    assert_eq!(ledger.reserve(2, 1), Err(Error::InsufficientBalance));
}

#[test]
fn unreserve_releases_at_most_what_is_reserved() {
    let mut ledger = InMemoryLedger::new();
    ledger.credit_free(1, 100);
    ledger.reserve(1, 60).unwrap();
    assert_eq!(ledger.unreserve(1, 40), 40);
    assert_eq!(ledger.unreserve(1, 40), 20);
    assert_eq!(ledger.free_balance(1), 100);
    assert_eq!(ledger.reserved_balance(1), 0);
}

#[test]
fn slash_removes_reserved_value_permanently() {
    let mut ledger = InMemoryLedger::new();
    ledger.credit_free(1, 100);
    ledger.reserve(1, 60).unwrap();
    assert_eq!(ledger.slash_reserved(1, 80), 60);
    assert_eq!(ledger.reserved_balance(1), 0);
    assert_eq!(ledger.free_balance(1), 40);
}

#[test]
fn notify_forfeited_accumulates_in_the_sink() {
    let mut ledger = InMemoryLedger::new();
    ledger.notify_forfeited(5);
    ledger.notify_forfeited(7);
    assert_eq!(ledger.forfeited_total(), 12);
    assert_eq!(ledger.free_balance(1), 0);
    assert_eq!(ledger.reserved_balance(1), 0);
}
