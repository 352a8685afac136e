use fluxpay::key::pair_key;
use fluxpay::{close, initialize, withdraw, Close, ErrorCode, Initialize, Ledger, Withdraw};

const GIVER: u64 = 7;
const RECIPIENT: u64 = 9;
const STRANGER: u64 = 11;

fn open(total: u64, expires_at: i64) -> Ledger {
    let mut ledger = Ledger::new();
    ledger.deposit(GIVER, 1_000).unwrap();
    initialize(
        &mut ledger,
        Initialize { giver: GIVER, recipient: RECIPIENT, bump: 254 },
        total,
        expires_at,
    )
    .unwrap();
    ledger
}

fn draw(signer: u64) -> Withdraw {
    Withdraw { giver: GIVER, recipient: RECIPIENT, signer }
}

fn shut(signer: u64) -> Close {
    Close { giver: GIVER, recipient: RECIPIENT, signer }
}

#[test]
fn create_funds_the_entry() {
    let ledger = open(100, 50);
    let e = ledger.lookup(GIVER, RECIPIENT).unwrap();
    assert_eq!(e.giver, GIVER);
    assert_eq!(e.recipient, RECIPIENT);
    assert_eq!(e.total, 100);
    assert_eq!(e.withdrawn, 0);
    assert_eq!(e.expires_at, 50);
    assert_eq!(e.bump, 254);
    assert_eq!(ledger.held(GIVER, RECIPIENT), 100);
    assert_eq!(ledger.balance(GIVER), 900);
}

#[test]
fn create_twice_is_duplicate() {
    let mut ledger = open(100, 50);
    let r = initialize(
        &mut ledger,
        Initialize { giver: GIVER, recipient: RECIPIENT, bump: 1 },
        10,
        60,
    );
    assert_eq!(r, Err(ErrorCode::DuplicateEntry));
    assert_eq!(ledger.lookup(GIVER, RECIPIENT).unwrap().total, 100);
    assert_eq!(ledger.balance(GIVER), 900);
}

#[test]
fn create_without_funds_fails() {
    let mut ledger = Ledger::new();
    ledger.deposit(GIVER, 99).unwrap();
    let r = initialize(
        &mut ledger,
        Initialize { giver: GIVER, recipient: RECIPIENT, bump: 0 },
        100,
        50,
    );
    assert_eq!(r, Err(ErrorCode::InsufficientFunds));
    assert_eq!(ledger.lookup(GIVER, RECIPIENT), None);
    assert_eq!(ledger.balance(GIVER), 99);
}

#[test]
fn create_with_zero_total_and_past_expiry_is_accepted() {
    let mut ledger = Ledger::new();
    let r = initialize(
        &mut ledger,
        Initialize { giver: GIVER, recipient: RECIPIENT, bump: 0 },
        0,
        -5,
    );
    assert_eq!(r, Ok(()));
    assert_eq!(withdraw(&mut ledger, draw(RECIPIENT), 0, 0), Err(ErrorCode::Expired));
    assert_eq!(close(&mut ledger, shut(GIVER)), Ok(()));
    assert_eq!(ledger.lookup(GIVER, RECIPIENT), None);
}

#[test]
fn conservation_over_two_withdrawals_and_close() {
    let mut ledger = open(100, 50);
    assert_eq!(withdraw(&mut ledger, draw(RECIPIENT), 30, 10), Ok(()));
    assert_eq!(withdraw(&mut ledger, draw(RECIPIENT), 20, 20), Ok(()));
    assert_eq!(close(&mut ledger, shut(GIVER)), Ok(()));
    assert_eq!(ledger.balance(GIVER), 900 + 50);
    assert_eq!(ledger.balance(RECIPIENT), 50);
    assert!(ledger.balance(RECIPIENT) + (ledger.balance(GIVER) - 900) <= 100);
    assert_eq!(ledger.held(GIVER, RECIPIENT), 0);
}

#[test]
fn withdraw_all_then_one_more_exceeds_limit() {
    let mut ledger = open(100, 50);
    assert_eq!(withdraw(&mut ledger, draw(RECIPIENT), 100, 50), Ok(()));
    let e = ledger.lookup(GIVER, RECIPIENT).unwrap();
    assert_eq!(e.withdrawn, e.total);
    assert_eq!(ledger.held(GIVER, RECIPIENT), 0);
    assert_eq!(withdraw(&mut ledger, draw(RECIPIENT), 1, 50), Err(ErrorCode::LimitExceeded));
    assert_eq!(ledger.lookup(GIVER, RECIPIENT).unwrap().withdrawn, 100);
    assert_eq!(ledger.balance(RECIPIENT), 100);
}

#[test]
fn withdraw_overflowing_sum_exceeds_limit() {
    let mut ledger = open(100, 50);
    assert_eq!(withdraw(&mut ledger, draw(RECIPIENT), 1, 0), Ok(()));
    assert_eq!(withdraw(&mut ledger, draw(RECIPIENT), u64::MAX, 0), Err(ErrorCode::LimitExceeded));
    assert_eq!(ledger.lookup(GIVER, RECIPIENT).unwrap().withdrawn, 1);
}

#[test]
fn withdraw_zero_changes_nothing() {
    let mut ledger = open(100, 50);
    assert_eq!(withdraw(&mut ledger, draw(RECIPIENT), 40, 0), Ok(()));
    assert_eq!(withdraw(&mut ledger, draw(RECIPIENT), 0, 0), Ok(()));
    assert_eq!(ledger.lookup(GIVER, RECIPIENT).unwrap().withdrawn, 40);
    assert_eq!(ledger.held(GIVER, RECIPIENT), 60);
    assert_eq!(ledger.balance(RECIPIENT), 40);
}

#[test]
fn withdraw_by_stranger_is_unauthorized() {
    let mut ledger = open(100, 50);
    assert_eq!(withdraw(&mut ledger, draw(STRANGER), 10, 0), Err(ErrorCode::Unauthorized));
    assert_eq!(withdraw(&mut ledger, draw(GIVER), 10, 0), Err(ErrorCode::Unauthorized));
    assert_eq!(ledger.lookup(GIVER, RECIPIENT).unwrap().withdrawn, 0);
    assert_eq!(ledger.held(GIVER, RECIPIENT), 100);
    assert_eq!(ledger.balance(STRANGER), 0);
}

#[test]
fn unauthorized_comes_before_expiry() {
    let mut ledger = open(100, 50);
    assert_eq!(withdraw(&mut ledger, draw(STRANGER), 10, 51), Err(ErrorCode::Unauthorized));
}

#[test]
fn withdraw_after_expiry_fails() {
    let mut ledger = open(100, 50);
    assert_eq!(withdraw(&mut ledger, draw(RECIPIENT), 10, 51), Err(ErrorCode::Expired));
    assert_eq!(withdraw(&mut ledger, draw(RECIPIENT), 0, 51), Err(ErrorCode::Expired));
    assert_eq!(ledger.lookup(GIVER, RECIPIENT).unwrap().withdrawn, 0);
    assert_eq!(ledger.balance(RECIPIENT), 0);
    assert_eq!(withdraw(&mut ledger, draw(RECIPIENT), 10, 50), Ok(()));
}

#[test]
fn withdraw_credit_overflow_fails() {
    let mut ledger = open(100, 50);
    ledger.deposit(RECIPIENT, u64::MAX - 5).unwrap();
    assert_eq!(withdraw(&mut ledger, draw(RECIPIENT), 6, 0), Err(ErrorCode::BalanceOverflow));
    assert_eq!(ledger.lookup(GIVER, RECIPIENT).unwrap().withdrawn, 0);
    assert_eq!(withdraw(&mut ledger, draw(RECIPIENT), 5, 0), Ok(()));
    assert_eq!(ledger.balance(RECIPIENT), u64::MAX);
}

#[test]
fn withdraw_without_entry_is_not_found() {
    let mut ledger = Ledger::new();
    assert_eq!(withdraw(&mut ledger, draw(RECIPIENT), 0, 0), Err(ErrorCode::EntryNotFound));
}

#[test]
fn close_by_stranger_is_unauthorized() {
    let mut ledger = open(100, 50);
    assert_eq!(close(&mut ledger, shut(RECIPIENT)), Err(ErrorCode::Unauthorized));
    assert_eq!(close(&mut ledger, shut(STRANGER)), Err(ErrorCode::Unauthorized));
    assert!(ledger.lookup(GIVER, RECIPIENT).is_some());
    assert_eq!(ledger.balance(GIVER), 900);
}

#[test]
fn close_before_expiry_refunds_giver() {
    let mut ledger = open(100, 50);
    assert_eq!(withdraw(&mut ledger, draw(RECIPIENT), 25, 0), Ok(()));
    assert_eq!(close(&mut ledger, shut(GIVER)), Ok(()));
    assert_eq!(ledger.balance(GIVER), 975);
}

#[test]
fn close_refund_overflow_fails() {
    let mut ledger = open(100, 50);
    ledger.deposit(GIVER, u64::MAX - 900).unwrap();
    assert_eq!(close(&mut ledger, shut(GIVER)), Err(ErrorCode::BalanceOverflow));
    assert_eq!(ledger.held(GIVER, RECIPIENT), 100);
}

#[test]
fn closed_pair_is_free_again() {
    let mut ledger = open(100, 50);
    assert_eq!(withdraw(&mut ledger, draw(RECIPIENT), 30, 0), Ok(()));
    assert_eq!(close(&mut ledger, shut(GIVER)), Ok(()));
    assert_eq!(ledger.lookup(GIVER, RECIPIENT), None);
    assert_eq!(withdraw(&mut ledger, draw(RECIPIENT), 1, 0), Err(ErrorCode::EntryNotFound));
    assert_eq!(close(&mut ledger, shut(GIVER)), Err(ErrorCode::EntryNotFound));
    let r = initialize(
        &mut ledger,
        Initialize { giver: GIVER, recipient: RECIPIENT, bump: 3 },
        200,
        90,
    );
    assert_eq!(r, Ok(()));
    assert_eq!(ledger.lookup(GIVER, RECIPIENT).unwrap().withdrawn, 0);
    assert_eq!(ledger.balance(GIVER), 970 - 200);
}

#[test]
fn pairs_are_kept_apart() {
    let mut ledger = open(100, 50);
    initialize(
        &mut ledger,
        Initialize { giver: RECIPIENT, recipient: GIVER, bump: 0 },
        0,
        50,
    )
    .unwrap();
    assert_eq!(withdraw(&mut ledger, draw(RECIPIENT), 10, 0), Ok(()));
    assert_eq!(ledger.lookup(RECIPIENT, GIVER).unwrap().withdrawn, 0);
    assert_eq!(ledger.lookup(GIVER, STRANGER), None);
}

#[test]
fn deposit_overflow_fails() {
    let mut ledger = Ledger::new();
    assert_eq!(ledger.deposit(STRANGER, u64::MAX), Ok(()));
    assert_eq!(ledger.deposit(STRANGER, 1), Err(ErrorCode::BalanceOverflow));
    assert_eq!(ledger.balance(STRANGER), u64::MAX);
}

#[test]
fn pair_key_places_giver_high() {
    assert_eq!(pair_key(0, 0), 0);
    assert_eq!(pair_key(1, 2), (1u128 << 64) + 2);
    assert_eq!(pair_key(u64::MAX, u64::MAX), u128::MAX);
}

#[test]
fn withdrawn_stays_within_total_and_never_decreases() {
    let mut ledger = open(100, 50);
    let amounts: [u64; 7] = [10, 0, 95, 45, 1, 45, 3];
    let mut last = 0;
    for (i, amount) in amounts.iter().enumerate() {
        let _ = withdraw(&mut ledger, draw(RECIPIENT), *amount, i as i64 * 10);
        let _ = withdraw(&mut ledger, draw(STRANGER), *amount, 0);
        let e = ledger.lookup(GIVER, RECIPIENT).unwrap();
        assert!(e.withdrawn <= e.total);
        assert!(e.withdrawn >= last);
        assert_eq!(ledger.held(GIVER, RECIPIENT), e.total - e.withdrawn);
        last = e.withdrawn;
    }
    assert_eq!(last, 10 + 45 + 1);
    assert_eq!(ledger.balance(RECIPIENT), 56);
}
