use quota_ledger::budget::RequestBudget;
use quota_ledger::errors::ServiceError;
use quota_ledger::quota::init;

#[test]
fn check_balance_fails_exactly_at_zero() {
    let mut app = init(1000, 10);
    app.set_quota_balance(0, 5, 2);
    let mut b = RequestBudget::new(&mut app, 0, 5, false);
    assert_eq!(b.get_quota_coins(), 2);
    assert!(b.check_request_balance().is_ok());
    b.spend_request_coins(1);
    // one coin left: still admitted
    assert!(b.check_request_balance().is_ok());
    b.spend_request_coins(1);
    // exactly zero: exhausted
    let err = b.check_request_balance().unwrap_err();
    assert!(matches!(err, ServiceError::TooManyRequests));
    b.spend_request_coins(1);
    // below zero: still exhausted
    assert!(b.check_request_balance().is_err());
}

#[test]
fn privileged_budget_always_passes_and_commits_nothing() {
    let mut app = init(1000, 10);
    let mut b = RequestBudget::new(&mut app, 0, 6, true);
    b.spend_request_coins(i64::MAX);
    b.spend_request_coins(500);
    assert!(b.get_quota_coins() < 0);
    assert!(b.check_request_balance().is_ok());
    b.commit(&mut app, 0);
    // the ledger never saw the privileged caller
    assert!(!app.contains_user(6));
    assert_eq!(app.get_quota_balance(0, 6), 1000);
}

#[test]
fn commit_reconciles_net_spending() {
    let mut app = init(1000, 10);
    let mut b = RequestBudget::new(&mut app, 0, 7, false);
    assert_eq!(b.get_quota_coins(), 1000);
    b.spend_request_coins(30);
    b.spend_request_coins(70);
    b.commit(&mut app, 0);
    assert_eq!(app.get_quota_balance(0, 7), 900);
}

#[test]
fn commit_with_no_net_change_is_a_no_op() {
    let mut app = init(1000, 10);
    app.set_quota_balance(0, 8, 300);
    let mut b = RequestBudget::new(&mut app, 0, 8, false);
    b.spend_request_coins(50);
    b.spend_request_coins(-50);
    b.commit(&mut app, 0);
    assert_eq!(app.get_quota_balance(0, 8), 300);
}

#[test]
fn commit_with_refund_credits_the_ledger() {
    let mut app = init(1000, 10);
    app.set_quota_balance(0, 9, 500);
    let mut b = RequestBudget::new(&mut app, 0, 9, false);
    b.spend_request_coins(-100);
    b.commit(&mut app, 0);
    assert_eq!(app.get_quota_balance(0, 9), 600);
}

#[test]
fn local_counter_saturates_at_its_bounds() {
    let mut app = init(1000, 10);
    app.set_quota_balance(0, 11, 0);
    let mut b = RequestBudget::new(&mut app, 0, 11, false);
    assert_eq!(b.get_quota_coins(), 0);
    // an extreme refund saturates high instead of wrapping
    b.spend_request_coins(i64::MIN);
    assert_eq!(b.get_quota_coins(), i64::MAX);
    // spending it all back leaves one coin above the low bound...
    b.spend_request_coins(i64::MAX);
    b.spend_request_coins(i64::MAX);
    assert_eq!(b.get_quota_coins(), i64::MIN + 1);
    // ...and an extreme spend saturates low instead of wrapping
    b.spend_request_coins(2);
    assert_eq!(b.get_quota_coins(), i64::MIN);
}

#[test]
fn concurrent_budgets_can_jointly_overspend() {
    // max 1000, rate 10/s, user at full: two requests open at t0, each
    // reads a starting balance of 1000, spends 1200 locally, and commits
    // a net difference of -1200; the soft limiter ends at -1400
    let mut app = init(1000, 10);
    let mut b1 = RequestBudget::new(&mut app, 0, 10, false);
    let mut b2 = RequestBudget::new(&mut app, 0, 10, false);
    assert_eq!(b1.get_quota_coins(), 1000);
    assert_eq!(b2.get_quota_coins(), 1000);
    b1.spend_request_coins(1200);
    b2.spend_request_coins(1200);
    assert_eq!(b1.get_quota_coins(), -200);
    assert_eq!(b2.get_quota_coins(), -200);
    b1.commit(&mut app, 0);
    b2.commit(&mut app, 0);
    assert_eq!(app.get_quota_balance(0, 10), 1000 - 1200 - 1200);
}
