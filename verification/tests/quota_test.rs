use quota_ledger::quota::{get_accumulated_balance, get_balance_wait, init, Data};

#[test]
fn accumulated_balance_values() {
    // 5 seconds at 10 coins/s
    assert_eq!(get_accumulated_balance(5000, 10), 50);
    // rounds down
    assert_eq!(get_accumulated_balance(999, 1), 0);
    assert_eq!(get_accumulated_balance(1001, 1), 1);
    assert_eq!(get_accumulated_balance(0, 1_000_000), 0);
}

#[test]
fn balance_wait_values() {
    // inverse of accumulation, rounded up
    assert_eq!(get_balance_wait(10, 10), 1000);
    assert_eq!(get_balance_wait(1, 3), 334);
    assert_eq!(get_balance_wait(0, 10), 0);
    assert_eq!(get_balance_wait(1000, 10), 100_000);
}

#[test]
fn fresh_user_reads_max() {
    let mut app = init(1000, 10);
    assert!(!app.contains_user(1));
    assert_eq!(app.get_quota_balance(0, 1), 1000);
    assert_eq!(app.get_quota_balance(123_456, 1), 1000);
    // a full user is never materialized
    assert!(!app.contains_user(1));
}

#[test]
fn add_zero_is_read_through() {
    let mut d = Data::new(1000, 10);
    let stored = d.replace_balance(0, 4, 400);
    assert_eq!(stored, 400);
    // 3 seconds later 30 coins accrued; a zero delta reports the same
    // value a plain read reports, and a second read agrees
    assert_eq!(d.add_balance(3000, 4, 0), 430);
    assert_eq!(d.get_balance(3000, 4), 430);
}

#[test]
fn refill_is_monotonic_and_capped() {
    let mut d = Data::new(1000, 10);
    d.replace_balance(0, 9, 0);
    let mut last = 0;
    for t in [1000u64, 2000, 5000, 50_000, 200_000] {
        let b = d.get_balance(t, 9);
        assert!(b >= last);
        assert!(b <= 1000);
        last = b;
    }
    // long after the refill time the balance is exactly the maximum
    assert_eq!(last, 1000);
}

#[test]
fn replace_with_max_evicts() {
    let mut d = Data::new(1000, 10);
    d.replace_balance(0, 2, 100);
    assert!(d.contains_user(2));
    assert_eq!(d.replace_balance(0, 2, 1000), 1000);
    assert!(!d.contains_user(2));
    assert_eq!(d.get_balance(0, 2), 1000);
}

#[test]
fn negative_balances_are_stored_as_is() {
    let mut d = Data::new(1000, 10);
    assert_eq!(d.replace_balance(0, 3, -5000), -5000);
    assert!(d.contains_user(3));
    // refills from below zero: 100 seconds accrue 1000 coins
    assert_eq!(d.get_balance(100_000, 3), -4000);
}

#[test]
fn scenario_spend_everything_then_refill() {
    // max 1000, rate 10/s; balance set to zero reads 50 after 5 seconds
    let mut app = init(1000, 10);
    app.set_quota_balance(0, 11, 0);
    assert_eq!(app.get_quota_balance(5000, 11), 50);
}

#[test]
fn scenario_debit_then_full_refill_evicts() {
    // fresh user, max 1000, rate 10/s: a 100-coin debit refills within
    // 10 seconds, and the read that sees it full evicts the entry
    let mut d = Data::new(1000, 10);
    assert_eq!(d.add_balance(0, 12, -100), 900);
    assert!(d.contains_user(12));
    assert_eq!(d.get_balance(10_000, 12), 1000);
    assert!(!d.contains_user(12));
}

#[test]
fn scheduler_pass_evicts_full_users_only() {
    let mut app = init(1000, 10);
    // due in 1 s (deficit 10 at 10/s); due in 100 s (deficit 1000)
    app.set_quota_balance(0, 21, 990);
    app.set_quota_balance(0, 22, 0);
    assert!(app.contains_user(21));
    assert!(app.contains_user(22));
    // at 5 s only the first trigger has passed, and that user is full
    let wake = app.update(5000);
    assert!(!app.contains_user(21));
    assert!(app.contains_user(22));
    // sleep until one second past the remaining trigger at 100 s
    assert_eq!(wake, Some(100_000 - 5000 + 1000));
}

#[test]
fn scheduler_pass_keeps_pending_users() {
    let mut app = init(1000, 10);
    // empty at t0: full again at 100 s
    app.set_quota_balance(0, 32, 0);
    // halfway there nothing is due: the entry is untouched and the pass
    // sleeps until one second past the user's trigger
    let wake = app.update(50_000);
    assert!(app.contains_user(32));
    assert_eq!(wake, Some(100_000 - 50_000 + 1000));
    assert_eq!(app.get_quota_balance(50_000, 32), 500);
}

#[test]
fn scheduler_pass_evicts_exactly_refilled_user() {
    let mut app = init(1000, 10);
    app.set_quota_balance(0, 33, 0);
    // a trigger at exactly `now` is due: the user has fully refilled and
    // is evicted
    let wake = app.update(100_000);
    assert!(!app.contains_user(33));
    assert_eq!(wake, None);
    assert_eq!(app.get_quota_balance(100_000, 33), 1000);
}

#[test]
fn scheduler_pass_on_empty_queue_sleeps_indefinitely() {
    let mut app = init(1000, 10);
    assert_eq!(app.update(12_345), None);
}
