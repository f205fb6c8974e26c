use proptest::strategy::{BoxedStrategy, Strategy, Union};
use proptest::test_runner::{TestCaseError, TestRunner};
use subscription_vault::charge_model::{ChargeModel, SubStatus};

#[derive(Debug, Clone)]
enum Op {
    Deposit(i128),
    Charge(u64),
}

fn arb_op() -> BoxedStrategy<Op> {
    Union::new(vec![
        (1i128..=5_000_000i128).prop_map(Op::Deposit).boxed(),
        (0u64..=10_000_000u64).prop_map(Op::Charge).boxed(),
    ])
    .boxed()
}

fn check(cond: bool, what: &str) -> Result<(), TestCaseError> {
    if cond {
        Ok(())
    } else {
        Err(TestCaseError::fail(what.to_string()))
    }
}

fn apply(sub: &mut ChargeModel, op: &Op) {
    match op {
        Op::Deposit(d) => sub.deposit(*d),
        Op::Charge(now) => {
            sub.charge(*now);
        }
    }
}

#[test]
fn prop_prepaid_balance_never_negative() {
    let strategy = (
        60u64..=86_400u64,
        1i128..=1_000_000i128,
        proptest::collection::vec(arb_op(), 1..=60),
    );
    TestRunner::default()
        .run(&strategy, |(interval, amount, ops)| {
            let mut sub = ChargeModel::new(interval, amount);
            for op in &ops {
                apply(&mut sub, op);
                check(sub.prepaid_balance >= 0, "prepaid_balance went negative")?;
            }
            Ok(())
        })
        .unwrap();
}

#[test]
fn prop_last_payment_timestamp_monotonic() {
    let strategy = (
        60u64..=86_400u64,
        1i128..=1_000_000i128,
        proptest::collection::vec(0u64..=20_000_000u64, 1..=40),
    );
    TestRunner::default()
        .run(&strategy, |(interval, amount, charge_times)| {
            let mut sub = ChargeModel::new(interval, amount);
            sub.deposit(amount.saturating_mul(100));
            let mut prev_ts = 0u64;
            for now in charge_times {
                sub.charge(now);
                check(sub.last_payment_timestamp >= prev_ts, "timestamp moved backward")?;
                prev_ts = sub.last_payment_timestamp;
            }
            Ok(())
        })
        .unwrap();
}

#[test]
fn prop_fund_conservation() {
    let strategy = (
        60u64..=86_400u64,
        1i128..=100_000i128,
        proptest::collection::vec(arb_op(), 1..=60),
    );
    TestRunner::default()
        .run(&strategy, |(interval, amount, ops)| {
            let mut sub = ChargeModel::new(interval, amount);
            for op in &ops {
                apply(&mut sub, op);
                check(sub.check_conservation(), "fund conservation violated")?;
            }
            Ok(())
        })
        .unwrap();
}

#[test]
fn prop_insufficient_balance_blocks_charge() {
    let strategy = (
        60u64..=86_400u64,
        2i128..=1_000_000i128,
        1i128..=999_999i128,
        86_400u64..=10_000_000u64,
    );
    TestRunner::default()
        .run(&strategy, |(interval, amount, deposit, now)| {
            if deposit >= amount {
                return Err(TestCaseError::reject("deposit covers the amount"));
            }
            let mut sub = ChargeModel::new(interval, amount);
            sub.deposit(deposit);
            let charged = sub.charge(now);
            check(!charged, "charge should fail with insufficient balance")?;
            check(sub.status == SubStatus::InsufficientBalance, "status not InsufficientBalance")?;
            check(sub.prepaid_balance == deposit, "prepaid_balance changed on failed charge")?;
            check(sub.total_charged == 0, "funds reached merchant on failed charge")?;
            Ok(())
        })
        .unwrap();
}

#[test]
fn prop_interval_guard_prevents_double_charge() {
    let strategy = (60u64..=86_400u64, 1i128..=1_000_000i128, 0u64..=10_000_000u64);
    TestRunner::default()
        .run(&strategy, |(interval, amount, first_now)| {
            let mut sub = ChargeModel::new(interval, amount);
            sub.deposit(amount.saturating_mul(10));
            sub.charge(first_now);
            let snapshot = sub;
            sub.charge(first_now);
            check(sub.prepaid_balance == snapshot.prepaid_balance, "balance changed on retry")?;
            check(sub.total_charged == snapshot.total_charged, "funds moved on retry")?;
            check(
                sub.last_payment_timestamp == snapshot.last_payment_timestamp,
                "timestamp changed on retry",
            )?;
            Ok(())
        })
        .unwrap();
}

#[test]
fn prop_many_intervals_conservation() {
    let strategy = (
        60u64..=3_600u64,
        1_000i128..=10_000i128,
        1usize..=50usize,
        100_000i128..=1_000_000i128,
    );
    TestRunner::default()
        .run(&strategy, |(interval, amount, n_charges, initial_deposit)| {
            let mut sub = ChargeModel::new(interval, amount);
            sub.deposit(initial_deposit);
            let mut t = interval;
            for _ in 0..n_charges {
                sub.charge(t);
                check(sub.prepaid_balance >= 0, "negative balance after charge")?;
                check(sub.check_conservation(), "conservation violated")?;
                t = t.saturating_add(interval);
            }
            Ok(())
        })
        .unwrap();
}

#[test]
fn prop_alternating_deposit_charge_conservation() {
    let strategy = (
        60u64..=86_400u64,
        1i128..=10_000i128,
        1i128..=50_000i128,
        1usize..=30usize,
    );
    TestRunner::default()
        .run(&strategy, |(interval, amount, topup, n_cycles)| {
            let mut sub = ChargeModel::new(interval, amount);
            let mut t = interval;
            for _ in 0..n_cycles {
                sub.deposit(topup);
                sub.charge(t);
                check(sub.prepaid_balance >= 0, "negative balance in cycle")?;
                check(sub.check_conservation(), "conservation violated in cycle")?;
                t = t.saturating_add(interval);
            }
            Ok(())
        })
        .unwrap();
}

#[test]
fn prop_large_amount_small_balance_no_partial_debit() {
    let strategy = (
        60u64..=86_400u64,
        1_000_000i128..=100_000_000i128,
        0i128..=999_999i128,
        86_400u64..=10_000_000u64,
    );
    TestRunner::default()
        .run(&strategy, |(interval, amount, deposit, now)| {
            let mut sub = ChargeModel::new(interval, amount);
            sub.deposit(deposit);
            sub.charge(now);
            check(sub.total_charged == 0, "partial debit")?;
            check(sub.prepaid_balance >= 0, "balance went negative on failed charge")?;
            check(sub.check_conservation(), "conservation violated")?;
            Ok(())
        })
        .unwrap();
}

#[test]
fn charge_sequence_exact_values() {
    let mut sub = ChargeModel::new(60, 100);
    sub.deposit(250);
    assert_eq!(sub.prepaid_balance, 250);
    assert_eq!(sub.total_deposited, 250);
    // Not due before one interval has elapsed since time 0.
    assert!(!sub.charge(59));
    assert!(sub.charge(60));
    assert_eq!(sub.prepaid_balance, 150);
    assert_eq!(sub.total_charged, 100);
    assert_eq!(sub.last_payment_timestamp, 60);
    // Same instant: blocked by the interval guard.
    assert!(!sub.charge(60));
    assert!(sub.charge(120));
    assert_eq!(sub.prepaid_balance, 50);
    // Underfunded: status flips, nothing moves.
    assert!(!sub.charge(180));
    assert_eq!(sub.status, SubStatus::InsufficientBalance);
    assert_eq!(sub.prepaid_balance, 50);
    assert_eq!(sub.total_charged, 200);
    // No longer active: even a funded charge is refused.
    sub.deposit(1_000);
    assert!(!sub.charge(1_000));
    assert_eq!(sub.prepaid_balance, 1_050);
    assert!(sub.check_conservation());
}

#[test]
fn non_positive_deposit_is_ignored() {
    let mut sub = ChargeModel::new(60, 100);
    sub.deposit(0);
    sub.deposit(-7);
    assert_eq!(sub.prepaid_balance, 0);
    assert_eq!(sub.total_deposited, 0);
}

#[test]
fn deposit_saturates_at_the_maximum() {
    let mut sub = ChargeModel::new(60, 100);
    sub.deposit(i128::MAX - 5);
    sub.deposit(10);
    assert_eq!(sub.prepaid_balance, i128::MAX);
    assert_eq!(sub.total_deposited, i128::MAX);
}

#[test]
fn due_time_saturates() {
    let mut sub = ChargeModel::new(u64::MAX, 1);
    sub.deposit(10);
    assert!(!sub.charge(u64::MAX - 1));
    assert!(sub.charge(u64::MAX));
    assert_eq!(sub.last_payment_timestamp, u64::MAX);
}

#[test]
fn conservation_breaks_when_deposits_saturate() {
    let mut sub = ChargeModel::new(1, 1);
    sub.deposit(10);
    assert!(sub.charge(1));
    assert!(sub.check_conservation());
    sub.deposit(i128::MAX - 5);
    assert_eq!(sub.prepaid_balance, i128::MAX);
    assert_eq!(sub.total_deposited, i128::MAX);
    assert_eq!(sub.total_charged, 1);
    assert_eq!(sub.total_charged.checked_add(sub.prepaid_balance), None);
}
