//! The charge/deposit accounting of a single subscription.
//!
//! A deposit tops up the prepaid balance; a charge, once the billing interval
//! has elapsed, moves one period's amount from the prepaid balance to the
//! merchant.  The laws below state the accounting invariants: the balance
//! never goes negative, the payment timestamp never moves backwards, funds are
//! conserved, an underfunded charge moves nothing, and a charge cannot be
//! repeated within one interval.
use vstd::prelude::*;

verus! {

/// Whether a subscription can still be charged.
#[derive(Debug, Clone, Copy, PartialEq, Eq, Structural)]
pub enum SubStatus {
    Active,
    InsufficientBalance,
}

/// The state that charging and depositing read and change.
#[derive(Debug, Clone, Copy)]
pub struct ChargeModel {
    pub prepaid_balance: i128,
    pub last_payment_timestamp: u64,
    pub interval_seconds: u64,
    pub amount: i128,
    pub total_deposited: i128,
    pub total_charged: i128,
    pub status: SubStatus,
}

/// `a + b`, held at the bounds of `i128`.
pub open spec fn sat_add_i128(a: i128, b: i128) -> i128 {
    if a + b > i128::MAX {
        i128::MAX
    } else if a + b < i128::MIN {
        i128::MIN
    } else {
        (a + b) as i128
    }
}

/// `a + b`, held at `u64::MAX`.
pub open spec fn sat_add_u64(a: u64, b: u64) -> u64 {
    if a + b > u64::MAX {
        u64::MAX
    } else {
        (a + b) as u64
    }
}

fn saturating_add_i128(a: i128, b: i128) -> (r: i128)
    ensures
        r == sat_add_i128(a, b),
{
    match a.checked_add(b) {
        Some(s) => s,
        None => if b > 0 {
            i128::MAX
        } else {
            i128::MIN
        },
    }
}

impl ChargeModel {
    /// A fresh, active, unfunded subscription.
    pub open spec fn initial(interval_seconds: u64, amount: i128) -> ChargeModel {
        ChargeModel {
            prepaid_balance: 0,
            last_payment_timestamp: 0,
            interval_seconds,
            amount,
            total_deposited: 0,
            total_charged: 0,
            status: SubStatus::Active,
        }
    }

    /// The state after depositing `amount`: a non-positive amount changes
    /// nothing; otherwise the balance and the deposited total grow by it,
    /// each held at `i128::MAX`.
    pub open spec fn after_deposit(self, amount: i128) -> ChargeModel {
        if amount <= 0 {
            self
        } else {
            ChargeModel {
                prepaid_balance: sat_add_i128(self.prepaid_balance, amount),
                total_deposited: sat_add_i128(self.total_deposited, amount),
                ..self
            }
        }
    }

    /// The earliest time at which the next charge may be taken.
    pub open spec fn next_due(self) -> u64 {
        sat_add_u64(self.last_payment_timestamp, self.interval_seconds)
    }

    /// Whether a charge at `now` passes every guard and moves funds.
    pub open spec fn charge_succeeds(self, now: u64) -> bool {
        &&& self.status == SubStatus::Active
        &&& now >= self.next_due()
        &&& self.prepaid_balance >= self.amount
    }

    /// The state after a charge attempt at `now`, and whether it moved funds.
    pub open spec fn charge_outcome(self, now: u64) -> (ChargeModel, bool) {
        if self.status != SubStatus::Active {
            (self, false)
        } else if now < self.next_due() {
            (self, false)
        } else if self.prepaid_balance < self.amount {
            (ChargeModel { status: SubStatus::InsufficientBalance, ..self }, false)
        } else {
            (
                ChargeModel {
                    prepaid_balance: (self.prepaid_balance - self.amount) as i128,
                    total_charged: (self.total_charged + self.amount) as i128,
                    last_payment_timestamp: now,
                    ..self
                },
                true,
            )
        }
    }

    /// A successful charge at `now` keeps the balance and the charged total
    /// within `i128`.
    pub open spec fn charge_fits(self, now: u64) -> bool {
        self.charge_succeeds(now) ==> {
            &&& i128::MIN <= self.prepaid_balance - self.amount <= i128::MAX
            &&& i128::MIN <= self.total_charged + self.amount <= i128::MAX
        }
    }

    /// Everything deposited is either charged or still prepaid.
    pub open spec fn conserved(self) -> bool {
        self.total_deposited == self.total_charged + self.prepaid_balance
    }

    pub fn new(interval_seconds: u64, amount: i128) -> (m: Self)
        ensures
            m == ChargeModel::initial(interval_seconds, amount),
            m.prepaid_balance == 0 && m.total_deposited == 0 && m.total_charged == 0,
            m.last_payment_timestamp == 0 && m.status == SubStatus::Active,
            m.interval_seconds == interval_seconds && m.amount == amount,
    {
        ChargeModel {
            prepaid_balance: 0,
            last_payment_timestamp: 0,
            interval_seconds,
            amount,
            total_deposited: 0,
            total_charged: 0,
            status: SubStatus::Active,
        }
    }

    /// Tops up the prepaid balance; a non-positive amount is ignored.
    pub fn deposit(&mut self, amount: i128)
        ensures
            *final(self) == old(self).after_deposit(amount),
            amount <= 0 ==> *final(self) == *old(self),
            amount > 0 ==> {
                &&& final(self).prepaid_balance == (if old(self).prepaid_balance + amount
                    > i128::MAX {
                    i128::MAX as int
                } else {
                    old(self).prepaid_balance + amount
                })
                &&& final(self).total_deposited == (if old(self).total_deposited + amount
                    > i128::MAX {
                    i128::MAX as int
                } else {
                    old(self).total_deposited + amount
                })
                &&& final(self).total_charged == old(self).total_charged
                &&& final(self).last_payment_timestamp == old(self).last_payment_timestamp
                &&& final(self).interval_seconds == old(self).interval_seconds
                &&& final(self).amount == old(self).amount
                &&& final(self).status == old(self).status
            },
    {
        if amount <= 0 {
            return;
        }
        self.prepaid_balance = saturating_add_i128(self.prepaid_balance, amount);
        self.total_deposited = saturating_add_i128(self.total_deposited, amount);
    }

    /// Attempts a charge at time `now`; returns `true` if funds moved.
    pub fn charge(&mut self, now: u64) -> (ok: bool)
        requires
            old(self).charge_fits(now),
        ensures
            (*final(self), ok) == old(self).charge_outcome(now),
            ok == old(self).charge_succeeds(now),
            // Funds move exactly when the subscription is active, the interval
            // has elapsed since the last payment (the due time held at
            // `u64::MAX`), and the prepaid balance covers the amount.
            ok <==> (old(self).status == SubStatus::Active && now as int >= (if old(
                self,
            ).last_payment_timestamp + old(self).interval_seconds > u64::MAX {
                u64::MAX as int
            } else {
                old(self).last_payment_timestamp + old(self).interval_seconds
            }) && old(self).prepaid_balance >= old(self).amount),
            // A successful charge debits the balance, credits the charged
            // total, records the time, and keeps everything else, the status
            // included.
            ok ==> {
                &&& final(self).prepaid_balance == old(self).prepaid_balance - old(self).amount
                &&& final(self).total_charged == old(self).total_charged + old(self).amount
                &&& final(self).last_payment_timestamp == now
                &&& final(self).status == old(self).status
                &&& final(self).total_deposited == old(self).total_deposited
                &&& final(self).amount == old(self).amount
                &&& final(self).interval_seconds == old(self).interval_seconds
            },
            // A refused charge moves nothing; it changes the status only to
            // mark an active, due subscription whose balance is short.
            !ok ==> {
                &&& final(self).prepaid_balance == old(self).prepaid_balance
                &&& final(self).total_charged == old(self).total_charged
                &&& final(self).total_deposited == old(self).total_deposited
                &&& final(self).last_payment_timestamp == old(self).last_payment_timestamp
                &&& final(self).amount == old(self).amount
                &&& final(self).interval_seconds == old(self).interval_seconds
                &&& (final(self).status != old(self).status <==> (old(self).status
                    == SubStatus::Active && old(self).prepaid_balance < old(self).amount
                    && now as int >= (if old(self).last_payment_timestamp + old(
                    self,
                ).interval_seconds > u64::MAX {
                    u64::MAX as int
                } else {
                    old(self).last_payment_timestamp + old(self).interval_seconds
                })))
                &&& final(self).status != old(self).status ==> final(self).status
                    == SubStatus::InsufficientBalance
            },
    {
        if self.status != SubStatus::Active {
            return false;
        }
        if now < self.last_payment_timestamp.saturating_add(self.interval_seconds) {
            return false;
        }
        if self.prepaid_balance < self.amount {
            self.status = SubStatus::InsufficientBalance;
            return false;
        }
        self.prepaid_balance -= self.amount;
        self.total_charged += self.amount;
        self.last_payment_timestamp = now;
        true
    }

    /// Whether everything deposited is either charged or still prepaid.
    pub fn check_conservation(&self) -> (b: bool)
        requires
            i128::MIN <= self.total_charged + self.prepaid_balance <= i128::MAX,
        ensures
            b == self.conserved(),
            b == (self.total_deposited == self.total_charged + self.prepaid_balance),
    {
        self.total_deposited == self.total_charged + self.prepaid_balance
    }
}

/// The prepaid balance never goes negative: neither a deposit nor a charge
/// attempt takes a non-negative balance below zero.
pub proof fn lemma_balance_never_negative(m: ChargeModel, amount: i128, now: u64)
    requires
        m.prepaid_balance >= 0,
        m.charge_fits(now),
    ensures
        m.after_deposit(amount).prepaid_balance >= 0,
        m.charge_outcome(now).0.prepaid_balance >= 0,
{
}

/// The last payment timestamp never moves backwards.
pub proof fn lemma_payment_timestamp_monotonic(m: ChargeModel, amount: i128, now: u64)
    ensures
        m.after_deposit(amount).last_payment_timestamp == m.last_payment_timestamp,
        m.charge_outcome(now).0.last_payment_timestamp >= m.last_payment_timestamp,
{
}

/// Fund conservation: a deposit that saturates neither running total, and any
/// charge attempt, keep `total_deposited == total_charged + prepaid_balance`.
pub proof fn lemma_fund_conservation(m: ChargeModel, amount: i128, now: u64)
    requires
        m.conserved(),
        m.charge_fits(now),
        amount > 0 ==> m.total_deposited + amount <= i128::MAX,
        amount > 0 ==> m.prepaid_balance + amount <= i128::MAX,
    ensures
        m.after_deposit(amount).conserved(),
        m.charge_outcome(now).0.conserved(),
{
}

/// A charge that finds the balance short of the amount marks the
/// subscription `InsufficientBalance` and moves no funds.
pub proof fn lemma_insufficient_balance_blocks_charge(m: ChargeModel, now: u64)
    requires
        m.status == SubStatus::Active,
        now >= m.next_due(),
        m.prepaid_balance < m.amount,
    ensures
        !m.charge_outcome(now).1,
        m.charge_outcome(now).0 == (ChargeModel { status: SubStatus::InsufficientBalance, ..m }),
{
}

/// The interval guard: a second charge attempt at the same time changes
/// nothing and moves no funds, whatever the first attempt did.
pub proof fn lemma_interval_guard_prevents_double_charge(m: ChargeModel, now: u64)
    requires
        m.interval_seconds > 0,
        now < u64::MAX,
        m.charge_fits(now),
    ensures
        m.charge_outcome(now).0.charge_outcome(now) == (m.charge_outcome(now).0, false),
{
}

/// Whether an active subscription is due at `now`: the interval has elapsed
/// since the last payment, the due time being held at `u64::MAX`.
pub open spec fn is_due(m: ChargeModel, now: u64) -> bool {
    now as int >= (if m.last_payment_timestamp + m.interval_seconds > u64::MAX {
        u64::MAX as int
    } else {
        m.last_payment_timestamp + m.interval_seconds
    })
}

/// A charge attempt succeeds exactly on an active, due subscription whose
/// balance covers the amount (an exactly covering balance included); a
/// successful charge moves the amount from the balance to the charged total,
/// records the time and leaves the status as it was; a refused one moves
/// nothing and marks `InsufficientBalance` only when the balance is short.
pub proof fn lemma_charge_moves_exactly_one_period(m: ChargeModel, now: u64)
    requires
        m.charge_fits(now),
    ensures
        ({
            let (after, ok) = m.charge_outcome(now);
            &&& ok <==> (m.status == SubStatus::Active && is_due(m, now) && m.prepaid_balance
                >= m.amount)
            &&& ok ==> after == ChargeModel {
                prepaid_balance: (m.prepaid_balance - m.amount) as i128,
                total_charged: (m.total_charged + m.amount) as i128,
                last_payment_timestamp: now,
                interval_seconds: m.interval_seconds,
                amount: m.amount,
                total_deposited: m.total_deposited,
                status: m.status,
            }
            &&& !ok ==> after == ChargeModel {
                status: if m.status == SubStatus::Active && is_due(m, now) && m.prepaid_balance
                    < m.amount {
                    SubStatus::InsufficientBalance
                } else {
                    m.status
                },
                ..m
            }
        }),
{
}

/// A subscription stays chargeable after a successful charge: once topped
/// up to cover the amount again, the next due charge succeeds too.
pub proof fn lemma_charge_after_top_up_succeeds(m: ChargeModel, now1: u64, top_up: i128, now2: u64)
    requires
        m.status == SubStatus::Active,
        is_due(m, now1),
        m.amount > 0,
        m.prepaid_balance >= m.amount,
        0 <= m.total_charged,
        m.total_charged + 2 * m.amount <= i128::MAX,
        top_up > 0,
        m.prepaid_balance - m.amount + top_up <= i128::MAX,
        m.total_deposited + top_up <= i128::MAX,
        m.prepaid_balance - m.amount + top_up >= m.amount,
        now2 >= now1 + m.interval_seconds,
    ensures
        ({
            let (m1, ok1) = m.charge_outcome(now1);
            let m2 = m1.after_deposit(top_up);
            let (m3, ok2) = m2.charge_outcome(now2);
            &&& ok1
            &&& ok2
            &&& m3.status == SubStatus::Active
            &&& m3.prepaid_balance == m.prepaid_balance - 2 * m.amount + top_up
            &&& m3.total_charged == m.total_charged + 2 * m.amount
            &&& m3.last_payment_timestamp == now2
        }),
{
}

/// The conservation check compares the deposited total with the charged
/// total plus the prepaid balance for equality: any surplus or shortfall is
/// reported as a violation.
pub proof fn lemma_conservation_is_equality(m: ChargeModel)
    ensures
        m.conserved() <==> m.total_deposited == m.total_charged + m.prepaid_balance,
        m.total_deposited > m.total_charged + m.prepaid_balance ==> !m.conserved(),
        m.total_deposited < m.total_charged + m.prepaid_balance ==> !m.conserved(),
{
}

/// A deposit of a positive amount adds it to the prepaid balance and to the
/// deposited total (each held at `i128::MAX`) and changes nothing else; a
/// non-positive amount changes nothing.
pub proof fn lemma_deposit_adds_amount(m: ChargeModel, amount: i128)
    ensures
        amount <= 0 ==> m.after_deposit(amount) == m,
        amount > 0 && m.prepaid_balance + amount <= i128::MAX && m.total_deposited + amount
            <= i128::MAX ==> m.after_deposit(amount) == (ChargeModel {
            prepaid_balance: (m.prepaid_balance + amount) as i128,
            total_deposited: (m.total_deposited + amount) as i128,
            ..m
        }),
        amount > 0 ==> m.after_deposit(amount).prepaid_balance >= m.prepaid_balance
            && m.after_deposit(amount).total_deposited >= m.total_deposited,
{
}

} // verus!
