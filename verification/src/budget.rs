//! The per-request admission budget.
//!
//! A budget is owned by exactly one in-flight request. It reads the shared
//! balance once when opened, accounts every costed sub-operation in a local
//! counter without touching the shared ledger, and commits the net
//! difference back exactly once when the request completes (it is consumed
//! by the commit). Concurrent requests of one user therefore spend down
//! independent copies of the same starting balance, and only their net
//! effects are reconciled, in completion order: the limiter is soft, and
//! concurrent requests can jointly drive the shared balance below zero.

use vstd::prelude::*;

use crate::errors::ServiceError;
use crate::models::IdType;
use crate::quota::{spec_clamp_i64, stores, AppData};

verus! {

/// One request's admission-control transaction.
pub struct RequestBudget {
    privileged: bool,
    user_id: IdType,
    start_balance: i64,
    local_counter: i64,
}

impl RequestBudget {
    /// Whether the caller bypasses quota accounting entirely.
    pub closed spec fn is_privileged(&self) -> bool {
        self.privileged
    }

    /// The user the budget accounts against.
    pub closed spec fn user(&self) -> IdType {
        self.user_id
    }

    /// The shared balance read when the budget was opened.
    pub closed spec fn start(&self) -> int {
        self.start_balance as int
    }

    /// The locally remaining coins.
    pub closed spec fn local(&self) -> int {
        self.local_counter as int
    }

    /// Open a budget for one request. A non-privileged caller's starting
    /// balance is read (and thereby re-stored) from the shared ledger; a
    /// privileged caller's budget is unbounded and never touches it.
    pub fn new(app: &mut AppData, now: u64, user_id: IdType, privileged: bool) -> (b:
        RequestBudget)
        requires
            old(app).inv(),
        ensures
            final(app).inv(),
            b.is_privileged() == privileged,
            b.user() == user_id,
            b.local() == b.start(),
            privileged ==> *final(app) == *old(app) && b.start() == i64::MAX,
            !privileged ==> b.start() == old(app).inner().spec_current(now, user_id),
            !privileged ==> stores(
                old(app).inner(),
                final(app).inner(),
                now,
                user_id,
                old(app).inner().spec_current(now, user_id),
            ),
    {
        if privileged {
            RequestBudget {
                privileged,
                user_id,
                start_balance: i64::MAX,
                local_counter: i64::MAX,
            }
        } else {
            let start = app.get_quota_balance(now, user_id);
            RequestBudget { privileged, user_id, start_balance: start, local_counter: start }
        }
    }

    /// Spend `amount` coins locally (a negative amount refunds). Purely
    /// local: no lock is taken, so costed sub-operations can account
    /// freely. The counter saturates at the bounds of its type.
    pub fn spend_request_coins(&mut self, amount: i64)
        ensures
            final(self).local() == spec_clamp_i64(old(self).local() - amount),
            final(self).is_privileged() == old(self).is_privileged(),
            final(self).user() == old(self).user(),
            final(self).start() == old(self).start(),
    {
        let d: i128 = self.local_counter as i128 - amount as i128;
        self.local_counter = if d > i64::MAX as i128 {
            i64::MAX
        } else if d < i64::MIN as i128 {
            i64::MIN
        } else {
            d as i64
        };
    }

    /// The locally remaining coins.
    pub fn get_quota_coins(&self) -> (r: i64)
        ensures
            r == self.local(),
    {
        self.local_counter
    }

    /// The admission check: fails with the quota-exhaustion error exactly
    /// when a non-privileged caller's local counter is at or below zero;
    /// a privileged caller always passes. No side effect either way.
    pub fn check_request_balance(&self) -> (r: Result<(), ServiceError>)
        ensures
            r is Ok <==> (self.is_privileged() || self.local() > 0),
            r matches Err(e) ==> e is TooManyRequests,
    {
        if self.privileged {
            Ok(())
        } else if self.local_counter <= 0 {
            Err(ServiceError::TooManyRequests)
        } else {
            Ok(())
        }
    }

    /// Commit the budget, exactly once, when the request completes: the
    /// net difference between the local counter and the starting balance
    /// is reconciled into the shared ledger. A privileged budget, or one
    /// that spent nothing net, leaves the ledger untouched.
    pub fn commit(self, app: &mut AppData, now: u64)
        requires
            old(app).inv(),
        ensures
            final(app).inv(),
            (self.is_privileged() || self.local() == self.start()) ==> *final(app) == *old(app),
            (!self.is_privileged() && self.local() != self.start()) ==> stores(
                old(app).inner(),
                final(app).inner(),
                now,
                self.user(),
                spec_clamp_i64(
                    old(app).inner().spec_current(now, self.user()) + spec_clamp_i64(
                        self.local() - self.start(),
                    ),
                ),
            ),
    {
        if self.privileged {
            return;
        }
        if self.local_counter != self.start_balance {
            let d: i128 = self.local_counter as i128 - self.start_balance as i128;
            let diff: i64 = if d > i64::MAX as i128 {
                i64::MAX
            } else if d < i64::MIN as i128 {
                i64::MIN
            } else {
                d as i64
            };
            app.add_quota_balance(now, self.user_id, diff);
        }
    }
}

} // verus!
