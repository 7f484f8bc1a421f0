//! The quota ledger: per-user coin balances that refill continuously at a
//! fixed rate and are clamped to a maximum.
//!
//! Time is a millisecond reading of a monotonic clock, passed in by the
//! caller as `now`. A user absent from the ledger is implicitly full
//! (balance equal to `max_balance`); an entry exists only while the user's
//! balance is below the maximum, and every entry has a scheduled moment in
//! the expiry queue at which it will have refilled completely and can be
//! evicted.

use std::collections::HashMap;
use vstd::prelude::*;

use crate::expiry::{expiry_entries, expiry_new, expiry_peek, expiry_pop, expiry_push, ExpiryQueue};
use crate::models::IdType;

verus! {

broadcast use vstd::std_specs::hash::group_hash_axioms;

/// Milliseconds elapsed from `last` to `now`; zero when `now` reads
/// earlier than `last`.
pub open spec fn spec_elapsed_ms(last: int, now: int) -> int {
    if now >= last {
        now - last
    } else {
        0
    }
}

/// Coins accrued over `passed` milliseconds at `rate` coins per second,
/// rounded down.
pub open spec fn spec_accrued(passed: int, rate: int) -> int {
    passed * rate / 1000
}

/// Milliseconds to wait until `deficit` coins accrue at `rate` coins per
/// second, rounded up.
pub open spec fn spec_wait_ms(deficit: int, rate: int) -> int {
    (1000 * deficit + rate - 1) / rate
}

/// The instant at which a user stored now with `deficit` missing coins
/// will be full again, saturated at the clock's maximum.
pub open spec fn spec_trigger(now: int, deficit: int, rate: int) -> int {
    let t = now + spec_wait_ms(deficit, rate);
    if t > u64::MAX {
        u64::MAX as int
    } else {
        t
    }
}

/// An unbounded value forced into the range of an `i64`.
pub open spec fn spec_clamp_i64(v: int) -> int {
    if v > i64::MAX {
        i64::MAX as int
    } else if v < i64::MIN {
        i64::MIN as int
    } else {
        v
    }
}

/// A user's up-to-date balance: the stored balance plus what accrued since
/// it was stored, clamped to `max`; a user without an entry is full.
pub open spec fn current_balance_in(
    ledger: Map<IdType, UserData>,
    max: int,
    rate: int,
    now: int,
    user: IdType,
) -> int {
    if ledger.contains_key(user) {
        let e = ledger[user];
        vstd::math::min(
            e.balance + spec_accrued(spec_elapsed_ms(e.last_balance_update as int, now), rate),
            max,
        )
    } else {
        max
    }
}

/// The ledger after a balance `v` is stored for `user` at instant `now`:
/// a full (or overfull) balance evicts the entry, any other is stored.
pub open spec fn ledger_after_store(
    ledger: Map<IdType, UserData>,
    max: int,
    now: u64,
    user: IdType,
    v: int,
) -> Map<IdType, UserData> {
    if v >= max {
        ledger.remove(user)
    } else {
        ledger.insert(user, UserData { balance: v as i64, last_balance_update: now })
    }
}

/// The expiry queue after a balance `v` is stored for `user` at instant
/// `now`: storing below the maximum (re)schedules the user's expiry.
pub open spec fn expiries_after_store(
    expiries: Map<IdType, u64>,
    max: int,
    rate: int,
    now: u64,
    user: IdType,
    v: int,
) -> Map<IdType, u64> {
    if v >= max {
        expiries
    } else {
        expiries.insert(user, spec_trigger(now as int, max - v, rate) as u64)
    }
}

/// The balance reported after a store: the maximum when the entry was
/// evicted, otherwise the stored value itself.
pub open spec fn stored_result(max: int, v: int) -> int {
    if v >= max {
        max
    } else {
        v
    }
}

/// The users whose scheduled expiry lies at or before `now`.
pub open spec fn expired_users(expiries: Map<IdType, u64>, now: u64) -> Set<IdType> {
    expiries.dom().filter(|u: IdType| expiries[u] <= now)
}

/// `m` is the earliest trigger instant scheduled in `expiries`.
pub open spec fn is_min_trigger(expiries: Map<IdType, u64>, m: u64) -> bool {
    &&& exists|u: IdType| #[trigger] expiries.contains_key(u) && expiries[u] == m
    &&& forall|u: IdType| #[trigger] expiries.contains_key(u) ==> m <= expiries[u]
}

/// The scheduler's next sleep: one second past the earliest trigger (the
/// fixed margin absorbs timer granularity, so the scheduler never wakes
/// early and spins), saturated at the clock's maximum.
pub open spec fn spec_sleep(now: int, m: int) -> int {
    if m - now + 1000 > u64::MAX {
        u64::MAX as int
    } else {
        m - now + 1000
    }
}

/// `user`'s entry and expiry in `post` are what recomputing at `now`
/// leaves behind: evicted when fully refilled, otherwise stored refreshed
/// with a rescheduled expiry.
pub open spec fn user_refreshed(pre: Data, post: Data, now: u64, user: IdType) -> bool {
    let cur = pre.spec_current(now, user);
    if pre.ledger().contains_key(user) && cur < pre.max_bal() {
        &&& post.ledger().contains_key(user)
        &&& post.ledger()[user] == (UserData { balance: cur as i64, last_balance_update: now })
        &&& post.expiries().contains_key(user)
        &&& post.expiries()[user] == spec_trigger(now as int, pre.max_bal() - cur, pre.rate()) as u64
    } else {
        &&& !post.ledger().contains_key(user)
        &&& !post.expiries().contains_key(user)
    }
}

/// `user`'s entry and expiry are the same in `pre` and `post`.
pub open spec fn user_untouched(pre: Data, post: Data, user: IdType) -> bool {
    &&& post.ledger().contains_key(user) == pre.ledger().contains_key(user)
    &&& (pre.ledger().contains_key(user) ==> post.ledger()[user] == pre.ledger()[user])
    &&& post.expiries().contains_key(user) == pre.expiries().contains_key(user)
    &&& (pre.expiries().contains_key(user) ==> post.expiries()[user] == pre.expiries()[user])
}

/// `post` is `pre` after the balance `v` is stored for `user` at `now`:
/// the parameters are untouched, and the ledger and expiry queue change
/// exactly as a store changes them.
pub open spec fn stores(pre: Data, post: Data, now: u64, user: IdType, v: int) -> bool {
    &&& post.max_bal() == pre.max_bal()
    &&& post.rate() == pre.rate()
    &&& post.ledger() == ledger_after_store(pre.ledger(), pre.max_bal(), now, user, v)
    &&& post.expiries() == expiries_after_store(
        pre.expiries(),
        pre.max_bal(),
        pre.rate(),
        now,
        user,
        v,
    )
}

/// `post` is `pre` after one scheduler pass at `now`, with `wake` the
/// sleep it asks for: every overdue user was recomputed (and evicted if
/// full), every other user is untouched, and the scheduler sleeps one
/// second past the earliest remaining trigger, or indefinitely when
/// nothing remains scheduled.
pub open spec fn pass_outcome(pre: Data, post: Data, now: u64, wake: Option<u64>) -> bool {
    &&& post.max_bal() == pre.max_bal()
    &&& post.rate() == pre.rate()
    &&& forall|u: IdType| #[trigger]
        expired_users(pre.expiries(), now).contains(u) ==> user_refreshed(pre, post, now, u)
    &&& forall|u: IdType|
        !(#[trigger] expired_users(pre.expiries(), now).contains(u)) ==> user_untouched(
            pre,
            post,
            u,
        )
    &&& match wake {
        None => post.expiries() == (Map::<IdType, u64>::empty()),
        Some(s) => exists|m: u64| #[trigger]
            is_min_trigger(post.expiries(), m) && now <= m && s as int == spec_sleep(
                now as int,
                m as int,
            ),
    }
}

/// Coins accrued by waiting `passed` milliseconds at a refill rate of
/// `balance_per_second` coins per second, rounded down.
pub fn get_accumulated_balance(passed: u128, balance_per_second: u128) -> (r: u128)
    requires
        passed * balance_per_second <= u128::MAX,
    ensures
        r == spec_accrued(passed as int, balance_per_second as int),
{
    (passed * balance_per_second) / 1000
}

/// Milliseconds to wait until `bal` coins accrue at `balance_per_sec`
/// coins per second: the inverse of `get_accumulated_balance`, rounded up.
pub fn get_balance_wait(bal: u128, balance_per_sec: u128) -> (r: u128)
    requires
        balance_per_sec >= 1,
        1000 * bal + balance_per_sec - 1 <= u128::MAX,
    ensures
        r == spec_wait_ms(bal as int, balance_per_sec as int),
{
    (1000 * bal + (balance_per_sec - 1)) / balance_per_sec
}

/// One tracked user: the balance at the moment it was last recomputed.
#[derive(Clone, Copy, Debug, PartialEq, Eq, Structural)]
pub struct UserData {
    pub balance: i64,
    pub last_balance_update: u64,
}

/// The quota ledger and its expiry schedule, with the refill parameters
/// fixed at construction.
pub struct Data {
    max_balance: i64,
    balance_per_second: u64,
    users: HashMap<IdType, UserData>,
    next_expiration: ExpiryQueue,
}

impl Data {
    /// The balance every user refills towards.
    pub closed spec fn max_bal(&self) -> int {
        self.max_balance as int
    }

    /// Coins refilled per second.
    pub closed spec fn rate(&self) -> int {
        self.balance_per_second as int
    }

    /// The tracked users and their stored balances.
    pub closed spec fn ledger(&self) -> Map<IdType, UserData> {
        self.users@
    }

    /// The scheduled expiry instant of each queued user.
    pub closed spec fn expiries(&self) -> Map<IdType, u64> {
        expiry_entries(self.next_expiration)
    }

    /// Well-formedness: the refill rate is positive and every stored entry
    /// is below the maximum.
    pub open spec fn wf(&self) -> bool {
        &&& 1 <= self.rate()
        &&& self.rate() <= u64::MAX
        &&& i64::MIN <= self.max_bal() <= i64::MAX
        &&& forall|u: IdType|
            self.ledger().contains_key(u) ==> #[trigger] self.ledger()[u].balance < self.max_bal()
        &&& self.expiries().dom().finite()
    }

    /// Every tracked user has a scheduled expiry, so the ledger cannot
    /// retain an entry the scheduler would never revisit. Holds between
    /// operations; an expiry pass re-establishes it user by user.
    pub open spec fn fully_scheduled(&self) -> bool {
        forall|u: IdType|
            #[trigger] self.ledger().contains_key(u) ==> self.expiries().contains_key(u)
    }

    /// A user's up-to-date balance at instant `now`, were it recomputed.
    pub open spec fn spec_current(&self, now: u64, user: IdType) -> int {
        current_balance_in(self.ledger(), self.max_bal(), self.rate(), now as int, user)
    }

    /// The balance a store of `current + diff` would report.
    pub open spec fn spec_add_result(&self, now: u64, user: IdType, diff: int) -> int {
        stored_result(self.max_bal(), spec_clamp_i64(self.spec_current(now, user) + diff))
    }

    pub fn new(max_balance: i64, balance_per_second: u64) -> (d: Data)
        requires
            balance_per_second >= 1,
        ensures
            d.wf(),
            d.fully_scheduled(),
            d.max_bal() == max_balance,
            d.rate() == balance_per_second,
            d.ledger() == (Map::<IdType, UserData>::empty()),
            d.expiries() == (Map::<IdType, u64>::empty()),
    {
        Data {
            max_balance,
            balance_per_second,
            users: HashMap::new(),
            next_expiration: expiry_new(256),
        }
    }

    /// Whether the ledger currently stores an entry for `user_id`.
    pub fn contains_user(&self, user_id: IdType) -> (r: bool)
        ensures
            r == self.ledger().contains_key(user_id),
    {
        self.users.contains_key(&user_id)
    }

    /// Store `new_balance` for `user_id` as of instant `now`. A balance at
    /// or above the maximum evicts the entry and reports the maximum; any
    /// other balance (negative ones included) is stored as given and the
    /// user's expiry is rescheduled to the moment it will be full.
    pub fn replace_balance(&mut self, now: u64, user_id: IdType, new_balance: i64) -> (r: i64)
        requires
            old(self).wf(),
        ensures
            final(self).wf(),
            old(self).fully_scheduled() ==> final(self).fully_scheduled(),
            r == stored_result(old(self).max_bal(), new_balance as int),
            stores(*old(self), *final(self), now, user_id, new_balance as int),
    {
        if new_balance >= self.max_balance {
            self.users.remove(&user_id);
            proof {
                lemma_store_preserves_wf(*old(self), *self, now, user_id, new_balance as int);
            }
            return self.max_balance;
        }
        self.users.insert(
            user_id,
            UserData { balance: new_balance, last_balance_update: now },
        );
        let deficit: u128 = (self.max_balance as i128 - new_balance as i128) as u128;
        let wait: u128 = get_balance_wait(deficit, self.balance_per_second as u128);
        let trigger: u64 = if wait > (u64::MAX - now) as u128 {
            u64::MAX
        } else {
            now + (wait as u64)
        };
        proof {
            assert(trigger as int == spec_trigger(
                now as int,
                old(self).max_bal() - new_balance,
                old(self).rate(),
            ));
        }
        expiry_push(&mut self.next_expiration, user_id, trigger);
        proof {
            lemma_store_preserves_wf(*old(self), *self, now, user_id, new_balance as int);
        }
        new_balance
    }

    /// Recompute `user_id`'s balance as of `now`, add `balance_diff`
    /// (negative to spend, positive to refund) and store the result. The
    /// sum is forced into the range of an `i64` before the store.
    pub fn add_balance(&mut self, now: u64, user_id: IdType, balance_diff: i64) -> (r: i64)
        requires
            old(self).wf(),
        ensures
            final(self).wf(),
            old(self).fully_scheduled() ==> final(self).fully_scheduled(),
            r == old(self).spec_add_result(now, user_id, balance_diff as int),
            stores(
                *old(self),
                *final(self),
                now,
                user_id,
                spec_clamp_i64(old(self).spec_current(now, user_id) + balance_diff),
            ),
    {
        let current: i128 = match self.users.get(&user_id) {
            Some(user) => {
                let passed: u64 = if now >= user.last_balance_update {
                    now - user.last_balance_update
                } else {
                    0
                };
                proof {
                    vstd::arithmetic::mul::lemma_mul_upper_bound(
                        passed as int,
                        u64::MAX as int,
                        self.balance_per_second as int,
                        u64::MAX as int,
                    );
                }
                let added: u128 = get_accumulated_balance(
                    passed as u128,
                    self.balance_per_second as u128,
                );
                if added >= (self.max_balance as i128 - user.balance as i128) as u128 {
                    self.max_balance as i128
                } else {
                    user.balance as i128 + (added as i128)
                }
            },
            None => self.max_balance as i128,
        };
        let newb: i128 = current + balance_diff as i128;
        let v: i64 = if newb > i64::MAX as i128 {
            i64::MAX
        } else if newb < i64::MIN as i128 {
            i64::MIN
        } else {
            newb as i64
        };
        self.replace_balance(now, user_id, v)
    }

    /// Recompute and store `user_id`'s balance as of `now`, and report it.
    /// The recomputation is a store like any other: a full user's entry is
    /// evicted, any other user's entry and expiry are refreshed.
    pub fn get_balance(&mut self, now: u64, user_id: IdType) -> (r: i64)
        requires
            old(self).wf(),
        ensures
            final(self).wf(),
            old(self).fully_scheduled() ==> final(self).fully_scheduled(),
            r == old(self).spec_current(now, user_id),
            stores(*old(self), *final(self), now, user_id, old(self).spec_current(now, user_id)),
    {
        proof {
            lemma_current_in_i64_range(
                self.ledger(),
                self.max_bal(),
                self.rate(),
                now as int,
                user_id,
            );
        }
        self.add_balance(now, user_id, 0)
    }

    /// One scheduler pass at instant `now`: recompute every user whose
    /// scheduled expiry lies at or before `now`, evicting those that are
    /// full again, and report how many milliseconds to sleep until one
    /// second past the next trigger — or `None`, to sleep until the next
    /// external mutation, when nothing remains scheduled.
    ///
    /// `now` must leave the clock one step to advance, so a rescheduled
    /// trigger, even one saturated at the clock's maximum, lies strictly
    /// in the future and cannot be popped again by the same pass.
    pub fn update(&mut self, now: u64) -> (wake: Option<u64>)
        requires
            old(self).wf(),
            old(self).fully_scheduled(),
            now < u64::MAX,
        ensures
            final(self).wf(),
            final(self).fully_scheduled(),
            pass_outcome(*old(self), *final(self), now, wake),
    {
        // `done` collects the overdue users already recomputed; every
        // other user is untouched so far, which is exactly the loop
        // invariant the final pointwise outcome needs.
        let ghost pre = *old(self);
        let ghost expired = expired_users(pre.expiries(), now);
        let ghost mut done: Set<IdType> = Set::empty();
        proof {
            lemma_expired_finite(pre.expiries(), now);
        }
        loop
            invariant
                pre == *old(self),
                now < u64::MAX,
                expired == expired_users(pre.expiries(), now),
                expired.finite(),
                done.finite(),
                done.subset_of(expired),
                done.len() <= expired.len(),
                pre.wf(),
                pre.fully_scheduled(),
                self.wf(),
                self.max_bal() == pre.max_bal(),
                self.rate() == pre.rate(),
                forall|u: IdType| #[trigger] done.contains(u) ==> user_refreshed(pre, *self, now, u),
                forall|u: IdType|
                    !(#[trigger] done.contains(u)) ==> user_untouched(pre, *self, u),
            decreases expired.len() - done.len(),
        {
            let next = expiry_peek(&self.next_expiration);
            match next {
                None => {
                    proof {
                        assert forall|u: IdType| #[trigger] expired.contains(u) implies done.contains(
                            u,
                        ) by {
                            if !done.contains(u) {
                                assert(user_untouched(pre, *self, u));
                                assert(pre.expiries().contains_key(u));
                                assert(self.expiries().contains_key(u));
                            }
                        }
                        lemma_pass_scheduled(pre, *self, now, done);
                    }
                    return None;
                },
                Some(p) => {
                    let peek_date = p.1;
                    if peek_date > now {
                        let since = peek_date - now;
                        let sleep = if since > u64::MAX - 1000 {
                            u64::MAX
                        } else {
                            since + 1000
                        };
                        proof {
                            assert forall|u: IdType| #[trigger] expired.contains(u) implies done.contains(
                                u,
                            ) by {
                                if !done.contains(u) {
                                    assert(user_untouched(pre, *self, u));
                                    assert(pre.expiries().contains_key(u));
                                    assert(self.expiries().contains_key(u));
                                    assert(self.expiries()[u] == pre.expiries()[u]);
                                }
                            }
                            assert(self.expiries().contains_key(p.0) && self.expiries()[p.0]
                                == peek_date);
                            assert(is_min_trigger(self.expiries(), peek_date));
                            lemma_pass_scheduled(pre, *self, now, done);
                        }
                        return Some(sleep);
                    }
                    let ghost before = *self;
                    let popped = expiry_pop(&mut self.next_expiration);
                    match popped {
                        None => {
                            // cannot happen: the peek above saw an entry
                            proof {
                                assert(expiry_entries(before.next_expiration).contains_key(p.0));
                                assert(false);
                            }
                            return None;
                        },
                        Some(q) => {
                            let user = q.0;
                            let ghost cur = pre.spec_current(now, user);
                            proof {
                                assert(q.1 == peek_date);
                                if done.contains(user) {
                                    assert(user_refreshed(pre, before, now, user));
                                    if pre.ledger().contains_key(user) && cur < pre.max_bal() {
                                        lemma_trigger_future(
                                            now,
                                            pre.max_bal() - cur,
                                            pre.rate(),
                                        );
                                    }
                                    assert(false);
                                }
                                assert(user_untouched(pre, before, user));
                                assert(pre.expiries().contains_key(user) && pre.expiries()[user]
                                    == q.1);
                                assert(expired.contains(user));
                                assert(before.spec_current(now, user) == cur);
                                assert(self.spec_current(now, user) == cur);
                            }
                            let _refreshed_balance = self.get_balance(now, user);
                            proof {
                                done = done.insert(user);
                                lemma_current_in_i64_range(
                                    pre.ledger(),
                                    pre.max_bal(),
                                    pre.rate(),
                                    now as int,
                                    user,
                                );
                                assert forall|u: IdType| #[trigger] done.contains(u) implies user_refreshed(
                                    pre,
                                    *self,
                                    now,
                                    u,
                                ) by {
                                    if u == user {
                                        assert(self.ledger() == ledger_after_store(
                                            before.ledger(),
                                            pre.max_bal(),
                                            now,
                                            user,
                                            cur,
                                        ));
                                    } else {
                                        assert(user_refreshed(pre, before, now, u));
                                    }
                                }
                                assert forall|u: IdType| !(#[trigger] done.contains(u)) implies user_untouched(
                                    pre,
                                    *self,
                                    u,
                                ) by {
                                    assert(user_untouched(pre, before, u));
                                }
                                vstd::set_lib::lemma_len_subset(done, expired);
                            }
                        },
                    }
                },
            }
        }
    }
}

/// The quota service facade the request layer calls. It owns the ledger;
/// the embedding program serializes access with one lock and signals its
/// scheduler task after every mutation. No operation does more than
/// in-memory arithmetic.
pub struct AppData {
    handle: Data,
}

impl AppData {
    /// The ledger behind the facade.
    pub closed spec fn inner(&self) -> Data {
        self.handle
    }

    /// The service invariant: the ledger is well-formed and every tracked
    /// user has a scheduled expiry.
    pub open spec fn inv(&self) -> bool {
        &&& self.inner().wf()
        &&& self.inner().fully_scheduled()
    }

    /// Read `user_id`'s balance as of `now`. The read stores the
    /// recomputed balance back (evicting a full user's entry), so it is
    /// deliberately not side-effect free.
    pub fn get_quota_balance(&mut self, now: u64, user_id: IdType) -> (r: i64)
        requires
            old(self).inv(),
        ensures
            final(self).inv(),
            r == old(self).inner().spec_current(now, user_id),
            stores(
                old(self).inner(),
                final(self).inner(),
                now,
                user_id,
                old(self).inner().spec_current(now, user_id),
            ),
    {
        self.handle.get_balance(now, user_id)
    }

    /// Overwrite `user_id`'s balance with `balance` as of `now`.
    pub fn set_quota_balance(&mut self, now: u64, user_id: IdType, balance: i64)
        requires
            old(self).inv(),
        ensures
            final(self).inv(),
            stores(old(self).inner(), final(self).inner(), now, user_id, balance as int),
    {
        let _stored = self.handle.replace_balance(now, user_id, balance);
    }

    /// Add `balance_diff` to `user_id`'s up-to-date balance as of `now`.
    pub fn add_quota_balance(&mut self, now: u64, user_id: IdType, balance_diff: i64)
        requires
            old(self).inv(),
        ensures
            final(self).inv(),
            stores(
                old(self).inner(),
                final(self).inner(),
                now,
                user_id,
                spec_clamp_i64(old(self).inner().spec_current(now, user_id) + balance_diff),
            ),
    {
        let _stored = self.handle.add_balance(now, user_id, balance_diff);
    }

    /// Whether the ledger currently stores an entry for `user_id`.
    pub fn contains_user(&self, user_id: IdType) -> (r: bool)
        ensures
            r == self.inner().ledger().contains_key(user_id),
    {
        self.handle.contains_user(user_id)
    }

    /// One scheduler pass; see `Data::update`.
    pub fn update(&mut self, now: u64) -> (wake: Option<u64>)
        requires
            old(self).inv(),
            now < u64::MAX,
        ensures
            final(self).inv(),
            pass_outcome(old(self).inner(), final(self).inner(), now, wake),
    {
        self.handle.update(now)
    }
}

/// Build the quota service. A refill rate of zero is a fatal
/// configuration error, checked by the embedding program before this is
/// called: with no refill, a spent user would never recover.
pub fn init(max_balance: i64, balance_per_second: u64) -> (app: AppData)
    requires
        balance_per_second >= 1,
    ensures
        app.inv(),
        app.inner().max_bal() == max_balance,
        app.inner().rate() == balance_per_second,
        app.inner().ledger() == (Map::<IdType, UserData>::empty()),
        app.inner().expiries() == (Map::<IdType, u64>::empty()),
{
    AppData { handle: Data::new(max_balance, balance_per_second) }
}

/// A pass that refreshes some users and leaves the rest untouched keeps
/// every tracked user scheduled.
proof fn lemma_pass_scheduled(pre: Data, post: Data, now: u64, done: Set<IdType>)
    requires
        pre.fully_scheduled(),
        forall|u: IdType| #[trigger] done.contains(u) ==> user_refreshed(pre, post, now, u),
        forall|u: IdType| !(#[trigger] done.contains(u)) ==> user_untouched(pre, post, u),
    ensures
        post.fully_scheduled(),
{
    assert forall|u: IdType| #[trigger] post.ledger().contains_key(u) implies post.expiries().contains_key(
        u,
    ) by {
        if done.contains(u) {
            assert(user_refreshed(pre, post, now, u));
        } else {
            assert(user_untouched(pre, post, u));
            assert(pre.ledger().contains_key(u));
        }
    }
}

/// With finitely many scheduled expiries, finitely many are overdue.
proof fn lemma_expired_finite(expiries: Map<IdType, u64>, now: u64)
    requires
        expiries.dom().finite(),
    ensures
        expired_users(expiries, now).finite(),
        expired_users(expiries, now).len() <= expiries.dom().len(),
{
    expiries.dom().lemma_len_filter(|u: IdType| expiries[u] <= now);
}

/// A rescheduled trigger lies strictly after the instant of the store
/// (as long as the clock can still advance): at least one coin is missing,
/// so at least one millisecond of refill remains.
proof fn lemma_trigger_future(now: u64, deficit: int, rate: int)
    requires
        deficit >= 1,
        rate >= 1,
        now < u64::MAX,
    ensures
        now < spec_trigger(now as int, deficit, rate) <= u64::MAX,
{
    vstd::arithmetic::div_mod::lemma_div_is_ordered(rate, 1000 * deficit + rate - 1, rate);
    vstd::arithmetic::div_mod::lemma_div_by_self(rate);
}

/// Storing a balance keeps the ledger well-formed: entries stay below the
/// maximum and every tracked user keeps a scheduled expiry.
proof fn lemma_store_preserves_wf(pre: Data, post: Data, now: u64, user: IdType, v: int)
    requires
        pre.wf(),
        i64::MIN <= v,
        post.max_bal() == pre.max_bal(),
        post.rate() == pre.rate(),
        post.ledger() == ledger_after_store(pre.ledger(), pre.max_bal(), now, user, v),
        post.expiries() == expiries_after_store(
            pre.expiries(),
            pre.max_bal(),
            pre.rate(),
            now,
            user,
            v,
        ),
    ensures
        post.wf(),
        pre.fully_scheduled() ==> post.fully_scheduled(),
{
    assert forall|u: IdType| post.ledger().contains_key(u) implies #[trigger] post.ledger()[u].balance
        < post.max_bal() by {
        if v >= pre.max_bal() || u != user {
            assert(pre.ledger().contains_key(u));
        }
    }
    if pre.fully_scheduled() {
        assert forall|u: IdType| #[trigger] post.ledger().contains_key(u) implies post.expiries().contains_key(
            u,
        ) by {
            if v >= pre.max_bal() || u != user {
                assert(pre.ledger().contains_key(u));
            }
        }
    }
    if v < pre.max_bal() {
        assert(post.expiries().dom() == pre.expiries().dom().insert(user));
    }
}

/// A user without a ledger entry reads as fully refilled: the balance is
/// the maximum, at every instant.
pub proof fn lemma_fresh_user_full(
    ledger: Map<IdType, UserData>,
    max: int,
    rate: int,
    now: int,
    user: IdType,
)
    requires
        !ledger.contains_key(user),
    ensures
        current_balance_in(ledger, max, rate, now, user) == max,
{
}

/// Adding a delta of zero is a pure read-through: it reports exactly the
/// up-to-date balance, and stores exactly what a plain read stores.
pub proof fn lemma_add_zero_is_read(d: Data, now: u64, user: IdType)
    requires
        d.wf(),
    ensures
        d.spec_add_result(now, user, 0) == d.spec_current(now, user),
        spec_clamp_i64(d.spec_current(now, user) + 0) == d.spec_current(now, user),
{
    lemma_current_in_i64_range(d.ledger(), d.max_bal(), d.rate(), now as int, user);
}

/// Monotonic refill: with no intervening stores, a later read is at least
/// as large as an earlier one, and never exceeds the maximum.
pub proof fn lemma_monotonic_refill(
    ledger: Map<IdType, UserData>,
    max: int,
    rate: int,
    t1: int,
    t2: int,
    user: IdType,
)
    requires
        rate >= 0,
        t1 <= t2,
    ensures
        current_balance_in(ledger, max, rate, t1, user) <= current_balance_in(
            ledger,
            max,
            rate,
            t2,
            user,
        ),
        current_balance_in(ledger, max, rate, t2, user) <= max,
{
    if ledger.contains_key(user) {
        let e = ledger[user];
        let p1 = spec_elapsed_ms(e.last_balance_update as int, t1);
        let p2 = spec_elapsed_ms(e.last_balance_update as int, t2);
        vstd::arithmetic::mul::lemma_mul_inequality(p1, p2, rate);
        vstd::arithmetic::div_mod::lemma_div_is_ordered(p1 * rate, p2 * rate, 1000);
    }
}

/// Monotonic refill across reads: when a read at `t1` is followed by a
/// read at a later `t2` with no intervening stores for the user, the
/// second read reports at least as much as the first, and never more than
/// the maximum.
pub proof fn lemma_sequential_reads_monotonic(d0: Data, d1: Data, t1: u64, t2: u64, user: IdType)
    requires
        d0.wf(),
        t1 <= t2,
        stores(d0, d1, t1, user, d0.spec_current(t1, user)),
    ensures
        d0.spec_current(t1, user) <= d1.spec_current(t2, user) <= d0.max_bal(),
{
    let cur1 = d0.spec_current(t1, user);
    lemma_current_in_i64_range(d0.ledger(), d0.max_bal(), d0.rate(), t1 as int, user);
    if cur1 < d0.max_bal() {
        let passed = spec_elapsed_ms(t1 as int, t2 as int);
        vstd::arithmetic::mul::lemma_mul_nonnegative(passed, d0.rate());
        vstd::arithmetic::div_mod::lemma_div_is_ordered(0, passed * d0.rate(), 1000);
    }
}

/// Storing a full (or overfull) balance leaves no entry for the user, and
/// every later read of that user reports the maximum without relying on
/// stored state.
pub proof fn lemma_replace_full_evicts(
    ledger: Map<IdType, UserData>,
    max: int,
    rate: int,
    now: u64,
    user: IdType,
    v: int,
)
    requires
        v >= max,
    ensures
        !ledger_after_store(ledger, max, now, user, v).contains_key(user),
        forall|t: int| #[trigger]
            current_balance_in(ledger_after_store(ledger, max, now, user, v), max, rate, t, user)
                == max,
{
}

/// An up-to-date balance always fits in an `i64`: it lies between the
/// stored balance (never below `i64::MIN`) and the maximum.
pub proof fn lemma_current_in_i64_range(
    ledger: Map<IdType, UserData>,
    max: int,
    rate: int,
    now: int,
    user: IdType,
)
    requires
        rate >= 0,
        i64::MIN <= max <= i64::MAX,
    ensures
        i64::MIN <= current_balance_in(ledger, max, rate, now, user) <= max,
{
    if ledger.contains_key(user) {
        let e = ledger[user];
        let passed = spec_elapsed_ms(e.last_balance_update as int, now);
        vstd::arithmetic::mul::lemma_mul_nonnegative(passed, rate);
        vstd::arithmetic::div_mod::lemma_div_is_ordered(0, passed * rate, 1000);
    }
}

} // verus!
