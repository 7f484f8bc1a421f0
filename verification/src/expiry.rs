//! The pending-expiry queue: for each tracked user, the moment at which the
//! user's balance will have refilled completely.
//!
//! The queue is a keyed priority queue from the `priority_queue` crate,
//! ordered so that the entry with the *earliest* trigger instant is on top.
//! Its contents are modelled as a map from user to trigger instant
//! (`expiry_entries`); pushing a user who is already queued replaces that
//! user's trigger instant.

use core::cmp::Reverse;
use priority_queue::PriorityQueue;
use vstd::prelude::*;

use crate::models::IdType;

verus! {

#[verifier::external_type_specification]
#[verifier::external_body]
#[verifier::reject_recursive_types(T)]
pub struct ExReverse<T>(Reverse<T>);

#[verifier::external_type_specification]
#[verifier::external_body]
#[verifier::reject_recursive_types(I)]
#[verifier::reject_recursive_types(P)]
#[verifier::reject_recursive_types(H)]
pub struct ExPriorityQueue<I, P, H>(PriorityQueue<I, P, H>);

/// The queue type the ledger schedules expirations in: users keyed by
/// trigger instant, earliest on top.
pub type ExpiryQueue = PriorityQueue<IdType, Reverse<u64>>;

/// What the queue holds: each queued user's trigger instant, in
/// milliseconds on the caller's monotonic clock.
pub uninterp spec fn expiry_entries(q: ExpiryQueue) -> Map<IdType, u64>;

/// Relies on `PriorityQueue::with_capacity`: creates an empty queue.
#[verifier::external_body]
pub(crate) fn expiry_new(capacity: usize) -> (q: ExpiryQueue)
    ensures
        expiry_entries(q) == (Map::<IdType, u64>::empty()),
{
    PriorityQueue::with_capacity(capacity)
}

/// Relies on `PriorityQueue::push`: inserts the user with the given
/// trigger instant, or replaces the trigger instant of an already queued
/// user.
#[verifier::external_body]
pub(crate) fn expiry_push(q: &mut ExpiryQueue, user: IdType, trigger: u64)
    ensures
        expiry_entries(*final(q)) == expiry_entries(*old(q)).insert(user, trigger),
{
    q.push(user, Reverse(trigger));
}

/// Relies on `PriorityQueue::peek`: returns a queued pair with the
/// greatest priority, hence (under `Reverse`) an earliest trigger instant,
/// without removing it; `None` exactly when the queue is empty.
#[verifier::external_body]
pub(crate) fn expiry_peek(q: &ExpiryQueue) -> (r: Option<(IdType, u64)>)
    ensures
        match r {
            Some(p) => {
                &&& expiry_entries(*q).contains_key(p.0)
                &&& expiry_entries(*q)[p.0] == p.1
                &&& forall|u: IdType|
                    expiry_entries(*q).contains_key(u) ==> p.1 <= #[trigger] expiry_entries(*q)[u]
            },
            None => expiry_entries(*q) == Map::<IdType, u64>::empty(),
        },
{
    q.peek().map(|p| (*p.0, p.1.0))
}

/// Relies on `PriorityQueue::pop`: removes and returns a queued pair with
/// the greatest priority, hence (under `Reverse`) an earliest trigger
/// instant; `None` exactly when the queue is empty.
#[verifier::external_body]
pub(crate) fn expiry_pop(q: &mut ExpiryQueue) -> (r: Option<(IdType, u64)>)
    ensures
        match r {
            Some(p) => {
                &&& expiry_entries(*old(q)).contains_key(p.0)
                &&& expiry_entries(*old(q))[p.0] == p.1
                &&& forall|u: IdType|
                    expiry_entries(*old(q)).contains_key(u) ==> p.1 <= #[trigger] expiry_entries(
                        *old(q),
                    )[u]
                &&& expiry_entries(*final(q)) == expiry_entries(*old(q)).remove(p.0)
            },
            None => {
                &&& expiry_entries(*old(q)) == Map::<IdType, u64>::empty()
                &&& expiry_entries(*final(q)) == expiry_entries(*old(q))
            },
        },
{
    q.pop().map(|p| (p.0, p.1.0))
}

} // verus!
