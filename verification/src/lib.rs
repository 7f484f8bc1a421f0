//! An in-memory, continuously refilling quota ledger.
//!
//! Non-privileged callers are granted a balance of coins that refills at a
//! fixed rate per second and is clamped to a maximum. The ledger stores an
//! entry only for users whose balance is below the maximum; absence means
//! "fully refilled". A scheduler queue records when each tracked user will
//! be full again, so that fully refilled entries can be evicted and the
//! ledger stays bounded.

pub mod budget;
pub mod channel_info;
pub mod errors;
pub mod expiry;
pub mod models;
pub mod quota;
