//! A capped, time-bounded spending allowance between two parties, kept in a
//! ledger of account balances and allowance entries.
//!
//! A giver funds an entry that lets one recipient withdraw, bit by bit, up to
//! a fixed total until an expiry time; the giver may close the entry at any
//! time and get back what was not withdrawn. Identities are `u64` account
//! numbers and times are `i64` instants supplied by the caller's clock.

pub mod key;
pub mod laws;
pub mod ledger;
pub mod state;

pub use ledger::{close, initialize, withdraw, Ledger};
pub use state::{Allowance, Close, ErrorCode, Initialize, Withdraw};
