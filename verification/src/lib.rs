//! A single-purpose instruction handler for a taxed value transfer.
//!
//! Given an ordered set of participant accounts and an 8-byte little-endian
//! payload holding the requested amount, the handler validates authorization
//! and account roles, reads the two token balances involved, and computes how
//! the amount splits between the recipient, the treasury and the developer
//! wallet. It performs no balance mutation itself: it returns the computed
//! split for the surrounding ledger runtime to apply.

pub mod error;
pub mod fees;
pub mod identity;
pub mod payload;
pub mod token;
pub mod handler;
