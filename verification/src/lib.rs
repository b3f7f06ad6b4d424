//! An in-memory ledger runtime: account balances, a block counter and
//! per-account nonces, and the facade that processes one transfer attempt.

pub mod balances;
pub mod runtime;
pub mod supply;
pub mod system;
