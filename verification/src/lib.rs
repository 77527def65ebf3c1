//! A credit ledger for a pooled-custody deposit scheme.
//!
//! Deposits of a single accepted fungible asset convert, at a fixed rate,
//! into a per-user credit balance that only a delegated spender may debit
//! and only the configuring authority may never touch directly; the pooled
//! deposits themselves may be withdrawn only by that authority. The ledger
//! is a keyed store of configuration and per-user credit records, and every
//! operation is a single validate-then-mutate step.

pub mod errors;
pub mod records;
pub mod store;
pub mod laws;
