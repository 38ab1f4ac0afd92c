//! Conformance harness for a ledger's transaction-admission rules: the
//! canonical transaction and its single-field mutations, the rules they are
//! held to, and the sequential submit-and-compare protocol.
pub mod admission;
pub mod harness;
pub mod scenario;
pub mod transaction;
