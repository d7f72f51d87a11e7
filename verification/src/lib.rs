//! Transactional core of a peer-to-peer micro-lending protocol.
//!
//! Borrowers request loans, lenders fund them, and each borrower carries a
//! portable credit reputation that gates future borrowing limits and pricing.
//! This crate holds the verified core: the credit-scoring engine, the
//! interest-rate policy, and the loan lifecycle state machine, each operation
//! a pure compute-and-commit step over plain records.
//!
//! The surrounding ledger platform — keyed record storage, custodial value
//! transfer, signature verification, and the clock — is out of scope here.
//! Each operation takes the records it declares, the acting identity (already
//! authenticated by the platform), and the current time, and either mutates
//! the records and reports the value transfers the platform must perform, or
//! rejects the whole operation with a named error and no change at all.

pub mod config;
pub mod credit;
pub mod laws;
pub mod lifecycle;
pub mod policy;
pub mod reputation;
pub mod state;
