//! A bounty ledger: an escrow of attached funds, one record per bounty id.
//!
//! A bounty is created by depositing funds, optionally naming a recipient,
//! and is later closed exactly once: finalized by its issuer (paying the
//! recipient on success, refunding the issuer on failure) or force-expired
//! after its height or time deadline has passed (refunding the issuer).
//!
//! The ledger itself is a plain value: the host runtime that persists it,
//! authenticates callers and executes the scheduled fund transfers stays
//! outside this crate and hands every operation its context explicitly.

pub mod contract;
pub mod decimal;
pub mod error;
pub mod msg;
pub mod state;
