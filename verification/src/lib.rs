//! Routing of trading-fee income from a quote-only liquidity position to a
//! cohort of investors (pro rata by still-locked vesting balance) and a
//! creator (exact remainder), on a strict once-per-24h cadence, processed in
//! bounded pages.
//!
//! The crate is organised around a pure distribution engine: every page
//! operation is a function from the persistent state and the page request to
//! a new state plus a list of effects (token transfers and notifications).
//! The caller owns the substrate that performs the effects atomically; the
//! engine validates eligibility, ordering and idempotency, and accounts for
//! every lamport of a claimed fee amount.

pub mod claim_guard;
pub mod constants;
pub mod distribute;
pub mod distribution;
pub mod dlmm;
pub mod errors;
pub mod events;
pub mod init;
pub mod investor;
pub mod math;
pub mod vault;
