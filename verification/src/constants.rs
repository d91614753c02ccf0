//! Shared constants of the fee router.

use vstd::prelude::*;

verus! {

/// Length of one distribution day, in seconds of wall-clock time.
pub const SECONDS_PER_DAY: i64 = 86400;

/// One hundred percent, in basis points.
pub const MAX_BPS: u16 = 10000;

/// Upper bound on the number of investors handled in one page.
pub const MAX_INVESTORS_PER_PAGE: usize = 64;

/// Number of page indices covered by the idempotency bitmap. Page indices at
/// or above this bound are rejected outright, so that replay protection holds
/// for every page that is ever processed.
pub const MAX_PAGES_PER_DAY: u32 = 128;

} // verus!
