//! The day/page state machine. One `DistributionState` exists per vault; it
//! is mutated once per page, gates the start of every distribution day, and
//! records which pages have already been applied in an idempotency bitmap.

use vstd::prelude::*;

use crate::constants::{MAX_PAGES_PER_DAY, SECONDS_PER_DAY};

verus! {

#[derive(Clone, Copy, Debug)]
pub struct DistributionState {
    /// Associated vault.
    pub vault: [u8; 32],
    /// Wall-clock time the current day began.
    pub last_distribution_ts: i64,
    /// Monotonically increasing day counter.
    pub current_day: u64,
    /// Amount counted against the daily cap so far today.
    pub daily_distributed: u64,
    /// Accumulated dust, rounding and cap-rejected amounts, rolled forward
    /// indefinitely. This engine never pays the carry-over out; the funds
    /// accrue to an unspent pool.
    pub carry_over: u64,
    /// Next expected page index, strictly sequential within a day.
    pub current_page: u32,
    /// Whether the current day's distribution is complete.
    pub day_complete: bool,
    /// Total quote fees claimed for the current day, fixed at page 0.
    pub day_claimed_fees: u64,
    /// Running total actually paid to investors this day.
    pub day_investor_total: u64,
    /// Pagination cursor, informational.
    pub page_cursor: u64,
    /// Count of completed pages, informational.
    pub pages_processed: u32,
    /// Bitmap of processed pages; bit `i` is set iff page `i`'s effects have
    /// been committed this day. Covers `MAX_PAGES_PER_DAY` page indices.
    pub pages_done_mask: u128,
    /// Bump seed of the state's derived address.
    pub bump: u8,
    /// Reserved space for forward-compatible extension.
    pub _reserved: [u8; 64],
}

impl DistributionState {
    /// Size of the stored record, in bytes, including an 8-byte discriminator
    /// and reserved padding.
    pub const LEN: usize = 8 + 32 + 8 + 8 + 8 + 8 + 4 + 1 + 8 + 8 + 8 + 4 + 16 + 1 + 64;

    /// Timestamps are wall-clock seconds: non-negative, and far enough from
    /// the numeric limit that the 24-hour window can always be computed.
    pub open spec fn wf(self) -> bool {
        0 <= self.last_distribution_ts <= i64::MAX - SECONDS_PER_DAY
    }

    /// A new distribution day may begin once 24 hours of wall-clock time have
    /// passed since the current day began.
    pub open spec fn spec_can_distribute(self, now: i64) -> bool {
        now >= self.last_distribution_ts + SECONDS_PER_DAY
    }

    pub fn can_distribute(&self, current_ts: i64) -> (r: bool)
        requires
            self.wf(),
        ensures
            r == self.spec_can_distribute(current_ts),
    {
        current_ts >= self.last_distribution_ts + SECONDS_PER_DAY
    }

    /// The state at the start of a fresh day beginning at `now`: the day
    /// counter advances, every per-day counter and the page bitmap reset, and
    /// the carry-over rolls forward untouched.
    pub open spec fn spec_started(self, now: i64) -> DistributionState {
        DistributionState {
            last_distribution_ts: now,
            current_day: (self.current_day + 1) as u64,
            daily_distributed: 0,
            current_page: 0,
            day_complete: false,
            day_claimed_fees: 0,
            day_investor_total: 0,
            page_cursor: 0,
            pages_processed: 0,
            pages_done_mask: 0,
            ..self
        }
    }

    pub fn start_new_day(&mut self, current_ts: i64)
        requires
            old(self).current_day < u64::MAX,
            0 <= current_ts <= i64::MAX - SECONDS_PER_DAY,
        ensures
            *final(self) == old(self).spec_started(current_ts),
            final(self).wf(),
    {
        self.last_distribution_ts = current_ts;
        self.current_day = self.current_day + 1;
        self.daily_distributed = 0;
        self.current_page = 0;
        self.day_complete = false;
        self.day_claimed_fees = 0;
        self.day_investor_total = 0;
        self.page_cursor = 0;
        self.pages_processed = 0;
        self.pages_done_mask = 0;
    }

    /// Whether page `page` has been applied this day. Pages at or above
    /// `MAX_PAGES_PER_DAY` are outside the bitmap and count as not done; the
    /// engine rejects such pages before they are ever processed.
    pub open spec fn spec_page_done(self, page: u32) -> bool {
        page < MAX_PAGES_PER_DAY && self.pages_done_mask & (1u128 << (page as u128)) != 0
    }

    pub fn is_page_done(&self, page: u32) -> (r: bool)
        ensures
            r == self.spec_page_done(page),
    {
        if page >= MAX_PAGES_PER_DAY {
            return false;
        }
        let bit: u128 = 1u128 << (page as u128);
        (self.pages_done_mask & bit) != 0
    }

    /// The state with page `page` recorded as done. A page outside the bitmap
    /// leaves the mask unchanged.
    pub open spec fn spec_marked(self, page: u32) -> DistributionState {
        if page < MAX_PAGES_PER_DAY {
            DistributionState { pages_done_mask: self.pages_done_mask | (1u128 << (page as u128)), ..self }
        } else {
            self
        }
    }

    pub fn mark_page_done(&mut self, page: u32)
        ensures
            *final(self) == old(self).spec_marked(page),
    {
        if page >= MAX_PAGES_PER_DAY {
            return;
        }
        let bit: u128 = 1u128 << (page as u128);
        self.pages_done_mask = self.pages_done_mask | bit;
    }

}

impl Default for DistributionState {
    fn default() -> (s: DistributionState)
        ensures
            s.last_distribution_ts == 0,
            s.current_day == 0,
            s.daily_distributed == 0,
            s.carry_over == 0,
            s.current_page == 0,
            !s.day_complete,
            s.day_claimed_fees == 0,
            s.day_investor_total == 0,
            s.page_cursor == 0,
            s.pages_processed == 0,
            s.pages_done_mask == 0,
            s.bump == 0,
            s.wf(),
            crate::vault::all_zero_bytes(s.vault),
    {
        DistributionState {
            vault: [0u8; 32],
            last_distribution_ts: 0,
            current_day: 0,
            daily_distributed: 0,
            carry_over: 0,
            current_page: 0,
            day_complete: false,
            day_claimed_fees: 0,
            day_investor_total: 0,
            page_cursor: 0,
            pages_processed: 0,
            pages_done_mask: 0,
            bump: 0,
            _reserved: [0u8; 64],
        }
    }
}

/// Setting a bit leaves it set.
pub proof fn lemma_mask_bit_set(mask: u128, p: u128)
    by (bit_vector)
    requires
        p < 128,
    ensures
        (mask | (1u128 << p)) & (1u128 << p) != 0,
{
}

/// Setting one bit does not disturb any other bit.
pub proof fn lemma_mask_bit_other(mask: u128, p: u128, q: u128)
    by (bit_vector)
    requires
        p < 128,
        q < 128,
        p != q,
    ensures
        ((mask | (1u128 << p)) & (1u128 << q) != 0) == (mask & (1u128 << q) != 0),
{
}

/// In a fresh bitmap no page is done.
pub proof fn lemma_mask_empty(q: u128)
    by (bit_vector)
    ensures
        0u128 & (1u128 << q) == 0,
{
}

} // verus!
