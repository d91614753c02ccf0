//! Investor roster records. The roster itself is loaded and paged by an
//! external data-load step; the engine only consumes, for one page, the
//! ordered list of investors with their still-locked balances.

use vstd::prelude::*;

verus! {

#[derive(Clone, Copy, Debug)]
pub struct InvestorRecord {
    /// Associated vault.
    pub vault: [u8; 32],
    /// Investor wallet address.
    pub investor: [u8; 32],
    /// Vesting stream identifier for this investor.
    pub stream_pubkey: [u8; 32],
    /// Initial allocation amount.
    pub initial_allocation: u64,
    /// Total fees received so far.
    pub total_fees_received: u64,
    /// Last distribution timestamp for this investor.
    pub last_distribution_ts: i64,
    /// Page number this investor belongs to.
    pub page: u32,
    /// Index within the page.
    pub page_index: u32,
    /// Bump seed of the record's derived address.
    pub bump: u8,
    /// Reserved space for forward-compatible extension.
    pub _reserved: [u8; 32],
}

impl InvestorRecord {
    /// Size of the stored record, in bytes, including an 8-byte discriminator
    /// and reserved padding.
    pub const LEN: usize = 8 + 32 + 32 + 32 + 8 + 8 + 8 + 4 + 4 + 1 + 32;

}

impl Default for InvestorRecord {
    fn default() -> (r: InvestorRecord)
        ensures
            r.initial_allocation == 0,
            r.total_fees_received == 0,
            r.last_distribution_ts == 0,
            r.page == 0,
            r.page_index == 0,
            r.bump == 0,
            crate::vault::all_zero_bytes(r.vault),
            crate::vault::all_zero_bytes(r.investor),
            crate::vault::all_zero_bytes(r.stream_pubkey),
    {
        InvestorRecord {
            vault: [0u8; 32],
            investor: [0u8; 32],
            stream_pubkey: [0u8; 32],
            initial_allocation: 0,
            total_fees_received: 0,
            last_distribution_ts: 0,
            page: 0,
            page_index: 0,
            bump: 0,
            _reserved: [0u8; 32],
        }
    }
}

/// Aggregated investor data for one page.
#[derive(Debug)]
pub struct InvestorPage {
    /// Associated vault.
    pub vault: [u8; 32],
    /// Page number.
    pub page: u32,
    /// Number of investors in this page.
    pub investor_count: u32,
    /// Investor record addresses.
    pub investors: Vec<[u8; 32]>,
    /// Total locked amount for this page, cached for efficiency.
    pub total_locked: u64,
    /// Last update timestamp.
    pub last_update_ts: i64,
    /// Bump seed of the page's derived address.
    pub bump: u8,
}

impl InvestorPage {
    /// Size of the stored record before the investor list, in bytes,
    /// including an 8-byte discriminator and the list's length prefix.
    pub const BASE_LEN: usize = 8 + 32 + 4 + 4 + 4 + 8 + 8 + 1;

    /// Size of a stored page holding `investor_count` investors.
    pub fn len(investor_count: usize) -> (r: usize)
        requires
            InvestorPage::BASE_LEN + investor_count * 32 <= usize::MAX,
        ensures
            r == InvestorPage::BASE_LEN + investor_count * 32,
    {
        InvestorPage::BASE_LEN + investor_count * 32
    }
}

/// One line of a page's roster, as handed to the engine: an investor together
/// with the balance the vesting oracle reports as still locked at claim time.
#[derive(Clone, Copy, Debug)]
pub struct InvestorLine {
    /// Investor wallet address.
    pub investor: [u8; 32],
    /// Still-locked balance at claim time.
    pub locked_amount: u64,
}

} // verus!
