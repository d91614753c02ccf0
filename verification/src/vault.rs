//! The vault: immutable configuration of one fee-routing setup. Account
//! addresses of the external ledger are held as plain 32-byte identifiers.

use vstd::prelude::*;

use crate::constants::MAX_BPS;

verus! {

#[derive(Clone, Copy, Debug)]
pub struct Vault {
    /// Unique vault identifier.
    pub vault_id: [u8; 32],
    /// The creator wallet that receives remainder fees.
    pub creator_wallet: [u8; 32],
    /// The liquidity pool bound to this vault.
    pub pool: [u8; 32],
    /// The quote mint.
    pub quote_mint: [u8; 32],
    /// The honorary fee position.
    pub fee_position: [u8; 32],
    /// Investor fee share in basis points (at most `MAX_BPS`).
    pub investor_fee_share_bps: u16,
    /// Minimum payout amount (dust threshold).
    pub min_payout_lamports: u64,
    /// Optional daily distribution cap.
    pub daily_cap_lamports: Option<u64>,
    /// Total initial allocation for investors (the Y0 denominator).
    pub total_investor_allocation: u64,
    /// Program-owned quote treasury account.
    pub treasury_quote: [u8; 32],
    /// Program-owned base treasury account (must stay empty; watched by the
    /// quote-only guard).
    pub treasury_base: [u8; 32],
    /// Whether the vault is initialized.
    pub is_initialized: bool,
    /// Whether the fee position is created.
    pub position_initialized: bool,
    /// Bump seed of the vault's derived address.
    pub bump: u8,
    /// Reserved space for forward-compatible extension.
    pub _reserved: [u8; 32],
}

impl Vault {
    /// Size of the stored record, in bytes, including an 8-byte discriminator
    /// and reserved padding.
    pub const LEN: usize = 8 + 32 + 32 + 32 + 32 + 32 + 2 + 8 + 1 + 8 + 8 + 32 + 32 + 1 + 1 + 1
        + 32;

    /// A vault is well formed when its configured investor share does not
    /// exceed one hundred percent.
    pub open spec fn wf(self) -> bool {
        self.investor_fee_share_bps <= MAX_BPS
    }

}

/// Every byte of an identifier or padding field is zero.
pub open spec fn all_zero_bytes<const N: usize>(a: [u8; N]) -> bool {
    forall|i: int| 0 <= i < N ==> a@[i] == 0
}

impl Default for Vault {
    fn default() -> (v: Vault)
        ensures
            v.investor_fee_share_bps == 0,
            v.min_payout_lamports == 0,
            v.daily_cap_lamports is None,
            v.total_investor_allocation == 0,
            !v.is_initialized,
            !v.position_initialized,
            v.bump == 0,
            v.wf(),
            all_zero_bytes(v.vault_id),
            all_zero_bytes(v.creator_wallet),
            all_zero_bytes(v.pool),
            all_zero_bytes(v.quote_mint),
            all_zero_bytes(v.fee_position),
            all_zero_bytes(v.treasury_quote),
            all_zero_bytes(v.treasury_base),
    {
        Vault {
            vault_id: [0u8; 32],
            creator_wallet: [0u8; 32],
            pool: [0u8; 32],
            quote_mint: [0u8; 32],
            fee_position: [0u8; 32],
            investor_fee_share_bps: 0,
            min_payout_lamports: 0,
            daily_cap_lamports: None,
            total_investor_allocation: 0,
            treasury_quote: [0u8; 32],
            treasury_base: [0u8; 32],
            is_initialized: false,
            position_initialized: false,
            bump: 0,
            _reserved: [0u8; 32],
        }
    }
}

} // verus!
