//! One-time vault provisioning and roster maintenance: the decisions of the
//! setup operations, from plain values to plain values. The caller loads the
//! stored records, passes them in, persists what comes back, and performs the
//! external account work (account creation, position creation) itself.

use vstd::prelude::*;

use crate::constants::MAX_BPS;
use crate::distribution::DistributionState;
use crate::dlmm::{calculate_quote_only_ticks, spec_key_eq, spec_quote_only_ticks, key_eq, LbPair};
use crate::errors::FeeRouterError;
use crate::events::{HonoraryPositionInitialized, VaultInitialized};
use crate::vault::Vault;

verus! {

/// The vault record produced by a successful initialization.
pub open spec fn spec_initialized_vault(
    vault: Vault,
    vault_id: [u8; 32],
    creator_wallet: [u8; 32],
    quote_mint: [u8; 32],
    investor_fee_share_bps: u16,
    min_payout_lamports: u64,
    daily_cap_lamports: Option<u64>,
    treasury_quote: [u8; 32],
    treasury_base: [u8; 32],
    vault_bump: u8,
) -> Vault {
    Vault {
        vault_id: vault_id,
        creator_wallet: creator_wallet,
        quote_mint: quote_mint,
        investor_fee_share_bps: investor_fee_share_bps,
        min_payout_lamports: min_payout_lamports,
        daily_cap_lamports: daily_cap_lamports,
        treasury_quote: treasury_quote,
        treasury_base: treasury_base,
        is_initialized: true,
        position_initialized: false,
        bump: vault_bump,
        ..vault
    }
}

/// The distribution state produced by a successful initialization.
pub open spec fn spec_initialized_state(
    state: DistributionState,
    vault_key: [u8; 32],
    state_bump: u8,
) -> DistributionState {
    DistributionState {
        vault: vault_key,
        last_distribution_ts: 0,
        current_day: 0,
        bump: state_bump,
        ..state
    }
}

/// Initialize the vault configuration and its distribution state.
///
/// `vault` and `state` are the freshly created stored records; on success
/// they come back configured, together with the notification to publish.
/// Fails with `InvalidFeeShareBps` when the share exceeds one hundred
/// percent, and with `VaultAlreadyInitialized` when the vault record is
/// already in use — exactly in that order, and with no other failure.
pub fn initialize_vault(
    vault: &Vault,
    state: &DistributionState,
    vault_id: [u8; 32],
    creator_wallet: [u8; 32],
    quote_mint: [u8; 32],
    investor_fee_share_bps: u16,
    min_payout_lamports: u64,
    daily_cap_lamports: Option<u64>,
    treasury_quote: [u8; 32],
    treasury_base: [u8; 32],
    vault_key: [u8; 32],
    vault_bump: u8,
    state_bump: u8,
    now: i64,
) -> (r: Result<(Vault, DistributionState, VaultInitialized), FeeRouterError>)
    ensures
        investor_fee_share_bps > MAX_BPS ==> r == Err::<
            (Vault, DistributionState, VaultInitialized),
            FeeRouterError,
        >(FeeRouterError::InvalidFeeShareBps),
        investor_fee_share_bps <= MAX_BPS && vault.is_initialized ==> r == Err::<
            (Vault, DistributionState, VaultInitialized),
            FeeRouterError,
        >(FeeRouterError::VaultAlreadyInitialized),
        investor_fee_share_bps <= MAX_BPS && !vault.is_initialized ==> (r matches Ok(out) && {
            &&& out.0 == spec_initialized_vault(
                *vault,
                vault_id,
                creator_wallet,
                quote_mint,
                investor_fee_share_bps,
                min_payout_lamports,
                daily_cap_lamports,
                treasury_quote,
                treasury_base,
                vault_bump,
            )
            &&& out.0.wf()
            &&& out.1 == spec_initialized_state(*state, vault_key, state_bump)
            &&& out.1.wf()
            &&& out.2 == (VaultInitialized {
                vault_id: vault_id,
                creator: creator_wallet,
                investor_fee_share_bps: investor_fee_share_bps,
                min_payout_lamports: min_payout_lamports,
                daily_cap_lamports: daily_cap_lamports,
                timestamp: now,
            })
        }),
{
    if investor_fee_share_bps > MAX_BPS {
        return Err(FeeRouterError::InvalidFeeShareBps);
    }
    if vault.is_initialized {
        return Err(FeeRouterError::VaultAlreadyInitialized);
    }

    let mut new_vault = *vault;
    new_vault.vault_id = vault_id;
    new_vault.creator_wallet = creator_wallet;
    new_vault.quote_mint = quote_mint;
    new_vault.investor_fee_share_bps = investor_fee_share_bps;
    new_vault.min_payout_lamports = min_payout_lamports;
    new_vault.daily_cap_lamports = daily_cap_lamports;
    new_vault.treasury_quote = treasury_quote;
    new_vault.treasury_base = treasury_base;
    new_vault.is_initialized = true;
    new_vault.position_initialized = false;
    new_vault.bump = vault_bump;

    let mut new_state = *state;
    new_state.vault = vault_key;
    new_state.last_distribution_ts = 0;
    new_state.current_day = 0;
    new_state.bump = state_bump;

    let event = VaultInitialized {
        vault_id,
        creator: creator_wallet,
        investor_fee_share_bps,
        min_payout_lamports,
        daily_cap_lamports,
        timestamp: now,
    };

    Ok((new_vault, new_state, event))
}

/// The vault record after its honorary position is bound.
pub open spec fn spec_vault_with_position(
    vault: Vault,
    pool_key: [u8; 32],
    fee_position_key: [u8; 32],
    quote_mint: [u8; 32],
) -> Vault {
    Vault {
        pool: pool_key,
        fee_position: fee_position_key,
        position_initialized: true,
        quote_mint: quote_mint,
        ..vault
    }
}

/// Bind the honorary quote-only fee position to the vault.
///
/// Checks that the supplied quote mint is one of the pool's two token mints
/// (`InvalidQuoteMint` otherwise), computes the quote-only bin range from the
/// pool state, and returns the updated vault, the range for the caller to
/// create the position with, and the notification to publish. A vault whose
/// position already exists is `VaultAlreadyInitialized`.
pub fn initialize_fee_position(
    vault: &Vault,
    pool: &LbPair,
    vault_id: [u8; 32],
    pool_key: [u8; 32],
    fee_position_key: [u8; 32],
    token_x_mint: [u8; 32],
    token_y_mint: [u8; 32],
    quote_mint: [u8; 32],
    now: i64,
) -> (r: Result<(Vault, (i32, i32), HonoraryPositionInitialized), FeeRouterError>)
    requires
        vault.is_initialized,
    ensures
        vault.position_initialized ==> r == Err::<
            (Vault, (i32, i32), HonoraryPositionInitialized),
            FeeRouterError,
        >(FeeRouterError::VaultAlreadyInitialized),
        !vault.position_initialized && !(spec_key_eq(token_x_mint, quote_mint) || spec_key_eq(
            token_y_mint,
            quote_mint,
        )) ==> r == Err::<
            (Vault, (i32, i32), HonoraryPositionInitialized),
            FeeRouterError,
        >(FeeRouterError::InvalidQuoteMint),
        !vault.position_initialized && (spec_key_eq(token_x_mint, quote_mint) || spec_key_eq(
            token_y_mint,
            quote_mint,
        )) ==> match spec_quote_only_ticks(*pool, quote_mint) {
            Err(e) => r == Err::<
                (Vault, (i32, i32), HonoraryPositionInitialized),
                FeeRouterError,
            >(e),
            Ok(range) => (r matches Ok(out) && {
                &&& out.0 == spec_vault_with_position(
                    *vault,
                    pool_key,
                    fee_position_key,
                    quote_mint,
                )
                &&& out.1 == range
                &&& out.2 == (HonoraryPositionInitialized {
                    vault_id: vault_id,
                    position_pubkey: fee_position_key,
                    pool_pubkey: pool_key,
                    quote_mint: quote_mint,
                    timestamp: now,
                })
            }),
        },
{
    if vault.position_initialized {
        return Err(FeeRouterError::VaultAlreadyInitialized);
    }

    let is_x_quote = key_eq(&token_x_mint, &quote_mint);
    let is_y_quote = key_eq(&token_y_mint, &quote_mint);
    if !(is_x_quote || is_y_quote) {
        return Err(FeeRouterError::InvalidQuoteMint);
    }

    let range = match calculate_quote_only_ticks(pool, &quote_mint) {
        Ok(range) => range,
        Err(e) => {
            return Err(e);
        },
    };

    let mut new_vault = *vault;
    new_vault.pool = pool_key;
    new_vault.fee_position = fee_position_key;
    new_vault.position_initialized = true;
    new_vault.quote_mint = quote_mint;

    let event = HonoraryPositionInitialized {
        vault_id,
        position_pubkey: fee_position_key,
        pool_pubkey: pool_key,
        quote_mint,
        timestamp: now,
    };

    Ok((new_vault, range, event))
}

/// Overwrite the vault's total investor allocation (the Y0 denominator).
/// Idempotent: writing the same value twice changes nothing further.
pub fn update_investor_data(vault: &Vault, total_allocation: u64) -> (v: Vault)
    requires
        vault.is_initialized,
    ensures
        v == (Vault { total_investor_allocation: total_allocation, ..*vault }),
{
    let mut new_vault = *vault;
    new_vault.total_investor_allocation = total_allocation;
    new_vault
}

} // verus!
