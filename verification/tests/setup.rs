use dlmm_fee_router::distribution::DistributionState;
use dlmm_fee_router::dlmm::{
    CumulativeFeeVolume, LbPair, Parameters, ProtocolFee, VParameters,
};
use dlmm_fee_router::errors::FeeRouterError;
use dlmm_fee_router::init::{initialize_fee_position, initialize_vault, update_investor_data};
use dlmm_fee_router::investor::InvestorPage;
use dlmm_fee_router::vault::Vault;

fn blank_vault() -> Vault {
    Vault {
        vault_id: [0u8; 32],
        creator_wallet: [0u8; 32],
        pool: [0u8; 32],
        quote_mint: [0u8; 32],
        fee_position: [0u8; 32],
        investor_fee_share_bps: 0,
        min_payout_lamports: 0,
        daily_cap_lamports: None,
        total_investor_allocation: 0,
        treasury_quote: [0u8; 32],
        treasury_base: [0u8; 32],
        is_initialized: false,
        position_initialized: false,
        bump: 0,
        _reserved: [0u8; 32],
    }
}

fn blank_state() -> DistributionState {
    DistributionState {
        vault: [0u8; 32],
        last_distribution_ts: 0,
        current_day: 0,
        daily_distributed: 0,
        carry_over: 0,
        current_page: 0,
        day_complete: false,
        day_claimed_fees: 0,
        day_investor_total: 0,
        page_cursor: 0,
        pages_processed: 0,
        pages_done_mask: 0,
        bump: 0,
        _reserved: [0u8; 64],
    }
}

fn setup_pool() -> LbPair {
    LbPair {
        parameters: Parameters {
            swap_fee_bps: 0,
            max_bin_id: 20000,
            min_bin_id: -10000,
            bin_count: 0,
        },
        v_parameters: VParameters { volatility_accumulator: 0, volatility_reference: 0 },
        bump_seed: [0u8; 1],
        bin_step_seed: [0u8; 2],
        pair_type: 0,
        active_id: 10000,
        bin_step: 10,
        protocol_fee: ProtocolFee { amount_x: 0, amount_y: 0 },
        last_updated_at: 0,
        cumulative_fee_volume: CumulativeFeeVolume {
            cumulative_fee_x: 0,
            cumulative_fee_y: 0,
            cumulative_volume_x: 0,
            cumulative_volume_y: 0,
        },
        token_x_mint: [1u8; 32],
        token_y_mint: [2u8; 32],
        reserve_x: [0u8; 32],
        reserve_y: [0u8; 32],
        oracle: [0u8; 32],
    }
}

#[test]
fn vault_initialization_sets_configuration() {
    let vault = blank_vault();
    let state = blank_state();
    let (v, s, event) = initialize_vault(
        &vault,
        &state,
        [1u8; 32],
        [2u8; 32],
        [3u8; 32],
        8000,
        1000,
        Some(50_000),
        [4u8; 32],
        [5u8; 32],
        [6u8; 32],
        255,
        254,
        77,
    )
        .unwrap();
    assert_eq!(v.vault_id, [1u8; 32]);
    assert_eq!(v.creator_wallet, [2u8; 32]);
    assert_eq!(v.quote_mint, [3u8; 32]);
    assert_eq!(v.investor_fee_share_bps, 8000);
    assert_eq!(v.min_payout_lamports, 1000);
    assert_eq!(v.daily_cap_lamports, Some(50_000));
    assert_eq!(v.treasury_quote, [4u8; 32]);
    assert_eq!(v.treasury_base, [5u8; 32]);
    assert!(v.is_initialized);
    assert!(!v.position_initialized);
    assert_eq!(v.bump, 255);
    assert_eq!(s.vault, [6u8; 32]);
    assert_eq!(s.last_distribution_ts, 0);
    assert_eq!(s.current_day, 0);
    assert_eq!(s.bump, 254);
    assert_eq!(event.investor_fee_share_bps, 8000);
    assert_eq!(event.timestamp, 77);
}

#[test]
fn vault_initialization_rejects_bad_share() {
    let vault = blank_vault();
    let state = blank_state();
    let r = initialize_vault(
        &vault,
        &state,
        [1u8; 32],
        [2u8; 32],
        [3u8; 32],
        10_001,
        0,
        None,
        [4u8; 32],
        [5u8; 32],
        [6u8; 32],
        255,
        254,
        0,
    );
    assert_eq!(r.unwrap_err(), FeeRouterError::InvalidFeeShareBps);
}

#[test]
fn vault_initialization_rejects_reuse() {
    let mut vault = blank_vault();
    vault.is_initialized = true;
    let state = blank_state();
    let r = initialize_vault(
        &vault,
        &state,
        [1u8; 32],
        [2u8; 32],
        [3u8; 32],
        8000,
        0,
        None,
        [4u8; 32],
        [5u8; 32],
        [6u8; 32],
        255,
        254,
        0,
    );
    assert_eq!(r.unwrap_err(), FeeRouterError::VaultAlreadyInitialized);
}

#[test]
fn fee_position_binding_updates_vault() {
    let mut vault = blank_vault();
    vault.is_initialized = true;
    let pool = setup_pool();
    let (v, range, event) = initialize_fee_position(
        &vault,
        &pool,
        [1u8; 32],
        [7u8; 32],
        [8u8; 32],
        [1u8; 32],
        [2u8; 32],
        [1u8; 32],
        42,
    )
        .unwrap();
    assert_eq!(v.pool, [7u8; 32]);
    assert_eq!(v.fee_position, [8u8; 32]);
    assert!(v.position_initialized);
    assert_eq!(v.quote_mint, [1u8; 32]);
    assert_eq!(range, (8990, 9990));
    assert_eq!(event.position_pubkey, [8u8; 32]);
    assert_eq!(event.pool_pubkey, [7u8; 32]);
    assert_eq!(event.timestamp, 42);
}

#[test]
fn fee_position_rejects_foreign_quote_mint() {
    let mut vault = blank_vault();
    vault.is_initialized = true;
    let pool = setup_pool();
    let r = initialize_fee_position(
        &vault,
        &pool,
        [1u8; 32],
        [7u8; 32],
        [8u8; 32],
        [1u8; 32],
        [2u8; 32],
        [9u8; 32],
        0,
    );
    assert_eq!(r.unwrap_err(), FeeRouterError::InvalidQuoteMint);
}

#[test]
fn fee_position_rejects_double_binding() {
    let mut vault = blank_vault();
    vault.is_initialized = true;
    vault.position_initialized = true;
    let pool = setup_pool();
    let r = initialize_fee_position(
        &vault,
        &pool,
        [1u8; 32],
        [7u8; 32],
        [8u8; 32],
        [1u8; 32],
        [2u8; 32],
        [1u8; 32],
        0,
    );
    assert_eq!(r.unwrap_err(), FeeRouterError::VaultAlreadyInitialized);
}

#[test]
fn allocation_overwrite_is_idempotent() {
    let mut vault = blank_vault();
    vault.is_initialized = true;
    let v1 = update_investor_data(&vault, 1_000_000);
    assert_eq!(v1.total_investor_allocation, 1_000_000);
    let v2 = update_investor_data(&v1, 1_000_000);
    assert_eq!(v2.total_investor_allocation, 1_000_000);
    assert_eq!(v2.vault_id, v1.vault_id);
    let v3 = update_investor_data(&v2, 2_000_000);
    assert_eq!(v3.total_investor_allocation, 2_000_000);
}

#[test]
fn investor_page_len_counts_pubkeys() {
    assert_eq!(InvestorPage::len(0), InvestorPage::BASE_LEN);
    assert_eq!(InvestorPage::len(3), InvestorPage::BASE_LEN + 96);
}

#[test]
fn error_messages_name_the_failure() {
    assert_eq!(FeeRouterError::MathOverflow.message(), "Math overflow");
    assert_eq!(
        FeeRouterError::DistributionWindowNotReached.message(),
        "Distribution window not reached (24h required)"
    );
}
