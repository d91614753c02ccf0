use dlmm_fee_router::claim_guard::{claim_quote_fees, ClaimObservation};
use dlmm_fee_router::distribute::distribute_fees;
use dlmm_fee_router::distribution::DistributionState;
use dlmm_fee_router::errors::FeeRouterError;
use dlmm_fee_router::investor::InvestorLine;
use dlmm_fee_router::vault::Vault;

fn engine_vault() -> Vault {
    Vault {
        vault_id: [1u8; 32],
        creator_wallet: [2u8; 32],
        pool: [3u8; 32],
        quote_mint: [4u8; 32],
        fee_position: [5u8; 32],
        investor_fee_share_bps: 8000,
        min_payout_lamports: 0,
        daily_cap_lamports: None,
        total_investor_allocation: 1_000_000,
        treasury_quote: [6u8; 32],
        treasury_base: [7u8; 32],
        is_initialized: true,
        position_initialized: true,
        bump: 255,
        _reserved: [0u8; 32],
    }
}

fn engine_state() -> DistributionState {
    DistributionState {
        vault: [8u8; 32],
        last_distribution_ts: 0,
        current_day: 0,
        daily_distributed: 0,
        carry_over: 0,
        current_page: 0,
        day_complete: false,
        day_claimed_fees: 0,
        day_investor_total: 0,
        page_cursor: 0,
        pages_processed: 0,
        pages_done_mask: 0,
        bump: 254,
        _reserved: [0u8; 64],
    }
}

fn engine_obs(claimed: u64) -> ClaimObservation {
    ClaimObservation { quote_before: 0, quote_after: claimed, base_before: 0, base_after: 0 }
}

fn engine_line(tag: u8, locked: u64) -> InvestorLine {
    InvestorLine { investor: [tag; 32], locked_amount: locked }
}

#[test]
fn scenario_two_investors_exact_split() {
    // Y0 = 1,000,000; share 8000 bps; locked 300,000 + 200,000 = 500,000, so
    // f_locked = 5000 bps, eligible = 5000, and the investor fee quote is
    // 100,000 * 5000 / 10000 = 50,000, split 30,000 / 20,000 with no
    // remainder; the creator receives the other 50,000.
    let vault = engine_vault();
    let state = engine_state();
    let lines = vec![engine_line(10, 300_000), engine_line(11, 200_000)];
    let r = distribute_fees(
        &vault,
        &state,
        [1u8; 32],
        0,
        true,
        86_400,
        Some(engine_obs(100_000)),
        &lines,
    );
    let (s2, eff) = r.unwrap();
    assert_eq!(eff.investor_transfers.len(), 2);
    assert_eq!(eff.investor_transfers[0].amount, 30_000);
    assert_eq!(eff.investor_transfers[0].investor, [10u8; 32]);
    assert_eq!(eff.investor_transfers[1].amount, 20_000);
    assert_eq!(eff.investor_transfers[1].investor, [11u8; 32]);
    assert_eq!(eff.creator_payout, 50_000);
    assert_eq!(s2.day_claimed_fees, 100_000);
    assert_eq!(s2.day_investor_total, 50_000);
    assert_eq!(s2.daily_distributed, 50_000);
    assert_eq!(s2.carry_over, 0);
    assert!(s2.day_complete);
    assert_eq!(s2.current_day, 1);
    let summary = eff.page_summary.unwrap();
    assert_eq!(summary.total_payout, 50_000);
    assert_eq!(summary.investor_count, 2);
    let closed = eff.day_closed.unwrap();
    assert_eq!(closed.creator_payout, 50_000);
    assert_eq!(closed.total_distributed_to_investors, 50_000);
    let claimed = eff.quote_fees_claimed.unwrap();
    assert_eq!(claimed.amount_claimed, 100_000);
    assert_eq!(claimed.carry_over_prev, 0);
}

#[test]
fn scenario_dust_diverted_to_carry_over() {
    // Same setup with a dust threshold above both computed amounts: 30,000
    // and 20,000 are diverted, nothing is paid, the creator takes the whole
    // claim.
    let mut vault = engine_vault();
    vault.min_payout_lamports = 35_000;
    let state = engine_state();
    let lines = vec![engine_line(10, 300_000), engine_line(11, 200_000)];
    let r = distribute_fees(
        &vault,
        &state,
        [1u8; 32],
        0,
        true,
        86_400,
        Some(engine_obs(100_000)),
        &lines,
    );
    let (s2, eff) = r.unwrap();
    assert_eq!(eff.investor_transfers.len(), 0);
    assert_eq!(s2.day_investor_total, 0);
    assert_eq!(s2.carry_over, 50_000);
    assert_eq!(eff.creator_payout, 100_000);
}

#[test]
fn window_gate_blocks_early_page_zero() {
    let vault = engine_vault();
    let mut state = engine_state();
    state.last_distribution_ts = 1000;
    let lines = vec![engine_line(10, 300_000)];
    let r = distribute_fees(
        &vault,
        &state,
        [1u8; 32],
        0,
        true,
        1000 + 86_399,
        Some(engine_obs(100_000)),
        &lines,
    );
    assert_eq!(r.unwrap_err(), FeeRouterError::DistributionWindowNotReached);
    // The boundary itself succeeds: 86,400 seconds after the last day began.
    let r2 = distribute_fees(
        &vault,
        &state,
        [1u8; 32],
        0,
        true,
        1000 + 86_400,
        Some(engine_obs(100_000)),
        &lines,
    );
    assert!(r2.is_ok());
}

#[test]
fn wrong_page_number_rejected() {
    let vault = engine_vault();
    let mut state = engine_state();
    state.last_distribution_ts = 86_400;
    state.current_page = 1;
    state.day_claimed_fees = 100_000;
    let lines = vec![engine_line(10, 300_000)];
    let r = distribute_fees(&vault, &state, [1u8; 32], 2, false, 90_000, None, &lines);
    assert_eq!(r.unwrap_err(), FeeRouterError::InvalidPageNumber);
    let r2 = distribute_fees(&vault, &state, [1u8; 32], 200, false, 90_000, None, &lines);
    assert_eq!(r2.unwrap_err(), FeeRouterError::InvalidPageNumber);
}

#[test]
fn multi_page_day_and_idempotent_replay() {
    let vault = engine_vault();
    let state = engine_state();
    let page0 = vec![engine_line(10, 300_000)];
    let page1 = vec![engine_line(11, 200_000)];

    // Page 0: f_locked = 3000, quote = 30,000, all to the single investor.
    let (s1, eff0) = distribute_fees(
        &vault,
        &state,
        [1u8; 32],
        0,
        false,
        86_400,
        Some(engine_obs(100_000)),
        &page0,
    )
        .unwrap();
    assert_eq!(eff0.investor_transfers.len(), 1);
    assert_eq!(eff0.investor_transfers[0].amount, 30_000);
    assert_eq!(s1.current_page, 1);
    assert!(!s1.day_complete);

    // Page 1 (final): f_locked = 2000, quote = 20,000; the creator receives
    // the exact remainder of the day's claim.
    let (s2, eff1) = distribute_fees(&vault, &s1, [1u8; 32], 1, true, 86_500, None, &page1)
        .unwrap();
    assert_eq!(eff1.investor_transfers.len(), 1);
    assert_eq!(eff1.investor_transfers[0].amount, 20_000);
    assert_eq!(eff1.creator_payout, 50_000);
    assert_eq!(s2.day_investor_total, 50_000);
    assert_eq!(s2.day_claimed_fees, 100_000);
    assert!(s2.day_complete);

    // Replaying the committed final page is a silent no-op: no transfers, no
    // counter movement.
    let (s3, eff2) = distribute_fees(&vault, &s2, [1u8; 32], 1, true, 86_600, None, &page1)
        .unwrap();
    assert_eq!(eff2.investor_transfers.len(), 0);
    assert_eq!(eff2.creator_payout, 0);
    assert!(eff2.page_summary.is_none());
    assert!(eff2.day_closed.is_none());
    assert_eq!(s3.day_investor_total, s2.day_investor_total);
    assert_eq!(s3.daily_distributed, s2.daily_distributed);
    assert_eq!(s3.carry_over, s2.carry_over);
    assert_eq!(s3.current_page, s2.current_page);
    assert_eq!(s3.pages_done_mask, s2.pages_done_mask);
    assert_eq!(s3.current_day, s2.current_day);
}

#[test]
fn daily_cap_diverts_overflowing_payout() {
    let mut vault = engine_vault();
    vault.daily_cap_lamports = Some(40_000);
    let state = engine_state();
    let lines = vec![engine_line(10, 300_000), engine_line(11, 200_000)];
    let (s2, eff) = distribute_fees(
        &vault,
        &state,
        [1u8; 32],
        0,
        true,
        86_400,
        Some(engine_obs(100_000)),
        &lines,
    )
        .unwrap();
    // 30,000 fits under the cap; 30,000 + 20,000 would breach it, so the
    // second amount lands in the carry-over, not in any transfer.
    assert_eq!(eff.investor_transfers.len(), 1);
    assert_eq!(eff.investor_transfers[0].amount, 30_000);
    assert_eq!(s2.daily_distributed, 30_000);
    assert!(s2.daily_distributed <= 40_000);
    assert_eq!(s2.carry_over, 20_000);
    assert_eq!(eff.creator_payout, 70_000);
}

#[test]
fn base_fee_increase_fails_page_zero() {
    let vault = engine_vault();
    let state = engine_state();
    let lines = vec![engine_line(10, 300_000)];
    let obs = ClaimObservation {
        quote_before: 0,
        quote_after: 100_000,
        base_before: 0,
        base_after: 5,
    };
    let r = distribute_fees(&vault, &state, [1u8; 32], 0, true, 86_400, Some(obs), &lines);
    assert_eq!(r.unwrap_err(), FeeRouterError::BaseFeesDetected);
}

#[test]
fn preexisting_base_balance_fails_page_zero() {
    let vault = engine_vault();
    let state = engine_state();
    let lines = vec![engine_line(10, 300_000)];
    let obs = ClaimObservation {
        quote_before: 0,
        quote_after: 100_000,
        base_before: 7,
        base_after: 7,
    };
    let r = distribute_fees(&vault, &state, [1u8; 32], 0, true, 86_400, Some(obs), &lines);
    assert_eq!(r.unwrap_err(), FeeRouterError::BaseFeesDetected);
}

#[test]
fn empty_claim_fails_page_zero() {
    let vault = engine_vault();
    let state = engine_state();
    let lines = vec![engine_line(10, 300_000)];
    let obs = ClaimObservation {
        quote_before: 50,
        quote_after: 50,
        base_before: 0,
        base_after: 0,
    };
    let r = distribute_fees(&vault, &state, [1u8; 32], 0, true, 86_400, Some(obs), &lines);
    assert_eq!(r.unwrap_err(), FeeRouterError::NoFeesToClaim);
}

#[test]
fn locked_sum_overflow_is_math_overflow() {
    let vault = engine_vault();
    let state = engine_state();
    let lines = vec![engine_line(10, u64::MAX), engine_line(11, u64::MAX)];
    let r = distribute_fees(
        &vault,
        &state,
        [1u8; 32],
        0,
        true,
        86_400,
        Some(engine_obs(100_000)),
        &lines,
    );
    assert_eq!(r.unwrap_err(), FeeRouterError::MathOverflow);
}

#[test]
fn claim_guard_returns_exact_delta() {
    let obs = ClaimObservation {
        quote_before: 250,
        quote_after: 750,
        base_before: 0,
        base_after: 0,
    };
    assert_eq!(claim_quote_fees(&obs).unwrap(), 500);
}

#[test]
fn rounding_remainder_goes_to_carry_over() {
    // Three investors with equal locked thirds of 999,999: the quote of 4999
    // splits as 1666 each, leaving 1 lamport of rounding for the carry-over.
    let vault = engine_vault();
    let state = engine_state();
    let lines = vec![
        engine_line(10, 333_333),
        engine_line(11, 333_333),
        engine_line(12, 333_333),
    ];
    let (s2, eff) = distribute_fees(
        &vault,
        &state,
        [1u8; 32],
        0,
        true,
        86_400,
        Some(engine_obs(100_000)),
        &lines,
    )
        .unwrap();
    // total_locked = 999,999; f_locked = 9999; eligible = 8000;
    // quote = 80,000; each amount = floor(80,000 * 333,333 / 999,999) = 26,666.
    assert_eq!(eff.investor_transfers.len(), 3);
    assert_eq!(eff.investor_transfers[0].amount, 26_666);
    assert_eq!(eff.investor_transfers[1].amount, 26_666);
    assert_eq!(eff.investor_transfers[2].amount, 26_666);
    assert_eq!(s2.carry_over, 80_000 - 3 * 26_666);
    assert_eq!(
        eff.investor_transfers.iter().map(|t| t.amount).sum::<u64>() + s2.carry_over,
        80_000
    );
    assert_eq!(eff.creator_payout, 100_000 - 3 * 26_666);
}

#[test]
fn state_machine_gate_and_bitmap() {
    let mut state = engine_state();
    assert!(state.can_distribute(86_400));
    assert!(!state.can_distribute(86_399));
    assert!(!state.is_page_done(5));
    state.mark_page_done(5);
    assert!(state.is_page_done(5));
    assert!(!state.is_page_done(4));
    // Pages outside the bitmap are never marked and never count as done.
    state.mark_page_done(200);
    assert!(!state.is_page_done(200));
    state.start_new_day(100_000);
    assert!(!state.is_page_done(5));
    assert_eq!(state.current_day, 1);
    assert_eq!(state.last_distribution_ts, 100_000);
    assert_eq!(state.pages_done_mask, 0);
}
