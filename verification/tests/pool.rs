use dlmm_fee_router::dlmm::{
    calculate_quote_only_ticks, deserialize_lb_pair, deserialize_position, extract_quote_fees,
    validate_quote_only_position, CumulativeFeeVolume, LbPair, Parameters, Position, ProtocolFee,
    VParameters, LB_PAIR_BYTES, POSITION_BYTES,
};
use dlmm_fee_router::errors::FeeRouterError;

fn zero_pool() -> LbPair {
    LbPair {
        parameters: Parameters { swap_fee_bps: 0, max_bin_id: 0, min_bin_id: 0, bin_count: 0 },
        v_parameters: VParameters { volatility_accumulator: 0, volatility_reference: 0 },
        bump_seed: [0u8; 1],
        bin_step_seed: [0u8; 2],
        pair_type: 0,
        active_id: 0,
        bin_step: 0,
        protocol_fee: ProtocolFee { amount_x: 0, amount_y: 0 },
        last_updated_at: 0,
        cumulative_fee_volume: CumulativeFeeVolume {
            cumulative_fee_x: 0,
            cumulative_fee_y: 0,
            cumulative_volume_x: 0,
            cumulative_volume_y: 0,
        },
        token_x_mint: [0u8; 32],
        token_y_mint: [0u8; 32],
        reserve_x: [0u8; 32],
        reserve_y: [0u8; 32],
        oracle: [0u8; 32],
    }
}

#[test]
fn test_quote_only_tick_calculation() {
    let mut pool = zero_pool();
    pool.active_id = 10000;
    pool.bin_step = 10;
    pool.parameters.min_bin_id = -10000;
    pool.parameters.max_bin_id = 20000;

    // Test with quote as token X
    let quote_mint = [1u8; 32];
    pool.token_x_mint = quote_mint;
    pool.token_y_mint = [2u8; 32];

    let result = calculate_quote_only_ticks(&pool, &quote_mint);
    assert!(result.is_ok());

    let (tick_lower, tick_upper) = result.unwrap();
    assert!(tick_upper < pool.active_id);
    assert!(tick_lower < tick_upper);

    // Test with quote as token Y
    pool.token_x_mint = [3u8; 32];
    pool.token_y_mint = quote_mint;

    let result = calculate_quote_only_ticks(&pool, &quote_mint);
    assert!(result.is_ok());

    let (tick_lower, tick_upper) = result.unwrap();
    assert!(tick_lower > pool.active_id);
    assert!(tick_lower < tick_upper);
}

#[test]
fn test_quote_fee_extraction() {
    let mut pool = zero_pool();
    let quote_mint = [1u8; 32];
    pool.token_x_mint = quote_mint;
    pool.token_y_mint = [2u8; 32];

    // Test valid case - only quote fees
    let result = extract_quote_fees(1000, 0, &pool, &quote_mint);
    assert!(result.is_ok());
    assert_eq!(result.unwrap(), 1000);

    // Test invalid case - base fees present
    let result = extract_quote_fees(1000, 500, &pool, &quote_mint);
    assert!(result.is_err());
}

#[test]
fn tick_values_are_exact() {
    let mut pool = zero_pool();
    pool.active_id = 10000;
    pool.bin_step = 10;
    pool.parameters.min_bin_id = -10000;
    pool.parameters.max_bin_id = 20000;
    let quote_mint = [1u8; 32];
    pool.token_x_mint = quote_mint;
    pool.token_y_mint = [2u8; 32];

    // Quote is X: one hundred bin steps strictly below the active bin.
    assert_eq!(calculate_quote_only_ticks(&pool, &quote_mint).unwrap(), (8990, 9990));

    // Quote is Y: one hundred bin steps strictly above the active bin.
    pool.token_x_mint = [3u8; 32];
    pool.token_y_mint = quote_mint;
    assert_eq!(calculate_quote_only_ticks(&pool, &quote_mint).unwrap(), (10010, 11010));
}

#[test]
fn tick_range_must_fit_pool_bounds() {
    let mut pool = zero_pool();
    pool.active_id = 0;
    pool.bin_step = 10;
    pool.parameters.min_bin_id = -500;
    pool.parameters.max_bin_id = 500;
    let quote_mint = [1u8; 32];
    pool.token_x_mint = quote_mint;
    pool.token_y_mint = [2u8; 32];
    // Lower tick would be -1010, below the pool's minimum bin.
    assert_eq!(
        calculate_quote_only_ticks(&pool, &quote_mint).unwrap_err(),
        FeeRouterError::InvalidPoolConfiguration
    );
}

#[test]
fn foreign_quote_mint_rejected() {
    let mut pool = zero_pool();
    pool.token_x_mint = [1u8; 32];
    pool.token_y_mint = [2u8; 32];
    assert_eq!(
        calculate_quote_only_ticks(&pool, &[9u8; 32]).unwrap_err(),
        FeeRouterError::InvalidQuoteMint
    );
}

#[test]
fn position_with_pending_base_fees_rejected() {
    let mut pool = zero_pool();
    let quote_mint = [1u8; 32];
    pool.token_x_mint = quote_mint;
    pool.token_y_mint = [2u8; 32];
    let mut position = Position {
        lb_pair: [0u8; 32],
        owner: [0u8; 32],
        fee_x_pending: 40,
        fee_y_pending: 0,
    };
    assert!(validate_quote_only_position(&position, &pool, &quote_mint).is_ok());
    position.fee_y_pending = 1;
    assert_eq!(
        validate_quote_only_position(&position, &pool, &quote_mint).unwrap_err(),
        FeeRouterError::BaseFeesNotAllowed
    );
    // With quote as Y, pending X fees are the base side.
    pool.token_x_mint = [3u8; 32];
    pool.token_y_mint = quote_mint;
    assert_eq!(
        validate_quote_only_position(&position, &pool, &quote_mint).unwrap_err(),
        FeeRouterError::BaseFeesNotAllowed
    );
    position.fee_x_pending = 0;
    assert!(validate_quote_only_position(&position, &pool, &quote_mint).is_ok());
}

#[test]
fn parse_lb_pair_record() {
    let mut data = vec![0u8; 8 + LB_PAIR_BYTES];
    // parameters: swap_fee_bps = 25, max_bin_id = 20000, min_bin_id = -10000,
    // bin_count = 100
    data[8] = 25;
    data[12] = 0x20;
    data[13] = 0x4E;
    data[16] = 0xF0;
    data[17] = 0xD8;
    data[18] = 0xFF;
    data[19] = 0xFF;
    data[20] = 100;
    // active_id = 10000, bin_step = 10
    data[52] = 0x10;
    data[53] = 0x27;
    data[56] = 10;
    // protocol fees and counters
    data[64] = 7;
    data[88] = 0xD2;
    data[89] = 0x04;
    data[104] = 99;
    for i in 176..208 {
        data[i] = 1;
    }
    for i in 208..240 {
        data[i] = 2;
    }
    for i in 240..272 {
        data[i] = 3;
    }
    for i in 272..304 {
        data[i] = 4;
    }
    for i in 336..368 {
        data[i] = 5;
    }

    let pool = deserialize_lb_pair(&data).unwrap();
    assert_eq!(pool.parameters.swap_fee_bps, 25);
    assert_eq!(pool.parameters.max_bin_id, 20000);
    assert_eq!(pool.parameters.min_bin_id, -10000);
    assert_eq!(pool.parameters.bin_count, 100);
    assert_eq!(pool.active_id, 10000);
    assert_eq!(pool.bin_step, 10);
    assert_eq!(pool.protocol_fee.amount_x, 7);
    assert_eq!(pool.protocol_fee.amount_y, 0);
    assert_eq!(pool.last_updated_at, 1234);
    assert_eq!(pool.cumulative_fee_volume.cumulative_fee_x, 99);
    assert_eq!(pool.token_x_mint, [1u8; 32]);
    assert_eq!(pool.token_y_mint, [2u8; 32]);
    assert_eq!(pool.reserve_x, [3u8; 32]);
    assert_eq!(pool.reserve_y, [4u8; 32]);
    assert_eq!(pool.oracle, [5u8; 32]);
}

#[test]
fn parse_lb_pair_rejects_wrong_length() {
    let short = vec![0u8; 100];
    assert_eq!(
        deserialize_lb_pair(&short).unwrap_err(),
        FeeRouterError::InvalidPoolConfiguration
    );
    let long = vec![0u8; 8 + LB_PAIR_BYTES + 1];
    assert_eq!(
        deserialize_lb_pair(&long).unwrap_err(),
        FeeRouterError::InvalidPoolConfiguration
    );
}

#[test]
fn parse_position_record() {
    let mut data = vec![0u8; 8 + POSITION_BYTES];
    for i in 8..40 {
        data[i] = 7;
    }
    for i in 40..72 {
        data[i] = 9;
    }
    // fee_x_pending = 1000, fee_y_pending = 500
    data[3448] = 0xE8;
    data[3449] = 0x03;
    data[3456] = 0xF4;
    data[3457] = 0x01;

    let position = deserialize_position(&data).unwrap();
    assert_eq!(position.lb_pair, [7u8; 32]);
    assert_eq!(position.owner, [9u8; 32]);
    assert_eq!(position.fee_x_pending, 1000);
    assert_eq!(position.fee_y_pending, 500);
}

#[test]
fn parse_position_rejects_wrong_length() {
    let short = vec![0u8; 8 + POSITION_BYTES - 1];
    assert_eq!(
        deserialize_position(&short).unwrap_err(),
        FeeRouterError::PositionNotInitialized
    );
}

#[test]
fn quote_fee_extraction_quote_as_y() {
    let mut pool = zero_pool();
    let quote_mint = [1u8; 32];
    pool.token_x_mint = [2u8; 32];
    pool.token_y_mint = quote_mint;
    assert_eq!(extract_quote_fees(0, 800, &pool, &quote_mint).unwrap(), 800);
    assert_eq!(
        extract_quote_fees(3, 800, &pool, &quote_mint).unwrap_err(),
        FeeRouterError::BaseFeesNotAllowed
    );
}
