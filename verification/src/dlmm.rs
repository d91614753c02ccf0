//! Model of the external DLMM pool and position, and the pure rules that bind
//! an honorary quote-only position to a pool: choosing a bin range that can
//! only accrue quote fees, validating a position's pending fees, and
//! extracting the quote side of a claimed pair.
//!
//! Pool and position are held as plain values. The stored on-ledger records
//! are fixed byte layouts; `deserialize_lb_pair` and `deserialize_position`
//! read them field by field.

use vstd::prelude::*;

use crate::errors::FeeRouterError;

verus! {

/// Static pool parameters.
#[derive(Clone, Copy, Debug)]
pub struct Parameters {
    pub swap_fee_bps: u16,
    pub max_bin_id: i32,
    pub min_bin_id: i32,
    pub bin_count: u16,
}

/// Volatility tracking parameters.
#[derive(Clone, Copy, Debug)]
pub struct VParameters {
    pub volatility_accumulator: u32,
    pub volatility_reference: u32,
}

/// Protocol fees pending in the pool, per token.
#[derive(Clone, Copy, Debug)]
pub struct ProtocolFee {
    pub amount_x: u64,
    pub amount_y: u64,
}

/// Lifetime fee and volume counters of the pool.
#[derive(Clone, Copy, Debug)]
pub struct CumulativeFeeVolume {
    pub cumulative_fee_x: u128,
    pub cumulative_fee_y: u128,
    pub cumulative_volume_x: u128,
    pub cumulative_volume_y: u128,
}

/// The DLMM pool state, as far as this engine reads it.
#[derive(Clone, Copy, Debug)]
pub struct LbPair {
    pub parameters: Parameters,
    pub v_parameters: VParameters,
    pub bump_seed: [u8; 1],
    pub bin_step_seed: [u8; 2],
    pub pair_type: u8,
    pub active_id: i32,
    pub bin_step: u16,
    pub protocol_fee: ProtocolFee,
    pub last_updated_at: i64,
    pub cumulative_fee_volume: CumulativeFeeVolume,
    pub token_x_mint: [u8; 32],
    pub token_y_mint: [u8; 32],
    pub reserve_x: [u8; 32],
    pub reserve_y: [u8; 32],
    pub oracle: [u8; 32],
}

/// A position in the pool, reduced to the fields the engine reads. The stored
/// record also carries per-bin liquidity share and fee tables that this
/// engine never consults.
#[derive(Clone, Copy, Debug)]
pub struct Position {
    pub lb_pair: [u8; 32],
    pub owner: [u8; 32],
    pub fee_x_pending: u64,
    pub fee_y_pending: u64,
}

/// Byte length of a stored pool record, after its 8-byte discriminator.
pub const LB_PAIR_BYTES: usize = 496;

/// Byte length of a stored position record, after its 8-byte discriminator.
/// The bulk is three per-bin tables of seventy 16-byte entries each.
pub const POSITION_BYTES: usize = 3488;

/// A little-endian 16-bit integer at `off`.
pub open spec fn spec_le_u16(b: Seq<u8>, off: int) -> u16 {
    (b[off] + b[off + 1] * 0x100) as u16
}

/// A little-endian 32-bit integer at `off`.
pub open spec fn spec_le_u32(b: Seq<u8>, off: int) -> u32 {
    (b[off] + b[off + 1] * 0x100 + b[off + 2] * 0x10000 + b[off + 3] * 0x1000000) as u32
}

/// A little-endian 64-bit integer at `off`.
pub open spec fn spec_le_u64(b: Seq<u8>, off: int) -> u64 {
    (spec_le_u32(b, off) + spec_le_u32(b, off + 4) * 0x1_0000_0000) as u64
}

/// A little-endian 128-bit integer at `off`.
pub open spec fn spec_le_u128(b: Seq<u8>, off: int) -> u128 {
    (spec_le_u64(b, off) + spec_le_u64(b, off + 8) * 0x1_0000_0000_0000_0000) as u128
}

/// A little-endian signed 32-bit integer at `off` (two's complement).
pub open spec fn spec_le_i32(b: Seq<u8>, off: int) -> i32 {
    spec_le_u32(b, off) as i32
}

/// A little-endian signed 64-bit integer at `off` (two's complement).
pub open spec fn spec_le_i64(b: Seq<u8>, off: int) -> i64 {
    spec_le_u64(b, off) as i64
}

fn read_u16_le(data: &[u8], off: usize) -> (r: u16)
    requires
        off + 2 <= data@.len(),
    ensures
        r == spec_le_u16(data@, off as int),
{
    (data[off] as u16) + (data[off + 1] as u16) * 0x100
}

fn read_u32_le(data: &[u8], off: usize) -> (r: u32)
    requires
        off + 4 <= data@.len(),
    ensures
        r == spec_le_u32(data@, off as int),
{
    (data[off] as u32) + (data[off + 1] as u32) * 0x100 + (data[off + 2] as u32) * 0x10000 + (
    data[off + 3] as u32) * 0x1000000
}

fn read_u64_le(data: &[u8], off: usize) -> (r: u64)
    requires
        off + 8 <= data@.len(),
    ensures
        r == spec_le_u64(data@, off as int),
{
    let n = data.len();
    let lo = read_u32_le(data, off);
    let hi = read_u32_le(data, off + 4);
    (lo as u64) + (hi as u64) * 0x1_0000_0000
}

fn read_u128_le(data: &[u8], off: usize) -> (r: u128)
    requires
        off + 16 <= data@.len(),
    ensures
        r == spec_le_u128(data@, off as int),
{
    let n = data.len();
    let lo = read_u64_le(data, off);
    let hi = read_u64_le(data, off + 8);
    (lo as u128) + (hi as u128) * 0x1_0000_0000_0000_0000
}

fn read_i32_le(data: &[u8], off: usize) -> (r: i32)
    requires
        off + 4 <= data@.len(),
    ensures
        r == spec_le_i32(data@, off as int),
{
    #[verifier::truncate] (read_u32_le(data, off) as i32)
}

fn read_i64_le(data: &[u8], off: usize) -> (r: i64)
    requires
        off + 8 <= data@.len(),
    ensures
        r == spec_le_i64(data@, off as int),
{
    #[verifier::truncate] (read_u64_le(data, off) as i64)
}

fn read_key(data: &[u8], off: usize) -> (r: [u8; 32])
    requires
        off + 32 <= data@.len(),
    ensures
        r@ == data@.subrange(off as int, off as int + 32),
{
    let n = data.len();
    let mut out: [u8; 32] = [0u8; 32];
    let mut k: usize = 0;
    while k < 32
        invariant
            0 <= k <= 32,
            off + 32 <= n == data@.len(),
            forall|j: int| 0 <= j < k ==> out@[j] == data@[off + j],
        decreases 32 - k,
    {
        out[k] = data[off + k];
        k = k + 1;
    }
    proof {
        assert(out@ =~= data@.subrange(off as int, off as int + 32));
    }
    out
}

/// Equality of two 32-byte identifiers.
pub open spec fn spec_key_eq(a: [u8; 32], b: [u8; 32]) -> bool {
    a@ == b@
}

/// Compare two 32-byte identifiers.
pub fn key_eq(a: &[u8; 32], b: &[u8; 32]) -> (r: bool)
    ensures
        r == spec_key_eq(*a, *b),
{
    let mut i: usize = 0;
    while i < 32
        invariant
            0 <= i <= 32,
            forall|j: int| 0 <= j < i ==> a@[j] == b@[j],
        decreases 32 - i,
    {
        if a[i] != b[i] {
            return false;
        }
        i = i + 1;
    }
    proof {
        assert(a@ =~= b@);
    }
    true
}

/// Saturating addition on bin identifiers.
pub open spec fn spec_sat_add_i32(a: i32, b: i32) -> i32 {
    if a + b > i32::MAX {
        i32::MAX
    } else if a + b < i32::MIN {
        i32::MIN
    } else {
        (a + b) as i32
    }
}

/// Saturating subtraction on bin identifiers.
pub open spec fn spec_sat_sub_i32(a: i32, b: i32) -> i32 {
    if a - b > i32::MAX {
        i32::MAX
    } else if a - b < i32::MIN {
        i32::MIN
    } else {
        (a - b) as i32
    }
}

fn sat_add_i32(a: i32, b: i32) -> (r: i32)
    ensures
        r == spec_sat_add_i32(a, b),
{
    match a.checked_add(b) {
        Some(v) => v,
        None => if b >= 0 {
            i32::MAX
        } else {
            i32::MIN
        },
    }
}

fn sat_sub_i32(a: i32, b: i32) -> (r: i32)
    ensures
        r == spec_sat_sub_i32(a, b),
{
    match a.checked_sub(b) {
        Some(v) => v,
        None => if b >= 0 {
            i32::MIN
        } else {
            i32::MAX
        },
    }
}

/// What a parsed pool record holds, field by field: the stored record is an
/// 8-byte discriminator followed by the pool struct's fixed little-endian
/// layout, interior padding included.
pub open spec fn spec_lb_pair_parsed(b: Seq<u8>, p: LbPair) -> bool {
    &&& p.parameters.swap_fee_bps == spec_le_u16(b, 8)
    &&& p.parameters.max_bin_id == spec_le_i32(b, 12)
    &&& p.parameters.min_bin_id == spec_le_i32(b, 16)
    &&& p.parameters.bin_count == spec_le_u16(b, 20)
    &&& p.v_parameters.volatility_accumulator == spec_le_u32(b, 24)
    &&& p.v_parameters.volatility_reference == spec_le_u32(b, 28)
    &&& p.bump_seed@[0] == b[48]
    &&& p.bin_step_seed@[0] == b[49]
    &&& p.bin_step_seed@[1] == b[50]
    &&& p.pair_type == b[51]
    &&& p.active_id == spec_le_i32(b, 52)
    &&& p.bin_step == spec_le_u16(b, 56)
    &&& p.protocol_fee.amount_x == spec_le_u64(b, 64)
    &&& p.protocol_fee.amount_y == spec_le_u64(b, 72)
    &&& p.last_updated_at == spec_le_i64(b, 88)
    &&& p.cumulative_fee_volume.cumulative_fee_x == spec_le_u128(b, 104)
    &&& p.cumulative_fee_volume.cumulative_fee_y == spec_le_u128(b, 120)
    &&& p.cumulative_fee_volume.cumulative_volume_x == spec_le_u128(b, 136)
    &&& p.cumulative_fee_volume.cumulative_volume_y == spec_le_u128(b, 152)
    &&& p.token_x_mint@ == b.subrange(176, 208)
    &&& p.token_y_mint@ == b.subrange(208, 240)
    &&& p.reserve_x@ == b.subrange(240, 272)
    &&& p.reserve_y@ == b.subrange(272, 304)
    &&& p.oracle@ == b.subrange(336, 368)
}

/// Parse a stored pool record.
///
/// Succeeds exactly on a record of the full fixed size (discriminator plus
/// struct bytes) and then returns every field as laid out; anything else is
/// `InvalidPoolConfiguration`.
pub fn deserialize_lb_pair(data: &[u8]) -> (r: Result<LbPair, FeeRouterError>)
    ensures
        data@.len() != 8 + LB_PAIR_BYTES ==> r == Err::<LbPair, FeeRouterError>(
            FeeRouterError::InvalidPoolConfiguration,
        ),
        data@.len() == 8 + LB_PAIR_BYTES ==> (r matches Ok(p) && spec_lb_pair_parsed(data@, p)),
{
    if data.len() != 8 + LB_PAIR_BYTES {
        return Err(FeeRouterError::InvalidPoolConfiguration);
    }
    Ok(
        LbPair {
            parameters: Parameters {
                swap_fee_bps: read_u16_le(data, 8),
                max_bin_id: read_i32_le(data, 12),
                min_bin_id: read_i32_le(data, 16),
                bin_count: read_u16_le(data, 20),
            },
            v_parameters: VParameters {
                volatility_accumulator: read_u32_le(data, 24),
                volatility_reference: read_u32_le(data, 28),
            },
            bump_seed: [data[48]],
            bin_step_seed: [data[49], data[50]],
            pair_type: data[51],
            active_id: read_i32_le(data, 52),
            bin_step: read_u16_le(data, 56),
            protocol_fee: ProtocolFee {
                amount_x: read_u64_le(data, 64),
                amount_y: read_u64_le(data, 72),
            },
            last_updated_at: read_i64_le(data, 88),
            cumulative_fee_volume: CumulativeFeeVolume {
                cumulative_fee_x: read_u128_le(data, 104),
                cumulative_fee_y: read_u128_le(data, 120),
                cumulative_volume_x: read_u128_le(data, 136),
                cumulative_volume_y: read_u128_le(data, 152),
            },
            token_x_mint: read_key(data, 176),
            token_y_mint: read_key(data, 208),
            reserve_x: read_key(data, 240),
            reserve_y: read_key(data, 272),
            oracle: read_key(data, 336),
        },
    )
}

/// What a parsed position record holds: identifiers up front, the pending fee
/// pair after the per-bin tables.
pub open spec fn spec_position_parsed(b: Seq<u8>, p: Position) -> bool {
    &&& p.lb_pair@ == b.subrange(8, 40)
    &&& p.owner@ == b.subrange(40, 72)
    &&& p.fee_x_pending == spec_le_u64(b, 3448)
    &&& p.fee_y_pending == spec_le_u64(b, 3456)
}

/// Parse a stored position record.
///
/// Succeeds exactly on a record of the full fixed size (discriminator plus
/// struct bytes); anything else is `PositionNotInitialized`.
pub fn deserialize_position(data: &[u8]) -> (r: Result<Position, FeeRouterError>)
    ensures
        data@.len() != 8 + POSITION_BYTES ==> r == Err::<Position, FeeRouterError>(
            FeeRouterError::PositionNotInitialized,
        ),
        data@.len() == 8 + POSITION_BYTES ==> (r matches Ok(p) && spec_position_parsed(data@, p)),
{
    if data.len() != 8 + POSITION_BYTES {
        return Err(FeeRouterError::PositionNotInitialized);
    }
    Ok(
        Position {
            lb_pair: read_key(data, 8),
            owner: read_key(data, 40),
            fee_x_pending: read_u64_le(data, 3448),
            fee_y_pending: read_u64_le(data, 3456),
        },
    )
}

/// The bin range an honorary position must cover so that it accrues fees only
/// in the quote token: strictly below the active bin when quote is token X,
/// strictly above it when quote is token Y, one hundred bin steps deep.
pub open spec fn spec_quote_only_ticks(pool: LbPair, quote_mint: [u8; 32]) -> Result<
    (i32, i32),
    FeeRouterError,
> {
    let is_quote_x = spec_key_eq(pool.token_x_mint, quote_mint);
    let is_quote_y = spec_key_eq(pool.token_y_mint, quote_mint);
    if !(is_quote_x || is_quote_y) {
        Err(FeeRouterError::InvalidQuoteMint)
    } else {
        let spacing = pool.bin_step as i32;
        let range = if is_quote_x {
            let upper = spec_sat_sub_i32(pool.active_id, spacing);
            let lower = spec_sat_sub_i32(upper, (spacing * 100) as i32);
            (lower, upper)
        } else {
            let lower = spec_sat_add_i32(pool.active_id, spacing);
            let upper = spec_sat_add_i32(lower, (spacing * 100) as i32);
            (lower, upper)
        };
        if range.0 < pool.parameters.min_bin_id {
            Err(FeeRouterError::InvalidPoolConfiguration)
        } else if range.1 > pool.parameters.max_bin_id {
            Err(FeeRouterError::InvalidPoolConfiguration)
        } else {
            Ok(range)
        }
    }
}

/// Calculate the bin range for quote-only fee accrual.
///
/// Fails with `InvalidQuoteMint` when the quote mint is neither pool token,
/// and with `InvalidPoolConfiguration` when the computed range leaves the
/// pool's bin bounds; otherwise returns `(lower, upper)` exactly as
/// `spec_quote_only_ticks` states.
pub fn calculate_quote_only_ticks(pool: &LbPair, quote_mint: &[u8; 32]) -> (r: Result<
    (i32, i32),
    FeeRouterError,
>)
    ensures
        r == spec_quote_only_ticks(*pool, *quote_mint),
{
    let is_quote_x = key_eq(&pool.token_x_mint, quote_mint);
    let is_quote_y = key_eq(&pool.token_y_mint, quote_mint);

    if !(is_quote_x || is_quote_y) {
        return Err(FeeRouterError::InvalidQuoteMint);
    }

    let current_tick = pool.active_id;
    let tick_spacing = pool.bin_step as i32;
    assert(tick_spacing * 100 <= i32::MAX) by (nonlinear_arith)
        requires
            0 <= tick_spacing <= 65535,
    ;

    let (tick_lower, tick_upper) = if is_quote_x {
        let tick_upper = sat_sub_i32(current_tick, tick_spacing);
        let tick_lower = sat_sub_i32(tick_upper, tick_spacing * 100);
        (tick_lower, tick_upper)
    } else {
        let tick_lower = sat_add_i32(current_tick, tick_spacing);
        let tick_upper = sat_add_i32(tick_lower, tick_spacing * 100);
        (tick_lower, tick_upper)
    };

    if tick_lower < pool.parameters.min_bin_id {
        return Err(FeeRouterError::InvalidPoolConfiguration);
    }
    if tick_upper > pool.parameters.max_bin_id {
        return Err(FeeRouterError::InvalidPoolConfiguration);
    }

    Ok((tick_lower, tick_upper))
}

/// Whether a position currently pends no base-denominated fees, given which
/// pool token is the quote.
pub open spec fn spec_validate_quote_only(position: Position, pool: LbPair, quote_mint: [u8; 32]) -> Result<
    (),
    FeeRouterError,
> {
    if spec_key_eq(pool.token_x_mint, quote_mint) {
        if position.fee_y_pending != 0 {
            Err(FeeRouterError::BaseFeesNotAllowed)
        } else {
            Ok(())
        }
    } else {
        if position.fee_x_pending != 0 {
            Err(FeeRouterError::BaseFeesNotAllowed)
        } else {
            Ok(())
        }
    }
}

/// Validate that a position pends no base fees: when quote is token X the
/// position must pend no Y fees, otherwise no X fees.
pub fn validate_quote_only_position(position: &Position, pool: &LbPair, quote_mint: &[u8; 32]) -> (r: Result<
    (),
    FeeRouterError,
>)
    ensures
        r == spec_validate_quote_only(*position, *pool, *quote_mint),
{
    let is_quote_x = key_eq(&pool.token_x_mint, quote_mint);

    if is_quote_x {
        if position.fee_y_pending != 0 {
            return Err(FeeRouterError::BaseFeesNotAllowed);
        }
    } else {
        if position.fee_x_pending != 0 {
            return Err(FeeRouterError::BaseFeesNotAllowed);
        }
    }

    Ok(())
}

/// The quote side of a claimed `(x, y)` fee pair, provided the base side is
/// zero.
pub open spec fn spec_extract_quote_fees(claimed_x: u64, claimed_y: u64, pool: LbPair, quote_mint: [u8; 32]) -> Result<
    u64,
    FeeRouterError,
> {
    if spec_key_eq(pool.token_x_mint, quote_mint) {
        if claimed_y != 0 {
            Err(FeeRouterError::BaseFeesNotAllowed)
        } else {
            Ok(claimed_x)
        }
    } else {
        if claimed_x != 0 {
            Err(FeeRouterError::BaseFeesNotAllowed)
        } else {
            Ok(claimed_y)
        }
    }
}

/// Extract the quote side of claimed amounts; any base-side amount is
/// `BaseFeesNotAllowed`.
pub fn extract_quote_fees(claimed_x: u64, claimed_y: u64, pool: &LbPair, quote_mint: &[u8; 32]) -> (r: Result<
    u64,
    FeeRouterError,
>)
    ensures
        r == spec_extract_quote_fees(claimed_x, claimed_y, *pool, *quote_mint),
{
    let is_quote_x = key_eq(&pool.token_x_mint, quote_mint);

    if is_quote_x {
        if claimed_y != 0 {
            return Err(FeeRouterError::BaseFeesNotAllowed);
        }
        Ok(claimed_x)
    } else {
        if claimed_x != 0 {
            return Err(FeeRouterError::BaseFeesNotAllowed);
        }
        Ok(claimed_y)
    }
}

} // verus!
