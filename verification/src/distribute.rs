//! The distribution orchestrator: one page operation, end to end, as a pure
//! transition from `(vault, state, request)` to `(new state, effects)`.
//!
//! The caller performs the external work — claiming fees, reading locked
//! balances, moving tokens — and commits one page's state change and effects
//! as a single atomic unit of work. The engine never applies anything
//! partially: an error returns the inputs untouched, and replaying an
//! already-committed final page is a silent no-op with empty effects.

use vstd::prelude::*;

use crate::claim_guard::{claim_quote_fees, spec_claim_quote_fees, ClaimObservation};
use crate::constants::{MAX_BPS, MAX_INVESTORS_PER_PAGE, MAX_PAGES_PER_DAY, SECONDS_PER_DAY};
use crate::distribution::DistributionState;
use crate::errors::FeeRouterError;
use crate::events::{CreatorPayoutDayClosed, InvestorPayout, InvestorPayoutPage, QuoteFeesClaimed};
use crate::investor::InvestorLine;
use crate::math::{
    amount_seq, lemma_amounts_sum_le_quote, lemma_amounts_take_le_quote, lemma_sum_prefix_le,
    lemma_sum_take_step, locked_seq, sum_seq,
};
use crate::vault::Vault;

use vstd::arithmetic::div_mod::lemma_div_pos_is_pos;
use vstd::arithmetic::mul::lemma_mul_nonnegative;

verus! {

/// One investor's payout line, computed while a page is processed.
#[derive(Clone, Copy, Debug)]
pub struct InvestorPayoutInfo {
    /// Investor wallet address.
    pub investor: [u8; 32],
    /// Computed payout amount.
    pub amount: u64,
    /// Locked balance reported at claim time.
    pub locked_amount: u64,
    /// Pro-rata weight (the locked balance).
    pub weight: u64,
}

/// Everything a committed page asks the caller to perform and publish.
#[derive(Debug)]
pub struct PageEffects {
    /// The day's claim notification, present exactly at page 0.
    pub quote_fees_claimed: Option<QuoteFeesClaimed>,
    /// One transfer (and notification) per investor actually paid.
    pub investor_transfers: Vec<InvestorPayout>,
    /// The page summary notification; absent on a replayed page.
    pub page_summary: Option<InvestorPayoutPage>,
    /// Amount to transfer to the creator; zero unless the final page closed
    /// the day with a remainder.
    pub creator_payout: u64,
    /// The day-closed notification, present exactly on the final page.
    pub day_closed: Option<CreatorPayoutDayClosed>,
}

/// The mathematical image of one page operation's outcome.
pub struct PageOutcome {
    pub state: DistributionState,
    pub transfers: Seq<InvestorPayout>,
    pub creator_payout: u64,
    pub quote_fees_claimed: Option<QuoteFeesClaimed>,
    pub page_summary: Option<InvestorPayoutPage>,
    pub day_closed: Option<CreatorPayoutDayClosed>,
}

/// Whether returned effects realize an outcome.
pub open spec fn effects_match(eff: PageEffects, out: PageOutcome) -> bool {
    &&& eff.investor_transfers@ == out.transfers
    &&& eff.creator_payout == out.creator_payout
    &&& eff.quote_fees_claimed == out.quote_fees_claimed
    &&& eff.page_summary == out.page_summary
    &&& eff.day_closed == out.day_closed
}

/// Whether an amount would push the day's distribution past a configured cap.
pub open spec fn spec_capped(cap: Option<u64>, daily: int, amount: int) -> bool {
    match cap {
        Some(c) => daily + amount > c,
        None => false,
    }
}

/// The dust-and-cap policy over the first `n` amounts of a page, as the
/// triple `(daily_distributed, carry_over, paid_total)`: an amount below the
/// dust threshold or over the remaining cap room is diverted to the
/// carry-over, any other amount is paid and counted against the cap.
pub open spec fn spec_policy(
    amounts: Seq<int>,
    min_payout: u64,
    cap: Option<u64>,
    daily0: int,
    carry0: int,
    n: int,
) -> (int, int, int)
    decreases n,
{
    if n <= 0 {
        (daily0, carry0, 0)
    } else {
        let prev = spec_policy(amounts, min_payout, cap, daily0, carry0, n - 1);
        let a = amounts[n - 1];
        if a < min_payout {
            (prev.0, prev.1 + a, prev.2)
        } else if spec_capped(cap, prev.0, a) {
            (prev.0, prev.1 + a, prev.2)
        } else {
            (prev.0 + a, prev.1, prev.2 + a)
        }
    }
}

/// Whether line `i` of a page passes the dust and cap checks and is paid.
pub open spec fn spec_line_paid(
    amounts: Seq<int>,
    min_payout: u64,
    cap: Option<u64>,
    daily0: int,
    carry0: int,
    i: int,
) -> bool {
    let prev = spec_policy(amounts, min_payout, cap, daily0, carry0, i);
    amounts[i] >= min_payout && !spec_capped(cap, prev.0, amounts[i])
}

/// The transfers of a page's first `n` lines, in page order.
pub open spec fn spec_transfers(
    lines: Seq<InvestorLine>,
    amounts: Seq<int>,
    min_payout: u64,
    cap: Option<u64>,
    daily0: int,
    carry0: int,
    vault_id: [u8; 32],
    now: i64,
    n: int,
) -> Seq<InvestorPayout>
    decreases n,
{
    if n <= 0 {
        Seq::empty()
    } else {
        let prefix = spec_transfers(
            lines,
            amounts,
            min_payout,
            cap,
            daily0,
            carry0,
            vault_id,
            now,
            n - 1,
        );
        if spec_line_paid(amounts, min_payout, cap, daily0, carry0, n - 1) {
            prefix.push(
                InvestorPayout {
                    vault_id: vault_id,
                    investor: lines[n - 1].investor,
                    amount: amounts[n - 1] as u64,
                    locked_amount: lines[n - 1].locked_amount,
                    weight: lines[n - 1].locked_amount,
                    timestamp: now,
                },
            )
        } else {
            prefix
        }
    }
}

/// Whether any single pro-rata numerator of the page overflows.
pub open spec fn spec_amount_overflow(lines: Seq<InvestorLine>, quote: u64, total_locked: u64) -> bool {
    total_locked > 0 && exists|k: int|
        0 <= k < lines.len() && #[trigger] (quote * lines[k].locked_amount) > u64::MAX
}

/// A non-negative saturating increment.
pub open spec fn spec_sat_inc_u64(x: u64) -> u64 {
    if x == u64::MAX {
        u64::MAX
    } else {
        (x + 1) as u64
    }
}

/// A non-negative saturating increment.
pub open spec fn spec_sat_inc_u32(x: u32) -> u32 {
    if x == u32::MAX {
        u32::MAX
    } else {
        (x + 1) as u32
    }
}

/// The payout arithmetic and policy of one validated page, applied to the
/// running state `s1` (for page 0: the state right after the new day began
/// and the claim was recorded). Any overflow of the exact integer
/// computations is `MathOverflow` and produces nothing.
pub open spec fn spec_apply_page(
    vault: Vault,
    s1: DistributionState,
    vault_id: [u8; 32],
    page: u32,
    is_final_page: bool,
    now: i64,
    lines: Seq<InvestorLine>,
) -> Result<PageOutcome, FeeRouterError> {
    let total_locked_int = sum_seq(locked_seq(lines));
    if total_locked_int > u64::MAX {
        Err(FeeRouterError::MathOverflow)
    } else {
        let total_locked = total_locked_int as u64;
        if vault.total_investor_allocation > 0 && total_locked * (MAX_BPS as int) > u64::MAX {
            Err(FeeRouterError::MathOverflow)
        } else {
            let f_locked = if vault.total_investor_allocation == 0 {
                0u64
            } else {
                ((total_locked * (MAX_BPS as int)) / (vault.total_investor_allocation as int)) as u64
            };
            let eligible = if (vault.investor_fee_share_bps as u64) <= f_locked {
                vault.investor_fee_share_bps as u64
            } else {
                f_locked
            };
            if s1.day_claimed_fees * eligible > u64::MAX {
                Err(FeeRouterError::MathOverflow)
            } else {
                let quote = ((s1.day_claimed_fees * eligible) / (MAX_BPS as int)) as u64;
                if spec_amount_overflow(lines, quote, total_locked) {
                    Err(FeeRouterError::MathOverflow)
                } else {
                    let amounts = amount_seq(lines, quote, total_locked);
                    let remainder = quote - sum_seq(amounts);
                    if s1.carry_over + remainder > u64::MAX {
                        Err(FeeRouterError::MathOverflow)
                    } else {
                        let daily0 = s1.daily_distributed as int;
                        let carry0 = s1.carry_over + remainder;
                        let n = lines.len() as int;
                        let fold = spec_policy(
                            amounts,
                            vault.min_payout_lamports,
                            vault.daily_cap_lamports,
                            daily0,
                            carry0,
                            n,
                        );
                        if fold.0 > u64::MAX || fold.1 > u64::MAX {
                            Err(FeeRouterError::MathOverflow)
                        } else if s1.day_investor_total + fold.2 > u64::MAX {
                            Err(FeeRouterError::MathOverflow)
                        } else {
                            let day_total = (s1.day_investor_total + fold.2) as u64;
                            let creator = if is_final_page {
                                if s1.day_claimed_fees >= day_total {
                                    (s1.day_claimed_fees - day_total) as u64
                                } else {
                                    0u64
                                }
                            } else {
                                0u64
                            };
                            let s2 = DistributionState {
                                daily_distributed: fold.0 as u64,
                                carry_over: fold.1 as u64,
                                day_investor_total: day_total,
                                current_page: if is_final_page {
                                    s1.current_page
                                } else {
                                    (page + 1) as u32
                                },
                                day_complete: if is_final_page {
                                    true
                                } else {
                                    s1.day_complete
                                },
                                page_cursor: if is_final_page {
                                    s1.page_cursor
                                } else {
                                    spec_sat_inc_u64(s1.page_cursor)
                                },
                                pages_processed: if is_final_page {
                                    s1.pages_processed
                                } else {
                                    spec_sat_inc_u32(s1.pages_processed)
                                },
                                pages_done_mask: s1.pages_done_mask | (1u128 << (page as u128)),
                                ..s1
                            };
                            Ok(
                                PageOutcome {
                                    state: s2,
                                    transfers: spec_transfers(
                                        lines,
                                        amounts,
                                        vault.min_payout_lamports,
                                        vault.daily_cap_lamports,
                                        daily0,
                                        carry0,
                                        vault_id,
                                        now,
                                        n,
                                    ),
                                    creator_payout: creator,
                                    quote_fees_claimed: if page == 0 {
                                        Some(
                                            QuoteFeesClaimed {
                                                vault_id: vault_id,
                                                amount_claimed: s1.day_claimed_fees,
                                                carry_over_prev: s1.carry_over,
                                                timestamp: now,
                                                distribution_day: s1.current_day,
                                            },
                                        )
                                    } else {
                                        None
                                    },
                                    page_summary: Some(
                                        InvestorPayoutPage {
                                            vault_id: vault_id,
                                            page: page,
                                            total_payout: fold.2 as u64,
                                            investor_count: lines.len() as u32,
                                            daily_distributed_after: fold.0 as u64,
                                            timestamp: now,
                                        },
                                    ),
                                    day_closed: if is_final_page {
                                        Some(
                                            CreatorPayoutDayClosed {
                                                vault_id: vault_id,
                                                creator_payout: creator,
                                                total_distributed_to_investors: day_total,
                                                distribution_day: s1.current_day,
                                                timestamp: now,
                                            },
                                        )
                                    } else {
                                        None
                                    },
                                },
                            )
                        }
                    }
                }
            }
        }
    }
}

/// The outcome of replaying an already-committed page: the state as it
/// stands, and nothing to do.
pub open spec fn spec_noop_outcome(s1: DistributionState) -> PageOutcome {
    PageOutcome {
        state: s1,
        transfers: Seq::empty(),
        creator_payout: 0u64,
        quote_fees_claimed: None,
        page_summary: None,
        day_closed: None,
    }
}

/// Page-number validation and the idempotent replay short-circuit, applied to
/// the running state `s1`.
pub open spec fn spec_distribute_validated(
    vault: Vault,
    s1: DistributionState,
    vault_id: [u8; 32],
    page: u32,
    is_final_page: bool,
    now: i64,
    lines: Seq<InvestorLine>,
) -> Result<PageOutcome, FeeRouterError> {
    if page != s1.current_page || page >= MAX_PAGES_PER_DAY {
        Err(FeeRouterError::InvalidPageNumber)
    } else if s1.spec_page_done(page) {
        Ok(spec_noop_outcome(s1))
    } else {
        spec_apply_page(vault, s1, vault_id, page, is_final_page, now, lines)
    }
}

/// The complete transition of one page operation. For page 0 the 24-hour
/// gate is enforced first; then the claim observation is judged, a new day
/// begins, and the claimed amount is recorded, all before the page itself is
/// validated and applied. Every error leaves the state untouched.
pub open spec fn spec_distribute(
    vault: Vault,
    state: DistributionState,
    vault_id: [u8; 32],
    page: u32,
    is_final_page: bool,
    now: i64,
    obs: ClaimObservation,
    lines: Seq<InvestorLine>,
) -> Result<PageOutcome, FeeRouterError> {
    if page == 0 {
        if !state.spec_can_distribute(now) {
            Err(FeeRouterError::DistributionWindowNotReached)
        } else {
            match spec_claim_quote_fees(obs) {
                Err(e) => Err(e),
                Ok(claimed) => spec_distribute_validated(
                    vault,
                    DistributionState { day_claimed_fees: claimed, ..state.spec_started(now) },
                    vault_id,
                    page,
                    is_final_page,
                    now,
                    lines,
                ),
            }
        }
    } else {
        spec_distribute_validated(vault, state, vault_id, page, is_final_page, now, lines)
    }
}

/// The observation a page-0 request carries; pages past 0 claim nothing and
/// any placeholder value is ignored.
pub open spec fn spec_obs(claim: Option<ClaimObservation>) -> ClaimObservation {
    match claim {
        Some(o) => o,
        None => ClaimObservation { quote_before: 0, quote_after: 0, base_before: 0, base_after: 0 },
    }
}

/// The policy's three components never decrease as more lines are processed.
pub proof fn lemma_policy_monotone(
    amounts: Seq<int>,
    min_payout: u64,
    cap: Option<u64>,
    daily0: int,
    carry0: int,
    m: int,
    n: int,
)
    requires
        0 <= m <= n <= amounts.len(),
        forall|i: int| 0 <= i < amounts.len() ==> amounts[i] >= 0,
    ensures
        spec_policy(amounts, min_payout, cap, daily0, carry0, m).0 <= spec_policy(
            amounts,
            min_payout,
            cap,
            daily0,
            carry0,
            n,
        ).0,
        spec_policy(amounts, min_payout, cap, daily0, carry0, m).1 <= spec_policy(
            amounts,
            min_payout,
            cap,
            daily0,
            carry0,
            n,
        ).1,
        spec_policy(amounts, min_payout, cap, daily0, carry0, m).2 <= spec_policy(
            amounts,
            min_payout,
            cap,
            daily0,
            carry0,
            n,
        ).2,
    decreases n - m,
{
    if m < n {
        lemma_policy_monotone(amounts, min_payout, cap, daily0, carry0, m, n - 1);
    }
}

/// The paid total is exactly the growth of the daily counter.
pub proof fn lemma_policy_paid_daily(
    amounts: Seq<int>,
    min_payout: u64,
    cap: Option<u64>,
    daily0: int,
    carry0: int,
    n: int,
)
    requires
        0 <= n <= amounts.len(),
    ensures
        spec_policy(amounts, min_payout, cap, daily0, carry0, n).0 == daily0 + spec_policy(
            amounts,
            min_payout,
            cap,
            daily0,
            carry0,
            n,
        ).2,
    decreases n,
{
    if n > 0 {
        lemma_policy_paid_daily(amounts, min_payout, cap, daily0, carry0, n - 1);
    }
}

/// Every amount of a page lands either in the carry-over or in the paid
/// total: the policy conserves the amounts it is fed.
pub proof fn lemma_policy_conservation(
    amounts: Seq<int>,
    min_payout: u64,
    cap: Option<u64>,
    daily0: int,
    carry0: int,
    n: int,
)
    requires
        0 <= n <= amounts.len(),
    ensures
        spec_policy(amounts, min_payout, cap, daily0, carry0, n).1 + spec_policy(
            amounts,
            min_payout,
            cap,
            daily0,
            carry0,
            n,
        ).2 == carry0 + sum_seq(amounts.take(n)),
    decreases n,
{
    if n > 0 {
        lemma_policy_conservation(amounts, min_payout, cap, daily0, carry0, n - 1);
        lemma_sum_take_step(amounts, n - 1);
    } else {
        assert(amounts.take(0) =~= Seq::empty());
    }
}

/// A configured daily cap is never exceeded by the policy.
pub proof fn lemma_policy_cap(
    amounts: Seq<int>,
    min_payout: u64,
    c: u64,
    daily0: int,
    carry0: int,
    n: int,
)
    requires
        0 <= n <= amounts.len(),
        daily0 <= c,
    ensures
        spec_policy(amounts, min_payout, Some(c), daily0, carry0, n).0 <= c,
    decreases n,
{
    if n > 0 {
        lemma_policy_cap(amounts, min_payout, c, daily0, carry0, n - 1);
    }
}

/// Pro-rata amounts are never negative.
pub proof fn lemma_amounts_nonneg(lines: Seq<InvestorLine>, quote: u64, total_locked: u64)
    ensures
        forall|i: int|
            0 <= i < lines.len() ==> amount_seq(lines, quote, total_locked)[i] >= 0,
{
    assert forall|i: int|
        0 <= i < lines.len() implies amount_seq(lines, quote, total_locked)[i] >= 0 by {
        if total_locked > 0 {
            lemma_mul_nonnegative(quote as int, lines[i].locked_amount as int);
            lemma_div_pos_is_pos(quote * lines[i].locked_amount, total_locked as int);
        }
    }
}

/// The share of a day's claimed fees that a page's investors are eligible
/// for, in basis points: the configured share, but never more than the
/// fraction of the original allocation that is still locked.
pub open spec fn spec_eligible_bps(vault: Vault, total_locked: int) -> int {
    let f_locked = if vault.total_investor_allocation == 0 {
        0
    } else {
        (total_locked * (MAX_BPS as int)) / (vault.total_investor_allocation as int)
    };
    if vault.investor_fee_share_bps as int <= f_locked {
        vault.investor_fee_share_bps as int
    } else {
        f_locked
    }
}

/// The investor fee quote of one page: the day's claimed fees scaled by the
/// eligible share.
pub open spec fn spec_investor_fee_quote(
    vault: Vault,
    day_claimed_fees: u64,
    lines: Seq<InvestorLine>,
) -> int {
    (day_claimed_fees * spec_eligible_bps(vault, sum_seq(locked_seq(lines)))) / (MAX_BPS as int)
}

/// Total amount of a list of payouts.
pub open spec fn sum_payout_amounts(s: Seq<InvestorPayout>) -> int
    decreases s.len(),
{
    if s.len() == 0 {
        0
    } else {
        sum_payout_amounts(s.drop_last()) + s.last().amount
    }
}

/// The transfers of a page sum to exactly the policy's paid total.
proof fn lemma_transfers_sum_paid(
    lines: Seq<InvestorLine>,
    amounts: Seq<int>,
    min_payout: u64,
    cap: Option<u64>,
    daily0: int,
    carry0: int,
    vault_id: [u8; 32],
    now: i64,
    n: int,
)
    requires
        0 <= n <= lines.len(),
        amounts.len() == lines.len(),
        forall|i: int| 0 <= i < amounts.len() ==> 0 <= #[trigger] amounts[i] <= u64::MAX,
    ensures
        sum_payout_amounts(
            spec_transfers(lines, amounts, min_payout, cap, daily0, carry0, vault_id, now, n),
        ) == spec_policy(amounts, min_payout, cap, daily0, carry0, n).2,
    decreases n,
{
    if n > 0 {
        lemma_transfers_sum_paid(
            lines,
            amounts,
            min_payout,
            cap,
            daily0,
            carry0,
            vault_id,
            now,
            n - 1,
        );
        if spec_line_paid(amounts, min_payout, cap, daily0, carry0, n - 1) {
            let prefix = spec_transfers(
                lines,
                amounts,
                min_payout,
                cap,
                daily0,
                carry0,
                vault_id,
                now,
                n - 1,
            );
            let x = InvestorPayout {
                vault_id: vault_id,
                investor: lines[n - 1].investor,
                amount: amounts[n - 1] as u64,
                locked_amount: lines[n - 1].locked_amount,
                weight: lines[n - 1].locked_amount,
                timestamp: now,
            };
            assert(prefix.push(x).drop_last() =~= prefix);
        }
    }
}

/// Exact conservation, page by page: on any successfully applied page, what
/// the page's transfers hand to investors plus what the page adds to the
/// carry-over equals the page's investor fee quote exactly. No amount is
/// lost and none is counted twice.
pub proof fn lemma_page_conservation(
    vault: Vault,
    s1: DistributionState,
    vault_id: [u8; 32],
    page: u32,
    is_final_page: bool,
    now: i64,
    lines: Seq<InvestorLine>,
)
    ensures
        spec_apply_page(vault, s1, vault_id, page, is_final_page, now, lines) matches Ok(out)
            ==> {
            &&& out.state.carry_over + sum_payout_amounts(out.transfers) == s1.carry_over
                + spec_investor_fee_quote(vault, s1.day_claimed_fees, lines)
            &&& out.state.day_claimed_fees == s1.day_claimed_fees
            &&& out.page_summary is Some
        },
{
    let r = spec_apply_page(vault, s1, vault_id, page, is_final_page, now, lines);
    if r is Ok {
        let out = r->Ok_0;
        let total_locked_int = sum_seq(locked_seq(lines));
        lemma_sum_nonneg_lines(lines);
        assert(0 <= total_locked_int <= u64::MAX);
        let total_locked = total_locked_int as u64;
        // Mirror the quote computation of `spec_apply_page` and relate it to
        // the mathematical quote.
        let f_locked = if vault.total_investor_allocation == 0 {
            0u64
        } else {
            ((total_locked * (MAX_BPS as int)) / (vault.total_investor_allocation as int)) as u64
        };
        if vault.total_investor_allocation > 0 {
            lemma_mul_nonnegative(total_locked as int, MAX_BPS as int);
            lemma_div_pos_is_pos(
                total_locked * (MAX_BPS as int),
                vault.total_investor_allocation as int,
            );
            vstd::arithmetic::div_mod::lemma_div_nonincreasing(
                total_locked * (MAX_BPS as int),
                vault.total_investor_allocation as int,
            );
        }
        assert(f_locked as int == if vault.total_investor_allocation == 0 {
            0int
        } else {
            (total_locked_int * (MAX_BPS as int)) / (vault.total_investor_allocation as int)
        });
        let eligible = if (vault.investor_fee_share_bps as u64) <= f_locked {
            vault.investor_fee_share_bps as u64
        } else {
            f_locked
        };
        assert(eligible as int == spec_eligible_bps(vault, total_locked_int));
        lemma_mul_nonnegative(s1.day_claimed_fees as int, eligible as int);
        lemma_div_pos_is_pos(s1.day_claimed_fees * eligible, MAX_BPS as int);
        vstd::arithmetic::div_mod::lemma_div_nonincreasing(
            s1.day_claimed_fees * eligible,
            MAX_BPS as int,
        );
        let quote = ((s1.day_claimed_fees * eligible) / (MAX_BPS as int)) as u64;
        assert(quote as int == spec_investor_fee_quote(vault, s1.day_claimed_fees, lines));
        let amounts = amount_seq(lines, quote, total_locked);
        let n = lines.len() as int;
        // Each amount fits in a u64.
        lemma_amounts_nonneg(lines, quote, total_locked);
        assert forall|i: int| 0 <= i < amounts.len() implies 0 <= #[trigger] amounts[i]
            <= u64::MAX by {
            if total_locked > 0 {
                assert(quote * lines[i].locked_amount <= u64::MAX);
                lemma_mul_nonnegative(quote as int, lines[i].locked_amount as int);
                vstd::arithmetic::div_mod::lemma_div_nonincreasing(
                    quote * lines[i].locked_amount,
                    total_locked as int,
                );
            }
        }
        lemma_amounts_sum_le_quote(lines, quote, total_locked);
        let daily0 = s1.daily_distributed as int;
        let remainder = quote - sum_seq(amounts);
        let carry0 = s1.carry_over + remainder;
        let min_payout = vault.min_payout_lamports;
        let cap = vault.daily_cap_lamports;
        let fold = spec_policy(amounts, min_payout, cap, daily0, carry0, n);
        lemma_policy_monotone(amounts, min_payout, cap, daily0, carry0, 0, n);
        assert(fold.1 >= carry0 && fold.2 >= 0);
        lemma_transfers_sum_paid(lines, amounts, min_payout, cap, daily0, carry0, vault_id, now, n);
        lemma_policy_conservation(amounts, min_payout, cap, daily0, carry0, n);
        assert(amounts.take(n) =~= amounts);
        assert(out.state.carry_over as int == fold.1);
        assert(sum_payout_amounts(out.transfers) == fold.2);
        assert(fold.1 + fold.2 == carry0 + sum_seq(amounts));
    }
}

/// Exact conservation at the public boundary: any page operation that
/// applied work (its effects carry a page summary) moves exactly the page's
/// investor fee quote, split between the investor transfers and the growth of
/// the carry-over, measured against the state the caller passed in.
pub proof fn lemma_distribute_conservation(
    vault: Vault,
    state: DistributionState,
    vault_id: [u8; 32],
    page: u32,
    is_final_page: bool,
    now: i64,
    obs: ClaimObservation,
    lines: Seq<InvestorLine>,
)
    ensures
        spec_distribute(vault, state, vault_id, page, is_final_page, now, obs, lines)
            matches Ok(out) ==> (out.page_summary is Some ==> out.state.carry_over
            + sum_payout_amounts(out.transfers) == state.carry_over + spec_investor_fee_quote(
            vault,
            out.state.day_claimed_fees,
            lines,
        )),
{
    let r = spec_distribute(vault, state, vault_id, page, is_final_page, now, obs, lines);
    if r is Ok && r->Ok_0.page_summary is Some {
        let s1 = if page == 0 {
            DistributionState {
                day_claimed_fees: spec_claim_quote_fees(obs)->Ok_0,
                ..state.spec_started(now)
            }
        } else {
            state
        };
        lemma_page_conservation(vault, s1, vault_id, page, is_final_page, now, lines);
    }
}

/// The locked balances of a roster sum to a non-negative total.
proof fn lemma_sum_nonneg_lines(lines: Seq<InvestorLine>)
    ensures
        sum_seq(locked_seq(lines)) >= 0,
{
    assert(forall|i: int| 0 <= i < locked_seq(lines).len() ==> locked_seq(lines)[i] >= 0);
    crate::math::lemma_sum_nonneg(locked_seq(lines));
}

/// Day conservation: a successfully applied final page closes the day, fixes
/// the creator payout to the exact remainder of the day's claim (saturating
/// at zero), and leaves the day's claimed total untouched. Whenever the
/// investors' day total does not exceed the claim — the only regime the
/// arithmetic is expected to reach — creator payout and investor total sum to
/// the claim exactly.
pub proof fn lemma_day_conservation(
    vault: Vault,
    s1: DistributionState,
    vault_id: [u8; 32],
    page: u32,
    now: i64,
    lines: Seq<InvestorLine>,
)
    ensures
        spec_apply_page(vault, s1, vault_id, page, true, now, lines) matches Ok(out) ==> {
            &&& out.state.day_complete
            &&& out.state.day_claimed_fees == s1.day_claimed_fees
            &&& out.creator_payout == if out.state.day_investor_total <= s1.day_claimed_fees {
                s1.day_claimed_fees - out.state.day_investor_total
            } else {
                0
            }
            &&& out.state.day_investor_total <= s1.day_claimed_fees
                ==> out.creator_payout + out.state.day_investor_total == s1.day_claimed_fees
        },
{
}

/// The 24-hour gate: a page-0 request before the window reopens always fails
/// with the window error, whatever else the request carries; nothing starts
/// and nothing changes. A failed claim does not reset the clock, so a
/// replayed page 0 of a committed day is gated the same way.
pub proof fn lemma_day_gate(
    vault: Vault,
    state: DistributionState,
    vault_id: [u8; 32],
    is_final_page: bool,
    now: i64,
    obs: ClaimObservation,
    lines: Seq<InvestorLine>,
)
    requires
        !state.spec_can_distribute(now),
    ensures
        spec_distribute(vault, state, vault_id, 0, is_final_page, now, obs, lines)
            == Err::<PageOutcome, FeeRouterError>(FeeRouterError::DistributionWindowNotReached),
{
}

/// Monotonic page order: a non-zero page that is not exactly the next
/// expected page — or lies beyond the bitmap's coverage — always fails, done
/// or not. Pages can never be skipped or reordered.
pub proof fn lemma_page_order(
    vault: Vault,
    state: DistributionState,
    vault_id: [u8; 32],
    page: u32,
    is_final_page: bool,
    now: i64,
    obs: ClaimObservation,
    lines: Seq<InvestorLine>,
)
    requires
        page != 0,
        page != state.current_page || page >= MAX_PAGES_PER_DAY,
    ensures
        spec_distribute(vault, state, vault_id, page, is_final_page, now, obs, lines)
            == Err::<PageOutcome, FeeRouterError>(FeeRouterError::InvalidPageNumber),
{
}

/// Idempotent replay: a non-zero page already marked done is a silent no-op —
/// the state comes back unchanged and there is nothing to transfer or
/// publish. (A page-0 replay is caught by the 24-hour gate instead; see
/// `lemma_day_gate`.)
pub proof fn lemma_replay_is_noop(
    vault: Vault,
    state: DistributionState,
    vault_id: [u8; 32],
    page: u32,
    is_final_page: bool,
    now: i64,
    obs: ClaimObservation,
    lines: Seq<InvestorLine>,
)
    requires
        page != 0,
        page == state.current_page,
        state.spec_page_done(page),
    ensures
        spec_distribute(vault, state, vault_id, page, is_final_page, now, obs, lines)
            == Ok::<PageOutcome, FeeRouterError>(spec_noop_outcome(state)),
        spec_noop_outcome(state).state == state,
        spec_noop_outcome(state).transfers.len() == 0,
{
}

/// Cap enforcement: with a daily cap configured and not yet exceeded, no
/// successful page operation ever pushes the day's distributed total past the
/// cap; amounts that would breach it land in the carry-over instead.
pub proof fn lemma_cap_enforced(
    vault: Vault,
    state: DistributionState,
    vault_id: [u8; 32],
    page: u32,
    is_final_page: bool,
    now: i64,
    obs: ClaimObservation,
    lines: Seq<InvestorLine>,
    c: u64,
)
    requires
        vault.daily_cap_lamports == Some(c),
        state.daily_distributed <= c,
    ensures
        spec_distribute(vault, state, vault_id, page, is_final_page, now, obs, lines)
            matches Ok(out) ==> out.state.daily_distributed <= c,
{
    let r = spec_distribute(vault, state, vault_id, page, is_final_page, now, obs, lines);
    if r is Ok {
        let s1 = if page == 0 {
            DistributionState {
                day_claimed_fees: spec_claim_quote_fees(obs)->Ok_0,
                ..state.spec_started(now)
            }
        } else {
            state
        };
        assert(s1.daily_distributed <= c);
        if !s1.spec_page_done(page) {
            // Mirror the values of `spec_apply_page` and bound the policy.
            let total_locked = (sum_seq(locked_seq(lines)) as u64);
            let f_locked = if vault.total_investor_allocation == 0 {
                0u64
            } else {
                ((total_locked * (MAX_BPS as int)) / (
                vault.total_investor_allocation as int)) as u64
            };
            let eligible = if (vault.investor_fee_share_bps as u64) <= f_locked {
                vault.investor_fee_share_bps as u64
            } else {
                f_locked
            };
            let quote = ((s1.day_claimed_fees * eligible) / (MAX_BPS as int)) as u64;
            let amounts = amount_seq(lines, quote, total_locked);
            let daily0 = s1.daily_distributed as int;
            let carry0 = s1.carry_over + (quote - sum_seq(amounts));
            let n = lines.len() as int;
            lemma_amounts_nonneg(lines, quote, total_locked);
            lemma_policy_monotone(amounts, vault.min_payout_lamports, Some(c), daily0, carry0, 0, n);
            lemma_policy_cap(amounts, vault.min_payout_lamports, c, daily0, carry0, n);
        }
    }
}

/// The quote-only guard: a page-0 request whose claim observation shows any
/// increase of the base treasury fails with `BaseFeesDetected`; no day
/// starts, nothing is transferred, nothing changes.
pub proof fn lemma_quote_only_guard(
    vault: Vault,
    state: DistributionState,
    vault_id: [u8; 32],
    is_final_page: bool,
    now: i64,
    obs: ClaimObservation,
    lines: Seq<InvestorLine>,
)
    requires
        state.spec_can_distribute(now),
        obs.base_after > obs.base_before,
    ensures
        spec_distribute(vault, state, vault_id, 0, is_final_page, now, obs, lines)
            == Err::<PageOutcome, FeeRouterError>(FeeRouterError::BaseFeesDetected),
{
}

/// Gather a page's roster into payout lines and total its locked balances.
///
/// Returns the exact sum of the reported locked balances together with one
/// payout line per investor (amounts not yet computed); fails with
/// `MathOverflow` exactly when the sum does not fit.
pub fn calculate_investor_payouts(lines: &Vec<InvestorLine>) -> (r: Result<
    (u64, Vec<InvestorPayoutInfo>),
    FeeRouterError,
>)
    ensures
        match r {
            Ok(tp) => {
                &&& tp.0 as int == sum_seq(locked_seq(lines@))
                &&& tp.1@.len() == lines@.len()
                &&& forall|j: int|
                    0 <= j < lines@.len() ==> tp.1@[j] == (InvestorPayoutInfo {
                        investor: lines@[j].investor,
                        amount: 0u64,
                        locked_amount: lines@[j].locked_amount,
                        weight: lines@[j].locked_amount,
                    })
            },
            Err(e) => e == FeeRouterError::MathOverflow && sum_seq(locked_seq(lines@))
                > u64::MAX,
        },
{
    let ghost ls = locked_seq(lines@);
    proof {
        assert(forall|k: int| 0 <= k < ls.len() ==> ls[k] >= 0);
    }
    let n = lines.len();
    let mut total_locked: u64 = 0;
    let mut payouts: Vec<InvestorPayoutInfo> = Vec::new();
    let mut i: usize = 0;
    while i < n
        invariant
            0 <= i <= n,
            n == lines@.len(),
            ls == locked_seq(lines@),
            total_locked as int == sum_seq(ls.take(i as int)),
            payouts@.len() == i,
            forall|j: int|
                0 <= j < i ==> payouts@[j] == (InvestorPayoutInfo {
                    investor: lines@[j].investor,
                    amount: 0u64,
                    locked_amount: lines@[j].locked_amount,
                    weight: lines@[j].locked_amount,
                }),
        decreases n - i,
    {
        let locked_amount = lines[i].locked_amount;
        proof {
            lemma_sum_take_step(ls, i as int);
            assert(forall|k: int| 0 <= k < ls.len() ==> ls[k] >= 0);
        }
        total_locked = match total_locked.checked_add(locked_amount) {
            Some(v) => v,
            None => {
                proof {
                    lemma_sum_prefix_le(ls, i as int + 1);
                }
                return Err(FeeRouterError::MathOverflow);
            },
        };
        payouts.push(
            InvestorPayoutInfo {
                investor: lines[i].investor,
                amount: 0,
                locked_amount: locked_amount,
                weight: locked_amount,
            },
        );
        i = i + 1;
    }
    proof {
        assert(ls.take(n as int) =~= ls);
    }
    Ok((total_locked, payouts))
}

/// Apply the payout arithmetic and policy of one validated page to the
/// running state `s1`, realizing `spec_apply_page`.
#[verifier::loop_isolation(false)]
#[verifier::rlimit(100)]
fn apply_page(
    vault: &Vault,
    s1: DistributionState,
    vault_id: [u8; 32],
    page: u32,
    is_final_page: bool,
    now: i64,
    lines: &Vec<InvestorLine>,
) -> (r: Result<(DistributionState, PageEffects), FeeRouterError>)
    requires
        page == s1.current_page,
        page < MAX_PAGES_PER_DAY,
        lines@.len() <= MAX_INVESTORS_PER_PAGE,
    ensures
        match r {
            Ok(se) => {
                &&& spec_apply_page(*vault, s1, vault_id, page, is_final_page, now, lines@)
                    matches Ok(out)
                &&& se.0 == out.state
                &&& effects_match(se.1, out)
                &&& se.0.last_distribution_ts == s1.last_distribution_ts
            },
            Err(e) => spec_apply_page(*vault, s1, vault_id, page, is_final_page, now, lines@)
                == Err::<PageOutcome, FeeRouterError>(e),
        },
{
    let ghost lseq = lines@;
    let (total_locked, payouts) = match calculate_investor_payouts(lines) {
        Ok(tp) => tp,
        Err(e) => {
            return Err(e);
        },
    };

    // Eligible investor share: the configured share, scaled down by how much
    // of the original allocation is still locked.
    let f_locked: u64 = if vault.total_investor_allocation > 0 {
        match total_locked.checked_mul(MAX_BPS as u64) {
            Some(scaled) => scaled / vault.total_investor_allocation,
            None => {
                return Err(FeeRouterError::MathOverflow);
            },
        }
    } else {
        0
    };
    let share_bps = vault.investor_fee_share_bps as u64;
    let eligible = if share_bps <= f_locked {
        share_bps
    } else {
        f_locked
    };
    let quote: u64 = match s1.day_claimed_fees.checked_mul(eligible) {
        Some(q) => q / (MAX_BPS as u64),
        None => {
            return Err(FeeRouterError::MathOverflow);
        },
    };
    let ghost amounts = amount_seq(lseq, quote, total_locked);
    proof {
        lemma_amounts_nonneg(lseq, quote, total_locked);
    }

    // Exact pro-rata amounts and their running total.
    let n = lines.len();
    let mut priced: Vec<InvestorPayoutInfo> = Vec::new();
    let mut allocated: u64 = 0;
    let mut i: usize = 0;
    while i < n
        invariant
            0 <= i <= n,
            priced@.len() == i,
            forall|j: int|
                0 <= j < i ==> #[trigger] priced@[j] == (InvestorPayoutInfo {
                    investor: lseq[j].investor,
                    amount: amounts[j] as u64,
                    locked_amount: lseq[j].locked_amount,
                    weight: lseq[j].locked_amount,
                }) && 0 <= amounts[j] <= u64::MAX,
            allocated as int == sum_seq(amounts.take(i as int)),
            forall|j: int|
                0 <= j < i ==> !(total_locked > 0 && #[trigger] (quote * lseq[j].locked_amount)
                    > u64::MAX),
        decreases n - i,
    {
        let info = payouts[i];
        proof {
            assert(payouts@[i as int] == (InvestorPayoutInfo {
                investor: lseq[i as int].investor,
                amount: 0u64,
                locked_amount: lseq[i as int].locked_amount,
                weight: lseq[i as int].locked_amount,
            }));
        }
        let a: u64;
        if total_locked == 0 {
            a = 0;
        } else {
            a = match quote.checked_mul(info.locked_amount) {
                Some(prod) => prod / total_locked,
                None => {
                    proof {
                        assert(spec_amount_overflow(lseq, quote, total_locked)) by {
                            assert(0 <= i < lseq.len() && quote * lseq[i as int].locked_amount
                                > u64::MAX);
                        }
                    }
                    return Err(FeeRouterError::MathOverflow);
                },
            };
        }
        proof {
            assert(a as int == amounts[i as int]);
            lemma_sum_take_step(amounts, i as int);
            if total_locked > 0 {
                lemma_amounts_take_le_quote(lseq, quote, total_locked, i as int + 1);
            }
        }
        allocated = allocated + a;
        priced.push(
            InvestorPayoutInfo {
                investor: info.investor,
                amount: a,
                locked_amount: info.locked_amount,
                weight: info.weight,
            },
        );
        i = i + 1;
    }
    proof {
        assert(amounts.take(n as int) =~= amounts);
        lemma_amounts_sum_le_quote(lseq, quote, total_locked);
        assert(!spec_amount_overflow(lseq, quote, total_locked));
    }

    // The rounding remainder goes to the carry-over immediately, every page.
    let remainder = quote - allocated;
    let carry1 = match s1.carry_over.checked_add(remainder) {
        Some(c) => c,
        None => {
            return Err(FeeRouterError::MathOverflow);
        },
    };

    // Dust and cap policy, in page order, against the running counters.
    let ghost daily0 = s1.daily_distributed as int;
    let ghost carry0 = carry1 as int;
    let min_payout = vault.min_payout_lamports;
    let cap = vault.daily_cap_lamports;
    let mut daily: u64 = s1.daily_distributed;
    let mut carry: u64 = carry1;
    let mut paid: u64 = 0;
    let mut transfers: Vec<InvestorPayout> = Vec::new();
    let mut k: usize = 0;
    while k < n
        invariant
            0 <= k <= n,
            daily as int == spec_policy(amounts, min_payout, cap, daily0, carry0, k as int).0,
            carry as int == spec_policy(amounts, min_payout, cap, daily0, carry0, k as int).1,
            paid as int == spec_policy(amounts, min_payout, cap, daily0, carry0, k as int).2,
            transfers@ == spec_transfers(
                lseq,
                amounts,
                min_payout,
                cap,
                daily0,
                carry0,
                vault_id,
                now,
                k as int,
            ),
        decreases n - k,
    {
        let info = priced[k];
        let a = info.amount;
        proof {
            assert(priced@[k as int] == (InvestorPayoutInfo {
                investor: lseq[k as int].investor,
                amount: amounts[k as int] as u64,
                locked_amount: lseq[k as int].locked_amount,
                weight: lseq[k as int].locked_amount,
            }));
            assert(a as int == amounts[k as int]);
        }
        if a < min_payout {
            carry = match carry.checked_add(a) {
                Some(c) => c,
                None => {
                    proof {
                        lemma_policy_monotone(
                            amounts,
                            min_payout,
                            cap,
                            daily0,
                            carry0,
                            k as int + 1,
                            n as int,
                        );
                    }
                    return Err(FeeRouterError::MathOverflow);
                },
            };
        } else {
            let capped = match cap {
                Some(c) => match daily.checked_add(a) {
                    Some(s) => s > c,
                    None => true,
                },
                None => false,
            };
            if capped {
                carry = match carry.checked_add(a) {
                    Some(c) => c,
                    None => {
                        proof {
                            lemma_policy_monotone(
                                amounts,
                                min_payout,
                                cap,
                                daily0,
                                carry0,
                                k as int + 1,
                                n as int,
                            );
                        }
                        return Err(FeeRouterError::MathOverflow);
                    },
                };
            } else {
                daily = match daily.checked_add(a) {
                    Some(s) => s,
                    None => {
                        proof {
                            lemma_policy_monotone(
                                amounts,
                                min_payout,
                                cap,
                                daily0,
                                carry0,
                                k as int + 1,
                                n as int,
                            );
                        }
                        return Err(FeeRouterError::MathOverflow);
                    },
                };
                proof {
                    lemma_policy_paid_daily(amounts, min_payout, cap, daily0, carry0, k as int);
                    lemma_policy_paid_daily(
                        amounts,
                        min_payout,
                        cap,
                        daily0,
                        carry0,
                        k as int + 1,
                    );
                }
                paid = paid + a;
                transfers.push(
                    InvestorPayout {
                        vault_id: vault_id,
                        investor: info.investor,
                        amount: a,
                        locked_amount: info.locked_amount,
                        weight: info.weight,
                        timestamp: now,
                    },
                );
            }
        }
        k = k + 1;
    }

    let day_total = match s1.day_investor_total.checked_add(paid) {
        Some(v) => v,
        None => {
            return Err(FeeRouterError::MathOverflow);
        },
    };

    // On the final page the creator receives the exact remainder of the
    // day's claim; otherwise the cursor advances to the next page.
    let creator_payout = if is_final_page {
        s1.day_claimed_fees.saturating_sub(day_total)
    } else {
        0
    };
    let mut s2 = s1;
    s2.daily_distributed = daily;
    s2.carry_over = carry;
    s2.day_investor_total = day_total;
    if is_final_page {
        s2.day_complete = true;
    } else {
        s2.current_page = page + 1;
        s2.page_cursor = s2.page_cursor.saturating_add(1);
        s2.pages_processed = s2.pages_processed.saturating_add(1);
    }
    s2.mark_page_done(page);

    let effects = PageEffects {
        quote_fees_claimed: if page == 0 {
            Some(
                QuoteFeesClaimed {
                    vault_id: vault_id,
                    amount_claimed: s1.day_claimed_fees,
                    carry_over_prev: s1.carry_over,
                    timestamp: now,
                    distribution_day: s1.current_day,
                },
            )
        } else {
            None
        },
        investor_transfers: transfers,
        page_summary: Some(
            InvestorPayoutPage {
                vault_id: vault_id,
                page: page,
                total_payout: paid,
                investor_count: lines.len() as u32,
                daily_distributed_after: daily,
                timestamp: now,
            },
        ),
        creator_payout: creator_payout,
        day_closed: if is_final_page {
            Some(
                CreatorPayoutDayClosed {
                    vault_id: vault_id,
                    creator_payout: creator_payout,
                    total_distributed_to_investors: day_total,
                    distribution_day: s1.current_day,
                    timestamp: now,
                },
            )
        } else {
            None
        },
    };
    Ok((s2, effects))
}

/// Process one page of a distribution day.
///
/// For page 0 the request must carry the claim observation made around the
/// external claim action; the 24-hour gate, the quote-only guard and the
/// start of the new day all happen before any page is applied. The result is
/// the new state plus the effects to perform; both realize `spec_distribute`
/// exactly, and an error returns nothing and changes nothing.
pub fn distribute_fees(
    vault: &Vault,
    state: &DistributionState,
    vault_id: [u8; 32],
    page: u32,
    is_final_page: bool,
    now: i64,
    claim: Option<ClaimObservation>,
    lines: &Vec<InvestorLine>,
) -> (r: Result<(DistributionState, PageEffects), FeeRouterError>)
    requires
        vault.wf(),
        state.wf(),
        0 <= now <= i64::MAX - SECONDS_PER_DAY,
        page == 0 ==> claim is Some,
        page == 0 ==> state.current_day < u64::MAX,
        lines@.len() <= MAX_INVESTORS_PER_PAGE,
    ensures
        match r {
            Ok(se) => {
                &&& spec_distribute(
                    *vault,
                    *state,
                    vault_id,
                    page,
                    is_final_page,
                    now,
                    spec_obs(claim),
                    lines@,
                ) matches Ok(out)
                &&& se.0 == out.state
                &&& effects_match(se.1, out)
                &&& se.0.wf()
            },
            Err(e) => spec_distribute(
                *vault,
                *state,
                vault_id,
                page,
                is_final_page,
                now,
                spec_obs(claim),
                lines@,
            ) == Err::<PageOutcome, FeeRouterError>(e),
        },
{
    let mut working = *state;

    if page == 0 {
        // The 24-hour gate; a failed claim further down does not reset it.
        if !state.can_distribute(now) {
            return Err(FeeRouterError::DistributionWindowNotReached);
        }
        working.start_new_day(now);
        let obs = match claim {
            Some(o) => o,
            None => vstd::pervasive::unreached(),
        };
        match claim_quote_fees(&obs) {
            Ok(claimed) => {
                working.day_claimed_fees = claimed;
            },
            Err(e) => {
                return Err(e);
            },
        }
    }

    // Strictly sequential pages, inside the bitmap's coverage.
    if page != working.current_page || page >= MAX_PAGES_PER_DAY {
        return Err(FeeRouterError::InvalidPageNumber);
    }

    // Idempotent replay: already done means silently done again.
    if working.is_page_done(page) {
        let effects = PageEffects {
            quote_fees_claimed: None,
            investor_transfers: Vec::new(),
            page_summary: None,
            creator_payout: 0,
            day_closed: None,
        };
        return Ok((working, effects));
    }

    apply_page(vault, working, vault_id, page, is_final_page, now, lines)
}

} // verus!
