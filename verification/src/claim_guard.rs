//! The quote-only fee claim guard. The external position service is never
//! trusted to report what it paid out; the engine derives the authoritative
//! claimed amount from the treasury balances observed immediately before and
//! after the claim action, and rejects the whole page when the observation
//! shows any base-denominated accrual.

use vstd::prelude::*;

use crate::errors::FeeRouterError;

verus! {

/// Treasury balances observed around one external claim action.
#[derive(Clone, Copy, Debug)]
pub struct ClaimObservation {
    /// Quote treasury balance immediately before the claim.
    pub quote_before: u64,
    /// Quote treasury balance immediately after the claim.
    pub quote_after: u64,
    /// Base treasury balance immediately before the claim.
    pub base_before: u64,
    /// Base treasury balance immediately after the claim.
    pub base_after: u64,
}

/// The quote amount a claim observation shows as newly arrived (saturating at
/// zero if the balance somehow decreased).
pub open spec fn spec_claimed_quote(obs: ClaimObservation) -> u64 {
    if obs.quote_after >= obs.quote_before {
        (obs.quote_after - obs.quote_before) as u64
    } else {
        0u64
    }
}

/// The guard's verdict on one observation, checked in order: a base treasury
/// that was not empty before the claim, or that changed across the claim,
/// violates the quote-only invariant; a claim that moved no quote is empty.
pub open spec fn spec_claim_quote_fees(obs: ClaimObservation) -> Result<u64, FeeRouterError> {
    if obs.base_before != 0 {
        Err(FeeRouterError::BaseFeesDetected)
    } else if obs.base_after != obs.base_before {
        Err(FeeRouterError::BaseFeesDetected)
    } else if spec_claimed_quote(obs) == 0 {
        Err(FeeRouterError::NoFeesToClaim)
    } else {
        Ok(spec_claimed_quote(obs))
    }
}

/// Validate one claim observation and return the day's claimed quote amount.
///
/// Succeeds exactly when the base treasury was empty before the claim, stayed
/// unchanged across it, and the quote treasury strictly increased; the result
/// is then the positive quote delta. Any base-denominated accrual is
/// `BaseFeesDetected`; a zero quote delta is `NoFeesToClaim`.
pub fn claim_quote_fees(obs: &ClaimObservation) -> (r: Result<u64, FeeRouterError>)
    ensures
        r == spec_claim_quote_fees(*obs),
        r matches Ok(claimed) ==> claimed > 0 && obs.base_before == 0 && obs.base_after == 0
            && claimed == obs.quote_after - obs.quote_before,
        obs.base_after > obs.base_before ==> r == Err::<u64, FeeRouterError>(
            FeeRouterError::BaseFeesDetected,
        ),
{
    let base_before = obs.base_before;
    let base_after = obs.base_after;
    if base_before != 0 {
        return Err(FeeRouterError::BaseFeesDetected);
    }
    if base_after != base_before {
        return Err(FeeRouterError::BaseFeesDetected);
    }
    let claimed_quote = obs.quote_after.saturating_sub(obs.quote_before);
    if claimed_quote == 0 {
        return Err(FeeRouterError::NoFeesToClaim);
    }
    Ok(claimed_quote)
}

} // verus!
