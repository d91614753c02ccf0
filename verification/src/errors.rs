//! Typed errors of the fee router. Every rejected operation names exactly one
//! of these; no operation that returns an error leaves any state behind.

use vstd::prelude::*;

verus! {

#[derive(Clone, Copy, Debug, PartialEq, Eq, Structural)]
pub enum FeeRouterError {
    /// A fee share above one hundred percent was supplied.
    InvalidFeeShareBps,
    /// A new distribution day was requested before 24 hours had passed.
    DistributionWindowNotReached,
    /// A position would accrue base-denominated fees.
    BaseFeesNotAllowed,
    /// A pool's tick range cannot hold a quote-only position.
    InvalidPoolConfiguration,
    /// An exact integer computation would have overflowed.
    MathOverflow,
    /// A payout fell below the configured dust threshold.
    PayoutBelowMinimum,
    /// A payout would have pushed the day's distribution past the cap.
    DailyCapExceeded,
    /// A page was requested out of order, or past the page ceiling.
    InvalidPageNumber,
    /// The day's distribution has already completed.
    DistributionAlreadyCompleted,
    /// The supplied quote mint is not a token of the pool.
    InvalidQuoteMint,
    /// A claim produced no quote fees.
    NoFeesToClaim,
    /// Investor roster data was malformed.
    InvalidInvestorData,
    /// The fee position has not been created yet.
    PositionNotInitialized,
    /// The vault was already initialized.
    VaultAlreadyInitialized,
    /// The treasury held or received base-denominated fees.
    BaseFeesDetected,
    /// An investor's associated token account was missing.
    MissingInvestorAta,
    /// The caller is not allowed to perform the operation.
    Unauthorized,
    /// The page was already processed this day.
    PageAlreadyProcessed,
    /// A non-zero page was requested before the day was started.
    DayNotStarted,
}

impl FeeRouterError {
    /// A short human-readable description of the error.
    pub fn message(&self) -> &'static str {
        match self {
            FeeRouterError::InvalidFeeShareBps => "Invalid fee share BPS, must be <= 10000",
            FeeRouterError::DistributionWindowNotReached => "Distribution window not reached (24h required)",
            FeeRouterError::BaseFeesNotAllowed => "Position would accrue base fees, only quote-only positions allowed",
            FeeRouterError::InvalidPoolConfiguration => "Invalid pool configuration",
            FeeRouterError::MathOverflow => "Math overflow",
            FeeRouterError::PayoutBelowMinimum => "Payout below minimum threshold",
            FeeRouterError::DailyCapExceeded => "Daily cap exceeded",
            FeeRouterError::InvalidPageNumber => "Invalid page number",
            FeeRouterError::DistributionAlreadyCompleted => "Distribution already completed for this day",
            FeeRouterError::InvalidQuoteMint => "Invalid quote mint",
            FeeRouterError::NoFeesToClaim => "No fees to claim",
            FeeRouterError::InvalidInvestorData => "Invalid investor data",
            FeeRouterError::PositionNotInitialized => "Position not initialized",
            FeeRouterError::VaultAlreadyInitialized => "Vault already initialized",
            FeeRouterError::BaseFeesDetected => "Base fees detected, quote-only invariant violated",
            FeeRouterError::MissingInvestorAta => "Missing investor associated token account",
            FeeRouterError::Unauthorized => "Unauthorized authority for this operation",
            FeeRouterError::PageAlreadyProcessed => "Distribution already executed for the given page",
            FeeRouterError::DayNotStarted => "Day not started; call page 0 first to claim fees",
        }
    }
}

} // verus!
