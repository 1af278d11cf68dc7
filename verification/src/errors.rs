//! Error taxonomy of the distribution engine.
//!
//! Configuration errors are detected once at initialization; timing errors are
//! expected and recoverable by retrying later; the base-fee safety abort and
//! arithmetic errors abort a call with no state change; input errors are
//! caller mistakes, recoverable by resubmission.

use vstd::prelude::*;

verus! {

/// Every failure the distribution engine can report. All errors abort the
/// whole call; none is partially swallowed or downgraded.
#[derive(Clone, Copy, Debug, PartialEq, Eq, Structural)]
pub enum StarError {
    /// Base-denominated fees detected, aborting distribution.
    BaseFeeDetected,
    /// Distribution crank called too early. Must wait 24 hours.
    DistributionTooEarly,
    /// No locked investors found at this time.
    NoLockedInvestors,
    /// Invalid pool configuration: cannot guarantee quote-only fee accrual.
    InvalidQuoteOnlyConfig,
    /// Invalid pool token order. Quote mint must be the second token in the pool.
    InvalidPoolTokenOrder,
    /// Investor fee share basis points cannot exceed 10000 (100%).
    InvalidFeeShareBps,
    /// Daily cap must be greater than zero.
    InvalidDailyCap,
    /// Minimum payout must be greater than zero.
    InvalidMinPayout,
    /// Y0 (total allocation) must be greater than zero.
    InvalidY0,
    /// Pagination page must be greater than zero.
    InvalidPage,
    /// Invalid CP-AMM pool configuration provided.
    InvalidCpAmmConfig,
    /// Failed to create token account.
    TokenAccountCreationFailed,
    /// Insufficient quote fees to distribute.
    InsufficientQuoteFees,
    /// Streamflow stream account is invalid or not found.
    InvalidStreamAccount,
    /// Investor ATA account is invalid or not found.
    InvalidInvestorAta,
    /// Creator ATA account is invalid or not found.
    InvalidCreatorAta,
    /// Program treasury ATA account is invalid or not found.
    InvalidTreasuryAta,
    /// Math overflow occurred during fee distribution calculation.
    MathOverflow,
    /// PDA bump seed is invalid.
    InvalidBump,
    /// Account ownership verification failed.
    InvalidOwner,
    /// Account is not initialized.
    NotInitialized,
    /// Account is already initialized.
    AlreadyInitialized,
    /// Invalid mint for the expected quote token.
    InvalidQuoteMint,
    /// CP-AMM position claim failed.
    CpAmmClaimFailed,
    /// Token transfer failed.
    TokenTransferFailed,
    /// Distribution is already complete for this day.
    DistributionAlreadyComplete,
}

} // verus!
