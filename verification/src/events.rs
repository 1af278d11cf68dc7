//! Observable records of what a call did. The engine returns them to the
//! caller; emitting them to a log sink is the host's business.

use vstd::prelude::*;

use crate::state::Pubkey;

verus! {

/// An honorary LP position was successfully initialized.
#[derive(Clone, Debug, PartialEq)]
pub struct HonoraryPositionInitialized {
    pub position: Pubkey,
    pub quote_mint: Pubkey,
    pub pool: Pubkey,
    pub vault: Pubkey,
    pub investor_fee_share_bps: u16,
    pub daily_cap: u64,
    pub min_payout_lamports: u64,
    pub y0: u64,
    pub timestamp: i64,
}

/// Quote fees were claimed from the honorary position.
#[derive(Clone, Debug, PartialEq)]
pub struct QuoteFeesClaimed {
    pub amount: u64,
    pub position: Pubkey,
    pub day: i64,
    pub timestamp: i64,
}

/// One page of investor payouts was processed.
#[derive(Clone, Debug, PartialEq)]
pub struct InvestorPayoutPage {
    pub day: i64,
    pub page: u64,
    pub distributed: u64,
    pub carry_over: u64,
    pub investors_processed: u64,
    pub locked_total: u64,
    pub eligible_share_bps: u16,
    pub timestamp: i64,
}

/// The day's final page settled the remainder to the creator.
#[derive(Clone, Debug, PartialEq)]
pub struct CreatorPayoutDayClosed {
    pub day: i64,
    pub remainder: u64,
    pub total_distributed_to_investors: u64,
    pub total_claimed: u64,
    pub creator: Pubkey,
    pub timestamp: i64,
}

/// A distribution call aborted on the base-fee safety gate.
#[derive(Clone, Debug, PartialEq)]
pub struct DistributionAborted {
    pub reason: String,
    pub day: i64,
    pub base_fee_amount: u64,
    pub timestamp: i64,
}

/// One investor received a payout.
#[derive(Clone, Debug, PartialEq)]
pub struct InvestorPayout {
    pub investor: Pubkey,
    pub amount: u64,
    pub locked_amount: u64,
    pub weight: u64,
    pub day: i64,
    pub page: u64,
    pub timestamp: i64,
}

/// The daily cap limited a page's payout.
#[derive(Clone, Debug, PartialEq)]
pub struct DailyCapApplied {
    pub day: i64,
    pub requested_payout: u64,
    pub capped_payout: u64,
    pub cap_amount: u64,
    pub timestamp: i64,
}

} // verus!
