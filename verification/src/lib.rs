//! Daily quote-fee distribution engine: splits a claimed fee stream between
//! time-locked investors and a creator, once per 24-hour day, via a
//! permissionless paginated crank.
//!
//! State persists between calls in an immutable [`state::Policy`] and a
//! mutable daily [`state::Progress`] ledger. Each accepted crank page claims
//! fees, validates that the accrual is quote-only, splits the claim pro rata
//! over the page's investors under the daily cap and the dust filter, and on
//! the day's final page settles the remainder to the creator.

pub mod crank;
pub mod errors;
pub mod events;
pub mod initialize;
pub mod state;
pub mod utils;

use vstd::prelude::*;

use crate::crank::{spec_crank_post, CrankOutcome};
use crate::errors::StarError;
use crate::events::HonoraryPositionInitialized;
use crate::initialize::spec_initialize_post;
use crate::state::{
    spec_policy_is_valid, spec_progress_wf, InvestorAccount, Policy, Progress, Pubkey,
    MAX_TIMESTAMP,
};
use crate::utils::ClaimResult;

verus! {

/// Initialize an honorary LP position for quote-only fee accrual: validate
/// the configuration and the pool, and create the vault's `Policy` and
/// `Progress` records.
pub fn initialize_honorary_position(
    investor_fee_share_bps: u16,
    daily_cap: u64,
    min_payout_lamports: u64,
    y0: u64,
    vault: &Pubkey,
    quote_mint: &Pubkey,
    base_mint: &Pubkey,
    pool_id: &Pubkey,
    treasury_mint: &Pubkey,
    current_timestamp: i64,
    program_id: &Pubkey,
) -> (r: Result<(Policy, Progress, HonoraryPositionInitialized), StarError>)
    ensures
        spec_initialize_post(
            investor_fee_share_bps,
            daily_cap,
            min_payout_lamports,
            y0,
            *vault,
            *quote_mint,
            *pool_id,
            *treasury_mint,
            current_timestamp,
            *program_id,
            r,
        ),
{
    initialize::handler(
        investor_fee_share_bps,
        daily_cap,
        min_payout_lamports,
        y0,
        vault,
        quote_mint,
        base_mint,
        pool_id,
        treasury_mint,
        current_timestamp,
        program_id,
    )
}

/// Permissionless 24-hour distribution crank for quote fees: process one
/// page of investor payouts and, on the final page, close the day.
pub fn crank_distribute(
    policy: &Policy,
    progress: &mut Progress,
    current_timestamp: i64,
    page: u64,
    investor_accounts: &Vec<InvestorAccount>,
    claim_result: &ClaimResult,
    is_final_page: bool,
    position_owner: &Pubkey,
    creator_quote_ata: &Pubkey,
) -> (r: Result<CrankOutcome, StarError>)
    requires
        spec_policy_is_valid(*policy),
        spec_progress_wf(*old(progress)),
        0 <= current_timestamp <= MAX_TIMESTAMP,
    ensures
        spec_crank_post(
            *policy,
            *old(progress),
            *final(progress),
            current_timestamp,
            page,
            investor_accounts@,
            *claim_result,
            is_final_page,
            *position_owner,
            *creator_quote_ata,
            r,
        ),
        spec_progress_wf(*final(progress)),
{
    crank::handler(
        policy,
        progress,
        current_timestamp,
        page,
        investor_accounts,
        claim_result,
        is_final_page,
        position_owner,
        creator_quote_ata,
    )
}

} // verus!
