//! Initialization of a vault's honorary position: validates the
//! configuration and the pool's token order, and creates the `Policy` and
//! `Progress` records.

use vstd::prelude::*;

use crate::errors::StarError;
use crate::events::HonoraryPositionInitialized;
use crate::state::{
    derive_investor_fee_position_owner_pda, derive_policy_pda, derive_progress_pda, pda_opt_of,
    spec_investor_fee_position_owner_seeds, spec_policy_seeds, spec_progress_seeds, Policy,
    Progress, Pubkey,
};
use crate::utils::{PoolConfig, ValidationUtils};

verus! {

/// Which error an initialization reports, `None` when it is accepted.
/// The checks run in this order: the four numeric limits, the pool's token
/// order, the derived record addresses, and the treasury's mint.
pub open spec fn spec_initialize_error(
    investor_fee_share_bps: u16,
    daily_cap: u64,
    min_payout_lamports: u64,
    y0: u64,
    vault: Pubkey,
    quote_mint: Pubkey,
    treasury_mint: Pubkey,
    pool_token_b: Pubkey,
    program_id: Pubkey,
) -> Option<StarError> {
    if investor_fee_share_bps > 10000 {
        Some(StarError::InvalidFeeShareBps)
    } else if daily_cap == 0 {
        Some(StarError::InvalidDailyCap)
    } else if min_payout_lamports == 0 {
        Some(StarError::InvalidMinPayout)
    } else if y0 == 0 {
        Some(StarError::InvalidY0)
    } else if pool_token_b.bytes@ != quote_mint.bytes@ {
        Some(StarError::InvalidPoolTokenOrder)
    } else if pda_opt_of(spec_policy_seeds(vault), program_id) is None || pda_opt_of(
        spec_progress_seeds(vault),
        program_id,
    ) is None || pda_opt_of(spec_investor_fee_position_owner_seeds(vault), program_id) is None {
        Some(StarError::InvalidBump)
    } else if treasury_mint.bytes@ != quote_mint.bytes@ {
        Some(StarError::InvalidQuoteMint)
    } else {
        None
    }
}

/// Everything an initialization guarantees: it is accepted exactly when
/// `spec_initialize_error` finds nothing, a rejected call names that error,
/// and an accepted call returns exactly the fresh records and the event.
pub open spec fn spec_initialize_post(
    investor_fee_share_bps: u16,
    daily_cap: u64,
    min_payout_lamports: u64,
    y0: u64,
    vault: Pubkey,
    quote_mint: Pubkey,
    pool_id: Pubkey,
    treasury_mint: Pubkey,
    current_timestamp: i64,
    program_id: Pubkey,
    r: Result<(Policy, Progress, HonoraryPositionInitialized), StarError>,
) -> bool {
    let err = spec_initialize_error(
        investor_fee_share_bps,
        daily_cap,
        min_payout_lamports,
        y0,
        vault,
        quote_mint,
        treasury_mint,
        quote_mint,
        program_id,
    );
    &&& (r is Ok <==> err is None)
    &&& (r is Err ==> Some(r->Err_0) == err)
    &&& (r is Ok ==> r->Ok_0.0 == (Policy {
        investor_fee_share_bps,
        daily_cap,
        min_payout_lamports,
        y0,
        quote_mint,
        vault,
        created_at: current_timestamp,
        bump: pda_opt_of(spec_policy_seeds(vault), program_id)->Some_0.1,
    }))
    &&& (r is Ok ==> r->Ok_0.1 == (Progress {
        last_distribution_ts: 0,
        distributed_today: 0,
        carry_over: 0,
        pagination_cursor: 0,
        current_day: 0,
        claimed_today: 0,
        day_complete: false,
        vault,
        bump: pda_opt_of(spec_progress_seeds(vault), program_id)->Some_0.1,
    }))
    &&& (r is Ok ==> r->Ok_0.2 == (HonoraryPositionInitialized {
        position: pda_opt_of(spec_investor_fee_position_owner_seeds(vault), program_id)->Some_0.0,
        quote_mint,
        pool: pool_id,
        vault,
        investor_fee_share_bps,
        daily_cap,
        min_payout_lamports,
        y0,
        timestamp: current_timestamp,
    }))
    &&& (r is Ok ==> crate::state::spec_policy_is_valid(r->Ok_0.0))
}

/// Initialize a vault's distribution lifecycle.
///
/// Validates the numeric configuration and that the pool's second token is
/// the expected quote mint, then returns the fresh `Policy` and `Progress`
/// records with their derived bump seeds, and the initialization event.
/// `base_mint` and `quote_mint` are the pool's first and second tokens;
/// `treasury_mint` is the mint of the treasury holding account, which must
/// match the quote mint.
pub fn handler(
    investor_fee_share_bps: u16,
    daily_cap: u64,
    min_payout_lamports: u64,
    y0: u64,
    vault: &Pubkey,
    quote_mint: &Pubkey,
    base_mint: &Pubkey,
    pool_id: &Pubkey,
    treasury_mint: &Pubkey,
    current_timestamp: i64,
    program_id: &Pubkey,
) -> (r: Result<(Policy, Progress, HonoraryPositionInitialized), StarError>)
    ensures
        spec_initialize_post(
            investor_fee_share_bps,
            daily_cap,
            min_payout_lamports,
            y0,
            *vault,
            *quote_mint,
            *pool_id,
            *treasury_mint,
            current_timestamp,
            *program_id,
            r,
        ),
{
    if investor_fee_share_bps > 10000 {
        return Err(StarError::InvalidFeeShareBps);
    }
    if daily_cap == 0 {
        return Err(StarError::InvalidDailyCap);
    }
    if min_payout_lamports == 0 {
        return Err(StarError::InvalidMinPayout);
    }
    if y0 == 0 {
        return Err(StarError::InvalidY0);
    }

    let pool_config = PoolConfig {
        token_a: *base_mint,
        token_b: *quote_mint,
        pool_id: *pool_id,
        tick_lower: 0,
        tick_upper: 0,
    };
    match ValidationUtils::validate_quote_only_pool(&pool_config, quote_mint) {
        Ok(()) => (),
        Err(e) => {
            return Err(e);
        },
    }

    let policy_pda = derive_policy_pda(vault, program_id);
    let progress_pda = derive_progress_pda(vault, program_id);
    let position_pda = derive_investor_fee_position_owner_pda(vault, program_id);
    let (policy_bump, progress_bump, position_owner) = match (policy_pda, progress_pda, position_pda) {
        (Some(po), Some(pr), Some(ow)) => (po.1, pr.1, ow.0),
        _ => {
            return Err(StarError::InvalidBump);
        },
    };

    let policy = Policy::new(
        investor_fee_share_bps,
        daily_cap,
        min_payout_lamports,
        y0,
        *quote_mint,
        *vault,
        current_timestamp,
        policy_bump,
    );
    match policy.validate() {
        Ok(()) => (),
        Err(e) => {
            return Err(e);
        },
    }

    let progress = Progress::new(*vault, progress_bump);

    if !(*treasury_mint == *quote_mint) {
        return Err(StarError::InvalidQuoteMint);
    }

    let event = HonoraryPositionInitialized {
        position: position_owner,
        quote_mint: *quote_mint,
        pool: *pool_id,
        vault: *vault,
        investor_fee_share_bps,
        daily_cap,
        min_payout_lamports,
        y0,
        timestamp: current_timestamp,
    };

    Ok((policy, progress, event))
}

} // verus!
