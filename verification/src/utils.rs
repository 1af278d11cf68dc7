//! Pure helpers of the distribution engine: the pro-rata arithmetic, the
//! pagination bounds, and the validation guards.

use vstd::prelude::*;

use crate::errors::StarError;
use crate::state::Pubkey;

verus! {

/// Share of claimed fees that investors may receive, in basis points:
/// `floor(locked_total * 10000 / y0)` clamped to `max_bps`, and 0 when `y0`
/// is 0.
pub open spec fn spec_eligible_share_bps(locked_total: u64, y0: u64, max_bps: u16) -> int {
    if y0 == 0 {
        0
    } else if locked_total * 10000 / (y0 as int) <= max_bps {
        locked_total * 10000 / (y0 as int)
    } else {
        max_bps as int
    }
}

/// Investors' slice of a claimed quote amount:
/// `floor(claimed_quote * eligible_share_bps / 10000)`.
pub open spec fn spec_investor_fee_quote(claimed_quote: u64, eligible_share_bps: u16) -> int {
    claimed_quote * eligible_share_bps / 10000
}

/// A requested amount limited by what is left of the daily cap:
/// `min(requested, max(daily_cap - already_distributed, 0))`.
pub open spec fn spec_apply_daily_cap(
    requested_amount: u64,
    daily_cap: u64,
    already_distributed: u64,
) -> int {
    let remaining = if daily_cap >= already_distributed {
        daily_cap - already_distributed
    } else {
        0
    };
    if requested_amount <= remaining {
        requested_amount as int
    } else {
        remaining
    }
}

/// An investor's pro-rata weight in basis points:
/// `floor(investor_locked * 10000 / total_locked)`, and 0 when `total_locked`
/// is 0.
pub open spec fn spec_investor_weight(investor_locked: u64, total_locked: u64) -> int {
    if total_locked == 0 {
        0
    } else {
        investor_locked * 10000 / (total_locked as int)
    }
}

/// An investor's payout: `floor(total_fee * weight_bps / 10000)`, zeroed
/// entirely when below the dust threshold `min_payout_lamports`.
pub open spec fn spec_investor_payout(
    total_fee: u64,
    weight_bps: u64,
    min_payout_lamports: u64,
) -> int {
    let payout = total_fee * weight_bps / 10000;
    if payout < min_payout_lamports {
        0
    } else {
        payout
    }
}

/// Mathematical utilities for fee distribution calculations.
pub struct DistributionMath;

impl DistributionMath {
    /// Eligible investor share of claimed fees, in basis points, from the
    /// locked fraction `locked_total / y0` clamped to the policy maximum.
    /// The multiplication is widened, so no input can overflow it.
    pub fn calculate_eligible_share_bps(
        locked_total: u64,
        y0: u64,
        max_investor_fee_share_bps: u16,
    ) -> (r: Result<u16, StarError>)
        ensures
            r == Ok::<u16, StarError>(
                spec_eligible_share_bps(locked_total, y0, max_investor_fee_share_bps) as u16,
            ),
            r->Ok_0 == spec_eligible_share_bps(locked_total, y0, max_investor_fee_share_bps),
            r->Ok_0 <= max_investor_fee_share_bps,
    {
        if y0 == 0 {
            return Ok(0);
        }
        let f_locked: u128 = (locked_total as u128) * 10000u128 / (y0 as u128);
        if f_locked <= max_investor_fee_share_bps as u128 {
            Ok(f_locked as u16)
        } else {
            Ok(max_investor_fee_share_bps)
        }
    }

    /// Investors' slice of a claimed quote amount. The share is in basis
    /// points, so the result never exceeds the claimed amount.
    pub fn calculate_investor_fee_quote(claimed_quote: u64, eligible_share_bps: u16) -> (r: Result<
        u64,
        StarError,
    >)
        requires
            eligible_share_bps <= 10000,
        ensures
            r == Ok::<u64, StarError>(
                spec_investor_fee_quote(claimed_quote, eligible_share_bps) as u64,
            ),
            r->Ok_0 == spec_investor_fee_quote(claimed_quote, eligible_share_bps),
            r->Ok_0 <= claimed_quote,
    {
        if eligible_share_bps == 0 {
            proof {
                vstd::arithmetic::mul::lemma_mul_basics(claimed_quote as int);
            }
            return Ok(0);
        }
        proof {
            vstd::arithmetic::mul::lemma_mul_upper_bound(
                claimed_quote as int,
                u64::MAX as int,
                eligible_share_bps as int,
                10000,
            );
        }
        let investor_fee: u128 = (claimed_quote as u128) * (eligible_share_bps as u128)
            / 10000u128;
        proof {
            lemma_bps_fraction_le(claimed_quote as int, eligible_share_bps as int);
        }
        Ok(investor_fee as u64)
    }

    /// A requested amount limited by what is left of the daily cap;
    /// saturates to 0 when the cap is already exhausted.
    pub fn apply_daily_cap(
        requested_amount: u64,
        daily_cap: u64,
        already_distributed: u64,
    ) -> (r: Result<u64, StarError>)
        ensures
            r == Ok::<u64, StarError>(
                spec_apply_daily_cap(requested_amount, daily_cap, already_distributed) as u64,
            ),
            r->Ok_0 == spec_apply_daily_cap(requested_amount, daily_cap, already_distributed),
            r->Ok_0 <= requested_amount,
    {
        let remaining_cap: u64 = if daily_cap >= already_distributed {
            daily_cap - already_distributed
        } else {
            0
        };
        if requested_amount <= remaining_cap {
            Ok(requested_amount)
        } else {
            Ok(remaining_cap)
        }
    }

    /// An investor's pro-rata weight in basis points. The investor's locked
    /// amount is part of the page total, so the weight never exceeds 10000.
    pub fn calculate_investor_weight(investor_locked: u64, total_locked: u64) -> (r: Result<
        u64,
        StarError,
    >)
        requires
            investor_locked <= total_locked,
        ensures
            r == Ok::<u64, StarError>(
                spec_investor_weight(investor_locked, total_locked) as u64,
            ),
            r->Ok_0 == spec_investor_weight(investor_locked, total_locked),
            r->Ok_0 <= 10000,
    {
        if total_locked == 0 {
            return Ok(0);
        }
        let weight: u128 = (investor_locked as u128) * 10000u128 / (total_locked as u128);
        proof {
            vstd::arithmetic::mul::lemma_mul_inequality(
                investor_locked as int,
                total_locked as int,
                10000,
            );
            vstd::arithmetic::div_mod::lemma_div_is_ordered(
                investor_locked * 10000,
                total_locked * 10000,
                total_locked as int,
            );
            vstd::arithmetic::mul::lemma_mul_is_commutative(total_locked as int, 10000);
            vstd::arithmetic::div_mod::lemma_div_multiples_vanish(10000, total_locked as int);
            vstd::arithmetic::mul::lemma_mul_nonnegative(investor_locked as int, 10000);
            vstd::arithmetic::div_mod::lemma_div_pos_is_pos(
                investor_locked * 10000,
                total_locked as int,
            );
        }
        Ok(weight as u64)
    }

    /// An investor's payout from the distributable total: the weighted share,
    /// zeroed entirely when below the dust threshold (no partial payout:
    /// sub-threshold amounts are retained for carry-over, not paid).
    pub fn calculate_investor_payout(
        total_investor_fee_quote: u64,
        investor_weight_bps: u64,
        min_payout_lamports: u64,
    ) -> (r: Result<u64, StarError>)
        requires
            investor_weight_bps <= 10000,
        ensures
            r == Ok::<u64, StarError>(
                spec_investor_payout(
                    total_investor_fee_quote,
                    investor_weight_bps,
                    min_payout_lamports,
                ) as u64,
            ),
            r->Ok_0 == spec_investor_payout(
                total_investor_fee_quote,
                investor_weight_bps,
                min_payout_lamports,
            ),
            r->Ok_0 <= total_investor_fee_quote,
    {
        proof {
            vstd::arithmetic::mul::lemma_mul_upper_bound(
                total_investor_fee_quote as int,
                u64::MAX as int,
                investor_weight_bps as int,
                10000,
            );
        }
        let payout: u128 = (total_investor_fee_quote as u128) * (investor_weight_bps as u128)
            / 10000u128;
        proof {
            lemma_bps_fraction_le(total_investor_fee_quote as int, investor_weight_bps as int);
        }
        let payout_amount: u64 = payout as u64;
        if payout_amount < min_payout_lamports {
            Ok(0)
        } else {
            Ok(payout_amount)
        }
    }
}

/// A value scaled by at most a whole in basis points never grows:
/// `a * b / 10000 <= a` whenever `b <= 10000`.
pub(crate) proof fn lemma_bps_fraction_le(a: int, b: int)
    requires
        0 <= a,
        0 <= b <= 10000,
    ensures
        0 <= a * b / 10000 <= a,
{
    vstd::arithmetic::mul::lemma_mul_inequality(b, 10000, a);
    vstd::arithmetic::mul::lemma_mul_is_commutative(a, b);
    vstd::arithmetic::mul::lemma_mul_is_commutative(a, 10000);
    vstd::arithmetic::div_mod::lemma_div_is_ordered(a * b, a * 10000, 10000);
    vstd::arithmetic::div_mod::lemma_div_multiples_vanish(a, 10000);
    vstd::arithmetic::div_mod::lemma_div_pos_is_pos(a * b, 10000);
    vstd::arithmetic::mul::lemma_mul_nonnegative(a, b);
}

/// The eligible share never exceeds the policy maximum, and stays within a
/// whole (10000 basis points) whenever the maximum does.
pub proof fn lemma_eligible_share_bounds(locked_total: u64, y0: u64, max_bps: u16)
    ensures
        spec_eligible_share_bps(locked_total, y0, max_bps) <= max_bps,
        max_bps <= 10000 ==> spec_eligible_share_bps(locked_total, y0, max_bps) <= 10000,
        0 <= spec_eligible_share_bps(locked_total, y0, max_bps),
{
    if y0 != 0 {
        vstd::arithmetic::div_mod::lemma_div_pos_is_pos(locked_total * 10000, y0 as int);
        vstd::arithmetic::mul::lemma_mul_nonnegative(locked_total as int, 10000);
    }
}

/// A computed payout below the dust threshold pays exactly nothing.
pub proof fn lemma_dust_filtered(total_fee: u64, weight_bps: u64, min_payout_lamports: u64)
    requires
        total_fee * weight_bps / 10000 < min_payout_lamports,
    ensures
        spec_investor_payout(total_fee, weight_bps, min_payout_lamports) == 0,
{
}

/// Pagination utilities for processing investor accounts in batches.
pub struct PaginationUtils;

impl PaginationUtils {
    /// Start and end indices of a 1-indexed page:
    /// `((page - 1) * page_size, page * page_size)`.
    pub fn get_page_bounds(page: u64, page_size: u64) -> (r: (u64, u64))
        requires
            1 <= page,
            page * page_size <= u64::MAX,
        ensures
            r.0 == (page - 1) * page_size,
            r.1 == page * page_size,
            r.1 == r.0 + page_size,
    {
        proof {
            vstd::arithmetic::mul::lemma_mul_is_distributive_sub(page_size as int, page as int, 1);
            vstd::arithmetic::mul::lemma_mul_is_commutative(page_size as int, page as int);
            vstd::arithmetic::mul::lemma_mul_is_commutative(page_size as int, page - 1);
            vstd::arithmetic::mul::lemma_mul_nonnegative(page - 1, page_size as int);
        }
        let start = (page - 1) * page_size;
        let end = start + page_size;
        (start, end)
    }

    /// Whether a page's end index reaches the total account count.
    pub fn is_last_page(page: u64, page_size: u64, total_accounts: u64) -> (r: bool)
        requires
            1 <= page,
            page * page_size <= u64::MAX,
        ensures
            r == (page * page_size >= total_accounts),
    {
        let bounds = Self::get_page_bounds(page, page_size);
        bounds.1 >= total_accounts
    }

    /// How many accounts fall in this page: the page's slice of
    /// `[0, total_accounts)`.
    pub fn get_page_size(page: u64, page_size: u64, total_accounts: u64) -> (r: u64)
        requires
            1 <= page,
            page * page_size <= u64::MAX,
        ensures
            r == (if (page - 1) * page_size >= total_accounts {
                0int
            } else if page * page_size <= total_accounts {
                page_size as int
            } else {
                total_accounts - (page - 1) * page_size
            }),
    {
        let bounds = Self::get_page_bounds(page, page_size);
        let page_end = if bounds.1 <= total_accounts {
            bounds.1
        } else {
            total_accounts
        };
        if bounds.0 >= total_accounts {
            0
        } else {
            page_end - bounds.0
        }
    }
}

/// Pool configuration structure for validation.
#[derive(Clone, Debug, PartialEq)]
pub struct PoolConfig {
    pub token_a: Pubkey,
    pub token_b: Pubkey,
    pub pool_id: Pubkey,
    pub tick_lower: i32,
    pub tick_upper: i32,
}

/// Amounts reported by one claim operation on the honorary position; the
/// whole call aborts unless `base_amount` is 0.
#[derive(Clone, Debug, PartialEq)]
pub struct ClaimResult {
    pub base_amount: u64,
    pub quote_amount: u64,
}

/// Validation utilities for pool configuration and fee detection.
pub struct ValidationUtils;

impl ValidationUtils {
    /// A pool accrues quote-only fees for us exactly when the expected quote
    /// mint is its second token; anything else is rejected.
    pub fn validate_quote_only_pool(pool_config: &PoolConfig, expected_quote_mint: &Pubkey) -> (r:
        Result<(), StarError>)
        ensures
            r is Ok <==> pool_config.token_b.bytes@ == expected_quote_mint.bytes@,
            r is Err ==> r == Err::<(), StarError>(StarError::InvalidPoolTokenOrder),
    {
        if pool_config.token_b == *expected_quote_mint {
            Ok(())
        } else {
            Err(StarError::InvalidPoolTokenOrder)
        }
    }

    /// The single most important safety gate: any nonzero base-asset accrual
    /// aborts the whole call before any state change.
    pub fn detect_base_fees(claim_result: &ClaimResult) -> (r: Result<(), StarError>)
        ensures
            r is Ok <==> claim_result.base_amount == 0,
            r is Err ==> r == Err::<(), StarError>(StarError::BaseFeeDetected),
    {
        if claim_result.base_amount == 0 {
            Ok(())
        } else {
            Err(StarError::BaseFeeDetected)
        }
    }
}

/// Streamflow integration utilities: the vesting-snapshot provider is an
/// external collaborator, so only the shape of its accounts is checked here.
pub struct StreamflowUtils;

impl StreamflowUtils {
    /// A stream account is usable only if it holds any data at all.
    pub fn validate_stream_account(stream_data_len: u64) -> (r: Result<(), StarError>)
        ensures
            r is Ok <==> stream_data_len > 0,
            r is Err ==> r == Err::<(), StarError>(StarError::InvalidStreamAccount),
    {
        if stream_data_len > 0 {
            Ok(())
        } else {
            Err(StarError::InvalidStreamAccount)
        }
    }

    /// Locked amount of a stream at a timestamp. The vesting curve itself is
    /// the provider's business; this placeholder reports a fixed snapshot.
    pub fn get_locked_amount(_stream_data_len: u64, _current_timestamp: i64) -> (r: Result<
        u64,
        StarError,
    >)
        ensures
            r == Ok::<u64, StarError>(1000u64),
    {
        Ok(1000)
    }
}

} // verus!

