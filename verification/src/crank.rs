//! The permissionless distribution crank: gates the 24-hour day, claims are
//! validated, the claimed quote amount is split pro rata over the page's
//! investors under the daily cap and the dust filter, and on the final page
//! the remainder is settled to the creator and the day closed.

use vstd::prelude::*;

use crate::errors::StarError;
use crate::events::{
    CreatorPayoutDayClosed, DailyCapApplied, InvestorPayout, InvestorPayoutPage, QuoteFeesClaimed,
};
use crate::state::{
    spec_is_new_day, spec_policy_is_valid, spec_progress_wf, spec_reset_for_new_day,
    InvestorAccount, Policy, Progress, Pubkey, MAX_TIMESTAMP, SECONDS_PER_DAY,
};
use crate::utils::{
    spec_apply_daily_cap, spec_eligible_share_bps, spec_investor_fee_quote, spec_investor_payout,
    spec_investor_weight, ClaimResult, DistributionMath, ValidationUtils,
};

verus! {

/// Total locked amount across a page's investor records.
pub open spec fn spec_sum_locked(investors: Seq<InvestorAccount>) -> int
    decreases investors.len(),
{
    if investors.len() == 0 {
        0
    } else {
        spec_sum_locked(investors.drop_last()) + investors.last().locked_amount
    }
}

/// Total of the page's pro-rata weights, in basis points.
pub open spec fn spec_sum_weights(investors: Seq<InvestorAccount>, total_locked: u64) -> int
    decreases investors.len(),
{
    if investors.len() == 0 {
        0
    } else {
        spec_sum_weights(investors.drop_last(), total_locked) + spec_investor_weight(
            investors.last().locked_amount,
            total_locked,
        )
    }
}

/// Total actually paid to the page's investors: each one's weighted share of
/// `total_fee`, with sub-threshold payouts zeroed by the dust filter.
pub open spec fn spec_sum_payouts(
    investors: Seq<InvestorAccount>,
    total_locked: u64,
    total_fee: u64,
    min_payout: u64,
) -> int
    decreases investors.len(),
{
    if investors.len() == 0 {
        0
    } else {
        spec_sum_payouts(investors.drop_last(), total_locked, total_fee, min_payout)
            + spec_investor_payout(
            total_fee,
            spec_investor_weight(investors.last().locked_amount, total_locked) as u64,
            min_payout,
        )
    }
}

/// The payout records a page produces, in investor order, one per investor
/// actually paid.
pub open spec fn spec_payout_events(
    investors: Seq<InvestorAccount>,
    total_locked: u64,
    total_fee: u64,
    min_payout: u64,
    day: i64,
    page: u64,
    timestamp: i64,
) -> Seq<InvestorPayout>
    decreases investors.len(),
{
    if investors.len() == 0 {
        Seq::<InvestorPayout>::empty()
    } else {
        let rest = spec_payout_events(
            investors.drop_last(),
            total_locked,
            total_fee,
            min_payout,
            day,
            page,
            timestamp,
        );
        let inv = investors.last();
        let weight = spec_investor_weight(inv.locked_amount, total_locked);
        let payout = spec_investor_payout(total_fee, weight as u64, min_payout);
        if payout > 0 {
            rest.push(
                InvestorPayout {
                    investor: inv.investor_quote_ata,
                    amount: payout as u64,
                    locked_amount: inv.locked_amount,
                    weight: weight as u64,
                    day,
                    page,
                    timestamp,
                },
            )
        } else {
            rest
        }
    }
}

proof fn lemma_sum_locked_nonneg(investors: Seq<InvestorAccount>)
    ensures
        0 <= spec_sum_locked(investors),
    decreases investors.len(),
{
    if investors.len() > 0 {
        lemma_sum_locked_nonneg(investors.drop_last());
    }
}

proof fn lemma_sum_locked_take_le(investors: Seq<InvestorAccount>, i: int)
    requires
        0 <= i <= investors.len(),
    ensures
        spec_sum_locked(investors.take(i)) <= spec_sum_locked(investors),
    decreases investors.len() - i,
{
    if i == investors.len() {
        assert(investors.take(i) =~= investors);
    } else {
        lemma_sum_locked_take_le(investors, i + 1);
        assert(investors.take(i + 1).drop_last() =~= investors.take(i));
        assert(investors.take(i + 1).last() == investors[i]);
    }
}

proof fn lemma_locked_le_sum(investors: Seq<InvestorAccount>, i: int)
    requires
        0 <= i < investors.len(),
    ensures
        investors[i].locked_amount <= spec_sum_locked(investors),
    decreases investors.len(),
{
    lemma_sum_locked_take_le(investors, i + 1);
    lemma_sum_locked_nonneg(investors.take(i + 1).drop_last());
    assert(investors.take(i + 1).last() == investors[i]);
}

/// Quotients never gain from splitting the dividend:
/// `a / d + b / d <= (a + b) / d` for nonnegative `a`, `b`.
proof fn lemma_div_sum(a: int, b: int, d: int)
    requires
        0 <= a,
        0 <= b,
        0 < d,
    ensures
        a / d + b / d <= (a + b) / d,
{
    vstd::arithmetic::div_mod::lemma_fundamental_div_mod(a, d);
    vstd::arithmetic::div_mod::lemma_fundamental_div_mod(b, d);
    vstd::arithmetic::div_mod::lemma_fundamental_div_mod(a + b, d);
    vstd::arithmetic::div_mod::lemma_mod_division_less_than_divisor(a, d);
    vstd::arithmetic::div_mod::lemma_mod_division_less_than_divisor(b, d);
    vstd::arithmetic::div_mod::lemma_mod_division_less_than_divisor(a + b, d);
    let qa = a / d;
    let qb = b / d;
    let qs = (a + b) / d;
    assert(qa + qb <= qs) by (nonlinear_arith)
        requires
            a == d * qa + a % d,
            b == d * qb + b % d,
            a + b == d * qs + (a + b) % d,
            0 <= a % d < d,
            0 <= b % d < d,
            0 <= (a + b) % d < d,
            0 < d,
    ;
}

/// One in-range investor's weight is at most a whole: 10000 basis points.
proof fn lemma_weight_le(investor_locked: u64, total_locked: u64)
    requires
        investor_locked <= total_locked,
    ensures
        0 <= spec_investor_weight(investor_locked, total_locked) <= 10000,
{
    if total_locked > 0 {
        vstd::arithmetic::mul::lemma_mul_inequality(
            investor_locked as int,
            total_locked as int,
            10000,
        );
        vstd::arithmetic::div_mod::lemma_div_is_ordered(
            investor_locked * 10000,
            total_locked * 10000,
            total_locked as int,
        );
        vstd::arithmetic::mul::lemma_mul_is_commutative(total_locked as int, 10000);
        vstd::arithmetic::div_mod::lemma_div_multiples_vanish(10000, total_locked as int);
        vstd::arithmetic::mul::lemma_mul_nonnegative(investor_locked as int, 10000);
        vstd::arithmetic::div_mod::lemma_div_pos_is_pos(
            investor_locked * 10000,
            total_locked as int,
        );
    }
}

proof fn lemma_sum_weights_bound(investors: Seq<InvestorAccount>, total_locked: u64)
    requires
        0 < total_locked,
        spec_sum_locked(investors) <= total_locked,
    ensures
        0 <= spec_sum_weights(investors, total_locked),
        spec_sum_weights(investors, total_locked) <= spec_sum_locked(investors) * 10000 / (
        total_locked as int),
        spec_sum_weights(investors, total_locked) <= 10000,
    decreases investors.len(),
{
    let ghost l = total_locked as int;
    lemma_sum_locked_nonneg(investors);
    if investors.len() == 0 {
        vstd::arithmetic::div_mod::lemma_div_pos_is_pos(spec_sum_locked(investors) * 10000, l);
        vstd::arithmetic::mul::lemma_mul_nonnegative(spec_sum_locked(investors), 10000);
    } else {
        let prefix = investors.drop_last();
        let last_locked = investors.last().locked_amount;
        lemma_sum_locked_nonneg(prefix);
        lemma_sum_weights_bound(prefix, total_locked);
        assert(last_locked <= total_locked);
        lemma_weight_le(last_locked, total_locked);
        lemma_div_sum(spec_sum_locked(prefix) * 10000, last_locked * 10000, l);
        assert(spec_sum_locked(prefix) * 10000 + last_locked * 10000 == spec_sum_locked(investors)
            * 10000) by (nonlinear_arith)
            requires
                spec_sum_locked(investors) == spec_sum_locked(prefix) + last_locked,
        ;
        vstd::arithmetic::mul::lemma_mul_inequality(spec_sum_locked(investors), l, 10000);
        vstd::arithmetic::div_mod::lemma_div_is_ordered(
            spec_sum_locked(investors) * 10000,
            l * 10000,
            l,
        );
        vstd::arithmetic::mul::lemma_mul_is_commutative(l, 10000);
        vstd::arithmetic::div_mod::lemma_div_multiples_vanish(10000, l);
    }
}

proof fn lemma_sum_payouts_bound(
    investors: Seq<InvestorAccount>,
    total_locked: u64,
    total_fee: u64,
    min_payout: u64,
)
    requires
        0 < total_locked,
        spec_sum_locked(investors) <= total_locked,
    ensures
        0 <= spec_sum_payouts(investors, total_locked, total_fee, min_payout),
        spec_sum_payouts(investors, total_locked, total_fee, min_payout) <= total_fee
            * spec_sum_weights(investors, total_locked) / 10000,
    decreases investors.len(),
{
    let ghost t = total_fee as int;
    if investors.len() == 0 {
        vstd::arithmetic::mul::lemma_mul_nonnegative(t, spec_sum_weights(investors, total_locked));
        vstd::arithmetic::div_mod::lemma_div_pos_is_pos(
            t * spec_sum_weights(investors, total_locked),
            10000,
        );
    } else {
        let prefix = investors.drop_last();
        let last_locked = investors.last().locked_amount;
        lemma_sum_locked_nonneg(prefix);
        lemma_sum_locked_nonneg(investors);
        lemma_sum_payouts_bound(prefix, total_locked, total_fee, min_payout);
        lemma_sum_weights_bound(prefix, total_locked);
        assert(last_locked <= total_locked);
        lemma_weight_le(last_locked, total_locked);
        let w = spec_investor_weight(last_locked, total_locked);
        let sw = spec_sum_weights(prefix, total_locked);
        // The last payout never exceeds its weighted share.
        vstd::arithmetic::mul::lemma_mul_nonnegative(t, w);
        vstd::arithmetic::div_mod::lemma_div_pos_is_pos(t * w, 10000);
        vstd::arithmetic::mul::lemma_mul_nonnegative(t, sw);
        lemma_div_sum(t * sw, t * w, 10000);
        vstd::arithmetic::mul::lemma_mul_is_distributive_add(t, sw, w);
        assert(spec_sum_weights(investors, total_locked) == sw + w);
    }
}

/// What a page actually pays out never exceeds the distributable total.
pub proof fn lemma_sum_payouts_le_total(
    investors: Seq<InvestorAccount>,
    total_locked: u64,
    total_fee: u64,
    min_payout: u64,
)
    requires
        0 < total_locked,
        spec_sum_locked(investors) <= total_locked,
    ensures
        0 <= spec_sum_payouts(investors, total_locked, total_fee, min_payout) <= total_fee,
{
    let ghost t = total_fee as int;
    lemma_sum_payouts_bound(investors, total_locked, total_fee, min_payout);
    lemma_sum_weights_bound(investors, total_locked);
    let sw = spec_sum_weights(investors, total_locked);
    vstd::arithmetic::mul::lemma_mul_inequality(sw, 10000, t);
    vstd::arithmetic::mul::lemma_mul_is_commutative(t, sw);
    vstd::arithmetic::mul::lemma_mul_is_commutative(t, 10000);
    vstd::arithmetic::div_mod::lemma_div_is_ordered(t * sw, t * 10000, 10000);
    vstd::arithmetic::div_mod::lemma_div_multiples_vanish(t, 10000);
}

/// Eligible share of this page, from the page's locked total and the policy.
pub open spec fn spec_page_eligible_bps(policy: Policy, investors: Seq<InvestorAccount>) -> int {
    spec_eligible_share_bps(
        spec_sum_locked(investors) as u64,
        policy.y0,
        policy.investor_fee_share_bps,
    )
}

/// Investors' slice of the page's claimed quote amount, before the cap.
pub open spec fn spec_page_fee(
    policy: Policy,
    investors: Seq<InvestorAccount>,
    claim: ClaimResult,
) -> int {
    spec_investor_fee_quote(claim.quote_amount, spec_page_eligible_bps(policy, investors) as u16)
}

/// The page's investor fee after the daily cap. The page opens the day, so
/// nothing has been distributed yet when the cap is applied.
pub open spec fn spec_page_capped_fee(
    policy: Policy,
    investors: Seq<InvestorAccount>,
    claim: ClaimResult,
) -> int {
    spec_apply_daily_cap(spec_page_fee(policy, investors, claim) as u64, policy.daily_cap, 0)
}

/// Everything the page may distribute: the capped fee plus the carry-over
/// that entered the call.
pub open spec fn spec_page_total_to_distribute(
    policy: Policy,
    carry_over_in: u64,
    investors: Seq<InvestorAccount>,
    claim: ClaimResult,
) -> int {
    spec_page_capped_fee(policy, investors, claim) + carry_over_in
}

/// What the page actually pays its investors.
pub open spec fn spec_page_distributed(
    policy: Policy,
    carry_over_in: u64,
    investors: Seq<InvestorAccount>,
    claim: ClaimResult,
) -> int {
    spec_sum_payouts(
        investors,
        spec_sum_locked(investors) as u64,
        spec_page_total_to_distribute(policy, carry_over_in, investors, claim) as u64,
        policy.min_payout_lamports,
    )
}

/// The remainder settled to the creator when the day closes: what was claimed
/// but not distributed, saturating at 0.
pub open spec fn spec_creator_remainder(
    policy: Policy,
    carry_over_in: u64,
    investors: Seq<InvestorAccount>,
    claim: ClaimResult,
) -> int {
    let distributed = spec_page_distributed(policy, carry_over_in, investors, claim);
    if claim.quote_amount >= distributed {
        claim.quote_amount - distributed
    } else {
        0
    }
}

/// Which error a crank call reports, `None` when the page is accepted.
/// The guards apply in this order: page number, day boundary (a closed day
/// is reported first), nonempty page, base-fee safety, locked totals, and
/// the one addition that untrusted balances could overflow.
pub open spec fn spec_crank_error(
    policy: Policy,
    progress: Progress,
    current_timestamp: i64,
    page: u64,
    investors: Seq<InvestorAccount>,
    claim: ClaimResult,
) -> Option<StarError> {
    if page == 0 {
        Some(StarError::InvalidPage)
    } else if !spec_is_new_day(progress, current_timestamp) {
        if progress.day_complete {
            Some(StarError::DistributionAlreadyComplete)
        } else {
            Some(StarError::DistributionTooEarly)
        }
    } else if investors.len() == 0 {
        Some(StarError::NoLockedInvestors)
    } else if claim.base_amount != 0 {
        Some(StarError::BaseFeeDetected)
    } else if spec_sum_locked(investors) > u64::MAX {
        Some(StarError::MathOverflow)
    } else if spec_sum_locked(investors) == 0 {
        Some(StarError::NoLockedInvestors)
    } else if spec_page_total_to_distribute(policy, progress.carry_over, investors, claim)
        > u64::MAX {
        Some(StarError::MathOverflow)
    } else {
        None
    }
}

/// The ledger an accepted page leaves behind: the day rolled over at the
/// call's timestamp, the claim and the payouts booked, the cursor advanced,
/// and, on the final page, the day closed with the carry-over zeroed.
pub open spec fn spec_crank_ok_progress(
    policy: Policy,
    progress: Progress,
    current_timestamp: i64,
    page: u64,
    investors: Seq<InvestorAccount>,
    claim: ClaimResult,
    is_final_page: bool,
) -> Progress {
    let reset = spec_reset_for_new_day(progress, current_timestamp);
    let total = spec_page_total_to_distribute(policy, progress.carry_over, investors, claim);
    let distributed = spec_page_distributed(policy, progress.carry_over, investors, claim);
    Progress {
        claimed_today: claim.quote_amount,
        distributed_today: distributed as u64,
        carry_over: if is_final_page {
            0u64
        } else {
            (total - distributed) as u64
        },
        pagination_cursor: page,
        day_complete: is_final_page,
        ..reset
    }
}

/// Everything a crank call reports back to its caller: the page's numbers and
/// the observable records of what happened.
#[derive(Clone, Debug, PartialEq)]
pub struct CrankOutcome {
    /// Lamports paid to this page's investors.
    pub distributed_this_page: u64,
    /// Undistributed remainder the page left for the future.
    pub carry_over_this_page: u64,
    /// Whether this call closed the day.
    pub day_complete: bool,
    /// Lamports settled to the creator; 0 unless the day closed.
    pub creator_remainder: u64,
    /// The claim that opened the page.
    pub fees_claimed: QuoteFeesClaimed,
    /// Present when the daily cap limited the payout.
    pub cap_applied: Option<DailyCapApplied>,
    /// One record per investor actually paid, in page order.
    pub investor_payouts: Vec<InvestorPayout>,
    /// Summary of the processed page.
    pub page_event: InvestorPayoutPage,
    /// Present when the day closed with a positive creator remainder.
    pub day_closed: Option<CreatorPayoutDayClosed>,
}

/// What every field of an accepted page's outcome must be.
pub open spec fn spec_crank_outcome_ok(
    policy: Policy,
    progress: Progress,
    current_timestamp: i64,
    page: u64,
    investors: Seq<InvestorAccount>,
    claim: ClaimResult,
    is_final_page: bool,
    position_owner: Pubkey,
    creator_quote_ata: Pubkey,
    outcome: CrankOutcome,
) -> bool {
    let day = ((current_timestamp as int) / (SECONDS_PER_DAY as int)) as i64;
    let total_locked = spec_sum_locked(investors) as u64;
    let eligible = spec_page_eligible_bps(policy, investors);
    let fee = spec_page_fee(policy, investors, claim);
    let capped = spec_page_capped_fee(policy, investors, claim);
    let total = spec_page_total_to_distribute(policy, progress.carry_over, investors, claim);
    let distributed = spec_page_distributed(policy, progress.carry_over, investors, claim);
    let remainder = spec_creator_remainder(policy, progress.carry_over, investors, claim);
    &&& outcome.distributed_this_page == distributed
    &&& outcome.carry_over_this_page == total - distributed
    &&& outcome.day_complete == is_final_page
    &&& outcome.creator_remainder == (if is_final_page {
        remainder
    } else {
        0
    })
    &&& outcome.fees_claimed == (QuoteFeesClaimed {
        amount: claim.quote_amount,
        position: position_owner,
        day,
        timestamp: current_timestamp,
    })
    &&& outcome.cap_applied == (if capped < fee {
        Some(
            DailyCapApplied {
                day,
                requested_payout: fee as u64,
                capped_payout: capped as u64,
                cap_amount: policy.daily_cap,
                timestamp: current_timestamp,
            },
        )
    } else {
        None::<DailyCapApplied>
    })
    &&& outcome.investor_payouts@ == spec_payout_events(
        investors,
        total_locked,
        total as u64,
        policy.min_payout_lamports,
        day,
        page,
        current_timestamp,
    )
    &&& outcome.page_event == (InvestorPayoutPage {
        day,
        page,
        distributed: distributed as u64,
        carry_over: (total - distributed) as u64,
        investors_processed: investors.len() as u64,
        locked_total: total_locked,
        eligible_share_bps: eligible as u16,
        timestamp: current_timestamp,
    })
    &&& outcome.day_closed == (if is_final_page && remainder > 0 {
        Some(
            CreatorPayoutDayClosed {
                day,
                remainder: remainder as u64,
                total_distributed_to_investors: distributed as u64,
                total_claimed: claim.quote_amount,
                creator: creator_quote_ata,
                timestamp: current_timestamp,
            },
        )
    } else {
        None::<CreatorPayoutDayClosed>
    })
}

/// Everything a crank call guarantees: the page is accepted exactly when
/// `spec_crank_error` finds nothing, a rejected call names that error and
/// leaves the ledger untouched, and an accepted call advances the ledger and
/// reports the outcome exactly as the transition functions say.
pub open spec fn spec_crank_post(
    policy: Policy,
    old_progress: Progress,
    new_progress: Progress,
    current_timestamp: i64,
    page: u64,
    investors: Seq<InvestorAccount>,
    claim: ClaimResult,
    is_final_page: bool,
    position_owner: Pubkey,
    creator_quote_ata: Pubkey,
    r: Result<CrankOutcome, StarError>,
) -> bool {
    &&& (r is Ok <==> spec_crank_error(
        policy,
        old_progress,
        current_timestamp,
        page,
        investors,
        claim,
    ) is None)
    &&& (r is Err ==> Some(r->Err_0) == spec_crank_error(
        policy,
        old_progress,
        current_timestamp,
        page,
        investors,
        claim,
    ))
    &&& (r is Err ==> new_progress == old_progress)
    &&& (r is Ok ==> new_progress == spec_crank_ok_progress(
        policy,
        old_progress,
        current_timestamp,
        page,
        investors,
        claim,
        is_final_page,
    ))
    &&& (r is Ok ==> spec_crank_outcome_ok(
        policy,
        old_progress,
        current_timestamp,
        page,
        investors,
        claim,
        is_final_page,
        position_owner,
        creator_quote_ata,
        r->Ok_0,
    ))
}

/// Process one page of the daily distribution.
///
/// The claim amounts come from the external fee-claim collaborator; the
/// investor records carry the externally sourced locked balances; the caller
/// signals the day's final page explicitly. Either the page is accepted and
/// the ledger advances exactly as `spec_crank_ok_progress` says, or the call
/// reports an error and the ledger is untouched.
#[verifier::loop_isolation(false)]
pub fn handler(
    policy: &Policy,
    progress: &mut Progress,
    current_timestamp: i64,
    page: u64,
    investor_accounts: &Vec<InvestorAccount>,
    claim_result: &ClaimResult,
    is_final_page: bool,
    position_owner: &Pubkey,
    creator_quote_ata: &Pubkey,
) -> (r: Result<CrankOutcome, StarError>)
    requires
        spec_policy_is_valid(*policy),
        spec_progress_wf(*old(progress)),
        0 <= current_timestamp <= MAX_TIMESTAMP,
    ensures
        spec_crank_post(
            *policy,
            *old(progress),
            *final(progress),
            current_timestamp,
            page,
            investor_accounts@,
            *claim_result,
            is_final_page,
            *position_owner,
            *creator_quote_ata,
            r,
        ),
        spec_progress_wf(*final(progress)),
{
    let ghost investors = investor_accounts@;

    if page == 0 {
        return Err(StarError::InvalidPage);
    }
    if !progress.is_new_day(current_timestamp) {
        if progress.day_complete {
            return Err(StarError::DistributionAlreadyComplete);
        }
        return Err(StarError::DistributionTooEarly);
    }
    if investor_accounts.len() == 0 {
        return Err(StarError::NoLockedInvestors);
    }
    match ValidationUtils::detect_base_fees(claim_result) {
        Ok(()) => (),
        Err(e) => {
            return Err(e);
        },
    }

    // Total locked amount across this page, guarded against overflow of the
    // untrusted balances.
    let n = investor_accounts.len();
    let mut total_locked: u64 = 0;
    let mut idx: usize = 0;
    while idx < n
        invariant
            0 <= idx <= n,
            n == investors.len(),
            investors == investor_accounts@,
            *progress == *old(progress),
            total_locked == spec_sum_locked(investors.take(idx as int)),
        decreases n - idx,
    {
        proof {
            assert(investors.take(idx + 1).drop_last() =~= investors.take(idx as int));
            assert(investors.take(idx + 1).last() == investors[idx as int]);
        }
        let locked_i = investor_accounts[idx].locked_amount;
        total_locked = match total_locked.checked_add(locked_i) {
            Some(t) => t,
            None => {
                proof {
                    assert(spec_sum_locked(investors.take(idx + 1)) == total_locked + locked_i);
                    lemma_sum_locked_take_le(investors, idx + 1);
                }
                return Err(StarError::MathOverflow);
            },
        };
        idx = idx + 1;
    }
    proof {
        assert(investors.take(n as int) =~= investors);
    }
    if total_locked == 0 {
        return Err(StarError::NoLockedInvestors);
    }

    let eligible_share_bps = match DistributionMath::calculate_eligible_share_bps(
        total_locked,
        policy.y0,
        policy.investor_fee_share_bps,
    ) {
        Ok(v) => v,
        Err(e) => {
            return Err(e);
        },
    };
    let total_investor_fee_quote = match DistributionMath::calculate_investor_fee_quote(
        claim_result.quote_amount,
        eligible_share_bps,
    ) {
        Ok(v) => v,
        Err(e) => {
            return Err(e);
        },
    };
    // The page opens the day, so nothing has been distributed yet today.
    let distributed_at_day_start: u64 = 0;
    let capped_investor_fee = match DistributionMath::apply_daily_cap(
        total_investor_fee_quote,
        policy.daily_cap,
        distributed_at_day_start,
    ) {
        Ok(v) => v,
        Err(e) => {
            return Err(e);
        },
    };
    let total_to_distribute = match capped_investor_fee.checked_add(progress.carry_over) {
        Some(t) => t,
        None => {
            return Err(StarError::MathOverflow);
        },
    };

    let current_day: i64 = current_timestamp / SECONDS_PER_DAY;

    // Pay each investor its weighted share of the distributable total.
    let mut distributed_this_page: u64 = 0;
    let mut payout_records: Vec<InvestorPayout> = Vec::new();
    let mut i: usize = 0;
    while i < n
        invariant
            0 <= i <= n,
            n == investors.len(),
            investors == investor_accounts@,
            *progress == *old(progress),
            0 < total_locked,
            spec_sum_locked(investors) == total_locked,
            policy.min_payout_lamports > 0,
            distributed_this_page == spec_sum_payouts(
                investors.take(i as int),
                total_locked,
                total_to_distribute,
                policy.min_payout_lamports,
            ),
            distributed_this_page <= total_to_distribute,
            payout_records@ == spec_payout_events(
                investors.take(i as int),
                total_locked,
                total_to_distribute,
                policy.min_payout_lamports,
                current_day,
                page,
                current_timestamp,
            ),
        decreases n - i,
    {
        proof {
            assert(investors.take(i + 1).drop_last() =~= investors.take(i as int));
            assert(investors.take(i + 1).last() == investors[i as int]);
            lemma_locked_le_sum(investors, i as int);
            lemma_sum_locked_take_le(investors, i + 1);
            lemma_sum_payouts_le_total(
                investors.take(i + 1),
                total_locked,
                total_to_distribute,
                policy.min_payout_lamports,
            );
            lemma_weight_le(investors[i as int].locked_amount, total_locked);
        }
        let locked = investor_accounts[i].locked_amount;
        let weight_bps = match DistributionMath::calculate_investor_weight(locked, total_locked) {
            Ok(v) => v,
            Err(e) => {
                return Err(e);
            },
        };
        let payout = match DistributionMath::calculate_investor_payout(
            total_to_distribute,
            weight_bps,
            policy.min_payout_lamports,
        ) {
            Ok(v) => v,
            Err(e) => {
                return Err(e);
            },
        };
        if payout > 0 {
            distributed_this_page = distributed_this_page + payout;
            payout_records.push(
                InvestorPayout {
                    investor: investor_accounts[i].investor_quote_ata,
                    amount: payout,
                    locked_amount: locked,
                    weight: weight_bps,
                    day: current_day,
                    page,
                    timestamp: current_timestamp,
                },
            );
        }
        i = i + 1;
    }
    proof {
        assert(investors.take(n as int) =~= investors);
    }

    // Undistributed remainder (dust and cap excess) kept for the future.
    let carry_over_this_page = total_to_distribute - distributed_this_page;

    // All checks passed: commit the page to the ledger.
    progress.reset_for_new_day(current_timestamp);
    progress.claimed_today = progress.claimed_today + claim_result.quote_amount;
    progress.distributed_today = progress.distributed_today + distributed_this_page;
    progress.carry_over = carry_over_this_page;
    progress.pagination_cursor = page;

    // On the day's final page, settle the remainder to the creator and close.
    let mut creator_remainder: u64 = 0;
    let mut day_closed: Option<CreatorPayoutDayClosed> = None;
    if is_final_page {
        let remainder = if progress.claimed_today >= progress.distributed_today {
            progress.claimed_today - progress.distributed_today
        } else {
            0
        };
        if remainder > 0 {
            day_closed = Some(
                CreatorPayoutDayClosed {
                    day: current_day,
                    remainder,
                    total_distributed_to_investors: progress.distributed_today,
                    total_claimed: progress.claimed_today,
                    creator: *creator_quote_ata,
                    timestamp: current_timestamp,
                },
            );
        }
        creator_remainder = remainder;
        progress.day_complete = true;
        progress.carry_over = 0;
    }

    let cap_applied = if capped_investor_fee < total_investor_fee_quote {
        Some(
            DailyCapApplied {
                day: current_day,
                requested_payout: total_investor_fee_quote,
                capped_payout: capped_investor_fee,
                cap_amount: policy.daily_cap,
                timestamp: current_timestamp,
            },
        )
    } else {
        None
    };

    Ok(
        CrankOutcome {
            distributed_this_page,
            carry_over_this_page,
            day_complete: is_final_page,
            creator_remainder,
            fees_claimed: QuoteFeesClaimed {
                amount: claim_result.quote_amount,
                position: *position_owner,
                day: current_day,
                timestamp: current_timestamp,
            },
            cap_applied,
            investor_payouts: payout_records,
            page_event: InvestorPayoutPage {
                day: current_day,
                page,
                distributed: distributed_this_page,
                carry_over: carry_over_this_page,
                investors_processed: n as u64,
                locked_total: total_locked,
                eligible_share_bps,
                timestamp: current_timestamp,
            },
            day_closed,
        },
    )
}

/// An accepted page's investor fee, after the cap, lies between 0 and the
/// claimed quote amount, and the page's distributable total fits in range.
proof fn lemma_page_amounts_in_range(
    policy: Policy,
    progress: Progress,
    current_timestamp: i64,
    page: u64,
    investors: Seq<InvestorAccount>,
    claim: ClaimResult,
)
    requires
        spec_policy_is_valid(policy),
        spec_crank_error(policy, progress, current_timestamp, page, investors, claim) is None,
    ensures
        0 <= spec_page_eligible_bps(policy, investors) <= 10000,
        0 <= spec_page_fee(policy, investors, claim) <= claim.quote_amount,
        0 <= spec_page_capped_fee(policy, investors, claim) <= spec_page_fee(
            policy,
            investors,
            claim,
        ),
        0 <= spec_page_distributed(policy, progress.carry_over, investors, claim)
            <= spec_page_total_to_distribute(policy, progress.carry_over, investors, claim),
        spec_page_total_to_distribute(policy, progress.carry_over, investors, claim) <= u64::MAX,
{
    lemma_sum_locked_nonneg(investors);
    let total_locked = spec_sum_locked(investors) as u64;
    crate::utils::lemma_eligible_share_bounds(
        total_locked,
        policy.y0,
        policy.investor_fee_share_bps,
    );
    crate::utils::lemma_bps_fraction_le(
        claim.quote_amount as int,
        spec_page_eligible_bps(policy, investors),
    );
    let total = spec_page_total_to_distribute(policy, progress.carry_over, investors, claim);
    lemma_sum_payouts_le_total(
        investors,
        total_locked,
        total as u64,
        policy.min_payout_lamports,
    );
}

/// Within a day, a page adds to `distributed_today` at most the capped
/// investor fee plus the carry-over that entered the call; and a day that
/// started with no carry-over never distributes more than it claimed.
pub proof fn lemma_page_distribution_bounded(
    policy: Policy,
    progress: Progress,
    current_timestamp: i64,
    page: u64,
    investors: Seq<InvestorAccount>,
    claim: ClaimResult,
    is_final_page: bool,
)
    requires
        spec_policy_is_valid(policy),
        spec_crank_error(policy, progress, current_timestamp, page, investors, claim) is None,
    ensures
        ({
            let new_progress = spec_crank_ok_progress(
                policy,
                progress,
                current_timestamp,
                page,
                investors,
                claim,
                is_final_page,
            );
            &&& new_progress.distributed_today <= progress.distributed_today
                + spec_page_capped_fee(policy, investors, claim) + progress.carry_over
            &&& (progress.carry_over == 0 ==> new_progress.distributed_today
                <= new_progress.claimed_today)
        }),
{
    lemma_page_amounts_in_range(policy, progress, current_timestamp, page, investors, claim);
}

/// Conservation at day close: when a day that started with no carry-over is
/// closed, what was distributed, what stays carried (nothing), and the
/// remainder settled to the creator together equal exactly what was claimed.
/// A day that starts with carry-over legitimately pays out more than it
/// claims, from funds claimed on earlier days, so it is excluded here.
pub proof fn lemma_conservation_at_close(
    policy: Policy,
    progress: Progress,
    current_timestamp: i64,
    page: u64,
    investors: Seq<InvestorAccount>,
    claim: ClaimResult,
)
    requires
        spec_policy_is_valid(policy),
        spec_crank_error(policy, progress, current_timestamp, page, investors, claim) is None,
        progress.carry_over == 0,
    ensures
        ({
            let new_progress = spec_crank_ok_progress(
                policy,
                progress,
                current_timestamp,
                page,
                investors,
                claim,
                true,
            );
            let remainder = spec_creator_remainder(policy, progress.carry_over, investors, claim);
            new_progress.distributed_today + new_progress.carry_over + remainder
                == new_progress.claimed_today
        }),
{
    lemma_page_amounts_in_range(policy, progress, current_timestamp, page, investors, claim);
}

/// Resubmitting an already-processed page number within the current day is
/// rejected, never reprocessed: before the next day gate opens, every call
/// fails, whatever page number it carries.
pub proof fn lemma_stale_page_rejected(
    policy: Policy,
    progress: Progress,
    current_timestamp: i64,
    page: u64,
    investors: Seq<InvestorAccount>,
    claim: ClaimResult,
)
    requires
        page <= progress.pagination_cursor,
        !spec_is_new_day(progress, current_timestamp),
    ensures
        spec_crank_error(policy, progress, current_timestamp, page, investors, claim) is Some,
{
}

/// The 24-hour gate rejects a call one second before the boundary with
/// `DistributionTooEarly`.
pub proof fn lemma_gate_too_early(
    policy: Policy,
    progress: Progress,
    current_timestamp: i64,
    page: u64,
    investors: Seq<InvestorAccount>,
    claim: ClaimResult,
)
    requires
        1 <= page,
        !progress.day_complete,
        current_timestamp == progress.last_distribution_ts + SECONDS_PER_DAY - 1,
    ensures
        spec_crank_error(policy, progress, current_timestamp, page, investors, claim) == Some(
            StarError::DistributionTooEarly,
        ),
{
}

/// The 24-hour gate is boundary inclusive: exactly at the boundary a
/// well-formed page is accepted.
pub proof fn lemma_gate_opens(
    policy: Policy,
    progress: Progress,
    current_timestamp: i64,
    page: u64,
    investors: Seq<InvestorAccount>,
    claim: ClaimResult,
)
    requires
        1 <= page,
        current_timestamp == progress.last_distribution_ts + SECONDS_PER_DAY,
        investors.len() > 0,
        claim.base_amount == 0,
        0 < spec_sum_locked(investors) <= u64::MAX,
        spec_page_total_to_distribute(policy, progress.carry_over, investors, claim) <= u64::MAX,
    ensures
        spec_crank_error(policy, progress, current_timestamp, page, investors, claim) is None,
{
}

/// Base-fee safety: any claim with a nonzero base amount aborts the whole
/// call. By the crank's contract, an aborted call leaves the ledger
/// untouched.
pub proof fn lemma_base_fee_aborts(
    policy: Policy,
    progress: Progress,
    current_timestamp: i64,
    page: u64,
    investors: Seq<InvestorAccount>,
    claim: ClaimResult,
)
    requires
        claim.base_amount != 0,
    ensures
        spec_crank_error(policy, progress, current_timestamp, page, investors, claim) is Some,
{
}

/// Claim fees from the honorary LP position. The market-making service that
/// physically claims is an external collaborator; this placeholder reports a
/// fixed quote-only accrual.
pub fn claim_fees_from_position() -> (r: ClaimResult)
    ensures
        r == (ClaimResult { base_amount: 0u64, quote_amount: 1000000u64 }),
{
    ClaimResult { base_amount: 0, quote_amount: 1000000 }
}

} // verus!
