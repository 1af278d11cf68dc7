//! The daily state machine end to end: the 24-hour gate, the safety aborts,
//! pro-rata payouts, the dust filter, carry-over, and day close.

use star_fee_distributor::crank::{claim_fees_from_position, handler, CrankOutcome};
use star_fee_distributor::errors::StarError;
use star_fee_distributor::state::{InvestorAccount, Policy, Progress, Pubkey};
use star_fee_distributor::utils::ClaimResult;

const DAY: i64 = 86400;

fn key(n: u8) -> Pubkey {
    Pubkey { bytes: [n; 32] }
}

fn policy(bps: u16, cap: u64, min: u64, y0: u64) -> Policy {
    Policy::new(bps, cap, min, y0, key(2), key(3), 0, 255)
}

fn fresh_progress() -> Progress {
    Progress::new(key(3), 254)
}

fn investor(n: u8, locked: u64) -> InvestorAccount {
    InvestorAccount {
        stream_pubkey: key(n),
        investor_quote_ata: key(n + 100),
        locked_amount: locked,
        weight: 0,
    }
}

fn claim(base: u64, quote: u64) -> ClaimResult {
    ClaimResult { base_amount: base, quote_amount: quote }
}

fn crank(
    policy: &Policy,
    progress: &mut Progress,
    ts: i64,
    page: u64,
    investors: &Vec<InvestorAccount>,
    claim: &ClaimResult,
    is_final: bool,
) -> Result<CrankOutcome, StarError> {
    handler(
        policy, progress, ts, page, investors, claim, is_final, &key(7), &key(8),
    )
}

#[test]
fn day_gate_one_second_early_fails() {
    let p = policy(5000, u64::MAX, 1, 1_000_000);
    let mut progress = fresh_progress();
    progress.last_distribution_ts = 1000;
    let before = progress.clone();
    let r = crank(
        &p,
        &mut progress,
        1000 + DAY - 1,
        1,
        &vec![investor(1, 500)],
        &claim(0, 100_000),
        false,
    );
    assert_eq!(r.unwrap_err(), StarError::DistributionTooEarly);
    assert_eq!(progress, before);
}

#[test]
fn day_gate_boundary_is_inclusive() {
    let p = policy(5000, u64::MAX, 1, 1_000_000);
    let mut progress = fresh_progress();
    progress.last_distribution_ts = 1000;
    let r = crank(
        &p,
        &mut progress,
        1000 + DAY,
        1,
        &vec![investor(1, 500_000)],
        &claim(0, 100_000),
        false,
    );
    assert!(r.is_ok());
    assert_eq!(progress.last_distribution_ts, 1000 + DAY);
    assert_eq!(progress.current_day, (1000 + DAY) / DAY);
}

#[test]
fn page_zero_is_invalid() {
    let p = policy(5000, u64::MAX, 1, 1_000_000);
    let mut progress = fresh_progress();
    let before = progress.clone();
    let r = crank(
        &p,
        &mut progress,
        DAY,
        0,
        &vec![investor(1, 500)],
        &claim(0, 100_000),
        false,
    );
    assert_eq!(r.unwrap_err(), StarError::InvalidPage);
    assert_eq!(progress, before);
}

#[test]
fn closed_day_rejects_further_pages() {
    let p = policy(5000, u64::MAX, 1, 1_000_000);
    let mut progress = fresh_progress();
    progress.last_distribution_ts = 5 * DAY;
    progress.day_complete = true;
    let before = progress.clone();
    let r = crank(
        &p,
        &mut progress,
        5 * DAY + 10,
        2,
        &vec![investor(1, 500)],
        &claim(0, 100_000),
        false,
    );
    assert_eq!(r.unwrap_err(), StarError::DistributionAlreadyComplete);
    assert_eq!(progress, before);
}

#[test]
fn empty_investor_page_is_rejected() {
    let p = policy(5000, u64::MAX, 1, 1_000_000);
    let mut progress = fresh_progress();
    let r = crank(&p, &mut progress, DAY, 1, &vec![], &claim(0, 100_000), false);
    assert_eq!(r.unwrap_err(), StarError::NoLockedInvestors);
}

#[test]
fn all_zero_locked_amounts_are_rejected() {
    let p = policy(5000, u64::MAX, 1, 1_000_000);
    let mut progress = fresh_progress();
    let r = crank(
        &p,
        &mut progress,
        DAY,
        1,
        &vec![investor(1, 0), investor(2, 0)],
        &claim(0, 100_000),
        false,
    );
    assert_eq!(r.unwrap_err(), StarError::NoLockedInvestors);
}

#[test]
fn base_fee_aborts_with_no_state_change() {
    let p = policy(5000, u64::MAX, 1, 1_000_000);
    let mut progress = fresh_progress();
    progress.carry_over = 42;
    let before = progress.clone();
    let r = crank(
        &p,
        &mut progress,
        DAY,
        1,
        &vec![investor(1, 500_000)],
        &claim(1, u64::MAX),
        true,
    );
    assert_eq!(r.unwrap_err(), StarError::BaseFeeDetected);
    assert_eq!(progress, before);
}

#[test]
fn locked_sum_overflow_is_a_math_error() {
    let p = policy(5000, u64::MAX, 1, 1_000_000);
    let mut progress = fresh_progress();
    let before = progress.clone();
    let r = crank(
        &p,
        &mut progress,
        DAY,
        1,
        &vec![investor(1, u64::MAX), investor(2, u64::MAX)],
        &claim(0, 100_000),
        false,
    );
    assert_eq!(r.unwrap_err(), StarError::MathOverflow);
    assert_eq!(progress, before);
}

#[test]
fn carry_over_addition_overflow_is_a_math_error() {
    let p = policy(10_000, u64::MAX, 1, 1_000);
    let mut progress = fresh_progress();
    progress.carry_over = u64::MAX;
    let before = progress.clone();
    let r = crank(
        &p,
        &mut progress,
        DAY,
        1,
        &vec![investor(1, 1_000)],
        &claim(0, 100_000),
        false,
    );
    assert_eq!(r.unwrap_err(), StarError::MathOverflow);
    assert_eq!(progress, before);
}

#[test]
fn resubmitted_page_within_day_is_rejected() {
    // First page of the day succeeds; resubmitting any page before the next
    // gate fails rather than reprocessing.
    let p = policy(10_000, u64::MAX, 1, 1_000);
    let mut progress = fresh_progress();
    let investors = vec![investor(1, 300), investor(2, 700)];
    let r = crank(&p, &mut progress, DAY, 1, &investors, &claim(0, 1_000), false);
    assert!(r.is_ok());
    assert_eq!(progress.pagination_cursor, 1);
    let before = progress.clone();
    let r = crank(&p, &mut progress, DAY, 1, &investors, &claim(0, 1_000), false);
    assert_eq!(r.unwrap_err(), StarError::DistributionTooEarly);
    assert_eq!(progress, before);
}

#[test]
fn two_investor_pro_rata_scenario() {
    // locked {300, 700} of 1000, distributable 1000: payouts {300, 700},
    // nothing carried over.
    let p = policy(10_000, u64::MAX, 1, 1_000);
    let mut progress = fresh_progress();
    let investors = vec![investor(1, 300), investor(2, 700)];
    let outcome = crank(&p, &mut progress, DAY, 1, &investors, &claim(0, 1_000), true)
        .unwrap();
    assert_eq!(outcome.distributed_this_page, 1_000);
    assert_eq!(outcome.carry_over_this_page, 0);
    assert_eq!(outcome.investor_payouts.len(), 2);
    assert_eq!(outcome.investor_payouts[0].amount, 300);
    assert_eq!(outcome.investor_payouts[0].weight, 3000);
    assert_eq!(outcome.investor_payouts[0].investor, key(101));
    assert_eq!(outcome.investor_payouts[1].amount, 700);
    assert_eq!(outcome.investor_payouts[1].weight, 7000);
    assert_eq!(outcome.creator_remainder, 0);
    assert!(outcome.day_closed.is_none());
    assert!(progress.day_complete);
    assert_eq!(progress.distributed_today, 1_000);
    assert_eq!(progress.claimed_today, 1_000);
}

#[test]
fn capped_scenario_splits_half_to_investors() {
    // y0 1_000_000, share cap 5000 bps, locked 500_000, claimed 100_000:
    // the eligible share is exactly 5000 bps and investors get 50_000.
    let p = policy(5000, u64::MAX, 1, 1_000_000);
    let mut progress = fresh_progress();
    let investors = vec![investor(1, 500_000)];
    let outcome = crank(&p, &mut progress, DAY, 1, &investors, &claim(0, 100_000), true)
        .unwrap();
    assert_eq!(outcome.page_event.eligible_share_bps, 5000);
    assert_eq!(outcome.distributed_this_page, 50_000);
    assert_eq!(outcome.creator_remainder, 50_000);
    assert_eq!(progress.distributed_today, 50_000);
    assert_eq!(progress.claimed_today, 100_000);
}

#[test]
fn dust_payout_is_withheld_and_carried() {
    // The single investor's payout computes to 50_000, one below the
    // threshold: nothing is paid, the amount stays in carry-over.
    let p = policy(5000, u64::MAX, 50_001, 1_000_000);
    let mut progress = fresh_progress();
    let investors = vec![investor(1, 500_000)];
    let outcome = crank(&p, &mut progress, DAY, 1, &investors, &claim(0, 100_000), false)
        .unwrap();
    assert_eq!(outcome.distributed_this_page, 0);
    assert_eq!(outcome.carry_over_this_page, 50_000);
    assert!(outcome.investor_payouts.is_empty());
    assert_eq!(progress.carry_over, 50_000);
    assert_eq!(progress.distributed_today, 0);
}

#[test]
fn daily_cap_event_reports_the_clamp() {
    // Fee before the cap is 50_000; a cap of 400 clamps the payout.
    let p = policy(5000, 400, 1, 1_000_000);
    let mut progress = fresh_progress();
    let investors = vec![investor(1, 500_000)];
    let outcome = crank(&p, &mut progress, DAY, 1, &investors, &claim(0, 100_000), false)
        .unwrap();
    let cap_event = outcome.cap_applied.expect("cap should have applied");
    assert_eq!(cap_event.requested_payout, 50_000);
    assert_eq!(cap_event.capped_payout, 400);
    assert_eq!(cap_event.cap_amount, 400);
    assert_eq!(outcome.distributed_this_page, 400);
    assert_eq!(outcome.carry_over_this_page, 0);
}

#[test]
fn conservation_at_day_close() {
    // With no carry-over entering the day, distributed + carry + remainder
    // equals exactly what was claimed when the day closes.
    let p = policy(7000, u64::MAX, 1, 1_000_000);
    let mut progress = fresh_progress();
    let investors = vec![investor(1, 200_000), investor(2, 300_000)];
    let outcome = crank(&p, &mut progress, DAY, 1, &investors, &claim(0, 99_999), true)
        .unwrap();
    assert!(progress.day_complete);
    assert_eq!(progress.carry_over, 0);
    assert_eq!(
        progress.distributed_today + progress.carry_over + outcome.creator_remainder,
        progress.claimed_today
    );
    let closed = outcome.day_closed.expect("a positive remainder closes loudly");
    assert_eq!(closed.remainder, outcome.creator_remainder);
    assert_eq!(closed.total_claimed, 99_999);
    assert_eq!(closed.creator, key(8));
}

#[test]
fn carry_over_is_preserved_across_the_day_reset() {
    let p = policy(0, u64::MAX, 1, 1_000_000);
    let mut progress = fresh_progress();
    progress.carry_over = 250;
    // Share 0 bps: the whole distributable total is yesterday's carry-over.
    let investors = vec![investor(1, 100)];
    let outcome = crank(&p, &mut progress, DAY, 1, &investors, &claim(0, 100_000), false)
        .unwrap();
    assert_eq!(outcome.page_event.eligible_share_bps, 0);
    assert_eq!(outcome.distributed_this_page, 250);
    assert_eq!(progress.carry_over, 0);
    assert_eq!(progress.distributed_today, 250);
}

#[test]
fn page_event_summarizes_the_page() {
    let p = policy(10_000, u64::MAX, 1, 1_000);
    let mut progress = fresh_progress();
    let investors = vec![investor(1, 300), investor(2, 700)];
    let ts = 3 * DAY + 17;
    let outcome = crank(&p, &mut progress, ts, 4, &investors, &claim(0, 1_000), false)
        .unwrap();
    assert_eq!(outcome.page_event.day, 3);
    assert_eq!(outcome.page_event.page, 4);
    assert_eq!(outcome.page_event.investors_processed, 2);
    assert_eq!(outcome.page_event.locked_total, 1_000);
    assert_eq!(outcome.page_event.timestamp, ts);
    assert_eq!(outcome.fees_claimed.amount, 1_000);
    assert_eq!(outcome.fees_claimed.position, key(7));
    assert_eq!(outcome.fees_claimed.day, 3);
    assert_eq!(progress.pagination_cursor, 4);
}

#[test]
fn is_new_day_boundary_is_inclusive() {
    let mut progress = fresh_progress();
    progress.last_distribution_ts = 1000;
    assert!(!progress.is_new_day(1000 + DAY - 1));
    assert!(progress.is_new_day(1000 + DAY));
}

#[test]
fn day_reset_clears_counters_but_keeps_carry_over() {
    let mut progress = fresh_progress();
    progress.claimed_today = 10;
    progress.distributed_today = 5;
    progress.pagination_cursor = 3;
    progress.day_complete = true;
    progress.carry_over = 77;
    progress.reset_for_new_day(9 * DAY + 5);
    assert_eq!(progress.last_distribution_ts, 9 * DAY + 5);
    assert_eq!(progress.current_day, 9);
    assert_eq!(progress.claimed_today, 0);
    assert_eq!(progress.distributed_today, 0);
    assert_eq!(progress.pagination_cursor, 0);
    assert!(!progress.day_complete);
    assert_eq!(progress.carry_over, 77);
}

#[test]
fn claim_placeholder_is_quote_only() {
    let c = claim_fees_from_position();
    assert_eq!(c.base_amount, 0);
    assert_eq!(c.quote_amount, 1_000_000);
}
