//! The derived-address helpers against the real runtime derivation, and the
//! initialization handler.

use anchor_lang::prelude::Pubkey as AnchorPubkey;
use star_fee_distributor::errors::StarError;
use star_fee_distributor::initialize::handler as initialize_handler;
use star_fee_distributor::state::{
    derive_investor_fee_position_owner_pda, derive_policy_pda, derive_progress_pda,
    derive_treasury_pda, Pubkey,
};

fn key(n: u8) -> Pubkey {
    Pubkey { bytes: [n; 32] }
}

fn anchor_key(k: &Pubkey) -> AnchorPubkey {
    AnchorPubkey::new_from_array(k.bytes)
}

#[test]
fn policy_pda_matches_runtime_derivation() {
    let vault = key(3);
    let program = key(11);
    let (derived, bump) = derive_policy_pda(&vault, &program).unwrap();
    let (expected, expected_bump) = AnchorPubkey::find_program_address(
        &[b"vault", vault.bytes.as_ref(), b"policy"],
        &anchor_key(&program),
    );
    assert_eq!(derived.bytes, expected.to_bytes());
    assert_eq!(bump, expected_bump);
}

#[test]
fn progress_pda_matches_runtime_derivation() {
    let vault = key(3);
    let program = key(11);
    let (derived, bump) = derive_progress_pda(&vault, &program).unwrap();
    let (expected, expected_bump) = AnchorPubkey::find_program_address(
        &[b"vault", vault.bytes.as_ref(), b"progress"],
        &anchor_key(&program),
    );
    assert_eq!(derived.bytes, expected.to_bytes());
    assert_eq!(bump, expected_bump);
}

#[test]
fn position_owner_pda_matches_runtime_derivation() {
    let vault = key(4);
    let program = key(11);
    let (derived, bump) = derive_investor_fee_position_owner_pda(&vault, &program).unwrap();
    let (expected, expected_bump) = AnchorPubkey::find_program_address(
        &[b"vault", vault.bytes.as_ref(), b"investor_fee_pos_owner"],
        &anchor_key(&program),
    );
    assert_eq!(derived.bytes, expected.to_bytes());
    assert_eq!(bump, expected_bump);
}

#[test]
fn treasury_pda_matches_runtime_derivation() {
    let vault = key(4);
    let quote = key(5);
    let program = key(11);
    let (derived, bump) = derive_treasury_pda(&vault, &quote, &program).unwrap();
    let (expected, expected_bump) = AnchorPubkey::find_program_address(
        &[b"vault", vault.bytes.as_ref(), b"treasury", quote.bytes.as_ref()],
        &anchor_key(&program),
    );
    assert_eq!(derived.bytes, expected.to_bytes());
    assert_eq!(bump, expected_bump);
}

#[test]
fn pda_derivation_is_deterministic_and_seed_sensitive() {
    let vault = key(3);
    let program = key(11);
    assert_eq!(
        derive_policy_pda(&vault, &program),
        derive_policy_pda(&vault, &program)
    );
    // Different seeds give a different address.
    assert_ne!(
        derive_policy_pda(&vault, &program).unwrap().0.bytes,
        derive_progress_pda(&vault, &program).unwrap().0.bytes
    );
    assert_ne!(
        derive_policy_pda(&vault, &program).unwrap().0.bytes,
        derive_policy_pda(&key(4), &program).unwrap().0.bytes
    );
}

fn run_initialize(
    bps: u16,
    cap: u64,
    min: u64,
    y0: u64,
    treasury_mint: Pubkey,
) -> Result<
    (
        star_fee_distributor::state::Policy,
        star_fee_distributor::state::Progress,
        star_fee_distributor::events::HonoraryPositionInitialized,
    ),
    StarError,
> {
    initialize_handler(
        bps,
        cap,
        min,
        y0,
        &key(3),         // vault
        &key(5),         // quote mint
        &key(6),         // base mint
        &key(9),         // pool
        &treasury_mint,
        1_700_000_000,
        &key(11),        // program id
    )
}

#[test]
fn initialize_creates_policy_and_progress() {
    let (policy, progress, event) = run_initialize(5000, 1_000, 10, 1_000_000, key(5)).unwrap();
    assert_eq!(policy.investor_fee_share_bps, 5000);
    assert_eq!(policy.daily_cap, 1_000);
    assert_eq!(policy.min_payout_lamports, 10);
    assert_eq!(policy.y0, 1_000_000);
    assert_eq!(policy.quote_mint, key(5));
    assert_eq!(policy.vault, key(3));
    assert_eq!(policy.created_at, 1_700_000_000);
    let (_, expected_policy_bump) = AnchorPubkey::find_program_address(
        &[b"vault", key(3).bytes.as_ref(), b"policy"],
        &anchor_key(&key(11)),
    );
    assert_eq!(policy.bump, expected_policy_bump);

    assert_eq!(progress.last_distribution_ts, 0);
    assert_eq!(progress.distributed_today, 0);
    assert_eq!(progress.carry_over, 0);
    assert_eq!(progress.pagination_cursor, 0);
    assert_eq!(progress.current_day, 0);
    assert_eq!(progress.claimed_today, 0);
    assert!(!progress.day_complete);
    assert_eq!(progress.vault, key(3));

    let (expected_position, _) = AnchorPubkey::find_program_address(
        &[b"vault", key(3).bytes.as_ref(), b"investor_fee_pos_owner"],
        &anchor_key(&key(11)),
    );
    assert_eq!(event.position.bytes, expected_position.to_bytes());
    assert_eq!(event.quote_mint, key(5));
    assert_eq!(event.pool, key(9));
    assert_eq!(event.vault, key(3));
    assert_eq!(event.y0, 1_000_000);
    assert_eq!(event.timestamp, 1_700_000_000);
}

#[test]
fn initialize_rejects_each_bad_parameter() {
    assert_eq!(
        run_initialize(10_001, 1_000, 10, 1_000_000, key(5)).unwrap_err(),
        StarError::InvalidFeeShareBps
    );
    assert_eq!(
        run_initialize(5000, 0, 10, 1_000_000, key(5)).unwrap_err(),
        StarError::InvalidDailyCap
    );
    assert_eq!(
        run_initialize(5000, 1_000, 0, 1_000_000, key(5)).unwrap_err(),
        StarError::InvalidMinPayout
    );
    assert_eq!(
        run_initialize(5000, 1_000, 10, 0, key(5)).unwrap_err(),
        StarError::InvalidY0
    );
}

#[test]
fn initialize_rejects_treasury_of_a_different_mint() {
    assert_eq!(
        run_initialize(5000, 1_000, 10, 1_000_000, key(6)).unwrap_err(),
        StarError::InvalidQuoteMint
    );
}
