//! Persistent state of the distribution engine: the immutable `Policy`
//! configuration, the mutable daily `Progress` ledger, the per-page
//! `InvestorAccount` records, and the derived-address helpers that identify
//! the per-vault records.

use vstd::prelude::*;

use crate::errors::StarError;

verus! {

/// A 32-byte account address.
#[derive(Clone, Copy, Debug)]
pub struct Pubkey {
    pub bytes: [u8; 32],
}

impl PartialEq for Pubkey {
    fn eq(&self, other: &Pubkey) -> (r: bool) {
        let mut i: usize = 0;
        let mut same: bool = true;
        while i < 32
            invariant
                0 <= i <= 32,
                same <==> (forall|j: int| 0 <= j < i ==> self.bytes@[j] == other.bytes@[j]),
            decreases 32 - i,
        {
            if self.bytes[i] != other.bytes[i] {
                same = false;
            }
            i = i + 1;
        }
        proof {
            if same {
                assert(self.bytes@ =~= other.bytes@);
            }
        }
        same
    }
}

impl vstd::std_specs::cmp::PartialEqSpecImpl for Pubkey {
    open spec fn obeys_eq_spec() -> bool {
        true
    }

    open spec fn eq_spec(&self, other: &Pubkey) -> bool {
        self.bytes@ == other.bytes@
    }
}

/// Policy configuration for fee distribution: created once at initialization,
/// validated there, and read-only afterwards.
#[derive(Clone, Debug, PartialEq)]
pub struct Policy {
    /// Maximum basis points (0-10000) for investor fee share.
    pub investor_fee_share_bps: u16,
    /// Daily maximum payout to investors, in lamports (0 is invalid).
    pub daily_cap: u64,
    /// Minimum payout threshold in lamports (dust filter; 0 is invalid).
    pub min_payout_lamports: u64,
    /// Total investor allocation at the reference allocation event (Y0).
    pub y0: u64,
    /// Quote mint for this vault.
    pub quote_mint: Pubkey,
    /// Vault this policy belongs to.
    pub vault: Pubkey,
    /// Timestamp when the policy was created.
    pub created_at: i64,
    /// Derived-address bump seed.
    pub bump: u8,
}

/// Daily distribution progress: one live instance per vault, reset on day
/// rollover (except `carry_over`, which is preserved across the reset).
#[derive(Clone, Debug, PartialEq)]
pub struct Progress {
    /// Unix timestamp of the day's first accepted crank call.
    pub last_distribution_ts: i64,
    /// Total amount distributed to investors today, in lamports.
    pub distributed_today: u64,
    /// Undistributed remainder carried forward across pages and days.
    pub carry_over: u64,
    /// Last page number successfully processed.
    pub pagination_cursor: u64,
    /// Current day index, `floor(timestamp / 86400)`.
    pub current_day: i64,
    /// Total amount claimed today from the honorary position.
    pub claimed_today: u64,
    /// Terminal flag for the day: blocks further investor pages once set.
    pub day_complete: bool,
    /// Vault this progress belongs to.
    pub vault: Pubkey,
    /// Derived-address bump seed.
    pub bump: u8,
}

/// One investor's record for a page: supplied by the caller, consumed once.
#[derive(Clone, Debug, PartialEq)]
pub struct InvestorAccount {
    /// Vesting stream this record was snapshotted from.
    pub stream_pubkey: Pubkey,
    /// Investor's quote token destination.
    pub investor_quote_ata: Pubkey,
    /// Still-locked amount at the call's timestamp, externally sourced.
    pub locked_amount: u64,
    /// Pro-rata weight within this page, in basis points.
    pub weight: u64,
}

/// Seconds in a day: the length of the distribution gate.
pub const SECONDS_PER_DAY: i64 = 86400;

/// Largest timestamp the engine accepts, so that adding one day never
/// overflows a signed 64-bit value.
pub const MAX_TIMESTAMP: i64 = i64::MAX - 86400;

/// Size in bytes of a persisted `Policy` record (8-byte tag, then fields).
pub const POLICY_SIZE: usize = 8 + 2 + 8 + 8 + 8 + 32 + 32 + 8 + 1;

/// Size in bytes of a persisted `Progress` record (8-byte tag, then fields).
pub const PROGRESS_SIZE: usize = 8 + 8 + 8 + 8 + 8 + 8 + 8 + 1 + 32 + 1;

/// The byte seed `"vault"`.
pub open spec fn spec_vault_seed() -> Seq<u8> {
    seq![118u8, 97u8, 117u8, 108u8, 116u8]
}

/// The byte seed `"policy"`.
pub open spec fn spec_policy_seed() -> Seq<u8> {
    seq![112u8, 111u8, 108u8, 105u8, 99u8, 121u8]
}

/// The byte seed `"progress"`.
pub open spec fn spec_progress_seed() -> Seq<u8> {
    seq![112u8, 114u8, 111u8, 103u8, 114u8, 101u8, 115u8, 115u8]
}

/// The byte seed `"investor_fee_pos_owner"`.
pub open spec fn spec_investor_fee_pos_owner_seed() -> Seq<u8> {
    seq![
        105u8, 110u8, 118u8, 101u8, 115u8, 116u8, 111u8, 114u8, 95u8, 102u8, 101u8, 101u8,
        95u8, 112u8, 111u8, 115u8, 95u8, 111u8, 119u8, 110u8, 101u8, 114u8,
    ]
}

/// The byte seed `"treasury"`.
pub open spec fn spec_treasury_seed() -> Seq<u8> {
    seq![116u8, 114u8, 101u8, 97u8, 115u8, 117u8, 114u8, 121u8]
}

pub fn vault_seed() -> (r: Vec<u8>)
    ensures
        r@ == spec_vault_seed(),
{
    let r = vec![118u8, 97u8, 117u8, 108u8, 116u8];
    proof {
        assert(r@ =~= spec_vault_seed());
    }
    r
}

pub fn policy_seed() -> (r: Vec<u8>)
    ensures
        r@ == spec_policy_seed(),
{
    let r = vec![112u8, 111u8, 108u8, 105u8, 99u8, 121u8];
    proof {
        assert(r@ =~= spec_policy_seed());
    }
    r
}

pub fn progress_seed() -> (r: Vec<u8>)
    ensures
        r@ == spec_progress_seed(),
{
    let r = vec![112u8, 114u8, 111u8, 103u8, 114u8, 101u8, 115u8, 115u8];
    proof {
        assert(r@ =~= spec_progress_seed());
    }
    r
}

pub fn investor_fee_pos_owner_seed() -> (r: Vec<u8>)
    ensures
        r@ == spec_investor_fee_pos_owner_seed(),
{
    let r = vec![
        105u8, 110u8, 118u8, 101u8, 115u8, 116u8, 111u8, 114u8, 95u8, 102u8, 101u8, 101u8,
        95u8, 112u8, 111u8, 115u8, 95u8, 111u8, 119u8, 110u8, 101u8, 114u8,
    ];
    proof {
        assert(r@ =~= spec_investor_fee_pos_owner_seed());
    }
    r
}

pub fn treasury_seed() -> (r: Vec<u8>)
    ensures
        r@ == spec_treasury_seed(),
{
    let r = vec![116u8, 114u8, 101u8, 97u8, 115u8, 117u8, 114u8, 121u8];
    proof {
        assert(r@ =~= spec_treasury_seed());
    }
    r
}

/// What `Pubkey::try_find_program_address` returns for given seeds and
/// program id: a deterministic function of its arguments alone.
pub uninterp spec fn pda_opt_of(seeds: Seq<Seq<u8>>, program_id: Pubkey) -> Option<(Pubkey, u8)>;

/// Relies on solana's `Pubkey::try_find_program_address` (the type
/// re-exported by anchor_lang): the derived address and bump seed are a
/// deterministic function of the seeds and the program id alone; `None` when
/// no bump seed yields a valid off-curve address or a seed constraint is
/// violated.
#[verifier::external_body]
fn find_pda(seeds: &Vec<Vec<u8>>, program_id: &Pubkey) -> (r: Option<(Pubkey, u8)>)
    ensures
        r == pda_opt_of(seeds@.map_values(|s: Vec<u8>| s@), *program_id),
{
    let refs: Vec<&[u8]> = seeds.iter().map(|s| s.as_slice()).collect();
    let pid = anchor_lang::prelude::Pubkey::new_from_array(program_id.bytes);
    anchor_lang::prelude::Pubkey::try_find_program_address(&refs, &pid)
        .map(|(key, bump)| (Pubkey { bytes: key.to_bytes() }, bump))
}

/// Seeds identifying a vault's policy record.
pub open spec fn spec_policy_seeds(vault: Pubkey) -> Seq<Seq<u8>> {
    seq![spec_vault_seed(), vault.bytes@, spec_policy_seed()]
}

/// Seeds identifying a vault's progress record.
pub open spec fn spec_progress_seeds(vault: Pubkey) -> Seq<Seq<u8>> {
    seq![spec_vault_seed(), vault.bytes@, spec_progress_seed()]
}

/// Seeds identifying a vault's honorary-position owner.
pub open spec fn spec_investor_fee_position_owner_seeds(vault: Pubkey) -> Seq<Seq<u8>> {
    seq![spec_vault_seed(), vault.bytes@, spec_investor_fee_pos_owner_seed()]
}

/// Seeds identifying a vault's treasury for a given quote mint.
pub open spec fn spec_treasury_seeds(vault: Pubkey, quote_mint: Pubkey) -> Seq<Seq<u8>> {
    seq![spec_vault_seed(), vault.bytes@, spec_treasury_seed(), quote_mint.bytes@]
}

fn pubkey_to_vec(key: &Pubkey) -> (r: Vec<u8>)
    ensures
        r@ == key.bytes@,
{
    vstd::slice::slice_to_vec(key.bytes.as_slice())
}

/// Address and bump of a vault's policy record under the given program.
pub fn derive_policy_pda(vault: &Pubkey, program_id: &Pubkey) -> (r: Option<(Pubkey, u8)>)
    ensures
        r == pda_opt_of(spec_policy_seeds(*vault), *program_id),
{
    let mut seeds: Vec<Vec<u8>> = Vec::new();
    seeds.push(vault_seed());
    seeds.push(pubkey_to_vec(vault));
    seeds.push(policy_seed());
    let r = find_pda(&seeds, program_id);
    proof {
        assert(seeds@.map_values(|s: Vec<u8>| s@) =~= spec_policy_seeds(*vault));
    }
    r
}

/// Address and bump of a vault's progress record under the given program.
pub fn derive_progress_pda(vault: &Pubkey, program_id: &Pubkey) -> (r: Option<(Pubkey, u8)>)
    ensures
        r == pda_opt_of(spec_progress_seeds(*vault), *program_id),
{
    let mut seeds: Vec<Vec<u8>> = Vec::new();
    seeds.push(vault_seed());
    seeds.push(pubkey_to_vec(vault));
    seeds.push(progress_seed());
    let r = find_pda(&seeds, program_id);
    proof {
        assert(seeds@.map_values(|s: Vec<u8>| s@) =~= spec_progress_seeds(*vault));
    }
    r
}

/// Address and bump of the owner of a vault's honorary position.
pub fn derive_investor_fee_position_owner_pda(vault: &Pubkey, program_id: &Pubkey) -> (r: Option<
    (Pubkey, u8),
>)
    ensures
        r == pda_opt_of(spec_investor_fee_position_owner_seeds(*vault), *program_id),
{
    let mut seeds: Vec<Vec<u8>> = Vec::new();
    seeds.push(vault_seed());
    seeds.push(pubkey_to_vec(vault));
    seeds.push(investor_fee_pos_owner_seed());
    let r = find_pda(&seeds, program_id);
    proof {
        assert(seeds@.map_values(|s: Vec<u8>| s@) =~= spec_investor_fee_position_owner_seeds(
            *vault,
        ));
    }
    r
}

/// Address and bump of a vault's treasury for a given quote mint.
pub fn derive_treasury_pda(vault: &Pubkey, quote_mint: &Pubkey, program_id: &Pubkey) -> (r: Option<
    (Pubkey, u8),
>)
    ensures
        r == pda_opt_of(spec_treasury_seeds(*vault, *quote_mint), *program_id),
{
    let mut seeds: Vec<Vec<u8>> = Vec::new();
    seeds.push(vault_seed());
    seeds.push(pubkey_to_vec(vault));
    seeds.push(treasury_seed());
    seeds.push(pubkey_to_vec(quote_mint));
    let r = find_pda(&seeds, program_id);
    proof {
        assert(seeds@.map_values(|s: Vec<u8>| s@) =~= spec_treasury_seeds(*vault, *quote_mint));
    }
    r
}

/// The configuration limits every policy must satisfy.
pub open spec fn spec_policy_is_valid(policy: Policy) -> bool {
    &&& policy.investor_fee_share_bps <= 10000
    &&& policy.daily_cap > 0
    &&& policy.min_payout_lamports > 0
    &&& policy.y0 > 0
}

/// Outcome of validating a policy's numeric fields, first violation wins.
pub open spec fn spec_validate_policy(policy: Policy) -> Result<(), StarError> {
    if policy.investor_fee_share_bps > 10000 {
        Err(StarError::InvalidFeeShareBps)
    } else if policy.daily_cap == 0 {
        Err(StarError::InvalidDailyCap)
    } else if policy.min_payout_lamports == 0 {
        Err(StarError::InvalidMinPayout)
    } else if policy.y0 == 0 {
        Err(StarError::InvalidY0)
    } else {
        Ok(())
    }
}

impl Policy {
    /// Assemble a policy record from its fields.
    pub fn new(
        investor_fee_share_bps: u16,
        daily_cap: u64,
        min_payout_lamports: u64,
        y0: u64,
        quote_mint: Pubkey,
        vault: Pubkey,
        created_at: i64,
        bump: u8,
    ) -> (r: Policy)
        ensures
            r == (Policy {
                investor_fee_share_bps,
                daily_cap,
                min_payout_lamports,
                y0,
                quote_mint,
                vault,
                created_at,
                bump,
            }),
    {
        Policy {
            investor_fee_share_bps,
            daily_cap,
            min_payout_lamports,
            y0,
            quote_mint,
            vault,
            created_at,
            bump,
        }
    }

    /// Check the numeric configuration limits, reporting the first violation.
    pub fn validate(&self) -> (r: Result<(), StarError>)
        ensures
            r == spec_validate_policy(*self),
            r is Ok <==> spec_policy_is_valid(*self),
    {
        if self.investor_fee_share_bps > 10000 {
            Err(StarError::InvalidFeeShareBps)
        } else if self.daily_cap == 0 {
            Err(StarError::InvalidDailyCap)
        } else if self.min_payout_lamports == 0 {
            Err(StarError::InvalidMinPayout)
        } else if self.y0 == 0 {
            Err(StarError::InvalidY0)
        } else {
            Ok(())
        }
    }
}

/// Bounds under which the day gate's arithmetic stays in range.
pub open spec fn spec_progress_wf(progress: Progress) -> bool {
    &&& 0 <= progress.last_distribution_ts <= MAX_TIMESTAMP
    &&& 0 <= progress.current_day
}

/// The 24-hour gate: a timestamp opens a new day exactly when a full day has
/// passed since the day's first accepted call (boundary inclusive).
pub open spec fn spec_is_new_day(progress: Progress, current_ts: i64) -> bool {
    current_ts >= progress.last_distribution_ts + SECONDS_PER_DAY
}

/// The daily ledger fields after a day rollover at `current_ts`:
/// counters and cursor cleared, the day index and gate timestamp set,
/// `carry_over` explicitly preserved.
pub open spec fn spec_reset_for_new_day(progress: Progress, current_ts: i64) -> Progress {
    Progress {
        last_distribution_ts: current_ts,
        distributed_today: 0,
        claimed_today: 0,
        pagination_cursor: 0,
        current_day: ((current_ts as int) / (SECONDS_PER_DAY as int)) as i64,
        day_complete: false,
        ..progress
    }
}

impl Progress {
    /// A fresh ledger for a vault: all counters zero, day open.
    pub fn new(vault: Pubkey, bump: u8) -> (r: Progress)
        ensures
            r == (Progress {
                last_distribution_ts: 0,
                distributed_today: 0,
                carry_over: 0,
                pagination_cursor: 0,
                current_day: 0,
                claimed_today: 0,
                day_complete: false,
                vault,
                bump,
            }),
    {
        Progress {
            last_distribution_ts: 0,
            distributed_today: 0,
            carry_over: 0,
            pagination_cursor: 0,
            current_day: 0,
            claimed_today: 0,
            day_complete: false,
            vault,
            bump,
        }
    }

    /// Whether `current_ts` lies at or past the 24-hour gate.
    pub fn is_new_day(&self, current_ts: i64) -> (r: bool)
        requires
            self.last_distribution_ts <= MAX_TIMESTAMP,
        ensures
            r == spec_is_new_day(*self, current_ts),
    {
        current_ts >= self.last_distribution_ts + SECONDS_PER_DAY
    }

    /// Start a new day at `current_ts`, preserving `carry_over`.
    pub fn reset_for_new_day(&mut self, current_ts: i64)
        requires
            0 <= current_ts,
        ensures
            *final(self) == spec_reset_for_new_day(*old(self), current_ts),
    {
        self.last_distribution_ts = current_ts;
        self.distributed_today = 0;
        self.claimed_today = 0;
        self.pagination_cursor = 0;
        self.current_day = current_ts / SECONDS_PER_DAY;
        self.day_complete = false;
    }
}

} // verus!
