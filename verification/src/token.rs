//! Linear vesting of token grants, with a cliff.

use crate::pubkey::Pubkey;
use crate::registry::{holds, Registry};
use vstd::prelude::*;

verus! {

/// Decimal places of the NEXUS token.
pub const DECIMALS: u8 = 9;

/// All the tokens there are at the start, in the smallest unit: 100 million
/// tokens.
pub const INITIAL_SUPPLY: u64 = 100_000_000_000_000_000;

/// The community's 40% of the supply.
pub const COMMUNITY_POOL: u64 = 40_000_000_000_000_000;

/// The treasury's 20% of the supply.
pub const TREASURY_POOL: u64 = 20_000_000_000_000_000;

/// The team's 15% of the supply.
pub const TEAM_POOL: u64 = 15_000_000_000_000_000;

/// The backers' 15% of the supply.
pub const BACKERS_POOL: u64 = 15_000_000_000_000_000;

/// The DAO's reserve, 10% of the supply.
pub const DAO_RESERVE: u64 = 10_000_000_000_000_000;

/// The five pools make up the supply, with nothing left over.
pub proof fn lemma_pools_make_up_supply()
    ensures
        COMMUNITY_POOL + TREASURY_POOL + TEAM_POOL + BACKERS_POOL + DAO_RESERVE == INITIAL_SUPPLY,
{
}

#[derive(Clone, Copy, Debug, PartialEq, Eq, Structural)]
pub enum NexusError {
    InvalidAmount,
    InvalidDuration,
    InvalidCliff,
    NoTokensToRelease,
    /// The beneficiary has a grant already.
    ScheduleExists,
}

impl NexusError {
    /// The text that goes with the error.
    pub open spec fn text(self) -> Seq<char> {
        match self {
            NexusError::InvalidAmount => "Amount must be greater than 0"@,
            NexusError::InvalidDuration => "Duration must be greater than 0"@,
            NexusError::InvalidCliff => "Cliff must be less than or equal to duration"@,
            NexusError::NoTokensToRelease => "No tokens available for release"@,
            NexusError::ScheduleExists => "Beneficiary already has a vesting schedule"@,
        }
    }

    /// The text that goes with the error.
    pub fn message(&self) -> (s: &'static str)
        ensures
            s@ == self.text(),
    {
        match self {
            NexusError::InvalidAmount => "Amount must be greater than 0",
            NexusError::InvalidDuration => "Duration must be greater than 0",
            NexusError::InvalidCliff => "Cliff must be less than or equal to duration",
            NexusError::NoTokensToRelease => "No tokens available for release",
            NexusError::ScheduleExists => "Beneficiary already has a vesting schedule",
        }
    }
}

/// A grant of tokens that becomes the beneficiary's over time.
#[derive(Clone, Copy, Debug, PartialEq, Eq)]
pub struct VestingAccount {
    pub beneficiary: Pubkey,
    pub total_amount: u64,
    pub released_amount: u64,
    pub start_timestamp: i64,
    pub duration: i64,
    pub cliff: i64,
}

/// The part of a grant of `total_amount` that has vested at `now`: nothing
/// before the cliff, all of it from the end of the term on, and in between
/// the share of the term that has run since the start, rounded down.
pub open spec fn vested_amount(
    total_amount: int,
    start_timestamp: int,
    duration: int,
    cliff: int,
    now: int,
) -> int {
    if now < start_timestamp + cliff {
        0
    } else if now >= start_timestamp + duration {
        total_amount
    } else if now <= start_timestamp {
        0
    } else {
        total_amount * (now - start_timestamp) / duration
    }
}

/// What can be released at `now` of a grant of which `released_amount` has
/// been released before: what has vested beyond that, if anything.
pub open spec fn releasable_amount(
    total_amount: int,
    released_amount: int,
    start_timestamp: int,
    duration: int,
    cliff: int,
    now: int,
) -> int {
    let vested = vested_amount(total_amount, start_timestamp, duration, cliff, now);
    if vested > released_amount {
        vested - released_amount
    } else {
        0
    }
}

/// No more than the whole grant is ever vested, and never less than nothing.
pub proof fn lemma_vested_bounded(
    total_amount: int,
    start_timestamp: int,
    duration: int,
    cliff: int,
    now: int,
)
    requires
        0 <= total_amount,
    ensures
        0 <= vested_amount(total_amount, start_timestamp, duration, cliff, now) <= total_amount,
{
    if start_timestamp + cliff <= now < start_timestamp + duration && now > start_timestamp {
        let elapsed = now - start_timestamp;
        assert(0 <= total_amount * elapsed / duration <= total_amount) by (nonlinear_arith)
            requires
                0 <= total_amount,
                0 < elapsed < duration,
        ;
    }
}

impl VestingAccount {
    /// Something was granted, over a term that has a length and ends no
    /// earlier than the cliff, and no more was released than was granted.
    pub open spec fn well_formed(self) -> bool {
        &&& self.total_amount > 0
        &&& self.duration > 0
        &&& self.cliff <= self.duration
        &&& self.released_amount <= self.total_amount
    }

    /// What has vested at `now`.
    pub open spec fn vested(self, now: i64) -> int {
        vested_amount(
            self.total_amount as int,
            self.start_timestamp as int,
            self.duration as int,
            self.cliff as int,
            now as int,
        )
    }

    /// What can be released at `now`.
    pub open spec fn releasable(self, now: i64) -> int {
        releasable_amount(
            self.total_amount as int,
            self.released_amount as int,
            self.start_timestamp as int,
            self.duration as int,
            self.cliff as int,
            now as int,
        )
    }

    /// The account after `amount` more has been released.
    pub open spec fn after_release(self, amount: u64) -> VestingAccount {
        VestingAccount { released_amount: (self.released_amount + amount) as u64, ..self }
    }
}

/// The beneficiaries who have a grant, each of them once.
pub type VestingRegistry = Registry<Pubkey>;

/// Why a grant cannot be set up for `beneficiary` with these terms, if it
/// cannot: the amount is looked at first, then the duration, then the cliff,
/// and last whether the beneficiary is among `beneficiaries` already.
pub open spec fn schedule_error(
    beneficiaries: Seq<Pubkey>,
    beneficiary: Pubkey,
    amount: u64,
    duration: i64,
    cliff: i64,
) -> Option<NexusError> {
    if amount == 0 {
        Some(NexusError::InvalidAmount)
    } else if duration <= 0 {
        Some(NexusError::InvalidDuration)
    } else if cliff > duration {
        Some(NexusError::InvalidCliff)
    } else if holds(beneficiaries, beneficiary) {
        Some(NexusError::ScheduleExists)
    } else {
        None
    }
}

/// Sets up the vesting of `amount` tokens for `beneficiary`, over `duration`
/// seconds from `start_ts`, with nothing released before `cliff` seconds
/// have passed, and enters the beneficiary in `registry`. A beneficiary has
/// one grant at most: a second one is refused and changes nothing. The
/// caller moves `amount` into the custody of the grant.
pub fn create_vesting_schedule(
    registry: &mut VestingRegistry,
    beneficiary: Pubkey,
    amount: u64,
    start_ts: i64,
    duration: i64,
    cliff: i64,
) -> (r: Result<VestingAccount, NexusError>)
    ensures
        match r {
            Ok(account) => {
                &&& schedule_error(old(registry)@, beneficiary, amount, duration, cliff) is None
                &&& account == (VestingAccount {
                    beneficiary,
                    total_amount: amount,
                    released_amount: 0,
                    start_timestamp: start_ts,
                    duration,
                    cliff,
                })
                &&& account.well_formed()
                &&& final(registry)@ == old(registry)@.push(beneficiary)
            },
            Err(e) => {
                &&& schedule_error(old(registry)@, beneficiary, amount, duration, cliff) == Some(e)
                &&& final(registry)@ == old(registry)@
            },
        },
{
    if amount == 0 {
        return Err(NexusError::InvalidAmount);
    }
    if duration <= 0 {
        return Err(NexusError::InvalidDuration);
    }
    if cliff > duration {
        return Err(NexusError::InvalidCliff);
    }
    if !registry.create(beneficiary) {
        return Err(NexusError::ScheduleExists);
    }
    Ok(
        VestingAccount {
            beneficiary,
            total_amount: amount,
            released_amount: 0,
            start_timestamp: start_ts,
            duration,
            cliff,
        },
    )
}

/// Once a beneficiary has been given a grant, no second one can be set up
/// for the same beneficiary, whatever its terms.
pub proof fn lemma_one_grant_each(
    beneficiaries: Seq<Pubkey>,
    beneficiary: Pubkey,
    amount: u64,
    duration: i64,
    cliff: i64,
    second_amount: u64,
    second_duration: i64,
    second_cliff: i64,
)
    requires
        schedule_error(beneficiaries, beneficiary, amount, duration, cliff) is None,
    ensures
        schedule_error(
            beneficiaries.push(beneficiary),
            beneficiary,
            second_amount,
            second_duration,
            second_cliff,
        ) is Some,
        second_amount > 0 && 0 < second_duration && second_cliff <= second_duration
            ==> schedule_error(
            beneficiaries.push(beneficiary),
            beneficiary,
            second_amount,
            second_duration,
            second_cliff,
        ) == Some(NexusError::ScheduleExists),
{
    assert(beneficiaries.push(beneficiary)[beneficiaries.len() as int] == beneficiary);
}

/// What can be released at `now` of a grant with these terms.
pub fn calculate_releasable_amount(
    total_amount: u64,
    released_amount: u64,
    start_timestamp: i64,
    duration: i64,
    cliff: i64,
    now: i64,
) -> (releasable: u64)
    ensures
        releasable == releasable_amount(
            total_amount as int,
            released_amount as int,
            start_timestamp as int,
            duration as int,
            cliff as int,
            now as int,
        ),
{
    proof {
        lemma_vested_bounded(
            total_amount as int,
            start_timestamp as int,
            duration as int,
            cliff as int,
            now as int,
        );
    }
    let start: i128 = start_timestamp as i128;
    let at: i128 = now as i128;
    let vested: u64 = if at < start + cliff as i128 {
        0
    } else if at >= start + duration as i128 {
        total_amount
    } else if at <= start {
        0
    } else {
        let elapsed: u128 = (at - start) as u128;
        let total: u128 = total_amount as u128;
        assert(total * elapsed <= u128::MAX) by (nonlinear_arith)
            requires
                total <= u64::MAX,
                elapsed <= u64::MAX,
        ;
        (total * elapsed / (duration as u128)) as u64
    };
    if vested > released_amount {
        vested - released_amount
    } else {
        0
    }
}

/// Releases what has vested at `now` and was not released before, and
/// returns the amount, which the caller pays to the beneficiary. Where that
/// is nothing, the release fails and the account stays as it was.
pub fn release_vested_tokens(vesting_account: &mut VestingAccount, now: i64) -> (r: Result<
    u64,
    NexusError,
>)
    ensures
        match r {
            Ok(released) => {
                &&& released > 0
                &&& released == old(vesting_account).releasable(now)
                &&& *final(vesting_account) == old(vesting_account).after_release(released)
                &&& final(vesting_account).released_amount == old(vesting_account).released_amount
                    + released
            },
            Err(e) => {
                &&& e == NexusError::NoTokensToRelease
                &&& old(vesting_account).releasable(now) == 0
                &&& *final(vesting_account) == *old(vesting_account)
            },
        },
        old(vesting_account).well_formed() ==> final(vesting_account).well_formed(),
{
    let releasable = calculate_releasable_amount(
        vesting_account.total_amount,
        vesting_account.released_amount,
        vesting_account.start_timestamp,
        vesting_account.duration,
        vesting_account.cliff,
        now,
    );
    if releasable == 0 {
        return Err(NexusError::NoTokensToRelease);
    }
    proof {
        lemma_vested_bounded(
            vesting_account.total_amount as int,
            vesting_account.start_timestamp as int,
            vesting_account.duration as int,
            vesting_account.cliff as int,
            now as int,
        );
    }
    vesting_account.released_amount = vesting_account.released_amount + releasable;
    Ok(releasable)
}


/// Before the cliff nothing can be released, so that a release fails.
pub proof fn lemma_nothing_before_cliff(account: VestingAccount, now: i64)
    requires
        now < account.start_timestamp + account.cliff,
    ensures
        account.releasable(now) == 0,
{
}

/// From the end of the term on, all that has not been released can be, at
/// whatever time.
pub proof fn lemma_all_after_term(account: VestingAccount, now: i64)
    requires
        account.well_formed(),
        now >= account.start_timestamp + account.duration,
    ensures
        account.releasable(now) == account.total_amount - account.released_amount,
{
}

/// What has vested never shrinks as time goes on.
pub proof fn lemma_vesting_monotone(account: VestingAccount, now: i64, later: i64)
    requires
        account.well_formed(),
        now <= later,
    ensures
        account.vested(now) <= account.vested(later),
{
    let total = account.total_amount as int;
    let start = account.start_timestamp as int;
    let duration = account.duration as int;
    lemma_vested_bounded(total, start, duration, account.cliff as int, now as int);
    lemma_vested_bounded(total, start, duration, account.cliff as int, later as int);
    if start + account.cliff <= now && later < start + duration && now > start {
        let run = now - start;
        let run_later = later - start;
        assert(total * run / duration <= total * run_later / duration) by (nonlinear_arith)
            requires
                0 <= total,
                0 < run <= run_later,
                0 < duration,
        ;
    }
}

/// A release pays out what has vested and no more: right after it nothing is
/// left to release, and all that was ever released is what has vested.
pub proof fn lemma_release_pays_once(account: VestingAccount, now: i64)
    requires
        account.releasable(now) > 0,
    ensures
        account.releasable(now) <= u64::MAX,
        account.after_release(account.releasable(now) as u64).released_amount == account.vested(
            now,
        ),
        account.after_release(account.releasable(now) as u64).releasable(now) == 0,
{
    lemma_vested_bounded(
        account.total_amount as int,
        account.start_timestamp as int,
        account.duration as int,
        account.cliff as int,
        now as int,
    );
}

} // verus!
