//! Fee distribution, time-locked stakes and reward accrual.

use crate::pubkey::Pubkey;
use vstd::prelude::*;

verus! {

/// Percentage of every fee that goes to the veNEXUS treasury.
pub const VENEXUS_SHARE: u8 = 40;

/// Percentage of every fee that goes to the aiNEXUS treasury.
pub const AINEXUS_SHARE: u8 = 30;

/// Percentage of every fee that goes to the protocol treasury.
pub const TREASURY_SHARE: u8 = 20;

/// Percentage of every fee that is burned.
pub const BURN_SHARE: u8 = 10;

/// Shortest lock, in seconds: one week.
pub const MIN_LOCK_DURATION: i64 = 604_800;

/// Longest lock, in seconds: four years of 365 days.
pub const MAX_LOCK_DURATION: i64 = 126_144_000;

/// Seconds in a year of 365 days.
pub const SECONDS_PER_YEAR: i64 = 31_536_000;

#[derive(Clone, Copy, Debug, PartialEq, Eq, Structural)]
pub struct EconomicsConfig {
    pub max_lock_duration: i64,
    pub reward_rate: u64,
    pub boost_factor: u64,
    pub min_stake: u64,
}

#[derive(Clone, Copy, Debug, PartialEq, Eq, Structural)]
pub struct EconomicsState {
    pub config: EconomicsConfig,
    pub total_fees_collected: u64,
    pub total_burned: u64,
}

#[derive(Clone, Copy, Debug, PartialEq, Eq)]
pub struct LockAccount {
    pub owner: Pubkey,
    pub amount: u64,
    pub start_time: i64,
    pub end_time: i64,
    pub locked: bool,
}

#[derive(Clone, Copy, Debug, PartialEq, Eq, Structural)]
pub enum FeeType {
    Stream,
    Agent,
    Storage,
    Custom,
}

#[derive(Clone, Copy, Debug, PartialEq, Eq, Structural)]
pub enum EconomicsError {
    Overflow,
    InvalidLockDuration,
    LockNotActive,
    InsufficientStake,
    InvalidFeeAmount,
}

impl EconomicsError {
    /// The text that goes with the error.
    pub open spec fn text(self) -> Seq<char> {
        match self {
            EconomicsError::Overflow => "Math overflow"@,
            EconomicsError::InvalidLockDuration => "Invalid lock duration"@,
            EconomicsError::LockNotActive => "Lock not active"@,
            EconomicsError::InsufficientStake => "Insufficient stake"@,
            EconomicsError::InvalidFeeAmount => "Invalid fee amount"@,
        }
    }

    /// The text that goes with the error.
    pub fn message(&self) -> (s: &'static str)
        ensures
            s@ == self.text(),
    {
        match self {
            EconomicsError::Overflow => "Math overflow",
            EconomicsError::InvalidLockDuration => "Invalid lock duration",
            EconomicsError::LockNotActive => "Lock not active",
            EconomicsError::InsufficientStake => "Insufficient stake",
            EconomicsError::InvalidFeeAmount => "Invalid fee amount",
        }
    }
}

/// The four payments that one fee is split into. The caller pays the first
/// three out of the fee account and burns the fourth.
#[derive(Clone, Copy, Debug, PartialEq, Eq, Structural)]
pub struct FeeDistribution {
    pub venexus_amount: u64,
    pub ainexus_amount: u64,
    pub treasury_amount: u64,
    pub burn_amount: u64,
}

/// `percent` hundredths of `amount`, rounded down.
pub open spec fn share_of(amount: int, percent: int) -> int {
    amount * percent / 100
}

impl FeeDistribution {
    /// The split of `amount` into its four shares.
    pub open spec fn of(amount: u64) -> FeeDistribution {
        FeeDistribution {
            venexus_amount: share_of(amount as int, VENEXUS_SHARE as int) as u64,
            ainexus_amount: share_of(amount as int, AINEXUS_SHARE as int) as u64,
            treasury_amount: share_of(amount as int, TREASURY_SHARE as int) as u64,
            burn_amount: share_of(amount as int, BURN_SHARE as int) as u64,
        }
    }

    /// What the four payments add up to.
    pub open spec fn total(self) -> int {
        self.venexus_amount + self.ainexus_amount + self.treasury_amount + self.burn_amount
    }
}

/// A share of at most 100 percent never exceeds the amount it is taken from.
pub proof fn lemma_share_bounded(amount: int, percent: int)
    requires
        0 <= amount,
        0 <= percent <= 100,
    ensures
        0 <= share_of(amount, percent) <= amount,
{
    assert(0 <= amount * percent <= amount * 100) by (nonlinear_arith)
        requires
            0 <= amount,
            0 <= percent <= 100,
    ;
}

fn share(amount: u64, percent: u8) -> (r: u64)
    requires
        percent <= 100,
    ensures
        r == share_of(amount as int, percent as int),
{
    proof {
        lemma_share_bounded(amount as int, percent as int);
    }
    let wide: u128 = amount as u128 * percent as u128 / 100;
    wide as u64
}


/// The shares of a fee never add up to more than the fee, and fall short of it
/// by at most three units, which stay with the payer.
pub proof fn lemma_fee_residual(amount: u64)
    ensures
        FeeDistribution::of(amount).total() <= amount,
        amount - FeeDistribution::of(amount).total() <= 3,
        FeeDistribution::of(amount).venexus_amount == share_of(amount as int, 40),
        FeeDistribution::of(amount).ainexus_amount == share_of(amount as int, 30),
        FeeDistribution::of(amount).treasury_amount == share_of(amount as int, 20),
        FeeDistribution::of(amount).burn_amount == share_of(amount as int, 10),
{
    lemma_share_bounded(amount as int, 40);
    lemma_share_bounded(amount as int, 30);
    lemma_share_bounded(amount as int, 20);
    lemma_share_bounded(amount as int, 10);
}

/// A fee that is a multiple of 100 is distributed without residue.
pub proof fn lemma_fee_exact_on_hundreds(amount: u64)
    requires
        amount % 100 == 0,
    ensures
        FeeDistribution::of(amount).total() == amount,
{
    lemma_fee_residual(amount);
}

impl EconomicsState {
    /// Whether both counters have room for one more fee of `amount`.
    pub open spec fn has_room_for(self, amount: u64) -> bool {
        &&& self.total_fees_collected + amount <= u64::MAX
        &&& self.total_burned + FeeDistribution::of(amount).burn_amount <= u64::MAX
    }

    /// The state after a fee of `amount` has been taken in.
    pub open spec fn after_fee(self, amount: u64) -> EconomicsState {
        EconomicsState {
            config: self.config,
            total_fees_collected: (self.total_fees_collected + amount) as u64,
            total_burned: (self.total_burned + FeeDistribution::of(amount).burn_amount) as u64,
        }
    }
}

/// A fresh economics state: the given configuration and both counters at zero.
pub fn initialize_economics(config: EconomicsConfig) -> (state: EconomicsState)
    ensures
        state.config == config,
        state.total_fees_collected == 0,
        state.total_burned == 0,
{
    EconomicsState { config, total_fees_collected: 0, total_burned: 0 }
}

/// Takes in a fee: splits `amount` into its four shares and adds it to the
/// counters. Nothing is changed when a counter would overflow. The caller
/// makes the three transfers and the burn that the result names, and drops
/// the new state if any of them fails.
pub fn process_fee(economics: &mut EconomicsState, amount: u64, fee_type: FeeType) -> (r: Result<
    FeeDistribution,
    EconomicsError,
>)
    ensures
        match r {
            Ok(d) => {
                &&& old(economics).has_room_for(amount)
                &&& d == FeeDistribution::of(amount)
                &&& *final(economics) == old(economics).after_fee(amount)
            },
            Err(e) => {
                &&& !old(economics).has_room_for(amount)
                &&& e == EconomicsError::Overflow
                &&& *final(economics) == *old(economics)
            },
        },
{
    let distribution = FeeDistribution {
        venexus_amount: share(amount, VENEXUS_SHARE),
        ainexus_amount: share(amount, AINEXUS_SHARE),
        treasury_amount: share(amount, TREASURY_SHARE),
        burn_amount: share(amount, BURN_SHARE),
    };
    let collected = match economics.total_fees_collected.checked_add(amount) {
        Some(sum) => sum,
        None => {
            return Err(EconomicsError::Overflow);
        },
    };
    let burned = match economics.total_burned.checked_add(distribution.burn_amount) {
        Some(sum) => sum,
        None => {
            return Err(EconomicsError::Overflow);
        },
    };
    economics.total_fees_collected = collected;
    economics.total_burned = burned;
    Ok(distribution)
}

/// Why a lock of `duration` seconds cannot start at `now`, if it cannot.
pub open spec fn lock_error(duration: i64, now: i64) -> Option<EconomicsError> {
    if duration < MIN_LOCK_DURATION || duration > MAX_LOCK_DURATION {
        Some(EconomicsError::InvalidLockDuration)
    } else if now + duration > i64::MAX {
        Some(EconomicsError::Overflow)
    } else {
        None
    }
}

/// Opens a lock of `amount` tokens for `duration` seconds from `now`. The
/// caller moves `amount` into the lock's custody.
pub fn create_lock(owner: Pubkey, amount: u64, duration: i64, now: i64) -> (r: Result<
    LockAccount,
    EconomicsError,
>)
    ensures
        match r {
            Ok(lock) => {
                &&& lock_error(duration, now) is None
                &&& lock.owner == owner
                &&& lock.amount == amount
                &&& lock.start_time == now
                &&& lock.end_time == now + duration
                &&& lock.locked
            },
            Err(e) => lock_error(duration, now) == Some(e),
        },
{
    if duration < MIN_LOCK_DURATION || duration > MAX_LOCK_DURATION {
        return Err(EconomicsError::InvalidLockDuration);
    }
    match now.checked_add(duration) {
        Some(end_time) => Ok(LockAccount { owner, amount, start_time: now, end_time, locked: true }),
        None => Err(EconomicsError::Overflow),
    }
}

/// The part of a lock's term that has run at `now`, in seconds: nothing
/// before the start, and no more than the whole term.
pub open spec fn elapsed_in_term(start_time: int, end_time: int, now: int) -> int {
    if now <= start_time || end_time <= start_time {
        0
    } else if now >= end_time {
        end_time - start_time
    } else {
        now - start_time
    }
}

/// The reward that a lock of `amount` has accrued at `now`.
///
/// A lock weighs its term in years, and earns that weight in proportion to
/// the part of the term that has run. The term cancels out of the product,
/// which leaves `amount` times the seconds run, over the seconds in a year,
/// rounded down.
pub open spec fn accrued_reward(amount: int, start_time: int, end_time: int, now: int) -> int {
    amount * elapsed_in_term(start_time, end_time, now) / (SECONDS_PER_YEAR as int)
}

/// The reward of a lock at `now`, or `Overflow` when it does not fit in 64
/// bits. The fees collected so far do not enter into it.
pub fn calculate_rewards(
    amount: u64,
    start_time: i64,
    end_time: i64,
    total_fees: u64,
    now: i64,
) -> (r: Result<u64, EconomicsError>)
    ensures
        match r {
            Ok(reward) => reward == accrued_reward(
                amount as int,
                start_time as int,
                end_time as int,
                now as int,
            ),
            Err(e) => {
                &&& e == EconomicsError::Overflow
                &&& accrued_reward(amount as int, start_time as int, end_time as int, now as int)
                    > u64::MAX
            },
        },
{
    let duration: i128 = end_time as i128 - start_time as i128;
    let elapsed: i128 = now as i128 - start_time as i128;
    if elapsed <= 0 || duration <= 0 {
        return Ok(0);
    }
    let run: u128 = if elapsed < duration {
        elapsed as u128
    } else {
        duration as u128
    };
    assert(amount as u128 * run <= u128::MAX) by (nonlinear_arith)
        requires
            amount <= u64::MAX,
            run <= u64::MAX,
    ;
    let reward: u128 = amount as u128 * run / 31_536_000;
    if reward > u64::MAX as u128 {
        Err(EconomicsError::Overflow)
    } else {
        Ok(reward as u64)
    }
}

/// The reward that the owner of `lock` may draw at `now`: `LockNotActive` for
/// a lock that is no longer active, else as `calculate_rewards`. The caller
/// pays it out of the rewards treasury.
pub fn claim_rewards(lock: &LockAccount, economics: &EconomicsState, now: i64) -> (r: Result<
    u64,
    EconomicsError,
>)
    ensures
        match r {
            Ok(reward) => {
                &&& lock.locked
                &&& reward == accrued_reward(
                    lock.amount as int,
                    lock.start_time as int,
                    lock.end_time as int,
                    now as int,
                )
            },
            Err(e) => if lock.locked {
                &&& e == EconomicsError::Overflow
                &&& accrued_reward(
                    lock.amount as int,
                    lock.start_time as int,
                    lock.end_time as int,
                    now as int,
                ) > u64::MAX
            } else {
                e == EconomicsError::LockNotActive
            },
        },
{
    if !lock.locked {
        return Err(EconomicsError::LockNotActive);
    }
    calculate_rewards(
        lock.amount,
        lock.start_time,
        lock.end_time,
        economics.total_fees_collected,
        now,
    )
}


/// A lock has earned nothing at its start or before.
pub proof fn lemma_no_reward_before_start(amount: u64, start_time: i64, end_time: i64, now: i64)
    requires
        now <= start_time,
    ensures
        accrued_reward(amount as int, start_time as int, end_time as int, now as int) == 0,
{
}

/// The reward of a lock never shrinks as time goes on.
pub proof fn lemma_reward_monotone(
    amount: u64,
    start_time: i64,
    end_time: i64,
    now: i64,
    later: i64,
)
    requires
        now <= later,
    ensures
        accrued_reward(amount as int, start_time as int, end_time as int, now as int)
            <= accrued_reward(amount as int, start_time as int, end_time as int, later as int),
{
    let run = elapsed_in_term(start_time as int, end_time as int, now as int);
    let run_later = elapsed_in_term(start_time as int, end_time as int, later as int);
    let year = SECONDS_PER_YEAR as int;
    assert(amount * run / year <= amount * run_later / year) by (nonlinear_arith)
        requires
            0 <= amount,
            0 <= run <= run_later,
            year > 0,
    ;
}

/// Once the term of a lock is over, its reward stays what it was at the end.
pub proof fn lemma_reward_capped_at_term(amount: u64, start_time: i64, end_time: i64, now: i64)
    requires
        now >= end_time,
    ensures
        accrued_reward(amount as int, start_time as int, end_time as int, now as int)
            == accrued_reward(amount as int, start_time as int, end_time as int, end_time as int),
{
}

} // verus!
