//! The arithmetic engine: pure functions computing the deposit fee, the
//! daily yield, accrued rewards and the early-exit penalty, all in checked
//! integer arithmetic. Each executable function is specified exactly by a
//! spec-level counterpart, including the inputs on which it overflows.

use vstd::prelude::*;

use crate::constants::BOOT_LOCK_DAYS;
use crate::constants::BOOT_MIN_STAKE;
use crate::constants::BOOT_MULTIPLIER;
use crate::constants::BPS_DENOMINATOR;
use crate::constants::DAILY_YIELD_BPS;
use crate::constants::DEPOSIT_FEE_BPS;
use crate::constants::FORCE_WITHDRAW_PENALTY_BPS;
use crate::constants::SECONDS_PER_DAY;
use crate::constants::SPACE_LOCK_DAYS;
use crate::constants::SPACE_MIN_STAKE;
use crate::constants::SPACE_MULTIPLIER;
use crate::constants::SYMBIOTIC_LOCK_DAYS;
use crate::constants::SYMBIOTIC_MIN_STAKE;
use crate::constants::SYMBIOTIC_MULTIPLIER;
use crate::errors::SpaceMoneyError;

verus! {

/// The fee owed on a deposit of `amount`, in unbounded integers:
/// `floor(amount * DEPOSIT_FEE_BPS / BPS_DENOMINATOR)`.
pub open spec fn deposit_fee(amount: u64) -> int {
    amount * DEPOSIT_FEE_BPS / (BPS_DENOMINATOR as int)
}

/// What the fee computation returns, including the overflow case.
pub open spec fn deposit_fee_checked(amount: u64) -> Result<u64, SpaceMoneyError> {
    if amount * DEPOSIT_FEE_BPS > u64::MAX {
        Err(SpaceMoneyError::NumericalOverflow)
    } else {
        Ok(deposit_fee(amount) as u64)
    }
}

/// The daily reward earned by `principal` under `multiplier`, in unbounded
/// integers: `floor(principal * multiplier * DAILY_YIELD_BPS / BPS_DENOMINATOR)`.
pub open spec fn daily_reward(principal: u64, multiplier: u64) -> int {
    principal * multiplier * DAILY_YIELD_BPS / (BPS_DENOMINATOR as int)
}

/// The reward earned over `days` whole days: the daily reward times the
/// day count, in unbounded integers.
pub open spec fn reward_total(principal: u64, multiplier: u64, days: u64) -> int {
    daily_reward(principal, multiplier) * days
}

/// Whether every intermediate step of the reward computation fits in u64.
pub open spec fn reward_fits(principal: u64, multiplier: u64, days: u64) -> bool {
    &&& principal * multiplier <= u64::MAX
    &&& principal * multiplier * DAILY_YIELD_BPS <= u64::MAX
    &&& daily_reward(principal, multiplier) * days <= u64::MAX
}

/// What the reward computation returns, including the overflow case.
pub open spec fn rewards_checked(principal: u64, multiplier: u64, days: u64) -> Result<
    u64,
    SpaceMoneyError,
> {
    if reward_fits(principal, multiplier, days) {
        Ok(reward_total(principal, multiplier, days) as u64)
    } else {
        Err(SpaceMoneyError::CalculationError)
    }
}

/// What the accrual computation returns for a stake opened at
/// `start_time`, read at `current_time`: zero before one full day has
/// elapsed (including when the clock reads earlier than the start), and
/// the uncapped daily-rate reward for the elapsed whole days otherwise.
pub open spec fn accrued_checked(
    principal: u64,
    multiplier: u64,
    start_time: i64,
    current_time: i64,
) -> Result<u64, SpaceMoneyError> {
    let elapsed: int = current_time - start_time;
    if elapsed < i64::MIN || elapsed > i64::MAX {
        Err(SpaceMoneyError::CalculationError)
    } else if elapsed < SECONDS_PER_DAY {
        Ok(0u64)
    } else {
        rewards_checked(principal, multiplier, (elapsed / (SECONDS_PER_DAY as int)) as u64)
    }
}

/// The early-exit penalty on `rewards`, in unbounded integers:
/// `floor(rewards * FORCE_WITHDRAW_PENALTY_BPS / BPS_DENOMINATOR)`.
pub open spec fn force_withdraw_penalty(rewards: u64) -> int {
    rewards * FORCE_WITHDRAW_PENALTY_BPS / (BPS_DENOMINATOR as int)
}

/// What the penalty computation returns, including the overflow case.
pub open spec fn penalty_checked(rewards: u64) -> Result<u64, SpaceMoneyError> {
    if rewards * FORCE_WITHDRAW_PENALTY_BPS > u64::MAX {
        Err(SpaceMoneyError::CalculationError)
    } else {
        Ok(force_withdraw_penalty(rewards) as u64)
    }
}

/// The parameters `(min_stake, multiplier, lock_days)` of the tier
/// selected by `tier` at genesis, or `InvalidTier` out of range.
pub open spec fn tier_params_checked(tier: u8) -> Result<(u64, u64, i64), SpaceMoneyError> {
    if tier == 0 {
        Ok((BOOT_MIN_STAKE, BOOT_MULTIPLIER, BOOT_LOCK_DAYS))
    } else if tier == 1 {
        Ok((SYMBIOTIC_MIN_STAKE, SYMBIOTIC_MULTIPLIER, SYMBIOTIC_LOCK_DAYS))
    } else if tier == 2 {
        Ok((SPACE_MIN_STAKE, SPACE_MULTIPLIER, SPACE_LOCK_DAYS))
    } else {
        Err(SpaceMoneyError::InvalidTier)
    }
}

/// Scaling a value by a basis-point rate no greater than the denominator
/// never exceeds the value itself.
pub proof fn lemma_bps_fraction_le(x: u64, bps: u64)
    requires
        bps <= BPS_DENOMINATOR,
    ensures
        0 <= x * bps / (BPS_DENOMINATOR as int) <= x,
{
    assert(x * bps >= 0) by (nonlinear_arith);
    assert(x * bps <= x * BPS_DENOMINATOR) by (nonlinear_arith)
        requires
            bps <= BPS_DENOMINATOR,
    ;
    vstd::arithmetic::div_mod::lemma_div_is_ordered(
        x * bps,
        x * BPS_DENOMINATOR,
        BPS_DENOMINATOR as int,
    );
    vstd::arithmetic::div_mod::lemma_div_by_multiple(x as int, BPS_DENOMINATOR as int);
    vstd::arithmetic::div_mod::lemma_div_is_ordered(0, x * bps, BPS_DENOMINATOR as int);
}

/// The deposit fee never exceeds the deposit.
pub proof fn lemma_deposit_fee_le(amount: u64)
    ensures
        0 <= deposit_fee(amount) <= amount,
{
    lemma_bps_fraction_le(amount, DEPOSIT_FEE_BPS);
}

/// The early-exit penalty never exceeds the rewards it is taken from.
pub proof fn lemma_penalty_le(rewards: u64)
    ensures
        0 <= force_withdraw_penalty(rewards) <= rewards,
{
    lemma_bps_fraction_le(rewards, FORCE_WITHDRAW_PENALTY_BPS);
}

/// The reward total is never negative.
pub proof fn lemma_reward_total_nonneg(principal: u64, multiplier: u64, days: u64)
    ensures
        reward_total(principal, multiplier, days) >= 0,
{
    assert(principal * multiplier >= 0) by (nonlinear_arith);
    assert(principal * multiplier * DAILY_YIELD_BPS >= 0) by (nonlinear_arith)
        requires
            principal * multiplier >= 0,
    ;
    vstd::arithmetic::div_mod::lemma_div_is_ordered(
        0,
        principal * multiplier * DAILY_YIELD_BPS,
        BPS_DENOMINATOR as int,
    );
    assert(daily_reward(principal, multiplier) * days >= 0) by (nonlinear_arith)
        requires
            daily_reward(principal, multiplier) >= 0,
    ;
}

/// Computes the deposit fee: `floor(amount * DEPOSIT_FEE_BPS / BPS_DENOMINATOR)`,
/// failing with `NumericalOverflow` when the scaled amount does not fit.
pub fn calculate_deposit_fee(amount: u64) -> (r: Result<u64, SpaceMoneyError>)
    ensures
        r == deposit_fee_checked(amount),
        amount * DEPOSIT_FEE_BPS <= u64::MAX ==> (r matches Ok(fee) && fee <= amount),
{
    proof {
        lemma_deposit_fee_le(amount);
    }
    match amount.checked_mul(DEPOSIT_FEE_BPS) {
        Some(scaled) => Ok(scaled / BPS_DENOMINATOR),
        None => Err(SpaceMoneyError::NumericalOverflow),
    }
}

/// Splits a deposit into `(net, fee)` with `net + fee == amount`, failing
/// with `NumericalOverflow` exactly when the fee computation does.
pub fn calculate_net_deposit(amount: u64) -> (r: Result<(u64, u64), SpaceMoneyError>)
    ensures
        amount * DEPOSIT_FEE_BPS <= u64::MAX ==> (r matches Ok(pair) && pair.0 + pair.1 == amount
            && pair.1 == deposit_fee(amount)),
        amount * DEPOSIT_FEE_BPS > u64::MAX ==> r == Err::<(u64, u64), SpaceMoneyError>(
            SpaceMoneyError::NumericalOverflow,
        ),
{
    let fee = match calculate_deposit_fee(amount) {
        Ok(fee) => fee,
        Err(e) => { return Err(e); },
    };
    proof {
        lemma_deposit_fee_le(amount);
    }
    match amount.checked_sub(fee) {
        Some(net_amount) => Ok((net_amount, fee)),
        None => Err(SpaceMoneyError::NumericalOverflow),
    }
}

/// Computes the reward earned by `principal` under `multiplier` over
/// `days_locked` days: the daily yield, floored, times the day count.
/// Every multiplication is checked and fails with `CalculationError`.
pub fn calculate_rewards(principal: u64, multiplier: u64, days_locked: i64) -> (r: Result<
    u64,
    SpaceMoneyError,
>)
    ensures
        r == rewards_checked(principal, multiplier, days_locked as u64),
{
    let base_daily = match principal.checked_mul(multiplier) {
        Some(v) => v,
        None => { return Err(SpaceMoneyError::CalculationError); },
    };
    let scaled = match base_daily.checked_mul(DAILY_YIELD_BPS) {
        Some(v) => v,
        None => { return Err(SpaceMoneyError::CalculationError); },
    };
    let per_day = scaled / BPS_DENOMINATOR;
    let days = #[verifier::truncate] (days_locked as u64);
    match per_day.checked_mul(days) {
        Some(total) => Ok(total),
        None => Err(SpaceMoneyError::CalculationError),
    }
}

/// Computes the reward accrued between `start_time` and `current_time`:
/// zero before one full day has elapsed, and the uncapped daily-rate
/// reward for the elapsed whole days otherwise.
pub fn calculate_accrued_rewards(
    principal: u64,
    multiplier: u64,
    start_time: i64,
    current_time: i64,
) -> (r: Result<u64, SpaceMoneyError>)
    ensures
        r == accrued_checked(principal, multiplier, start_time, current_time),
{
    let elapsed_seconds = match current_time.checked_sub(start_time) {
        Some(v) => v,
        None => { return Err(SpaceMoneyError::CalculationError); },
    };
    if elapsed_seconds < SECONDS_PER_DAY {
        return Ok(0);
    }
    let elapsed_days = (elapsed_seconds as u64) / (SECONDS_PER_DAY as u64);
    assert(elapsed_days == (current_time - start_time) / (SECONDS_PER_DAY as int));
    calculate_rewards(principal, multiplier, elapsed_days as i64)
}

/// Computes the early-exit penalty:
/// `floor(rewards * FORCE_WITHDRAW_PENALTY_BPS / BPS_DENOMINATOR)`,
/// failing with `CalculationError` when the scaled value does not fit.
pub fn calculate_force_withdraw_penalty(rewards: u64) -> (r: Result<u64, SpaceMoneyError>)
    ensures
        r == penalty_checked(rewards),
        rewards * FORCE_WITHDRAW_PENALTY_BPS <= u64::MAX ==> (r matches Ok(p) && p <= rewards),
{
    proof {
        lemma_penalty_le(rewards);
    }
    match rewards.checked_mul(FORCE_WITHDRAW_PENALTY_BPS) {
        Some(scaled) => Ok(scaled / BPS_DENOMINATOR),
        None => Err(SpaceMoneyError::CalculationError),
    }
}

/// Resolves a tier selector to the genesis parameters
/// `(min_stake, multiplier, lock_days)`, failing with `InvalidTier` when
/// the selector is outside the three known tiers.
pub fn get_tier_config(tier: u8) -> (r: Result<(u64, u64, i64), SpaceMoneyError>)
    ensures
        r == tier_params_checked(tier),
{
    match tier {
        0 => Ok((BOOT_MIN_STAKE, BOOT_MULTIPLIER, BOOT_LOCK_DAYS)),
        1 => Ok((SYMBIOTIC_MIN_STAKE, SYMBIOTIC_MULTIPLIER, SYMBIOTIC_LOCK_DAYS)),
        2 => Ok((SPACE_MIN_STAKE, SPACE_MULTIPLIER, SPACE_LOCK_DAYS)),
        _ => Err(SpaceMoneyError::InvalidTier),
    }
}

/// Checks a deposit against the genesis minimum of the selected tier:
/// `InvalidTier` out of range, `InsufficientStakeAmount` below the
/// minimum, and `Ok` otherwise.
pub fn validate_stake_amount(amount: u64, tier: u8) -> (r: Result<(), SpaceMoneyError>)
    ensures
        tier_params_checked(tier) matches Ok(params) ==> r == (if amount < params.0 {
            Err::<(), SpaceMoneyError>(SpaceMoneyError::InsufficientStakeAmount)
        } else {
            Ok::<(), SpaceMoneyError>(())
        }),
        tier_params_checked(tier) matches Err(e) ==> r == Err::<(), SpaceMoneyError>(e),
{
    let (min_stake, _, _) = match get_tier_config(tier) {
        Ok(params) => params,
        Err(e) => { return Err(e); },
    };
    if amount < min_stake {
        return Err(SpaceMoneyError::InsufficientStakeAmount);
    }
    Ok(())
}

} // verus!
