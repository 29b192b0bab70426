//! Early exits: before the lock expires, a user may abandon a stake and
//! take back the full principal plus the accrued rewards not yet
//! claimed, less a penalty the treasury keeps. After lock expiry this
//! path refuses with `StakeLocked`: the scheduled withdrawal is the one
//! to use then.

use vstd::prelude::*;

use crate::calculations::accrued_checked;
use crate::calculations::calculate_accrued_rewards;
use crate::calculations::calculate_force_withdraw_penalty;
use crate::calculations::force_withdraw_penalty;
use crate::calculations::lemma_penalty_le;
use crate::calculations::penalty_checked;
use crate::errors::SpaceMoneyError;
use crate::events::ForceWithdrewEvent;
use crate::states::PlatformState;
use crate::states::Pubkey;
use crate::states::TokenType;
use crate::states::UserAccount;
use crate::states::UserAccountView;
use crate::states::UserStake;

verus! {

/// What an early exit decides from the ledger, the position and its
/// inputs: `(payout, rewards_after_penalty, penalty)` on success, or the
/// exact error, in the order the checks run: ownership, the pause gate,
/// the index, the active flag, the still-locked gate, the uncapped
/// accrual arithmetic, the penalty, the custodied balance, and the three
/// aggregate updates, each checked.
pub open spec fn force_withdraw_outcome(
    p: PlatformState,
    u: UserAccountView,
    user: Pubkey,
    stake_index: u64,
    platform_balance: u64,
    now: i64,
) -> Result<(u64, u64, u64), SpaceMoneyError> {
    if u.user != user {
        Err(SpaceMoneyError::Unauthorized)
    } else if p.is_paused {
        Err(SpaceMoneyError::ProgramPaused)
    } else if stake_index >= u.stakes.len() {
        Err(SpaceMoneyError::InvalidStakeIndex)
    } else {
        let s = u.stakes[stake_index as int];
        if !s.is_active {
            Err(SpaceMoneyError::StakeNotFound)
        } else if now >= s.lock_until {
            Err(SpaceMoneyError::StakeLocked)
        } else {
            match accrued_checked(s.amount, s.multiplier, s.deposited_at, now) {
                Err(e) => Err(e),
                Ok(accrued) => {
                    if s.claimed_rewards > accrued {
                        Err(SpaceMoneyError::CalculationError)
                    } else {
                        let unclaimed: u64 = (accrued - s.claimed_rewards) as u64;
                        match penalty_checked(unclaimed) {
                            Err(e) => Err(e),
                            Ok(penalty) => {
                                let after_penalty: u64 = (unclaimed - penalty) as u64;
                                if s.amount + after_penalty > u64::MAX {
                                    Err(SpaceMoneyError::NumericalOverflow)
                                } else {
                                    let payout: u64 = (s.amount + after_penalty) as u64;
                                    let treasury: u64 = if s.token_type is SOL {
                                        p.treasury_sol
                                    } else {
                                        p.treasury_usdt
                                    };
                                    let staked: u64 = if s.token_type is SOL {
                                        p.total_staked_sol
                                    } else {
                                        p.total_staked_usdt
                                    };
                                    let total_claimed: u64 = if s.token_type is SOL {
                                        u.total_claimed_sol
                                    } else {
                                        u.total_claimed_usdt
                                    };
                                    if platform_balance < payout {
                                        Err(SpaceMoneyError::InsufficientTreasuryBalance)
                                    } else if treasury + penalty > u64::MAX {
                                        Err(SpaceMoneyError::NumericalOverflow)
                                    } else if staked < s.amount {
                                        Err(SpaceMoneyError::NumericalOverflow)
                                    } else if total_claimed + after_penalty > u64::MAX {
                                        Err(SpaceMoneyError::NumericalOverflow)
                                    } else {
                                        Ok((payout, after_penalty, penalty))
                                    }
                                }
                            },
                        }
                    }
                },
            }
        }
    }
}

/// The full early-exit postcondition: on an error, the outcome names
/// that error and nothing changed; on success, the treasury of the
/// stake's asset kept the penalty, the staked total shrank by the
/// principal, the user's lifetime total grew by the penalized rewards,
/// and the stake was deactivated with every other field intact. The
/// payout always carries the full principal: only pending rewards are
/// penalized.
pub open spec fn force_withdraw_post(
    p0: PlatformState,
    p1: PlatformState,
    u0: UserAccountView,
    u1: UserAccountView,
    user: Pubkey,
    stake_index: u64,
    platform_balance: u64,
    now: i64,
    r: Result<ForceWithdrewEvent, SpaceMoneyError>,
) -> bool {
    let o = force_withdraw_outcome(p0, u0, user, stake_index, platform_balance, now);
    match r {
        Err(e) => o == Err::<(u64, u64, u64), SpaceMoneyError>(e) && p1 == p0 && u1 == u0,
        Ok(ev) => {
            &&& o matches Ok(out)
            &&& {
                let after_penalty: u64 = out.1;
                let penalty: u64 = out.2;
                let s0 = u0.stakes[stake_index as int];
                let s1 = UserStake { is_active: false, ..s0 };
                &&& ev == (ForceWithdrewEvent {
                    user,
                    stake_index,
                    principal: s0.amount,
                    rewards_after_penalty: after_penalty,
                    penalty,
                    token_type: s0.token_type,
                    timestamp: now,
                })
                &&& s0.token_type is SOL ==> p1 == (PlatformState {
                    treasury_sol: (p0.treasury_sol + penalty) as u64,
                    total_staked_sol: (p0.total_staked_sol - s0.amount) as u64,
                    ..p0
                }) && u1 == (UserAccountView {
                    stakes: u0.stakes.update(stake_index as int, s1),
                    total_claimed_sol: (u0.total_claimed_sol + after_penalty) as u64,
                    ..u0
                })
                &&& s0.token_type is USDT ==> p1 == (PlatformState {
                    treasury_usdt: (p0.treasury_usdt + penalty) as u64,
                    total_staked_usdt: (p0.total_staked_usdt - s0.amount) as u64,
                    ..p0
                }) && u1 == (UserAccountView {
                    stakes: u0.stakes.update(stake_index as int, s1),
                    total_claimed_usdt: (u0.total_claimed_usdt + after_penalty) as u64,
                    ..u0
                })
            }
        },
    }
}

/// Exits stake `stake_index` before its lock expires: pays back the full
/// principal plus the accrued unclaimed rewards less the early-exit
/// penalty, which the treasury keeps. The settlement substrate transfers
/// the payout out of platform custody; any error here aborts the whole
/// transition. The accrual is the uncapped daily-rate formula, exactly
/// as the claim path computes it before capping.
pub fn force_withdraw(
    platform_state: &mut PlatformState,
    user_account: &mut UserAccount,
    user: Pubkey,
    stake_index: u64,
    platform_balance: u64,
    now: i64,
) -> (r: Result<ForceWithdrewEvent, SpaceMoneyError>)
    ensures
        force_withdraw_post(
            *old(platform_state),
            *final(platform_state),
            old(user_account)@,
            final(user_account)@,
            user,
            stake_index,
            platform_balance,
            now,
            r,
        ),
        old(user_account)@.within_caps() ==> final(user_account)@.within_caps(),
        r matches Ok(ev) ==> ({
            let s0 = old(user_account)@.stakes[stake_index as int];
            let accrued = accrued_checked(s0.amount, s0.multiplier, s0.deposited_at, now)->Ok_0;
            let unclaimed: u64 = (accrued - s0.claimed_rewards) as u64;
            &&& ev.principal == s0.amount
            &&& ev.penalty == force_withdraw_penalty(unclaimed)
            &&& ev.penalty + ev.rewards_after_penalty == unclaimed
        }),
{
    if user_account.user != user {
        return Err(SpaceMoneyError::Unauthorized);
    }
    if platform_state.is_paused {
        return Err(SpaceMoneyError::ProgramPaused);
    }
    if stake_index >= user_account.stakes.len() as u64 {
        return Err(SpaceMoneyError::InvalidStakeIndex);
    }
    let index = stake_index as usize;
    let stake = user_account.stakes[index];
    if !stake.is_active {
        return Err(SpaceMoneyError::StakeNotFound);
    }
    if now >= stake.lock_until {
        return Err(SpaceMoneyError::StakeLocked);
    }
    let accrued = match calculate_accrued_rewards(stake.amount, stake.multiplier, stake.deposited_at, now) {
        Ok(v) => v,
        Err(e) => { return Err(e); },
    };
    let unclaimed = match accrued.checked_sub(stake.claimed_rewards) {
        Some(v) => v,
        None => { return Err(SpaceMoneyError::CalculationError); },
    };
    let penalty = match calculate_force_withdraw_penalty(unclaimed) {
        Ok(v) => v,
        Err(e) => { return Err(e); },
    };
    proof {
        lemma_penalty_le(unclaimed);
    }
    let after_penalty = match unclaimed.checked_sub(penalty) {
        Some(v) => v,
        None => { return Err(SpaceMoneyError::CalculationError); },
    };
    let payout = match stake.amount.checked_add(after_penalty) {
        Some(v) => v,
        None => { return Err(SpaceMoneyError::NumericalOverflow); },
    };
    let treasury = match stake.token_type {
        TokenType::SOL => platform_state.treasury_sol,
        TokenType::USDT => platform_state.treasury_usdt,
    };
    let staked = match stake.token_type {
        TokenType::SOL => platform_state.total_staked_sol,
        TokenType::USDT => platform_state.total_staked_usdt,
    };
    let total_claimed = match stake.token_type {
        TokenType::SOL => user_account.total_claimed_sol,
        TokenType::USDT => user_account.total_claimed_usdt,
    };
    if platform_balance < payout {
        return Err(SpaceMoneyError::InsufficientTreasuryBalance);
    }
    let new_treasury = match treasury.checked_add(penalty) {
        Some(v) => v,
        None => { return Err(SpaceMoneyError::NumericalOverflow); },
    };
    let new_staked = match staked.checked_sub(stake.amount) {
        Some(v) => v,
        None => { return Err(SpaceMoneyError::NumericalOverflow); },
    };
    let new_total_claimed = match total_claimed.checked_add(after_penalty) {
        Some(v) => v,
        None => { return Err(SpaceMoneyError::NumericalOverflow); },
    };
    let updated = UserStake { is_active: false, ..stake };
    user_account.stakes[index] = updated;
    match stake.token_type {
        TokenType::SOL => {
            platform_state.treasury_sol = new_treasury;
            platform_state.total_staked_sol = new_staked;
            user_account.total_claimed_sol = new_total_claimed;
        },
        TokenType::USDT => {
            platform_state.treasury_usdt = new_treasury;
            platform_state.total_staked_usdt = new_staked;
            user_account.total_claimed_usdt = new_total_claimed;
        },
    }
    proof {
        if old(user_account)@.within_caps() {
            assert forall|i: int|
                0 <= i < user_account@.stakes.len() implies (#[trigger] user_account@.stakes[i]).within_cap() by {
                if i != stake_index as int {
                    assert(user_account@.stakes[i] == old(user_account)@.stakes[i]);
                } else {
                    assert(old(user_account)@.stakes[i].within_cap());
                }
            }
        }
    }
    Ok(ForceWithdrewEvent {
        user,
        stake_index,
        principal: stake.amount,
        rewards_after_penalty: after_penalty,
        penalty,
        token_type: stake.token_type,
        timestamp: now,
    })
}

} // verus!
