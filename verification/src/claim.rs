//! Claims: a user draws the rewards accrued on one active stake, capped
//! at the stake's maximum lifetime reward. The principal and the stake's
//! active flag are untouched; claiming is repeatable until the cap is
//! reached, and a second claim with no elapsed time pays nothing.

use vstd::prelude::*;

use crate::calculations::accrued_checked;
use crate::calculations::calculate_accrued_rewards;
use crate::calculations::calculate_rewards;
use crate::calculations::rewards_checked;
use crate::errors::SpaceMoneyError;
use crate::events::ClaimedRewardsEvent;
use crate::states::PlatformState;
use crate::states::Pubkey;
use crate::states::TokenType;
use crate::states::UserAccount;
use crate::states::UserAccountView;
use crate::states::UserStake;

verus! {

/// What a claim decides from the ledger, the position and its inputs:
/// the claimable amount on success, or the exact error, in the order the
/// checks run: ownership, the pause gate, the index, the active flag,
/// the capped-accrual arithmetic, the zero-claim gate, the custodied
/// balance, and the lifetime-total update, each checked.
pub open spec fn claim_outcome(
    p: PlatformState,
    u: UserAccountView,
    user: Pubkey,
    stake_index: u64,
    platform_balance: u64,
    now: i64,
) -> Result<u64, SpaceMoneyError> {
    if u.user != user {
        Err(SpaceMoneyError::Unauthorized)
    } else if p.is_paused {
        Err(SpaceMoneyError::ProgramPaused)
    } else if stake_index >= u.stakes.len() {
        Err(SpaceMoneyError::InvalidStakeIndex)
    } else {
        let s = u.stakes[stake_index as int];
        if !s.is_active {
            Err(SpaceMoneyError::StakeNotFound)
        } else {
            match rewards_checked(s.amount, s.multiplier, s.lock_days as u64) {
                Err(e) => Err(e),
                Ok(max_rewards) => match accrued_checked(
                    s.amount,
                    s.multiplier,
                    s.deposited_at,
                    now,
                ) {
                    Err(e) => Err(e),
                    Ok(accrued) => {
                        let available: u64 = if accrued > max_rewards {
                            max_rewards
                        } else {
                            accrued
                        };
                        if s.claimed_rewards > available {
                            Err(SpaceMoneyError::CalculationError)
                        } else {
                            let claimable: u64 = (available - s.claimed_rewards) as u64;
                            if claimable == 0 {
                                Err(SpaceMoneyError::NoRewardsAvailable)
                            } else if platform_balance < claimable {
                                Err(SpaceMoneyError::InsufficientTreasuryBalance)
                            } else {
                                let total: u64 = if s.token_type is SOL {
                                    u.total_claimed_sol
                                } else {
                                    u.total_claimed_usdt
                                };
                                if total + claimable > u64::MAX {
                                    Err(SpaceMoneyError::NumericalOverflow)
                                } else {
                                    Ok(claimable)
                                }
                            }
                        }
                    },
                },
            }
        }
    }
}

/// The full claim postcondition: on an error, the outcome names that
/// error and nothing changed; on success, the platform ledger is
/// untouched, the claimed stake grew its claimed total by exactly the
/// claimable amount, the user's lifetime total of the stake's asset grew
/// by the same amount, and the last-claim time was set to now.
pub open spec fn claim_post(
    p0: PlatformState,
    p1: PlatformState,
    u0: UserAccountView,
    u1: UserAccountView,
    user: Pubkey,
    stake_index: u64,
    platform_balance: u64,
    now: i64,
    r: Result<ClaimedRewardsEvent, SpaceMoneyError>,
) -> bool {
    let o = claim_outcome(p0, u0, user, stake_index, platform_balance, now);
    match r {
        Err(e) => o == Err::<u64, SpaceMoneyError>(e) && p1 == p0 && u1 == u0,
        Ok(ev) => {
            &&& o matches Ok(claimable)
            &&& p1 == p0
            &&& {
                let s0 = u0.stakes[stake_index as int];
                let s1 = UserStake {
                    claimed_rewards: (s0.claimed_rewards + claimable) as u64,
                    ..s0
                };
                &&& ev == (ClaimedRewardsEvent {
                    user,
                    stake_index,
                    amount: claimable,
                    token_type: s0.token_type,
                    timestamp: now,
                })
                &&& s0.token_type is SOL ==> u1 == (UserAccountView {
                    stakes: u0.stakes.update(stake_index as int, s1),
                    total_claimed_sol: (u0.total_claimed_sol + claimable) as u64,
                    last_claim_time: now,
                    ..u0
                })
                &&& s0.token_type is USDT ==> u1 == (UserAccountView {
                    stakes: u0.stakes.update(stake_index as int, s1),
                    total_claimed_usdt: (u0.total_claimed_usdt + claimable) as u64,
                    last_claim_time: now,
                    ..u0
                })
            }
        },
    }
}

/// Pays out the rewards accrued on stake `stake_index` up to now, capped
/// at the stake's maximum lifetime reward, less what was already
/// claimed. The settlement substrate transfers the returned amount out
/// of platform custody; any error here aborts the whole transition.
pub fn claim_rewards(
    platform_state: &PlatformState,
    user_account: &mut UserAccount,
    user: Pubkey,
    stake_index: u64,
    platform_balance: u64,
    now: i64,
) -> (r: Result<ClaimedRewardsEvent, SpaceMoneyError>)
    ensures
        claim_post(
            *platform_state,
            *platform_state,
            old(user_account)@,
            final(user_account)@,
            user,
            stake_index,
            platform_balance,
            now,
            r,
        ),
        r matches Ok(_) ==> final(user_account)@.stakes[stake_index as int].within_cap(),
        old(user_account)@.within_caps() ==> final(user_account)@.within_caps(),
{
    if user_account.user != user {
        return Err(SpaceMoneyError::Unauthorized);
    }
    if platform_state.is_paused {
        return Err(SpaceMoneyError::ProgramPaused);
    }
    if stake_index >= user_account.stakes.len() as u64 {
        return Err(SpaceMoneyError::InvalidStakeIndex);
    }
    let index = stake_index as usize;
    let stake = user_account.stakes[index];
    if !stake.is_active {
        return Err(SpaceMoneyError::StakeNotFound);
    }
    let max_rewards = match calculate_rewards(stake.amount, stake.multiplier, stake.lock_days) {
        Ok(v) => v,
        Err(e) => { return Err(e); },
    };
    let accrued = match calculate_accrued_rewards(stake.amount, stake.multiplier, stake.deposited_at, now) {
        Ok(v) => v,
        Err(e) => { return Err(e); },
    };
    let available = if accrued > max_rewards {
        max_rewards
    } else {
        accrued
    };
    let claimable = match available.checked_sub(stake.claimed_rewards) {
        Some(v) => v,
        None => { return Err(SpaceMoneyError::CalculationError); },
    };
    if claimable == 0 {
        return Err(SpaceMoneyError::NoRewardsAvailable);
    }
    if platform_balance < claimable {
        return Err(SpaceMoneyError::InsufficientTreasuryBalance);
    }
    let total_claimed = match stake.token_type {
        TokenType::SOL => user_account.total_claimed_sol,
        TokenType::USDT => user_account.total_claimed_usdt,
    };
    let new_total = match total_claimed.checked_add(claimable) {
        Some(v) => v,
        None => { return Err(SpaceMoneyError::NumericalOverflow); },
    };
    let new_claimed = match stake.claimed_rewards.checked_add(claimable) {
        Some(v) => v,
        None => { return Err(SpaceMoneyError::NumericalOverflow); },
    };
    let updated = UserStake { claimed_rewards: new_claimed, ..stake };
    user_account.stakes[index] = updated;
    match stake.token_type {
        TokenType::SOL => {
            user_account.total_claimed_sol = new_total;
        },
        TokenType::USDT => {
            user_account.total_claimed_usdt = new_total;
        },
    }
    user_account.last_claim_time = now;
    proof {
        assert(updated.within_cap());
        if old(user_account)@.within_caps() {
            assert forall|i: int|
                0 <= i < user_account@.stakes.len() implies (#[trigger] user_account@.stakes[i]).within_cap() by {
                if i != stake_index as int {
                    assert(user_account@.stakes[i] == old(user_account)@.stakes[i]);
                }
            }
        }
    }
    Ok(ClaimedRewardsEvent { user, stake_index, amount: claimable, token_type: stake.token_type, timestamp: now })
}

/// No double pay: a claim that just succeeded leaves the stake with
/// nothing further to claim, so a second claim at the same instant —
/// whatever custodied balance it sees — fails with `NoRewardsAvailable`.
pub proof fn lemma_claim_twice_no_op(
    p0: PlatformState,
    p1: PlatformState,
    u0: UserAccountView,
    u1: UserAccountView,
    user: Pubkey,
    stake_index: u64,
    platform_balance: u64,
    second_balance: u64,
    now: i64,
    ev: ClaimedRewardsEvent,
)
    requires
        claim_post(p0, p1, u0, u1, user, stake_index, platform_balance, now, Ok(ev)),
    ensures
        claim_outcome(p1, u1, user, stake_index, second_balance, now) == Err::<u64, SpaceMoneyError>(
            SpaceMoneyError::NoRewardsAvailable,
        ),
{
    let s0 = u0.stakes[stake_index as int];
    let s1 = u1.stakes[stake_index as int];
    assert(s1.amount == s0.amount && s1.multiplier == s0.multiplier && s1.lock_days == s0.lock_days
        && s1.deposited_at == s0.deposited_at && s1.token_type == s0.token_type && s1.is_active);
}

} // verus!
