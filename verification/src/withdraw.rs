//! Scheduled withdrawals: once a stake's lock has expired, the user
//! takes back the principal plus every reward not yet claimed, and the
//! stake is deactivated for good.

use vstd::prelude::*;

use crate::calculations::calculate_rewards;
use crate::calculations::reward_fits;
use crate::calculations::rewards_checked;
use crate::errors::SpaceMoneyError;
use crate::events::WithdrewEvent;
use crate::states::PlatformState;
use crate::states::Pubkey;
use crate::states::TokenType;
use crate::states::UserAccount;
use crate::states::UserAccountView;
use crate::states::UserStake;

verus! {

/// What a scheduled withdrawal decides from the ledger, the position and
/// its inputs: `(payout, unclaimed)` on success, or the exact error, in
/// the order the checks run: ownership, the pause gate, the index, the
/// active flag, the asset kind of the entry point, lock expiry, the
/// full-term reward arithmetic, the custodied balance, and the two
/// aggregate updates, each checked.
pub open spec fn withdraw_outcome(
    p: PlatformState,
    u: UserAccountView,
    user: Pubkey,
    stake_index: u64,
    token_type: TokenType,
    platform_balance: u64,
    now: i64,
) -> Result<(u64, u64), SpaceMoneyError> {
    if u.user != user {
        Err(SpaceMoneyError::Unauthorized)
    } else if p.is_paused {
        Err(SpaceMoneyError::ProgramPaused)
    } else if stake_index >= u.stakes.len() {
        Err(SpaceMoneyError::InvalidStakeIndex)
    } else {
        let s = u.stakes[stake_index as int];
        if !s.is_active {
            Err(SpaceMoneyError::StakeNotFound)
        } else if s.token_type != token_type {
            Err(SpaceMoneyError::InvalidTokenType)
        } else if now < s.lock_until {
            Err(SpaceMoneyError::StakeLocked)
        } else {
            match rewards_checked(s.amount, s.multiplier, s.lock_days as u64) {
                Err(e) => Err(e),
                Ok(total_rewards) => {
                    if s.claimed_rewards > total_rewards {
                        Err(SpaceMoneyError::CalculationError)
                    } else {
                        let unclaimed: u64 = (total_rewards - s.claimed_rewards) as u64;
                        if s.amount + unclaimed > u64::MAX {
                            Err(SpaceMoneyError::NumericalOverflow)
                        } else {
                            let payout: u64 = (s.amount + unclaimed) as u64;
                            let staked: u64 = if token_type is SOL {
                                p.total_staked_sol
                            } else {
                                p.total_staked_usdt
                            };
                            let total_claimed: u64 = if token_type is SOL {
                                u.total_claimed_sol
                            } else {
                                u.total_claimed_usdt
                            };
                            if platform_balance < payout {
                                Err(SpaceMoneyError::InsufficientTreasuryBalance)
                            } else if staked < s.amount {
                                Err(SpaceMoneyError::NumericalOverflow)
                            } else if total_claimed + unclaimed > u64::MAX {
                                Err(SpaceMoneyError::NumericalOverflow)
                            } else {
                                Ok((payout, unclaimed))
                            }
                        }
                    }
                },
            }
        }
    }
}

/// The full scheduled-withdrawal postcondition: on an error, the outcome
/// names that error and nothing changed; on success, the staked total of
/// the withdrawn asset shrank by the principal, the user's lifetime total
/// grew by the unclaimed rewards, and the stake was deactivated with
/// every other field intact.
pub open spec fn withdraw_post(
    p0: PlatformState,
    p1: PlatformState,
    u0: UserAccountView,
    u1: UserAccountView,
    user: Pubkey,
    stake_index: u64,
    token_type: TokenType,
    platform_balance: u64,
    now: i64,
    r: Result<WithdrewEvent, SpaceMoneyError>,
) -> bool {
    let o = withdraw_outcome(p0, u0, user, stake_index, token_type, platform_balance, now);
    match r {
        Err(e) => o == Err::<(u64, u64), SpaceMoneyError>(e) && p1 == p0 && u1 == u0,
        Ok(ev) => {
            &&& o matches Ok(out)
            &&& {
                let unclaimed: u64 = out.1;
                let s0 = u0.stakes[stake_index as int];
                let s1 = UserStake { is_active: false, ..s0 };
                &&& ev == (WithdrewEvent {
                    user,
                    stake_index,
                    principal: s0.amount,
                    rewards: unclaimed,
                    token_type,
                    timestamp: now,
                })
                &&& token_type is SOL ==> p1 == (PlatformState {
                    total_staked_sol: (p0.total_staked_sol - s0.amount) as u64,
                    ..p0
                }) && u1 == (UserAccountView {
                    stakes: u0.stakes.update(stake_index as int, s1),
                    total_claimed_sol: (u0.total_claimed_sol + unclaimed) as u64,
                    ..u0
                })
                &&& token_type is USDT ==> p1 == (PlatformState {
                    total_staked_usdt: (p0.total_staked_usdt - s0.amount) as u64,
                    ..p0
                }) && u1 == (UserAccountView {
                    stakes: u0.stakes.update(stake_index as int, s1),
                    total_claimed_usdt: (u0.total_claimed_usdt + unclaimed) as u64,
                    ..u0
                })
            }
        },
    }
}

/// The scheduled-withdrawal transition, shared by both asset kinds.
fn withdraw_core(
    platform_state: &mut PlatformState,
    user_account: &mut UserAccount,
    user: Pubkey,
    stake_index: u64,
    token_type: TokenType,
    platform_balance: u64,
    now: i64,
) -> (r: Result<WithdrewEvent, SpaceMoneyError>)
    ensures
        withdraw_post(
            *old(platform_state),
            *final(platform_state),
            old(user_account)@,
            final(user_account)@,
            user,
            stake_index,
            token_type,
            platform_balance,
            now,
            r,
        ),
        old(user_account)@.within_caps() ==> final(user_account)@.within_caps(),
{
    if user_account.user != user {
        return Err(SpaceMoneyError::Unauthorized);
    }
    if platform_state.is_paused {
        return Err(SpaceMoneyError::ProgramPaused);
    }
    if stake_index >= user_account.stakes.len() as u64 {
        return Err(SpaceMoneyError::InvalidStakeIndex);
    }
    let index = stake_index as usize;
    let stake = user_account.stakes[index];
    if !stake.is_active {
        return Err(SpaceMoneyError::StakeNotFound);
    }
    if stake.token_type != token_type {
        return Err(SpaceMoneyError::InvalidTokenType);
    }
    if now < stake.lock_until {
        return Err(SpaceMoneyError::StakeLocked);
    }
    let total_rewards = match calculate_rewards(stake.amount, stake.multiplier, stake.lock_days) {
        Ok(v) => v,
        Err(e) => { return Err(e); },
    };
    let unclaimed = match total_rewards.checked_sub(stake.claimed_rewards) {
        Some(v) => v,
        None => { return Err(SpaceMoneyError::CalculationError); },
    };
    let payout = match stake.amount.checked_add(unclaimed) {
        Some(v) => v,
        None => { return Err(SpaceMoneyError::NumericalOverflow); },
    };
    let staked = match token_type {
        TokenType::SOL => platform_state.total_staked_sol,
        TokenType::USDT => platform_state.total_staked_usdt,
    };
    let total_claimed = match token_type {
        TokenType::SOL => user_account.total_claimed_sol,
        TokenType::USDT => user_account.total_claimed_usdt,
    };
    if platform_balance < payout {
        return Err(SpaceMoneyError::InsufficientTreasuryBalance);
    }
    let new_staked = match staked.checked_sub(stake.amount) {
        Some(v) => v,
        None => { return Err(SpaceMoneyError::NumericalOverflow); },
    };
    let new_total_claimed = match total_claimed.checked_add(unclaimed) {
        Some(v) => v,
        None => { return Err(SpaceMoneyError::NumericalOverflow); },
    };
    let updated = UserStake { is_active: false, ..stake };
    user_account.stakes[index] = updated;
    match token_type {
        TokenType::SOL => {
            platform_state.total_staked_sol = new_staked;
            user_account.total_claimed_sol = new_total_claimed;
        },
        TokenType::USDT => {
            platform_state.total_staked_usdt = new_staked;
            user_account.total_claimed_usdt = new_total_claimed;
        },
    }
    proof {
        if old(user_account)@.within_caps() {
            assert forall|i: int|
                0 <= i < user_account@.stakes.len() implies (#[trigger] user_account@.stakes[i]).within_cap() by {
                if i != stake_index as int {
                    assert(user_account@.stakes[i] == old(user_account)@.stakes[i]);
                } else {
                    assert(old(user_account)@.stakes[i].within_cap());
                }
            }
        }
    }
    Ok(WithdrewEvent { user, stake_index, principal: stake.amount, rewards: unclaimed, token_type, timestamp: now })
}

/// Withdraws a matured native-currency stake: the principal plus all
/// unclaimed full-term rewards. The settlement substrate transfers the
/// payout out of platform custody; any error here aborts the whole
/// transition. Before `lock_until` this always fails with `StakeLocked`.
pub fn withdraw_sol(
    platform_state: &mut PlatformState,
    user_account: &mut UserAccount,
    user: Pubkey,
    stake_index: u64,
    platform_balance: u64,
    now: i64,
) -> (r: Result<WithdrewEvent, SpaceMoneyError>)
    ensures
        withdraw_post(
            *old(platform_state),
            *final(platform_state),
            old(user_account)@,
            final(user_account)@,
            user,
            stake_index,
            TokenType::SOL,
            platform_balance,
            now,
            r,
        ),
        old(user_account)@.within_caps() ==> final(user_account)@.within_caps(),
{
    withdraw_core(platform_state, user_account, user, stake_index, TokenType::SOL, platform_balance, now)
}

/// Withdraws a matured peg-token stake: the principal plus all unclaimed
/// full-term rewards. The settlement substrate transfers the payout out
/// of platform custody; any error here aborts the whole transition.
/// Before `lock_until` this always fails with `StakeLocked`.
pub fn withdraw_usdt(
    platform_state: &mut PlatformState,
    user_account: &mut UserAccount,
    user: Pubkey,
    stake_index: u64,
    platform_balance: u64,
    now: i64,
) -> (r: Result<WithdrewEvent, SpaceMoneyError>)
    ensures
        withdraw_post(
            *old(platform_state),
            *final(platform_state),
            old(user_account)@,
            final(user_account)@,
            user,
            stake_index,
            TokenType::USDT,
            platform_balance,
            now,
            r,
        ),
        old(user_account)@.within_caps() ==> final(user_account)@.within_caps(),
{
    withdraw_core(platform_state, user_account, user, stake_index, TokenType::USDT, platform_balance, now)
}

/// Before the lock expires, a scheduled withdrawal on a live stake of the
/// matching asset always fails with `StakeLocked`, whatever the balances
/// and arithmetic would say.
pub proof fn lemma_withdraw_locked(
    p: PlatformState,
    u: UserAccountView,
    user: Pubkey,
    stake_index: u64,
    token_type: TokenType,
    platform_balance: u64,
    now: i64,
)
    requires
        u.user == user,
        !p.is_paused,
        stake_index < u.stakes.len(),
        u.stakes[stake_index as int].is_active,
        u.stakes[stake_index as int].token_type == token_type,
        now < u.stakes[stake_index as int].lock_until,
    ensures
        withdraw_outcome(p, u, user, stake_index, token_type, platform_balance, now) == Err::<
            (u64, u64),
            SpaceMoneyError,
        >(SpaceMoneyError::StakeLocked),
{
}

/// At or after lock expiry, a scheduled withdrawal on a live stake of the
/// matching asset always succeeds, provided the reward arithmetic fits,
/// the cap invariant holds, the aggregates are consistent, and the
/// custodied balance covers the payout — and it pays out exactly the
/// principal plus the unclaimed full-term rewards.
pub proof fn lemma_withdraw_after_lock(
    p: PlatformState,
    u: UserAccountView,
    user: Pubkey,
    stake_index: u64,
    token_type: TokenType,
    platform_balance: u64,
    now: i64,
)
    requires
        u.user == user,
        !p.is_paused,
        stake_index < u.stakes.len(),
        ({
            let s = u.stakes[stake_index as int];
            &&& s.is_active
            &&& s.token_type == token_type
            &&& now >= s.lock_until
            &&& reward_fits(s.amount, s.multiplier, s.lock_days as u64)
            &&& s.within_cap()
            &&& s.amount + (s.cap() - s.claimed_rewards) <= u64::MAX
            &&& platform_balance >= s.amount + (s.cap() - s.claimed_rewards)
            &&& (if token_type is SOL {
                p.total_staked_sol
            } else {
                p.total_staked_usdt
            }) >= s.amount
            &&& (if token_type is SOL {
                u.total_claimed_sol
            } else {
                u.total_claimed_usdt
            }) + (s.cap() - s.claimed_rewards) <= u64::MAX
        }),
    ensures
        ({
            let s = u.stakes[stake_index as int];
            withdraw_outcome(p, u, user, stake_index, token_type, platform_balance, now) == Ok::<
                (u64, u64),
                SpaceMoneyError,
            >(
                (
                    (s.amount + (s.cap() - s.claimed_rewards)) as u64,
                    (s.cap() - s.claimed_rewards) as u64,
                ),
            )
        }),
{
}

} // verus!
