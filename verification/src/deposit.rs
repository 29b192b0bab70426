//! Deposits: a user locks value into a new stake under a chosen tier.
//! The fee is extracted up front, the tier's multiplier and lock duration
//! are snapshotted into the stake, and the platform aggregates grow by
//! the fee and the net principal.

use vstd::prelude::*;

use crate::calculations::calculate_net_deposit;
use crate::calculations::deposit_fee;
use crate::calculations::lemma_reward_total_nonneg;
use crate::constants::DEPOSIT_FEE_BPS;
use crate::constants::SECONDS_PER_DAY;
use crate::errors::SpaceMoneyError;
use crate::events::DepositedEvent;
use crate::states::spec_tier_of;
use crate::states::PlatformState;
use crate::states::Pubkey;
use crate::states::Tier;
use crate::states::TierConfig;
use crate::states::TokenType;
use crate::states::UserAccount;
use crate::states::UserAccountView;
use crate::states::UserStake;

verus! {

/// What a deposit decides from the ledger, the registry and its inputs:
/// `(net, fee, lock_until)` on success, or the exact error, in the order
/// the checks run: the pause gate, tier resolution, the tier minimum, fee
/// extraction, the lock-expiry clock arithmetic, and the two aggregate
/// updates, each checked.
pub open spec fn deposit_outcome(
    p: PlatformState,
    tc: TierConfig,
    amount: u64,
    tier: u8,
    token_type: TokenType,
    now: i64,
) -> Result<(u64, u64, i64), SpaceMoneyError> {
    if p.is_paused {
        Err(SpaceMoneyError::ProgramPaused)
    } else {
        match tc.spec_resolve(tier) {
            Err(e) => Err(e),
            Ok(params) => {
                let min_stake: u64 = params.0;
                let lock_days: i64 = params.2;
                if amount < min_stake {
                    Err(SpaceMoneyError::InsufficientStakeAmount)
                } else if amount * DEPOSIT_FEE_BPS > u64::MAX {
                    Err(SpaceMoneyError::NumericalOverflow)
                } else {
                    let fee: int = deposit_fee(amount);
                    let net: int = amount - fee;
                    let lock_offset: int = lock_days * SECONDS_PER_DAY;
                    if lock_offset < i64::MIN || lock_offset > i64::MAX {
                        Err(SpaceMoneyError::NumericalOverflow)
                    } else if now + lock_offset < i64::MIN || now + lock_offset > i64::MAX {
                        Err(SpaceMoneyError::NumericalOverflow)
                    } else {
                        let treasury: u64 = if token_type is SOL {
                            p.treasury_sol
                        } else {
                            p.treasury_usdt
                        };
                        let staked: u64 = if token_type is SOL {
                            p.total_staked_sol
                        } else {
                            p.total_staked_usdt
                        };
                        if treasury + fee > u64::MAX {
                            Err(SpaceMoneyError::NumericalOverflow)
                        } else if staked + net > u64::MAX {
                            Err(SpaceMoneyError::NumericalOverflow)
                        } else {
                            Ok((net as u64, fee as u64, (now + lock_offset) as i64))
                        }
                    }
                }
            },
        }
    }
}

/// The full deposit postcondition: on an error, the outcome names that
/// error and nothing changed; on success, the aggregates of the deposited
/// asset grew by the fee and the net principal, a fresh account was
/// initialized to the depositing user, and exactly one new active stake
/// was appended, carrying the tier's snapshotted multiplier and lock
/// duration and zero claimed rewards.
pub open spec fn deposit_post(
    p0: PlatformState,
    p1: PlatformState,
    u0: UserAccountView,
    u1: UserAccountView,
    tc: TierConfig,
    user: Pubkey,
    amount: u64,
    tier: u8,
    token_type: TokenType,
    now: i64,
    r: Result<DepositedEvent, SpaceMoneyError>,
) -> bool {
    let o = deposit_outcome(p0, tc, amount, tier, token_type, now);
    match r {
        Err(e) => o == Err::<(u64, u64, i64), SpaceMoneyError>(e) && p1 == p0 && u1 == u0,
        Ok(ev) => {
            &&& o matches Ok(out)
            &&& spec_tier_of(tier) matches Some(tier_enum)
            &&& {
                let net: u64 = out.0;
                let fee: u64 = out.1;
                let lock_until: i64 = out.2;
                let base = if u0.user == Pubkey::spec_default() {
                    UserAccountView {
                        user,
                        stakes: Seq::empty(),
                        total_claimed_sol: 0,
                        total_claimed_usdt: 0,
                        last_claim_time: now,
                    }
                } else {
                    u0
                };
                let stake = UserStake {
                    amount: net,
                    tier: tier_enum,
                    token_type,
                    deposited_at: now,
                    lock_until,
                    multiplier: tc.spec_resolve(tier)->Ok_0.1,
                    lock_days: tc.spec_resolve(tier)->Ok_0.2,
                    claimed_rewards: 0,
                    is_active: true,
                };
                &&& ev == (DepositedEvent {
                    user,
                    amount: net,
                    tier,
                    token_type,
                    fee,
                    lock_until,
                    timestamp: now,
                })
                &&& token_type is SOL ==> p1 == (PlatformState {
                    treasury_sol: (p0.treasury_sol + fee) as u64,
                    total_staked_sol: (p0.total_staked_sol + net) as u64,
                    ..p0
                })
                &&& token_type is USDT ==> p1 == (PlatformState {
                    treasury_usdt: (p0.treasury_usdt + fee) as u64,
                    total_staked_usdt: (p0.total_staked_usdt + net) as u64,
                    ..p0
                })
                &&& u1 == (UserAccountView { stakes: base.stakes.push(stake), ..base })
            }
        },
    }
}

/// The deposit transition, shared by both asset kinds.
fn deposit_core(
    platform_state: &mut PlatformState,
    user_account: &mut UserAccount,
    tier_config: &TierConfig,
    user: Pubkey,
    amount: u64,
    tier: u8,
    token_type: TokenType,
    now: i64,
) -> (r: Result<DepositedEvent, SpaceMoneyError>)
    ensures
        deposit_post(
            *old(platform_state),
            *final(platform_state),
            old(user_account)@,
            final(user_account)@,
            *tier_config,
            user,
            amount,
            tier,
            token_type,
            now,
            r,
        ),
        old(user_account)@.within_caps() ==> final(user_account)@.within_caps(),
        r matches Ok(ev) ==> ev.amount + ev.fee == amount && ev.fee == deposit_fee(amount),
{
    if platform_state.is_paused {
        return Err(SpaceMoneyError::ProgramPaused);
    }
    let (min_stake, multiplier, lock_days) = match tier_config.resolve(tier) {
        Ok(params) => params,
        Err(e) => { return Err(e); },
    };
    if amount < min_stake {
        return Err(SpaceMoneyError::InsufficientStakeAmount);
    }
    let (net_amount, fee) = match calculate_net_deposit(amount) {
        Ok(pair) => pair,
        Err(e) => { return Err(e); },
    };
    let lock_offset = match lock_days.checked_mul(SECONDS_PER_DAY) {
        Some(v) => v,
        None => { return Err(SpaceMoneyError::NumericalOverflow); },
    };
    let lock_until = match now.checked_add(lock_offset) {
        Some(v) => v,
        None => { return Err(SpaceMoneyError::NumericalOverflow); },
    };
    let tier_enum = match Tier::from_u8(tier) {
        Some(t) => t,
        None => { return Err(SpaceMoneyError::InvalidTier); },
    };
    let treasury = match token_type {
        TokenType::SOL => platform_state.treasury_sol,
        TokenType::USDT => platform_state.treasury_usdt,
    };
    let staked = match token_type {
        TokenType::SOL => platform_state.total_staked_sol,
        TokenType::USDT => platform_state.total_staked_usdt,
    };
    let new_treasury = match treasury.checked_add(fee) {
        Some(v) => v,
        None => { return Err(SpaceMoneyError::NumericalOverflow); },
    };
    let new_staked = match staked.checked_add(net_amount) {
        Some(v) => v,
        None => { return Err(SpaceMoneyError::NumericalOverflow); },
    };
    match token_type {
        TokenType::SOL => {
            platform_state.treasury_sol = new_treasury;
            platform_state.total_staked_sol = new_staked;
        },
        TokenType::USDT => {
            platform_state.treasury_usdt = new_treasury;
            platform_state.total_staked_usdt = new_staked;
        },
    }
    if user_account.user == Pubkey::default() {
        user_account.user = user;
        user_account.stakes = Vec::new();
        user_account.total_claimed_sol = 0;
        user_account.total_claimed_usdt = 0;
        user_account.last_claim_time = now;
    }
    let stake = UserStake {
        amount: net_amount,
        tier: tier_enum,
        token_type,
        deposited_at: now,
        lock_until,
        multiplier,
        lock_days,
        claimed_rewards: 0,
        is_active: true,
    };
    user_account.stakes.push(stake);
    proof {
        lemma_reward_total_nonneg(net_amount, multiplier, #[verifier::truncate] (lock_days as u64));
        assert(stake.within_cap());
        if old(user_account)@.within_caps() {
            assert forall|i: int|
                0 <= i < user_account@.stakes.len() implies (#[trigger] user_account@.stakes[i]).within_cap() by {
                if i < user_account@.stakes.len() - 1 {
                    assert(user_account@.stakes[i] == old(user_account)@.stakes[i]);
                }
            }
        }
    }
    Ok(DepositedEvent { user, amount: net_amount, tier, token_type, fee, lock_until, timestamp: now })
}

/// Locks `amount` of the native currency into a new stake under `tier`.
/// The settlement substrate moves `amount` from the user into platform
/// custody before this bookkeeping takes effect; any error here aborts
/// the whole transition.
pub fn deposit_sol(
    platform_state: &mut PlatformState,
    user_account: &mut UserAccount,
    tier_config: &TierConfig,
    user: Pubkey,
    amount: u64,
    tier: u8,
    now: i64,
) -> (r: Result<DepositedEvent, SpaceMoneyError>)
    ensures
        deposit_post(
            *old(platform_state),
            *final(platform_state),
            old(user_account)@,
            final(user_account)@,
            *tier_config,
            user,
            amount,
            tier,
            TokenType::SOL,
            now,
            r,
        ),
        old(user_account)@.within_caps() ==> final(user_account)@.within_caps(),
        r matches Ok(ev) ==> ev.amount + ev.fee == amount && ev.fee == deposit_fee(amount),
{
    deposit_core(platform_state, user_account, tier_config, user, amount, tier, TokenType::SOL, now)
}

/// Locks `amount` of the peg token into a new stake under `tier`. The
/// settlement substrate moves the tokens into platform custody before
/// this bookkeeping takes effect; any error here aborts the whole
/// transition.
pub fn deposit_usdt(
    platform_state: &mut PlatformState,
    user_account: &mut UserAccount,
    tier_config: &TierConfig,
    user: Pubkey,
    amount: u64,
    tier: u8,
    now: i64,
) -> (r: Result<DepositedEvent, SpaceMoneyError>)
    ensures
        deposit_post(
            *old(platform_state),
            *final(platform_state),
            old(user_account)@,
            final(user_account)@,
            *tier_config,
            user,
            amount,
            tier,
            TokenType::USDT,
            now,
            r,
        ),
        old(user_account)@.within_caps() ==> final(user_account)@.within_caps(),
        r matches Ok(ev) ==> ev.amount + ev.fee == amount && ev.fee == deposit_fee(amount),
{
    deposit_core(platform_state, user_account, tier_config, user, amount, tier, TokenType::USDT, now)
}

} // verus!
