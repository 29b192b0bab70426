//! Platform-wide laws that cut across several handlers, each proved from
//! the handlers' own transition specifications.

use vstd::prelude::*;

use crate::calculations::tier_params_checked;
use crate::claim::claim_outcome;
use crate::errors::SpaceMoneyError;
use crate::force_withdraw::force_withdraw_outcome;
use crate::states::PlatformState;
use crate::states::Pubkey;
use crate::states::TierConfig;
use crate::states::TokenType;
use crate::states::UserAccountView;
use crate::withdraw::withdraw_outcome;

verus! {

/// A deactivated stake is terminal: every claim, scheduled withdrawal
/// (on either entry point) and early exit on its index fails with
/// `StakeNotFound`, whatever the clock and the balances say.
pub proof fn lemma_inactive_stake_rejected(
    p: PlatformState,
    u: UserAccountView,
    user: Pubkey,
    stake_index: u64,
    platform_balance: u64,
    now: i64,
)
    requires
        u.user == user,
        !p.is_paused,
        stake_index < u.stakes.len(),
        !u.stakes[stake_index as int].is_active,
    ensures
        claim_outcome(p, u, user, stake_index, platform_balance, now) == Err::<u64, SpaceMoneyError>(
            SpaceMoneyError::StakeNotFound,
        ),
        withdraw_outcome(p, u, user, stake_index, TokenType::SOL, platform_balance, now) == Err::<
            (u64, u64),
            SpaceMoneyError,
        >(SpaceMoneyError::StakeNotFound),
        withdraw_outcome(p, u, user, stake_index, TokenType::USDT, platform_balance, now) == Err::<
            (u64, u64),
            SpaceMoneyError,
        >(SpaceMoneyError::StakeNotFound),
        force_withdraw_outcome(p, u, user, stake_index, platform_balance, now) == Err::<
            (u64, u64, u64),
            SpaceMoneyError,
        >(SpaceMoneyError::StakeNotFound),
{
}

/// While the platform is paused, every value-moving user operation —
/// deposit, claim, either scheduled withdrawal, and early exit — fails
/// with `ProgramPaused`, for every user and every input. Admin
/// operations carry no pause gate at all: their own contracts promise
/// success to the admin whether or not the platform is paused.
pub proof fn lemma_pause_blocks_user_ops(
    p: PlatformState,
    u: UserAccountView,
    tc: TierConfig,
    user: Pubkey,
    amount: u64,
    tier: u8,
    token_type: TokenType,
    stake_index: u64,
    platform_balance: u64,
    now: i64,
)
    requires
        p.is_paused,
        u.user == user,
    ensures
        crate::deposit::deposit_outcome(p, tc, amount, tier, token_type, now) == Err::<
            (u64, u64, i64),
            SpaceMoneyError,
        >(SpaceMoneyError::ProgramPaused),
        claim_outcome(p, u, user, stake_index, platform_balance, now) == Err::<u64, SpaceMoneyError>(
            SpaceMoneyError::ProgramPaused,
        ),
        withdraw_outcome(p, u, user, stake_index, token_type, platform_balance, now) == Err::<
            (u64, u64),
            SpaceMoneyError,
        >(SpaceMoneyError::ProgramPaused),
        force_withdraw_outcome(p, u, user, stake_index, platform_balance, now) == Err::<
            (u64, u64, u64),
            SpaceMoneyError,
        >(SpaceMoneyError::ProgramPaused),
{
}

/// The free-standing tier table equals the registry at genesis: the
/// defaults the handlers snapshot from a fresh registry are exactly what
/// `get_tier_config` resolves.
pub proof fn lemma_genesis_matches_defaults(tier: u8)
    ensures
        TierConfig::spec_genesis().spec_resolve(tier) == tier_params_checked(tier),
{
}

} // verus!
