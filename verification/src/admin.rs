//! Admin-gated operations: bootstrap, treasury transfers, admin rotation,
//! the pause switch, the accepted peg token, and tier-registry updates.
//! None of these is blocked by the pause flag; every one of them demands
//! the admin identity where the original demands it.

use vstd::prelude::*;

use crate::errors::SpaceMoneyError;
use crate::events::AdminChangedEvent;
use crate::events::AdminTransferredEvent;
use crate::events::InitializedEvent;
use crate::events::ProgramPausedEvent;
use crate::events::ProgramResumedEvent;
use crate::events::TierConfigUpdatedEvent;
use crate::states::PlatformState;
use crate::states::Pubkey;
use crate::states::TierConfig;
use crate::states::TokenType;

verus! {

/// Creates the platform ledger and the tier registry: zero treasuries and
/// staked totals, the bootstrap caller as admin, the registry at its
/// genesis defaults, and the platform not paused.
pub fn initialize(admin: Pubkey, usdt_mint: Pubkey, now: i64) -> (r: (
    PlatformState,
    TierConfig,
    InitializedEvent,
))
    ensures
        r.0 == (PlatformState {
            admin,
            treasury_sol: 0,
            treasury_usdt: 0,
            total_staked_sol: 0,
            total_staked_usdt: 0,
            usdt_mint,
            is_paused: false,
            created_at: now,
        }),
        r.1 == TierConfig::spec_genesis(),
        r.2 == (InitializedEvent { admin, timestamp: now }),
{
    let platform_state = PlatformState {
        admin,
        treasury_sol: 0,
        treasury_usdt: 0,
        total_staked_sol: 0,
        total_staked_usdt: 0,
        usdt_mint,
        is_paused: false,
        created_at: now,
    };
    let tier_config = TierConfig::genesis();
    let event = InitializedEvent { admin, timestamp: now };
    (platform_state, tier_config, event)
}

/// Moves `amount` out of the treasury to an arbitrary recipient. Fails
/// with `Unauthorized` for any caller but the admin, `InvalidTokenType`
/// for an unknown asset selector, and `InsufficientTreasuryBalance` when
/// either the treasury bookkeeping or the custodied balance falls short.
/// The staked totals are never touched: only treasury funds are spendable.
pub fn admin_transfer(
    platform_state: &mut PlatformState,
    admin: Pubkey,
    recipient: Pubkey,
    amount: u64,
    token_type: u8,
    platform_balance: u64,
    now: i64,
) -> (r: Result<AdminTransferredEvent, SpaceMoneyError>)
    ensures
        ({
            let p0 = *old(platform_state);
            let p1 = *final(platform_state);
            if p0.admin != admin {
                r == Err::<AdminTransferredEvent, SpaceMoneyError>(SpaceMoneyError::Unauthorized)
                    && p1 == p0
            } else if token_type == 0 {
                if p0.treasury_sol < amount || platform_balance < amount {
                    r == Err::<AdminTransferredEvent, SpaceMoneyError>(
                        SpaceMoneyError::InsufficientTreasuryBalance,
                    ) && p1 == p0
                } else {
                    r == Ok::<AdminTransferredEvent, SpaceMoneyError>(
                        AdminTransferredEvent {
                            admin,
                            recipient,
                            amount,
                            token_type: TokenType::SOL,
                            timestamp: now,
                        },
                    ) && p1 == (PlatformState {
                        treasury_sol: (p0.treasury_sol - amount) as u64,
                        ..p0
                    })
                }
            } else if token_type == 1 {
                if p0.treasury_usdt < amount || platform_balance < amount {
                    r == Err::<AdminTransferredEvent, SpaceMoneyError>(
                        SpaceMoneyError::InsufficientTreasuryBalance,
                    ) && p1 == p0
                } else {
                    r == Ok::<AdminTransferredEvent, SpaceMoneyError>(
                        AdminTransferredEvent {
                            admin,
                            recipient,
                            amount,
                            token_type: TokenType::USDT,
                            timestamp: now,
                        },
                    ) && p1 == (PlatformState {
                        treasury_usdt: (p0.treasury_usdt - amount) as u64,
                        ..p0
                    })
                }
            } else {
                r == Err::<AdminTransferredEvent, SpaceMoneyError>(SpaceMoneyError::InvalidTokenType)
                    && p1 == p0
            }
        }),
{
    if platform_state.admin != admin {
        return Err(SpaceMoneyError::Unauthorized);
    }
    let token_type_enum = if token_type == 0 {
        TokenType::SOL
    } else if token_type == 1 {
        TokenType::USDT
    } else {
        return Err(SpaceMoneyError::InvalidTokenType);
    };
    match token_type_enum {
        TokenType::SOL => {
            if platform_state.treasury_sol < amount {
                return Err(SpaceMoneyError::InsufficientTreasuryBalance);
            }
            if platform_balance < amount {
                return Err(SpaceMoneyError::InsufficientTreasuryBalance);
            }
            platform_state.treasury_sol = platform_state.treasury_sol - amount;
        },
        TokenType::USDT => {
            if platform_state.treasury_usdt < amount {
                return Err(SpaceMoneyError::InsufficientTreasuryBalance);
            }
            if platform_balance < amount {
                return Err(SpaceMoneyError::InsufficientTreasuryBalance);
            }
            platform_state.treasury_usdt = platform_state.treasury_usdt - amount;
        },
    }
    Ok(AdminTransferredEvent { admin, recipient, amount, token_type: token_type_enum, timestamp: now })
}

/// Rotates the admin identity. Fails with `Unauthorized` for any caller
/// but the current admin; otherwise the new identity takes over and
/// nothing else changes.
pub fn set_admin(platform_state: &mut PlatformState, admin: Pubkey, new_admin: Pubkey, now: i64) -> (r:
    Result<AdminChangedEvent, SpaceMoneyError>)
    ensures
        old(platform_state).admin != admin ==> r == Err::<AdminChangedEvent, SpaceMoneyError>(
            SpaceMoneyError::Unauthorized,
        ) && *final(platform_state) == *old(platform_state),
        old(platform_state).admin == admin ==> r == Ok::<AdminChangedEvent, SpaceMoneyError>(
            AdminChangedEvent { old_admin: admin, new_admin, timestamp: now },
        ) && *final(platform_state) == (PlatformState { admin: new_admin, ..*old(platform_state) }),
{
    if platform_state.admin != admin {
        return Err(SpaceMoneyError::Unauthorized);
    }
    let old_admin = platform_state.admin;
    platform_state.admin = new_admin;
    Ok(AdminChangedEvent { old_admin, new_admin, timestamp: now })
}

/// Updates the accepted peg-token identity. Fails with `Unauthorized` for
/// any caller but the admin; otherwise nothing else changes.
pub fn set_usdt_mint(platform_state: &mut PlatformState, admin: Pubkey, usdt_mint: Pubkey) -> (r:
    Result<(), SpaceMoneyError>)
    ensures
        old(platform_state).admin != admin ==> r == Err::<(), SpaceMoneyError>(
            SpaceMoneyError::Unauthorized,
        ) && *final(platform_state) == *old(platform_state),
        old(platform_state).admin == admin ==> r == Ok::<(), SpaceMoneyError>(())
            && *final(platform_state) == (PlatformState { usdt_mint, ..*old(platform_state) }),
{
    if platform_state.admin != admin {
        return Err(SpaceMoneyError::Unauthorized);
    }
    platform_state.usdt_mint = usdt_mint;
    Ok(())
}

/// Overwrites one tier of the registry. Fails with `Unauthorized` for any
/// caller but the admin and `InvalidTier` for a selector out of range; no
/// further validation is applied — the parameters are operator trust.
/// Existing stakes are unaffected: they carry their own snapshots.
pub fn update_tier_config(
    platform_state: &PlatformState,
    tier_config: &mut TierConfig,
    admin: Pubkey,
    tier: u8,
    min_stake: u64,
    multiplier: u64,
    lock_days: i64,
    now: i64,
) -> (r: Result<TierConfigUpdatedEvent, SpaceMoneyError>)
    ensures
        platform_state.admin != admin ==> r == Err::<TierConfigUpdatedEvent, SpaceMoneyError>(
            SpaceMoneyError::Unauthorized,
        ) && *final(tier_config) == *old(tier_config),
        platform_state.admin == admin && tier > 2 ==> r == Err::<
            TierConfigUpdatedEvent,
            SpaceMoneyError,
        >(SpaceMoneyError::InvalidTier) && *final(tier_config) == *old(tier_config),
        platform_state.admin == admin && tier <= 2 ==> {
            &&& r == Ok::<TierConfigUpdatedEvent, SpaceMoneyError>(
                TierConfigUpdatedEvent { tier, min_stake, multiplier, lock_days, timestamp: now },
            )
            &&& final(tier_config).spec_resolve(tier) == Ok::<(u64, u64, i64), SpaceMoneyError>(
                (min_stake, multiplier, lock_days),
            )
            &&& tier == 0 ==> *final(tier_config) == (TierConfig {
                boot_min_stake: min_stake,
                boot_multiplier: multiplier,
                boot_lock_days: lock_days,
                ..*old(tier_config)
            })
            &&& tier == 1 ==> *final(tier_config) == (TierConfig {
                symbiotic_min_stake: min_stake,
                symbiotic_multiplier: multiplier,
                symbiotic_lock_days: lock_days,
                ..*old(tier_config)
            })
            &&& tier == 2 ==> *final(tier_config) == (TierConfig {
                space_min_stake: min_stake,
                space_multiplier: multiplier,
                space_lock_days: lock_days,
                ..*old(tier_config)
            })
        },
{
    if platform_state.admin != admin {
        return Err(SpaceMoneyError::Unauthorized);
    }
    match tier {
        0 => {
            tier_config.boot_min_stake = min_stake;
            tier_config.boot_multiplier = multiplier;
            tier_config.boot_lock_days = lock_days;
        },
        1 => {
            tier_config.symbiotic_min_stake = min_stake;
            tier_config.symbiotic_multiplier = multiplier;
            tier_config.symbiotic_lock_days = lock_days;
        },
        2 => {
            tier_config.space_min_stake = min_stake;
            tier_config.space_multiplier = multiplier;
            tier_config.space_lock_days = lock_days;
        },
        _ => { return Err(SpaceMoneyError::InvalidTier); },
    }
    Ok(TierConfigUpdatedEvent { tier, min_stake, multiplier, lock_days, timestamp: now })
}

/// Sets the pause flag. Fails with `Unauthorized` for any caller but the
/// admin; the flag blocks every value-moving user operation but no admin
/// operation, this one included.
pub fn pause_program(platform_state: &mut PlatformState, admin: Pubkey, now: i64) -> (r: Result<
    ProgramPausedEvent,
    SpaceMoneyError,
>)
    ensures
        old(platform_state).admin != admin ==> r == Err::<ProgramPausedEvent, SpaceMoneyError>(
            SpaceMoneyError::Unauthorized,
        ) && *final(platform_state) == *old(platform_state),
        old(platform_state).admin == admin ==> r == Ok::<ProgramPausedEvent, SpaceMoneyError>(
            ProgramPausedEvent { admin, timestamp: now },
        ) && *final(platform_state) == (PlatformState { is_paused: true, ..*old(platform_state) }),
{
    if platform_state.admin != admin {
        return Err(SpaceMoneyError::Unauthorized);
    }
    platform_state.is_paused = true;
    Ok(ProgramPausedEvent { admin, timestamp: now })
}

/// Clears the pause flag. Fails with `Unauthorized` for any caller but
/// the admin; callable while paused, like every admin operation.
pub fn resume_program(platform_state: &mut PlatformState, admin: Pubkey, now: i64) -> (r: Result<
    ProgramResumedEvent,
    SpaceMoneyError,
>)
    ensures
        old(platform_state).admin != admin ==> r == Err::<ProgramResumedEvent, SpaceMoneyError>(
            SpaceMoneyError::Unauthorized,
        ) && *final(platform_state) == *old(platform_state),
        old(platform_state).admin == admin ==> r == Ok::<ProgramResumedEvent, SpaceMoneyError>(
            ProgramResumedEvent { admin, timestamp: now },
        ) && *final(platform_state) == (PlatformState { is_paused: false, ..*old(platform_state) }),
{
    if platform_state.admin != admin {
        return Err(SpaceMoneyError::Unauthorized);
    }
    platform_state.is_paused = false;
    Ok(ProgramResumedEvent { admin, timestamp: now })
}

} // verus!
