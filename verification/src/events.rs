//! Transition records. Every state-changing handler returns one of these
//! on success; the settlement substrate appends it to its audit sink and
//! performs the transfer the record describes.

use vstd::prelude::*;

use crate::states::Pubkey;
use crate::states::TokenType;

verus! {

/// The platform was created.
#[derive(Clone, Copy, Debug, PartialEq, Eq, Structural)]
pub struct InitializedEvent {
    /// The bootstrap admin.
    pub admin: Pubkey,
    /// When the platform was created.
    pub timestamp: i64,
}

/// A user locked value into a new stake.
#[derive(Clone, Copy, Debug, PartialEq, Eq, Structural)]
pub struct DepositedEvent {
    /// The depositing user.
    pub user: Pubkey,
    /// The net principal locked, after fee extraction.
    pub amount: u64,
    /// The tier selector the stake was opened under.
    pub tier: u8,
    /// The asset kind deposited.
    pub token_type: TokenType,
    /// The fee retained by the treasury.
    pub fee: u64,
    /// When the stake's lock expires.
    pub lock_until: i64,
    /// When the deposit happened.
    pub timestamp: i64,
}

/// A user withdrew a matured stake.
#[derive(Clone, Copy, Debug, PartialEq, Eq, Structural)]
pub struct WithdrewEvent {
    /// The withdrawing user.
    pub user: Pubkey,
    /// The index of the stake withdrawn.
    pub stake_index: u64,
    /// The principal returned.
    pub principal: u64,
    /// The unclaimed rewards paid out with the principal.
    pub rewards: u64,
    /// The asset kind paid.
    pub token_type: TokenType,
    /// When the withdrawal happened.
    pub timestamp: i64,
}

/// A user claimed accrued rewards on an active stake.
#[derive(Clone, Copy, Debug, PartialEq, Eq, Structural)]
pub struct ClaimedRewardsEvent {
    /// The claiming user.
    pub user: Pubkey,
    /// The index of the stake claimed on.
    pub stake_index: u64,
    /// The rewards paid out by this claim.
    pub amount: u64,
    /// The asset kind paid.
    pub token_type: TokenType,
    /// When the claim happened.
    pub timestamp: i64,
}

/// A user exited a stake before its lock expired.
#[derive(Clone, Copy, Debug, PartialEq, Eq, Structural)]
pub struct ForceWithdrewEvent {
    /// The withdrawing user.
    pub user: Pubkey,
    /// The index of the stake exited.
    pub stake_index: u64,
    /// The principal returned in full.
    pub principal: u64,
    /// The unclaimed rewards paid out after the penalty.
    pub rewards_after_penalty: u64,
    /// The penalty retained by the treasury.
    pub penalty: u64,
    /// The asset kind paid.
    pub token_type: TokenType,
    /// When the early exit happened.
    pub timestamp: i64,
}

/// The admin moved funds out of the treasury.
#[derive(Clone, Copy, Debug, PartialEq, Eq, Structural)]
pub struct AdminTransferredEvent {
    /// The admin who moved the funds.
    pub admin: Pubkey,
    /// The identity the funds went to.
    pub recipient: Pubkey,
    /// The amount moved.
    pub amount: u64,
    /// The asset kind moved.
    pub token_type: TokenType,
    /// When the transfer happened.
    pub timestamp: i64,
}

/// The admin identity was rotated.
#[derive(Clone, Copy, Debug, PartialEq, Eq, Structural)]
pub struct AdminChangedEvent {
    /// The admin before the rotation.
    pub old_admin: Pubkey,
    /// The admin after the rotation.
    pub new_admin: Pubkey,
    /// When the rotation happened.
    pub timestamp: i64,
}

/// The platform was paused.
#[derive(Clone, Copy, Debug, PartialEq, Eq, Structural)]
pub struct ProgramPausedEvent {
    /// The admin who paused.
    pub admin: Pubkey,
    /// When the pause happened.
    pub timestamp: i64,
}

/// The platform was resumed.
#[derive(Clone, Copy, Debug, PartialEq, Eq, Structural)]
pub struct ProgramResumedEvent {
    /// The admin who resumed.
    pub admin: Pubkey,
    /// When the resume happened.
    pub timestamp: i64,
}

/// One tier of the registry was overwritten.
#[derive(Clone, Copy, Debug, PartialEq, Eq, Structural)]
pub struct TierConfigUpdatedEvent {
    /// The tier selector that was overwritten.
    pub tier: u8,
    /// The new minimum stake.
    pub min_stake: u64,
    /// The new reward multiplier.
    pub multiplier: u64,
    /// The new lock duration, in days.
    pub lock_days: i64,
    /// When the update happened.
    pub timestamp: i64,
}

} // verus!
