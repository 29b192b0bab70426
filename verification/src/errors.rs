//! The error taxonomy. Every failed transition aborts with exactly one of
//! these values and no state change.

use vstd::prelude::*;

verus! {

/// Why a transition was rejected. All errors are terminal for the
/// transition that raised them: the caller sees the error and no state
/// was changed.
#[derive(Clone, Copy, Debug, PartialEq, Eq, Structural)]
pub enum SpaceMoneyError {
    /// The platform is paused and the operation moves user value.
    ProgramPaused,
    /// The caller is not the identity the operation demands.
    Unauthorized,
    /// The tier selector is outside 0..=2.
    InvalidTier,
    /// The deposit is below the minimum stake of the chosen tier.
    InsufficientStakeAmount,
    /// The lock-duration precondition of the chosen path failed.
    StakeLocked,
    /// The stake index is past the end of the user's stake list.
    InvalidStakeIndex,
    /// The index is valid but the stake has been deactivated.
    StakeNotFound,
    /// The custodied platform funds fall short of the obligation.
    InsufficientTreasuryBalance,
    /// The user's own funds fall short of the deposit.
    InsufficientBalance,
    /// A checked addition, subtraction or multiplication overflowed.
    NumericalOverflow,
    /// The supplied peg-token identity does not match the accepted one.
    InvalidUsdtMint,
    /// A token account is not owned by the expected identity.
    TokenAccountOwnerMismatch,
    /// The token-kind selector is outside the two known kinds.
    InvalidTokenType,
    /// A reward or penalty computation saturated or subtracted past zero.
    CalculationError,
    /// The stake has already claimed its maximum lifetime reward.
    MaxRewardsClaimed,
    /// Nothing has accrued beyond what was already claimed.
    NoRewardsAvailable,
}

impl SpaceMoneyError {
    /// A human-readable description of the error.
    pub fn message(&self) -> &'static str {
        match self {
            SpaceMoneyError::ProgramPaused => "Program is currently paused",
            SpaceMoneyError::Unauthorized => "Unauthorized: Only admin can perform this action",
            SpaceMoneyError::InvalidTier => "Invalid tier selected",
            SpaceMoneyError::InsufficientStakeAmount => "Stake amount below minimum requirement for tier",
            SpaceMoneyError::StakeLocked => "Stake is still locked",
            SpaceMoneyError::InvalidStakeIndex => "Invalid stake index",
            SpaceMoneyError::StakeNotFound => "Stake not found",
            SpaceMoneyError::InsufficientTreasuryBalance => "Insufficient treasury balance",
            SpaceMoneyError::InsufficientBalance => "Insufficient user balance",
            SpaceMoneyError::NumericalOverflow => "Numerical overflow occurred",
            SpaceMoneyError::InvalidUsdtMint => "Invalid USDT mint address",
            SpaceMoneyError::TokenAccountOwnerMismatch => "Token account owner mismatch",
            SpaceMoneyError::InvalidTokenType => "Invalid token type",
            SpaceMoneyError::CalculationError => "Calculation error",
            SpaceMoneyError::MaxRewardsClaimed => "Already claimed maximum rewards",
            SpaceMoneyError::NoRewardsAvailable => "No rewards available to claim",
        }
    }
}

} // verus!
