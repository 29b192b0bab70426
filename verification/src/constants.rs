//! Platform-wide constants: fee rates, the daily yield, the early-exit
//! penalty, and the genesis parameters of the three commitment tiers.

use vstd::prelude::*;

verus! {

/// Deposit fee, in basis points (2%).
pub const DEPOSIT_FEE_BPS: u64 = 200;

/// Early-exit penalty on unclaimed rewards, in basis points (20%).
pub const FORCE_WITHDRAW_PENALTY_BPS: u64 = 2000;

/// Denominator for all basis-point arithmetic.
pub const BPS_DENOMINATOR: u64 = 10000;

/// Daily yield, in basis points (1% per day).
pub const DAILY_YIELD_BPS: u64 = 100;

/// Length of one reward-accrual day, in seconds.
pub const SECONDS_PER_DAY: i64 = 86400;

/// Minimum stake of the Boot tier, in minor units.
pub const BOOT_MIN_STAKE: u64 = 1_000_000_000;

/// Minimum stake of the Symbiotic tier, in minor units.
pub const SYMBIOTIC_MIN_STAKE: u64 = 5_000_000_000;

/// Minimum stake of the Space tier, in minor units.
pub const SPACE_MIN_STAKE: u64 = 25_000_000_000;

/// Reward multiplier of the Boot tier.
pub const BOOT_MULTIPLIER: u64 = 1;

/// Reward multiplier of the Symbiotic tier.
pub const SYMBIOTIC_MULTIPLIER: u64 = 2;

/// Reward multiplier of the Space tier.
pub const SPACE_MULTIPLIER: u64 = 3;

/// Lock duration of the Boot tier, in days.
pub const BOOT_LOCK_DAYS: i64 = 30;

/// Lock duration of the Symbiotic tier, in days.
pub const SYMBIOTIC_LOCK_DAYS: i64 = 90;

/// Lock duration of the Space tier, in days.
pub const SPACE_LOCK_DAYS: i64 = 180;

} // verus!
