//! The data model: account identities, the platform ledger, the tier
//! registry, and the per-user position store with its stake records.

use vstd::prelude::*;

use crate::calculations::daily_reward;
use crate::constants::BOOT_LOCK_DAYS;
use crate::constants::BOOT_MIN_STAKE;
use crate::constants::BOOT_MULTIPLIER;
use crate::constants::SPACE_LOCK_DAYS;
use crate::constants::SPACE_MIN_STAKE;
use crate::constants::SPACE_MULTIPLIER;
use crate::constants::SYMBIOTIC_LOCK_DAYS;
use crate::constants::SYMBIOTIC_MIN_STAKE;
use crate::constants::SYMBIOTIC_MULTIPLIER;
use crate::errors::SpaceMoneyError;

verus! {

/// A 256-bit account identity, held as four 64-bit words. The core only
/// ever compares identities for equality; deriving addresses and checking
/// signatures belongs to the settlement substrate.
#[derive(Clone, Copy, Debug, PartialEq, Eq, Structural)]
pub struct Pubkey {
    /// Bits 0..64 of the identity.
    pub w0: u64,
    /// Bits 64..128 of the identity.
    pub w1: u64,
    /// Bits 128..192 of the identity.
    pub w2: u64,
    /// Bits 192..256 of the identity.
    pub w3: u64,
}

impl Pubkey {
    /// The all-zero identity, marking a user account not yet initialized.
    pub open spec fn spec_default() -> Pubkey {
        Pubkey { w0: 0, w1: 0, w2: 0, w3: 0 }
    }

    /// Builds an identity from its four 64-bit words.
    pub fn new(w0: u64, w1: u64, w2: u64, w3: u64) -> (r: Pubkey)
        ensures
            r == (Pubkey { w0, w1, w2, w3 }),
    {
        Pubkey { w0, w1, w2, w3 }
    }
}

impl Default for Pubkey {
    /// The all-zero identity.
    fn default() -> (r: Pubkey)
        ensures
            r == Pubkey::spec_default(),
    {
        Pubkey { w0: 0, w1: 0, w2: 0, w3: 0 }
    }
}

/// A commitment tier, fixing the minimum stake, the reward multiplier and
/// the lock duration a stake was opened under.
#[derive(Clone, Copy, Debug, PartialEq, Eq, Structural)]
pub enum Tier {
    /// The entry tier.
    Boot,
    /// The middle tier.
    Symbiotic,
    /// The top tier.
    Space,
}

/// The tier denoted by a wire-level selector, if it is in range.
pub open spec fn spec_tier_of(value: u8) -> Option<Tier> {
    if value == 0 {
        Some(Tier::Boot)
    } else if value == 1 {
        Some(Tier::Symbiotic)
    } else if value == 2 {
        Some(Tier::Space)
    } else {
        None
    }
}

impl Tier {
    /// The tier selected by a wire-level selector, if it is in range.
    pub fn from_u8(value: u8) -> (r: Option<Tier>)
        ensures
            r == spec_tier_of(value),
    {
        match value {
            0 => Some(Tier::Boot),
            1 => Some(Tier::Symbiotic),
            2 => Some(Tier::Space),
            _ => None,
        }
    }

    /// The wire-level selector of this tier.
    pub fn to_u8(&self) -> (r: u8)
        ensures
            self is Boot ==> r == 0,
            self is Symbiotic ==> r == 1,
            self is Space ==> r == 2,
    {
        match self {
            Tier::Boot => 0,
            Tier::Symbiotic => 1,
            Tier::Space => 2,
        }
    }
}

/// The asset kind a stake is denominated in.
#[derive(Clone, Copy, Debug, PartialEq, Eq, Structural)]
#[allow(non_camel_case_types)]
pub enum TokenType {
    /// The native currency, in minor units.
    SOL,
    /// The accepted peg token, in minor units.
    USDT,
}

/// One user's locked-value record: created by a deposit, mutated by
/// claims, and terminal once deactivated by either withdrawal path. The
/// reward multiplier and lock duration are snapshotted from the tier
/// registry at deposit time, so later registry updates apply only to
/// stakes created after them.
#[derive(Clone, Copy, Debug, PartialEq, Eq, Structural)]
pub struct UserStake {
    /// The principal: the net value locked after fee extraction. Fixed for
    /// the stake's life.
    pub amount: u64,
    /// The tier the stake was opened under.
    pub tier: Tier,
    /// The asset kind the stake is denominated in. Fixed at creation.
    pub token_type: TokenType,
    /// When the stake was created.
    pub deposited_at: i64,
    /// When the lock expires: `deposited_at + lock_days * SECONDS_PER_DAY`.
    pub lock_until: i64,
    /// The reward multiplier snapshotted at deposit time.
    pub multiplier: u64,
    /// The lock duration in days snapshotted at deposit time.
    pub lock_days: i64,
    /// Lifetime rewards already paid out on this stake. Non-decreasing,
    /// bounded by the stake's maximum lifetime reward.
    pub claimed_rewards: u64,
    /// Whether the stake can still claim and withdraw. Cleared exactly
    /// once; never set again.
    pub is_active: bool,
}

impl UserStake {
    /// The maximum lifetime reward of this stake: the daily yield of its
    /// principal under its snapshotted multiplier, times its snapshotted
    /// lock duration.
    pub open spec fn cap(self) -> int {
        daily_reward(self.amount, self.multiplier) * (self.lock_days as u64)
    }

    /// The reward-cap invariant of one stake: what was claimed never
    /// exceeds the maximum lifetime reward.
    pub open spec fn within_cap(self) -> bool {
        self.claimed_rewards <= self.cap()
    }
}

/// The global platform ledger: the admin identity, per-asset treasury and
/// staked aggregates, the accepted peg-token identity, and the pause flag.
#[derive(Clone, Copy, Debug, PartialEq, Eq, Structural)]
pub struct PlatformState {
    /// The identity authorized for privileged operations.
    pub admin: Pubkey,
    /// Fees and penalties accumulated in the native currency.
    pub treasury_sol: u64,
    /// Fees and penalties accumulated in the peg token.
    pub treasury_usdt: u64,
    /// The sum of active native-currency principal.
    pub total_staked_sol: u64,
    /// The sum of active peg-token principal.
    pub total_staked_usdt: u64,
    /// The identity of the accepted peg token.
    pub usdt_mint: Pubkey,
    /// When true, every value-moving user operation is rejected.
    pub is_paused: bool,
    /// When the ledger was created. Immutable.
    pub created_at: i64,
}

/// The tier registry: the three commitment tiers, admin-mutable.
#[derive(Clone, Copy, Debug, PartialEq, Eq, Structural)]
pub struct TierConfig {
    /// Minimum stake of the Boot tier.
    pub boot_min_stake: u64,
    /// Reward multiplier of the Boot tier.
    pub boot_multiplier: u64,
    /// Lock duration of the Boot tier, in days.
    pub boot_lock_days: i64,
    /// Minimum stake of the Symbiotic tier.
    pub symbiotic_min_stake: u64,
    /// Reward multiplier of the Symbiotic tier.
    pub symbiotic_multiplier: u64,
    /// Lock duration of the Symbiotic tier, in days.
    pub symbiotic_lock_days: i64,
    /// Minimum stake of the Space tier.
    pub space_min_stake: u64,
    /// Reward multiplier of the Space tier.
    pub space_multiplier: u64,
    /// Lock duration of the Space tier, in days.
    pub space_lock_days: i64,
}

impl TierConfig {
    /// The registry at genesis.
    pub open spec fn spec_genesis() -> TierConfig {
        TierConfig {
            boot_min_stake: BOOT_MIN_STAKE,
            boot_multiplier: BOOT_MULTIPLIER,
            boot_lock_days: BOOT_LOCK_DAYS,
            symbiotic_min_stake: SYMBIOTIC_MIN_STAKE,
            symbiotic_multiplier: SYMBIOTIC_MULTIPLIER,
            symbiotic_lock_days: SYMBIOTIC_LOCK_DAYS,
            space_min_stake: SPACE_MIN_STAKE,
            space_multiplier: SPACE_MULTIPLIER,
            space_lock_days: SPACE_LOCK_DAYS,
        }
    }

    /// What resolving `tier` in this registry returns: the parameters
    /// `(min_stake, multiplier, lock_days)`, or `InvalidTier` out of range.
    pub open spec fn spec_resolve(self, tier: u8) -> Result<(u64, u64, i64), SpaceMoneyError> {
        if tier == 0 {
            Ok((self.boot_min_stake, self.boot_multiplier, self.boot_lock_days))
        } else if tier == 1 {
            Ok((self.symbiotic_min_stake, self.symbiotic_multiplier, self.symbiotic_lock_days))
        } else if tier == 2 {
            Ok((self.space_min_stake, self.space_multiplier, self.space_lock_days))
        } else {
            Err(SpaceMoneyError::InvalidTier)
        }
    }

    /// Builds the registry with its genesis defaults.
    pub fn genesis() -> (r: TierConfig)
        ensures
            r == TierConfig::spec_genesis(),
    {
        TierConfig {
            boot_min_stake: BOOT_MIN_STAKE,
            boot_multiplier: BOOT_MULTIPLIER,
            boot_lock_days: BOOT_LOCK_DAYS,
            symbiotic_min_stake: SYMBIOTIC_MIN_STAKE,
            symbiotic_multiplier: SYMBIOTIC_MULTIPLIER,
            symbiotic_lock_days: SYMBIOTIC_LOCK_DAYS,
            space_min_stake: SPACE_MIN_STAKE,
            space_multiplier: SPACE_MULTIPLIER,
            space_lock_days: SPACE_LOCK_DAYS,
        }
    }

    /// Resolves a tier selector to this registry's parameters
    /// `(min_stake, multiplier, lock_days)`, failing with `InvalidTier`
    /// when the selector is outside the three known tiers.
    pub fn resolve(&self, tier: u8) -> (r: Result<(u64, u64, i64), SpaceMoneyError>)
        ensures
            r == self.spec_resolve(tier),
    {
        match tier {
            0 => Ok((self.boot_min_stake, self.boot_multiplier, self.boot_lock_days)),
            1 => Ok((self.symbiotic_min_stake, self.symbiotic_multiplier, self.symbiotic_lock_days)),
            2 => Ok((self.space_min_stake, self.space_multiplier, self.space_lock_days)),
            _ => Err(SpaceMoneyError::InvalidTier),
        }
    }
}

/// The mathematical view of a user position: the same fields, with the
/// stake list as a sequence.
pub struct UserAccountView {
    /// The owning identity.
    pub user: Pubkey,
    /// The stake records, in order of creation.
    pub stakes: Seq<UserStake>,
    /// Lifetime native-currency rewards paid to this user.
    pub total_claimed_sol: u64,
    /// Lifetime peg-token rewards paid to this user.
    pub total_claimed_usdt: u64,
    /// When this user last claimed rewards.
    pub last_claim_time: i64,
}

impl UserAccountView {
    /// The reward-cap invariant over the whole position: every stake has
    /// claimed no more than its maximum lifetime reward.
    pub open spec fn within_caps(self) -> bool {
        forall|i: int| 0 <= i < self.stakes.len() ==> (#[trigger] self.stakes[i]).within_cap()
    }
}

/// One user's position: an append-only list of stake records (entries are
/// deactivated, never removed) and lifetime claim totals.
#[derive(Clone, Debug)]
pub struct UserAccount {
    /// The owning identity; the all-zero identity until first use.
    pub user: Pubkey,
    /// The stake records, in order of creation.
    pub stakes: Vec<UserStake>,
    /// Lifetime native-currency rewards paid to this user.
    pub total_claimed_sol: u64,
    /// Lifetime peg-token rewards paid to this user.
    pub total_claimed_usdt: u64,
    /// When this user last claimed rewards.
    pub last_claim_time: i64,
}

impl View for UserAccount {
    type V = UserAccountView;

    open spec fn view(&self) -> UserAccountView {
        UserAccountView {
            user: self.user,
            stakes: self.stakes@,
            total_claimed_sol: self.total_claimed_sol,
            total_claimed_usdt: self.total_claimed_usdt,
            last_claim_time: self.last_claim_time,
        }
    }
}

/// The serialized size of the fixed fields of a user position, in bytes:
/// a record tag, the owner identity, the list length, the two lifetime
/// totals and the last-claim timestamp.
pub const USER_ACCOUNT_INITIAL_LEN: usize = 8 + 32 + 4 + 8 + 8 + 8;

/// The serialized size of one stake record, in bytes.
pub const USER_STAKE_LEN: usize = 8 + 1 + 1 + 8 + 8 + 8 + 8 + 8 + 1;

impl UserAccount {
    /// The storage to reserve for a position holding `num_stakes` stake
    /// records.
    pub fn space_for_stakes(num_stakes: usize) -> (r: usize)
        requires
            USER_ACCOUNT_INITIAL_LEN + num_stakes * USER_STAKE_LEN <= usize::MAX,
        ensures
            r == USER_ACCOUNT_INITIAL_LEN + num_stakes * USER_STAKE_LEN,
    {
        USER_ACCOUNT_INITIAL_LEN + num_stakes * USER_STAKE_LEN
    }
}

} // verus!
