//! Claims: accrual, capping, the no-double-pay behaviour, and every
//! rejection a claim can meet.

use spacemoney::admin::initialize;
use spacemoney::admin::pause_program;
use spacemoney::claim::claim_rewards;
use spacemoney::deposit::deposit_sol;
use spacemoney::deposit::deposit_usdt;
use spacemoney::errors::SpaceMoneyError;
use spacemoney::states::PlatformState;
use spacemoney::states::Pubkey;
use spacemoney::states::TierConfig;
use spacemoney::states::UserAccount;

const DAY: i64 = 86_400;

fn fresh_account() -> UserAccount {
    UserAccount {
        user: Pubkey::default(),
        stakes: Vec::new(),
        total_claimed_sol: 0,
        total_claimed_usdt: 0,
        last_claim_time: 0,
    }
}

fn boot_stake_setup() -> (PlatformState, TierConfig, UserAccount, Pubkey, i64) {
    let admin = Pubkey::new(1, 0, 0, 0);
    let alice = Pubkey::new(7, 7, 7, 7);
    let (mut platform, tiers, _) = initialize(admin, Pubkey::default(), 0);
    let mut account = fresh_account();
    let deposited_at = 1_000_000;
    deposit_sol(&mut platform, &mut account, &tiers, alice, 1_000_000_000, 0, deposited_at)
        .unwrap();
    (platform, tiers, account, alice, deposited_at)
}

#[test]
fn claim_pays_the_accrued_daily_yield() {
    let (platform, _, mut account, alice, t0) = boot_stake_setup();
    let now = t0 + 10 * DAY;
    let ev = claim_rewards(&platform, &mut account, alice, 0, u64::MAX, now).unwrap();
    assert_eq!(ev.amount, 98_000_000);
    assert_eq!(account.stakes[0].claimed_rewards, 98_000_000);
    assert_eq!(account.total_claimed_sol, 98_000_000);
    assert_eq!(account.last_claim_time, now);
    assert!(account.stakes[0].is_active);
    assert_eq!(account.stakes[0].amount, 980_000_000);
}

#[test]
fn claim_twice_in_the_same_instant_pays_nothing_the_second_time() {
    let (platform, _, mut account, alice, t0) = boot_stake_setup();
    let now = t0 + 10 * DAY;
    claim_rewards(&platform, &mut account, alice, 0, u64::MAX, now).unwrap();
    assert_eq!(
        claim_rewards(&platform, &mut account, alice, 0, u64::MAX, now),
        Err(SpaceMoneyError::NoRewardsAvailable)
    );
    assert_eq!(account.stakes[0].claimed_rewards, 98_000_000);
    assert_eq!(account.total_claimed_sol, 98_000_000);
}

#[test]
fn claim_is_capped_at_the_maximum_lifetime_reward() {
    let (platform, _, mut account, alice, t0) = boot_stake_setup();
    // far past the 30-day lock: accrual is clamped to the 30-day cap
    let now = t0 + 400 * DAY;
    let ev = claim_rewards(&platform, &mut account, alice, 0, u64::MAX, now).unwrap();
    assert_eq!(ev.amount, 294_000_000);
    assert_eq!(account.stakes[0].claimed_rewards, 294_000_000);
    // and nothing further is ever owed
    assert_eq!(
        claim_rewards(&platform, &mut account, alice, 0, u64::MAX, now + 100 * DAY),
        Err(SpaceMoneyError::NoRewardsAvailable)
    );
}

#[test]
fn repeated_claims_sum_to_the_single_claim() {
    let (platform, _, mut account, alice, t0) = boot_stake_setup();
    let first = claim_rewards(&platform, &mut account, alice, 0, u64::MAX, t0 + 4 * DAY)
        .unwrap();
    let second = claim_rewards(&platform, &mut account, alice, 0, u64::MAX, t0 + 10 * DAY)
        .unwrap();
    assert_eq!(first.amount, 4 * 9_800_000);
    assert_eq!(second.amount, 6 * 9_800_000);
    assert_eq!(account.stakes[0].claimed_rewards, 98_000_000);
}

#[test]
fn claim_before_a_full_day_finds_no_rewards() {
    let (platform, _, mut account, alice, t0) = boot_stake_setup();
    assert_eq!(
        claim_rewards(&platform, &mut account, alice, 0, u64::MAX, t0 + DAY - 1),
        Err(SpaceMoneyError::NoRewardsAvailable)
    );
}

#[test]
fn claim_needs_the_custodied_balance() {
    let (platform, _, mut account, alice, t0) = boot_stake_setup();
    assert_eq!(
        claim_rewards(&platform, &mut account, alice, 0, 97_999_999, t0 + 10 * DAY),
        Err(SpaceMoneyError::InsufficientTreasuryBalance)
    );
    assert_eq!(account.stakes[0].claimed_rewards, 0);
}

#[test]
fn claim_by_the_wrong_user_is_unauthorized() {
    let (platform, _, mut account, _, t0) = boot_stake_setup();
    let mallory = Pubkey::new(6, 6, 6, 6);
    assert_eq!(
        claim_rewards(&platform, &mut account, mallory, 0, u64::MAX, t0 + 10 * DAY),
        Err(SpaceMoneyError::Unauthorized)
    );
}

#[test]
fn claim_on_a_bad_index_is_rejected() {
    let (platform, _, mut account, alice, t0) = boot_stake_setup();
    assert_eq!(
        claim_rewards(&platform, &mut account, alice, 1, u64::MAX, t0 + 10 * DAY),
        Err(SpaceMoneyError::InvalidStakeIndex)
    );
}

#[test]
fn claim_while_paused_is_rejected() {
    let (mut platform, _, mut account, alice, t0) = boot_stake_setup();
    let admin = Pubkey::new(1, 0, 0, 0);
    pause_program(&mut platform, admin, t0).unwrap();
    assert_eq!(
        claim_rewards(&platform, &mut account, alice, 0, u64::MAX, t0 + 10 * DAY),
        Err(SpaceMoneyError::ProgramPaused)
    );
}

#[test]
fn claim_on_a_peg_stake_feeds_the_peg_lifetime_total() {
    let admin = Pubkey::new(1, 0, 0, 0);
    let bob = Pubkey::new(2, 0, 0, 0);
    let (mut platform, tiers, _) = initialize(admin, Pubkey::new(9, 0, 0, 0), 0);
    let mut account = fresh_account();
    deposit_usdt(&mut platform, &mut account, &tiers, bob, 5_000_000_000, 1, 0).unwrap();
    // principal 4_900_000_000, multiplier 2: daily 9_800_000 * 2 == 98_000_000... per day
    let ev = claim_rewards(&platform, &mut account, bob, 0, u64::MAX, 3 * DAY).unwrap();
    assert_eq!(ev.amount, 3 * 98_000_000);
    assert_eq!(account.total_claimed_usdt, 294_000_000);
    assert_eq!(account.total_claimed_sol, 0);
}
