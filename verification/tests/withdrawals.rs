//! Scheduled withdrawals and early exits: lock gating, the exact
//! payouts, the terminal deactivation, and every rejection.

use spacemoney::admin::initialize;
use spacemoney::claim::claim_rewards;
use spacemoney::deposit::deposit_sol;
use spacemoney::deposit::deposit_usdt;
use spacemoney::errors::SpaceMoneyError;
use spacemoney::force_withdraw::force_withdraw;
use spacemoney::states::PlatformState;
use spacemoney::states::Pubkey;
use spacemoney::states::TierConfig;
use spacemoney::states::UserAccount;
use spacemoney::withdraw::withdraw_sol;
use spacemoney::withdraw::withdraw_usdt;

const DAY: i64 = 86_400;

fn fresh_account() -> UserAccount {
    UserAccount {
        user: Pubkey::default(),
        stakes: Vec::new(),
        total_claimed_sol: 0,
        total_claimed_usdt: 0,
        last_claim_time: 0,
    }
}

fn boot_stake_setup() -> (PlatformState, TierConfig, UserAccount, Pubkey, i64) {
    let admin = Pubkey::new(1, 0, 0, 0);
    let alice = Pubkey::new(7, 7, 7, 7);
    let (mut platform, tiers, _) = initialize(admin, Pubkey::default(), 0);
    let mut account = fresh_account();
    let deposited_at = 1_000_000;
    deposit_sol(&mut platform, &mut account, &tiers, alice, 1_000_000_000, 0, deposited_at)
        .unwrap();
    (platform, tiers, account, alice, deposited_at)
}

#[test]
fn withdraw_before_lock_expiry_always_fails_locked() {
    let (mut platform, _, mut account, alice, t0) = boot_stake_setup();
    for now in [t0, t0 + DAY, t0 + 29 * DAY, t0 + 30 * DAY - 1] {
        assert_eq!(
            withdraw_sol(&mut platform, &mut account, alice, 0, u64::MAX, now),
            Err(SpaceMoneyError::StakeLocked)
        );
    }
    assert!(account.stakes[0].is_active);
    assert_eq!(platform.total_staked_sol, 980_000_000);
}

#[test]
fn withdraw_at_lock_expiry_pays_principal_plus_full_term_rewards() {
    let (mut platform, _, mut account, alice, t0) = boot_stake_setup();
    let now = t0 + 30 * DAY;
    let ev = withdraw_sol(&mut platform, &mut account, alice, 0, u64::MAX, now).unwrap();
    assert_eq!(ev.principal, 980_000_000);
    assert_eq!(ev.rewards, 294_000_000);
    // the payout the substrate transfers: 980_000_000 + 294_000_000
    assert_eq!(ev.principal + ev.rewards, 1_274_000_000);
    assert!(!account.stakes[0].is_active);
    assert_eq!(account.total_claimed_sol, 294_000_000);
    assert_eq!(platform.total_staked_sol, 0);
    // the treasury keeps its deposit fee
    assert_eq!(platform.treasury_sol, 20_000_000);
}

#[test]
fn withdraw_pays_only_what_was_not_yet_claimed() {
    let (mut platform, _, mut account, alice, t0) = boot_stake_setup();
    claim_rewards(&platform, &mut account, alice, 0, u64::MAX, t0 + 10 * DAY).unwrap();
    let ev = withdraw_sol(&mut platform, &mut account, alice, 0, u64::MAX, t0 + 30 * DAY)
        .unwrap();
    assert_eq!(ev.rewards, 294_000_000 - 98_000_000);
    assert_eq!(account.total_claimed_sol, 294_000_000);
}

#[test]
fn withdraw_needs_the_custodied_balance() {
    let (mut platform, _, mut account, alice, t0) = boot_stake_setup();
    assert_eq!(
        withdraw_sol(&mut platform, &mut account, alice, 0, 1_274_000_000 - 1, t0 + 30 * DAY),
        Err(SpaceMoneyError::InsufficientTreasuryBalance)
    );
    assert!(account.stakes[0].is_active);
}

#[test]
fn withdraw_on_the_wrong_entry_point_is_rejected() {
    let (mut platform, _, mut account, alice, t0) = boot_stake_setup();
    assert_eq!(
        withdraw_usdt(&mut platform, &mut account, alice, 0, u64::MAX, t0 + 30 * DAY),
        Err(SpaceMoneyError::InvalidTokenType)
    );
}

#[test]
fn withdrawn_stake_rejects_every_later_operation() {
    let (mut platform, _, mut account, alice, t0) = boot_stake_setup();
    withdraw_sol(&mut platform, &mut account, alice, 0, u64::MAX, t0 + 30 * DAY).unwrap();
    assert_eq!(
        claim_rewards(&platform, &mut account, alice, 0, u64::MAX, t0 + 31 * DAY),
        Err(SpaceMoneyError::StakeNotFound)
    );
    assert_eq!(
        withdraw_sol(&mut platform, &mut account, alice, 0, u64::MAX, t0 + 31 * DAY),
        Err(SpaceMoneyError::StakeNotFound)
    );
    assert_eq!(
        force_withdraw(&mut platform, &mut account, alice, 0, u64::MAX, t0 + 31 * DAY),
        Err(SpaceMoneyError::StakeNotFound)
    );
}

#[test]
fn force_withdraw_after_ten_days_matches_the_penalty_arithmetic() {
    let (mut platform, _, mut account, alice, t0) = boot_stake_setup();
    let now = t0 + 10 * DAY;
    let ev = force_withdraw(&mut platform, &mut account, alice, 0, u64::MAX, now).unwrap();
    // accrued 98_000_000; penalty floor(98_000_000 * 2000 / 10000) == 19_600_000
    assert_eq!(ev.principal, 980_000_000);
    assert_eq!(ev.penalty, 19_600_000);
    assert_eq!(ev.rewards_after_penalty, 78_400_000);
    // the payout the substrate transfers: 980_000_000 + 78_400_000
    assert_eq!(ev.principal + ev.rewards_after_penalty, 1_058_400_000);
    // the treasury keeps the penalty on top of the deposit fee
    assert_eq!(platform.treasury_sol, 20_000_000 + 19_600_000);
    assert_eq!(platform.total_staked_sol, 0);
    assert!(!account.stakes[0].is_active);
    assert_eq!(account.total_claimed_sol, 78_400_000);
}

#[test]
fn force_withdraw_returns_full_principal_and_penalizes_only_rewards() {
    let (mut platform, _, mut account, alice, t0) = boot_stake_setup();
    // before any accrual: no rewards, no penalty, the whole principal back
    let ev = force_withdraw(&mut platform, &mut account, alice, 0, u64::MAX, t0 + 1).unwrap();
    assert_eq!(ev.principal, 980_000_000);
    assert_eq!(ev.penalty, 0);
    assert_eq!(ev.rewards_after_penalty, 0);
    assert_eq!(platform.treasury_sol, 20_000_000);
}

#[test]
fn force_withdraw_after_lock_expiry_is_redirected() {
    let (mut platform, _, mut account, alice, t0) = boot_stake_setup();
    assert_eq!(
        force_withdraw(&mut platform, &mut account, alice, 0, u64::MAX, t0 + 30 * DAY),
        Err(SpaceMoneyError::StakeLocked)
    );
    assert!(account.stakes[0].is_active);
}

#[test]
fn force_withdraw_penalty_and_net_sum_to_the_unclaimed_rewards() {
    let (mut platform, _, mut account, alice, t0) = boot_stake_setup();
    claim_rewards(&platform, &mut account, alice, 0, u64::MAX, t0 + 4 * DAY).unwrap();
    let now = t0 + 10 * DAY;
    let ev = force_withdraw(&mut platform, &mut account, alice, 0, u64::MAX, now).unwrap();
    let unclaimed = 98_000_000 - 4 * 9_800_000;
    assert_eq!(ev.penalty + ev.rewards_after_penalty, unclaimed);
    assert_eq!(ev.penalty, unclaimed * 2000 / 10_000);
}

#[test]
fn peg_withdrawal_shrinks_the_peg_staked_total() {
    let admin = Pubkey::new(1, 0, 0, 0);
    let bob = Pubkey::new(2, 0, 0, 0);
    let (mut platform, tiers, _) = initialize(admin, Pubkey::new(9, 0, 0, 0), 0);
    let mut account = fresh_account();
    deposit_usdt(&mut platform, &mut account, &tiers, bob, 5_000_000_000, 1, 0).unwrap();
    assert_eq!(platform.total_staked_usdt, 4_900_000_000);
    let ev = withdraw_usdt(&mut platform, &mut account, bob, 0, u64::MAX, 90 * DAY).unwrap();
    // daily 98_000_000 over 90 days
    assert_eq!(ev.rewards, 8_820_000_000);
    assert_eq!(platform.total_staked_usdt, 0);
    assert_eq!(account.total_claimed_usdt, 8_820_000_000);
}
