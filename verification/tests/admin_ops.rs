//! Admin operations: bootstrap state, authorization, the pause switch,
//! treasury transfers, and registry updates against stake snapshots.

use spacemoney::admin::admin_transfer;
use spacemoney::admin::initialize;
use spacemoney::admin::pause_program;
use spacemoney::admin::resume_program;
use spacemoney::admin::set_admin;
use spacemoney::admin::set_usdt_mint;
use spacemoney::admin::update_tier_config;
use spacemoney::claim::claim_rewards;
use spacemoney::deposit::deposit_sol;
use spacemoney::errors::SpaceMoneyError;
use spacemoney::states::Pubkey;
use spacemoney::states::UserAccount;

const DAY: i64 = 86_400;

fn fresh_account() -> UserAccount {
    UserAccount {
        user: Pubkey::default(),
        stakes: Vec::new(),
        total_claimed_sol: 0,
        total_claimed_usdt: 0,
        last_claim_time: 0,
    }
}

#[test]
fn initialize_builds_the_genesis_state() {
    let admin = Pubkey::new(1, 2, 3, 4);
    let mint = Pubkey::new(5, 6, 7, 8);
    let (platform, tiers, ev) = initialize(admin, mint, 42);
    assert_eq!(platform.admin, admin);
    assert_eq!(platform.usdt_mint, mint);
    assert_eq!(platform.treasury_sol, 0);
    assert_eq!(platform.treasury_usdt, 0);
    assert_eq!(platform.total_staked_sol, 0);
    assert_eq!(platform.total_staked_usdt, 0);
    assert!(!platform.is_paused);
    assert_eq!(platform.created_at, 42);
    assert_eq!(tiers.boot_min_stake, 1_000_000_000);
    assert_eq!(tiers.symbiotic_multiplier, 2);
    assert_eq!(tiers.space_lock_days, 180);
    assert_eq!(ev.admin, admin);
    assert_eq!(ev.timestamp, 42);
}

#[test]
fn admin_operations_demand_the_admin_identity() {
    let admin = Pubkey::new(1, 0, 0, 0);
    let mallory = Pubkey::new(6, 6, 6, 6);
    let (mut platform, mut tiers, _) = initialize(admin, Pubkey::default(), 0);
    assert_eq!(
        pause_program(&mut platform, mallory, 1),
        Err(SpaceMoneyError::Unauthorized)
    );
    assert_eq!(
        resume_program(&mut platform, mallory, 1),
        Err(SpaceMoneyError::Unauthorized)
    );
    assert_eq!(
        set_admin(&mut platform, mallory, mallory, 1),
        Err(SpaceMoneyError::Unauthorized)
    );
    assert_eq!(
        set_usdt_mint(&mut platform, mallory, mallory),
        Err(SpaceMoneyError::Unauthorized)
    );
    assert_eq!(
        update_tier_config(&platform, &mut tiers, mallory, 0, 1, 1, 1, 1),
        Err(SpaceMoneyError::Unauthorized)
    );
    assert_eq!(
        admin_transfer(&mut platform, mallory, mallory, 1, 0, u64::MAX, 1),
        Err(SpaceMoneyError::Unauthorized)
    );
    assert_eq!(platform.admin, admin);
    assert!(!platform.is_paused);
}

#[test]
fn admin_operations_remain_callable_while_paused() {
    let admin = Pubkey::new(1, 0, 0, 0);
    let new_admin = Pubkey::new(2, 0, 0, 0);
    let (mut platform, mut tiers, _) = initialize(admin, Pubkey::default(), 0);
    pause_program(&mut platform, admin, 1).unwrap();
    assert!(platform.is_paused);
    // every admin operation still answers the admin while paused
    update_tier_config(&platform, &mut tiers, admin, 0, 2_000_000_000, 1, 30, 2).unwrap();
    set_usdt_mint(&mut platform, admin, Pubkey::new(9, 9, 9, 9)).unwrap();
    set_admin(&mut platform, admin, new_admin, 3).unwrap();
    assert_eq!(platform.admin, new_admin);
    resume_program(&mut platform, new_admin, 4).unwrap();
    assert!(!platform.is_paused);
}

#[test]
fn resume_reopens_user_operations() {
    let admin = Pubkey::new(1, 0, 0, 0);
    let alice = Pubkey::new(7, 0, 0, 0);
    let (mut platform, tiers, _) = initialize(admin, Pubkey::default(), 0);
    pause_program(&mut platform, admin, 1).unwrap();
    let mut account = fresh_account();
    assert_eq!(
        deposit_sol(&mut platform, &mut account, &tiers, alice, 1_000_000_000, 0, 2),
        Err(SpaceMoneyError::ProgramPaused)
    );
    resume_program(&mut platform, admin, 3).unwrap();
    deposit_sol(&mut platform, &mut account, &tiers, alice, 1_000_000_000, 0, 4).unwrap();
    assert_eq!(account.stakes.len(), 1);
}

#[test]
fn admin_transfer_spends_only_the_treasury() {
    let admin = Pubkey::new(1, 0, 0, 0);
    let alice = Pubkey::new(7, 0, 0, 0);
    let payee = Pubkey::new(8, 0, 0, 0);
    let (mut platform, tiers, _) = initialize(admin, Pubkey::default(), 0);
    let mut account = fresh_account();
    deposit_sol(&mut platform, &mut account, &tiers, alice, 1_000_000_000, 0, 0).unwrap();
    assert_eq!(platform.treasury_sol, 20_000_000);
    // more than the treasury holds, though custody would cover it
    assert_eq!(
        admin_transfer(&mut platform, admin, payee, 20_000_001, 0, u64::MAX, 1),
        Err(SpaceMoneyError::InsufficientTreasuryBalance)
    );
    // more than custody holds, though the treasury bookkeeping would cover it
    assert_eq!(
        admin_transfer(&mut platform, admin, payee, 20_000_000, 0, 19_999_999, 1),
        Err(SpaceMoneyError::InsufficientTreasuryBalance)
    );
    let ev = admin_transfer(&mut platform, admin, payee, 15_000_000, 0, u64::MAX, 1).unwrap();
    assert_eq!(ev.amount, 15_000_000);
    assert_eq!(platform.treasury_sol, 5_000_000);
    assert_eq!(platform.total_staked_sol, 980_000_000);
}

#[test]
fn admin_transfer_rejects_an_unknown_asset_selector() {
    let admin = Pubkey::new(1, 0, 0, 0);
    let (mut platform, _, _) = initialize(admin, Pubkey::default(), 0);
    assert_eq!(
        admin_transfer(&mut platform, admin, admin, 1, 2, u64::MAX, 1),
        Err(SpaceMoneyError::InvalidTokenType)
    );
}

#[test]
fn tier_update_applies_only_to_later_stakes() {
    let admin = Pubkey::new(1, 0, 0, 0);
    let alice = Pubkey::new(7, 0, 0, 0);
    let (mut platform, mut tiers, _) = initialize(admin, Pubkey::default(), 0);
    let mut account = fresh_account();
    deposit_sol(&mut platform, &mut account, &tiers, alice, 1_000_000_000, 0, 0).unwrap();
    // double the Boot multiplier after the stake exists
    update_tier_config(&platform, &mut tiers, admin, 0, 1_000_000_000, 2, 30, 1).unwrap();
    assert_eq!(tiers.boot_multiplier, 2);
    // the old stake still earns at its snapshotted multiplier of 1
    let ev = claim_rewards(&platform, &mut account, alice, 0, u64::MAX, 10 * DAY).unwrap();
    assert_eq!(ev.amount, 98_000_000);
    // a new stake snapshots the updated multiplier
    deposit_sol(&mut platform, &mut account, &tiers, alice, 1_000_000_000, 0, 10 * DAY)
        .unwrap();
    assert_eq!(account.stakes[1].multiplier, 2);
}

#[test]
fn claim_on_a_stake_with_saturating_parameters_is_a_calculation_error() {
    let admin = Pubkey::new(1, 0, 0, 0);
    let alice = Pubkey::new(7, 0, 0, 0);
    let (mut platform, mut tiers, _) = initialize(admin, Pubkey::default(), 0);
    // the registry accepts arbitrary parameters; a stake snapshotting an
    // absurd multiplier later saturates its reward arithmetic
    update_tier_config(&platform, &mut tiers, admin, 0, 1_000_000_000, u64::MAX, 30, 0)
        .unwrap();
    let mut account = fresh_account();
    deposit_sol(&mut platform, &mut account, &tiers, alice, 1_000_000_000, 0, 0).unwrap();
    assert_eq!(account.stakes[0].multiplier, u64::MAX);
    assert_eq!(
        claim_rewards(&platform, &mut account, alice, 0, u64::MAX, 10 * DAY),
        Err(SpaceMoneyError::CalculationError)
    );
}

#[test]
fn tier_update_rejects_a_bad_selector() {
    let admin = Pubkey::new(1, 0, 0, 0);
    let (platform, mut tiers, _) = initialize(admin, Pubkey::default(), 0);
    assert_eq!(
        update_tier_config(&platform, &mut tiers, admin, 3, 1, 1, 1, 1),
        Err(SpaceMoneyError::InvalidTier)
    );
}

#[test]
fn set_usdt_mint_updates_the_accepted_peg_identity() {
    let admin = Pubkey::new(1, 0, 0, 0);
    let mint = Pubkey::new(5, 0, 0, 0);
    let (mut platform, _, _) = initialize(admin, Pubkey::default(), 0);
    set_usdt_mint(&mut platform, admin, mint).unwrap();
    assert_eq!(platform.usdt_mint, mint);
}
