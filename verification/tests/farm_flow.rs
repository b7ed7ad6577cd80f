use gem_farm::error::ErrorCode;
use gem_farm::farm::{Farm, FarmConfig};
use gem_farm::farm_reward::{FarmReward, FarmRewardKind, RewardType};
use gem_farm::farmer::{Farmer, FarmerReward, FarmerRewardTracker, FarmerState};
use gem_farm::fixed_rate::{FixedRateConfig, FixedRateFarmerTracker, FixedRateReward, FixedRateSchedule, TierConfig};
use gem_farm::funds_tracker::FundsTracker;
use gem_farm::ids::Pubkey;
use gem_farm::time_tracker::TimeTracker;
use gem_farm::variable_rate::{VariableRateConfig, VariableRateFarmerTracker, VariableRateReward};

fn pk(n: u64) -> Pubkey {
    Pubkey::new(n, 0, 0, 0)
}

fn empty_funds() -> FundsTracker {
    FundsTracker { total_funded: 0, total_refunded: 0, total_accrued_to_stakers: 0 }
}

fn empty_times() -> TimeTracker {
    TimeTracker { duration_sec: 0, reward_end_ts: 0, lock_end_ts: 0 }
}

fn variable_slot(mint: Pubkey) -> FarmReward {
    FarmReward {
        reward_mint: mint,
        reward_pot: pk(99),
        kind: FarmRewardKind::Variable(VariableRateReward {
            reward_rate: 0,
            reward_last_updated_ts: 0,
            accrued_reward_per_gem: 0,
        }),
        funds: empty_funds(),
        times: empty_times(),
    }
}

fn flat_schedule(rate: u64) -> FixedRateSchedule {
    FixedRateSchedule { tiers: vec![TierConfig { reward_rate: rate, required_tenure: 0 }] }
}

fn fixed_slot(mint: Pubkey, rate: u64) -> FarmReward {
    FarmReward {
        reward_mint: mint,
        reward_pot: pk(98),
        kind: FarmRewardKind::Fixed(FixedRateReward {
            schedule: flat_schedule(rate),
            reserved_amount: 0,
        }),
        funds: empty_funds(),
        times: empty_times(),
    }
}

fn farm_with(reward_a: FarmReward, reward_b: FarmReward, config: FarmConfig) -> Farm {
    Farm {
        version: 0,
        farm_manager: pk(1),
        farm_treasury: pk(2),
        farm_authority: pk(3),
        farm_authority_seed: pk(4),
        farm_authority_bump_seed: 0,
        bank: pk(5),
        config,
        farmer_count: 1,
        staked_farmer_count: 0,
        gems_staked: 0,
        authorized_funder_count: 0,
        reward_a,
        reward_b,
    }
}

fn zero_config() -> FarmConfig {
    FarmConfig { min_staking_period_sec: 0, cooldown_period_sec: 0, unstaking_fee_lamp: 0 }
}

fn variable_farmer_reward() -> FarmerReward {
    FarmerReward {
        paid_out_to_date: 0,
        accrued_reward: 0,
        tracker: FarmerRewardTracker::Variable(VariableRateFarmerTracker {
            last_recorded_accrued_reward_per_gem: 0,
        }),
    }
}

fn fixed_farmer_reward() -> FarmerReward {
    FarmerReward {
        paid_out_to_date: 0,
        accrued_reward: 0,
        tracker: FarmerRewardTracker::Fixed(FixedRateFarmerTracker {
            begin_staking_ts: 0,
            begin_schedule_ts: 0,
            last_updated_ts: 0,
            promised_schedule: FixedRateSchedule { tiers: vec![] },
            promised_duration: 0,
        }),
    }
}

fn farmer_reward_for(slot: &FarmReward) -> FarmerReward {
    match &slot.kind {
        FarmRewardKind::Variable(_) => variable_farmer_reward(),
        FarmRewardKind::Fixed(_) => fixed_farmer_reward(),
    }
}

fn new_farmer_for(farm: &Farm) -> Farmer {
    Farmer {
        state: FarmerState::Unstaked,
        gems_staked: 0,
        begin_staking_ts: 0,
        min_staking_ends_ts: 0,
        cooldown_ends_ts: 0,
        reward_a: farmer_reward_for(&farm.reward_a),
        reward_b: farmer_reward_for(&farm.reward_b),
    }
}

fn variable_rate_of(slot: &FarmReward) -> VariableRateReward {
    match &slot.kind {
        FarmRewardKind::Variable(vr) => *vr,
        FarmRewardKind::Fixed(_) => panic!("expected a variable slot"),
    }
}

fn reserved_of(slot: &FarmReward) -> u64 {
    match &slot.kind {
        FarmRewardKind::Fixed(fr) => fr.reserved_amount,
        FarmRewardKind::Variable(_) => panic!("expected a fixed slot"),
    }
}

const MINT_A: u64 = 10;
const MINT_B: u64 = 20;

// --------------------------------------- variable rate, end to end

#[test]
fn test_variable_reward_end_to_end() {
    let mut farm = farm_with(variable_slot(pk(MINT_A)), variable_slot(pk(MINT_B)), zero_config());
    farm.fund_reward_by_mint(0, pk(MINT_A), Some(VariableRateConfig { amount: 1000, duration_sec: 100 }), None)
        .unwrap();
    assert_eq!(variable_rate_of(&farm.reward_a).reward_rate, 10);

    let mut farmer = new_farmer_for(&farm);
    farm.update_rewards_for_farmer(0, &mut farmer, false).unwrap();
    farm.begin_staking(0, 10, &mut farmer).unwrap();
    assert_eq!(farm.gems_staked, 10);

    farm.update_rewards_for_farmer(100, &mut farmer, false).unwrap();
    assert_eq!(farmer.reward_a.accrued_reward, 1000);
    assert_eq!(farm.reward_a.funds.pending_amount().unwrap(), 0);
    // conservation: the farmer's claim stays within what the pool accrued
    assert!(
        farmer.reward_a.accrued_reward + farmer.reward_a.paid_out_to_date
            <= farm.reward_a.funds.total_accrued_to_stakers
    );

    farm.end_staking(100, &mut farmer).unwrap();
    assert_eq!(farmer.state, FarmerState::PendingCooldown);
    assert_eq!(farm.gems_staked, 0);
}

#[test]
fn test_variable_no_stakers_tokens_stay_pending() {
    let mut farm = farm_with(variable_slot(pk(MINT_A)), variable_slot(pk(MINT_B)), zero_config());
    farm.fund_reward_by_mint(0, pk(MINT_A), Some(VariableRateConfig { amount: 1000, duration_sec: 100 }), None)
        .unwrap();
    // nothing staked: the window passes without accrual
    farm.update_rewards(50).unwrap();
    assert_eq!(farm.reward_a.funds.pending_amount().unwrap(), 1000);
    assert_eq!(farm.reward_a.funds.total_accrued_to_stakers, 0);
}

#[test]
fn test_update_rewards_idempotent() {
    let mut farm = farm_with(variable_slot(pk(MINT_A)), variable_slot(pk(MINT_B)), zero_config());
    farm.fund_reward_by_mint(0, pk(MINT_A), Some(VariableRateConfig { amount: 1000, duration_sec: 100 }), None)
        .unwrap();
    let mut farmer = new_farmer_for(&farm);
    farm.update_rewards_for_farmer(0, &mut farmer, false).unwrap();
    farm.begin_staking(0, 4, &mut farmer).unwrap();

    farm.update_rewards_for_farmer(60, &mut farmer, false).unwrap();
    let funds_once = farm.reward_a.funds;
    let vr_once = variable_rate_of(&farm.reward_a);
    let accrued_once = farmer.reward_a.accrued_reward;

    // a second update at the same timestamp changes nothing
    farm.update_rewards_for_farmer(60, &mut farmer, false).unwrap();
    assert_eq!(farm.reward_a.funds, funds_once);
    assert_eq!(variable_rate_of(&farm.reward_a), vr_once);
    assert_eq!(farmer.reward_a.accrued_reward, accrued_once);
}

// --------------------------------------- fixed rate

#[test]
fn test_fixed_reward_enrollment_preservation() {
    let mut farm = farm_with(fixed_slot(pk(MINT_A), 0), variable_slot(pk(MINT_B)), zero_config());
    farm.fund_reward_by_mint(
        0,
        pk(MINT_A),
        None,
        Some(FixedRateConfig { schedule: flat_schedule(1), amount: 500, duration_sec: 50 }),
    )
    .unwrap();

    let mut farmer_a = new_farmer_for(&farm);
    farm.update_rewards_for_farmer(0, &mut farmer_a, false).unwrap();
    farm.begin_staking(0, 10, &mut farmer_a).unwrap();
    assert_eq!(reserved_of(&farm.reward_a), 500);

    // at t=30 the farm's table changes; farmer A keeps the original copy
    farm.fund_reward_by_mint(
        30,
        pk(MINT_A),
        None,
        Some(FixedRateConfig { schedule: flat_schedule(2), amount: 1400, duration_sec: 50 }),
    )
    .unwrap();

    let mut farmer_b = new_farmer_for(&farm);
    farm.update_rewards_for_farmer(30, &mut farmer_b, false).unwrap();
    farm.begin_staking(30, 10, &mut farmer_b).unwrap();

    farm.update_rewards_for_farmer(50, &mut farmer_a, false).unwrap();
    assert_eq!(farmer_a.reward_a.accrued_reward, 500);

    farm.update_rewards_for_farmer(80, &mut farmer_b, false).unwrap();
    assert_eq!(farmer_b.reward_a.accrued_reward, 1000);
}

#[test]
fn test_end_staking_sees_current_stake() {
    let mut farm = farm_with(fixed_slot(pk(MINT_A), 0), variable_slot(pk(MINT_B)), zero_config());
    farm.fund_reward_by_mint(
        0,
        pk(MINT_A),
        None,
        Some(FixedRateConfig { schedule: flat_schedule(1), amount: 5000, duration_sec: 200 }),
    )
    .unwrap();

    let mut farmer = new_farmer_for(&farm);
    farm.update_rewards_for_farmer(0, &mut farmer, false).unwrap();
    farm.begin_staking(0, 5, &mut farmer).unwrap();

    farm.update_rewards_for_farmer(10, &mut farmer, false).unwrap();
    farm.stake_extra_gems(10, 8, 3, &mut farmer).unwrap();
    assert_eq!(farm.gems_staked, 8);
    assert_eq!(farmer.gems_staked, 8);

    farm.update_rewards_for_farmer(100, &mut farmer, false).unwrap();
    farm.end_staking(100, &mut farmer).unwrap();
    // 5 gems for t=0..10, then 8 gems (the current stake) for t=10..100
    assert_eq!(farmer.reward_a.accrued_reward, 5 * 10 + 8 * 90);
    assert_eq!(farm.gems_staked, 0);
}

#[test]
fn test_reward_underfunded_on_fund() {
    let mut farm = farm_with(fixed_slot(pk(MINT_A), 0), variable_slot(pk(MINT_B)), zero_config());
    // one gem over 50 seconds needs 50 tokens, but only 10 are supplied
    let r = farm.fund_reward_by_mint(
        0,
        pk(MINT_A),
        None,
        Some(FixedRateConfig { schedule: flat_schedule(1), amount: 10, duration_sec: 50 }),
    );
    assert_eq!(r, Err(ErrorCode::RewardUnderfunded));
}

#[test]
fn test_reward_underfunded_on_enroll() {
    let mut farm = farm_with(fixed_slot(pk(MINT_A), 0), variable_slot(pk(MINT_B)), zero_config());
    farm.fund_reward_by_mint(
        0,
        pk(MINT_A),
        None,
        Some(FixedRateConfig { schedule: flat_schedule(1), amount: 60, duration_sec: 50 }),
    )
    .unwrap();
    let mut farmer = new_farmer_for(&farm);
    farm.update_rewards_for_farmer(0, &mut farmer, false).unwrap();
    // 10 gems over 50 seconds would need 500 tokens; only 60 are pending
    let r = farm.begin_staking(0, 10, &mut farmer);
    assert_eq!(r, Err(ErrorCode::RewardUnderfunded));
    assert_eq!(farm.gems_staked, 0);
    assert_eq!(farmer.state, FarmerState::Unstaked);
}

// --------------------------------------- lock, cancel, addressing

#[test]
fn test_unknown_reward_mint() {
    let mut farm = farm_with(variable_slot(pk(MINT_A)), variable_slot(pk(MINT_B)), zero_config());
    assert_eq!(farm.lock_reward_by_mint(pk(77)), Err(ErrorCode::UnknownRewardMint));
    assert_eq!(farm.cancel_reward_by_mint(0, pk(77)), Err(ErrorCode::UnknownRewardMint));
}

#[test]
fn test_lock_reward_idempotent() {
    let mut farm = farm_with(variable_slot(pk(MINT_A)), variable_slot(pk(MINT_B)), zero_config());
    farm.fund_reward_by_mint(0, pk(MINT_A), Some(VariableRateConfig { amount: 1000, duration_sec: 100 }), None)
        .unwrap();
    farm.lock_reward_by_mint(pk(MINT_A)).unwrap();
    let times_once = farm.reward_a.times;
    assert_eq!(times_once.lock_end_ts, 100);
    // a second lock is a no-op
    farm.lock_reward_by_mint(pk(MINT_A)).unwrap();
    assert_eq!(farm.reward_a.times, times_once);
}

#[test]
fn test_reward_locked() {
    let mut farm = farm_with(variable_slot(pk(MINT_A)), variable_slot(pk(MINT_B)), zero_config());
    farm.fund_reward_by_mint(0, pk(MINT_A), Some(VariableRateConfig { amount: 1000, duration_sec: 100 }), None)
        .unwrap();
    farm.lock_reward_by_mint(pk(MINT_A)).unwrap();
    let r = farm.fund_reward_by_mint(
        50,
        pk(MINT_A),
        Some(VariableRateConfig { amount: 10, duration_sec: 10 }),
        None,
    );
    assert_eq!(r, Err(ErrorCode::RewardLocked));
    assert_eq!(farm.cancel_reward_by_mint(50, pk(MINT_A)), Err(ErrorCode::RewardLocked));
    // once the reward has run out, the lock expires
    farm.update_rewards(100).unwrap();
    assert!(farm.cancel_reward_by_mint(100, pk(MINT_A)).is_ok());
}

#[test]
fn test_cancel_refunds_pending() {
    let mut farm = farm_with(variable_slot(pk(MINT_A)), variable_slot(pk(MINT_B)), zero_config());
    farm.fund_reward_by_mint(0, pk(MINT_A), Some(VariableRateConfig { amount: 1000, duration_sec: 100 }), None)
        .unwrap();
    let mut farmer = new_farmer_for(&farm);
    farm.update_rewards_for_farmer(0, &mut farmer, false).unwrap();
    farm.begin_staking(0, 10, &mut farmer).unwrap();
    // half the window passes, half the pool accrues to the staker
    farm.update_rewards_for_farmer(50, &mut farmer, false).unwrap();
    let refund = farm.cancel_reward_by_mint(50, pk(MINT_A)).unwrap();
    assert_eq!(refund, 500);
    assert_eq!(farm.reward_a.funds.pending_amount().unwrap(), 0);
    assert_eq!(farmer.reward_a.accrued_reward, 500);
}

// --------------------------------------- the staking lifecycle

#[test]
fn test_stake_cycle_restores_aggregates() {
    let config = FarmConfig { min_staking_period_sec: 10, cooldown_period_sec: 5, unstaking_fee_lamp: 0 };
    let mut farm = farm_with(variable_slot(pk(MINT_A)), variable_slot(pk(MINT_B)), config);
    let mut farmer = new_farmer_for(&farm);
    farm.begin_staking(0, 7, &mut farmer).unwrap();
    assert_eq!(farm.gems_staked, 7);
    assert_eq!(farm.staked_farmer_count, 1);

    farm.end_staking(10, &mut farmer).unwrap();
    assert_eq!(farmer.state, FarmerState::PendingCooldown);
    assert_eq!(farmer.gems_staked, 7);
    assert_eq!(farm.gems_staked, 0);

    farm.end_staking(15, &mut farmer).unwrap();
    assert_eq!(farmer.state, FarmerState::Unstaked);
    assert_eq!(farmer.gems_staked, 0);
    assert_eq!(farm.gems_staked, 0);
    assert_eq!(farm.staked_farmer_count, 0);
}

#[test]
fn test_min_staking_not_passed() {
    let config = FarmConfig { min_staking_period_sec: 100, cooldown_period_sec: 0, unstaking_fee_lamp: 0 };
    let mut farm = farm_with(variable_slot(pk(MINT_A)), variable_slot(pk(MINT_B)), config);
    let mut farmer = new_farmer_for(&farm);
    farm.begin_staking(0, 3, &mut farmer).unwrap();
    assert_eq!(farm.end_staking(50, &mut farmer), Err(ErrorCode::MinStakingNotPassed));
    assert_eq!(farmer.state, FarmerState::Staked);
}

#[test]
fn test_cooldown_not_passed() {
    let config = FarmConfig { min_staking_period_sec: 0, cooldown_period_sec: 100, unstaking_fee_lamp: 0 };
    let mut farm = farm_with(variable_slot(pk(MINT_A)), variable_slot(pk(MINT_B)), config);
    let mut farmer = new_farmer_for(&farm);
    farm.begin_staking(0, 3, &mut farmer).unwrap();
    farm.end_staking(10, &mut farmer).unwrap();
    assert_eq!(farm.end_staking(50, &mut farmer), Err(ErrorCode::CooldownNotPassed));
    assert_eq!(farmer.state, FarmerState::PendingCooldown);
    farm.end_staking(110, &mut farmer).unwrap();
    assert_eq!(farmer.state, FarmerState::Unstaked);
}

#[test]
fn test_amount_mismatch() {
    let mut farm = farm_with(variable_slot(pk(MINT_A)), variable_slot(pk(MINT_B)), zero_config());
    let mut farmer = new_farmer_for(&farm);
    farm.begin_staking(0, 5, &mut farmer).unwrap();
    // the vault holds 9 gems but the farm total plus the extra is 8
    let r = farm.stake_extra_gems(10, 9, 3, &mut farmer);
    assert_eq!(r, Err(ErrorCode::AmountMismatch));
    assert_eq!(farm.gems_staked, 5);
}

#[test]
fn test_end_staking_unstaked_is_noop() {
    let mut farm = farm_with(variable_slot(pk(MINT_A)), variable_slot(pk(MINT_B)), zero_config());
    let mut farmer = new_farmer_for(&farm);
    farm.end_staking(10, &mut farmer).unwrap();
    assert_eq!(farmer.state, FarmerState::Unstaked);
    assert_eq!(farm.gems_staked, 0);
}

#[test]
fn test_claim_rewards() {
    let mut reward = variable_farmer_reward();
    reward.accrued_reward = 30;
    reward.paid_out_to_date = 10;
    let claimed = reward.claim_rewards().unwrap();
    assert_eq!(claimed, 20);
    assert_eq!(reward.paid_out_to_date, 30);
    // claiming again pays nothing more
    assert_eq!(reward.claim_rewards().unwrap(), 0);
}

#[test]
fn test_reward_type_tags() {
    let farm = farm_with(fixed_slot(pk(MINT_A), 1), variable_slot(pk(MINT_B)), zero_config());
    assert_eq!(farm.reward_a.reward_type(), RewardType::Fixed);
    assert_eq!(farm.reward_b.reward_type(), RewardType::Variable);
}

#[test]
fn test_tiered_schedule_payout() {
    // 1 token per gem-second for the first 10 seconds of tenure, 3 after
    let schedule = FixedRateSchedule {
        tiers: vec![
            TierConfig { reward_rate: 1, required_tenure: 0 },
            TierConfig { reward_rate: 3, required_tenure: 10 },
        ],
    };
    assert_eq!(schedule.reward_amount(0, 10, 1).unwrap(), 10);
    assert_eq!(schedule.reward_amount(0, 20, 1).unwrap(), 10 + 30);
    assert_eq!(schedule.reward_amount(5, 15, 2).unwrap(), 2 * (5 + 15));
    assert_eq!(schedule.reward_amount(12, 20, 1).unwrap(), 24);
    assert_eq!(schedule.reward_amount(7, 7, 10).unwrap(), 0);
}

#[test]
fn test_begin_staking_counter_overflow() {
    let mut farm = farm_with(variable_slot(pk(MINT_A)), variable_slot(pk(MINT_B)), zero_config());
    farm.staked_farmer_count = u64::MAX;
    let mut farmer = new_farmer_for(&farm);
    let r = farm.begin_staking(0, 3, &mut farmer);
    assert_eq!(r, Err(ErrorCode::ArithmeticError));
    assert_eq!(farm.staked_farmer_count, u64::MAX);
    assert_eq!(farmer.state, FarmerState::Unstaked);
}

#[test]
fn test_cancel_is_one_shot() {
    let mut farm = farm_with(variable_slot(pk(MINT_A)), variable_slot(pk(MINT_B)), zero_config());
    farm.fund_reward_by_mint(0, pk(MINT_A), Some(VariableRateConfig { amount: 1000, duration_sec: 100 }), None)
        .unwrap();
    farm.update_rewards(40).unwrap();
    assert_eq!(farm.cancel_reward_by_mint(40, pk(MINT_A)).unwrap(), 1000);
    // everything pending was refunded; an immediate second cancel returns 0
    assert_eq!(farm.cancel_reward_by_mint(40, pk(MINT_A)).unwrap(), 0);
    assert_eq!(farm.reward_a.funds.total_refunded, 1000);
}
