//! The farm: two reward slots, staking aggregates, and the orchestration
//! of staking, unstaking and reward upkeep.
//!
//! Every mutating entry point of the surrounding program first brings
//! accounting up to date with `update_rewards` and then mutates state; the
//! contracts here take that protocol as given where they need it.

use vstd::prelude::*;

use crate::error::ErrorCode;
use crate::farm_reward::{FarmReward, FarmRewardKind};
use crate::farmer::{Farmer, FarmerReward, FarmerRewardTracker, FarmerState};
use crate::fixed_rate::FixedRateConfig;
use crate::ids::Pubkey;
use crate::variable_rate::VariableRateConfig;

verus! {

pub const LATEST_FARM_VERSION: u16 = 0;

/// Farm-wide staking policy.
#[derive(Clone, Copy, Debug, PartialEq, Eq, Structural)]
pub struct FarmConfig {
    /// Minimum time a stake must stand before it can be unstaked.
    pub min_staking_period_sec: u64,
    /// Time between deciding to unstake and being able to withdraw.
    pub cooldown_period_sec: u64,
    pub unstaking_fee_lamp: u64,
}

/// The top-level account: identity, policy, staking aggregates and two
/// reward streams.
#[derive(Clone, Debug)]
pub struct Farm {
    pub version: u16,
    pub farm_manager: Pubkey,
    /// Collects any fees earned by the farm.
    pub farm_treasury: Pubkey,
    /// Signs off on bank operations related to the farm; opaque here.
    pub farm_authority: Pubkey,
    pub farm_authority_seed: Pubkey,
    pub farm_authority_bump_seed: u8,
    /// The custody bank this farm controls; opaque here.
    pub bank: Pubkey,
    pub config: FarmConfig,
    /// All farmers ever initialized, active or not.
    pub farmer_count: u64,
    /// Farmers currently staked.
    pub staked_farmer_count: u64,
    /// Gems currently staked across all farmers.
    pub gems_staked: u64,
    pub authorized_funder_count: u64,
    pub reward_a: FarmReward,
    pub reward_b: FarmReward,
}

impl Farm {
    /// Both reward slots are internally consistent.
    pub open spec fn wf(self) -> bool {
        &&& self.reward_a.wf()
        &&& self.reward_b.wf()
    }

    /// The farmer belongs to this farm's books: state and stake agree, the
    /// stake is within the farm's total, and both reward trackers are
    /// consistent with their slots. Gems only count while staked.
    pub open spec fn spec_farmer_ok(self, farmer: Farmer) -> bool {
        &&& farmer.wf()
        &&& farmer.spec_effective_gems() <= self.gems_staked
        &&& self.reward_a.spec_farmer_ok(farmer.reward_a, farmer.spec_effective_gems())
        &&& self.reward_b.spec_farmer_ok(farmer.reward_b, farmer.spec_effective_gems())
    }

    /// Farm-wide accounting of both slots is up to date at `now_ts`.
    pub open spec fn spec_settled(self, now_ts: u64) -> bool {
        &&& self.reward_a.spec_settled(now_ts)
        &&& self.reward_b.spec_settled(now_ts)
    }

    /// The farmer's accrual bookkeeping in both slots is up to date at
    /// `now_ts`.
    pub open spec fn spec_farmer_settled(self, farmer: Farmer, now_ts: u64) -> bool {
        &&& self.reward_a.spec_farmer_settled(farmer.reward_a, now_ts)
        &&& self.reward_b.spec_farmer_settled(farmer.reward_b, now_ts)
    }

    /// A fixed-rate slot and a farmer's record after the farmer enrolled at
    /// `now_ts` with `gems`, keeping everything else: the slot reserves the
    /// whole promise out of its pending funds, and the farmer's tracker
    /// snapshots the slot's current table for whatever remains of the
    /// reward.
    pub open spec fn spec_enrolled(
        slot0: FarmReward,
        slot1: FarmReward,
        fr0: FarmerReward,
        fr1: FarmerReward,
        now_ts: u64,
        gems: u64,
    ) -> bool {
        let remaining = slot0.times.spec_remaining_duration(now_ts);
        let reserve = slot0.kind->Fixed_0.schedule.spec_payout_per_gem(0, remaining) * gems;
        &&& slot1.times == slot0.times
        &&& slot1.funds == slot0.funds
        &&& slot1.reward_mint == slot0.reward_mint
        &&& slot1.reward_pot == slot0.reward_pot
        &&& slot1.kind matches FarmRewardKind::Fixed(fr2) && fr2.schedule.tiers@
            == slot0.kind->Fixed_0.schedule.tiers@ && fr2.reserved_amount
            == slot0.kind->Fixed_0.reserved_amount + reserve
        &&& fr1.paid_out_to_date == fr0.paid_out_to_date
        &&& fr1.accrued_reward == fr0.accrued_reward
        &&& fr1.tracker matches FarmerRewardTracker::Fixed(t) && ({
            &&& t.begin_staking_ts == now_ts
            &&& t.begin_schedule_ts == now_ts
            &&& t.last_updated_ts == now_ts
            &&& t.promised_schedule.tiers@ == slot0.kind->Fixed_0.schedule.tiers@
            &&& t.promised_duration == remaining
            &&& t.wf()
        })
    }

    /// A fixed-rate slot and a farmer's record after the farmer's stake was
    /// extended at `now_ts` from `old_gems` to `new_gems`: the old promise
    /// is graduated (everything owed up to `now_ts` crystallizes, the rest
    /// returns to the pool) and the new stake enrolls on the slot's current
    /// table.
    pub open spec fn spec_restaked(
        slot0: FarmReward,
        slot1: FarmReward,
        fr0: FarmerReward,
        fr1: FarmerReward,
        now_ts: u64,
        old_gems: u64,
        new_gems: u64,
    ) -> bool {
        let t = fr0.tracker->Fixed_0;
        let newly = t.spec_newly_promised(now_ts, old_gems);
        let remaining = slot0.times.spec_remaining_duration(now_ts);
        let reserve_new = slot0.kind->Fixed_0.schedule.spec_payout_per_gem(0, remaining)
            * new_gems;
        &&& fr1.accrued_reward == fr0.accrued_reward + newly
        &&& fr1.paid_out_to_date == fr0.paid_out_to_date
        &&& slot1.funds.total_accrued_to_stakers == slot0.funds.total_accrued_to_stakers + newly
        &&& slot1.funds.total_funded == slot0.funds.total_funded
        &&& slot1.funds.total_refunded == slot0.funds.total_refunded
        &&& slot1.times == slot0.times
        &&& slot1.reward_mint == slot0.reward_mint
        &&& slot1.reward_pot == slot0.reward_pot
        &&& slot1.kind matches FarmRewardKind::Fixed(fr2) && fr2.schedule.tiers@
            == slot0.kind->Fixed_0.schedule.tiers@ && fr2.reserved_amount
            == slot0.kind->Fixed_0.reserved_amount - t.spec_remaining_promised(old_gems)
            + reserve_new
        &&& fr1.tracker matches FarmerRewardTracker::Fixed(t2) && ({
            &&& t2.begin_staking_ts == now_ts
            &&& t2.begin_schedule_ts == now_ts
            &&& t2.last_updated_ts == now_ts
            &&& t2.promised_schedule.tiers@ == slot0.kind->Fixed_0.schedule.tiers@
            &&& t2.promised_duration == remaining
            &&& t2.wf()
        })
    }

    /// The gems of a farmer that count toward the farm's stake: their whole
    /// stake while staked, none once cooling down or unstaked.
    fn effective_gems(farmer: &Farmer) -> (r: u64)
        ensures
            r == farmer.spec_effective_gems(),
    {
        match farmer.state {
            FarmerState::Staked => farmer.gems_staked,
            FarmerState::Unstaked => 0,
            FarmerState::PendingCooldown => 0,
        }
    }

    /// The reward slot holding this mint: `reward_a` first, then
    /// `reward_b`; a mint matching neither is unknown.
    pub fn match_reward_by_mint(&mut self, reward_mint: Pubkey) -> (r: Result<
        &mut FarmReward,
        ErrorCode,
    >)
        ensures
            reward_mint == old(self).reward_a.reward_mint ==> (r matches Ok(rr) && *rr == old(
                self,
            ).reward_a && *final(self) == (Farm { reward_a: *final(rr), ..*old(self) })),
            reward_mint != old(self).reward_a.reward_mint && reward_mint == old(
                self,
            ).reward_b.reward_mint ==> (r matches Ok(rr) && *rr == old(self).reward_b && *final(self) == (Farm { reward_b: *final(rr), ..*old(self) })),
            reward_mint != old(self).reward_a.reward_mint && reward_mint != old(
                self,
            ).reward_b.reward_mint ==> r is Err && (r matches Err(e) && e
                == ErrorCode::UnknownRewardMint) && *final(self) == *old(self),
    {
        if reward_mint == self.reward_a.reward_mint {
            Ok(&mut self.reward_a)
        } else if reward_mint == self.reward_b.reward_mint {
            Ok(&mut self.reward_b)
        } else {
            Err(ErrorCode::UnknownRewardMint)
        }
    }

    /// Locks the reward slot holding this mint; unknown mints are rejected.
    pub fn lock_reward_by_mint(&mut self, reward_mint: Pubkey) -> (r: Result<(), ErrorCode>)
        ensures
            reward_mint == old(self).reward_a.reward_mint ==> r == Ok::<(), ErrorCode>(())
                && *final(self) == (Farm {
                reward_a: FarmReward {
                    times: crate::time_tracker::TimeTracker {
                        lock_end_ts: old(self).reward_a.times.reward_end_ts,
                        ..old(self).reward_a.times
                    },
                    ..old(self).reward_a
                },
                ..*old(self)
            }),
            reward_mint != old(self).reward_a.reward_mint && reward_mint == old(
                self,
            ).reward_b.reward_mint ==> r == Ok::<(), ErrorCode>(()) && *final(self) == (Farm {
                reward_b: FarmReward {
                    times: crate::time_tracker::TimeTracker {
                        lock_end_ts: old(self).reward_b.times.reward_end_ts,
                        ..old(self).reward_b.times
                    },
                    ..old(self).reward_b
                },
                ..*old(self)
            }),
            reward_mint != old(self).reward_a.reward_mint && reward_mint != old(
                self,
            ).reward_b.reward_mint ==> r == Err::<(), ErrorCode>(ErrorCode::UnknownRewardMint)
                && *final(self) == *old(self),
    {
        let reward = match self.match_reward_by_mint(reward_mint) {
            Ok(rr) => rr,
            Err(e) => {
                return Err(e);
            },
        };
        reward.lock_reward()
    }

    /// Funds the reward slot holding this mint with the config of its kind;
    /// unknown mints and locked rewards are rejected. Commits only on
    /// success.
    pub fn fund_reward_by_mint(
        &mut self,
        now_ts: u64,
        reward_mint: Pubkey,
        variable_rate_config: Option<VariableRateConfig>,
        fixed_rate_config: Option<FixedRateConfig>,
    ) -> (r: Result<(), ErrorCode>)
        requires
            old(self).wf(),
            reward_mint == old(self).reward_a.reward_mint ==> ({
                &&& (old(self).reward_a.kind is Variable ==> variable_rate_config is Some)
                &&& (old(self).reward_a.kind is Fixed ==> fixed_rate_config is Some
                    && fixed_rate_config->0.schedule.wf())
            }),
            reward_mint != old(self).reward_a.reward_mint && reward_mint == old(
                self,
            ).reward_b.reward_mint ==> ({
                &&& (old(self).reward_b.kind is Variable ==> variable_rate_config is Some)
                &&& (old(self).reward_b.kind is Fixed ==> fixed_rate_config is Some
                    && fixed_rate_config->0.schedule.wf())
            }),
        ensures
            reward_mint != old(self).reward_a.reward_mint && reward_mint != old(
                self,
            ).reward_b.reward_mint ==> r == Err::<(), ErrorCode>(ErrorCode::UnknownRewardMint)
                && *final(self) == *old(self),
            r is Err ==> *final(self) == *old(self),
            reward_mint == old(self).reward_a.reward_mint ==> ({
                &&& final(self).reward_b == old(self).reward_b
                &&& (r is Ok <==> old(self).reward_a.spec_fund_fits_by_type(
                    now_ts,
                    variable_rate_config,
                    fixed_rate_config,
                ))
                &&& (now_ts < old(self).reward_a.times.lock_end_ts ==> r == Err::<(), ErrorCode>(
                    ErrorCode::RewardLocked,
                ))
                &&& (now_ts >= old(self).reward_a.times.lock_end_ts && old(
                    self,
                ).reward_a.kind is Fixed && fixed_rate_config->0.schedule.spec_payout_per_gem(
                    0,
                    fixed_rate_config->0.duration_sec as int,
                ) <= u64::MAX && fixed_rate_config->0.schedule.spec_payout_per_gem(
                    0,
                    fixed_rate_config->0.duration_sec as int,
                ) > fixed_rate_config->0.amount ==> r == Err::<(), ErrorCode>(
                    ErrorCode::RewardUnderfunded,
                ))
                &&& (r is Ok ==> ({
                    &&& final(self).reward_a.wf()
                    &&& final(self).reward_a.reward_mint == old(self).reward_a.reward_mint
                    &&& final(self).reward_a.spec_reward_type() == old(
                        self,
                    ).reward_a.spec_reward_type()
                    &&& final(self).reward_a.funds.total_funded == old(
                        self,
                    ).reward_a.funds.total_funded + (match old(self).reward_a.kind {
                        FarmRewardKind::Variable(_) => variable_rate_config->0.amount,
                        FarmRewardKind::Fixed(_) => fixed_rate_config->0.amount,
                    })
                    &&& final(self).reward_a.funds.total_refunded == old(
                        self,
                    ).reward_a.funds.total_refunded
                    &&& final(self).reward_a.funds.total_accrued_to_stakers == old(
                        self,
                    ).reward_a.funds.total_accrued_to_stakers
                    &&& final(self).wf()
                }))
            }),
            reward_mint != old(self).reward_a.reward_mint && reward_mint == old(
                self,
            ).reward_b.reward_mint ==> ({
                &&& final(self).reward_a == old(self).reward_a
                &&& (r is Ok <==> old(self).reward_b.spec_fund_fits_by_type(
                    now_ts,
                    variable_rate_config,
                    fixed_rate_config,
                ))
                &&& (now_ts < old(self).reward_b.times.lock_end_ts ==> r == Err::<(), ErrorCode>(
                    ErrorCode::RewardLocked,
                ))
                &&& (now_ts >= old(self).reward_b.times.lock_end_ts && old(
                    self,
                ).reward_b.kind is Fixed && fixed_rate_config->0.schedule.spec_payout_per_gem(
                    0,
                    fixed_rate_config->0.duration_sec as int,
                ) <= u64::MAX && fixed_rate_config->0.schedule.spec_payout_per_gem(
                    0,
                    fixed_rate_config->0.duration_sec as int,
                ) > fixed_rate_config->0.amount ==> r == Err::<(), ErrorCode>(
                    ErrorCode::RewardUnderfunded,
                ))
                &&& (r is Ok ==> ({
                    &&& final(self).reward_b.wf()
                    &&& final(self).reward_b.reward_mint == old(self).reward_b.reward_mint
                    &&& final(self).reward_b.spec_reward_type() == old(
                        self,
                    ).reward_b.spec_reward_type()
                    &&& final(self).reward_b.funds.total_funded == old(
                        self,
                    ).reward_b.funds.total_funded + (match old(self).reward_b.kind {
                        FarmRewardKind::Variable(_) => variable_rate_config->0.amount,
                        FarmRewardKind::Fixed(_) => fixed_rate_config->0.amount,
                    })
                    &&& final(self).reward_b.funds.total_refunded == old(
                        self,
                    ).reward_b.funds.total_refunded
                    &&& final(self).reward_b.funds.total_accrued_to_stakers == old(
                        self,
                    ).reward_b.funds.total_accrued_to_stakers
                    &&& final(self).wf()
                }))
            }),
            r is Ok ==> final(self).gems_staked == old(self).gems_staked && final(self).staked_farmer_count == old(self).staked_farmer_count,
    {
        let reward = match self.match_reward_by_mint(reward_mint) {
            Ok(rr) => rr,
            Err(e) => {
                return Err(e);
            },
        };
        reward.fund_reward_by_type(now_ts, variable_rate_config, fixed_rate_config)
    }

    /// Cancels the reward slot holding this mint and returns the refund;
    /// unknown mints and locked rewards are rejected. The caller must have
    /// brought accounting up to `now_ts` first. Commits only on success.
    pub fn cancel_reward_by_mint(&mut self, now_ts: u64, reward_mint: Pubkey) -> (r: Result<
        u64,
        ErrorCode,
    >)
        requires
            old(self).wf(),
            old(self).spec_settled(now_ts),
        ensures
            reward_mint != old(self).reward_a.reward_mint && reward_mint != old(
                self,
            ).reward_b.reward_mint ==> r == Err::<u64, ErrorCode>(ErrorCode::UnknownRewardMint)
                && *final(self) == *old(self),
            r is Err ==> *final(self) == *old(self),
            reward_mint == old(self).reward_a.reward_mint ==> ({
                let refund = match old(self).reward_a.kind {
                    FarmRewardKind::Variable(_) => old(self).reward_a.funds.spec_pending(),
                    FarmRewardKind::Fixed(fr) => old(self).reward_a.funds.spec_pending()
                        - fr.reserved_amount,
                };
                &&& final(self).reward_b == old(self).reward_b
                &&& (now_ts < old(self).reward_a.times.lock_end_ts ==> r == Err::<u64, ErrorCode>(
                    ErrorCode::RewardLocked,
                ))
                &&& (now_ts >= old(self).reward_a.times.lock_end_ts ==> (r is Ok <==> old(
                    self,
                ).reward_a.times.spec_remaining_duration(now_ts) <= old(
                    self,
                ).reward_a.times.duration_sec))
                &&& (r is Ok ==> r == Ok::<u64, ErrorCode>(refund as u64) && final(self).reward_a.funds.total_refunded == old(self).reward_a.funds.total_refunded
                    + refund && final(self).reward_a.times == old(self).reward_a.times.spec_ended(
                    now_ts,
                ) && final(self).reward_a.spec_settled(now_ts) && (old(
                    self,
                ).reward_a.kind is Variable ==> final(self).reward_a.funds.spec_pending() == 0)
                    && final(self).wf())
            }),
            reward_mint != old(self).reward_a.reward_mint && reward_mint == old(
                self,
            ).reward_b.reward_mint ==> ({
                let refund = match old(self).reward_b.kind {
                    FarmRewardKind::Variable(_) => old(self).reward_b.funds.spec_pending(),
                    FarmRewardKind::Fixed(fr) => old(self).reward_b.funds.spec_pending()
                        - fr.reserved_amount,
                };
                &&& final(self).reward_a == old(self).reward_a
                &&& (now_ts < old(self).reward_b.times.lock_end_ts ==> r == Err::<u64, ErrorCode>(
                    ErrorCode::RewardLocked,
                ))
                &&& (now_ts >= old(self).reward_b.times.lock_end_ts ==> (r is Ok <==> old(
                    self,
                ).reward_b.times.spec_remaining_duration(now_ts) <= old(
                    self,
                ).reward_b.times.duration_sec))
                &&& (r is Ok ==> r == Ok::<u64, ErrorCode>(refund as u64) && final(self).reward_b.funds.total_refunded == old(self).reward_b.funds.total_refunded
                    + refund && final(self).reward_b.times == old(self).reward_b.times.spec_ended(
                    now_ts,
                ) && final(self).reward_b.spec_settled(now_ts) && (old(
                    self,
                ).reward_b.kind is Variable ==> final(self).reward_b.funds.spec_pending() == 0)
                    && final(self).wf())
            }),
    {
        let reward = match self.match_reward_by_mint(reward_mint) {
            Ok(rr) => rr,
            Err(e) => {
                return Err(e);
            },
        };
        reward.cancel_reward_by_type(now_ts)
    }

    /// Brings the farm-wide accounting of both reward slots up to `now_ts`.
    /// Updating an already settled farm changes nothing, so updating twice
    /// at one timestamp equals updating once. On an error the second slot
    /// and the farm's aggregates are untouched; the caller discards the
    /// state.
    pub fn update_rewards(&mut self, now_ts: u64) -> (r: Result<(), ErrorCode>)
        requires
            old(self).wf(),
        ensures
            r is Ok <==> old(self).reward_a.spec_update_fits(now_ts, old(self).gems_staked)
                && old(self).reward_b.spec_update_fits(now_ts, old(self).gems_staked),
            r is Ok ==> ({
                &&& *final(self) == (Farm {
                    reward_a: old(self).reward_a.spec_updated(now_ts, old(self).gems_staked),
                    reward_b: old(self).reward_b.spec_updated(now_ts, old(self).gems_staked),
                    ..*old(self)
                })
                &&& final(self).wf()
                &&& final(self).spec_settled(now_ts)
            }),
            r is Ok ==> forall|fr: FarmerReward, g: u64|
                g <= old(self).gems_staked && #[trigger] old(self).reward_a.spec_claim_bounded(
                    fr,
                    g,
                ) ==> final(self).reward_a.spec_claim_bounded(fr, g),
            r is Ok ==> forall|fr: FarmerReward, g: u64|
                g <= old(self).gems_staked && #[trigger] old(self).reward_b.spec_claim_bounded(
                    fr,
                    g,
                ) ==> final(self).reward_b.spec_claim_bounded(fr, g),
            old(self).spec_settled(now_ts) ==> r is Ok && *final(self) == *old(self),
            r is Err ==> ({
                &&& r == Err::<(), ErrorCode>(ErrorCode::ArithmeticError)
                &&& final(self).reward_b == old(self).reward_b
                &&& final(self).gems_staked == old(self).gems_staked
                &&& final(self).staked_farmer_count == old(self).staked_farmer_count
                &&& ({
                    ||| !old(self).reward_a.spec_update_fits(now_ts, old(self).gems_staked)
                        && final(self).reward_a == old(self).reward_a
                    ||| old(self).reward_a.spec_update_fits(now_ts, old(self).gems_staked)
                        && final(self).reward_a == old(self).reward_a.spec_updated(
                        now_ts,
                        old(self).gems_staked,
                    )
                })
            }),
    {
        let gems = self.gems_staked;
        match self.reward_a.update_accrued_reward(now_ts, gems) {
            Ok(()) => {},
            Err(e) => {
                return Err(e);
            },
        };
        self.reward_b.update_accrued_reward(now_ts, gems)
    }

    /// Brings both reward slots *and* the farmer's accrual up to `now_ts`.
    /// `reenroll` lets an expired fixed-rate farmer restart on the current
    /// table. Updating an already settled farm and farmer with `reenroll`
    /// unset changes nothing. On an error the second slot and the farm's
    /// aggregates are untouched; the caller discards the state.
    pub fn update_rewards_for_farmer(
        &mut self,
        now_ts: u64,
        farmer: &mut Farmer,
        reenroll: bool,
    ) -> (r: Result<(), ErrorCode>)
        requires
            old(self).wf(),
            old(self).spec_farmer_ok(*old(farmer)),
        ensures
            r is Ok <==> ({
                let g = old(farmer).spec_effective_gems();
                &&& old(self).reward_a.spec_farmer_update_fits(
                    old(farmer).reward_a,
                    now_ts,
                    old(self).gems_staked,
                    g,
                    reenroll,
                )
                &&& old(self).reward_b.spec_farmer_update_fits(
                    old(farmer).reward_b,
                    now_ts,
                    old(self).gems_staked,
                    g,
                    reenroll,
                )
            }),
            r is Ok ==> ({
                let g = old(farmer).spec_effective_gems();
                &&& (!old(self).reward_a.spec_reenroll_due(old(farmer).reward_a, now_ts, g, reenroll)
                    ==> (final(self).reward_a, final(farmer).reward_a) == old(
                    self,
                ).reward_a.spec_farmer_updated(
                    old(farmer).reward_a,
                    now_ts,
                    old(self).gems_staked,
                    g,
                ))
                &&& (!old(self).reward_b.spec_reenroll_due(old(farmer).reward_b, now_ts, g, reenroll)
                    ==> (final(self).reward_b, final(farmer).reward_b) == old(
                    self,
                ).reward_b.spec_farmer_updated(
                    old(farmer).reward_b,
                    now_ts,
                    old(self).gems_staked,
                    g,
                ))
                &&& (old(self).reward_a.spec_reenroll_due(old(farmer).reward_a, now_ts, g, reenroll)
                    ==> old(self).reward_a.spec_reenrolled_updated(
                    old(farmer).reward_a,
                    final(self).reward_a,
                    final(farmer).reward_a,
                    now_ts,
                    g,
                ))
                &&& (old(self).reward_b.spec_reenroll_due(old(farmer).reward_b, now_ts, g, reenroll)
                    ==> old(self).reward_b.spec_reenrolled_updated(
                    old(farmer).reward_b,
                    final(self).reward_b,
                    final(farmer).reward_b,
                    now_ts,
                    g,
                ))
                &&& final(self).wf()
                &&& final(self).spec_farmer_ok(*final(farmer))
                &&& final(self).spec_settled(now_ts)
                &&& final(self).spec_farmer_settled(*final(farmer), now_ts)
                &&& final(self).gems_staked == old(self).gems_staked
                &&& final(self).staked_farmer_count == old(self).staked_farmer_count
                &&& final(self).config == old(self).config
                &&& final(farmer).state == old(farmer).state
                &&& final(farmer).gems_staked == old(farmer).gems_staked
                &&& final(farmer).begin_staking_ts == old(farmer).begin_staking_ts
                &&& final(farmer).min_staking_ends_ts == old(farmer).min_staking_ends_ts
                &&& final(farmer).cooldown_ends_ts == old(farmer).cooldown_ends_ts
                &&& final(farmer).reward_a.paid_out_to_date == old(farmer).reward_a.paid_out_to_date
                &&& final(farmer).reward_b.paid_out_to_date == old(farmer).reward_b.paid_out_to_date
            }),
            r is Ok ==> forall|fr: FarmerReward, g2: u64|
                g2 <= old(self).gems_staked && #[trigger] old(self).reward_a.spec_claim_bounded(
                    fr,
                    g2,
                ) ==> final(self).reward_a.spec_claim_bounded(fr, g2),
            r is Ok ==> forall|fr: FarmerReward, g2: u64|
                g2 <= old(self).gems_staked && #[trigger] old(self).reward_b.spec_claim_bounded(
                    fr,
                    g2,
                ) ==> final(self).reward_b.spec_claim_bounded(fr, g2),
            old(self).spec_settled(now_ts) && old(self).spec_farmer_settled(*old(farmer), now_ts)
                && !reenroll ==> r is Ok && *final(self) == *old(self) && *final(farmer) == *old(
                farmer,
            ),
            r is Err ==> ({
                let g = old(farmer).spec_effective_gems();
                &&& final(self).reward_b == old(self).reward_b
                &&& final(farmer).reward_b == old(farmer).reward_b
                &&& final(self).gems_staked == old(self).gems_staked
                &&& final(self).staked_farmer_count == old(self).staked_farmer_count
                &&& final(farmer).state == old(farmer).state
                &&& final(farmer).gems_staked == old(farmer).gems_staked
                &&& (!old(self).reward_a.spec_farmer_update_fits(
                    old(farmer).reward_a,
                    now_ts,
                    old(self).gems_staked,
                    g,
                    reenroll,
                ) ==> final(self).reward_a == old(self).reward_a && final(farmer).reward_a == old(
                    farmer,
                ).reward_a)
                &&& (old(self).reward_a.spec_farmer_update_fits(
                    old(farmer).reward_a,
                    now_ts,
                    old(self).gems_staked,
                    g,
                    reenroll,
                ) && !old(self).reward_a.spec_reenroll_due(
                    old(farmer).reward_a,
                    now_ts,
                    g,
                    reenroll,
                ) ==> (final(self).reward_a, final(farmer).reward_a) == old(
                    self,
                ).reward_a.spec_farmer_updated(
                    old(farmer).reward_a,
                    now_ts,
                    old(self).gems_staked,
                    g,
                ))
            }),
    {
        let gems = self.gems_staked;
        let farmer_gems = Self::effective_gems(farmer);
        match self.reward_a.update_accrued_reward_for_farmer(
            now_ts,
            gems,
            farmer_gems,
            &mut farmer.reward_a,
            reenroll,
        ) {
            Ok(()) => {},
            Err(e) => {
                return Err(e);
            },
        };
        match self.reward_b.update_accrued_reward_for_farmer(
            now_ts,
            gems,
            farmer_gems,
            &mut farmer.reward_b,
            reenroll,
        ) {
            Ok(()) => {},
            Err(e) => {
                return Err(e);
            },
        };
        Ok(())
    }

    /// Stakes `gems_in_vault` gems for an unstaked farmer: the farmer turns
    /// staked, the farm's aggregates grow by one farmer and their gems, and
    /// every fixed-rate slot enrolls the farmer. The caller must have
    /// brought the farmer's accounting up to `now_ts` first. Commits only
    /// on success.
    pub fn begin_staking(&mut self, now_ts: u64, gems_in_vault: u64, farmer: &mut Farmer) -> (r:
        Result<(), ErrorCode>)
        requires
            old(self).wf(),
            old(farmer).state is Unstaked,
            old(self).spec_farmer_ok(*old(farmer)),
            old(self).spec_farmer_settled(*old(farmer), now_ts),
            gems_in_vault >= 1,
        ensures
            r is Ok <==> ({
                &&& now_ts + old(self).config.min_staking_period_sec <= u64::MAX
                &&& old(self).staked_farmer_count + 1 <= u64::MAX
                &&& old(self).gems_staked + gems_in_vault <= u64::MAX
                &&& old(self).reward_a.spec_enroll_fits(now_ts, gems_in_vault)
                &&& old(self).reward_b.spec_enroll_fits(now_ts, gems_in_vault)
            }),
            r is Err ==> *final(self) == *old(self) && *final(farmer) == *old(farmer) && (r
                == Err::<(), ErrorCode>(ErrorCode::ArithmeticError) || r == Err::<(), ErrorCode>(
                ErrorCode::RewardUnderfunded,
            )),
            now_ts + old(self).config.min_staking_period_sec > u64::MAX ==> r == Err::<
                (),
                ErrorCode,
            >(ErrorCode::ArithmeticError),
            now_ts + old(self).config.min_staking_period_sec <= u64::MAX && (old(
                self,
            ).staked_farmer_count + 1 > u64::MAX || old(self).gems_staked + gems_in_vault
                > u64::MAX) ==> r == Err::<(), ErrorCode>(ErrorCode::ArithmeticError),
            r is Ok ==> ({
                &&& final(farmer).state is Staked
                &&& final(farmer).gems_staked == gems_in_vault
                &&& final(farmer).begin_staking_ts == now_ts
                &&& final(farmer).min_staking_ends_ts == now_ts + old(
                    self,
                ).config.min_staking_period_sec
                &&& final(farmer).cooldown_ends_ts == 0
                &&& final(farmer).reward_a.accrued_reward == old(farmer).reward_a.accrued_reward
                &&& final(farmer).reward_b.accrued_reward == old(farmer).reward_b.accrued_reward
                &&& final(farmer).reward_a.paid_out_to_date == old(
                    farmer,
                ).reward_a.paid_out_to_date
                &&& final(farmer).reward_b.paid_out_to_date == old(
                    farmer,
                ).reward_b.paid_out_to_date
                &&& final(self).staked_farmer_count == old(self).staked_farmer_count + 1
                &&& final(self).gems_staked == old(self).gems_staked + gems_in_vault
                &&& final(self).config == old(self).config
                &&& final(self).farmer_count == old(self).farmer_count
                &&& (old(self).reward_a.kind is Variable ==> final(self).reward_a == old(
                    self,
                ).reward_a && final(farmer).reward_a == old(farmer).reward_a)
                &&& (old(self).reward_b.kind is Variable ==> final(self).reward_b == old(
                    self,
                ).reward_b && final(farmer).reward_b == old(farmer).reward_b)
                &&& (old(self).reward_a.kind is Fixed ==> Self::spec_enrolled(
                    old(self).reward_a,
                    final(self).reward_a,
                    old(farmer).reward_a,
                    final(farmer).reward_a,
                    now_ts,
                    gems_in_vault,
                ))
                &&& (old(self).reward_b.kind is Fixed ==> Self::spec_enrolled(
                    old(self).reward_b,
                    final(self).reward_b,
                    old(farmer).reward_b,
                    final(farmer).reward_b,
                    now_ts,
                    gems_in_vault,
                ))
                &&& final(self).wf()
                &&& final(self).spec_farmer_ok(*final(farmer))
            }),
    {
        if now_ts > u64::MAX - self.config.min_staking_period_sec {
            return Err(ErrorCode::ArithmeticError);
        }
        let new_count = match self.staked_farmer_count.checked_add(1) {
            Some(v) => v,
            None => {
                return Err(ErrorCode::ArithmeticError);
            },
        };
        let new_gems = match self.gems_staked.checked_add(gems_in_vault) {
            Some(v) => v,
            None => {
                return Err(ErrorCode::ArithmeticError);
            },
        };
        match self.reward_a.check_enroll(now_ts, gems_in_vault) {
            Ok(()) => {},
            Err(e) => {
                return Err(e);
            },
        };
        match self.reward_b.check_enroll(now_ts, gems_in_vault) {
            Ok(()) => {},
            Err(e) => {
                return Err(e);
            },
        };
        match farmer.begin_staking(self.config.min_staking_period_sec, now_ts, gems_in_vault) {
            Ok(()) => {},
            Err(e) => {
                proof {
                    assert(false);
                }
                return Err(e);
            },
        };
        self.staked_farmer_count = new_count;
        self.gems_staked = new_gems;
        match self.reward_a.enroll_farmer(now_ts, gems_in_vault, &mut farmer.reward_a, None) {
            Ok(()) => {},
            Err(e) => {
                proof {
                    assert(false);
                }
                return Err(e);
            },
        };
        match self.reward_b.enroll_farmer(now_ts, gems_in_vault, &mut farmer.reward_b, None) {
            Ok(()) => {},
            Err(e) => {
                proof {
                    assert(false);
                }
                return Err(e);
            },
        };
        proof {
            if old(self).reward_a.kind is Variable {
                crate::variable_rate::lemma_variable_conservation(
                    old(self).reward_a.kind->Variable_0,
                    old(self).reward_a.funds,
                    old(farmer).reward_a,
                    0,
                );
                crate::try_math::lemma_mul_zero(
                    gems_in_vault as int,
                    old(self).reward_a.kind->Variable_0.accrued_reward_per_gem - old(
                        farmer,
                    ).reward_a.tracker->Variable_0.last_recorded_accrued_reward_per_gem,
                );
            }
            if old(self).reward_b.kind is Variable {
                crate::variable_rate::lemma_variable_conservation(
                    old(self).reward_b.kind->Variable_0,
                    old(self).reward_b.funds,
                    old(farmer).reward_b,
                    0,
                );
                crate::try_math::lemma_mul_zero(
                    gems_in_vault as int,
                    old(self).reward_b.kind->Variable_0.accrued_reward_per_gem - old(
                        farmer,
                    ).reward_b.tracker->Variable_0.last_recorded_accrued_reward_per_gem,
                );
            }
        }
        Ok(())
    }

    /// Unstakes. A staked farmer (whose minimum staking period has passed)
    /// is graduated from every fixed-rate slot, moves into cooldown keeping
    /// their gems, and stops counting toward the farm's aggregates. A
    /// cooling-down farmer whose cooldown has passed returns to unstaked
    /// and releases the gems. An unstaked farmer is left as is. Commits
    /// only on success.
    pub fn end_staking(&mut self, now_ts: u64, farmer: &mut Farmer) -> (r: Result<(), ErrorCode>)
        requires
            old(self).wf(),
            old(self).spec_farmer_ok(*old(farmer)),
        ensures
            r is Err ==> *final(self) == *old(self) && *final(farmer) == *old(farmer),
            old(farmer).state is Unstaked ==> r is Ok && *final(self) == *old(self) && *final(farmer) == *old(farmer),
            old(farmer).state is PendingCooldown ==> ({
                &&& *final(self) == *old(self)
                &&& (r is Ok <==> now_ts >= old(farmer).cooldown_ends_ts)
                &&& (r is Ok ==> *final(farmer) == (Farmer {
                    state: FarmerState::Unstaked,
                    gems_staked: 0u64,
                    ..*old(farmer)
                }))
                &&& (r is Err ==> r == Err::<(), ErrorCode>(ErrorCode::CooldownNotPassed))
            }),
            old(farmer).state is Staked ==> ({
                &&& (now_ts < old(farmer).min_staking_ends_ts ==> r == Err::<(), ErrorCode>(
                    ErrorCode::MinStakingNotPassed,
                ))
                &&& (r is Ok <==> ({
                    &&& now_ts >= old(farmer).min_staking_ends_ts
                    &&& now_ts + old(self).config.cooldown_period_sec <= u64::MAX
                    &&& old(self).staked_farmer_count >= 1
                    &&& old(self).gems_staked >= old(farmer).gems_staked
                    &&& (old(self).reward_a.kind is Fixed ==> old(farmer).reward_a.accrued_reward
                        + old(farmer).reward_a.tracker->Fixed_0.spec_newly_promised(
                        now_ts,
                        old(farmer).gems_staked,
                    ) <= u64::MAX)
                    &&& (old(self).reward_b.kind is Fixed ==> old(farmer).reward_b.accrued_reward
                        + old(farmer).reward_b.tracker->Fixed_0.spec_newly_promised(
                        now_ts,
                        old(farmer).gems_staked,
                    ) <= u64::MAX)
                }))
                &&& (r is Ok ==> ({
                    &&& final(farmer).state is PendingCooldown
                    &&& final(farmer).gems_staked == old(farmer).gems_staked
                    &&& final(farmer).cooldown_ends_ts == now_ts + old(
                        self,
                    ).config.cooldown_period_sec
                    &&& final(self).staked_farmer_count == old(self).staked_farmer_count - 1
                    &&& final(self).gems_staked == old(self).gems_staked - old(farmer).gems_staked
                    &&& final(self).config == old(self).config
                    &&& (old(self).reward_a.kind is Fixed ==> final(self).reward_a.funds.total_accrued_to_stakers == old(
                        self,
                    ).reward_a.funds.total_accrued_to_stakers + old(
                        farmer,
                    ).reward_a.tracker->Fixed_0.spec_newly_promised(
                        now_ts,
                        old(farmer).gems_staked,
                    ) && final(farmer).reward_a.accrued_reward == old(farmer).reward_a.accrued_reward
                        + old(farmer).reward_a.tracker->Fixed_0.spec_newly_promised(
                        now_ts,
                        old(farmer).gems_staked,
                    ))
                    &&& (old(self).reward_b.kind is Fixed ==> final(self).reward_b.funds.total_accrued_to_stakers == old(
                        self,
                    ).reward_b.funds.total_accrued_to_stakers + old(
                        farmer,
                    ).reward_b.tracker->Fixed_0.spec_newly_promised(
                        now_ts,
                        old(farmer).gems_staked,
                    ) && final(farmer).reward_b.accrued_reward == old(farmer).reward_b.accrued_reward
                        + old(farmer).reward_b.tracker->Fixed_0.spec_newly_promised(
                        now_ts,
                        old(farmer).gems_staked,
                    ))
                    &&& (old(self).reward_a.kind is Variable ==> final(self).reward_a == old(
                        self,
                    ).reward_a && final(farmer).reward_a == old(farmer).reward_a)
                    &&& (old(self).reward_b.kind is Variable ==> final(self).reward_b == old(
                        self,
                    ).reward_b && final(farmer).reward_b == old(farmer).reward_b)
                    &&& final(self).wf()
                    &&& final(self).spec_farmer_ok(*final(farmer))
                }))
            }),
    {
        match farmer.state {
            FarmerState::Unstaked => Ok(()),
            FarmerState::Staked => {
                if now_ts < farmer.min_staking_ends_ts {
                    return Err(ErrorCode::MinStakingNotPassed);
                }
                if now_ts > u64::MAX - self.config.cooldown_period_sec {
                    return Err(ErrorCode::ArithmeticError);
                }
                if self.staked_farmer_count < 1 {
                    return Err(ErrorCode::ArithmeticError);
                }
                if self.gems_staked < farmer.gems_staked {
                    return Err(ErrorCode::ArithmeticError);
                }
                let farmer_gems = farmer.gems_staked;
                match self.reward_a.check_graduate(now_ts, farmer_gems, &farmer.reward_a) {
                    Ok(()) => {},
                    Err(e) => {
                        return Err(e);
                    },
                };
                match self.reward_b.check_graduate(now_ts, farmer_gems, &farmer.reward_b) {
                    Ok(()) => {},
                    Err(e) => {
                        return Err(e);
                    },
                };
                match self.reward_a.graduate_farmer(now_ts, farmer_gems, &mut farmer.reward_a) {
                    Ok(()) => {},
                    Err(e) => {
                        proof {
                            assert(false);
                        }
                        return Err(e);
                    },
                };
                match self.reward_b.graduate_farmer(now_ts, farmer_gems, &mut farmer.reward_b) {
                    Ok(()) => {},
                    Err(e) => {
                        proof {
                            assert(false);
                        }
                        return Err(e);
                    },
                };
                let gems_unstaked = match farmer.end_staking_begin_cooldown(
                    now_ts,
                    self.config.cooldown_period_sec,
                ) {
                    Ok(v) => v,
                    Err(e) => {
                        proof {
                            assert(false);
                        }
                        return Err(e);
                    },
                };
                self.staked_farmer_count = self.staked_farmer_count - 1;
                self.gems_staked = self.gems_staked - gems_unstaked;
                proof {
                    if old(self).reward_a.kind is Fixed {
                        crate::fixed_rate::lemma_promise_split(
                            farmer.reward_a.tracker->Fixed_0,
                            now_ts,
                            0,
                        );
                    }
                    if old(self).reward_b.kind is Fixed {
                        crate::fixed_rate::lemma_promise_split(
                            farmer.reward_b.tracker->Fixed_0,
                            now_ts,
                            0,
                        );
                    }
                    if old(self).reward_a.kind is Variable {
                        crate::variable_rate::lemma_variable_conservation(
                            old(self).reward_a.kind->Variable_0,
                            old(self).reward_a.funds,
                            old(farmer).reward_a,
                            old(farmer).gems_staked,
                        );
                        crate::try_math::lemma_mul_zero(
                            0,
                            old(self).reward_a.kind->Variable_0.accrued_reward_per_gem - old(
                                farmer,
                            ).reward_a.tracker->Variable_0.last_recorded_accrued_reward_per_gem,
                        );
                    }
                    if old(self).reward_b.kind is Variable {
                        crate::variable_rate::lemma_variable_conservation(
                            old(self).reward_b.kind->Variable_0,
                            old(self).reward_b.funds,
                            old(farmer).reward_b,
                            old(farmer).gems_staked,
                        );
                        crate::try_math::lemma_mul_zero(
                            0,
                            old(self).reward_b.kind->Variable_0.accrued_reward_per_gem - old(
                                farmer,
                            ).reward_b.tracker->Variable_0.last_recorded_accrued_reward_per_gem,
                        );
                    }
                }
                Ok(())
            },
            FarmerState::PendingCooldown => farmer.end_cooldown(now_ts),
        }
    }

    /// Adds `extra_gems` to a staked farmer's stake. The whole vault count
    /// must equal the farm's staked gems plus the extra, or nothing
    /// happens. The farmer's staking clock restarts at `now_ts`; fixed-rate
    /// slots graduate the old promise and enroll the new stake on the
    /// current table. The caller must have brought the farmer's accounting
    /// up to `now_ts` first. Commits only on success.
    pub fn stake_extra_gems(
        &mut self,
        now_ts: u64,
        gems_in_vault: u64,
        extra_gems: u64,
        farmer: &mut Farmer,
    ) -> (r: Result<(), ErrorCode>)
        requires
            old(self).wf(),
            old(farmer).state is Staked,
            old(self).spec_farmer_ok(*old(farmer)),
            old(self).spec_farmer_settled(*old(farmer), now_ts),
        ensures
            r is Err ==> *final(self) == *old(self) && *final(farmer) == *old(farmer),
            old(self).gems_staked + extra_gems > u64::MAX ==> r == Err::<(), ErrorCode>(
                ErrorCode::ArithmeticError,
            ),
            old(self).gems_staked + extra_gems <= u64::MAX && old(self).gems_staked + extra_gems
                != gems_in_vault ==> r == Err::<(), ErrorCode>(ErrorCode::AmountMismatch),
            old(self).gems_staked + extra_gems == gems_in_vault ==> ({
                &&& (r is Ok <==> ({
                    &&& now_ts + old(self).config.min_staking_period_sec <= u64::MAX
                    &&& (old(self).reward_a.kind is Fixed ==> old(farmer).reward_a.accrued_reward
                        + old(farmer).reward_a.tracker->Fixed_0.spec_newly_promised(
                        now_ts,
                        old(farmer).gems_staked,
                    ) <= u64::MAX)
                    &&& (old(self).reward_b.kind is Fixed ==> old(farmer).reward_b.accrued_reward
                        + old(farmer).reward_b.tracker->Fixed_0.spec_newly_promised(
                        now_ts,
                        old(farmer).gems_staked,
                    ) <= u64::MAX)
                    &&& old(self).reward_a.spec_enroll_fits(now_ts, gems_in_vault)
                    &&& old(self).reward_b.spec_enroll_fits(now_ts, gems_in_vault)
                }))
                &&& (r is Ok ==> ({
                    &&& final(farmer).state is Staked
                    &&& final(farmer).gems_staked == gems_in_vault
                    &&& final(farmer).begin_staking_ts == now_ts
                    &&& final(farmer).min_staking_ends_ts == now_ts + old(
                        self,
                    ).config.min_staking_period_sec
                    &&& final(self).gems_staked == gems_in_vault
                    &&& final(self).staked_farmer_count == old(self).staked_farmer_count
                    &&& final(self).config == old(self).config
                    &&& (old(self).reward_a.kind is Variable ==> final(self).reward_a == old(
                        self,
                    ).reward_a && final(farmer).reward_a == old(farmer).reward_a)
                    &&& (old(self).reward_b.kind is Variable ==> final(self).reward_b == old(
                        self,
                    ).reward_b && final(farmer).reward_b == old(farmer).reward_b)
                    &&& (old(self).reward_a.kind is Fixed ==> Self::spec_restaked(
                        old(self).reward_a,
                        final(self).reward_a,
                        old(farmer).reward_a,
                        final(farmer).reward_a,
                        now_ts,
                        old(farmer).gems_staked,
                        gems_in_vault,
                    ))
                    &&& (old(self).reward_b.kind is Fixed ==> Self::spec_restaked(
                        old(self).reward_b,
                        final(self).reward_b,
                        old(farmer).reward_b,
                        final(farmer).reward_b,
                        now_ts,
                        old(farmer).gems_staked,
                        gems_in_vault,
                    ))
                    &&& final(self).wf()
                    &&& final(self).spec_farmer_ok(*final(farmer))
                }))
            }),
    {
        let new_total = match self.gems_staked.checked_add(extra_gems) {
            Some(v) => v,
            None => {
                return Err(ErrorCode::ArithmeticError);
            },
        };
        if new_total != gems_in_vault {
            return Err(ErrorCode::AmountMismatch);
        }
        if now_ts > u64::MAX - self.config.min_staking_period_sec {
            return Err(ErrorCode::ArithmeticError);
        }
        let old_gems = farmer.gems_staked;
        match self.reward_a.check_graduate(now_ts, old_gems, &farmer.reward_a) {
            Ok(()) => {},
            Err(e) => {
                return Err(e);
            },
        };
        match self.reward_b.check_graduate(now_ts, old_gems, &farmer.reward_b) {
            Ok(()) => {},
            Err(e) => {
                return Err(e);
            },
        };
        match self.reward_a.check_enroll(now_ts, gems_in_vault) {
            Ok(()) => {},
            Err(e) => {
                return Err(e);
            },
        };
        match self.reward_b.check_enroll(now_ts, gems_in_vault) {
            Ok(()) => {},
            Err(e) => {
                return Err(e);
            },
        };
        match self.reward_a.graduate_farmer(now_ts, old_gems, &mut farmer.reward_a) {
            Ok(()) => {},
            Err(e) => {
                proof {
                    assert(false);
                }
                return Err(e);
            },
        };
        match self.reward_b.graduate_farmer(now_ts, old_gems, &mut farmer.reward_b) {
            Ok(()) => {},
            Err(e) => {
                proof {
                    assert(false);
                }
                return Err(e);
            },
        };
        proof {
            if old(self).reward_a.kind is Fixed {
                crate::fixed_rate::lemma_promise_split(old(farmer).reward_a.tracker->Fixed_0, now_ts, old_gems);
            }
            if old(self).reward_b.kind is Fixed {
                crate::fixed_rate::lemma_promise_split(old(farmer).reward_b.tracker->Fixed_0, now_ts, old_gems);
            }
        }
        match farmer.begin_staking(self.config.min_staking_period_sec, now_ts, gems_in_vault) {
            Ok(()) => {},
            Err(e) => {
                proof {
                    assert(false);
                }
                return Err(e);
            },
        };
        self.gems_staked = new_total;
        match self.reward_a.enroll_farmer(now_ts, gems_in_vault, &mut farmer.reward_a, None) {
            Ok(()) => {},
            Err(e) => {
                proof {
                    assert(false);
                }
                return Err(e);
            },
        };
        match self.reward_b.enroll_farmer(now_ts, gems_in_vault, &mut farmer.reward_b, None) {
            Ok(()) => {},
            Err(e) => {
                proof {
                    assert(false);
                }
                return Err(e);
            },
        };
        proof {
            if old(self).reward_a.kind is Variable {
                crate::variable_rate::lemma_variable_conservation(
                    old(self).reward_a.kind->Variable_0,
                    old(self).reward_a.funds,
                    old(farmer).reward_a,
                    old(farmer).gems_staked,
                );
                crate::try_math::lemma_mul_zero(
                    gems_in_vault as int,
                    old(self).reward_a.kind->Variable_0.accrued_reward_per_gem - old(
                        farmer,
                    ).reward_a.tracker->Variable_0.last_recorded_accrued_reward_per_gem,
                );
                crate::try_math::lemma_mul_zero(
                    old(farmer).gems_staked as int,
                    old(self).reward_a.kind->Variable_0.accrued_reward_per_gem - old(
                        farmer,
                    ).reward_a.tracker->Variable_0.last_recorded_accrued_reward_per_gem,
                );
            }
            if old(self).reward_b.kind is Variable {
                crate::variable_rate::lemma_variable_conservation(
                    old(self).reward_b.kind->Variable_0,
                    old(self).reward_b.funds,
                    old(farmer).reward_b,
                    old(farmer).gems_staked,
                );
                crate::try_math::lemma_mul_zero(
                    gems_in_vault as int,
                    old(self).reward_b.kind->Variable_0.accrued_reward_per_gem - old(
                        farmer,
                    ).reward_b.tracker->Variable_0.last_recorded_accrued_reward_per_gem,
                );
                crate::try_math::lemma_mul_zero(
                    old(farmer).gems_staked as int,
                    old(self).reward_b.kind->Variable_0.accrued_reward_per_gem - old(
                        farmer,
                    ).reward_b.tracker->Variable_0.last_recorded_accrued_reward_per_gem,
                );
            }
        }
        Ok(())
    }
}

/// A full staking cycle nets out: after beginning to stake, unstaking into
/// cooldown, and ending the cooldown, the farmer is unstaked with no gems
/// and the farm's aggregates stand where they started. The three `farm`
/// and `farmer` states are related exactly as [`Farm::begin_staking`] and
/// the two branches of [`Farm::end_staking`] leave them.
pub proof fn lemma_stake_cycle_restores_aggregates(
    farm0: Farm,
    farm1: Farm,
    farm2: Farm,
    farm3: Farm,
    farmer1: Farmer,
    farmer2: Farmer,
    farmer3: Farmer,
    gems: u64,
)
    requires
        farm1.gems_staked == farm0.gems_staked + gems,
        farm1.staked_farmer_count == farm0.staked_farmer_count + 1,
        farmer1.state is Staked,
        farmer1.gems_staked == gems,
        farm2.gems_staked == farm1.gems_staked - farmer1.gems_staked,
        farm2.staked_farmer_count == farm1.staked_farmer_count - 1,
        farmer2.state is PendingCooldown,
        farmer2.gems_staked == farmer1.gems_staked,
        farm3.gems_staked == farm2.gems_staked,
        farm3.staked_farmer_count == farm2.staked_farmer_count,
        farmer3.state is Unstaked,
        farmer3.gems_staked == 0,
    ensures
        farm3.gems_staked == farm0.gems_staked,
        farm3.staked_farmer_count == farm0.staked_farmer_count,
        farmer3.wf(),
{
}

} // verus!
