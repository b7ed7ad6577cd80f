//! One reward slot of a farm: a tagged union over the two reward kinds,
//! with the lock gate enforced uniformly in front of both.

use vstd::prelude::*;

use crate::error::ErrorCode;
use crate::farmer::{FarmerReward, FarmerRewardTracker};
use crate::fixed_rate::{FixedRateConfig, FixedRateFarmerTracker, FixedRateReward};
use crate::funds_tracker::FundsTracker;
use crate::ids::Pubkey;
use crate::time_tracker::TimeTracker;
use crate::variable_rate::{
    lemma_newly_accrued_per_gem_nonneg, spec_variable_conserved, VariableRateConfig,
    VariableRateFarmerTracker, VariableRateReward,
};

verus! {

/// Which kind of reward a slot carries. Set at initialization, never
/// changed.
#[derive(Clone, Copy, Debug, PartialEq, Eq, Structural)]
pub enum RewardType {
    Variable,
    Fixed,
}

/// The live payload of a reward slot: exactly one of the two reward kinds.
#[derive(Clone, Debug)]
pub enum FarmRewardKind {
    Variable(VariableRateReward),
    Fixed(FixedRateReward),
}

/// One of the farm's two reward streams.
#[derive(Clone, Debug)]
pub struct FarmReward {
    /// The mint of the asset paid out; set once, immutable, and used to
    /// address this slot.
    pub reward_mint: Pubkey,
    /// The pool holding the asset; opaque to the core.
    pub reward_pot: Pubkey,
    /// The live reward payload.
    pub kind: FarmRewardKind,
    pub funds: FundsTracker,
    pub times: TimeTracker,
}

impl FarmReward {
    /// The slot's kind as a plain tag.
    pub open spec fn spec_reward_type(self) -> RewardType {
        match self.kind {
            FarmRewardKind::Variable(_) => RewardType::Variable,
            FarmRewardKind::Fixed(_) => RewardType::Fixed,
        }
    }

    /// The slot's time window and payload are internally consistent with
    /// its funds.
    pub open spec fn wf(self) -> bool {
        &&& self.times.wf()
        &&& match self.kind {
            FarmRewardKind::Variable(vr) => vr.wf(self.times, self.funds),
            FarmRewardKind::Fixed(fr) => fr.wf(self.funds),
        }
    }

    /// Conservation for one farmer: the farmer's claim on this slot, booked
    /// plus (for a variable slot) outstanding, stays within what the pool
    /// accrued for all stakers.
    pub open spec fn spec_claim_bounded(self, farmer_reward: FarmerReward, farmer_gems: u64) -> bool {
        match self.kind {
            FarmRewardKind::Variable(vr) => spec_variable_conserved(
                vr,
                self.funds,
                farmer_reward,
                farmer_gems,
            ),
            FarmRewardKind::Fixed(_) => farmer_reward.accrued_reward
                + farmer_reward.paid_out_to_date <= self.funds.total_accrued_to_stakers,
        }
    }

    /// The farmer's tracker belongs to this slot's kind and is consistent
    /// with the slot's books; what every farmer-facing operation needs and
    /// preserves.
    pub open spec fn spec_farmer_ok(self, farmer_reward: FarmerReward, farmer_gems: u64) -> bool {
        &&& self.spec_claim_bounded(farmer_reward, farmer_gems)
        &&& match self.kind {
            FarmRewardKind::Variable(_) => true,
            FarmRewardKind::Fixed(fr) => {
                &&& farmer_reward.tracker is Fixed
                &&& farmer_reward.tracker->Fixed_0.wf()
                &&& farmer_reward.tracker->Fixed_0.spec_remaining_promised(farmer_gems)
                    <= fr.reserved_amount
            },
        }
    }

    /// A farm-wide update at `now_ts` goes through: time has not run
    /// backwards past the accounting mark and the per-gem accumulator
    /// stays within 64 bits. Fixed-rate slots have no farm-wide clock and
    /// always pass.
    pub open spec fn spec_update_fits(self, now_ts: u64, farm_gems_staked: u64) -> bool {
        match self.kind {
            FarmRewardKind::Variable(vr) => now_ts >= vr.reward_last_updated_ts
                && vr.accrued_reward_per_gem + vr.spec_newly_accrued_per_gem(
                self.times.spec_reward_upper_bound(now_ts),
                farm_gems_staked,
            ) <= u64::MAX,
            FarmRewardKind::Fixed(_) => true,
        }
    }

    /// The slot after a farm-wide update at `now_ts`: a fixed-rate slot is
    /// unchanged; a variable-rate slot advances its accumulator to the
    /// upper bound and books the accrual for every staked gem.
    pub open spec fn spec_updated(self, now_ts: u64, farm_gems_staked: u64) -> FarmReward {
        match self.kind {
            FarmRewardKind::Fixed(_) => self,
            FarmRewardKind::Variable(vr) => {
                let upper = self.times.spec_reward_upper_bound(now_ts);
                let newly = vr.spec_newly_accrued_per_gem(upper, farm_gems_staked);
                FarmReward {
                    kind: FarmRewardKind::Variable(
                        VariableRateReward {
                            reward_rate: vr.reward_rate,
                            reward_last_updated_ts: upper as u64,
                            accrued_reward_per_gem: (vr.accrued_reward_per_gem + newly) as u64,
                        },
                    ),
                    funds: FundsTracker {
                        total_accrued_to_stakers: (self.funds.total_accrued_to_stakers + newly
                            * farm_gems_staked) as u64,
                        ..self.funds
                    },
                    ..self
                }
            },
        }
    }

    /// A farmer-facing update at `now_ts` goes through: the farm-wide
    /// update fits, the farmer's share fits in 64 bits and, when a
    /// re-enrollment is due, the new promise fits in the unreserved pending
    /// funds.
    pub open spec fn spec_farmer_update_fits(
        self,
        farmer_reward: FarmerReward,
        now_ts: u64,
        farm_gems_staked: u64,
        farmer_gems_staked: u64,
        reenroll: bool,
    ) -> bool {
        match self.kind {
            FarmRewardKind::Variable(vr) => {
                let upper = self.times.spec_reward_upper_bound(now_ts);
                let newly = vr.spec_newly_accrued_per_gem(upper, farm_gems_staked);
                let new_apg = vr.accrued_reward_per_gem + newly;
                let delta = new_apg
                    - farmer_reward.tracker->Variable_0.last_recorded_accrued_reward_per_gem;
                &&& now_ts >= vr.reward_last_updated_ts
                &&& new_apg <= u64::MAX
                &&& farmer_gems_staked * delta <= u64::MAX
                &&& farmer_reward.accrued_reward + farmer_gems_staked * delta <= u64::MAX
            },
            FarmRewardKind::Fixed(fr) => {
                let t = farmer_reward.tracker->Fixed_0;
                let newly = t.spec_newly_promised(now_ts, farmer_gems_staked);
                let remaining_new = self.times.spec_remaining_duration(now_ts);
                let per_gem_new = fr.schedule.spec_payout_per_gem(0, remaining_new);
                let reserve_new = per_gem_new * farmer_gems_staked;
                &&& farmer_reward.accrued_reward + newly <= u64::MAX
                &&& (self.spec_reenroll_due(farmer_reward, now_ts, farmer_gems_staked, reenroll)
                    ==> per_gem_new <= u64::MAX && reserve_new <= u64::MAX && reserve_new
                    <= self.funds.spec_pending() - fr.reserved_amount)
            },
        }
    }

    /// A farmer-facing update at `now_ts` will restart the farmer on the
    /// farm's current table: re-enrollment was requested, gems are staked,
    /// and the farmer's promised window has expired.
    pub open spec fn spec_reenroll_due(
        self,
        farmer_reward: FarmerReward,
        now_ts: u64,
        farmer_gems_staked: u64,
        reenroll: bool,
    ) -> bool {
        match self.kind {
            FarmRewardKind::Variable(_) => false,
            FarmRewardKind::Fixed(_) => reenroll && farmer_gems_staked > 0 && now_ts
                >= farmer_reward.tracker->Fixed_0.spec_schedule_end(),
        }
    }

    /// Slot and farmer after a farmer-facing update at `now_ts` that does
    /// not re-enroll: the slot updates farm-wide, the farmer is paid their
    /// share, and the paid-up marks advance.
    pub open spec fn spec_farmer_updated(
        self,
        farmer_reward: FarmerReward,
        now_ts: u64,
        farm_gems_staked: u64,
        farmer_gems_staked: u64,
    ) -> (FarmReward, FarmerReward) {
        match self.kind {
            FarmRewardKind::Variable(vr) => {
                let upper = self.times.spec_reward_upper_bound(now_ts);
                let newly = vr.spec_newly_accrued_per_gem(upper, farm_gems_staked);
                let new_apg = (vr.accrued_reward_per_gem + newly) as u64;
                let delta = new_apg
                    - farmer_reward.tracker->Variable_0.last_recorded_accrued_reward_per_gem;
                (
                    self.spec_updated(now_ts, farm_gems_staked),
                    FarmerReward {
                        accrued_reward: (farmer_reward.accrued_reward + farmer_gems_staked
                            * delta) as u64,
                        tracker: FarmerRewardTracker::Variable(
                            VariableRateFarmerTracker {
                                last_recorded_accrued_reward_per_gem: new_apg,
                            },
                        ),
                        ..farmer_reward
                    },
                )
            },
            FarmRewardKind::Fixed(fr) => {
                let t = farmer_reward.tracker->Fixed_0;
                let newly = t.spec_newly_promised(now_ts, farmer_gems_staked);
                let cap = vstd::math::max(
                    vstd::math::min(now_ts as int, t.spec_schedule_end()),
                    t.last_updated_ts as int,
                );
                (
                    FarmReward {
                        kind: FarmRewardKind::Fixed(
                            FixedRateReward {
                                reserved_amount: (fr.reserved_amount - newly) as u64,
                                ..fr
                            },
                        ),
                        funds: FundsTracker {
                            total_accrued_to_stakers: (self.funds.total_accrued_to_stakers
                                + newly) as u64,
                            ..self.funds
                        },
                        ..self
                    },
                    FarmerReward {
                        accrued_reward: (farmer_reward.accrued_reward + newly) as u64,
                        tracker: FarmerRewardTracker::Fixed(
                            FixedRateFarmerTracker { last_updated_ts: cap as u64, ..t },
                        ),
                        ..farmer_reward
                    },
                )
            },
        }
    }

    /// Slot and farmer after a farmer-facing update at `now_ts` that
    /// re-enrolls: everything owed under the expired promise crystallizes,
    /// and the farmer restarts on the slot's current table, keeping the
    /// original staking start.
    pub open spec fn spec_reenrolled_updated(
        self,
        fr0: FarmerReward,
        slot1: FarmReward,
        fr1: FarmerReward,
        now_ts: u64,
        farmer_gems_staked: u64,
    ) -> bool {
        let t = fr0.tracker->Fixed_0;
        let newly = t.spec_newly_promised(now_ts, farmer_gems_staked);
        let remaining_new = self.times.spec_remaining_duration(now_ts);
        let reserve_new = self.kind->Fixed_0.schedule.spec_payout_per_gem(0, remaining_new)
            * farmer_gems_staked;
        &&& fr1.accrued_reward == fr0.accrued_reward + newly
        &&& fr1.paid_out_to_date == fr0.paid_out_to_date
        &&& slot1.funds.total_accrued_to_stakers == self.funds.total_accrued_to_stakers + newly
        &&& slot1.funds.total_funded == self.funds.total_funded
        &&& slot1.funds.total_refunded == self.funds.total_refunded
        &&& slot1.times == self.times
        &&& slot1.reward_mint == self.reward_mint
        &&& slot1.reward_pot == self.reward_pot
        &&& slot1.kind matches FarmRewardKind::Fixed(fr2) && fr2.schedule.tiers@
            == self.kind->Fixed_0.schedule.tiers@ && fr2.reserved_amount
            == self.kind->Fixed_0.reserved_amount - newly + reserve_new
        &&& fr1.tracker matches FarmerRewardTracker::Fixed(t2) && ({
            &&& t2.begin_staking_ts == t.begin_staking_ts
            &&& t2.begin_schedule_ts == now_ts
            &&& t2.last_updated_ts == now_ts
            &&& t2.promised_schedule.tiers@ == self.kind->Fixed_0.schedule.tiers@
            &&& t2.promised_duration == remaining_new
            &&& t2.wf()
        })
    }

    /// Farm-wide accounting is already up to date at `now_ts`.
    pub open spec fn spec_settled(self, now_ts: u64) -> bool {
        match self.kind {
            FarmRewardKind::Variable(vr) => vr.reward_last_updated_ts
                == self.times.spec_reward_upper_bound(now_ts),
            FarmRewardKind::Fixed(_) => true,
        }
    }

    /// The slot's kind as a plain tag.
    pub fn reward_type(&self) -> (r: RewardType)
        ensures
            r == self.spec_reward_type(),
    {
        match &self.kind {
            FarmRewardKind::Variable(_) => RewardType::Variable,
            FarmRewardKind::Fixed(_) => RewardType::Fixed,
        }
    }

    /// The reward can neither be funded nor cancelled before
    /// `lock_end_ts`.
    pub fn is_locked(&self, now_ts: u64) -> (r: bool)
        ensures
            r == (now_ts < self.times.lock_end_ts),
    {
        now_ts < self.times.lock_end_ts
    }

    /// The slot with its lock set to run until the reward's end.
    pub open spec fn spec_locked(r: FarmReward) -> FarmReward {
        FarmReward {
            times: TimeTracker { lock_end_ts: r.times.reward_end_ts, ..r.times },
            ..r
        }
    }

    /// Irreversibly locks funding and cancellation until the reward's end,
    /// so that the committed reward cannot be withdrawn or changed.
    pub fn lock_reward(&mut self) -> (r: Result<(), ErrorCode>)
        ensures
            r == Ok::<(), ErrorCode>(()),
            *final(self) == Self::spec_locked(*old(self)),
    {
        self.times.lock_end_ts = self.times.reward_end_ts;
        Ok(())
    }

    /// A funding of this slot at `now_ts` with the matching config goes
    /// through: the reward is not locked and the config of the slot's kind
    /// fits (and, for a fixed-rate slot, covers at least one gem staked for
    /// the whole added duration).
    pub open spec fn spec_fund_fits_by_type(
        self,
        now_ts: u64,
        variable_rate_config: Option<VariableRateConfig>,
        fixed_rate_config: Option<FixedRateConfig>,
    ) -> bool {
        &&& now_ts >= self.times.lock_end_ts
        &&& match self.kind {
            FarmRewardKind::Variable(_) => VariableRateReward::spec_fund_fits(
                self.times,
                self.funds,
                now_ts,
                variable_rate_config->0,
            ),
            FarmRewardKind::Fixed(_) => {
                let config = fixed_rate_config->0;
                let req = config.schedule.spec_payout_per_gem(0, config.duration_sec as int);
                &&& req <= config.amount
                &&& self.times.duration_sec + config.duration_sec <= u64::MAX
                &&& self.times.reward_end_ts + config.duration_sec <= u64::MAX
                &&& self.funds.total_funded + config.amount <= u64::MAX
            },
        }
    }

    /// Funds the slot with the config of its kind, unless the reward is
    /// locked. The mismatched config is ignored; the matching one must be
    /// supplied. Commits only on success.
    pub fn fund_reward_by_type(
        &mut self,
        now_ts: u64,
        variable_rate_config: Option<VariableRateConfig>,
        fixed_rate_config: Option<FixedRateConfig>,
    ) -> (r: Result<(), ErrorCode>)
        requires
            old(self).wf(),
            old(self).kind is Variable ==> variable_rate_config is Some,
            old(self).kind is Fixed ==> fixed_rate_config is Some
                && fixed_rate_config->0.schedule.wf(),
        ensures
            r is Ok <==> old(self).spec_fund_fits_by_type(
                now_ts,
                variable_rate_config,
                fixed_rate_config,
            ),
            now_ts < old(self).times.lock_end_ts ==> r == Err::<(), ErrorCode>(
                ErrorCode::RewardLocked,
            ) && *final(self) == *old(self),
            r is Err ==> *final(self) == *old(self),
            r is Ok ==> ({
                &&& final(self).wf()
                &&& final(self).reward_mint == old(self).reward_mint
                &&& final(self).reward_pot == old(self).reward_pot
                &&& final(self).spec_reward_type() == old(self).spec_reward_type()
                &&& final(self).times.lock_end_ts == old(self).times.lock_end_ts
                &&& final(self).funds.total_refunded == old(self).funds.total_refunded
                &&& final(self).funds.total_accrued_to_stakers == old(
                    self,
                ).funds.total_accrued_to_stakers
                &&& final(self).funds.total_funded == old(self).funds.total_funded + (
                match old(self).kind {
                    FarmRewardKind::Variable(_) => variable_rate_config->0.amount,
                    FarmRewardKind::Fixed(_) => fixed_rate_config->0.amount,
                })
            }),
            now_ts >= old(self).times.lock_end_ts && old(self).kind is Variable ==> ({
                let config = variable_rate_config->0;
                let vr = old(self).kind->Variable_0;
                &&& (r is Ok <==> VariableRateReward::spec_fund_fits(
                    old(self).times,
                    old(self).funds,
                    now_ts,
                    config,
                ))
                &&& (r is Ok ==> ({
                    let new_end = vstd::math::max(old(self).times.reward_end_ts as int, now_ts as int)
                        + config.duration_sec;
                    &&& final(self).times.reward_end_ts == new_end
                    &&& final(self).times.duration_sec == if now_ts >= old(
                        self,
                    ).times.reward_end_ts {
                        config.duration_sec as int
                    } else {
                        old(self).times.duration_sec + config.duration_sec
                    }
                    &&& (old(self).times.spec_reward_begin_ts() <= now_ts ==> final(self).times.spec_reward_begin_ts() <= now_ts)
                    &&& final(self).kind matches FarmRewardKind::Variable(vr2) && ({
                        &&& vr2.reward_rate == (old(self).funds.spec_pending() + config.amount) / (
                        new_end - now_ts)
                        &&& vr2.reward_last_updated_ts == now_ts
                        &&& vr2.accrued_reward_per_gem == vr.accrued_reward_per_gem
                    })
                    &&& final(self).spec_settled(now_ts)
                }))
            }),
            now_ts >= old(self).times.lock_end_ts && old(self).kind is Fixed ==> ({
                let config = fixed_rate_config->0;
                let req = config.schedule.spec_payout_per_gem(0, config.duration_sec as int);
                &&& (r is Ok <==> req <= config.amount && old(self).times.duration_sec
                    + config.duration_sec <= u64::MAX && old(self).times.reward_end_ts
                    + config.duration_sec <= u64::MAX && old(self).funds.total_funded
                    + config.amount <= u64::MAX)
                &&& (req <= u64::MAX && req > config.amount ==> r == Err::<(), ErrorCode>(
                    ErrorCode::RewardUnderfunded,
                ))
                &&& (r is Ok ==> ({
                    &&& final(self).times.duration_sec == old(self).times.duration_sec
                        + config.duration_sec
                    &&& final(self).times.reward_end_ts == old(self).times.reward_end_ts
                        + config.duration_sec
                    &&& final(self).kind matches FarmRewardKind::Fixed(fr2) && ({
                        &&& fr2.schedule.tiers@ == config.schedule.tiers@
                        &&& fr2.reserved_amount == old(self).kind->Fixed_0.reserved_amount
                    })
                }))
            }),
    {
        if self.is_locked(now_ts) {
            return Err(ErrorCode::RewardLocked);
        }
        match &mut self.kind {
            FarmRewardKind::Variable(vr) => {
                let config = match variable_rate_config {
                    Some(c) => c,
                    None => {
                        proof {
                            assert(false);
                        }
                        return Err(ErrorCode::ArithmeticError);
                    },
                };
                vr.fund_reward(now_ts, &mut self.times, &mut self.funds, config)
            },
            FarmRewardKind::Fixed(fr) => {
                let config = match fixed_rate_config {
                    Some(c) => c,
                    None => {
                        proof {
                            assert(false);
                        }
                        return Err(ErrorCode::ArithmeticError);
                    },
                };
                fr.fund_reward(now_ts, &mut self.times, &mut self.funds, config)
            },
        }
    }

    /// Cancels the reward at `now_ts`, unless locked: the reward ends now
    /// and the refundable part of the pending pool is returned. A variable
    /// reward refunds everything pending; a fixed reward keeps what is
    /// reserved for enrolled farmers. The caller must have brought
    /// accounting up to `now_ts` first. Returns the refund; commits only on
    /// success.
    pub fn cancel_reward_by_type(&mut self, now_ts: u64) -> (r: Result<u64, ErrorCode>)
        requires
            old(self).wf(),
            old(self).spec_settled(now_ts),
        ensures
            now_ts < old(self).times.lock_end_ts ==> r == Err::<u64, ErrorCode>(
                ErrorCode::RewardLocked,
            ) && *final(self) == *old(self),
            r is Err ==> *final(self) == *old(self),
            now_ts >= old(self).times.lock_end_ts ==> ({
                let refund = match old(self).kind {
                    FarmRewardKind::Variable(_) => old(self).funds.spec_pending(),
                    FarmRewardKind::Fixed(fr) => old(self).funds.spec_pending()
                        - fr.reserved_amount,
                };
                &&& (r is Ok <==> old(self).times.spec_remaining_duration(now_ts) <= old(
                    self,
                ).times.duration_sec)
                &&& (r is Ok ==> ({
                    &&& r == Ok::<u64, ErrorCode>(refund as u64)
                    &&& final(self).wf()
                    &&& final(self).reward_mint == old(self).reward_mint
                    &&& final(self).reward_pot == old(self).reward_pot
                    &&& final(self).spec_reward_type() == old(self).spec_reward_type()
                    &&& final(self).times == old(self).times.spec_ended(now_ts)
                    &&& final(self).funds.total_funded == old(self).funds.total_funded
                    &&& final(self).funds.total_refunded == old(self).funds.total_refunded
                        + refund
                    &&& final(self).funds.total_accrued_to_stakers == old(
                        self,
                    ).funds.total_accrued_to_stakers
                    &&& (old(self).kind matches FarmRewardKind::Variable(vr) ==> final(self).kind == FarmRewardKind::Variable(
                        VariableRateReward { reward_last_updated_ts: now_ts, ..vr },
                    ) && final(self).funds.spec_pending() == 0)
                    &&& (old(self).kind is Fixed ==> final(self).kind == old(self).kind && final(self).funds.spec_pending() == old(self).kind->Fixed_0.reserved_amount)
                    &&& final(self).spec_settled(now_ts)
                }))
            }),
    {
        if self.is_locked(now_ts) {
            return Err(ErrorCode::RewardLocked);
        }
        match &mut self.kind {
            FarmRewardKind::Variable(vr) => vr.cancel_reward(
                now_ts,
                &mut self.times,
                &mut self.funds,
            ),
            FarmRewardKind::Fixed(fr) => {
                let pending = match self.funds.pending_amount() {
                    Ok(v) => v,
                    Err(e) => {
                        return Err(e);
                    },
                };
                let refund = pending - fr.reserved_amount;
                let new_refunded = self.funds.total_refunded + refund;
                match self.times.end_reward(now_ts) {
                    Ok(()) => {},
                    Err(e) => {
                        return Err(e);
                    },
                };
                self.funds.total_refunded = new_refunded;
                Ok(refund)
            },
        }
    }

    /// This farmer's accrual bookkeeping is already up to date at `now_ts`.
    pub open spec fn spec_farmer_settled(
        self,
        farmer_reward: FarmerReward,
        now_ts: u64,
    ) -> bool {
        match self.kind {
            FarmRewardKind::Variable(vr) => farmer_reward.tracker is Variable
                && farmer_reward.tracker->Variable_0.last_recorded_accrued_reward_per_gem
                == vr.accrued_reward_per_gem,
            FarmRewardKind::Fixed(_) => farmer_reward.tracker is Fixed && vstd::math::min(
                now_ts as int,
                farmer_reward.tracker->Fixed_0.spec_schedule_end(),
            ) <= farmer_reward.tracker->Fixed_0.last_updated_ts,
        }
    }

    /// Moves the farm-wide accounting of this slot up to `now_ts`. For a
    /// fixed-rate reward there is no farm-wide clock, so without a farmer
    /// this is a no-op. Updating an already settled slot changes nothing.
    /// Commits only on success.
    pub fn update_accrued_reward(&mut self, now_ts: u64, farm_gems_staked: u64) -> (r: Result<
        (),
        ErrorCode,
    >)
        requires
            old(self).wf(),
        ensures
            r is Ok <==> old(self).spec_update_fits(now_ts, farm_gems_staked),
            r is Err ==> r == Err::<(), ErrorCode>(ErrorCode::ArithmeticError) && *final(self)
                == *old(self),
            old(self).kind is Fixed ==> r is Ok && *final(self) == *old(self),
            old(self).kind is Variable ==> ({
                let vr = old(self).kind->Variable_0;
                let upper = old(self).times.spec_reward_upper_bound(now_ts);
                let newly = vr.spec_newly_accrued_per_gem(upper, farm_gems_staked);
                &&& (r is Ok <==> now_ts >= vr.reward_last_updated_ts && vr.accrued_reward_per_gem
                    + newly <= u64::MAX)
                &&& (r is Ok ==> ({
                    &&& final(self).kind matches FarmRewardKind::Variable(vr2) && ({
                        &&& vr2.accrued_reward_per_gem == vr.accrued_reward_per_gem + newly
                        &&& vr2.reward_last_updated_ts == upper
                        &&& vr2.reward_rate == vr.reward_rate
                    })
                    &&& final(self).funds.total_accrued_to_stakers == old(
                        self,
                    ).funds.total_accrued_to_stakers + newly * farm_gems_staked
                    &&& final(self).funds.total_funded == old(self).funds.total_funded
                    &&& final(self).funds.total_refunded == old(self).funds.total_refunded
                }))
            }),
            r is Ok ==> ({
                &&& *final(self) == old(self).spec_updated(now_ts, farm_gems_staked)
                &&& final(self).reward_mint == old(self).reward_mint
                &&& final(self).reward_pot == old(self).reward_pot
                &&& final(self).spec_reward_type() == old(self).spec_reward_type()
                &&& final(self).times == old(self).times
                &&& final(self).wf()
                &&& final(self).spec_settled(now_ts)
            }),
            r is Ok ==> forall|fr: FarmerReward, g: u64|
                g <= farm_gems_staked && #[trigger] old(self).spec_claim_bounded(fr, g)
                    ==> final(self).spec_claim_bounded(fr, g),
            old(self).spec_settled(now_ts) ==> r is Ok && *final(self) == *old(self),
    {
        match &mut self.kind {
            FarmRewardKind::Variable(vr) => {
                match vr.update_accrued_reward(now_ts, &self.times, &mut self.funds, farm_gems_staked) {
                    Ok(()) => {},
                    Err(e) => {
                        return Err(e);
                    },
                }
            },
            FarmRewardKind::Fixed(_) => {},
        }
        proof {
            if old(self).kind is Variable {
                let vr = old(self).kind->Variable_0;
                let upper = old(self).times.spec_reward_upper_bound(now_ts);
                let newly = vr.spec_newly_accrued_per_gem(upper, farm_gems_staked);
                lemma_newly_accrued_per_gem_nonneg(vr, upper, farm_gems_staked);
                assert forall|fr: FarmerReward, g: u64|
                    g <= farm_gems_staked && #[trigger] old(self).spec_claim_bounded(fr, g)
                        implies self.spec_claim_bounded(fr, g) by {
                    let last_rec = fr.tracker->Variable_0.last_recorded_accrued_reward_per_gem;
                    vstd::arithmetic::mul::lemma_mul_inequality(
                        g as int,
                        farm_gems_staked as int,
                        newly,
                    );
                    assert(g * (vr.accrued_reward_per_gem + newly - last_rec) == g * (
                    vr.accrued_reward_per_gem - last_rec) + g * newly) by (nonlinear_arith);
                }
            }
        }
        Ok(())
    }

    /// Moves the farm-wide accounting *and* this farmer's accrual up to
    /// `now_ts`. `reenroll` applies to fixed-rate rewards only, as
    /// [`FixedRateReward::update_accrued_reward`] describes. Updating an
    /// already settled slot and farmer with `reenroll` unset changes
    /// nothing. Commits only on success.
    pub fn update_accrued_reward_for_farmer(
        &mut self,
        now_ts: u64,
        farm_gems_staked: u64,
        farmer_gems_staked: u64,
        farmer_reward: &mut FarmerReward,
        reenroll: bool,
    ) -> (r: Result<(), ErrorCode>)
        requires
            old(self).wf(),
            old(self).spec_farmer_ok(*old(farmer_reward), farmer_gems_staked),
            farmer_gems_staked <= farm_gems_staked,
        ensures
            r is Err ==> *final(self) == *old(self) && *final(farmer_reward) == *old(
                farmer_reward,
            ) && (r == Err::<(), ErrorCode>(ErrorCode::ArithmeticError) || r == Err::<
                (),
                ErrorCode,
            >(ErrorCode::RewardUnderfunded)),
            r is Ok ==> ({
                &&& final(self).reward_mint == old(self).reward_mint
                &&& final(self).reward_pot == old(self).reward_pot
                &&& final(self).spec_reward_type() == old(self).spec_reward_type()
                &&& final(self).times == old(self).times
                &&& final(self).funds.total_funded == old(self).funds.total_funded
                &&& final(self).funds.total_refunded == old(self).funds.total_refunded
                &&& final(farmer_reward).paid_out_to_date == old(farmer_reward).paid_out_to_date
                &&& final(self).wf()
                &&& final(self).spec_farmer_ok(*final(farmer_reward), farmer_gems_staked)
                &&& final(self).spec_settled(now_ts)
                &&& final(self).spec_farmer_settled(*final(farmer_reward), now_ts)
            }),
            old(self).kind is Variable ==> ({
                let vr = old(self).kind->Variable_0;
                let upper = old(self).times.spec_reward_upper_bound(now_ts);
                let newly = vr.spec_newly_accrued_per_gem(upper, farm_gems_staked);
                let new_apg = vr.accrued_reward_per_gem + newly;
                let delta = new_apg - old(
                    farmer_reward,
                ).tracker->Variable_0.last_recorded_accrued_reward_per_gem;
                &&& (r is Ok <==> now_ts >= vr.reward_last_updated_ts && new_apg <= u64::MAX
                    && farmer_gems_staked * delta <= u64::MAX && old(farmer_reward).accrued_reward
                    + farmer_gems_staked * delta <= u64::MAX)
                &&& (r is Ok ==> ({
                    &&& final(self).funds.total_accrued_to_stakers == old(
                        self,
                    ).funds.total_accrued_to_stakers + newly * farm_gems_staked
                    &&& final(farmer_reward).accrued_reward == old(farmer_reward).accrued_reward
                        + farmer_gems_staked * delta
                }))
            }),
            old(self).kind is Fixed ==> ({
                let t = old(farmer_reward).tracker->Fixed_0;
                let newly = t.spec_newly_promised(now_ts, farmer_gems_staked);
                let do_reenroll = reenroll && farmer_gems_staked > 0 && now_ts
                    >= t.spec_schedule_end();
                let remaining_new = old(self).times.spec_remaining_duration(now_ts);
                let per_gem_new = old(self).kind->Fixed_0.schedule.spec_payout_per_gem(
                    0,
                    remaining_new,
                );
                let reserve_new = per_gem_new * farmer_gems_staked;
                &&& (!do_reenroll ==> (r is Ok <==> old(farmer_reward).accrued_reward + newly
                    <= u64::MAX))
                &&& (do_reenroll ==> (r is Ok <==> old(farmer_reward).accrued_reward + newly
                    <= u64::MAX && per_gem_new <= u64::MAX && reserve_new <= u64::MAX
                    && reserve_new <= old(self).funds.spec_pending() - old(
                    self,
                ).kind->Fixed_0.reserved_amount))
                &&& (r is Ok ==> ({
                    &&& final(self).funds.total_accrued_to_stakers == old(
                        self,
                    ).funds.total_accrued_to_stakers + newly
                    &&& final(farmer_reward).accrued_reward == old(farmer_reward).accrued_reward
                        + newly
                    &&& (do_reenroll ==> (final(farmer_reward).tracker
                        matches FarmerRewardTracker::Fixed(t2) && t2.begin_schedule_ts == now_ts
                        && t2.promised_duration == remaining_new && t2.begin_staking_ts
                        == t.begin_staking_ts))
                }))
            }),
            old(self).spec_settled(now_ts) && old(self).spec_farmer_settled(
                *old(farmer_reward),
                now_ts,
            ) && !reenroll ==> r is Ok && *final(self) == *old(self) && *final(farmer_reward)
                == *old(farmer_reward),
            r is Ok <==> old(self).spec_farmer_update_fits(
                *old(farmer_reward),
                now_ts,
                farm_gems_staked,
                farmer_gems_staked,
                reenroll,
            ),
            r is Ok && !old(self).spec_reenroll_due(
                *old(farmer_reward),
                now_ts,
                farmer_gems_staked,
                reenroll,
            ) ==> (*final(self), *final(farmer_reward)) == old(self).spec_farmer_updated(
                *old(farmer_reward),
                now_ts,
                farm_gems_staked,
                farmer_gems_staked,
            ),
            r is Ok && old(self).spec_reenroll_due(
                *old(farmer_reward),
                now_ts,
                farmer_gems_staked,
                reenroll,
            ) ==> old(self).spec_reenrolled_updated(
                *old(farmer_reward),
                *final(self),
                *final(farmer_reward),
                now_ts,
                farmer_gems_staked,
            ),
            r is Ok ==> forall|fr2: FarmerReward, g: u64|
                g <= farm_gems_staked && #[trigger] old(self).spec_claim_bounded(fr2, g)
                    ==> final(self).spec_claim_bounded(fr2, g),
    {
        let result: Result<(), ErrorCode> = match &mut self.kind {
            FarmRewardKind::Variable(vr) => vr.update_accrued_reward_for_farmer(
                now_ts,
                &self.times,
                &mut self.funds,
                farm_gems_staked,
                farmer_gems_staked,
                farmer_reward,
            ),
            FarmRewardKind::Fixed(fr) => fr.update_accrued_reward(
                now_ts,
                &self.times,
                &mut self.funds,
                farmer_gems_staked,
                farmer_reward,
                reenroll,
            ),
        };
        match result {
            Ok(()) => {},
            Err(e) => {
                return Err(e);
            },
        }
        proof {
            if old(self).kind is Variable {
                let vr = old(self).kind->Variable_0;
                let upper = old(self).times.spec_reward_upper_bound(now_ts);
                let newly = vr.spec_newly_accrued_per_gem(upper, farm_gems_staked);
                lemma_newly_accrued_per_gem_nonneg(vr, upper, farm_gems_staked);
                assert forall|fr2: FarmerReward, g: u64|
                    g <= farm_gems_staked && #[trigger] old(self).spec_claim_bounded(fr2, g)
                        implies self.spec_claim_bounded(fr2, g) by {
                    let last_rec = fr2.tracker->Variable_0.last_recorded_accrued_reward_per_gem;
                    vstd::arithmetic::mul::lemma_mul_inequality(
                        g as int,
                        farm_gems_staked as int,
                        newly,
                    );
                    assert(g * (vr.accrued_reward_per_gem + newly - last_rec) == g * (
                    vr.accrued_reward_per_gem - last_rec) + g * newly) by (nonlinear_arith);
                }
            } else {
                let t = old(farmer_reward).tracker->Fixed_0;
                crate::fixed_rate::lemma_promise_split(t, now_ts, farmer_gems_staked);
            }
        }
        Ok(())
    }

    /// A fixed-rate enrollment of `farmer_gems` at `now_ts` would go
    /// through: the promise fits in 64 bits and in the unreserved pending
    /// funds. Variable-rate slots enroll nobody, so they always pass.
    pub open spec fn spec_enroll_fits(self, now_ts: u64, farmer_gems: u64) -> bool {
        match self.kind {
            FarmRewardKind::Variable(_) => true,
            FarmRewardKind::Fixed(fr) => {
                let remaining = self.times.spec_remaining_duration(now_ts);
                let per_gem = fr.schedule.spec_payout_per_gem(0, remaining);
                &&& per_gem <= u64::MAX
                &&& per_gem * farmer_gems <= u64::MAX
                &&& per_gem * farmer_gems <= self.funds.spec_pending() - fr.reserved_amount
            },
        }
    }

    /// Reports, without changing anything, whether enrolling `farmer_gems`
    /// at `now_ts` would succeed, with the error the enrollment would give.
    pub fn check_enroll(&self, now_ts: u64, farmer_gems: u64) -> (r: Result<(), ErrorCode>)
        requires
            self.wf(),
        ensures
            r is Ok <==> self.spec_enroll_fits(now_ts, farmer_gems),
            r is Err ==> (r == Err::<(), ErrorCode>(ErrorCode::ArithmeticError) || r == Err::<
                (),
                ErrorCode,
            >(ErrorCode::RewardUnderfunded)),
    {
        match &self.kind {
            FarmRewardKind::Variable(_) => Ok(()),
            FarmRewardKind::Fixed(fr) => {
                let remaining = match self.times.remaining_duration(now_ts) {
                    Ok(v) => v,
                    Err(e) => {
                        return Err(e);
                    },
                };
                proof {
                    crate::fixed_rate::lemma_payout_from_nonneg(
                        fr.schedule.tiers@,
                        0,
                        0,
                        remaining as int,
                    );
                }
                let reserve = match fr.schedule.reward_amount(0, remaining, farmer_gems) {
                    Ok(v) => v,
                    Err(e) => {
                        return Err(e);
                    },
                };
                let pending = match self.funds.pending_amount() {
                    Ok(v) => v,
                    Err(e) => {
                        return Err(e);
                    },
                };
                if reserve > pending - fr.reserved_amount {
                    return Err(ErrorCode::RewardUnderfunded);
                }
                Ok(())
            },
        }
    }

    /// Enrolls the farmer if this is a fixed-rate slot; a variable-rate
    /// slot has no per-farmer schedule, so nothing happens. Commits only on
    /// success.
    pub fn enroll_farmer(
        &mut self,
        now_ts: u64,
        farmer_gems_staked: u64,
        farmer_reward: &mut FarmerReward,
        original_begin_staking_ts: Option<u64>,
    ) -> (r: Result<(), ErrorCode>)
        requires
            old(self).wf(),
            old(self).kind is Fixed ==> old(farmer_reward).accrued_reward + old(
                farmer_reward,
            ).paid_out_to_date <= old(self).funds.total_accrued_to_stakers,
        ensures
            r is Ok <==> old(self).spec_enroll_fits(now_ts, farmer_gems_staked),
            r is Err ==> *final(self) == *old(self) && *final(farmer_reward) == *old(
                farmer_reward,
            ),
            old(self).kind is Variable ==> r is Ok && *final(self) == *old(self) && *final(farmer_reward) == *old(farmer_reward),
            old(self).kind is Fixed && r is Ok ==> ({
                let remaining = old(self).times.spec_remaining_duration(now_ts);
                let reserve = old(self).kind->Fixed_0.schedule.spec_payout_per_gem(0, remaining)
                    * farmer_gems_staked;
                &&& final(self).times == old(self).times
                &&& final(self).funds == old(self).funds
                &&& final(self).reward_mint == old(self).reward_mint
                &&& final(self).reward_pot == old(self).reward_pot
                &&& final(self).kind matches FarmRewardKind::Fixed(fr2) && ({
                    &&& fr2.schedule.tiers@ == old(self).kind->Fixed_0.schedule.tiers@
                    &&& fr2.reserved_amount == old(self).kind->Fixed_0.reserved_amount + reserve
                })
                &&& final(farmer_reward).paid_out_to_date == old(farmer_reward).paid_out_to_date
                &&& final(farmer_reward).accrued_reward == old(farmer_reward).accrued_reward
                &&& final(farmer_reward).tracker matches FarmerRewardTracker::Fixed(t) && ({
                    &&& t.begin_staking_ts == (match original_begin_staking_ts {
                        Some(ts) => ts,
                        None => now_ts,
                    })
                    &&& t.begin_schedule_ts == now_ts
                    &&& t.last_updated_ts == now_ts
                    &&& t.promised_schedule.tiers@ == old(self).kind->Fixed_0.schedule.tiers@
                    &&& t.promised_duration == remaining
                    &&& t.wf()
                })
                &&& final(self).wf()
                &&& final(self).spec_farmer_ok(*final(farmer_reward), farmer_gems_staked)
            }),
    {
        match &mut self.kind {
            FarmRewardKind::Variable(_) => Ok(()),
            FarmRewardKind::Fixed(fr) => fr.enroll_farmer(
                now_ts,
                &self.times,
                &self.funds,
                farmer_gems_staked,
                farmer_reward,
                original_begin_staking_ts,
            ),
        }
    }

    /// Reports, without changing anything, whether graduating the farmer at
    /// `now_ts` would succeed (it fails only when the farmer's accrued
    /// counter would overflow).
    pub fn check_graduate(&self, now_ts: u64, farmer_gems_staked: u64, farmer_reward: &FarmerReward) -> (r:
        Result<(), ErrorCode>)
        requires
            self.wf(),
            self.spec_farmer_ok(*farmer_reward, farmer_gems_staked),
        ensures
            self.kind is Variable ==> r is Ok,
            self.kind is Fixed ==> (r is Ok <==> farmer_reward.accrued_reward
                + farmer_reward.tracker->Fixed_0.spec_newly_promised(now_ts, farmer_gems_staked)
                <= u64::MAX),
            r is Err ==> r == Err::<(), ErrorCode>(ErrorCode::ArithmeticError),
    {
        match &self.kind {
            FarmRewardKind::Variable(_) => Ok(()),
            FarmRewardKind::Fixed(_) => {
                let ghost t0 = farmer_reward.tracker->Fixed_0;
                let newly: u64;
                match &farmer_reward.tracker {
                    FarmerRewardTracker::Fixed(t) => {
                        let sched_end = t.begin_schedule_ts + t.promised_duration;
                        let cap = if now_ts <= sched_end {
                            now_ts
                        } else {
                            sched_end
                        };
                        let cap2 = if cap > t.last_updated_ts {
                            cap
                        } else {
                            t.last_updated_ts
                        };
                        proof {
                            crate::fixed_rate::lemma_promise_split(t0, now_ts, farmer_gems_staked);
                        }
                        if farmer_gems_staked > 0 {
                            newly = match t.promised_schedule.reward_amount(
                                t.last_updated_ts - t.begin_schedule_ts,
                                cap2 - t.begin_schedule_ts,
                                farmer_gems_staked,
                            ) {
                                Ok(v) => v,
                                Err(e) => {
                                    proof {
                                        assert(false);
                                    }
                                    return Err(e);
                                },
                            };
                        } else {
                            newly = 0;
                        }
                    },
                    FarmerRewardTracker::Variable(_) => {
                        proof {
                            assert(false);
                        }
                        return Err(ErrorCode::ArithmeticError);
                    },
                }
                match farmer_reward.accrued_reward.checked_add(newly) {
                    Some(_) => Ok(()),
                    None => Err(ErrorCode::ArithmeticError),
                }
            },
        }
    }

    /// Graduates the farmer if this is a fixed-rate slot: everything owed
    /// up to `now_ts` crystallizes and the rest of the promise is released.
    /// A variable-rate slot keeps accruing by stake, so nothing happens.
    /// Commits only on success.
    pub fn graduate_farmer(
        &mut self,
        now_ts: u64,
        farmer_gems_staked: u64,
        farmer_reward: &mut FarmerReward,
    ) -> (r: Result<(), ErrorCode>)
        requires
            old(self).wf(),
            old(self).spec_farmer_ok(*old(farmer_reward), farmer_gems_staked),
        ensures
            old(self).kind is Variable ==> r is Ok && *final(self) == *old(self) && *final(farmer_reward) == *old(farmer_reward),
            r is Err ==> r == Err::<(), ErrorCode>(ErrorCode::ArithmeticError) && *final(self)
                == *old(self) && *final(farmer_reward) == *old(farmer_reward),
            old(self).kind is Fixed ==> ({
                let t = old(farmer_reward).tracker->Fixed_0;
                let newly = t.spec_newly_promised(now_ts, farmer_gems_staked);
                &&& (r is Ok <==> old(farmer_reward).accrued_reward + newly <= u64::MAX)
                &&& (r is Ok ==> ({
                    &&& final(self).times == old(self).times
                    &&& final(self).reward_mint == old(self).reward_mint
                    &&& final(self).reward_pot == old(self).reward_pot
                    &&& final(self).funds.total_funded == old(self).funds.total_funded
                    &&& final(self).funds.total_refunded == old(self).funds.total_refunded
                    &&& final(self).funds.total_accrued_to_stakers == old(
                        self,
                    ).funds.total_accrued_to_stakers + newly
                    &&& final(self).kind matches FarmRewardKind::Fixed(fr2) && ({
                        &&& fr2.schedule.tiers@ == old(self).kind->Fixed_0.schedule.tiers@
                        &&& fr2.reserved_amount == old(self).kind->Fixed_0.reserved_amount
                            - t.spec_remaining_promised(farmer_gems_staked)
                    })
                    &&& final(farmer_reward).accrued_reward == old(farmer_reward).accrued_reward
                        + newly
                    &&& final(farmer_reward).paid_out_to_date == old(
                        farmer_reward,
                    ).paid_out_to_date
                    &&& (final(farmer_reward).tracker matches FarmerRewardTracker::Fixed(t2)
                        && t2.spec_remaining_promised(farmer_gems_staked) == 0
                        && t2.begin_staking_ts == t.begin_staking_ts && t2.wf())
                    &&& final(self).wf()
                    &&& final(self).spec_farmer_ok(*final(farmer_reward), farmer_gems_staked)
                }))
            }),
    {
        match &mut self.kind {
            FarmRewardKind::Variable(_) => Ok(()),
            FarmRewardKind::Fixed(fr) => fr.graduate_farmer(
                now_ts,
                &mut self.funds,
                farmer_gems_staked,
                farmer_reward,
            ),
        }
    }
}


/// Locking a reward is idempotent: a second lock changes nothing, because
/// the first already pinned the lock to the reward's end and locking does
/// not move that end.
pub proof fn lemma_lock_reward_idempotent(r: FarmReward)
    ensures
        FarmReward::spec_locked(FarmReward::spec_locked(r)) == FarmReward::spec_locked(r),
{
}

} // verus!
