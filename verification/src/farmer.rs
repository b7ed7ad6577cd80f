//! Per-user state: the staking lifecycle and the per-reward accrual records.

use vstd::prelude::*;

use crate::error::ErrorCode;
use crate::fixed_rate::FixedRateFarmerTracker;
use crate::try_math::{TryAdd, TrySub};
use crate::variable_rate::VariableRateFarmerTracker;

verus! {

/// The staking lifecycle: Unstaked -> Staked -> PendingCooldown -> Unstaked.
#[derive(Clone, Copy, Debug, PartialEq, Eq, Structural)]
pub enum FarmerState {
    Unstaked,
    Staked,
    PendingCooldown,
}

/// The variant-dependent accrual bookkeeping of one farmer for one reward.
#[derive(Clone, Debug)]
pub enum FarmerRewardTracker {
    Variable(VariableRateFarmerTracker),
    Fixed(FixedRateFarmerTracker),
}

impl FarmerRewardTracker {
    /// The tracker belongs to a variable-rate reward.
    pub open spec fn is_variable(self) -> bool {
        self is Variable
    }

    /// The tracker belongs to a fixed-rate reward.
    pub open spec fn is_fixed(self) -> bool {
        self is Fixed
    }
}

/// One farmer's stake in one reward stream.
#[derive(Clone, Debug)]
pub struct FarmerReward {
    /// Tokens already handed to the farmer. Monotone.
    pub paid_out_to_date: u64,
    /// Tokens accrued and awaiting payout. Monotone.
    pub accrued_reward: u64,
    /// Variant-dependent accrual bookkeeping.
    pub tracker: FarmerRewardTracker,
}

impl FarmerReward {
    /// Nothing is ever paid out beyond what accrued.
    pub open spec fn wf(self) -> bool {
        self.paid_out_to_date <= self.accrued_reward
    }

    /// Tokens accrued and not yet paid out.
    pub open spec fn spec_outstanding(self) -> int {
        self.accrued_reward - self.paid_out_to_date
    }

    /// Pays out everything accrued so far and returns that amount; fails
    /// exactly when more was paid than accrued, which a well-formed record
    /// never allows.
    pub fn claim_rewards(&mut self) -> (r: Result<u64, ErrorCode>)
        ensures
            old(self).wf() ==> ({
                &&& r == Ok::<u64, ErrorCode>(old(self).spec_outstanding() as u64)
                &&& final(self).paid_out_to_date == old(self).accrued_reward
                &&& final(self).accrued_reward == old(self).accrued_reward
                &&& final(self).tracker == old(self).tracker
                &&& final(self).wf()
            }),
            !old(self).wf() ==> r == Err::<u64, ErrorCode>(ErrorCode::ArithmeticError)
                && *final(self) == *old(self),
    {
        let to_claim = match self.accrued_reward.try_sub(self.paid_out_to_date) {
            Ok(v) => v,
            Err(e) => {
                return Err(e);
            },
        };
        self.paid_out_to_date = self.accrued_reward;
        Ok(to_claim)
    }

    /// Books `newly_accrued` more tokens for this farmer and records the
    /// farm accumulator value the farmer is now paid up to. Commits only on
    /// success.
    pub fn update_variable_reward(
        &mut self,
        newly_accrued: u64,
        accrued_reward_per_gem: u64,
    ) -> (r: Result<(), ErrorCode>)
        requires
            old(self).tracker.is_variable(),
        ensures
            r is Ok <==> old(self).accrued_reward + newly_accrued <= u64::MAX,
            r is Ok ==> ({
                &&& final(self).accrued_reward == old(self).accrued_reward + newly_accrued
                &&& final(self).paid_out_to_date == old(self).paid_out_to_date
                &&& final(self).tracker == FarmerRewardTracker::Variable(
                    VariableRateFarmerTracker {
                        last_recorded_accrued_reward_per_gem: accrued_reward_per_gem,
                    },
                )
            }),
            r is Err ==> r == Err::<(), ErrorCode>(ErrorCode::ArithmeticError) && *final(self)
                == *old(self),
    {
        match self.accrued_reward.try_add(newly_accrued) {
            Ok(v) => {
                self.accrued_reward = v;
                self.tracker = FarmerRewardTracker::Variable(
                    VariableRateFarmerTracker {
                        last_recorded_accrued_reward_per_gem: accrued_reward_per_gem,
                    },
                );
                Ok(())
            },
            Err(e) => Err(e),
        }
    }
}

/// One user's record within a farm.
#[derive(Clone, Debug)]
pub struct Farmer {
    pub state: FarmerState,
    /// Gems currently counted as this farmer's stake.
    pub gems_staked: u64,
    pub begin_staking_ts: u64,
    pub min_staking_ends_ts: u64,
    pub cooldown_ends_ts: u64,
    pub reward_a: FarmerReward,
    pub reward_b: FarmerReward,
}

impl Farmer {
    /// A farmer holds gems exactly while staked or cooling down.
    pub open spec fn wf(self) -> bool {
        self.gems_staked > 0 <==> (self.state is Staked || self.state is PendingCooldown)
    }

    /// The gems that count toward the farm's stake and accrue rewards:
    /// the whole stake while staked, none otherwise. A cooling-down farmer
    /// still holds gems, but they no longer earn.
    pub open spec fn spec_effective_gems(self) -> u64 {
        if self.state is Staked {
            self.gems_staked
        } else {
            0
        }
    }

    /// Starts (or restarts, for a stake-extra) a staking period at `now_ts`
    /// with `gems_in_vault` gems; the minimum staking clock begins anew.
    /// Commits only on success.
    pub fn begin_staking(
        &mut self,
        min_staking_period_sec: u64,
        now_ts: u64,
        gems_in_vault: u64,
    ) -> (r: Result<(), ErrorCode>)
        requires
            gems_in_vault >= 1,
        ensures
            r is Ok <==> now_ts + min_staking_period_sec <= u64::MAX,
            r is Ok ==> *final(self) == (Farmer {
                state: FarmerState::Staked,
                gems_staked: gems_in_vault,
                begin_staking_ts: now_ts,
                min_staking_ends_ts: (now_ts + min_staking_period_sec) as u64,
                cooldown_ends_ts: 0u64,
                ..*old(self)
            }) && final(self).wf(),
            r is Err ==> r == Err::<(), ErrorCode>(ErrorCode::ArithmeticError) && *final(self)
                == *old(self),
    {
        let min_ends = match now_ts.try_add(min_staking_period_sec) {
            Ok(v) => v,
            Err(e) => {
                return Err(e);
            },
        };
        self.state = FarmerState::Staked;
        self.gems_staked = gems_in_vault;
        self.begin_staking_ts = now_ts;
        self.min_staking_ends_ts = min_ends;
        self.cooldown_ends_ts = 0;
        Ok(())
    }

    /// Moves a staked farmer into cooldown once the minimum staking period
    /// has passed, and returns the gems that stop counting toward the farm's
    /// stake. The farmer keeps holding the gems until the cooldown ends.
    /// Commits only on success.
    pub fn end_staking_begin_cooldown(
        &mut self,
        now_ts: u64,
        cooldown_period_sec: u64,
    ) -> (r: Result<u64, ErrorCode>)
        requires
            old(self).state is Staked,
        ensures
            r is Ok <==> now_ts >= old(self).min_staking_ends_ts && now_ts + cooldown_period_sec
                <= u64::MAX,
            r is Ok ==> r == Ok::<u64, ErrorCode>(old(self).gems_staked) && *final(self)
                == (Farmer {
                state: FarmerState::PendingCooldown,
                cooldown_ends_ts: (now_ts + cooldown_period_sec) as u64,
                ..*old(self)
            }),
            now_ts < old(self).min_staking_ends_ts ==> r == Err::<u64, ErrorCode>(
                ErrorCode::MinStakingNotPassed,
            ) && *final(self) == *old(self),
            now_ts >= old(self).min_staking_ends_ts && now_ts + cooldown_period_sec > u64::MAX
                ==> r == Err::<u64, ErrorCode>(ErrorCode::ArithmeticError) && *final(self) == *old(
                self,
            ),
            old(self).wf() ==> final(self).wf(),
    {
        if now_ts < self.min_staking_ends_ts {
            return Err(ErrorCode::MinStakingNotPassed);
        }
        let cooldown_ends = match now_ts.try_add(cooldown_period_sec) {
            Ok(v) => v,
            Err(e) => {
                return Err(e);
            },
        };
        self.state = FarmerState::PendingCooldown;
        self.cooldown_ends_ts = cooldown_ends;
        Ok(self.gems_staked)
    }

    /// Releases a cooling-down farmer back to the unstaked state once the
    /// cooldown has passed; the gems leave the farmer's record.
    pub fn end_cooldown(&mut self, now_ts: u64) -> (r: Result<(), ErrorCode>)
        requires
            old(self).state is PendingCooldown,
        ensures
            r is Ok <==> now_ts >= old(self).cooldown_ends_ts,
            r is Ok ==> *final(self) == (Farmer {
                state: FarmerState::Unstaked,
                gems_staked: 0u64,
                ..*old(self)
            }) && final(self).wf(),
            r is Err ==> r == Err::<(), ErrorCode>(ErrorCode::CooldownNotPassed) && *final(self)
                == *old(self),
    {
        if now_ts < self.cooldown_ends_ts {
            return Err(ErrorCode::CooldownNotPassed);
        }
        self.state = FarmerState::Unstaked;
        self.gems_staked = 0;
        Ok(())
    }
}

} // verus!
