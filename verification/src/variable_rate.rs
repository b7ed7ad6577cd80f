//! The variable-rate reward: a single global stream `rate` (tokens per
//! second) diluted pro-rata across all currently staked gems.
//!
//! Accrual bookkeeping is a classic accumulator: the farm-wide
//! `accrued_reward_per_gem` integrates `rate / gems_staked` over time, and
//! each farmer records the accumulator value it was last paid up to.

use vstd::prelude::*;
use vstd::arithmetic::div_mod::lemma_fundamental_div_mod;

use crate::error::ErrorCode;
use crate::farmer::{FarmerReward, FarmerRewardTracker};
use crate::funds_tracker::FundsTracker;
use crate::time_tracker::TimeTracker;
use crate::try_math::{TryAdd, TryDiv, TryMul, TrySub};

verus! {

/// One funding of a variable-rate reward.
#[derive(Clone, Copy, Debug, PartialEq, Eq, Structural)]
pub struct VariableRateConfig {
    /// Tokens to add to the pool.
    pub amount: u64,
    /// Seconds over which to distribute them.
    pub duration_sec: u64,
}

/// Farm-side state of a variable-rate reward.
#[derive(Clone, Copy, Debug, PartialEq, Eq, Structural)]
pub struct VariableRateReward {
    /// Tokens distributed per second across all staked gems.
    pub reward_rate: u64,
    /// The timestamp accounting has been brought up to.
    pub reward_last_updated_ts: u64,
    /// Lifetime tokens accrued per staked gem.
    pub accrued_reward_per_gem: u64,
}

/// Farmer-side state of a variable-rate reward.
#[derive(Clone, Copy, Debug, PartialEq, Eq, Structural)]
pub struct VariableRateFarmerTracker {
    /// The farm accumulator value this farmer has been paid up to.
    pub last_recorded_accrued_reward_per_gem: u64,
}

impl VariableRateReward {
    /// The stream never promises more than the pool still holds: the rate
    /// times the not-yet-accounted window fits in the pending funds.
    pub open spec fn wf(self, times: TimeTracker, funds: FundsTracker) -> bool {
        &&& funds.wf()
        &&& self.reward_last_updated_ts <= times.reward_end_ts
        &&& self.reward_rate * (times.reward_end_ts - self.reward_last_updated_ts)
            <= funds.spec_pending()
    }

    /// Tokens newly accrued to each staked gem when accounting moves from
    /// `reward_last_updated_ts` up to `upper`; zero while nothing is staked.
    pub open spec fn spec_newly_accrued_per_gem(self, upper: int, farm_gems_staked: u64) -> int {
        if farm_gems_staked == 0 {
            0
        } else {
            (self.reward_rate * (upper - self.reward_last_updated_ts)) / farm_gems_staked as int
        }
    }

    /// Every checked step of `fund_reward` stays within `u64`.
    pub open spec fn spec_fund_fits(
        times: TimeTracker,
        funds: FundsTracker,
        now_ts: u64,
        config: VariableRateConfig,
    ) -> bool {
        let new_end = vstd::math::max(times.reward_end_ts as int, now_ts as int)
            + config.duration_sec;
        &&& new_end <= u64::MAX
        &&& (now_ts < times.reward_end_ts ==> times.duration_sec + config.duration_sec
            <= u64::MAX)
        &&& funds.spec_pending() + config.amount <= u64::MAX
        &&& new_end - now_ts > 0
        &&& funds.total_funded + config.amount <= u64::MAX
    }

    /// Funds the stream with `config.amount` more tokens over
    /// `config.duration_sec` more seconds.
    ///
    /// A stream that already ended is restarted at `now_ts` for exactly the
    /// new duration; a still-running stream keeps its begin timestamp and is
    /// extended. Either way the new rate spreads the leftover pending plus
    /// the new amount evenly over the seconds from `now_ts` to the new end.
    /// Commits only on success.
    pub fn fund_reward(
        &mut self,
        now_ts: u64,
        times: &mut TimeTracker,
        funds: &mut FundsTracker,
        config: VariableRateConfig,
    ) -> (r: Result<(), ErrorCode>)
        requires
            old(times).wf(),
            old(funds).wf(),
        ensures
            r is Ok <==> Self::spec_fund_fits(*old(times), *old(funds), now_ts, config),
            r is Ok ==> ({
                let new_end = vstd::math::max(old(times).reward_end_ts as int, now_ts as int)
                    + config.duration_sec;
                &&& final(times).reward_end_ts == new_end
                &&& final(times).duration_sec == if now_ts >= old(times).reward_end_ts {
                    config.duration_sec as int
                } else {
                    old(times).duration_sec + config.duration_sec
                }
                &&& final(times).lock_end_ts == old(times).lock_end_ts
                &&& final(times).wf()
                &&& final(funds).total_funded == old(funds).total_funded + config.amount
                &&& final(funds).total_refunded == old(funds).total_refunded
                &&& final(funds).total_accrued_to_stakers == old(
                    funds,
                ).total_accrued_to_stakers
                &&& final(self).reward_rate == (old(funds).spec_pending() + config.amount) / (
                new_end - now_ts)
                &&& final(self).reward_last_updated_ts == now_ts
                &&& final(self).accrued_reward_per_gem == old(self).accrued_reward_per_gem
                &&& final(self).wf(*final(times), *final(funds))
            }),
            r is Err ==> r == Err::<(), ErrorCode>(ErrorCode::ArithmeticError) && *final(self)
                == *old(self) && *final(times) == *old(times) && *final(funds) == *old(funds),
    {
        let pending = match funds.pending_amount() {
            Ok(v) => v,
            Err(e) => {
                return Err(e);
            },
        };
        let new_end: u64;
        let new_duration: u64;
        if now_ts >= times.reward_end_ts {
            new_end = match now_ts.try_add(config.duration_sec) {
                Ok(v) => v,
                Err(e) => {
                    return Err(e);
                },
            };
            new_duration = config.duration_sec;
        } else {
            new_end = match times.reward_end_ts.try_add(config.duration_sec) {
                Ok(v) => v,
                Err(e) => {
                    return Err(e);
                },
            };
            new_duration = match times.duration_sec.try_add(config.duration_sec) {
                Ok(v) => v,
                Err(e) => {
                    return Err(e);
                },
            };
        }
        let total = match pending.try_add(config.amount) {
            Ok(v) => v,
            Err(e) => {
                return Err(e);
            },
        };
        let new_remaining = new_end - now_ts;
        let rate = match total.try_floor_div(new_remaining) {
            Ok(v) => v,
            Err(e) => {
                return Err(e);
            },
        };
        let new_funded = match funds.total_funded.try_add(config.amount) {
            Ok(v) => v,
            Err(e) => {
                return Err(e);
            },
        };
        proof {
            lemma_fundamental_div_mod(total as int, new_remaining as int);
            assert((new_remaining as int) * ((total as int) / (new_remaining as int)) <= total)
                by (nonlinear_arith)
                requires
                    new_remaining >= 1,
                    total >= 0,
            ;
            assert(rate * (new_end - now_ts) <= total) by (nonlinear_arith)
                requires
                    rate == (total as int) / (new_remaining as int),
                    new_remaining == new_end - now_ts,
                    (new_remaining as int) * ((total as int) / (new_remaining as int)) <= total,
            ;
        }
        self.reward_rate = rate;
        self.reward_last_updated_ts = now_ts;
        times.duration_sec = new_duration;
        times.reward_end_ts = new_end;
        funds.total_funded = new_funded;
        Ok(())
    }

    /// Cancels the stream at `now_ts`: the pending amount is refunded in
    /// full and the reward is ended. The caller must have brought accounting
    /// up to `now_ts` first (every entry point updates rewards before it
    /// mutates), so no accrual is lost. Returns the refunded amount; commits
    /// only on success.
    pub fn cancel_reward(
        &mut self,
        now_ts: u64,
        times: &mut TimeTracker,
        funds: &mut FundsTracker,
    ) -> (r: Result<u64, ErrorCode>)
        requires
            old(times).wf(),
            old(funds).wf(),
            old(self).reward_last_updated_ts == old(times).spec_reward_upper_bound(now_ts),
        ensures
            r is Ok <==> old(times).spec_remaining_duration(now_ts) <= old(times).duration_sec,
            r is Ok ==> ({
                &&& r == Ok::<u64, ErrorCode>(old(funds).spec_pending() as u64)
                &&& *final(times) == old(times).spec_ended(now_ts)
                &&& final(times).wf()
                &&& final(funds).total_funded == old(funds).total_funded
                &&& final(funds).total_refunded == old(funds).total_refunded + old(
                    funds,
                ).spec_pending()
                &&& final(funds).total_accrued_to_stakers == old(
                    funds,
                ).total_accrued_to_stakers
                &&& final(funds).spec_pending() == 0
                &&& final(self).reward_last_updated_ts == now_ts
                &&& final(self).reward_rate == old(self).reward_rate
                &&& final(self).accrued_reward_per_gem == old(self).accrued_reward_per_gem
                &&& final(self).wf(*final(times), *final(funds))
            }),
            r is Err ==> r == Err::<u64, ErrorCode>(ErrorCode::ArithmeticError) && *final(self)
                == *old(self) && *final(times) == *old(times) && *final(funds) == *old(funds),
    {
        let refund = match funds.pending_amount() {
            Ok(v) => v,
            Err(e) => {
                return Err(e);
            },
        };
        let new_refunded = match funds.total_refunded.try_add(refund) {
            Ok(v) => v,
            Err(e) => {
                return Err(e);
            },
        };
        match times.end_reward(now_ts) {
            Ok(()) => {},
            Err(e) => {
                return Err(e);
            },
        };
        funds.total_refunded = new_refunded;
        self.reward_last_updated_ts = now_ts;
        proof {
            assert(self.reward_rate * (times.reward_end_ts - self.reward_last_updated_ts) == 0)
                by (nonlinear_arith)
                requires
                    times.reward_end_ts == self.reward_last_updated_ts,
            ;
        }
        Ok(refund)
    }

    /// Moves the farm-wide accounting up to `now_ts` (clamped to the end of
    /// the reward): the per-gem accumulator grows by `rate * elapsed /
    /// gems_staked` and the accrued counter books that much for every staked
    /// gem. While nothing is staked the window passes without accrual and
    /// the tokens stay pending. Updating twice at one timestamp is a no-op.
    /// Commits only on success.
    pub fn update_accrued_reward(
        &mut self,
        now_ts: u64,
        times: &TimeTracker,
        funds: &mut FundsTracker,
        farm_gems_staked: u64,
    ) -> (r: Result<(), ErrorCode>)
        requires
            times.wf(),
            old(self).wf(*times, *old(funds)),
        ensures
            r is Ok <==> now_ts >= old(self).reward_last_updated_ts && old(
                self,
            ).accrued_reward_per_gem + old(self).spec_newly_accrued_per_gem(
                times.spec_reward_upper_bound(now_ts),
                farm_gems_staked,
            ) <= u64::MAX,
            r is Ok ==> ({
                let upper = times.spec_reward_upper_bound(now_ts);
                let newly = old(self).spec_newly_accrued_per_gem(upper, farm_gems_staked);
                &&& final(self).accrued_reward_per_gem == old(self).accrued_reward_per_gem
                    + newly
                &&& final(self).reward_last_updated_ts == upper
                &&& final(self).reward_rate == old(self).reward_rate
                &&& final(funds).total_funded == old(funds).total_funded
                &&& final(funds).total_refunded == old(funds).total_refunded
                &&& final(funds).total_accrued_to_stakers == old(
                    funds,
                ).total_accrued_to_stakers + newly * farm_gems_staked
                &&& final(self).wf(*times, *final(funds))
            }),
            r is Err ==> r == Err::<(), ErrorCode>(ErrorCode::ArithmeticError) && *final(self)
                == *old(self) && *final(funds) == *old(funds),
            old(self).reward_last_updated_ts == times.spec_reward_upper_bound(now_ts) ==> r is Ok
                && *final(self) == *old(self) && *final(funds) == *old(funds),
    {
        let ghost rate = self.reward_rate as int;
        let ghost last = self.reward_last_updated_ts as int;
        let ghost end = times.reward_end_ts as int;
        let upper = times.reward_upper_bound(now_ts);
        let time_since = match upper.try_sub(self.reward_last_updated_ts) {
            Ok(v) => v,
            Err(e) => {
                return Err(e);
            },
        };
        proof {
            assert(0 <= time_since * rate <= rate * (end - last) && rate * (end - upper) + rate
                * time_since == rate * (end - last)) by (nonlinear_arith)
                requires
                    rate >= 0,
                    0 <= time_since,
                    time_since == upper - last,
                    upper <= end,
            ;
        }
        let newly_per_gem: u64;
        if farm_gems_staked == 0 {
            newly_per_gem = 0;
        } else {
            let raw = match time_since.try_mul(self.reward_rate) {
                Ok(v) => v,
                Err(e) => {
                    return Err(e);
                },
            };
            proof {
                lemma_fundamental_div_mod(raw as int, farm_gems_staked as int);
                assert(0 <= (raw as int) % (farm_gems_staked as int)) by (nonlinear_arith)
                    requires
                        farm_gems_staked >= 1,
                ;
                assert({
                    let q = (raw as int) / (farm_gems_staked as int);
                    0 <= q && q * (farm_gems_staked as int) <= raw
                }) by (nonlinear_arith)
                    requires
                        farm_gems_staked >= 1,
                        raw >= 0,
                        raw == (farm_gems_staked as int) * ((raw as int) / (
                        farm_gems_staked as int)) + (raw as int) % (farm_gems_staked as int),
                        0 <= (raw as int) % (farm_gems_staked as int),
                ;
            }
            newly_per_gem = match raw.try_floor_div(farm_gems_staked) {
                Ok(v) => v,
                Err(e) => {
                    return Err(e);
                },
            };
        }
        proof {
            assert(newly_per_gem * farm_gems_staked <= time_since * rate && newly_per_gem
                == self.spec_newly_accrued_per_gem(upper as int, farm_gems_staked))
                by (nonlinear_arith)
                requires
                    farm_gems_staked == 0 ==> newly_per_gem == 0
                        && self.spec_newly_accrued_per_gem(upper as int, farm_gems_staked) == 0,
                    farm_gems_staked >= 1 ==> newly_per_gem == (time_since * rate) / (
                    farm_gems_staked as int) && newly_per_gem * (farm_gems_staked as int)
                        <= time_since * rate && self.spec_newly_accrued_per_gem(
                        upper as int,
                        farm_gems_staked,
                    ) == (rate * (upper - last)) / (farm_gems_staked as int),
                    time_since == upper - last,
                    0 <= time_since * rate,
            ;
        }
        let new_apg = match self.accrued_reward_per_gem.try_add(newly_per_gem) {
            Ok(v) => v,
            Err(e) => {
                return Err(e);
            },
        };
        let to_stakers = match newly_per_gem.try_mul(farm_gems_staked) {
            Ok(v) => v,
            Err(e) => {
                return Err(e);
            },
        };
        let new_accrued = match funds.total_accrued_to_stakers.try_add(to_stakers) {
            Ok(v) => v,
            Err(e) => {
                return Err(e);
            },
        };
        self.accrued_reward_per_gem = new_apg;
        self.reward_last_updated_ts = upper;
        funds.total_accrued_to_stakers = new_accrued;
        Ok(())
    }

    /// Moves the farm-wide accounting up to `now_ts` as
    /// [`Self::update_accrued_reward`] does, and also settles the supplied
    /// farmer: the farmer is owed their stake times however far the per-gem
    /// accumulator ran ahead of the value they were last paid up to.
    /// Conservation is preserved: the farmer's booked and outstanding claim
    /// never outruns what the pool accrued for all stakers. Commits only on
    /// success.
    pub fn update_accrued_reward_for_farmer(
        &mut self,
        now_ts: u64,
        times: &TimeTracker,
        funds: &mut FundsTracker,
        farm_gems_staked: u64,
        farmer_gems_staked: u64,
        farmer_reward: &mut FarmerReward,
    ) -> (r: Result<(), ErrorCode>)
        requires
            times.wf(),
            old(self).wf(*times, *old(funds)),
            old(farmer_reward).tracker is Variable,
            farmer_gems_staked <= farm_gems_staked,
            spec_variable_conserved(
                *old(self),
                *old(funds),
                *old(farmer_reward),
                farmer_gems_staked,
            ),
        ensures
            ({
                let upper = times.spec_reward_upper_bound(now_ts);
                let newly = old(self).spec_newly_accrued_per_gem(upper, farm_gems_staked);
                let new_apg = old(self).accrued_reward_per_gem + newly;
                let delta = new_apg - old(
                    farmer_reward,
                ).tracker->Variable_0.last_recorded_accrued_reward_per_gem;
                &&& (r is Ok <==> now_ts >= old(self).reward_last_updated_ts && new_apg
                    <= u64::MAX && farmer_gems_staked * delta <= u64::MAX && old(
                    farmer_reward,
                ).accrued_reward + farmer_gems_staked * delta <= u64::MAX)
                &&& (r is Ok ==> ({
                    &&& final(self).accrued_reward_per_gem == new_apg
                    &&& final(self).reward_last_updated_ts == upper
                    &&& final(self).reward_rate == old(self).reward_rate
                    &&& final(funds).total_funded == old(funds).total_funded
                    &&& final(funds).total_refunded == old(funds).total_refunded
                    &&& final(funds).total_accrued_to_stakers == old(
                        funds,
                    ).total_accrued_to_stakers + newly * farm_gems_staked
                    &&& final(farmer_reward).accrued_reward == old(farmer_reward).accrued_reward
                        + farmer_gems_staked * delta
                    &&& final(farmer_reward).paid_out_to_date == old(
                        farmer_reward,
                    ).paid_out_to_date
                    &&& final(farmer_reward).tracker == FarmerRewardTracker::Variable(
                        VariableRateFarmerTracker {
                            last_recorded_accrued_reward_per_gem: new_apg as u64,
                        },
                    )
                    &&& final(self).wf(*times, *final(funds))
                    &&& spec_variable_conserved(
                        *final(self),
                        *final(funds),
                        *final(farmer_reward),
                        farmer_gems_staked,
                    )
                }))
                &&& (r is Err ==> r == Err::<(), ErrorCode>(ErrorCode::ArithmeticError)
                    && *final(self) == *old(self) && *final(funds) == *old(funds) && *final(farmer_reward) == *old(farmer_reward))
                &&& (old(self).reward_last_updated_ts == upper && old(
                    farmer_reward,
                ).tracker->Variable_0.last_recorded_accrued_reward_per_gem == old(
                    self,
                ).accrued_reward_per_gem ==> r is Ok && *final(self) == *old(self)
                    && *final(funds) == *old(funds) && *final(farmer_reward)
                    == *old(farmer_reward))
            }),
    {
        let ghost rate = self.reward_rate as int;
        let ghost last = self.reward_last_updated_ts as int;
        let ghost end = times.reward_end_ts as int;
        let upper = times.reward_upper_bound(now_ts);
        let time_since = match upper.try_sub(self.reward_last_updated_ts) {
            Ok(v) => v,
            Err(e) => {
                return Err(e);
            },
        };
        proof {
            assert(0 <= time_since * rate <= rate * (end - last) && rate * (end - upper) + rate
                * time_since == rate * (end - last)) by (nonlinear_arith)
                requires
                    rate >= 0,
                    0 <= time_since,
                    time_since == upper - last,
                    upper <= end,
            ;
        }
        let newly_per_gem: u64;
        if farm_gems_staked == 0 {
            newly_per_gem = 0;
        } else {
            let raw = match time_since.try_mul(self.reward_rate) {
                Ok(v) => v,
                Err(e) => {
                    return Err(e);
                },
            };
            proof {
                lemma_fundamental_div_mod(raw as int, farm_gems_staked as int);
                assert(0 <= (raw as int) % (farm_gems_staked as int)) by (nonlinear_arith)
                    requires
                        farm_gems_staked >= 1,
                ;
                assert({
                    let q = (raw as int) / (farm_gems_staked as int);
                    0 <= q && q * (farm_gems_staked as int) <= raw
                }) by (nonlinear_arith)
                    requires
                        farm_gems_staked >= 1,
                        raw >= 0,
                        raw == (farm_gems_staked as int) * ((raw as int) / (
                        farm_gems_staked as int)) + (raw as int) % (farm_gems_staked as int),
                        0 <= (raw as int) % (farm_gems_staked as int),
                ;
            }
            newly_per_gem = match raw.try_floor_div(farm_gems_staked) {
                Ok(v) => v,
                Err(e) => {
                    return Err(e);
                },
            };
        }
        proof {
            assert(newly_per_gem * farm_gems_staked <= time_since * rate && newly_per_gem
                == self.spec_newly_accrued_per_gem(upper as int, farm_gems_staked))
                by (nonlinear_arith)
                requires
                    farm_gems_staked == 0 ==> newly_per_gem == 0
                        && self.spec_newly_accrued_per_gem(upper as int, farm_gems_staked) == 0,
                    farm_gems_staked >= 1 ==> newly_per_gem == (time_since * rate) / (
                    farm_gems_staked as int) && newly_per_gem * (farm_gems_staked as int)
                        <= time_since * rate && self.spec_newly_accrued_per_gem(
                        upper as int,
                        farm_gems_staked,
                    ) == (rate * (upper - last)) / (farm_gems_staked as int),
                    time_since == upper - last,
                    0 <= time_since * rate,
            ;
        }
        let new_apg = match self.accrued_reward_per_gem.try_add(newly_per_gem) {
            Ok(v) => v,
            Err(e) => {
                return Err(e);
            },
        };
        let to_stakers = match newly_per_gem.try_mul(farm_gems_staked) {
            Ok(v) => v,
            Err(e) => {
                return Err(e);
            },
        };
        let new_accrued = match funds.total_accrued_to_stakers.try_add(to_stakers) {
            Ok(v) => v,
            Err(e) => {
                return Err(e);
            },
        };
        let last_recorded: u64;
        match &farmer_reward.tracker {
            FarmerRewardTracker::Variable(t) => {
                last_recorded = t.last_recorded_accrued_reward_per_gem;
            },
            FarmerRewardTracker::Fixed(_) => {
                proof {
                    assert(false);
                }
                return Err(ErrorCode::ArithmeticError);
            },
        }
        let delta = new_apg - last_recorded;
        let newly_to_farmer = match farmer_gems_staked.try_mul(delta) {
            Ok(v) => v,
            Err(e) => {
                return Err(e);
            },
        };
        let new_farmer_accrued = match farmer_reward.accrued_reward.try_add(newly_to_farmer) {
            Ok(v) => v,
            Err(e) => {
                return Err(e);
            },
        };
        proof {
            assert(farmer_gems_staked * (new_apg - last_recorded) <= farmer_gems_staked * (
            self.accrued_reward_per_gem - last_recorded) + farm_gems_staked * newly_per_gem)
                by (nonlinear_arith)
                requires
                    farmer_gems_staked <= farm_gems_staked,
                    0 <= farmer_gems_staked,
                    last_recorded <= self.accrued_reward_per_gem,
                    new_apg == self.accrued_reward_per_gem + newly_per_gem,
                    0 <= newly_per_gem,
            ;
            assert(newly_per_gem * farm_gems_staked == farm_gems_staked * newly_per_gem)
                by (nonlinear_arith);
            assert(farmer_gems_staked * ((new_apg as int) - (new_apg as int)) == 0)
                by (nonlinear_arith);
            if time_since == 0 {
                assert(rate * (upper - last) == 0) by (nonlinear_arith)
                    requires
                        upper == last,
                ;
                vstd::arithmetic::div_mod::lemma_div_basics(farm_gems_staked as int);
            }
            if delta == 0 {
                assert(farmer_gems_staked * (delta as int) == 0) by (nonlinear_arith)
                    requires
                        delta == 0,
                ;
            }
        }
        self.accrued_reward_per_gem = new_apg;
        self.reward_last_updated_ts = upper;
        funds.total_accrued_to_stakers = new_accrued;
        farmer_reward.accrued_reward = new_farmer_accrued;
        farmer_reward.tracker = FarmerRewardTracker::Variable(
            VariableRateFarmerTracker { last_recorded_accrued_reward_per_gem: new_apg },
        );
        Ok(())
    }
}

/// When time has not run backwards past the accounting mark, nothing
/// negative ever accrues.
pub proof fn lemma_newly_accrued_per_gem_nonneg(
    vr: VariableRateReward,
    upper: int,
    farm_gems_staked: u64,
)
    requires
        upper >= vr.reward_last_updated_ts,
    ensures
        vr.spec_newly_accrued_per_gem(upper, farm_gems_staked) >= 0,
{
    if farm_gems_staked != 0 {
        assert(vr.reward_rate * (upper - vr.reward_last_updated_ts) >= 0) by (nonlinear_arith)
            requires
                vr.reward_rate >= 0,
                upper >= vr.reward_last_updated_ts,
        ;
        vstd::arithmetic::div_mod::lemma_div_pos_is_pos(
            vr.reward_rate * (upper - vr.reward_last_updated_ts),
            farm_gems_staked as int,
        );
    }
}

/// One farmer's claim on a variable-rate stream, booked plus outstanding,
/// never outruns what the pool has accrued for all stakers.
pub open spec fn spec_variable_conserved(
    vr: VariableRateReward,
    funds: FundsTracker,
    farmer: FarmerReward,
    farmer_gems: u64,
) -> bool {
    &&& farmer.tracker is Variable
    &&& farmer.tracker->Variable_0.last_recorded_accrued_reward_per_gem
        <= vr.accrued_reward_per_gem
    &&& farmer.accrued_reward + farmer.paid_out_to_date + farmer_gems * (
    vr.accrued_reward_per_gem
        - farmer.tracker->Variable_0.last_recorded_accrued_reward_per_gem)
        <= funds.total_accrued_to_stakers
}

/// Conservation for one farmer of a variable-rate stream: what the farmer
/// was ever paid plus what still awaits payout stays within the pool's
/// accrued total.
pub proof fn lemma_variable_conservation(
    vr: VariableRateReward,
    funds: FundsTracker,
    farmer: FarmerReward,
    farmer_gems: u64,
)
    requires
        spec_variable_conserved(vr, funds, farmer, farmer_gems),
    ensures
        farmer.accrued_reward + farmer.paid_out_to_date <= funds.total_accrued_to_stakers,
{
    assert(farmer_gems * (vr.accrued_reward_per_gem
        - farmer.tracker->Variable_0.last_recorded_accrued_reward_per_gem) >= 0)
        by (nonlinear_arith)
        requires
            farmer_gems >= 0,
            vr.accrued_reward_per_gem
                >= farmer.tracker->Variable_0.last_recorded_accrued_reward_per_gem,
    ;
}

} // verus!
