//! The fixed-rate reward: a guaranteed per-gem schedule, locked per farmer
//! at enrollment.
//!
//! The schedule is a piecewise-constant rate table over *tenure* (seconds
//! since the farmer's schedule began). At enrollment the farmer receives a
//! copy of the current table and the farm reserves the farmer's whole
//! promised payout out of the pending funds; later fundings replace the
//! farm's table without touching what enrolled farmers were promised.

use vstd::prelude::*;
use vstd::arithmetic::mul::lemma_mul_is_distributive_add_other_way;

use crate::error::ErrorCode;
use crate::farmer::{FarmerReward, FarmerRewardTracker};
use crate::funds_tracker::FundsTracker;
use crate::time_tracker::TimeTracker;
use crate::try_math::{TryAdd, TryMul};

verus! {

/// One tier of a fixed-rate schedule: from `required_tenure` seconds of
/// staking onward, every gem earns `reward_rate` tokens per second (until
/// the next tier takes over).
#[derive(Clone, Copy, Debug, PartialEq, Eq, Structural)]
pub struct TierConfig {
    /// Tokens per gem per second while this tier applies.
    pub reward_rate: u64,
    /// Tenure, in seconds, at which this tier starts to apply.
    pub required_tenure: u64,
}

/// A piecewise-constant rate table over tenure.
#[derive(Clone, Debug)]
pub struct FixedRateSchedule {
    pub tiers: Vec<TierConfig>,
}

/// One funding of a fixed-rate reward.
#[derive(Clone, Debug)]
pub struct FixedRateConfig {
    /// The rate table that applies to farmers enrolled from now on.
    pub schedule: FixedRateSchedule,
    /// Tokens to add to the pool.
    pub amount: u64,
    /// Seconds to add to the reward's duration.
    pub duration_sec: u64,
}

/// Farm-side state of a fixed-rate reward.
#[derive(Clone, Debug)]
pub struct FixedRateReward {
    /// The rate table for new enrollments.
    pub schedule: FixedRateSchedule,
    /// Tokens of the pending pool already promised to enrolled farmers.
    pub reserved_amount: u64,
}

/// Farmer-side state of a fixed-rate reward: the schedule copy taken at
/// enrollment and how far it has been paid.
#[derive(Clone, Debug)]
pub struct FixedRateFarmerTracker {
    /// When this farmer's staking originally began (kept across
    /// re-enrollments).
    pub begin_staking_ts: u64,
    /// When the promised schedule began to run.
    pub begin_schedule_ts: u64,
    /// The timestamp this farmer's accrual has been brought up to.
    pub last_updated_ts: u64,
    /// The schedule copied at enrollment; later fundings do not touch it.
    pub promised_schedule: FixedRateSchedule,
    /// Seconds of schedule promised to this farmer.
    pub promised_duration: u64,
}

/// Tokens one gem earns over the tenure window `[a, b)` from the tiers
/// `i, i + 1, ...` of the table: each tier contributes its rate times the
/// overlap of the window with the span it governs.
pub open spec fn spec_payout_from(tiers: Seq<TierConfig>, i: int, a: int, b: int) -> int
    decreases tiers.len() - i,
{
    if i < 0 || i >= tiers.len() {
        0
    } else {
        let s = tiers[i].required_tenure as int;
        let e = if i + 1 < tiers.len() {
            vstd::math::min(b, tiers[i + 1].required_tenure as int)
        } else {
            b
        };
        let lo = vstd::math::max(a, s);
        let seg = if e > lo {
            e - lo
        } else {
            0
        };
        tiers[i].reward_rate * seg + spec_payout_from(tiers, i + 1, a, b)
    }
}

/// No tier ever contributes a negative amount.
pub proof fn lemma_payout_from_nonneg(tiers: Seq<TierConfig>, i: int, a: int, b: int)
    ensures
        spec_payout_from(tiers, i, a, b) >= 0,
    decreases tiers.len() - i,
{
    if 0 <= i < tiers.len() {
        lemma_payout_from_nonneg(tiers, i + 1, a, b);
        let s = tiers[i].required_tenure as int;
        let e = if i + 1 < tiers.len() {
            vstd::math::min(b, tiers[i + 1].required_tenure as int)
        } else {
            b
        };
        let lo = vstd::math::max(a, s);
        let seg = if e > lo {
            e - lo
        } else {
            0
        };
        assert(tiers[i].reward_rate * seg >= 0) by (nonlinear_arith)
            requires
                tiers[i].reward_rate >= 0,
                seg >= 0,
        ;
    }
}

/// Splitting a tenure window splits the payout: earning over `[a, m)` and
/// then over `[m, b)` earns exactly the payout over `[a, b)`.
pub proof fn lemma_payout_from_additive(tiers: Seq<TierConfig>, i: int, a: int, m: int, b: int)
    requires
        a <= m <= b,
    ensures
        spec_payout_from(tiers, i, a, m) + spec_payout_from(tiers, i, m, b) == spec_payout_from(
            tiers,
            i,
            a,
            b,
        ),
    decreases tiers.len() - i,
{
    if 0 <= i < tiers.len() {
        lemma_payout_from_additive(tiers, i + 1, a, m, b);
        let s = tiers[i].required_tenure as int;
        let rate = tiers[i].reward_rate as int;
        let e_am = if i + 1 < tiers.len() {
            vstd::math::min(m, tiers[i + 1].required_tenure as int)
        } else {
            m
        };
        let e_mb = if i + 1 < tiers.len() {
            vstd::math::min(b, tiers[i + 1].required_tenure as int)
        } else {
            b
        };
        let lo_am = vstd::math::max(a, s);
        let lo_mb = vstd::math::max(m, s);
        let seg_am = if e_am > lo_am {
            e_am - lo_am
        } else {
            0
        };
        let seg_mb = if e_mb > lo_mb {
            e_mb - lo_mb
        } else {
            0
        };
        let seg_ab = if e_mb > lo_am {
            e_mb - lo_am
        } else {
            0
        };
        assert(seg_am + seg_mb == seg_ab);
        assert(spec_payout_from(tiers, i, a, m) == rate * seg_am + spec_payout_from(
            tiers,
            i + 1,
            a,
            m,
        ));
        assert(spec_payout_from(tiers, i, m, b) == rate * seg_mb + spec_payout_from(
            tiers,
            i + 1,
            m,
            b,
        ));
        assert(spec_payout_from(tiers, i, a, b) == rate * seg_ab + spec_payout_from(
            tiers,
            i + 1,
            a,
            b,
        ));
        assert(rate * seg_ab == rate * seg_am + rate * seg_mb) by (nonlinear_arith)
            requires
                seg_ab == seg_am + seg_mb,
        ;
    }
}

/// A window that ends where it begins (or earlier) pays nothing.
pub proof fn lemma_payout_from_empty(tiers: Seq<TierConfig>, i: int, a: int, b: int)
    requires
        b <= a,
    ensures
        spec_payout_from(tiers, i, a, b) == 0,
    decreases tiers.len() - i,
{
    if 0 <= i < tiers.len() {
        lemma_payout_from_empty(tiers, i + 1, a, b);
    }
}

impl FixedRateSchedule {
    /// The table starts at tenure zero and its tiers come in strictly
    /// increasing order of tenure.
    pub open spec fn wf(self) -> bool {
        &&& self.tiers@.len() >= 1
        &&& self.tiers@[0].required_tenure == 0
        &&& forall|i: int, j: int|
            0 <= i < j < self.tiers@.len() ==> self.tiers@[i].required_tenure < self.tiers@[
                j
            ].required_tenure
    }

    /// Tokens one gem earns over the tenure window `[a, b)`.
    pub open spec fn spec_payout_per_gem(self, a: int, b: int) -> int {
        spec_payout_from(self.tiers@, 0, a, b)
    }

    /// A copy of the table, tier for tier.
    pub fn duplicate(&self) -> (r: FixedRateSchedule)
        ensures
            r.tiers@ == self.tiers@,
    {
        let mut tiers: Vec<TierConfig> = Vec::new();
        let mut i: usize = 0;
        while i < self.tiers.len()
            invariant
                i <= self.tiers.len(),
                tiers@ == self.tiers@.take(i as int),
            decreases self.tiers.len() - i,
        {
            tiers.push(self.tiers[i]);
            proof {
                assert(tiers@ =~= self.tiers@.take(i + 1 as int));
            }
            i = i + 1;
        }
        proof {
            assert(tiers@ =~= self.tiers@);
        }
        FixedRateSchedule { tiers }
    }

    /// Tokens `gems` gems earn over the tenure window
    /// `[start_from, end_at)`, or an arithmetic error exactly when that
    /// amount does not fit in 64 bits.
    pub fn reward_amount(&self, start_from: u64, end_at: u64, gems: u64) -> (r: Result<
        u64,
        ErrorCode,
    >)
        requires
            start_from <= end_at,
        ensures
            ({
                let per_gem = self.spec_payout_per_gem(start_from as int, end_at as int);
                &&& (r is Ok <==> per_gem <= u64::MAX && per_gem * gems <= u64::MAX)
                &&& (r is Ok ==> r == Ok::<u64, ErrorCode>((per_gem * gems) as u64))
                &&& (r is Err ==> r == Err::<u64, ErrorCode>(ErrorCode::ArithmeticError))
            }),
    {
        let ghost a = start_from as int;
        let ghost b = end_at as int;
        let ghost total = self.spec_payout_per_gem(a, b);
        proof {
            lemma_payout_from_nonneg(self.tiers@, 0, a, b);
        }
        let mut acc: u64 = 0;
        let mut i: usize = 0;
        while i < self.tiers.len()
            invariant
                i <= self.tiers.len(),
                total == self.spec_payout_per_gem(a, b),
                a == start_from as int && b == end_at as int && start_from <= end_at,
                acc + spec_payout_from(self.tiers@, i as int, a, b) == total,
                total <= u64::MAX ==> acc <= total,
            decreases self.tiers.len() - i,
        {
            proof {
                lemma_payout_from_nonneg(self.tiers@, i + 1, a, b);
            }
            let tier_start = self.tiers[i].required_tenure;
            let lo = if start_from >= tier_start {
                start_from
            } else {
                tier_start
            };
            let hi = if i + 1 < self.tiers.len() {
                let next_start = self.tiers[i + 1].required_tenure;
                if end_at <= next_start {
                    end_at
                } else {
                    next_start
                }
            } else {
                end_at
            };
            if hi > lo {
                let seg = hi - lo;
                let term = match self.tiers[i].reward_rate.try_mul(seg) {
                    Ok(v) => v,
                    Err(e) => {
                        return Err(e);
                    },
                };
                acc = match acc.try_add(term) {
                    Ok(v) => v,
                    Err(e) => {
                        return Err(e);
                    },
                };
            } else {
                proof {
                    assert(self.tiers@[i as int].reward_rate * 0 == 0) by (nonlinear_arith);
                }
            }
            i = i + 1;
        }
        acc.try_mul(gems)
    }
}

impl FixedRateFarmerTracker {
    /// The paid-up mark sits inside the promised window, and the window's
    /// end fits in 64 bits.
    pub open spec fn wf(self) -> bool {
        &&& self.begin_schedule_ts <= self.last_updated_ts
        &&& self.last_updated_ts <= self.begin_schedule_ts + self.promised_duration
        &&& self.begin_schedule_ts + self.promised_duration <= u64::MAX
    }

    /// When the promised schedule window closes.
    pub open spec fn spec_schedule_end(self) -> int {
        self.begin_schedule_ts + self.promised_duration
    }

    /// Tokens still promised to this farmer for the rest of the window.
    pub open spec fn spec_remaining_promised(self, gems: u64) -> int {
        self.promised_schedule.spec_payout_per_gem(
            self.last_updated_ts - self.begin_schedule_ts,
            self.promised_duration as int,
        ) * gems
    }

    /// Tokens newly owed when accrual moves from the paid-up mark to
    /// `now_ts` (clamped to the end of the window).
    pub open spec fn spec_newly_promised(self, now_ts: u64, gems: u64) -> int {
        let cap = vstd::math::min(now_ts as int, self.spec_schedule_end());
        if cap > self.last_updated_ts {
            self.promised_schedule.spec_payout_per_gem(
                self.last_updated_ts - self.begin_schedule_ts,
                cap - self.begin_schedule_ts,
            ) * gems
        } else {
            0
        }
    }
}

impl FixedRateReward {
    /// The promised payouts of enrolled farmers are covered by the pending
    /// funds, and the rate table is well formed.
    pub open spec fn wf(self, funds: FundsTracker) -> bool {
        &&& funds.wf()
        &&& self.schedule.wf()
        &&& self.reserved_amount <= funds.spec_pending()
    }

    /// Funds the reward with `config.amount` more tokens and
    /// `config.duration_sec` more seconds, replacing the rate table for
    /// *future* enrollments; farmers enrolled earlier keep their copies. The
    /// amount must at least cover one gem staked for the whole added
    /// duration, else the funding is rejected as underfunded. Commits only
    /// on success.
    pub fn fund_reward(
        &mut self,
        now_ts: u64,
        times: &mut TimeTracker,
        funds: &mut FundsTracker,
        config: FixedRateConfig,
    ) -> (r: Result<(), ErrorCode>)
        requires
            old(times).wf(),
            old(self).wf(*old(funds)),
            config.schedule.wf(),
        ensures
            ({
                let req = config.schedule.spec_payout_per_gem(0, config.duration_sec as int);
                &&& (r is Ok <==> req <= config.amount && old(times).duration_sec
                    + config.duration_sec <= u64::MAX && old(times).reward_end_ts
                    + config.duration_sec <= u64::MAX && old(funds).total_funded + config.amount
                    <= u64::MAX)
                &&& (req > u64::MAX ==> r == Err::<(), ErrorCode>(ErrorCode::ArithmeticError))
                &&& (req <= u64::MAX && req > config.amount ==> r == Err::<(), ErrorCode>(
                    ErrorCode::RewardUnderfunded,
                ))
                &&& (r is Ok ==> ({
                    &&& final(self).schedule.tiers@ == config.schedule.tiers@
                    &&& final(self).reserved_amount == old(self).reserved_amount
                    &&& final(times).duration_sec == old(times).duration_sec
                        + config.duration_sec
                    &&& final(times).reward_end_ts == old(times).reward_end_ts
                        + config.duration_sec
                    &&& final(times).lock_end_ts == old(times).lock_end_ts
                    &&& final(times).wf()
                    &&& final(funds).total_funded == old(funds).total_funded + config.amount
                    &&& final(funds).total_refunded == old(funds).total_refunded
                    &&& final(funds).total_accrued_to_stakers == old(
                        funds,
                    ).total_accrued_to_stakers
                    &&& final(self).wf(*final(funds))
                }))
                &&& (r is Err ==> *final(self) == *old(self) && *final(times) == *old(times)
                    && *final(funds) == *old(funds) && (r == Err::<(), ErrorCode>(
                    ErrorCode::ArithmeticError,
                ) || r == Err::<(), ErrorCode>(ErrorCode::RewardUnderfunded)))
            }),
    {
        proof {
            lemma_payout_from_nonneg(config.schedule.tiers@, 0, 0, config.duration_sec as int);
        }
        let required = match config.schedule.reward_amount(0, config.duration_sec, 1) {
            Ok(v) => v,
            Err(e) => {
                return Err(e);
            },
        };
        if required > config.amount {
            return Err(ErrorCode::RewardUnderfunded);
        }
        let new_duration = match times.duration_sec.try_add(config.duration_sec) {
            Ok(v) => v,
            Err(e) => {
                return Err(e);
            },
        };
        let new_end = match times.reward_end_ts.try_add(config.duration_sec) {
            Ok(v) => v,
            Err(e) => {
                return Err(e);
            },
        };
        let new_funded = match funds.total_funded.try_add(config.amount) {
            Ok(v) => v,
            Err(e) => {
                return Err(e);
            },
        };
        self.schedule = config.schedule;
        times.duration_sec = new_duration;
        times.reward_end_ts = new_end;
        funds.total_funded = new_funded;
        Ok(())
    }

    /// Enrolls a farmer: the current rate table is copied into the farmer's
    /// tracker, the window runs for whatever remains of the reward, and the
    /// farmer's whole promised payout is reserved out of the pending funds.
    /// Rejected as underfunded when the unreserved pending funds cannot
    /// cover the promise. `original_begin_staking_ts` carries the original
    /// staking start across a re-enrollment. Commits only on success.
    pub fn enroll_farmer(
        &mut self,
        now_ts: u64,
        times: &TimeTracker,
        funds: &FundsTracker,
        farmer_gems_staked: u64,
        farmer_reward: &mut FarmerReward,
        original_begin_staking_ts: Option<u64>,
    ) -> (r: Result<(), ErrorCode>)
        requires
            old(self).wf(*funds),
        ensures
            ({
                let remaining = times.spec_remaining_duration(now_ts);
                let per_gem = old(self).schedule.spec_payout_per_gem(0, remaining);
                let reserve = per_gem * farmer_gems_staked;
                &&& (r is Ok <==> per_gem <= u64::MAX && reserve <= u64::MAX && reserve
                    <= funds.spec_pending() - old(self).reserved_amount)
                &&& (per_gem <= u64::MAX && reserve <= u64::MAX && reserve > funds.spec_pending()
                    - old(self).reserved_amount ==> r == Err::<(), ErrorCode>(
                    ErrorCode::RewardUnderfunded,
                ))
                &&& (per_gem > u64::MAX || reserve > u64::MAX ==> r == Err::<(), ErrorCode>(
                    ErrorCode::ArithmeticError,
                ))
                &&& (r is Ok ==> ({
                    &&& final(self).reserved_amount == old(self).reserved_amount + reserve
                    &&& final(self).schedule.tiers@ == old(self).schedule.tiers@
                    &&& final(farmer_reward).paid_out_to_date == old(
                        farmer_reward,
                    ).paid_out_to_date
                    &&& final(farmer_reward).accrued_reward == old(farmer_reward).accrued_reward
                    &&& final(farmer_reward).tracker matches FarmerRewardTracker::Fixed(t) && ({
                        &&& t.begin_staking_ts == (match original_begin_staking_ts {
                            Some(ts) => ts,
                            None => now_ts,
                        })
                        &&& t.begin_schedule_ts == now_ts
                        &&& t.last_updated_ts == now_ts
                        &&& t.promised_schedule.tiers@ == old(self).schedule.tiers@
                        &&& t.promised_duration == remaining
                        &&& t.wf()
                        &&& t.spec_remaining_promised(farmer_gems_staked) <= final(self).reserved_amount
                    })
                    &&& final(self).wf(*funds)
                }))
                &&& (r is Err ==> *final(self) == *old(self) && *final(farmer_reward)
                    == *old(farmer_reward))
            }),
    {
        let remaining = match times.remaining_duration(now_ts) {
            Ok(v) => v,
            Err(e) => {
                return Err(e);
            },
        };
        proof {
            lemma_payout_from_nonneg(self.schedule.tiers@, 0, 0, remaining as int);
        }
        let reserve = match self.schedule.reward_amount(0, remaining, farmer_gems_staked) {
            Ok(v) => v,
            Err(e) => {
                return Err(e);
            },
        };
        let pending = match funds.pending_amount() {
            Ok(v) => v,
            Err(e) => {
                return Err(e);
            },
        };
        let available = pending - self.reserved_amount;
        if reserve > available {
            return Err(ErrorCode::RewardUnderfunded);
        }
        let begin_staking_ts = match original_begin_staking_ts {
            Some(ts) => ts,
            None => now_ts,
        };
        let promised_schedule = self.schedule.duplicate();
        self.reserved_amount = self.reserved_amount + reserve;
        farmer_reward.tracker = FarmerRewardTracker::Fixed(
            FixedRateFarmerTracker {
                begin_staking_ts,
                begin_schedule_ts: now_ts,
                last_updated_ts: now_ts,
                promised_schedule,
                promised_duration: remaining,
            },
        );
        Ok(())
    }

    /// Settles everything owed to the farmer up to `now_ts` (clamped to the
    /// farmer's schedule window): the owed tokens move from reserved to
    /// accrued, for the farmer and for the pool alike. When `reenroll` is
    /// set and the farmer's window has expired while gems are still staked,
    /// the farmer is re-enrolled on the farm's current table, keeping the
    /// original staking start. A settled farmer is left untouched. Commits
    /// only on success.
    pub fn update_accrued_reward(
        &mut self,
        now_ts: u64,
        times: &TimeTracker,
        funds: &mut FundsTracker,
        farmer_gems_staked: u64,
        farmer_reward: &mut FarmerReward,
        reenroll: bool,
    ) -> (r: Result<(), ErrorCode>)
        requires
            old(self).wf(*old(funds)),
            old(farmer_reward).tracker is Fixed,
            old(farmer_reward).tracker->Fixed_0.wf(),
            old(farmer_reward).tracker->Fixed_0.spec_remaining_promised(farmer_gems_staked) <= old(
                self,
            ).reserved_amount,
        ensures
            ({
                let t = old(farmer_reward).tracker->Fixed_0;
                let newly = t.spec_newly_promised(now_ts, farmer_gems_staked);
                let do_reenroll = reenroll && farmer_gems_staked > 0 && now_ts
                    >= t.spec_schedule_end();
                let remaining_new = times.spec_remaining_duration(now_ts);
                let per_gem_new = old(self).schedule.spec_payout_per_gem(0, remaining_new);
                let reserve_new = per_gem_new * farmer_gems_staked;
                &&& (!do_reenroll ==> (r is Ok <==> old(farmer_reward).accrued_reward + newly
                    <= u64::MAX))
                &&& (do_reenroll ==> (r is Ok <==> old(farmer_reward).accrued_reward + newly
                    <= u64::MAX && per_gem_new <= u64::MAX && reserve_new <= u64::MAX
                    && reserve_new <= old(funds).spec_pending() - old(self).reserved_amount))
                &&& (r is Ok ==> ({
                    &&& final(farmer_reward).accrued_reward == old(farmer_reward).accrued_reward
                        + newly
                    &&& final(farmer_reward).paid_out_to_date == old(
                        farmer_reward,
                    ).paid_out_to_date
                    &&& final(funds).total_accrued_to_stakers == old(
                        funds,
                    ).total_accrued_to_stakers + newly
                    &&& final(funds).total_funded == old(funds).total_funded
                    &&& final(funds).total_refunded == old(funds).total_refunded
                    &&& final(self).schedule.tiers@ == old(self).schedule.tiers@
                    &&& final(farmer_reward).tracker matches FarmerRewardTracker::Fixed(t2) && ({
                        &&& t2.wf()
                        &&& t2.begin_staking_ts == t.begin_staking_ts
                        &&& t2.spec_remaining_promised(farmer_gems_staked) <= final(self).reserved_amount
                        &&& (!do_reenroll ==> *final(self) == (FixedRateReward {
                            reserved_amount: (old(self).reserved_amount - newly) as u64,
                            ..*old(self)
                        }) && t2 == (FixedRateFarmerTracker {
                            last_updated_ts: vstd::math::max(
                                vstd::math::min(now_ts as int, t.spec_schedule_end()),
                                t.last_updated_ts as int,
                            ) as u64,
                            ..t
                        }))
                        &&& (do_reenroll ==> final(self).reserved_amount == old(
                            self,
                        ).reserved_amount - newly + reserve_new && t2.begin_schedule_ts == now_ts
                            && t2.last_updated_ts == now_ts && t2.promised_schedule.tiers@ == old(
                            self,
                        ).schedule.tiers@ && t2.promised_duration == remaining_new)
                    })
                    &&& final(self).wf(*final(funds))
                }))
                &&& (r is Err ==> *final(self) == *old(self) && *final(farmer_reward) == *old(
                    farmer_reward,
                ) && *final(funds) == *old(funds) && (r == Err::<(), ErrorCode>(
                    ErrorCode::ArithmeticError,
                ) || r == Err::<(), ErrorCode>(ErrorCode::RewardUnderfunded)))
                &&& (!do_reenroll && vstd::math::min(now_ts as int, t.spec_schedule_end())
                    <= t.last_updated_ts ==> r is Ok && *final(farmer_reward) == *old(
                    farmer_reward,
                ) && *final(self) == *old(self) && *final(funds) == *old(funds))
            }),
    {
        let ghost t0 = farmer_reward.tracker->Fixed_0;
        let begin_schedule_ts: u64;
        let begin_staking: u64;
        let last: u64;
        let promised: u64;
        let sched_end: u64;
        let cap2: u64;
        let newly: u64;
        match &farmer_reward.tracker {
            FarmerRewardTracker::Fixed(t) => {
                begin_schedule_ts = t.begin_schedule_ts;
                begin_staking = t.begin_staking_ts;
                last = t.last_updated_ts;
                promised = t.promised_duration;
                sched_end = t.begin_schedule_ts + t.promised_duration;
                let cap = if now_ts <= sched_end {
                    now_ts
                } else {
                    sched_end
                };
                cap2 = if cap > last {
                    cap
                } else {
                    last
                };
                proof {
                    lemma_promise_split(t0, now_ts, farmer_gems_staked);
                }
                if farmer_gems_staked > 0 {
                    newly = match t.promised_schedule.reward_amount(
                        last - begin_schedule_ts,
                        cap2 - begin_schedule_ts,
                        farmer_gems_staked,
                    ) {
                        Ok(v) => v,
                        Err(e) => {
                            proof {
                                assert(false);
                            }
                            return Err(e);
                        },
                    };
                } else {
                    newly = 0;
                }
            },
            FarmerRewardTracker::Variable(_) => {
                proof {
                    assert(false);
                }
                return Err(ErrorCode::ArithmeticError);
            },
        }
        let new_farmer_accrued = match farmer_reward.accrued_reward.try_add(newly) {
            Ok(v) => v,
            Err(e) => {
                return Err(e);
            },
        };
        let do_reenroll = reenroll && farmer_gems_staked > 0 && now_ts >= sched_end;
        if do_reenroll {
            let remaining_new = match times.remaining_duration(now_ts) {
                Ok(v) => v,
                Err(e) => {
                    return Err(e);
                },
            };
            proof {
                lemma_payout_from_nonneg(self.schedule.tiers@, 0, 0, remaining_new as int);
            }
            let reserve_new = match self.schedule.reward_amount(
                0,
                remaining_new,
                farmer_gems_staked,
            ) {
                Ok(v) => v,
                Err(e) => {
                    return Err(e);
                },
            };
            let pending = match funds.pending_amount() {
                Ok(v) => v,
                Err(e) => {
                    return Err(e);
                },
            };
            let available = pending - self.reserved_amount;
            if reserve_new > available {
                return Err(ErrorCode::RewardUnderfunded);
            }
            let promised_schedule = self.schedule.duplicate();
            farmer_reward.accrued_reward = new_farmer_accrued;
            funds.total_accrued_to_stakers = funds.total_accrued_to_stakers + newly;
            self.reserved_amount = self.reserved_amount - newly + reserve_new;
            farmer_reward.tracker = FarmerRewardTracker::Fixed(
                FixedRateFarmerTracker {
                    begin_staking_ts: begin_staking,
                    begin_schedule_ts: now_ts,
                    last_updated_ts: now_ts,
                    promised_schedule,
                    promised_duration: remaining_new,
                },
            );
            Ok(())
        } else {
            farmer_reward.accrued_reward = new_farmer_accrued;
            funds.total_accrued_to_stakers = funds.total_accrued_to_stakers + newly;
            self.reserved_amount = self.reserved_amount - newly;
            match &mut farmer_reward.tracker {
                FarmerRewardTracker::Fixed(t) => {
                    t.last_updated_ts = cap2;
                },
                FarmerRewardTracker::Variable(_) => {},
            }
            Ok(())
        }
    }

    /// Crystallizes everything owed to a departing farmer up to `now_ts` and
    /// clears the farmer's future obligations: the rest of the promise
    /// returns to the unreserved pending pool. Commits only on success.
    pub fn graduate_farmer(
        &mut self,
        now_ts: u64,
        funds: &mut FundsTracker,
        farmer_gems_staked: u64,
        farmer_reward: &mut FarmerReward,
    ) -> (r: Result<(), ErrorCode>)
        requires
            old(self).wf(*old(funds)),
            old(farmer_reward).tracker is Fixed,
            old(farmer_reward).tracker->Fixed_0.wf(),
            old(farmer_reward).tracker->Fixed_0.spec_remaining_promised(farmer_gems_staked) <= old(
                self,
            ).reserved_amount,
        ensures
            ({
                let t = old(farmer_reward).tracker->Fixed_0;
                let newly = t.spec_newly_promised(now_ts, farmer_gems_staked);
                &&& (r is Ok <==> old(farmer_reward).accrued_reward + newly <= u64::MAX)
                &&& (r is Ok ==> ({
                    &&& final(farmer_reward).accrued_reward == old(farmer_reward).accrued_reward
                        + newly
                    &&& final(farmer_reward).paid_out_to_date == old(
                        farmer_reward,
                    ).paid_out_to_date
                    &&& final(funds).total_accrued_to_stakers == old(
                        funds,
                    ).total_accrued_to_stakers + newly
                    &&& final(funds).total_funded == old(funds).total_funded
                    &&& final(funds).total_refunded == old(funds).total_refunded
                    &&& final(self).reserved_amount == old(self).reserved_amount
                        - t.spec_remaining_promised(farmer_gems_staked)
                    &&& final(self).schedule.tiers@ == old(self).schedule.tiers@
                    &&& final(farmer_reward).tracker matches FarmerRewardTracker::Fixed(t2) && ({
                        &&& t2.wf()
                        &&& t2.spec_remaining_promised(farmer_gems_staked) == 0
                        &&& t2.begin_staking_ts == t.begin_staking_ts
                    })
                    &&& final(self).wf(*final(funds))
                }))
                &&& (r is Err ==> r == Err::<(), ErrorCode>(ErrorCode::ArithmeticError) && *final(self) == *old(self) && *final(farmer_reward) == *old(farmer_reward) && *final(funds)
                    == *old(funds))
            }),
    {
        let ghost t0 = farmer_reward.tracker->Fixed_0;
        let begin_schedule_ts: u64;
        let last: u64;
        let promised: u64;
        let cap2: u64;
        let newly: u64;
        let remaining_after: u64;
        match &farmer_reward.tracker {
            FarmerRewardTracker::Fixed(t) => {
                begin_schedule_ts = t.begin_schedule_ts;
                last = t.last_updated_ts;
                promised = t.promised_duration;
                let sched_end = t.begin_schedule_ts + t.promised_duration;
                let cap = if now_ts <= sched_end {
                    now_ts
                } else {
                    sched_end
                };
                cap2 = if cap > last {
                    cap
                } else {
                    last
                };
                proof {
                    lemma_promise_split(t0, now_ts, farmer_gems_staked);
                }
                if farmer_gems_staked > 0 {
                    newly = match t.promised_schedule.reward_amount(
                        last - begin_schedule_ts,
                        cap2 - begin_schedule_ts,
                        farmer_gems_staked,
                    ) {
                        Ok(v) => v,
                        Err(e) => {
                            proof {
                                assert(false);
                            }
                            return Err(e);
                        },
                    };
                    remaining_after = match t.promised_schedule.reward_amount(
                        cap2 - begin_schedule_ts,
                        promised,
                        farmer_gems_staked,
                    ) {
                        Ok(v) => v,
                        Err(e) => {
                            proof {
                                assert(false);
                            }
                            return Err(e);
                        },
                    };
                } else {
                    newly = 0;
                    remaining_after = 0;
                }
            },
            FarmerRewardTracker::Variable(_) => {
                proof {
                    assert(false);
                }
                return Err(ErrorCode::ArithmeticError);
            },
        }
        let new_farmer_accrued = match farmer_reward.accrued_reward.try_add(newly) {
            Ok(v) => v,
            Err(e) => {
                return Err(e);
            },
        };
        farmer_reward.accrued_reward = new_farmer_accrued;
        funds.total_accrued_to_stakers = funds.total_accrued_to_stakers + newly;
        self.reserved_amount = self.reserved_amount - (newly + remaining_after);
        match &mut farmer_reward.tracker {
            FarmerRewardTracker::Fixed(t) => {
                t.last_updated_ts = cap2;
                t.promised_duration = cap2 - begin_schedule_ts;
                proof {
                    lemma_payout_from_empty(
                        t.promised_schedule.tiers@,
                        0,
                        cap2 - begin_schedule_ts,
                        cap2 - begin_schedule_ts,
                    );
                }
            },
            FarmerRewardTracker::Variable(_) => {},
        }
        Ok(())
    }
}

/// What the accrual cap at `now_ts` splits off a farmer's promise: the
/// newly owed part plus the part still ahead make up exactly what was
/// promised, and no part is negative.
pub proof fn lemma_promise_split(t: FixedRateFarmerTracker, now_ts: u64, gems: u64)
    requires
        t.wf(),
    ensures
        ({
            let cap2 = vstd::math::max(
                vstd::math::min(now_ts as int, t.spec_schedule_end()),
                t.last_updated_ts as int,
            );
            let x = t.promised_schedule.spec_payout_per_gem(
                t.last_updated_ts - t.begin_schedule_ts,
                cap2 - t.begin_schedule_ts,
            );
            let y = t.promised_schedule.spec_payout_per_gem(
                cap2 - t.begin_schedule_ts,
                t.promised_duration as int,
            );
            &&& 0 <= x
            &&& 0 <= y
            &&& t.spec_newly_promised(now_ts, gems) == x * gems
            &&& x * gems + y * gems == t.spec_remaining_promised(gems)
            &&& 0 <= x * gems
            &&& 0 <= y * gems
            &&& (gems >= 1 ==> x <= x * gems && y <= y * gems)
            &&& (gems == 0 ==> x * gems == 0 && y * gems == 0)
        }),
{
    let begin = t.begin_schedule_ts as int;
    let last = t.last_updated_ts as int;
    let p = t.promised_duration as int;
    let cap2 = vstd::math::max(
        vstd::math::min(now_ts as int, t.spec_schedule_end()),
        t.last_updated_ts as int,
    );
    let a = last - begin;
    let b = cap2 - begin;
    let tiers = t.promised_schedule.tiers@;
    lemma_payout_from_nonneg(tiers, 0, a, b);
    lemma_payout_from_nonneg(tiers, 0, b, p);
    lemma_payout_from_additive(tiers, 0, a, b, p);
    lemma_payout_from_empty(tiers, 0, a, a);
    let x = spec_payout_from(tiers, 0, a, b);
    let y = spec_payout_from(tiers, 0, b, p);
    lemma_mul_is_distributive_add_other_way(gems as int, x, y);
    assert(0 <= x * gems && 0 <= y * gems && (gems >= 1 ==> x <= x * gems && y <= y * gems) && (
    gems == 0 ==> x * gems == 0 && y * gems == 0)) by (nonlinear_arith)
        requires
            0 <= x,
            0 <= y,
            gems >= 0,
    ;
    if vstd::math::min(now_ts as int, t.spec_schedule_end()) <= last {
        assert(x == 0);
        assert(x * gems == 0) by (nonlinear_arith)
            requires
                x == 0,
        ;
    }
}

} // verus!
