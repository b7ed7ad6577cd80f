//! The time window of one reward stream.

use vstd::prelude::*;

use crate::error::ErrorCode;
use crate::try_math::TrySub;

verus! {

/// Duration, end timestamp and lock-end timestamp of a reward stream.
///
/// The stream runs over `[reward_end_ts - duration_sec, reward_end_ts]`;
/// while `now < lock_end_ts` the reward is locked and can neither be funded
/// nor cancelled.
#[derive(Clone, Copy, Debug, PartialEq, Eq, Structural)]
pub struct TimeTracker {
    pub duration_sec: u64,
    pub reward_end_ts: u64,
    pub lock_end_ts: u64,
}

impl TimeTracker {
    /// The stream's begin timestamp never precedes time zero.
    pub open spec fn wf(self) -> bool {
        self.duration_sec <= self.reward_end_ts
    }

    /// First timestamp of the reward window.
    pub open spec fn spec_reward_begin_ts(self) -> int {
        self.reward_end_ts - self.duration_sec
    }

    /// Seconds of the reward window not yet elapsed at `now_ts`.
    pub open spec fn spec_remaining_duration(self, now_ts: u64) -> int {
        if now_ts >= self.reward_end_ts {
            0
        } else {
            self.reward_end_ts - now_ts
        }
    }

    /// Whichever comes first: `now_ts` or the end of the reward.
    pub open spec fn spec_reward_upper_bound(self, now_ts: u64) -> int {
        vstd::math::min(self.reward_end_ts as int, now_ts as int)
    }

    /// The tracker once its reward has been ended at `now_ts`.
    pub open spec fn spec_ended(self, now_ts: u64) -> TimeTracker {
        TimeTracker {
            duration_sec: (self.duration_sec - self.spec_remaining_duration(now_ts)) as u64,
            reward_end_ts: now_ts,
            lock_end_ts: self.lock_end_ts,
        }
    }

    /// First timestamp of the reward window; fails when the duration
    /// reaches back past time zero.
    pub fn reward_begin_ts(&self) -> (r: Result<u64, ErrorCode>)
        ensures
            self.wf() ==> r == Ok::<u64, ErrorCode>(self.spec_reward_begin_ts() as u64),
            !self.wf() ==> r == Err::<u64, ErrorCode>(ErrorCode::ArithmeticError),
    {
        self.reward_end_ts.try_sub(self.duration_sec)
    }

    /// Seconds of the reward window not yet elapsed at `now_ts`; all time
    /// counts as passed once `now_ts` reaches the end of the reward.
    pub fn remaining_duration(&self, now_ts: u64) -> (r: Result<u64, ErrorCode>)
        ensures
            r == Ok::<u64, ErrorCode>(self.spec_remaining_duration(now_ts) as u64),
    {
        if now_ts >= self.reward_end_ts {
            return Ok(0);
        }
        self.reward_end_ts.try_sub(now_ts)
    }

    /// Seconds of the reward window already elapsed at `now_ts`; fails when
    /// the window has not even begun (more time remains than the whole
    /// duration).
    pub fn passed_duration(&self, now_ts: u64) -> (r: Result<u64, ErrorCode>)
        ensures
            self.spec_remaining_duration(now_ts) <= self.duration_sec ==> r == Ok::<
                u64,
                ErrorCode,
            >((self.duration_sec - self.spec_remaining_duration(now_ts)) as u64),
            self.spec_remaining_duration(now_ts) > self.duration_sec ==> r == Err::<
                u64,
                ErrorCode,
            >(ErrorCode::ArithmeticError),
    {
        let remaining = match self.remaining_duration(now_ts) {
            Ok(v) => v,
            Err(e) => {
                return Err(e);
            },
        };
        self.duration_sec.try_sub(remaining)
    }

    /// Ends the reward at `now_ts`: the not-yet-elapsed seconds are removed
    /// from the duration and the end is clamped to `now_ts`, so that the
    /// begin timestamp of an already-running reward does not move. Commits
    /// only on success; afterwards no duration remains at any `t >= now_ts`.
    pub fn end_reward(&mut self, now_ts: u64) -> (r: Result<(), ErrorCode>)
        ensures
            old(self).spec_remaining_duration(now_ts) <= old(self).duration_sec ==> r == Ok::<
                (),
                ErrorCode,
            >(()) && *final(self) == old(self).spec_ended(now_ts),
            old(self).spec_remaining_duration(now_ts) > old(self).duration_sec ==> r == Err::<
                (),
                ErrorCode,
            >(ErrorCode::ArithmeticError) && *final(self) == *old(self),
    {
        let remaining = match self.remaining_duration(now_ts) {
            Ok(v) => v,
            Err(e) => {
                return Err(e);
            },
        };
        match self.duration_sec.try_sub(remaining) {
            Ok(v) => {
                self.duration_sec = v;
                self.reward_end_ts = now_ts;
                Ok(())
            },
            Err(e) => Err(e),
        }
    }

    /// Whichever comes first: `now_ts` or the end of the reward.
    pub fn reward_upper_bound(&self, now_ts: u64) -> (r: u64)
        ensures
            r == self.spec_reward_upper_bound(now_ts),
    {
        if self.reward_end_ts <= now_ts {
            self.reward_end_ts
        } else {
            now_ts
        }
    }

    /// Whichever comes last: the beginning of the reward, or the beginning
    /// of the farmer's staking.
    pub fn reward_lower_bound(&self, farmer_begin_staking_ts: u64) -> (r: Result<u64, ErrorCode>)
        ensures
            self.wf() ==> r == Ok::<u64, ErrorCode>(
                vstd::math::max(self.spec_reward_begin_ts(), farmer_begin_staking_ts as int) as u64,
            ),
            !self.wf() ==> r == Err::<u64, ErrorCode>(ErrorCode::ArithmeticError),
    {
        let begin = match self.reward_begin_ts() {
            Ok(v) => v,
            Err(e) => {
                return Err(e);
            },
        };
        if begin >= farmer_begin_staking_ts {
            Ok(begin)
        } else {
            Ok(farmer_begin_staking_ts)
        }
    }
}

/// Once a reward is ended at `now_ts`, no duration remains at `now_ts` or
/// at any later time.
pub proof fn lemma_ended_reward_has_no_remaining_duration(times: TimeTracker, now_ts: u64, t: u64)
    requires
        times.reward_end_ts == now_ts,
        t >= now_ts,
    ensures
        times.spec_remaining_duration(t) == 0,
{
}

} // verus!
