//! Core accounting engine of a gem-staking farm.
//!
//! A farm custodies staked "gems" (units of stake) for its farmers and pays
//! out up to two reward streams over time. Everything here is pure state
//! arithmetic: the caller supplies the wall-clock timestamp `now_ts`, the
//! library computes balances, schedules and state transitions, and the
//! surrounding program moves the actual tokens.
//!
//! No arithmetic operation may silently wrap, and every balance change must
//! preserve conservation of funds; the checked layer in [`try_math`] is the
//! only arithmetic API the higher layers use.

pub mod bank;
pub mod error;
pub mod farm;
pub mod farm_reward;
pub mod farmer;
pub mod fixed_rate;
pub mod funds_tracker;
pub mod ids;
pub mod time_tracker;
pub mod try_math;
pub mod variable_rate;
