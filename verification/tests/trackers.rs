use gem_farm::funds_tracker::FundsTracker;
use gem_farm::time_tracker::TimeTracker;

#[test]
fn test_time_tracker() {
    let times = TimeTracker { duration_sec: 100, reward_end_ts: 200, lock_end_ts: 0 };

    assert_eq!(70, times.remaining_duration(130).unwrap());
    assert_eq!(0, times.remaining_duration(9999).unwrap());
    assert_eq!(30, times.passed_duration(130).unwrap());
    assert_eq!(199, times.reward_upper_bound(199));
    assert_eq!(200, times.reward_upper_bound(201));
    assert_eq!(100, times.reward_begin_ts().unwrap());
    assert_eq!(110, times.reward_lower_bound(110).unwrap());
}

#[test]
fn test_time_tracker_end_reward() {
    let mut times = TimeTracker { duration_sec: 80, reward_end_ts: 200, lock_end_ts: 0 };

    times.end_reward(140).unwrap();
    assert_eq!(times.duration_sec, 20);
    assert_eq!(times.reward_end_ts, 140);
}

#[test]
fn test_funds_tracker() {
    let funds = FundsTracker { total_funded: 100, total_refunded: 50, total_accrued_to_stakers: 30 };

    assert_eq!(20, funds.pending_amount().unwrap());
}

#[test]
fn test_ended_reward_stays_ended() {
    let mut times = TimeTracker { duration_sec: 80, reward_end_ts: 200, lock_end_ts: 0 };
    times.end_reward(140).unwrap();
    assert_eq!(0, times.remaining_duration(140).unwrap());
    assert_eq!(0, times.remaining_duration(150).unwrap());
    assert_eq!(0, times.remaining_duration(u64::MAX).unwrap());
}

#[test]
fn test_reward_lower_bound_prefers_later_start() {
    let times = TimeTracker { duration_sec: 100, reward_end_ts: 200, lock_end_ts: 0 };
    // a farmer who staked before the reward began earns from the reward's begin
    assert_eq!(100, times.reward_lower_bound(40).unwrap());
}
