use gem_farm::error::ErrorCode;
use gem_farm::funds_tracker::FundsTracker;
use gem_farm::try_math::TryDiv;

#[test]
fn test_pending_fails_when_conservation_broken() {
    // refunded + accrued exceed funded: the books are already wrong and
    // the pending amount refuses to answer
    let funds = FundsTracker { total_funded: 10, total_refunded: 8, total_accrued_to_stakers: 5 };
    assert_eq!(funds.pending_amount(), Err(ErrorCode::ArithmeticError));
}

#[test]
fn test_rounded_div_is_biased_floor_div() {
    for a in [0_u64, 1, 5, 11, 14, 99, 100] {
        for b in [1_u64, 2, 3, 5, 7] {
            assert_eq!(a.try_rounded_div(b), (a + b / 2).try_floor_div(b));
        }
    }
}

#[test]
fn test_ceil_div_bounds() {
    for a in [1_u64, 2, 5, 11, 14, 99, 100] {
        for b in [1_u64, 2, 3, 5, 7] {
            let q = a.try_ceil_div(b).unwrap();
            assert!(q * b >= a);
            assert!((q - 1) * b < a);
        }
    }
}
