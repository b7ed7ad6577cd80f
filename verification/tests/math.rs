use gem_farm::error::ErrorCode;
use gem_farm::try_math::{TryAdd, TryDiv, TryMul, TryPow, TryRem, TrySub};

// --------------------------------------- division flavours

#[test]
fn test_floor_div() {
    //the easy (no remainder) case
    let x = 10_u64;
    let y = 5;
    let r = x.try_floor_div(y).unwrap();
    assert_eq!(r, 2);

    //<.5 case (2.2)
    let x = 11_u64;
    let y = 5;
    let r = x.try_floor_div(y).unwrap();
    assert_eq!(r, 2);

    //>.5 case (2.8)
    let x = 14_u64;
    let y = 5;
    let r = x.try_floor_div(y).unwrap();
    assert_eq!(r, 2);

    //.5 case
    let x = 5_u64;
    let y = 2;
    let r = x.try_floor_div(y).unwrap();
    assert_eq!(r, 2);
}

#[test]
fn test_ceil_div() {
    //the easy (no remainder) case
    let x = 10_u64;
    let y = 5;
    let r = x.try_ceil_div(y).unwrap();
    assert_eq!(r, 2);

    //<.5 case (2.2)
    let x = 11_u64;
    let y = 5;
    let r = x.try_ceil_div(y).unwrap();
    assert_eq!(r, 3);

    //>.5 case (2.8)
    let x = 14_u64;
    let y = 5;
    let r = x.try_ceil_div(y).unwrap();
    assert_eq!(r, 3);

    //.5 case
    let x = 5_u64;
    let y = 2;
    let r = x.try_ceil_div(y).unwrap();
    assert_eq!(r, 3);
}

#[test]
fn test_rounded_div() {
    //the easy (no remainder) case
    let x = 10_u64;
    let y = 5;
    let r = x.try_rounded_div(y).unwrap();
    assert_eq!(r, 2);

    //<.5 case (2.2)
    let x = 11_u64;
    let y = 5;
    let r = x.try_rounded_div(y).unwrap();
    assert_eq!(r, 2);

    //>.5 case (2.8)
    let x = 14_u64;
    let y = 5;
    let r = x.try_rounded_div(y).unwrap();
    assert_eq!(r, 3);

    //.5 case
    let x = 5_u64;
    let y = 2;
    let r = x.try_rounded_div(y).unwrap();
    assert_eq!(r, 3);
}

// --------------------------------------- assigns

#[test]
fn test_add_assign() {
    let mut x = 10_u64;
    let y = 2;
    x.try_add_assign(y).unwrap();
    assert_eq!(x, 12);
}

#[test]
fn test_sub_assign() {
    let mut x = 10_u64;
    let y = 2;
    x.try_sub_assign(y).unwrap();
    assert_eq!(x, 8);
}

#[test]
fn test_floor_div_assign() {
    let mut x = 10_u64;
    let y = 3;
    x.try_floor_div_assign(y).unwrap();
    assert_eq!(x, 3);
}

#[test]
fn test_ceil_div_assign() {
    let mut x = 10_u64;
    let y = 3;
    x.try_ceil_div_assign(y).unwrap();
    assert_eq!(x, 4);
}

#[test]
fn test_rounded_div_assign() {
    let mut x = 10_u64;
    let y = 3;
    x.try_rounded_div_assign(y).unwrap();
    assert_eq!(x, 3);
}

#[test]
fn test_mul_assign() {
    let mut x = 10_u64;
    let y = 2;
    x.try_mul_assign(y).unwrap();
    assert_eq!(x, 20);
}

#[test]
fn test_pow_assign() {
    let mut x = 10_u64;
    let y = 2;
    x.try_pow_assign(y).unwrap();
    assert_eq!(x, 100);
}

// --------------------------------------- failure modes

#[test]
fn test_arithmetic_error_on_overflow() {
    assert_eq!(u64::MAX.try_add(1), Err(ErrorCode::ArithmeticError));
    assert_eq!(0_u64.try_sub(1), Err(ErrorCode::ArithmeticError));
    assert_eq!(u64::MAX.try_mul(2), Err(ErrorCode::ArithmeticError));
    assert_eq!(10_u64.try_floor_div(0), Err(ErrorCode::ArithmeticError));
    assert_eq!(0_u64.try_ceil_div(5), Err(ErrorCode::ArithmeticError));
    assert_eq!(10_u64.try_rounded_div(0), Err(ErrorCode::ArithmeticError));
    assert_eq!(2_u64.try_pow(64), Err(ErrorCode::ArithmeticError));
    assert_eq!(10_u64.try_rem(0), Err(ErrorCode::ArithmeticError));
}

#[test]
fn test_u128_ops() {
    assert_eq!(10_u128.try_add(2).unwrap(), 12);
    assert_eq!(11_u128.try_ceil_div(5).unwrap(), 3);
    assert_eq!(14_u128.try_rounded_div(5).unwrap(), 3);
    assert_eq!(3_u128.try_pow(4).unwrap(), 81);
    assert_eq!(14_u128.try_rem(5).unwrap(), 4);
    assert_eq!(u128::MAX.try_mul(2), Err(ErrorCode::ArithmeticError));
}

#[test]
fn test_try_rem() {
    assert_eq!(14_u64.try_rem(5).unwrap(), 4);
    assert_eq!(10_u64.try_rem(5).unwrap(), 0);
}

#[test]
fn test_u32_ops() {
    assert_eq!(10_u32.try_add(2).unwrap(), 12);
    assert_eq!(11_u32.try_ceil_div(5).unwrap(), 3);
    assert_eq!(14_u32.try_rounded_div(5).unwrap(), 3);
    assert_eq!(3_u32.try_pow(4).unwrap(), 81);
    assert_eq!(14_u32.try_rem(5).unwrap(), 4);
    assert_eq!(u32::MAX.try_mul(2), Err(ErrorCode::ArithmeticError));
}

#[test]
fn test_signed_ops() {
    assert_eq!((-14_i64).try_floor_div(5).unwrap(), -2);
    assert_eq!(14_i64.try_floor_div(-5).unwrap(), -2);
    assert_eq!((-14_i64).try_rem(5).unwrap(), -4);
    assert_eq!(14_i64.try_rem(-5).unwrap(), 4);
    assert_eq!(11_i64.try_ceil_div(5).unwrap(), 3);
    assert_eq!(14_i64.try_rounded_div(5).unwrap(), 3);
    assert_eq!((-2_i64).try_pow(3).unwrap(), -8);
    assert_eq!((-2_i64).try_pow(63).unwrap(), i64::MIN);
    assert_eq!(2_i64.try_pow(63), Err(ErrorCode::ArithmeticError));
    assert_eq!(i64::MIN.try_sub(1), Err(ErrorCode::ArithmeticError));
    assert_eq!(i64::MIN.try_floor_div(-1), Err(ErrorCode::ArithmeticError));
    assert_eq!(i64::MIN.try_rem(-1), Err(ErrorCode::ArithmeticError));
    assert_eq!(i64::MAX.try_add(1), Err(ErrorCode::ArithmeticError));
    let mut x = -10_i64;
    x.try_add_assign(4).unwrap();
    assert_eq!(x, -6);
    x.try_mul_assign(-3).unwrap();
    assert_eq!(x, 18);
}

#[test]
fn test_small_width_ops() {
    assert_eq!(11_u8.try_ceil_div(5).unwrap(), 3);
    assert_eq!(200_u8.try_add(100), Err(ErrorCode::ArithmeticError));
    assert_eq!(14_u16.try_rounded_div(5).unwrap(), 3);
    assert_eq!((-14_i8).try_floor_div(5).unwrap(), -2);
    assert_eq!(i8::MIN.try_floor_div(-1), Err(ErrorCode::ArithmeticError));
    assert_eq!((-300_i16).try_rem(7).unwrap(), -6);
    assert_eq!((-5_i32).try_mul(7).unwrap(), -35);
    assert_eq!((-3_i128).try_pow(5).unwrap(), -243);
}
