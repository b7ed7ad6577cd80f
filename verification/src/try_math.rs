//! Checked integer arithmetic: total operations that fail with
//! [`ErrorCode::ArithmeticError`] instead of wrapping.
//!
//! Every balance or time computation in the higher layers goes through this
//! layer; raw wrapping arithmetic is forbidden inside the core. Each
//! operation has an in-place `assign` form whose contract is: apply and
//! commit iff the pure form succeeds, otherwise leave the receiver unchanged
//! and fail.

use vstd::prelude::*;
use vstd::arithmetic::div_mod::lemma_fundamental_div_mod;
use vstd::arithmetic::power::{pow, lemma_pow_increases};

use crate::error::ErrorCode;

verus! {

/// Quotient rounded toward zero (these are unsigned, so toward minus
/// infinity as well).
pub open spec fn floor_div_spec(a: int, b: int) -> int {
    a / b
}

/// Quotient rounded up, computed as `1 + (a - 1) / b`; meaningful for
/// `a >= 1`, `b >= 1`.
pub open spec fn ceil_div_spec(a: int, b: int) -> int {
    1 + (a - 1) / b
}

/// Quotient rounded to the nearest integer, half away from zero:
/// `(a + b / 2) / b`.
pub open spec fn rounded_div_spec(a: int, b: int) -> int {
    (a + b / 2) / b
}

/// Rounding up then multiplying back by the divisor reaches `a`, and
/// falls short of it when one fewer multiple is taken.
pub proof fn lemma_ceil_div_bounds(a: int, b: int)
    requires
        a >= 1,
        b >= 1,
    ensures
        ceil_div_spec(a, b) * b >= a,
        (ceil_div_spec(a, b) - 1) * b < a,
{
    lemma_fundamental_div_mod(a - 1, b);
    let q = (a - 1) / b;
    let r = (a - 1) % b;
    assert((1 + q) * b == b * q + b) by (nonlinear_arith);
    assert(q * b == b * q) by (nonlinear_arith);
}

/// Rounded division is floor division of the argument biased by half the
/// divisor.
pub proof fn lemma_rounded_div_is_biased_floor_div(a: int, b: int)
    requires
        b >= 1,
    ensures
        rounded_div_spec(a, b) == floor_div_spec(a + b / 2, b),
{
}

/// Quotient rounded toward zero, as the machine's signed division computes
/// it; on non-negative operands it coincides with `floor_div_spec`.
pub open spec fn trunc_div_spec(a: int, b: int) -> int {
    if a == 0 {
        0
    } else if a > 0 && b > 0 {
        a / b
    } else if a < 0 && b < 0 {
        (a * -1) / (b * -1)
    } else if a < 0 {
        ((a * -1) / b) * -1
    } else {
        (a / (b * -1)) * -1
    }
}

/// Remainder matching truncated division: its sign follows the dividend.
pub open spec fn trunc_rem_spec(a: int, b: int) -> int {
    if a == 0 {
        0
    } else if a > 0 && b > 0 {
        a % b
    } else if a < 0 && b < 0 {
        ((a * -1) % (b * -1)) * -1
    } else if a < 0 {
        ((a * -1) % b) * -1
    } else {
        a % (b * -1)
    }
}

/// Some power of `b`, from the first up to the `e`-th, leaves `[lo, hi]`.
/// Signed exponentiation by repeated multiplication fails exactly when
/// this holds, since a signed intermediate may overflow in either
/// direction.
pub open spec fn spec_pow_escapes(b: int, e: nat, lo: int, hi: int) -> bool
    decreases e,
{
    if e == 0 {
        false
    } else {
        spec_pow_escapes(b, (e - 1) as nat, lo, hi) || !(lo <= pow(b, e) <= hi)
    }
}

/// Once some power up to the `e1`-th escapes the range, so does some power
/// up to any later bound.
pub proof fn lemma_pow_escapes_mono(b: int, e1: nat, e2: nat, lo: int, hi: int)
    requires
        e1 <= e2,
        spec_pow_escapes(b, e1, lo, hi),
    ensures
        spec_pow_escapes(b, e2, lo, hi),
    decreases e2,
{
    if e2 > e1 {
        lemma_pow_escapes_mono(b, e1, (e2 - 1) as nat, lo, hi);
    }
}

/// A product with a zero factor is zero.
pub proof fn lemma_mul_zero(a: int, b: int)
    requires
        a == 0 || b == 0,
    ensures
        a * b == 0,
{
    assert(a * b == 0) by (nonlinear_arith)
        requires
            a == 0 || b == 0,
    ;
}

pub trait TrySub: Sized {
    fn try_sub(self, rhs: Self) -> Result<Self, ErrorCode>;
    fn try_sub_assign(&mut self, rhs: Self) -> Result<(), ErrorCode>;
}

pub trait TryAdd: Sized {
    fn try_add(self, rhs: Self) -> Result<Self, ErrorCode>;
    fn try_add_assign(&mut self, rhs: Self) -> Result<(), ErrorCode>;
}

pub trait TryDiv: Sized {
    fn try_floor_div(self, rhs: Self) -> Result<Self, ErrorCode>;
    fn try_floor_div_assign(&mut self, rhs: Self) -> Result<(), ErrorCode>;
    fn try_ceil_div(self, rhs: Self) -> Result<Self, ErrorCode>;
    fn try_ceil_div_assign(&mut self, rhs: Self) -> Result<(), ErrorCode>;
    fn try_rounded_div(self, rhs: Self) -> Result<Self, ErrorCode>;
    fn try_rounded_div_assign(&mut self, rhs: Self) -> Result<(), ErrorCode>;
}

pub trait TryMul: Sized {
    fn try_mul(self, rhs: Self) -> Result<Self, ErrorCode>;
    fn try_mul_assign(&mut self, rhs: Self) -> Result<(), ErrorCode>;
}

pub trait TryPow: Sized {
    fn try_pow(self, rhs: u32) -> Result<Self, ErrorCode>;
    fn try_pow_assign(&mut self, rhs: u32) -> Result<(), ErrorCode>;
}

pub trait TryRem: Sized {
    fn try_rem(self, rhs: Self) -> Result<Self, ErrorCode>;
}

impl TrySub for u64 {
    fn try_sub(self, rhs: Self) -> (r: Result<Self, ErrorCode>)
        ensures
            rhs <= self ==> r == Ok::<u64, ErrorCode>((self - rhs) as u64),
            rhs > self ==> r == Err::<u64, ErrorCode>(ErrorCode::ArithmeticError),
    {
        match self.checked_sub(rhs) {
            Some(v) => Ok(v),
            None => Err(ErrorCode::ArithmeticError),
        }
    }

    fn try_sub_assign(&mut self, rhs: Self) -> (r: Result<(), ErrorCode>)
        ensures
            rhs <= *old(self) ==> r == Ok::<(), ErrorCode>(()) && *final(self) == *old(self) - rhs,
            rhs > *old(self) ==> r == Err::<(), ErrorCode>(ErrorCode::ArithmeticError)
                && *final(self) == *old(self),
    {
        match (*self).try_sub(rhs) {
            Ok(v) => {
                *self = v;
                Ok(())
            },
            Err(e) => Err(e),
        }
    }
}

impl TryAdd for u64 {
    fn try_add(self, rhs: Self) -> (r: Result<Self, ErrorCode>)
        ensures
            self + rhs <= u64::MAX ==> r == Ok::<u64, ErrorCode>((self + rhs) as u64),
            self + rhs > u64::MAX ==> r == Err::<u64, ErrorCode>(ErrorCode::ArithmeticError),
    {
        match self.checked_add(rhs) {
            Some(v) => Ok(v),
            None => Err(ErrorCode::ArithmeticError),
        }
    }

    fn try_add_assign(&mut self, rhs: Self) -> (r: Result<(), ErrorCode>)
        ensures
            *old(self) + rhs <= u64::MAX ==> r == Ok::<(), ErrorCode>(())
                && *final(self) == *old(self) + rhs,
            *old(self) + rhs > u64::MAX ==> r == Err::<(), ErrorCode>(ErrorCode::ArithmeticError)
                && *final(self) == *old(self),
    {
        match (*self).try_add(rhs) {
            Ok(v) => {
                *self = v;
                Ok(())
            },
            Err(e) => Err(e),
        }
    }
}

impl TryDiv for u64 {
    fn try_floor_div(self, rhs: Self) -> (r: Result<Self, ErrorCode>)
        ensures
            rhs > 0 ==> r == Ok::<u64, ErrorCode>(floor_div_spec(self as int, rhs as int) as u64),
            rhs == 0 ==> r == Err::<u64, ErrorCode>(ErrorCode::ArithmeticError),
    {
        match self.checked_div(rhs) {
            Some(v) => Ok(v),
            None => Err(ErrorCode::ArithmeticError),
        }
    }

    fn try_floor_div_assign(&mut self, rhs: Self) -> (r: Result<(), ErrorCode>)
        ensures
            rhs > 0 ==> r == Ok::<(), ErrorCode>(())
                && *final(self) == floor_div_spec(*old(self) as int, rhs as int),
            rhs == 0 ==> r == Err::<(), ErrorCode>(ErrorCode::ArithmeticError)
                && *final(self) == *old(self),
    {
        match (*self).try_floor_div(rhs) {
            Ok(v) => {
                *self = v;
                Ok(())
            },
            Err(e) => Err(e),
        }
    }

    fn try_ceil_div(self, rhs: Self) -> (r: Result<Self, ErrorCode>)
        ensures
            self >= 1 && rhs >= 1 ==> r == Ok::<u64, ErrorCode>(
                ceil_div_spec(self as int, rhs as int) as u64,
            ),
            self >= 1 && rhs >= 1 ==> ceil_div_spec(self as int, rhs as int) * rhs >= self
                > (ceil_div_spec(self as int, rhs as int) - 1) * rhs,
            self == 0 || rhs == 0 ==> r == Err::<u64, ErrorCode>(ErrorCode::ArithmeticError),
    {
        let reduced_by_one = match self.checked_sub(1) {
            Some(v) => v,
            None => {
                return Err(ErrorCode::ArithmeticError);
            },
        };
        let divided = match reduced_by_one.checked_div(rhs) {
            Some(v) => v,
            None => {
                return Err(ErrorCode::ArithmeticError);
            },
        };
        proof {
            lemma_ceil_div_bounds(self as int, rhs as int);
        }
        match 1u64.checked_add(divided) {
            Some(v) => Ok(v),
            None => Err(ErrorCode::ArithmeticError),
        }
    }

    fn try_ceil_div_assign(&mut self, rhs: Self) -> (r: Result<(), ErrorCode>)
        ensures
            *old(self) >= 1 && rhs >= 1 ==> r == Ok::<(), ErrorCode>(())
                && *final(self) == ceil_div_spec(*old(self) as int, rhs as int),
            *old(self) == 0 || rhs == 0 ==> r == Err::<(), ErrorCode>(ErrorCode::ArithmeticError)
                && *final(self) == *old(self),
    {
        match (*self).try_ceil_div(rhs) {
            Ok(v) => {
                *self = v;
                Ok(())
            },
            Err(e) => Err(e),
        }
    }

    fn try_rounded_div(self, rhs: Self) -> (r: Result<Self, ErrorCode>)
        ensures
            rhs > 0 && self + rhs / 2 <= u64::MAX ==> r == Ok::<u64, ErrorCode>(
                rounded_div_spec(self as int, rhs as int) as u64,
            ),
            rhs == 0 || self + rhs / 2 > u64::MAX ==> r == Err::<u64, ErrorCode>(
                ErrorCode::ArithmeticError,
            ),
    {
        let rounding = rhs / 2;
        let with_rounding = match self.checked_add(rounding) {
            Some(v) => v,
            None => {
                return Err(ErrorCode::ArithmeticError);
            },
        };
        match with_rounding.checked_div(rhs) {
            Some(v) => Ok(v),
            None => Err(ErrorCode::ArithmeticError),
        }
    }

    fn try_rounded_div_assign(&mut self, rhs: Self) -> (r: Result<(), ErrorCode>)
        ensures
            rhs > 0 && *old(self) + rhs / 2 <= u64::MAX ==> r == Ok::<(), ErrorCode>(())
                && *final(self) == rounded_div_spec(*old(self) as int, rhs as int),
            rhs == 0 || *old(self) + rhs / 2 > u64::MAX ==> r == Err::<(), ErrorCode>(
                ErrorCode::ArithmeticError,
            ) && *final(self) == *old(self),
    {
        match (*self).try_rounded_div(rhs) {
            Ok(v) => {
                *self = v;
                Ok(())
            },
            Err(e) => Err(e),
        }
    }
}

impl TryMul for u64 {
    fn try_mul(self, rhs: Self) -> (r: Result<Self, ErrorCode>)
        ensures
            self * rhs <= u64::MAX ==> r == Ok::<u64, ErrorCode>((self * rhs) as u64),
            self * rhs > u64::MAX ==> r == Err::<u64, ErrorCode>(ErrorCode::ArithmeticError),
    {
        match self.checked_mul(rhs) {
            Some(v) => Ok(v),
            None => Err(ErrorCode::ArithmeticError),
        }
    }

    fn try_mul_assign(&mut self, rhs: Self) -> (r: Result<(), ErrorCode>)
        ensures
            *old(self) * rhs <= u64::MAX ==> r == Ok::<(), ErrorCode>(())
                && *final(self) == *old(self) * rhs,
            *old(self) * rhs > u64::MAX ==> r == Err::<(), ErrorCode>(ErrorCode::ArithmeticError)
                && *final(self) == *old(self),
    {
        match (*self).try_mul(rhs) {
            Ok(v) => {
                *self = v;
                Ok(())
            },
            Err(e) => Err(e),
        }
    }
}

impl TryPow for u64 {
    fn try_pow(self, rhs: u32) -> (r: Result<Self, ErrorCode>)
        ensures
            pow(self as int, rhs as nat) >= 0,
            pow(self as int, rhs as nat) <= u64::MAX ==> r == Ok::<u64, ErrorCode>(
                pow(self as int, rhs as nat) as u64,
            ),
            pow(self as int, rhs as nat) > u64::MAX ==> r == Err::<u64, ErrorCode>(
                ErrorCode::ArithmeticError,
            ),
    {
        proof {
            reveal(pow);
        }
        let mut acc: u64 = 1;
        let mut i: u32 = 0;
        while i < rhs
            invariant
                i <= rhs,
                acc == pow(self as int, i as nat),
            decreases rhs - i,
        {
            proof {
                reveal(pow);
                assert(pow(self as int, (i + 1) as nat) == self * pow(self as int, i as nat));
            }
            acc = match acc.checked_mul(self) {
                Some(v) => v,
                None => {
                    proof {
                        if self >= 1 && i + 1 <= rhs {
                            lemma_pow_increases(self as nat, (i + 1) as nat, rhs as nat);
                        }
                    }
                    return Err(ErrorCode::ArithmeticError);
                },
            };
            i = i + 1;
        }
        Ok(acc)
    }

    fn try_pow_assign(&mut self, rhs: u32) -> (r: Result<(), ErrorCode>)
        ensures
            pow(*old(self) as int, rhs as nat) <= u64::MAX ==> r == Ok::<(), ErrorCode>(())
                && *final(self) == pow(*old(self) as int, rhs as nat),
            pow(*old(self) as int, rhs as nat) > u64::MAX ==> r == Err::<(), ErrorCode>(
                ErrorCode::ArithmeticError,
            ) && *final(self) == *old(self),
    {
        match (*self).try_pow(rhs) {
            Ok(v) => {
                *self = v;
                Ok(())
            },
            Err(e) => Err(e),
        }
    }
}

impl TryRem for u64 {
    fn try_rem(self, rhs: Self) -> (r: Result<Self, ErrorCode>)
        ensures
            rhs > 0 ==> r == Ok::<u64, ErrorCode>((self as int % rhs as int) as u64),
            rhs == 0 ==> r == Err::<u64, ErrorCode>(ErrorCode::ArithmeticError),
    {
        match self.checked_rem(rhs) {
            Some(v) => Ok(v),
            None => Err(ErrorCode::ArithmeticError),
        }
    }
}

impl TrySub for u32 {
    fn try_sub(self, rhs: Self) -> (r: Result<Self, ErrorCode>)
        ensures
            rhs <= self ==> r == Ok::<u32, ErrorCode>((self - rhs) as u32),
            rhs > self ==> r == Err::<u32, ErrorCode>(ErrorCode::ArithmeticError),
    {
        match self.checked_sub(rhs) {
            Some(v) => Ok(v),
            None => Err(ErrorCode::ArithmeticError),
        }
    }

    fn try_sub_assign(&mut self, rhs: Self) -> (r: Result<(), ErrorCode>)
        ensures
            rhs <= *old(self) ==> r == Ok::<(), ErrorCode>(()) && *final(self) == *old(self) - rhs,
            rhs > *old(self) ==> r == Err::<(), ErrorCode>(ErrorCode::ArithmeticError)
                && *final(self) == *old(self),
    {
        match (*self).try_sub(rhs) {
            Ok(v) => {
                *self = v;
                Ok(())
            },
            Err(e) => Err(e),
        }
    }
}

impl TryAdd for u32 {
    fn try_add(self, rhs: Self) -> (r: Result<Self, ErrorCode>)
        ensures
            self + rhs <= u32::MAX ==> r == Ok::<u32, ErrorCode>((self + rhs) as u32),
            self + rhs > u32::MAX ==> r == Err::<u32, ErrorCode>(ErrorCode::ArithmeticError),
    {
        match self.checked_add(rhs) {
            Some(v) => Ok(v),
            None => Err(ErrorCode::ArithmeticError),
        }
    }

    fn try_add_assign(&mut self, rhs: Self) -> (r: Result<(), ErrorCode>)
        ensures
            *old(self) + rhs <= u32::MAX ==> r == Ok::<(), ErrorCode>(())
                && *final(self) == *old(self) + rhs,
            *old(self) + rhs > u32::MAX ==> r == Err::<(), ErrorCode>(ErrorCode::ArithmeticError)
                && *final(self) == *old(self),
    {
        match (*self).try_add(rhs) {
            Ok(v) => {
                *self = v;
                Ok(())
            },
            Err(e) => Err(e),
        }
    }
}

impl TryDiv for u32 {
    fn try_floor_div(self, rhs: Self) -> (r: Result<Self, ErrorCode>)
        ensures
            rhs > 0 ==> r == Ok::<u32, ErrorCode>(floor_div_spec(self as int, rhs as int) as u32),
            rhs == 0 ==> r == Err::<u32, ErrorCode>(ErrorCode::ArithmeticError),
    {
        match self.checked_div(rhs) {
            Some(v) => Ok(v),
            None => Err(ErrorCode::ArithmeticError),
        }
    }

    fn try_floor_div_assign(&mut self, rhs: Self) -> (r: Result<(), ErrorCode>)
        ensures
            rhs > 0 ==> r == Ok::<(), ErrorCode>(())
                && *final(self) == floor_div_spec(*old(self) as int, rhs as int),
            rhs == 0 ==> r == Err::<(), ErrorCode>(ErrorCode::ArithmeticError)
                && *final(self) == *old(self),
    {
        match (*self).try_floor_div(rhs) {
            Ok(v) => {
                *self = v;
                Ok(())
            },
            Err(e) => Err(e),
        }
    }

    fn try_ceil_div(self, rhs: Self) -> (r: Result<Self, ErrorCode>)
        ensures
            self >= 1 && rhs >= 1 ==> r == Ok::<u32, ErrorCode>(
                ceil_div_spec(self as int, rhs as int) as u32,
            ),
            self >= 1 && rhs >= 1 ==> ceil_div_spec(self as int, rhs as int) * rhs >= self
                > (ceil_div_spec(self as int, rhs as int) - 1) * rhs,
            self == 0 || rhs == 0 ==> r == Err::<u32, ErrorCode>(ErrorCode::ArithmeticError),
    {
        let reduced_by_one = match self.checked_sub(1) {
            Some(v) => v,
            None => {
                return Err(ErrorCode::ArithmeticError);
            },
        };
        let divided = match reduced_by_one.checked_div(rhs) {
            Some(v) => v,
            None => {
                return Err(ErrorCode::ArithmeticError);
            },
        };
        proof {
            lemma_ceil_div_bounds(self as int, rhs as int);
        }
        match 1u32.checked_add(divided) {
            Some(v) => Ok(v),
            None => Err(ErrorCode::ArithmeticError),
        }
    }

    fn try_ceil_div_assign(&mut self, rhs: Self) -> (r: Result<(), ErrorCode>)
        ensures
            *old(self) >= 1 && rhs >= 1 ==> r == Ok::<(), ErrorCode>(())
                && *final(self) == ceil_div_spec(*old(self) as int, rhs as int),
            *old(self) == 0 || rhs == 0 ==> r == Err::<(), ErrorCode>(ErrorCode::ArithmeticError)
                && *final(self) == *old(self),
    {
        match (*self).try_ceil_div(rhs) {
            Ok(v) => {
                *self = v;
                Ok(())
            },
            Err(e) => Err(e),
        }
    }

    fn try_rounded_div(self, rhs: Self) -> (r: Result<Self, ErrorCode>)
        ensures
            rhs > 0 && self + rhs / 2 <= u32::MAX ==> r == Ok::<u32, ErrorCode>(
                rounded_div_spec(self as int, rhs as int) as u32,
            ),
            rhs == 0 || self + rhs / 2 > u32::MAX ==> r == Err::<u32, ErrorCode>(
                ErrorCode::ArithmeticError,
            ),
    {
        let rounding = rhs / 2;
        let with_rounding = match self.checked_add(rounding) {
            Some(v) => v,
            None => {
                return Err(ErrorCode::ArithmeticError);
            },
        };
        match with_rounding.checked_div(rhs) {
            Some(v) => Ok(v),
            None => Err(ErrorCode::ArithmeticError),
        }
    }

    fn try_rounded_div_assign(&mut self, rhs: Self) -> (r: Result<(), ErrorCode>)
        ensures
            rhs > 0 && *old(self) + rhs / 2 <= u32::MAX ==> r == Ok::<(), ErrorCode>(())
                && *final(self) == rounded_div_spec(*old(self) as int, rhs as int),
            rhs == 0 || *old(self) + rhs / 2 > u32::MAX ==> r == Err::<(), ErrorCode>(
                ErrorCode::ArithmeticError,
            ) && *final(self) == *old(self),
    {
        match (*self).try_rounded_div(rhs) {
            Ok(v) => {
                *self = v;
                Ok(())
            },
            Err(e) => Err(e),
        }
    }
}

impl TryMul for u32 {
    fn try_mul(self, rhs: Self) -> (r: Result<Self, ErrorCode>)
        ensures
            self * rhs <= u32::MAX ==> r == Ok::<u32, ErrorCode>((self * rhs) as u32),
            self * rhs > u32::MAX ==> r == Err::<u32, ErrorCode>(ErrorCode::ArithmeticError),
    {
        match self.checked_mul(rhs) {
            Some(v) => Ok(v),
            None => Err(ErrorCode::ArithmeticError),
        }
    }

    fn try_mul_assign(&mut self, rhs: Self) -> (r: Result<(), ErrorCode>)
        ensures
            *old(self) * rhs <= u32::MAX ==> r == Ok::<(), ErrorCode>(())
                && *final(self) == *old(self) * rhs,
            *old(self) * rhs > u32::MAX ==> r == Err::<(), ErrorCode>(ErrorCode::ArithmeticError)
                && *final(self) == *old(self),
    {
        match (*self).try_mul(rhs) {
            Ok(v) => {
                *self = v;
                Ok(())
            },
            Err(e) => Err(e),
        }
    }
}

impl TryPow for u32 {
    fn try_pow(self, rhs: u32) -> (r: Result<Self, ErrorCode>)
        ensures
            pow(self as int, rhs as nat) >= 0,
            pow(self as int, rhs as nat) <= u32::MAX ==> r == Ok::<u32, ErrorCode>(
                pow(self as int, rhs as nat) as u32,
            ),
            pow(self as int, rhs as nat) > u32::MAX ==> r == Err::<u32, ErrorCode>(
                ErrorCode::ArithmeticError,
            ),
    {
        proof {
            reveal(pow);
        }
        let mut acc: u32 = 1;
        let mut i: u32 = 0;
        while i < rhs
            invariant
                i <= rhs,
                acc == pow(self as int, i as nat),
            decreases rhs - i,
        {
            proof {
                reveal(pow);
                assert(pow(self as int, (i + 1) as nat) == self * pow(self as int, i as nat));
            }
            acc = match acc.checked_mul(self) {
                Some(v) => v,
                None => {
                    proof {
                        if self >= 1 && i + 1 <= rhs {
                            lemma_pow_increases(self as nat, (i + 1) as nat, rhs as nat);
                        }
                    }
                    return Err(ErrorCode::ArithmeticError);
                },
            };
            i = i + 1;
        }
        Ok(acc)
    }

    fn try_pow_assign(&mut self, rhs: u32) -> (r: Result<(), ErrorCode>)
        ensures
            pow(*old(self) as int, rhs as nat) <= u32::MAX ==> r == Ok::<(), ErrorCode>(())
                && *final(self) == pow(*old(self) as int, rhs as nat),
            pow(*old(self) as int, rhs as nat) > u32::MAX ==> r == Err::<(), ErrorCode>(
                ErrorCode::ArithmeticError,
            ) && *final(self) == *old(self),
    {
        match (*self).try_pow(rhs) {
            Ok(v) => {
                *self = v;
                Ok(())
            },
            Err(e) => Err(e),
        }
    }
}

impl TryRem for u32 {
    fn try_rem(self, rhs: Self) -> (r: Result<Self, ErrorCode>)
        ensures
            rhs > 0 ==> r == Ok::<u32, ErrorCode>((self as int % rhs as int) as u32),
            rhs == 0 ==> r == Err::<u32, ErrorCode>(ErrorCode::ArithmeticError),
    {
        match self.checked_rem(rhs) {
            Some(v) => Ok(v),
            None => Err(ErrorCode::ArithmeticError),
        }
    }
}

impl TrySub for u128 {
    fn try_sub(self, rhs: Self) -> (r: Result<Self, ErrorCode>)
        ensures
            rhs <= self ==> r == Ok::<u128, ErrorCode>((self - rhs) as u128),
            rhs > self ==> r == Err::<u128, ErrorCode>(ErrorCode::ArithmeticError),
    {
        match self.checked_sub(rhs) {
            Some(v) => Ok(v),
            None => Err(ErrorCode::ArithmeticError),
        }
    }

    fn try_sub_assign(&mut self, rhs: Self) -> (r: Result<(), ErrorCode>)
        ensures
            rhs <= *old(self) ==> r == Ok::<(), ErrorCode>(()) && *final(self) == *old(self) - rhs,
            rhs > *old(self) ==> r == Err::<(), ErrorCode>(ErrorCode::ArithmeticError)
                && *final(self) == *old(self),
    {
        match (*self).try_sub(rhs) {
            Ok(v) => {
                *self = v;
                Ok(())
            },
            Err(e) => Err(e),
        }
    }
}

impl TryAdd for u128 {
    fn try_add(self, rhs: Self) -> (r: Result<Self, ErrorCode>)
        ensures
            self + rhs <= u128::MAX ==> r == Ok::<u128, ErrorCode>((self + rhs) as u128),
            self + rhs > u128::MAX ==> r == Err::<u128, ErrorCode>(ErrorCode::ArithmeticError),
    {
        match self.checked_add(rhs) {
            Some(v) => Ok(v),
            None => Err(ErrorCode::ArithmeticError),
        }
    }

    fn try_add_assign(&mut self, rhs: Self) -> (r: Result<(), ErrorCode>)
        ensures
            *old(self) + rhs <= u128::MAX ==> r == Ok::<(), ErrorCode>(())
                && *final(self) == *old(self) + rhs,
            *old(self) + rhs > u128::MAX ==> r == Err::<(), ErrorCode>(ErrorCode::ArithmeticError)
                && *final(self) == *old(self),
    {
        match (*self).try_add(rhs) {
            Ok(v) => {
                *self = v;
                Ok(())
            },
            Err(e) => Err(e),
        }
    }
}

impl TryDiv for u128 {
    fn try_floor_div(self, rhs: Self) -> (r: Result<Self, ErrorCode>)
        ensures
            rhs > 0 ==> r == Ok::<u128, ErrorCode>(floor_div_spec(self as int, rhs as int) as u128),
            rhs == 0 ==> r == Err::<u128, ErrorCode>(ErrorCode::ArithmeticError),
    {
        match self.checked_div(rhs) {
            Some(v) => Ok(v),
            None => Err(ErrorCode::ArithmeticError),
        }
    }

    fn try_floor_div_assign(&mut self, rhs: Self) -> (r: Result<(), ErrorCode>)
        ensures
            rhs > 0 ==> r == Ok::<(), ErrorCode>(())
                && *final(self) == floor_div_spec(*old(self) as int, rhs as int),
            rhs == 0 ==> r == Err::<(), ErrorCode>(ErrorCode::ArithmeticError)
                && *final(self) == *old(self),
    {
        match (*self).try_floor_div(rhs) {
            Ok(v) => {
                *self = v;
                Ok(())
            },
            Err(e) => Err(e),
        }
    }

    fn try_ceil_div(self, rhs: Self) -> (r: Result<Self, ErrorCode>)
        ensures
            self >= 1 && rhs >= 1 ==> r == Ok::<u128, ErrorCode>(
                ceil_div_spec(self as int, rhs as int) as u128,
            ),
            self >= 1 && rhs >= 1 ==> ceil_div_spec(self as int, rhs as int) * rhs >= self
                > (ceil_div_spec(self as int, rhs as int) - 1) * rhs,
            self == 0 || rhs == 0 ==> r == Err::<u128, ErrorCode>(ErrorCode::ArithmeticError),
    {
        let reduced_by_one = match self.checked_sub(1) {
            Some(v) => v,
            None => {
                return Err(ErrorCode::ArithmeticError);
            },
        };
        let divided = match reduced_by_one.checked_div(rhs) {
            Some(v) => v,
            None => {
                return Err(ErrorCode::ArithmeticError);
            },
        };
        proof {
            lemma_ceil_div_bounds(self as int, rhs as int);
        }
        match 1u128.checked_add(divided) {
            Some(v) => Ok(v),
            None => Err(ErrorCode::ArithmeticError),
        }
    }

    fn try_ceil_div_assign(&mut self, rhs: Self) -> (r: Result<(), ErrorCode>)
        ensures
            *old(self) >= 1 && rhs >= 1 ==> r == Ok::<(), ErrorCode>(())
                && *final(self) == ceil_div_spec(*old(self) as int, rhs as int),
            *old(self) == 0 || rhs == 0 ==> r == Err::<(), ErrorCode>(ErrorCode::ArithmeticError)
                && *final(self) == *old(self),
    {
        match (*self).try_ceil_div(rhs) {
            Ok(v) => {
                *self = v;
                Ok(())
            },
            Err(e) => Err(e),
        }
    }

    fn try_rounded_div(self, rhs: Self) -> (r: Result<Self, ErrorCode>)
        ensures
            rhs > 0 && self + rhs / 2 <= u128::MAX ==> r == Ok::<u128, ErrorCode>(
                rounded_div_spec(self as int, rhs as int) as u128,
            ),
            rhs == 0 || self + rhs / 2 > u128::MAX ==> r == Err::<u128, ErrorCode>(
                ErrorCode::ArithmeticError,
            ),
    {
        let rounding = rhs / 2;
        let with_rounding = match self.checked_add(rounding) {
            Some(v) => v,
            None => {
                return Err(ErrorCode::ArithmeticError);
            },
        };
        match with_rounding.checked_div(rhs) {
            Some(v) => Ok(v),
            None => Err(ErrorCode::ArithmeticError),
        }
    }

    fn try_rounded_div_assign(&mut self, rhs: Self) -> (r: Result<(), ErrorCode>)
        ensures
            rhs > 0 && *old(self) + rhs / 2 <= u128::MAX ==> r == Ok::<(), ErrorCode>(())
                && *final(self) == rounded_div_spec(*old(self) as int, rhs as int),
            rhs == 0 || *old(self) + rhs / 2 > u128::MAX ==> r == Err::<(), ErrorCode>(
                ErrorCode::ArithmeticError,
            ) && *final(self) == *old(self),
    {
        match (*self).try_rounded_div(rhs) {
            Ok(v) => {
                *self = v;
                Ok(())
            },
            Err(e) => Err(e),
        }
    }
}

impl TryMul for u128 {
    fn try_mul(self, rhs: Self) -> (r: Result<Self, ErrorCode>)
        ensures
            self * rhs <= u128::MAX ==> r == Ok::<u128, ErrorCode>((self * rhs) as u128),
            self * rhs > u128::MAX ==> r == Err::<u128, ErrorCode>(ErrorCode::ArithmeticError),
    {
        match self.checked_mul(rhs) {
            Some(v) => Ok(v),
            None => Err(ErrorCode::ArithmeticError),
        }
    }

    fn try_mul_assign(&mut self, rhs: Self) -> (r: Result<(), ErrorCode>)
        ensures
            *old(self) * rhs <= u128::MAX ==> r == Ok::<(), ErrorCode>(())
                && *final(self) == *old(self) * rhs,
            *old(self) * rhs > u128::MAX ==> r == Err::<(), ErrorCode>(ErrorCode::ArithmeticError)
                && *final(self) == *old(self),
    {
        match (*self).try_mul(rhs) {
            Ok(v) => {
                *self = v;
                Ok(())
            },
            Err(e) => Err(e),
        }
    }
}

impl TryPow for u128 {
    fn try_pow(self, rhs: u32) -> (r: Result<Self, ErrorCode>)
        ensures
            pow(self as int, rhs as nat) >= 0,
            pow(self as int, rhs as nat) <= u128::MAX ==> r == Ok::<u128, ErrorCode>(
                pow(self as int, rhs as nat) as u128,
            ),
            pow(self as int, rhs as nat) > u128::MAX ==> r == Err::<u128, ErrorCode>(
                ErrorCode::ArithmeticError,
            ),
    {
        proof {
            reveal(pow);
        }
        let mut acc: u128 = 1;
        let mut i: u32 = 0;
        while i < rhs
            invariant
                i <= rhs,
                acc == pow(self as int, i as nat),
            decreases rhs - i,
        {
            proof {
                reveal(pow);
                assert(pow(self as int, (i + 1) as nat) == self * pow(self as int, i as nat));
            }
            acc = match acc.checked_mul(self) {
                Some(v) => v,
                None => {
                    proof {
                        if self >= 1 && i + 1 <= rhs {
                            lemma_pow_increases(self as nat, (i + 1) as nat, rhs as nat);
                        }
                    }
                    return Err(ErrorCode::ArithmeticError);
                },
            };
            i = i + 1;
        }
        Ok(acc)
    }

    fn try_pow_assign(&mut self, rhs: u32) -> (r: Result<(), ErrorCode>)
        ensures
            pow(*old(self) as int, rhs as nat) <= u128::MAX ==> r == Ok::<(), ErrorCode>(())
                && *final(self) == pow(*old(self) as int, rhs as nat),
            pow(*old(self) as int, rhs as nat) > u128::MAX ==> r == Err::<(), ErrorCode>(
                ErrorCode::ArithmeticError,
            ) && *final(self) == *old(self),
    {
        match (*self).try_pow(rhs) {
            Ok(v) => {
                *self = v;
                Ok(())
            },
            Err(e) => Err(e),
        }
    }
}

impl TryRem for u128 {
    fn try_rem(self, rhs: Self) -> (r: Result<Self, ErrorCode>)
        ensures
            rhs > 0 ==> r == Ok::<u128, ErrorCode>((self as int % rhs as int) as u128),
            rhs == 0 ==> r == Err::<u128, ErrorCode>(ErrorCode::ArithmeticError),
    {
        match self.checked_rem(rhs) {
            Some(v) => Ok(v),
            None => Err(ErrorCode::ArithmeticError),
        }
    }
}


impl TrySub for i64 {
    fn try_sub(self, rhs: Self) -> (r: Result<Self, ErrorCode>)
        ensures
            i64::MIN <= self - rhs <= i64::MAX ==> r == Ok::<i64, ErrorCode>((self - rhs) as i64),
            !(i64::MIN <= self - rhs <= i64::MAX) ==> r == Err::<i64, ErrorCode>(
                ErrorCode::ArithmeticError,
            ),
    {
        match self.checked_sub(rhs) {
            Some(v) => Ok(v),
            None => Err(ErrorCode::ArithmeticError),
        }
    }

    fn try_sub_assign(&mut self, rhs: Self) -> (r: Result<(), ErrorCode>)
        ensures
            i64::MIN <= *old(self) - rhs <= i64::MAX ==> r == Ok::<(), ErrorCode>(())
                && *final(self) == *old(self) - rhs,
            !(i64::MIN <= *old(self) - rhs <= i64::MAX) ==> r == Err::<(), ErrorCode>(
                ErrorCode::ArithmeticError,
            ) && *final(self) == *old(self),
    {
        match (*self).try_sub(rhs) {
            Ok(v) => {
                *self = v;
                Ok(())
            },
            Err(e) => Err(e),
        }
    }
}

impl TryAdd for i64 {
    fn try_add(self, rhs: Self) -> (r: Result<Self, ErrorCode>)
        ensures
            i64::MIN <= self + rhs <= i64::MAX ==> r == Ok::<i64, ErrorCode>((self + rhs) as i64),
            !(i64::MIN <= self + rhs <= i64::MAX) ==> r == Err::<i64, ErrorCode>(
                ErrorCode::ArithmeticError,
            ),
    {
        match self.checked_add(rhs) {
            Some(v) => Ok(v),
            None => Err(ErrorCode::ArithmeticError),
        }
    }

    fn try_add_assign(&mut self, rhs: Self) -> (r: Result<(), ErrorCode>)
        ensures
            i64::MIN <= *old(self) + rhs <= i64::MAX ==> r == Ok::<(), ErrorCode>(())
                && *final(self) == *old(self) + rhs,
            !(i64::MIN <= *old(self) + rhs <= i64::MAX) ==> r == Err::<(), ErrorCode>(
                ErrorCode::ArithmeticError,
            ) && *final(self) == *old(self),
    {
        match (*self).try_add(rhs) {
            Ok(v) => {
                *self = v;
                Ok(())
            },
            Err(e) => Err(e),
        }
    }
}

impl TryDiv for i64 {
    fn try_floor_div(self, rhs: Self) -> (r: Result<Self, ErrorCode>)
        ensures
            rhs == 0 ==> r == Err::<i64, ErrorCode>(ErrorCode::ArithmeticError),
            rhs != 0 && i64::MIN <= trunc_div_spec(self as int, rhs as int) <= i64::MAX ==> r
                == Ok::<i64, ErrorCode>(trunc_div_spec(self as int, rhs as int) as i64),
            rhs != 0 && !(i64::MIN <= trunc_div_spec(self as int, rhs as int) <= i64::MAX) ==> r
                == Err::<i64, ErrorCode>(ErrorCode::ArithmeticError),
    {
        match self.checked_div(rhs) {
            Some(v) => Ok(v),
            None => Err(ErrorCode::ArithmeticError),
        }
    }

    fn try_floor_div_assign(&mut self, rhs: Self) -> (r: Result<(), ErrorCode>)
        ensures
            rhs != 0 && i64::MIN <= trunc_div_spec(*old(self) as int, rhs as int) <= i64::MAX
                ==> r == Ok::<(), ErrorCode>(()) && *final(self) == trunc_div_spec(
                *old(self) as int,
                rhs as int,
            ),
            rhs == 0 || !(i64::MIN <= trunc_div_spec(*old(self) as int, rhs as int) <= i64::MAX)
                ==> r == Err::<(), ErrorCode>(ErrorCode::ArithmeticError) && *final(self) == *old(
                self,
            ),
    {
        match (*self).try_floor_div(rhs) {
            Ok(v) => {
                *self = v;
                Ok(())
            },
            Err(e) => Err(e),
        }
    }

    fn try_ceil_div(self, rhs: Self) -> (r: Result<Self, ErrorCode>)
        ensures
            ({
                let q = trunc_div_spec(self - 1, rhs as int);
                &&& (self == i64::MIN || rhs == 0 ==> r == Err::<i64, ErrorCode>(
                    ErrorCode::ArithmeticError,
                ))
                &&& (self != i64::MIN && rhs != 0 && !(i64::MIN <= q <= i64::MAX) ==> r == Err::<
                    i64,
                    ErrorCode,
                >(ErrorCode::ArithmeticError))
                &&& (self != i64::MIN && rhs != 0 && i64::MIN <= q <= i64::MAX && q + 1
                    > i64::MAX ==> r == Err::<i64, ErrorCode>(ErrorCode::ArithmeticError))
                &&& (self != i64::MIN && rhs != 0 && i64::MIN <= q <= i64::MAX && q + 1
                    <= i64::MAX ==> r == Ok::<i64, ErrorCode>((1 + q) as i64))
            }),
            self >= 1 && rhs >= 1 ==> r == Ok::<i64, ErrorCode>(
                ceil_div_spec(self as int, rhs as int) as i64,
            ) && ceil_div_spec(self as int, rhs as int) * rhs >= self > (ceil_div_spec(
                self as int,
                rhs as int,
            ) - 1) * rhs,
    {
        proof {
            if self >= 1 && rhs >= 1 {
                lemma_ceil_div_bounds(self as int, rhs as int);
            }
        }
        let reduced_by_one = match self.checked_sub(1) {
            Some(v) => v,
            None => {
                return Err(ErrorCode::ArithmeticError);
            },
        };
        let divided = match reduced_by_one.checked_div(rhs) {
            Some(v) => v,
            None => {
                return Err(ErrorCode::ArithmeticError);
            },
        };
        match 1i64.checked_add(divided) {
            Some(v) => Ok(v),
            None => Err(ErrorCode::ArithmeticError),
        }
    }

    fn try_ceil_div_assign(&mut self, rhs: Self) -> (r: Result<(), ErrorCode>)
        ensures
            *old(self) >= 1 && rhs >= 1 ==> r == Ok::<(), ErrorCode>(())
                && *final(self) == ceil_div_spec(*old(self) as int, rhs as int),
            *old(self) == i64::MIN || rhs == 0 ==> r == Err::<(), ErrorCode>(
                ErrorCode::ArithmeticError,
            ) && *final(self) == *old(self),
            r is Err ==> r == Err::<(), ErrorCode>(ErrorCode::ArithmeticError) && *final(self)
                == *old(self),
    {
        match (*self).try_ceil_div(rhs) {
            Ok(v) => {
                *self = v;
                Ok(())
            },
            Err(e) => Err(e),
        }
    }

    fn try_rounded_div(self, rhs: Self) -> (r: Result<Self, ErrorCode>)
        ensures
            ({
                let sum = self + trunc_div_spec(rhs as int, 2);
                let q = trunc_div_spec(sum, rhs as int);
                &&& (!(i64::MIN <= sum <= i64::MAX) ==> r == Err::<i64, ErrorCode>(
                    ErrorCode::ArithmeticError,
                ))
                &&& (i64::MIN <= sum <= i64::MAX && rhs == 0 ==> r == Err::<i64, ErrorCode>(
                    ErrorCode::ArithmeticError,
                ))
                &&& (i64::MIN <= sum <= i64::MAX && rhs != 0 && !(i64::MIN <= q <= i64::MAX)
                    ==> r == Err::<i64, ErrorCode>(ErrorCode::ArithmeticError))
                &&& (i64::MIN <= sum <= i64::MAX && rhs != 0 && i64::MIN <= q <= i64::MAX ==> r
                    == Ok::<i64, ErrorCode>(q as i64))
            }),
            self >= 0 && rhs >= 1 && self + rhs / 2 <= i64::MAX ==> r == Ok::<i64, ErrorCode>(
                rounded_div_spec(self as int, rhs as int) as i64,
            ),
    {
        let rounding = match rhs.checked_div(2) {
            Some(v) => v,
            None => {
                return Err(ErrorCode::ArithmeticError);
            },
        };
        let with_rounding = match self.checked_add(rounding) {
            Some(v) => v,
            None => {
                return Err(ErrorCode::ArithmeticError);
            },
        };
        match with_rounding.checked_div(rhs) {
            Some(v) => Ok(v),
            None => Err(ErrorCode::ArithmeticError),
        }
    }

    fn try_rounded_div_assign(&mut self, rhs: Self) -> (r: Result<(), ErrorCode>)
        ensures
            *old(self) >= 0 && rhs >= 1 && *old(self) + rhs / 2 <= i64::MAX ==> r == Ok::<
                (),
                ErrorCode,
            >(()) && *final(self) == rounded_div_spec(*old(self) as int, rhs as int),
            r is Err ==> r == Err::<(), ErrorCode>(ErrorCode::ArithmeticError) && *final(self)
                == *old(self),
    {
        match (*self).try_rounded_div(rhs) {
            Ok(v) => {
                *self = v;
                Ok(())
            },
            Err(e) => Err(e),
        }
    }
}

impl TryMul for i64 {
    fn try_mul(self, rhs: Self) -> (r: Result<Self, ErrorCode>)
        ensures
            i64::MIN <= self * rhs <= i64::MAX ==> r == Ok::<i64, ErrorCode>((self * rhs) as i64),
            !(i64::MIN <= self * rhs <= i64::MAX) ==> r == Err::<i64, ErrorCode>(
                ErrorCode::ArithmeticError,
            ),
    {
        match self.checked_mul(rhs) {
            Some(v) => Ok(v),
            None => Err(ErrorCode::ArithmeticError),
        }
    }

    fn try_mul_assign(&mut self, rhs: Self) -> (r: Result<(), ErrorCode>)
        ensures
            i64::MIN <= *old(self) * rhs <= i64::MAX ==> r == Ok::<(), ErrorCode>(())
                && *final(self) == *old(self) * rhs,
            !(i64::MIN <= *old(self) * rhs <= i64::MAX) ==> r == Err::<(), ErrorCode>(
                ErrorCode::ArithmeticError,
            ) && *final(self) == *old(self),
    {
        match (*self).try_mul(rhs) {
            Ok(v) => {
                *self = v;
                Ok(())
            },
            Err(e) => Err(e),
        }
    }
}

impl TryPow for i64 {
    fn try_pow(self, rhs: u32) -> (r: Result<Self, ErrorCode>)
        ensures
            !spec_pow_escapes(self as int, rhs as nat, i64::MIN as int, i64::MAX as int) ==> r
                == Ok::<i64, ErrorCode>(pow(self as int, rhs as nat) as i64),
            spec_pow_escapes(self as int, rhs as nat, i64::MIN as int, i64::MAX as int) ==> r
                == Err::<i64, ErrorCode>(ErrorCode::ArithmeticError),
    {
        proof {
            reveal(pow);
        }
        let mut acc: i64 = 1;
        let mut i: u32 = 0;
        while i < rhs
            invariant
                i <= rhs,
                acc == pow(self as int, i as nat),
                !spec_pow_escapes(self as int, i as nat, i64::MIN as int, i64::MAX as int),
            decreases rhs - i,
        {
            proof {
                reveal(pow);
                assert(pow(self as int, (i + 1) as nat) == self * pow(self as int, i as nat));
            }
            acc = match acc.checked_mul(self) {
                Some(v) => v,
                None => {
                    proof {
                        lemma_pow_escapes_mono(
                            self as int,
                            (i + 1) as nat,
                            rhs as nat,
                            i64::MIN as int,
                            i64::MAX as int,
                        );
                    }
                    return Err(ErrorCode::ArithmeticError);
                },
            };
            i = i + 1;
        }
        Ok(acc)
    }

    fn try_pow_assign(&mut self, rhs: u32) -> (r: Result<(), ErrorCode>)
        ensures
            !spec_pow_escapes(*old(self) as int, rhs as nat, i64::MIN as int, i64::MAX as int)
                ==> r == Ok::<(), ErrorCode>(()) && *final(self) == pow(
                *old(self) as int,
                rhs as nat,
            ) as i64,
            spec_pow_escapes(*old(self) as int, rhs as nat, i64::MIN as int, i64::MAX as int)
                ==> r == Err::<(), ErrorCode>(ErrorCode::ArithmeticError) && *final(self) == *old(
                self,
            ),
    {
        match (*self).try_pow(rhs) {
            Ok(v) => {
                *self = v;
                Ok(())
            },
            Err(e) => Err(e),
        }
    }
}

impl TryRem for i64 {
    fn try_rem(self, rhs: Self) -> (r: Result<Self, ErrorCode>)
        ensures
            ({
                let m = trunc_rem_spec(self as int, rhs as int);
                &&& (rhs == 0 || (self == i64::MIN && rhs == -1) ==> r == Err::<i64, ErrorCode>(
                    ErrorCode::ArithmeticError,
                ))
                &&& (!(rhs == 0 || (self == i64::MIN && rhs == -1)) && i64::MIN <= m <= i64::MAX
                    ==> r == Ok::<i64, ErrorCode>(m as i64))
                &&& (!(rhs == 0 || (self == i64::MIN && rhs == -1)) && !(i64::MIN <= m
                    <= i64::MAX) ==> r == Err::<i64, ErrorCode>(ErrorCode::ArithmeticError))
            }),
    {
        match self.checked_rem(rhs) {
            Some(v) => Ok(v),
            None => Err(ErrorCode::ArithmeticError),
        }
    }
}

impl TrySub for u8 {
    fn try_sub(self, rhs: Self) -> (r: Result<Self, ErrorCode>)
        ensures
            rhs <= self ==> r == Ok::<u8, ErrorCode>((self - rhs) as u8),
            rhs > self ==> r == Err::<u8, ErrorCode>(ErrorCode::ArithmeticError),
    {
        match self.checked_sub(rhs) {
            Some(v) => Ok(v),
            None => Err(ErrorCode::ArithmeticError),
        }
    }

    fn try_sub_assign(&mut self, rhs: Self) -> (r: Result<(), ErrorCode>)
        ensures
            rhs <= *old(self) ==> r == Ok::<(), ErrorCode>(()) && *final(self) == *old(self) - rhs,
            rhs > *old(self) ==> r == Err::<(), ErrorCode>(ErrorCode::ArithmeticError)
                && *final(self) == *old(self),
    {
        match (*self).try_sub(rhs) {
            Ok(v) => {
                *self = v;
                Ok(())
            },
            Err(e) => Err(e),
        }
    }
}

impl TryAdd for u8 {
    fn try_add(self, rhs: Self) -> (r: Result<Self, ErrorCode>)
        ensures
            self + rhs <= u8::MAX ==> r == Ok::<u8, ErrorCode>((self + rhs) as u8),
            self + rhs > u8::MAX ==> r == Err::<u8, ErrorCode>(ErrorCode::ArithmeticError),
    {
        match self.checked_add(rhs) {
            Some(v) => Ok(v),
            None => Err(ErrorCode::ArithmeticError),
        }
    }

    fn try_add_assign(&mut self, rhs: Self) -> (r: Result<(), ErrorCode>)
        ensures
            *old(self) + rhs <= u8::MAX ==> r == Ok::<(), ErrorCode>(())
                && *final(self) == *old(self) + rhs,
            *old(self) + rhs > u8::MAX ==> r == Err::<(), ErrorCode>(ErrorCode::ArithmeticError)
                && *final(self) == *old(self),
    {
        match (*self).try_add(rhs) {
            Ok(v) => {
                *self = v;
                Ok(())
            },
            Err(e) => Err(e),
        }
    }
}

impl TryDiv for u8 {
    fn try_floor_div(self, rhs: Self) -> (r: Result<Self, ErrorCode>)
        ensures
            rhs > 0 ==> r == Ok::<u8, ErrorCode>(floor_div_spec(self as int, rhs as int) as u8),
            rhs == 0 ==> r == Err::<u8, ErrorCode>(ErrorCode::ArithmeticError),
    {
        match self.checked_div(rhs) {
            Some(v) => Ok(v),
            None => Err(ErrorCode::ArithmeticError),
        }
    }

    fn try_floor_div_assign(&mut self, rhs: Self) -> (r: Result<(), ErrorCode>)
        ensures
            rhs > 0 ==> r == Ok::<(), ErrorCode>(())
                && *final(self) == floor_div_spec(*old(self) as int, rhs as int),
            rhs == 0 ==> r == Err::<(), ErrorCode>(ErrorCode::ArithmeticError)
                && *final(self) == *old(self),
    {
        match (*self).try_floor_div(rhs) {
            Ok(v) => {
                *self = v;
                Ok(())
            },
            Err(e) => Err(e),
        }
    }

    fn try_ceil_div(self, rhs: Self) -> (r: Result<Self, ErrorCode>)
        ensures
            self >= 1 && rhs >= 1 ==> r == Ok::<u8, ErrorCode>(
                ceil_div_spec(self as int, rhs as int) as u8,
            ),
            self >= 1 && rhs >= 1 ==> ceil_div_spec(self as int, rhs as int) * rhs >= self
                > (ceil_div_spec(self as int, rhs as int) - 1) * rhs,
            self == 0 || rhs == 0 ==> r == Err::<u8, ErrorCode>(ErrorCode::ArithmeticError),
    {
        let reduced_by_one = match self.checked_sub(1) {
            Some(v) => v,
            None => {
                return Err(ErrorCode::ArithmeticError);
            },
        };
        let divided = match reduced_by_one.checked_div(rhs) {
            Some(v) => v,
            None => {
                return Err(ErrorCode::ArithmeticError);
            },
        };
        proof {
            lemma_ceil_div_bounds(self as int, rhs as int);
        }
        match 1u8.checked_add(divided) {
            Some(v) => Ok(v),
            None => Err(ErrorCode::ArithmeticError),
        }
    }

    fn try_ceil_div_assign(&mut self, rhs: Self) -> (r: Result<(), ErrorCode>)
        ensures
            *old(self) >= 1 && rhs >= 1 ==> r == Ok::<(), ErrorCode>(())
                && *final(self) == ceil_div_spec(*old(self) as int, rhs as int),
            *old(self) == 0 || rhs == 0 ==> r == Err::<(), ErrorCode>(ErrorCode::ArithmeticError)
                && *final(self) == *old(self),
    {
        match (*self).try_ceil_div(rhs) {
            Ok(v) => {
                *self = v;
                Ok(())
            },
            Err(e) => Err(e),
        }
    }

    fn try_rounded_div(self, rhs: Self) -> (r: Result<Self, ErrorCode>)
        ensures
            rhs > 0 && self + rhs / 2 <= u8::MAX ==> r == Ok::<u8, ErrorCode>(
                rounded_div_spec(self as int, rhs as int) as u8,
            ),
            rhs == 0 || self + rhs / 2 > u8::MAX ==> r == Err::<u8, ErrorCode>(
                ErrorCode::ArithmeticError,
            ),
    {
        let rounding = rhs / 2;
        let with_rounding = match self.checked_add(rounding) {
            Some(v) => v,
            None => {
                return Err(ErrorCode::ArithmeticError);
            },
        };
        match with_rounding.checked_div(rhs) {
            Some(v) => Ok(v),
            None => Err(ErrorCode::ArithmeticError),
        }
    }

    fn try_rounded_div_assign(&mut self, rhs: Self) -> (r: Result<(), ErrorCode>)
        ensures
            rhs > 0 && *old(self) + rhs / 2 <= u8::MAX ==> r == Ok::<(), ErrorCode>(())
                && *final(self) == rounded_div_spec(*old(self) as int, rhs as int),
            rhs == 0 || *old(self) + rhs / 2 > u8::MAX ==> r == Err::<(), ErrorCode>(
                ErrorCode::ArithmeticError,
            ) && *final(self) == *old(self),
    {
        match (*self).try_rounded_div(rhs) {
            Ok(v) => {
                *self = v;
                Ok(())
            },
            Err(e) => Err(e),
        }
    }
}

impl TryMul for u8 {
    fn try_mul(self, rhs: Self) -> (r: Result<Self, ErrorCode>)
        ensures
            self * rhs <= u8::MAX ==> r == Ok::<u8, ErrorCode>((self * rhs) as u8),
            self * rhs > u8::MAX ==> r == Err::<u8, ErrorCode>(ErrorCode::ArithmeticError),
    {
        match self.checked_mul(rhs) {
            Some(v) => Ok(v),
            None => Err(ErrorCode::ArithmeticError),
        }
    }

    fn try_mul_assign(&mut self, rhs: Self) -> (r: Result<(), ErrorCode>)
        ensures
            *old(self) * rhs <= u8::MAX ==> r == Ok::<(), ErrorCode>(())
                && *final(self) == *old(self) * rhs,
            *old(self) * rhs > u8::MAX ==> r == Err::<(), ErrorCode>(ErrorCode::ArithmeticError)
                && *final(self) == *old(self),
    {
        match (*self).try_mul(rhs) {
            Ok(v) => {
                *self = v;
                Ok(())
            },
            Err(e) => Err(e),
        }
    }
}

impl TryPow for u8 {
    fn try_pow(self, rhs: u32) -> (r: Result<Self, ErrorCode>)
        ensures
            pow(self as int, rhs as nat) >= 0,
            pow(self as int, rhs as nat) <= u8::MAX ==> r == Ok::<u8, ErrorCode>(
                pow(self as int, rhs as nat) as u8,
            ),
            pow(self as int, rhs as nat) > u8::MAX ==> r == Err::<u8, ErrorCode>(
                ErrorCode::ArithmeticError,
            ),
    {
        proof {
            reveal(pow);
        }
        let mut acc: u8 = 1;
        let mut i: u32 = 0;
        while i < rhs
            invariant
                i <= rhs,
                acc == pow(self as int, i as nat),
            decreases rhs - i,
        {
            proof {
                reveal(pow);
                assert(pow(self as int, (i + 1) as nat) == self * pow(self as int, i as nat));
            }
            acc = match acc.checked_mul(self) {
                Some(v) => v,
                None => {
                    proof {
                        if self >= 1 && i + 1 <= rhs {
                            lemma_pow_increases(self as nat, (i + 1) as nat, rhs as nat);
                        }
                    }
                    return Err(ErrorCode::ArithmeticError);
                },
            };
            i = i + 1;
        }
        Ok(acc)
    }

    fn try_pow_assign(&mut self, rhs: u32) -> (r: Result<(), ErrorCode>)
        ensures
            pow(*old(self) as int, rhs as nat) <= u8::MAX ==> r == Ok::<(), ErrorCode>(())
                && *final(self) == pow(*old(self) as int, rhs as nat),
            pow(*old(self) as int, rhs as nat) > u8::MAX ==> r == Err::<(), ErrorCode>(
                ErrorCode::ArithmeticError,
            ) && *final(self) == *old(self),
    {
        match (*self).try_pow(rhs) {
            Ok(v) => {
                *self = v;
                Ok(())
            },
            Err(e) => Err(e),
        }
    }
}

impl TryRem for u8 {
    fn try_rem(self, rhs: Self) -> (r: Result<Self, ErrorCode>)
        ensures
            rhs > 0 ==> r == Ok::<u8, ErrorCode>((self as int % rhs as int) as u8),
            rhs == 0 ==> r == Err::<u8, ErrorCode>(ErrorCode::ArithmeticError),
    {
        match self.checked_rem(rhs) {
            Some(v) => Ok(v),
            None => Err(ErrorCode::ArithmeticError),
        }
    }
}

impl TrySub for u16 {
    fn try_sub(self, rhs: Self) -> (r: Result<Self, ErrorCode>)
        ensures
            rhs <= self ==> r == Ok::<u16, ErrorCode>((self - rhs) as u16),
            rhs > self ==> r == Err::<u16, ErrorCode>(ErrorCode::ArithmeticError),
    {
        match self.checked_sub(rhs) {
            Some(v) => Ok(v),
            None => Err(ErrorCode::ArithmeticError),
        }
    }

    fn try_sub_assign(&mut self, rhs: Self) -> (r: Result<(), ErrorCode>)
        ensures
            rhs <= *old(self) ==> r == Ok::<(), ErrorCode>(()) && *final(self) == *old(self) - rhs,
            rhs > *old(self) ==> r == Err::<(), ErrorCode>(ErrorCode::ArithmeticError)
                && *final(self) == *old(self),
    {
        match (*self).try_sub(rhs) {
            Ok(v) => {
                *self = v;
                Ok(())
            },
            Err(e) => Err(e),
        }
    }
}

impl TryAdd for u16 {
    fn try_add(self, rhs: Self) -> (r: Result<Self, ErrorCode>)
        ensures
            self + rhs <= u16::MAX ==> r == Ok::<u16, ErrorCode>((self + rhs) as u16),
            self + rhs > u16::MAX ==> r == Err::<u16, ErrorCode>(ErrorCode::ArithmeticError),
    {
        match self.checked_add(rhs) {
            Some(v) => Ok(v),
            None => Err(ErrorCode::ArithmeticError),
        }
    }

    fn try_add_assign(&mut self, rhs: Self) -> (r: Result<(), ErrorCode>)
        ensures
            *old(self) + rhs <= u16::MAX ==> r == Ok::<(), ErrorCode>(())
                && *final(self) == *old(self) + rhs,
            *old(self) + rhs > u16::MAX ==> r == Err::<(), ErrorCode>(ErrorCode::ArithmeticError)
                && *final(self) == *old(self),
    {
        match (*self).try_add(rhs) {
            Ok(v) => {
                *self = v;
                Ok(())
            },
            Err(e) => Err(e),
        }
    }
}

impl TryDiv for u16 {
    fn try_floor_div(self, rhs: Self) -> (r: Result<Self, ErrorCode>)
        ensures
            rhs > 0 ==> r == Ok::<u16, ErrorCode>(floor_div_spec(self as int, rhs as int) as u16),
            rhs == 0 ==> r == Err::<u16, ErrorCode>(ErrorCode::ArithmeticError),
    {
        match self.checked_div(rhs) {
            Some(v) => Ok(v),
            None => Err(ErrorCode::ArithmeticError),
        }
    }

    fn try_floor_div_assign(&mut self, rhs: Self) -> (r: Result<(), ErrorCode>)
        ensures
            rhs > 0 ==> r == Ok::<(), ErrorCode>(())
                && *final(self) == floor_div_spec(*old(self) as int, rhs as int),
            rhs == 0 ==> r == Err::<(), ErrorCode>(ErrorCode::ArithmeticError)
                && *final(self) == *old(self),
    {
        match (*self).try_floor_div(rhs) {
            Ok(v) => {
                *self = v;
                Ok(())
            },
            Err(e) => Err(e),
        }
    }

    fn try_ceil_div(self, rhs: Self) -> (r: Result<Self, ErrorCode>)
        ensures
            self >= 1 && rhs >= 1 ==> r == Ok::<u16, ErrorCode>(
                ceil_div_spec(self as int, rhs as int) as u16,
            ),
            self >= 1 && rhs >= 1 ==> ceil_div_spec(self as int, rhs as int) * rhs >= self
                > (ceil_div_spec(self as int, rhs as int) - 1) * rhs,
            self == 0 || rhs == 0 ==> r == Err::<u16, ErrorCode>(ErrorCode::ArithmeticError),
    {
        let reduced_by_one = match self.checked_sub(1) {
            Some(v) => v,
            None => {
                return Err(ErrorCode::ArithmeticError);
            },
        };
        let divided = match reduced_by_one.checked_div(rhs) {
            Some(v) => v,
            None => {
                return Err(ErrorCode::ArithmeticError);
            },
        };
        proof {
            lemma_ceil_div_bounds(self as int, rhs as int);
        }
        match 1u16.checked_add(divided) {
            Some(v) => Ok(v),
            None => Err(ErrorCode::ArithmeticError),
        }
    }

    fn try_ceil_div_assign(&mut self, rhs: Self) -> (r: Result<(), ErrorCode>)
        ensures
            *old(self) >= 1 && rhs >= 1 ==> r == Ok::<(), ErrorCode>(())
                && *final(self) == ceil_div_spec(*old(self) as int, rhs as int),
            *old(self) == 0 || rhs == 0 ==> r == Err::<(), ErrorCode>(ErrorCode::ArithmeticError)
                && *final(self) == *old(self),
    {
        match (*self).try_ceil_div(rhs) {
            Ok(v) => {
                *self = v;
                Ok(())
            },
            Err(e) => Err(e),
        }
    }

    fn try_rounded_div(self, rhs: Self) -> (r: Result<Self, ErrorCode>)
        ensures
            rhs > 0 && self + rhs / 2 <= u16::MAX ==> r == Ok::<u16, ErrorCode>(
                rounded_div_spec(self as int, rhs as int) as u16,
            ),
            rhs == 0 || self + rhs / 2 > u16::MAX ==> r == Err::<u16, ErrorCode>(
                ErrorCode::ArithmeticError,
            ),
    {
        let rounding = rhs / 2;
        let with_rounding = match self.checked_add(rounding) {
            Some(v) => v,
            None => {
                return Err(ErrorCode::ArithmeticError);
            },
        };
        match with_rounding.checked_div(rhs) {
            Some(v) => Ok(v),
            None => Err(ErrorCode::ArithmeticError),
        }
    }

    fn try_rounded_div_assign(&mut self, rhs: Self) -> (r: Result<(), ErrorCode>)
        ensures
            rhs > 0 && *old(self) + rhs / 2 <= u16::MAX ==> r == Ok::<(), ErrorCode>(())
                && *final(self) == rounded_div_spec(*old(self) as int, rhs as int),
            rhs == 0 || *old(self) + rhs / 2 > u16::MAX ==> r == Err::<(), ErrorCode>(
                ErrorCode::ArithmeticError,
            ) && *final(self) == *old(self),
    {
        match (*self).try_rounded_div(rhs) {
            Ok(v) => {
                *self = v;
                Ok(())
            },
            Err(e) => Err(e),
        }
    }
}

impl TryMul for u16 {
    fn try_mul(self, rhs: Self) -> (r: Result<Self, ErrorCode>)
        ensures
            self * rhs <= u16::MAX ==> r == Ok::<u16, ErrorCode>((self * rhs) as u16),
            self * rhs > u16::MAX ==> r == Err::<u16, ErrorCode>(ErrorCode::ArithmeticError),
    {
        match self.checked_mul(rhs) {
            Some(v) => Ok(v),
            None => Err(ErrorCode::ArithmeticError),
        }
    }

    fn try_mul_assign(&mut self, rhs: Self) -> (r: Result<(), ErrorCode>)
        ensures
            *old(self) * rhs <= u16::MAX ==> r == Ok::<(), ErrorCode>(())
                && *final(self) == *old(self) * rhs,
            *old(self) * rhs > u16::MAX ==> r == Err::<(), ErrorCode>(ErrorCode::ArithmeticError)
                && *final(self) == *old(self),
    {
        match (*self).try_mul(rhs) {
            Ok(v) => {
                *self = v;
                Ok(())
            },
            Err(e) => Err(e),
        }
    }
}

impl TryPow for u16 {
    fn try_pow(self, rhs: u32) -> (r: Result<Self, ErrorCode>)
        ensures
            pow(self as int, rhs as nat) >= 0,
            pow(self as int, rhs as nat) <= u16::MAX ==> r == Ok::<u16, ErrorCode>(
                pow(self as int, rhs as nat) as u16,
            ),
            pow(self as int, rhs as nat) > u16::MAX ==> r == Err::<u16, ErrorCode>(
                ErrorCode::ArithmeticError,
            ),
    {
        proof {
            reveal(pow);
        }
        let mut acc: u16 = 1;
        let mut i: u32 = 0;
        while i < rhs
            invariant
                i <= rhs,
                acc == pow(self as int, i as nat),
            decreases rhs - i,
        {
            proof {
                reveal(pow);
                assert(pow(self as int, (i + 1) as nat) == self * pow(self as int, i as nat));
            }
            acc = match acc.checked_mul(self) {
                Some(v) => v,
                None => {
                    proof {
                        if self >= 1 && i + 1 <= rhs {
                            lemma_pow_increases(self as nat, (i + 1) as nat, rhs as nat);
                        }
                    }
                    return Err(ErrorCode::ArithmeticError);
                },
            };
            i = i + 1;
        }
        Ok(acc)
    }

    fn try_pow_assign(&mut self, rhs: u32) -> (r: Result<(), ErrorCode>)
        ensures
            pow(*old(self) as int, rhs as nat) <= u16::MAX ==> r == Ok::<(), ErrorCode>(())
                && *final(self) == pow(*old(self) as int, rhs as nat),
            pow(*old(self) as int, rhs as nat) > u16::MAX ==> r == Err::<(), ErrorCode>(
                ErrorCode::ArithmeticError,
            ) && *final(self) == *old(self),
    {
        match (*self).try_pow(rhs) {
            Ok(v) => {
                *self = v;
                Ok(())
            },
            Err(e) => Err(e),
        }
    }
}

impl TryRem for u16 {
    fn try_rem(self, rhs: Self) -> (r: Result<Self, ErrorCode>)
        ensures
            rhs > 0 ==> r == Ok::<u16, ErrorCode>((self as int % rhs as int) as u16),
            rhs == 0 ==> r == Err::<u16, ErrorCode>(ErrorCode::ArithmeticError),
    {
        match self.checked_rem(rhs) {
            Some(v) => Ok(v),
            None => Err(ErrorCode::ArithmeticError),
        }
    }
}

impl TrySub for i8 {
    fn try_sub(self, rhs: Self) -> (r: Result<Self, ErrorCode>)
        ensures
            i8::MIN <= self - rhs <= i8::MAX ==> r == Ok::<i8, ErrorCode>((self - rhs) as i8),
            !(i8::MIN <= self - rhs <= i8::MAX) ==> r == Err::<i8, ErrorCode>(
                ErrorCode::ArithmeticError,
            ),
    {
        match self.checked_sub(rhs) {
            Some(v) => Ok(v),
            None => Err(ErrorCode::ArithmeticError),
        }
    }

    fn try_sub_assign(&mut self, rhs: Self) -> (r: Result<(), ErrorCode>)
        ensures
            i8::MIN <= *old(self) - rhs <= i8::MAX ==> r == Ok::<(), ErrorCode>(())
                && *final(self) == *old(self) - rhs,
            !(i8::MIN <= *old(self) - rhs <= i8::MAX) ==> r == Err::<(), ErrorCode>(
                ErrorCode::ArithmeticError,
            ) && *final(self) == *old(self),
    {
        match (*self).try_sub(rhs) {
            Ok(v) => {
                *self = v;
                Ok(())
            },
            Err(e) => Err(e),
        }
    }
}

impl TryAdd for i8 {
    fn try_add(self, rhs: Self) -> (r: Result<Self, ErrorCode>)
        ensures
            i8::MIN <= self + rhs <= i8::MAX ==> r == Ok::<i8, ErrorCode>((self + rhs) as i8),
            !(i8::MIN <= self + rhs <= i8::MAX) ==> r == Err::<i8, ErrorCode>(
                ErrorCode::ArithmeticError,
            ),
    {
        match self.checked_add(rhs) {
            Some(v) => Ok(v),
            None => Err(ErrorCode::ArithmeticError),
        }
    }

    fn try_add_assign(&mut self, rhs: Self) -> (r: Result<(), ErrorCode>)
        ensures
            i8::MIN <= *old(self) + rhs <= i8::MAX ==> r == Ok::<(), ErrorCode>(())
                && *final(self) == *old(self) + rhs,
            !(i8::MIN <= *old(self) + rhs <= i8::MAX) ==> r == Err::<(), ErrorCode>(
                ErrorCode::ArithmeticError,
            ) && *final(self) == *old(self),
    {
        match (*self).try_add(rhs) {
            Ok(v) => {
                *self = v;
                Ok(())
            },
            Err(e) => Err(e),
        }
    }
}

impl TryDiv for i8 {
    fn try_floor_div(self, rhs: Self) -> (r: Result<Self, ErrorCode>)
        ensures
            rhs == 0 ==> r == Err::<i8, ErrorCode>(ErrorCode::ArithmeticError),
            rhs != 0 && i8::MIN <= trunc_div_spec(self as int, rhs as int) <= i8::MAX ==> r
                == Ok::<i8, ErrorCode>(trunc_div_spec(self as int, rhs as int) as i8),
            rhs != 0 && !(i8::MIN <= trunc_div_spec(self as int, rhs as int) <= i8::MAX) ==> r
                == Err::<i8, ErrorCode>(ErrorCode::ArithmeticError),
    {
        match self.checked_div(rhs) {
            Some(v) => Ok(v),
            None => Err(ErrorCode::ArithmeticError),
        }
    }

    fn try_floor_div_assign(&mut self, rhs: Self) -> (r: Result<(), ErrorCode>)
        ensures
            rhs != 0 && i8::MIN <= trunc_div_spec(*old(self) as int, rhs as int) <= i8::MAX
                ==> r == Ok::<(), ErrorCode>(()) && *final(self) == trunc_div_spec(
                *old(self) as int,
                rhs as int,
            ),
            rhs == 0 || !(i8::MIN <= trunc_div_spec(*old(self) as int, rhs as int) <= i8::MAX)
                ==> r == Err::<(), ErrorCode>(ErrorCode::ArithmeticError) && *final(self) == *old(
                self,
            ),
    {
        match (*self).try_floor_div(rhs) {
            Ok(v) => {
                *self = v;
                Ok(())
            },
            Err(e) => Err(e),
        }
    }

    fn try_ceil_div(self, rhs: Self) -> (r: Result<Self, ErrorCode>)
        ensures
            ({
                let q = trunc_div_spec(self - 1, rhs as int);
                &&& (self == i8::MIN || rhs == 0 ==> r == Err::<i8, ErrorCode>(
                    ErrorCode::ArithmeticError,
                ))
                &&& (self != i8::MIN && rhs != 0 && !(i8::MIN <= q <= i8::MAX) ==> r == Err::<
                    i8,
                    ErrorCode,
                >(ErrorCode::ArithmeticError))
                &&& (self != i8::MIN && rhs != 0 && i8::MIN <= q <= i8::MAX && q + 1
                    > i8::MAX ==> r == Err::<i8, ErrorCode>(ErrorCode::ArithmeticError))
                &&& (self != i8::MIN && rhs != 0 && i8::MIN <= q <= i8::MAX && q + 1
                    <= i8::MAX ==> r == Ok::<i8, ErrorCode>((1 + q) as i8))
            }),
            self >= 1 && rhs >= 1 ==> r == Ok::<i8, ErrorCode>(
                ceil_div_spec(self as int, rhs as int) as i8,
            ) && ceil_div_spec(self as int, rhs as int) * rhs >= self > (ceil_div_spec(
                self as int,
                rhs as int,
            ) - 1) * rhs,
    {
        proof {
            if self >= 1 && rhs >= 1 {
                lemma_ceil_div_bounds(self as int, rhs as int);
            }
        }
        let reduced_by_one = match self.checked_sub(1) {
            Some(v) => v,
            None => {
                return Err(ErrorCode::ArithmeticError);
            },
        };
        let divided = match reduced_by_one.checked_div(rhs) {
            Some(v) => v,
            None => {
                return Err(ErrorCode::ArithmeticError);
            },
        };
        match 1i8.checked_add(divided) {
            Some(v) => Ok(v),
            None => Err(ErrorCode::ArithmeticError),
        }
    }

    fn try_ceil_div_assign(&mut self, rhs: Self) -> (r: Result<(), ErrorCode>)
        ensures
            *old(self) >= 1 && rhs >= 1 ==> r == Ok::<(), ErrorCode>(())
                && *final(self) == ceil_div_spec(*old(self) as int, rhs as int),
            *old(self) == i8::MIN || rhs == 0 ==> r == Err::<(), ErrorCode>(
                ErrorCode::ArithmeticError,
            ) && *final(self) == *old(self),
            r is Err ==> r == Err::<(), ErrorCode>(ErrorCode::ArithmeticError) && *final(self)
                == *old(self),
    {
        match (*self).try_ceil_div(rhs) {
            Ok(v) => {
                *self = v;
                Ok(())
            },
            Err(e) => Err(e),
        }
    }

    fn try_rounded_div(self, rhs: Self) -> (r: Result<Self, ErrorCode>)
        ensures
            ({
                let sum = self + trunc_div_spec(rhs as int, 2);
                let q = trunc_div_spec(sum, rhs as int);
                &&& (!(i8::MIN <= sum <= i8::MAX) ==> r == Err::<i8, ErrorCode>(
                    ErrorCode::ArithmeticError,
                ))
                &&& (i8::MIN <= sum <= i8::MAX && rhs == 0 ==> r == Err::<i8, ErrorCode>(
                    ErrorCode::ArithmeticError,
                ))
                &&& (i8::MIN <= sum <= i8::MAX && rhs != 0 && !(i8::MIN <= q <= i8::MAX)
                    ==> r == Err::<i8, ErrorCode>(ErrorCode::ArithmeticError))
                &&& (i8::MIN <= sum <= i8::MAX && rhs != 0 && i8::MIN <= q <= i8::MAX ==> r
                    == Ok::<i8, ErrorCode>(q as i8))
            }),
            self >= 0 && rhs >= 1 && self + rhs / 2 <= i8::MAX ==> r == Ok::<i8, ErrorCode>(
                rounded_div_spec(self as int, rhs as int) as i8,
            ),
    {
        let rounding = match rhs.checked_div(2) {
            Some(v) => v,
            None => {
                return Err(ErrorCode::ArithmeticError);
            },
        };
        let with_rounding = match self.checked_add(rounding) {
            Some(v) => v,
            None => {
                return Err(ErrorCode::ArithmeticError);
            },
        };
        match with_rounding.checked_div(rhs) {
            Some(v) => Ok(v),
            None => Err(ErrorCode::ArithmeticError),
        }
    }

    fn try_rounded_div_assign(&mut self, rhs: Self) -> (r: Result<(), ErrorCode>)
        ensures
            *old(self) >= 0 && rhs >= 1 && *old(self) + rhs / 2 <= i8::MAX ==> r == Ok::<
                (),
                ErrorCode,
            >(()) && *final(self) == rounded_div_spec(*old(self) as int, rhs as int),
            r is Err ==> r == Err::<(), ErrorCode>(ErrorCode::ArithmeticError) && *final(self)
                == *old(self),
    {
        match (*self).try_rounded_div(rhs) {
            Ok(v) => {
                *self = v;
                Ok(())
            },
            Err(e) => Err(e),
        }
    }
}

impl TryMul for i8 {
    fn try_mul(self, rhs: Self) -> (r: Result<Self, ErrorCode>)
        ensures
            i8::MIN <= self * rhs <= i8::MAX ==> r == Ok::<i8, ErrorCode>((self * rhs) as i8),
            !(i8::MIN <= self * rhs <= i8::MAX) ==> r == Err::<i8, ErrorCode>(
                ErrorCode::ArithmeticError,
            ),
    {
        match self.checked_mul(rhs) {
            Some(v) => Ok(v),
            None => Err(ErrorCode::ArithmeticError),
        }
    }

    fn try_mul_assign(&mut self, rhs: Self) -> (r: Result<(), ErrorCode>)
        ensures
            i8::MIN <= *old(self) * rhs <= i8::MAX ==> r == Ok::<(), ErrorCode>(())
                && *final(self) == *old(self) * rhs,
            !(i8::MIN <= *old(self) * rhs <= i8::MAX) ==> r == Err::<(), ErrorCode>(
                ErrorCode::ArithmeticError,
            ) && *final(self) == *old(self),
    {
        match (*self).try_mul(rhs) {
            Ok(v) => {
                *self = v;
                Ok(())
            },
            Err(e) => Err(e),
        }
    }
}

impl TryPow for i8 {
    fn try_pow(self, rhs: u32) -> (r: Result<Self, ErrorCode>)
        ensures
            !spec_pow_escapes(self as int, rhs as nat, i8::MIN as int, i8::MAX as int) ==> r
                == Ok::<i8, ErrorCode>(pow(self as int, rhs as nat) as i8),
            spec_pow_escapes(self as int, rhs as nat, i8::MIN as int, i8::MAX as int) ==> r
                == Err::<i8, ErrorCode>(ErrorCode::ArithmeticError),
    {
        proof {
            reveal(pow);
        }
        let mut acc: i8 = 1;
        let mut i: u32 = 0;
        while i < rhs
            invariant
                i <= rhs,
                acc == pow(self as int, i as nat),
                !spec_pow_escapes(self as int, i as nat, i8::MIN as int, i8::MAX as int),
            decreases rhs - i,
        {
            proof {
                reveal(pow);
                assert(pow(self as int, (i + 1) as nat) == self * pow(self as int, i as nat));
            }
            acc = match acc.checked_mul(self) {
                Some(v) => v,
                None => {
                    proof {
                        lemma_pow_escapes_mono(
                            self as int,
                            (i + 1) as nat,
                            rhs as nat,
                            i8::MIN as int,
                            i8::MAX as int,
                        );
                    }
                    return Err(ErrorCode::ArithmeticError);
                },
            };
            i = i + 1;
        }
        Ok(acc)
    }

    fn try_pow_assign(&mut self, rhs: u32) -> (r: Result<(), ErrorCode>)
        ensures
            !spec_pow_escapes(*old(self) as int, rhs as nat, i8::MIN as int, i8::MAX as int)
                ==> r == Ok::<(), ErrorCode>(()) && *final(self) == pow(
                *old(self) as int,
                rhs as nat,
            ) as i8,
            spec_pow_escapes(*old(self) as int, rhs as nat, i8::MIN as int, i8::MAX as int)
                ==> r == Err::<(), ErrorCode>(ErrorCode::ArithmeticError) && *final(self) == *old(
                self,
            ),
    {
        match (*self).try_pow(rhs) {
            Ok(v) => {
                *self = v;
                Ok(())
            },
            Err(e) => Err(e),
        }
    }
}

impl TryRem for i8 {
    fn try_rem(self, rhs: Self) -> (r: Result<Self, ErrorCode>)
        ensures
            ({
                let m = trunc_rem_spec(self as int, rhs as int);
                &&& (rhs == 0 || (self == i8::MIN && rhs == -1) ==> r == Err::<i8, ErrorCode>(
                    ErrorCode::ArithmeticError,
                ))
                &&& (!(rhs == 0 || (self == i8::MIN && rhs == -1)) && i8::MIN <= m <= i8::MAX
                    ==> r == Ok::<i8, ErrorCode>(m as i8))
                &&& (!(rhs == 0 || (self == i8::MIN && rhs == -1)) && !(i8::MIN <= m
                    <= i8::MAX) ==> r == Err::<i8, ErrorCode>(ErrorCode::ArithmeticError))
            }),
    {
        match self.checked_rem(rhs) {
            Some(v) => Ok(v),
            None => Err(ErrorCode::ArithmeticError),
        }
    }
}

impl TrySub for i16 {
    fn try_sub(self, rhs: Self) -> (r: Result<Self, ErrorCode>)
        ensures
            i16::MIN <= self - rhs <= i16::MAX ==> r == Ok::<i16, ErrorCode>((self - rhs) as i16),
            !(i16::MIN <= self - rhs <= i16::MAX) ==> r == Err::<i16, ErrorCode>(
                ErrorCode::ArithmeticError,
            ),
    {
        match self.checked_sub(rhs) {
            Some(v) => Ok(v),
            None => Err(ErrorCode::ArithmeticError),
        }
    }

    fn try_sub_assign(&mut self, rhs: Self) -> (r: Result<(), ErrorCode>)
        ensures
            i16::MIN <= *old(self) - rhs <= i16::MAX ==> r == Ok::<(), ErrorCode>(())
                && *final(self) == *old(self) - rhs,
            !(i16::MIN <= *old(self) - rhs <= i16::MAX) ==> r == Err::<(), ErrorCode>(
                ErrorCode::ArithmeticError,
            ) && *final(self) == *old(self),
    {
        match (*self).try_sub(rhs) {
            Ok(v) => {
                *self = v;
                Ok(())
            },
            Err(e) => Err(e),
        }
    }
}

impl TryAdd for i16 {
    fn try_add(self, rhs: Self) -> (r: Result<Self, ErrorCode>)
        ensures
            i16::MIN <= self + rhs <= i16::MAX ==> r == Ok::<i16, ErrorCode>((self + rhs) as i16),
            !(i16::MIN <= self + rhs <= i16::MAX) ==> r == Err::<i16, ErrorCode>(
                ErrorCode::ArithmeticError,
            ),
    {
        match self.checked_add(rhs) {
            Some(v) => Ok(v),
            None => Err(ErrorCode::ArithmeticError),
        }
    }

    fn try_add_assign(&mut self, rhs: Self) -> (r: Result<(), ErrorCode>)
        ensures
            i16::MIN <= *old(self) + rhs <= i16::MAX ==> r == Ok::<(), ErrorCode>(())
                && *final(self) == *old(self) + rhs,
            !(i16::MIN <= *old(self) + rhs <= i16::MAX) ==> r == Err::<(), ErrorCode>(
                ErrorCode::ArithmeticError,
            ) && *final(self) == *old(self),
    {
        match (*self).try_add(rhs) {
            Ok(v) => {
                *self = v;
                Ok(())
            },
            Err(e) => Err(e),
        }
    }
}

impl TryDiv for i16 {
    fn try_floor_div(self, rhs: Self) -> (r: Result<Self, ErrorCode>)
        ensures
            rhs == 0 ==> r == Err::<i16, ErrorCode>(ErrorCode::ArithmeticError),
            rhs != 0 && i16::MIN <= trunc_div_spec(self as int, rhs as int) <= i16::MAX ==> r
                == Ok::<i16, ErrorCode>(trunc_div_spec(self as int, rhs as int) as i16),
            rhs != 0 && !(i16::MIN <= trunc_div_spec(self as int, rhs as int) <= i16::MAX) ==> r
                == Err::<i16, ErrorCode>(ErrorCode::ArithmeticError),
    {
        match self.checked_div(rhs) {
            Some(v) => Ok(v),
            None => Err(ErrorCode::ArithmeticError),
        }
    }

    fn try_floor_div_assign(&mut self, rhs: Self) -> (r: Result<(), ErrorCode>)
        ensures
            rhs != 0 && i16::MIN <= trunc_div_spec(*old(self) as int, rhs as int) <= i16::MAX
                ==> r == Ok::<(), ErrorCode>(()) && *final(self) == trunc_div_spec(
                *old(self) as int,
                rhs as int,
            ),
            rhs == 0 || !(i16::MIN <= trunc_div_spec(*old(self) as int, rhs as int) <= i16::MAX)
                ==> r == Err::<(), ErrorCode>(ErrorCode::ArithmeticError) && *final(self) == *old(
                self,
            ),
    {
        match (*self).try_floor_div(rhs) {
            Ok(v) => {
                *self = v;
                Ok(())
            },
            Err(e) => Err(e),
        }
    }

    fn try_ceil_div(self, rhs: Self) -> (r: Result<Self, ErrorCode>)
        ensures
            ({
                let q = trunc_div_spec(self - 1, rhs as int);
                &&& (self == i16::MIN || rhs == 0 ==> r == Err::<i16, ErrorCode>(
                    ErrorCode::ArithmeticError,
                ))
                &&& (self != i16::MIN && rhs != 0 && !(i16::MIN <= q <= i16::MAX) ==> r == Err::<
                    i16,
                    ErrorCode,
                >(ErrorCode::ArithmeticError))
                &&& (self != i16::MIN && rhs != 0 && i16::MIN <= q <= i16::MAX && q + 1
                    > i16::MAX ==> r == Err::<i16, ErrorCode>(ErrorCode::ArithmeticError))
                &&& (self != i16::MIN && rhs != 0 && i16::MIN <= q <= i16::MAX && q + 1
                    <= i16::MAX ==> r == Ok::<i16, ErrorCode>((1 + q) as i16))
            }),
            self >= 1 && rhs >= 1 ==> r == Ok::<i16, ErrorCode>(
                ceil_div_spec(self as int, rhs as int) as i16,
            ) && ceil_div_spec(self as int, rhs as int) * rhs >= self > (ceil_div_spec(
                self as int,
                rhs as int,
            ) - 1) * rhs,
    {
        proof {
            if self >= 1 && rhs >= 1 {
                lemma_ceil_div_bounds(self as int, rhs as int);
            }
        }
        let reduced_by_one = match self.checked_sub(1) {
            Some(v) => v,
            None => {
                return Err(ErrorCode::ArithmeticError);
            },
        };
        let divided = match reduced_by_one.checked_div(rhs) {
            Some(v) => v,
            None => {
                return Err(ErrorCode::ArithmeticError);
            },
        };
        match 1i16.checked_add(divided) {
            Some(v) => Ok(v),
            None => Err(ErrorCode::ArithmeticError),
        }
    }

    fn try_ceil_div_assign(&mut self, rhs: Self) -> (r: Result<(), ErrorCode>)
        ensures
            *old(self) >= 1 && rhs >= 1 ==> r == Ok::<(), ErrorCode>(())
                && *final(self) == ceil_div_spec(*old(self) as int, rhs as int),
            *old(self) == i16::MIN || rhs == 0 ==> r == Err::<(), ErrorCode>(
                ErrorCode::ArithmeticError,
            ) && *final(self) == *old(self),
            r is Err ==> r == Err::<(), ErrorCode>(ErrorCode::ArithmeticError) && *final(self)
                == *old(self),
    {
        match (*self).try_ceil_div(rhs) {
            Ok(v) => {
                *self = v;
                Ok(())
            },
            Err(e) => Err(e),
        }
    }

    fn try_rounded_div(self, rhs: Self) -> (r: Result<Self, ErrorCode>)
        ensures
            ({
                let sum = self + trunc_div_spec(rhs as int, 2);
                let q = trunc_div_spec(sum, rhs as int);
                &&& (!(i16::MIN <= sum <= i16::MAX) ==> r == Err::<i16, ErrorCode>(
                    ErrorCode::ArithmeticError,
                ))
                &&& (i16::MIN <= sum <= i16::MAX && rhs == 0 ==> r == Err::<i16, ErrorCode>(
                    ErrorCode::ArithmeticError,
                ))
                &&& (i16::MIN <= sum <= i16::MAX && rhs != 0 && !(i16::MIN <= q <= i16::MAX)
                    ==> r == Err::<i16, ErrorCode>(ErrorCode::ArithmeticError))
                &&& (i16::MIN <= sum <= i16::MAX && rhs != 0 && i16::MIN <= q <= i16::MAX ==> r
                    == Ok::<i16, ErrorCode>(q as i16))
            }),
            self >= 0 && rhs >= 1 && self + rhs / 2 <= i16::MAX ==> r == Ok::<i16, ErrorCode>(
                rounded_div_spec(self as int, rhs as int) as i16,
            ),
    {
        let rounding = match rhs.checked_div(2) {
            Some(v) => v,
            None => {
                return Err(ErrorCode::ArithmeticError);
            },
        };
        let with_rounding = match self.checked_add(rounding) {
            Some(v) => v,
            None => {
                return Err(ErrorCode::ArithmeticError);
            },
        };
        match with_rounding.checked_div(rhs) {
            Some(v) => Ok(v),
            None => Err(ErrorCode::ArithmeticError),
        }
    }

    fn try_rounded_div_assign(&mut self, rhs: Self) -> (r: Result<(), ErrorCode>)
        ensures
            *old(self) >= 0 && rhs >= 1 && *old(self) + rhs / 2 <= i16::MAX ==> r == Ok::<
                (),
                ErrorCode,
            >(()) && *final(self) == rounded_div_spec(*old(self) as int, rhs as int),
            r is Err ==> r == Err::<(), ErrorCode>(ErrorCode::ArithmeticError) && *final(self)
                == *old(self),
    {
        match (*self).try_rounded_div(rhs) {
            Ok(v) => {
                *self = v;
                Ok(())
            },
            Err(e) => Err(e),
        }
    }
}

impl TryMul for i16 {
    fn try_mul(self, rhs: Self) -> (r: Result<Self, ErrorCode>)
        ensures
            i16::MIN <= self * rhs <= i16::MAX ==> r == Ok::<i16, ErrorCode>((self * rhs) as i16),
            !(i16::MIN <= self * rhs <= i16::MAX) ==> r == Err::<i16, ErrorCode>(
                ErrorCode::ArithmeticError,
            ),
    {
        match self.checked_mul(rhs) {
            Some(v) => Ok(v),
            None => Err(ErrorCode::ArithmeticError),
        }
    }

    fn try_mul_assign(&mut self, rhs: Self) -> (r: Result<(), ErrorCode>)
        ensures
            i16::MIN <= *old(self) * rhs <= i16::MAX ==> r == Ok::<(), ErrorCode>(())
                && *final(self) == *old(self) * rhs,
            !(i16::MIN <= *old(self) * rhs <= i16::MAX) ==> r == Err::<(), ErrorCode>(
                ErrorCode::ArithmeticError,
            ) && *final(self) == *old(self),
    {
        match (*self).try_mul(rhs) {
            Ok(v) => {
                *self = v;
                Ok(())
            },
            Err(e) => Err(e),
        }
    }
}

impl TryPow for i16 {
    fn try_pow(self, rhs: u32) -> (r: Result<Self, ErrorCode>)
        ensures
            !spec_pow_escapes(self as int, rhs as nat, i16::MIN as int, i16::MAX as int) ==> r
                == Ok::<i16, ErrorCode>(pow(self as int, rhs as nat) as i16),
            spec_pow_escapes(self as int, rhs as nat, i16::MIN as int, i16::MAX as int) ==> r
                == Err::<i16, ErrorCode>(ErrorCode::ArithmeticError),
    {
        proof {
            reveal(pow);
        }
        let mut acc: i16 = 1;
        let mut i: u32 = 0;
        while i < rhs
            invariant
                i <= rhs,
                acc == pow(self as int, i as nat),
                !spec_pow_escapes(self as int, i as nat, i16::MIN as int, i16::MAX as int),
            decreases rhs - i,
        {
            proof {
                reveal(pow);
                assert(pow(self as int, (i + 1) as nat) == self * pow(self as int, i as nat));
            }
            acc = match acc.checked_mul(self) {
                Some(v) => v,
                None => {
                    proof {
                        lemma_pow_escapes_mono(
                            self as int,
                            (i + 1) as nat,
                            rhs as nat,
                            i16::MIN as int,
                            i16::MAX as int,
                        );
                    }
                    return Err(ErrorCode::ArithmeticError);
                },
            };
            i = i + 1;
        }
        Ok(acc)
    }

    fn try_pow_assign(&mut self, rhs: u32) -> (r: Result<(), ErrorCode>)
        ensures
            !spec_pow_escapes(*old(self) as int, rhs as nat, i16::MIN as int, i16::MAX as int)
                ==> r == Ok::<(), ErrorCode>(()) && *final(self) == pow(
                *old(self) as int,
                rhs as nat,
            ) as i16,
            spec_pow_escapes(*old(self) as int, rhs as nat, i16::MIN as int, i16::MAX as int)
                ==> r == Err::<(), ErrorCode>(ErrorCode::ArithmeticError) && *final(self) == *old(
                self,
            ),
    {
        match (*self).try_pow(rhs) {
            Ok(v) => {
                *self = v;
                Ok(())
            },
            Err(e) => Err(e),
        }
    }
}

impl TryRem for i16 {
    fn try_rem(self, rhs: Self) -> (r: Result<Self, ErrorCode>)
        ensures
            ({
                let m = trunc_rem_spec(self as int, rhs as int);
                &&& (rhs == 0 || (self == i16::MIN && rhs == -1) ==> r == Err::<i16, ErrorCode>(
                    ErrorCode::ArithmeticError,
                ))
                &&& (!(rhs == 0 || (self == i16::MIN && rhs == -1)) && i16::MIN <= m <= i16::MAX
                    ==> r == Ok::<i16, ErrorCode>(m as i16))
                &&& (!(rhs == 0 || (self == i16::MIN && rhs == -1)) && !(i16::MIN <= m
                    <= i16::MAX) ==> r == Err::<i16, ErrorCode>(ErrorCode::ArithmeticError))
            }),
    {
        match self.checked_rem(rhs) {
            Some(v) => Ok(v),
            None => Err(ErrorCode::ArithmeticError),
        }
    }
}

impl TrySub for i32 {
    fn try_sub(self, rhs: Self) -> (r: Result<Self, ErrorCode>)
        ensures
            i32::MIN <= self - rhs <= i32::MAX ==> r == Ok::<i32, ErrorCode>((self - rhs) as i32),
            !(i32::MIN <= self - rhs <= i32::MAX) ==> r == Err::<i32, ErrorCode>(
                ErrorCode::ArithmeticError,
            ),
    {
        match self.checked_sub(rhs) {
            Some(v) => Ok(v),
            None => Err(ErrorCode::ArithmeticError),
        }
    }

    fn try_sub_assign(&mut self, rhs: Self) -> (r: Result<(), ErrorCode>)
        ensures
            i32::MIN <= *old(self) - rhs <= i32::MAX ==> r == Ok::<(), ErrorCode>(())
                && *final(self) == *old(self) - rhs,
            !(i32::MIN <= *old(self) - rhs <= i32::MAX) ==> r == Err::<(), ErrorCode>(
                ErrorCode::ArithmeticError,
            ) && *final(self) == *old(self),
    {
        match (*self).try_sub(rhs) {
            Ok(v) => {
                *self = v;
                Ok(())
            },
            Err(e) => Err(e),
        }
    }
}

impl TryAdd for i32 {
    fn try_add(self, rhs: Self) -> (r: Result<Self, ErrorCode>)
        ensures
            i32::MIN <= self + rhs <= i32::MAX ==> r == Ok::<i32, ErrorCode>((self + rhs) as i32),
            !(i32::MIN <= self + rhs <= i32::MAX) ==> r == Err::<i32, ErrorCode>(
                ErrorCode::ArithmeticError,
            ),
    {
        match self.checked_add(rhs) {
            Some(v) => Ok(v),
            None => Err(ErrorCode::ArithmeticError),
        }
    }

    fn try_add_assign(&mut self, rhs: Self) -> (r: Result<(), ErrorCode>)
        ensures
            i32::MIN <= *old(self) + rhs <= i32::MAX ==> r == Ok::<(), ErrorCode>(())
                && *final(self) == *old(self) + rhs,
            !(i32::MIN <= *old(self) + rhs <= i32::MAX) ==> r == Err::<(), ErrorCode>(
                ErrorCode::ArithmeticError,
            ) && *final(self) == *old(self),
    {
        match (*self).try_add(rhs) {
            Ok(v) => {
                *self = v;
                Ok(())
            },
            Err(e) => Err(e),
        }
    }
}

impl TryDiv for i32 {
    fn try_floor_div(self, rhs: Self) -> (r: Result<Self, ErrorCode>)
        ensures
            rhs == 0 ==> r == Err::<i32, ErrorCode>(ErrorCode::ArithmeticError),
            rhs != 0 && i32::MIN <= trunc_div_spec(self as int, rhs as int) <= i32::MAX ==> r
                == Ok::<i32, ErrorCode>(trunc_div_spec(self as int, rhs as int) as i32),
            rhs != 0 && !(i32::MIN <= trunc_div_spec(self as int, rhs as int) <= i32::MAX) ==> r
                == Err::<i32, ErrorCode>(ErrorCode::ArithmeticError),
    {
        match self.checked_div(rhs) {
            Some(v) => Ok(v),
            None => Err(ErrorCode::ArithmeticError),
        }
    }

    fn try_floor_div_assign(&mut self, rhs: Self) -> (r: Result<(), ErrorCode>)
        ensures
            rhs != 0 && i32::MIN <= trunc_div_spec(*old(self) as int, rhs as int) <= i32::MAX
                ==> r == Ok::<(), ErrorCode>(()) && *final(self) == trunc_div_spec(
                *old(self) as int,
                rhs as int,
            ),
            rhs == 0 || !(i32::MIN <= trunc_div_spec(*old(self) as int, rhs as int) <= i32::MAX)
                ==> r == Err::<(), ErrorCode>(ErrorCode::ArithmeticError) && *final(self) == *old(
                self,
            ),
    {
        match (*self).try_floor_div(rhs) {
            Ok(v) => {
                *self = v;
                Ok(())
            },
            Err(e) => Err(e),
        }
    }

    fn try_ceil_div(self, rhs: Self) -> (r: Result<Self, ErrorCode>)
        ensures
            ({
                let q = trunc_div_spec(self - 1, rhs as int);
                &&& (self == i32::MIN || rhs == 0 ==> r == Err::<i32, ErrorCode>(
                    ErrorCode::ArithmeticError,
                ))
                &&& (self != i32::MIN && rhs != 0 && !(i32::MIN <= q <= i32::MAX) ==> r == Err::<
                    i32,
                    ErrorCode,
                >(ErrorCode::ArithmeticError))
                &&& (self != i32::MIN && rhs != 0 && i32::MIN <= q <= i32::MAX && q + 1
                    > i32::MAX ==> r == Err::<i32, ErrorCode>(ErrorCode::ArithmeticError))
                &&& (self != i32::MIN && rhs != 0 && i32::MIN <= q <= i32::MAX && q + 1
                    <= i32::MAX ==> r == Ok::<i32, ErrorCode>((1 + q) as i32))
            }),
            self >= 1 && rhs >= 1 ==> r == Ok::<i32, ErrorCode>(
                ceil_div_spec(self as int, rhs as int) as i32,
            ) && ceil_div_spec(self as int, rhs as int) * rhs >= self > (ceil_div_spec(
                self as int,
                rhs as int,
            ) - 1) * rhs,
    {
        proof {
            if self >= 1 && rhs >= 1 {
                lemma_ceil_div_bounds(self as int, rhs as int);
            }
        }
        let reduced_by_one = match self.checked_sub(1) {
            Some(v) => v,
            None => {
                return Err(ErrorCode::ArithmeticError);
            },
        };
        let divided = match reduced_by_one.checked_div(rhs) {
            Some(v) => v,
            None => {
                return Err(ErrorCode::ArithmeticError);
            },
        };
        match 1i32.checked_add(divided) {
            Some(v) => Ok(v),
            None => Err(ErrorCode::ArithmeticError),
        }
    }

    fn try_ceil_div_assign(&mut self, rhs: Self) -> (r: Result<(), ErrorCode>)
        ensures
            *old(self) >= 1 && rhs >= 1 ==> r == Ok::<(), ErrorCode>(())
                && *final(self) == ceil_div_spec(*old(self) as int, rhs as int),
            *old(self) == i32::MIN || rhs == 0 ==> r == Err::<(), ErrorCode>(
                ErrorCode::ArithmeticError,
            ) && *final(self) == *old(self),
            r is Err ==> r == Err::<(), ErrorCode>(ErrorCode::ArithmeticError) && *final(self)
                == *old(self),
    {
        match (*self).try_ceil_div(rhs) {
            Ok(v) => {
                *self = v;
                Ok(())
            },
            Err(e) => Err(e),
        }
    }

    fn try_rounded_div(self, rhs: Self) -> (r: Result<Self, ErrorCode>)
        ensures
            ({
                let sum = self + trunc_div_spec(rhs as int, 2);
                let q = trunc_div_spec(sum, rhs as int);
                &&& (!(i32::MIN <= sum <= i32::MAX) ==> r == Err::<i32, ErrorCode>(
                    ErrorCode::ArithmeticError,
                ))
                &&& (i32::MIN <= sum <= i32::MAX && rhs == 0 ==> r == Err::<i32, ErrorCode>(
                    ErrorCode::ArithmeticError,
                ))
                &&& (i32::MIN <= sum <= i32::MAX && rhs != 0 && !(i32::MIN <= q <= i32::MAX)
                    ==> r == Err::<i32, ErrorCode>(ErrorCode::ArithmeticError))
                &&& (i32::MIN <= sum <= i32::MAX && rhs != 0 && i32::MIN <= q <= i32::MAX ==> r
                    == Ok::<i32, ErrorCode>(q as i32))
            }),
            self >= 0 && rhs >= 1 && self + rhs / 2 <= i32::MAX ==> r == Ok::<i32, ErrorCode>(
                rounded_div_spec(self as int, rhs as int) as i32,
            ),
    {
        let rounding = match rhs.checked_div(2) {
            Some(v) => v,
            None => {
                return Err(ErrorCode::ArithmeticError);
            },
        };
        let with_rounding = match self.checked_add(rounding) {
            Some(v) => v,
            None => {
                return Err(ErrorCode::ArithmeticError);
            },
        };
        match with_rounding.checked_div(rhs) {
            Some(v) => Ok(v),
            None => Err(ErrorCode::ArithmeticError),
        }
    }

    fn try_rounded_div_assign(&mut self, rhs: Self) -> (r: Result<(), ErrorCode>)
        ensures
            *old(self) >= 0 && rhs >= 1 && *old(self) + rhs / 2 <= i32::MAX ==> r == Ok::<
                (),
                ErrorCode,
            >(()) && *final(self) == rounded_div_spec(*old(self) as int, rhs as int),
            r is Err ==> r == Err::<(), ErrorCode>(ErrorCode::ArithmeticError) && *final(self)
                == *old(self),
    {
        match (*self).try_rounded_div(rhs) {
            Ok(v) => {
                *self = v;
                Ok(())
            },
            Err(e) => Err(e),
        }
    }
}

impl TryMul for i32 {
    fn try_mul(self, rhs: Self) -> (r: Result<Self, ErrorCode>)
        ensures
            i32::MIN <= self * rhs <= i32::MAX ==> r == Ok::<i32, ErrorCode>((self * rhs) as i32),
            !(i32::MIN <= self * rhs <= i32::MAX) ==> r == Err::<i32, ErrorCode>(
                ErrorCode::ArithmeticError,
            ),
    {
        match self.checked_mul(rhs) {
            Some(v) => Ok(v),
            None => Err(ErrorCode::ArithmeticError),
        }
    }

    fn try_mul_assign(&mut self, rhs: Self) -> (r: Result<(), ErrorCode>)
        ensures
            i32::MIN <= *old(self) * rhs <= i32::MAX ==> r == Ok::<(), ErrorCode>(())
                && *final(self) == *old(self) * rhs,
            !(i32::MIN <= *old(self) * rhs <= i32::MAX) ==> r == Err::<(), ErrorCode>(
                ErrorCode::ArithmeticError,
            ) && *final(self) == *old(self),
    {
        match (*self).try_mul(rhs) {
            Ok(v) => {
                *self = v;
                Ok(())
            },
            Err(e) => Err(e),
        }
    }
}

impl TryPow for i32 {
    fn try_pow(self, rhs: u32) -> (r: Result<Self, ErrorCode>)
        ensures
            !spec_pow_escapes(self as int, rhs as nat, i32::MIN as int, i32::MAX as int) ==> r
                == Ok::<i32, ErrorCode>(pow(self as int, rhs as nat) as i32),
            spec_pow_escapes(self as int, rhs as nat, i32::MIN as int, i32::MAX as int) ==> r
                == Err::<i32, ErrorCode>(ErrorCode::ArithmeticError),
    {
        proof {
            reveal(pow);
        }
        let mut acc: i32 = 1;
        let mut i: u32 = 0;
        while i < rhs
            invariant
                i <= rhs,
                acc == pow(self as int, i as nat),
                !spec_pow_escapes(self as int, i as nat, i32::MIN as int, i32::MAX as int),
            decreases rhs - i,
        {
            proof {
                reveal(pow);
                assert(pow(self as int, (i + 1) as nat) == self * pow(self as int, i as nat));
            }
            acc = match acc.checked_mul(self) {
                Some(v) => v,
                None => {
                    proof {
                        lemma_pow_escapes_mono(
                            self as int,
                            (i + 1) as nat,
                            rhs as nat,
                            i32::MIN as int,
                            i32::MAX as int,
                        );
                    }
                    return Err(ErrorCode::ArithmeticError);
                },
            };
            i = i + 1;
        }
        Ok(acc)
    }

    fn try_pow_assign(&mut self, rhs: u32) -> (r: Result<(), ErrorCode>)
        ensures
            !spec_pow_escapes(*old(self) as int, rhs as nat, i32::MIN as int, i32::MAX as int)
                ==> r == Ok::<(), ErrorCode>(()) && *final(self) == pow(
                *old(self) as int,
                rhs as nat,
            ) as i32,
            spec_pow_escapes(*old(self) as int, rhs as nat, i32::MIN as int, i32::MAX as int)
                ==> r == Err::<(), ErrorCode>(ErrorCode::ArithmeticError) && *final(self) == *old(
                self,
            ),
    {
        match (*self).try_pow(rhs) {
            Ok(v) => {
                *self = v;
                Ok(())
            },
            Err(e) => Err(e),
        }
    }
}

impl TryRem for i32 {
    fn try_rem(self, rhs: Self) -> (r: Result<Self, ErrorCode>)
        ensures
            ({
                let m = trunc_rem_spec(self as int, rhs as int);
                &&& (rhs == 0 || (self == i32::MIN && rhs == -1) ==> r == Err::<i32, ErrorCode>(
                    ErrorCode::ArithmeticError,
                ))
                &&& (!(rhs == 0 || (self == i32::MIN && rhs == -1)) && i32::MIN <= m <= i32::MAX
                    ==> r == Ok::<i32, ErrorCode>(m as i32))
                &&& (!(rhs == 0 || (self == i32::MIN && rhs == -1)) && !(i32::MIN <= m
                    <= i32::MAX) ==> r == Err::<i32, ErrorCode>(ErrorCode::ArithmeticError))
            }),
    {
        match self.checked_rem(rhs) {
            Some(v) => Ok(v),
            None => Err(ErrorCode::ArithmeticError),
        }
    }
}

impl TrySub for i128 {
    fn try_sub(self, rhs: Self) -> (r: Result<Self, ErrorCode>)
        ensures
            i128::MIN <= self - rhs <= i128::MAX ==> r == Ok::<i128, ErrorCode>((self - rhs) as i128),
            !(i128::MIN <= self - rhs <= i128::MAX) ==> r == Err::<i128, ErrorCode>(
                ErrorCode::ArithmeticError,
            ),
    {
        match self.checked_sub(rhs) {
            Some(v) => Ok(v),
            None => Err(ErrorCode::ArithmeticError),
        }
    }

    fn try_sub_assign(&mut self, rhs: Self) -> (r: Result<(), ErrorCode>)
        ensures
            i128::MIN <= *old(self) - rhs <= i128::MAX ==> r == Ok::<(), ErrorCode>(())
                && *final(self) == *old(self) - rhs,
            !(i128::MIN <= *old(self) - rhs <= i128::MAX) ==> r == Err::<(), ErrorCode>(
                ErrorCode::ArithmeticError,
            ) && *final(self) == *old(self),
    {
        match (*self).try_sub(rhs) {
            Ok(v) => {
                *self = v;
                Ok(())
            },
            Err(e) => Err(e),
        }
    }
}

impl TryAdd for i128 {
    fn try_add(self, rhs: Self) -> (r: Result<Self, ErrorCode>)
        ensures
            i128::MIN <= self + rhs <= i128::MAX ==> r == Ok::<i128, ErrorCode>((self + rhs) as i128),
            !(i128::MIN <= self + rhs <= i128::MAX) ==> r == Err::<i128, ErrorCode>(
                ErrorCode::ArithmeticError,
            ),
    {
        match self.checked_add(rhs) {
            Some(v) => Ok(v),
            None => Err(ErrorCode::ArithmeticError),
        }
    }

    fn try_add_assign(&mut self, rhs: Self) -> (r: Result<(), ErrorCode>)
        ensures
            i128::MIN <= *old(self) + rhs <= i128::MAX ==> r == Ok::<(), ErrorCode>(())
                && *final(self) == *old(self) + rhs,
            !(i128::MIN <= *old(self) + rhs <= i128::MAX) ==> r == Err::<(), ErrorCode>(
                ErrorCode::ArithmeticError,
            ) && *final(self) == *old(self),
    {
        match (*self).try_add(rhs) {
            Ok(v) => {
                *self = v;
                Ok(())
            },
            Err(e) => Err(e),
        }
    }
}

impl TryDiv for i128 {
    fn try_floor_div(self, rhs: Self) -> (r: Result<Self, ErrorCode>)
        ensures
            rhs == 0 ==> r == Err::<i128, ErrorCode>(ErrorCode::ArithmeticError),
            rhs != 0 && i128::MIN <= trunc_div_spec(self as int, rhs as int) <= i128::MAX ==> r
                == Ok::<i128, ErrorCode>(trunc_div_spec(self as int, rhs as int) as i128),
            rhs != 0 && !(i128::MIN <= trunc_div_spec(self as int, rhs as int) <= i128::MAX) ==> r
                == Err::<i128, ErrorCode>(ErrorCode::ArithmeticError),
    {
        match self.checked_div(rhs) {
            Some(v) => Ok(v),
            None => Err(ErrorCode::ArithmeticError),
        }
    }

    fn try_floor_div_assign(&mut self, rhs: Self) -> (r: Result<(), ErrorCode>)
        ensures
            rhs != 0 && i128::MIN <= trunc_div_spec(*old(self) as int, rhs as int) <= i128::MAX
                ==> r == Ok::<(), ErrorCode>(()) && *final(self) == trunc_div_spec(
                *old(self) as int,
                rhs as int,
            ),
            rhs == 0 || !(i128::MIN <= trunc_div_spec(*old(self) as int, rhs as int) <= i128::MAX)
                ==> r == Err::<(), ErrorCode>(ErrorCode::ArithmeticError) && *final(self) == *old(
                self,
            ),
    {
        match (*self).try_floor_div(rhs) {
            Ok(v) => {
                *self = v;
                Ok(())
            },
            Err(e) => Err(e),
        }
    }

    fn try_ceil_div(self, rhs: Self) -> (r: Result<Self, ErrorCode>)
        ensures
            ({
                let q = trunc_div_spec(self - 1, rhs as int);
                &&& (self == i128::MIN || rhs == 0 ==> r == Err::<i128, ErrorCode>(
                    ErrorCode::ArithmeticError,
                ))
                &&& (self != i128::MIN && rhs != 0 && !(i128::MIN <= q <= i128::MAX) ==> r == Err::<
                    i128,
                    ErrorCode,
                >(ErrorCode::ArithmeticError))
                &&& (self != i128::MIN && rhs != 0 && i128::MIN <= q <= i128::MAX && q + 1
                    > i128::MAX ==> r == Err::<i128, ErrorCode>(ErrorCode::ArithmeticError))
                &&& (self != i128::MIN && rhs != 0 && i128::MIN <= q <= i128::MAX && q + 1
                    <= i128::MAX ==> r == Ok::<i128, ErrorCode>((1 + q) as i128))
            }),
            self >= 1 && rhs >= 1 ==> r == Ok::<i128, ErrorCode>(
                ceil_div_spec(self as int, rhs as int) as i128,
            ) && ceil_div_spec(self as int, rhs as int) * rhs >= self > (ceil_div_spec(
                self as int,
                rhs as int,
            ) - 1) * rhs,
    {
        proof {
            if self >= 1 && rhs >= 1 {
                lemma_ceil_div_bounds(self as int, rhs as int);
            }
        }
        let reduced_by_one = match self.checked_sub(1) {
            Some(v) => v,
            None => {
                return Err(ErrorCode::ArithmeticError);
            },
        };
        let divided = match reduced_by_one.checked_div(rhs) {
            Some(v) => v,
            None => {
                return Err(ErrorCode::ArithmeticError);
            },
        };
        match 1i128.checked_add(divided) {
            Some(v) => Ok(v),
            None => Err(ErrorCode::ArithmeticError),
        }
    }

    fn try_ceil_div_assign(&mut self, rhs: Self) -> (r: Result<(), ErrorCode>)
        ensures
            *old(self) >= 1 && rhs >= 1 ==> r == Ok::<(), ErrorCode>(())
                && *final(self) == ceil_div_spec(*old(self) as int, rhs as int),
            *old(self) == i128::MIN || rhs == 0 ==> r == Err::<(), ErrorCode>(
                ErrorCode::ArithmeticError,
            ) && *final(self) == *old(self),
            r is Err ==> r == Err::<(), ErrorCode>(ErrorCode::ArithmeticError) && *final(self)
                == *old(self),
    {
        match (*self).try_ceil_div(rhs) {
            Ok(v) => {
                *self = v;
                Ok(())
            },
            Err(e) => Err(e),
        }
    }

    fn try_rounded_div(self, rhs: Self) -> (r: Result<Self, ErrorCode>)
        ensures
            ({
                let sum = self + trunc_div_spec(rhs as int, 2);
                let q = trunc_div_spec(sum, rhs as int);
                &&& (!(i128::MIN <= sum <= i128::MAX) ==> r == Err::<i128, ErrorCode>(
                    ErrorCode::ArithmeticError,
                ))
                &&& (i128::MIN <= sum <= i128::MAX && rhs == 0 ==> r == Err::<i128, ErrorCode>(
                    ErrorCode::ArithmeticError,
                ))
                &&& (i128::MIN <= sum <= i128::MAX && rhs != 0 && !(i128::MIN <= q <= i128::MAX)
                    ==> r == Err::<i128, ErrorCode>(ErrorCode::ArithmeticError))
                &&& (i128::MIN <= sum <= i128::MAX && rhs != 0 && i128::MIN <= q <= i128::MAX ==> r
                    == Ok::<i128, ErrorCode>(q as i128))
            }),
            self >= 0 && rhs >= 1 && self + rhs / 2 <= i128::MAX ==> r == Ok::<i128, ErrorCode>(
                rounded_div_spec(self as int, rhs as int) as i128,
            ),
    {
        let rounding = match rhs.checked_div(2) {
            Some(v) => v,
            None => {
                return Err(ErrorCode::ArithmeticError);
            },
        };
        let with_rounding = match self.checked_add(rounding) {
            Some(v) => v,
            None => {
                return Err(ErrorCode::ArithmeticError);
            },
        };
        match with_rounding.checked_div(rhs) {
            Some(v) => Ok(v),
            None => Err(ErrorCode::ArithmeticError),
        }
    }

    fn try_rounded_div_assign(&mut self, rhs: Self) -> (r: Result<(), ErrorCode>)
        ensures
            *old(self) >= 0 && rhs >= 1 && *old(self) + rhs / 2 <= i128::MAX ==> r == Ok::<
                (),
                ErrorCode,
            >(()) && *final(self) == rounded_div_spec(*old(self) as int, rhs as int),
            r is Err ==> r == Err::<(), ErrorCode>(ErrorCode::ArithmeticError) && *final(self)
                == *old(self),
    {
        match (*self).try_rounded_div(rhs) {
            Ok(v) => {
                *self = v;
                Ok(())
            },
            Err(e) => Err(e),
        }
    }
}

impl TryMul for i128 {
    fn try_mul(self, rhs: Self) -> (r: Result<Self, ErrorCode>)
        ensures
            i128::MIN <= self * rhs <= i128::MAX ==> r == Ok::<i128, ErrorCode>((self * rhs) as i128),
            !(i128::MIN <= self * rhs <= i128::MAX) ==> r == Err::<i128, ErrorCode>(
                ErrorCode::ArithmeticError,
            ),
    {
        match self.checked_mul(rhs) {
            Some(v) => Ok(v),
            None => Err(ErrorCode::ArithmeticError),
        }
    }

    fn try_mul_assign(&mut self, rhs: Self) -> (r: Result<(), ErrorCode>)
        ensures
            i128::MIN <= *old(self) * rhs <= i128::MAX ==> r == Ok::<(), ErrorCode>(())
                && *final(self) == *old(self) * rhs,
            !(i128::MIN <= *old(self) * rhs <= i128::MAX) ==> r == Err::<(), ErrorCode>(
                ErrorCode::ArithmeticError,
            ) && *final(self) == *old(self),
    {
        match (*self).try_mul(rhs) {
            Ok(v) => {
                *self = v;
                Ok(())
            },
            Err(e) => Err(e),
        }
    }
}

impl TryPow for i128 {
    fn try_pow(self, rhs: u32) -> (r: Result<Self, ErrorCode>)
        ensures
            !spec_pow_escapes(self as int, rhs as nat, i128::MIN as int, i128::MAX as int) ==> r
                == Ok::<i128, ErrorCode>(pow(self as int, rhs as nat) as i128),
            spec_pow_escapes(self as int, rhs as nat, i128::MIN as int, i128::MAX as int) ==> r
                == Err::<i128, ErrorCode>(ErrorCode::ArithmeticError),
    {
        proof {
            reveal(pow);
        }
        let mut acc: i128 = 1;
        let mut i: u32 = 0;
        while i < rhs
            invariant
                i <= rhs,
                acc == pow(self as int, i as nat),
                !spec_pow_escapes(self as int, i as nat, i128::MIN as int, i128::MAX as int),
            decreases rhs - i,
        {
            proof {
                reveal(pow);
                assert(pow(self as int, (i + 1) as nat) == self * pow(self as int, i as nat));
            }
            acc = match acc.checked_mul(self) {
                Some(v) => v,
                None => {
                    proof {
                        lemma_pow_escapes_mono(
                            self as int,
                            (i + 1) as nat,
                            rhs as nat,
                            i128::MIN as int,
                            i128::MAX as int,
                        );
                    }
                    return Err(ErrorCode::ArithmeticError);
                },
            };
            i = i + 1;
        }
        Ok(acc)
    }

    fn try_pow_assign(&mut self, rhs: u32) -> (r: Result<(), ErrorCode>)
        ensures
            !spec_pow_escapes(*old(self) as int, rhs as nat, i128::MIN as int, i128::MAX as int)
                ==> r == Ok::<(), ErrorCode>(()) && *final(self) == pow(
                *old(self) as int,
                rhs as nat,
            ) as i128,
            spec_pow_escapes(*old(self) as int, rhs as nat, i128::MIN as int, i128::MAX as int)
                ==> r == Err::<(), ErrorCode>(ErrorCode::ArithmeticError) && *final(self) == *old(
                self,
            ),
    {
        match (*self).try_pow(rhs) {
            Ok(v) => {
                *self = v;
                Ok(())
            },
            Err(e) => Err(e),
        }
    }
}

impl TryRem for i128 {
    fn try_rem(self, rhs: Self) -> (r: Result<Self, ErrorCode>)
        ensures
            ({
                let m = trunc_rem_spec(self as int, rhs as int);
                &&& (rhs == 0 || (self == i128::MIN && rhs == -1) ==> r == Err::<i128, ErrorCode>(
                    ErrorCode::ArithmeticError,
                ))
                &&& (!(rhs == 0 || (self == i128::MIN && rhs == -1)) && i128::MIN <= m <= i128::MAX
                    ==> r == Ok::<i128, ErrorCode>(m as i128))
                &&& (!(rhs == 0 || (self == i128::MIN && rhs == -1)) && !(i128::MIN <= m
                    <= i128::MAX) ==> r == Err::<i128, ErrorCode>(ErrorCode::ArithmeticError))
            }),
    {
        match self.checked_rem(rhs) {
            Some(v) => Ok(v),
            None => Err(ErrorCode::ArithmeticError),
        }
    }
}

} // verus!
