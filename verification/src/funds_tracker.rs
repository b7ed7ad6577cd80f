//! The funds of one reward stream, as three monotone counters.
//!
//! `total_funded`, `total_refunded` and `total_accrued_to_stakers` only ever
//! grow; what is funded but neither refunded nor accrued is *pending*. Every
//! audit is additive, and a double refund or double accrual cannot hide
//! behind a decrement.

use vstd::prelude::*;

use crate::error::ErrorCode;
use crate::try_math::TrySub;

verus! {

/// Monotone counters of one reward stream's funds.
#[derive(Clone, Copy, Debug, PartialEq, Eq, Structural)]
pub struct FundsTracker {
    pub total_funded: u64,
    pub total_refunded: u64,
    pub total_accrued_to_stakers: u64,
}

impl FundsTracker {
    /// Conservation of funds: what left the pool (refunds) and what was
    /// promised out of it (accruals) never exceed what entered it.
    pub open spec fn wf(self) -> bool {
        self.total_refunded + self.total_accrued_to_stakers <= self.total_funded
    }

    /// Funded but neither refunded nor accrued.
    pub open spec fn spec_pending(self) -> int {
        self.total_funded - self.total_refunded - self.total_accrued_to_stakers
    }

    /// Funded but neither refunded nor accrued; fails exactly when the
    /// conservation invariant is already violated.
    pub fn pending_amount(&self) -> (r: Result<u64, ErrorCode>)
        ensures
            self.wf() ==> r == Ok::<u64, ErrorCode>(self.spec_pending() as u64),
            !self.wf() ==> r == Err::<u64, ErrorCode>(ErrorCode::ArithmeticError),
    {
        let after_refunds = match self.total_funded.try_sub(self.total_refunded) {
            Ok(v) => v,
            Err(e) => {
                return Err(e);
            },
        };
        after_refunds.try_sub(self.total_accrued_to_stakers)
    }
}

/// A well-formed funds tracker never reports a negative pending amount.
pub proof fn lemma_pending_nonnegative(funds: FundsTracker)
    requires
        funds.wf(),
    ensures
        funds.spec_pending() >= 0,
{
}

} // verus!
