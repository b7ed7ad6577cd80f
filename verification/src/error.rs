//! The error taxonomy of the farm core.

use vstd::prelude::*;

verus! {

/// Every fallible operation in the core reports one of these causes.
/// An operation either commits all of its state changes or returns an
/// error and leaves every structure it was handed unchanged.
#[derive(Clone, Copy, Debug, PartialEq, Eq, Structural)]
pub enum ErrorCode {
    /// Overflow, underflow or division by zero in the checked layer.
    ArithmeticError,
    /// Funding or cancelling was attempted while the reward is locked.
    RewardLocked,
    /// A mint matched neither of the farm's two reward slots.
    UnknownRewardMint,
    /// The stake-extra consistency check failed.
    AmountMismatch,
    /// A farmer tried to unstake before the minimum staking period passed.
    MinStakingNotPassed,
    /// A farmer tried to withdraw before the cooldown period passed.
    CooldownNotPassed,
    /// The bank has frozen all vaults.
    VaultAccessSuspended,
    /// A fixed-rate schedule cannot be covered by the funds on hand.
    RewardUnderfunded,
}

} // verus!
