//! The typed failures of the engine.
//!
//! Every failure is synchronous and aborts the whole operation: a function
//! that returns one of these mutates nothing.

use vstd::prelude::*;

verus! {

/// Why an operation was rejected. Each operation's contract says exactly
/// which variant comes back on which inputs.
#[derive(Clone, Copy, Debug, PartialEq, Eq, Structural)]
pub enum Errors {
    /// The caller is not the pool's administrator.
    AdminNotMatch,
    /// A configuration parameter is out of its documented range.
    ParamsNotMatch,
    /// The deposit is below the pool's minimum stake amount.
    StakeAmountTooLow,
    /// The caller does not own the withdrawal request.
    UnstakeUserNotMatch,
    /// The user's derivative-token balance cannot cover the redemption.
    BalanceNotEnough,
    /// A fixed-point conversion overflowed or underflowed.
    CalculationFail,
    /// The pool is already at the era the clock gives.
    EraIsLatest,
    /// An era-lifecycle step was invoked out of its documented state.
    EraStatusNotMatch,
    /// The withdrawal request does not belong to this pool.
    InvalidUnstakeAccount,
    /// The withdrawal request has not matured yet.
    UnstakeAccountNotWithdrawable,
    /// The withdrawal request holds nothing (already settled, or dust).
    UnstakeAccountAmountZero,
    /// The pool's settled balance cannot cover the withdrawal.
    PoolBalanceNotEnough,
    /// A redemption of zero derivative tokens.
    UnstakeAmountIsZero,
    /// The recomputed rate moved further than the configured limit allows.
    RateChangeOverLimit,
    /// The caller is not the proposed administrator.
    PendingAdminNotMatch,
}

} // verus!
