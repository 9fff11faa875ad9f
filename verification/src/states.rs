//! The pool ledger, the withdrawal-request ledger, and the rate/fee
//! calculator.
//!
//! All amounts are unsigned 64-bit integers; conversions widen to 128 bits so
//! the only way a conversion can fail is a result that does not fit back into
//! 64 bits, which every calculator method reports as
//! [`Errors::CalculationFail`].

use crate::errors::Errors;
use crate::helper::CAL_BASE;
use crate::helper::ERA_RATES_LEN_LIMIT;
use vstd::prelude::*;

verus! {

/// An account identity on the host ledger. The engine only ever compares
/// identities, so a plain number stands for one; the embedding program maps
/// real account addresses to these values.
pub type AccountId = u64;

/// One `(era, rate)` observation of the pool's bounded rate history.
#[derive(Clone, Copy, Debug, Default, PartialEq, Eq, Structural)]
pub struct EraRate {
    pub era: u64,
    pub rate: u64,
}

/// Where the pool stands in the cyclic era lifecycle
/// (advance-era, then bond or unbond, then reconcile-active).
#[derive(Clone, Copy, Debug, PartialEq, Eq, Structural)]
pub enum EraStatus {
    /// Advance-era has run: the era counters are rolled over and the pending
    /// position waits to be forwarded to the external staking service.
    EraUpdated,
    /// The net deposit of the era has been forwarded (or netted out).
    Bonded,
    /// The net redemption of the era has been forwarded.
    Unbonded,
    /// Reconcile-active has committed the era's rate; the next era may begin.
    ActiveUpdated,
}

/// The durable state of one liquid-staking pool.
#[derive(Clone, Debug, PartialEq)]
pub struct StakeManager {
    pub creator: AccountId,
    pub index: u8,
    pub admin: AccountId,
    pub pending_admin: AccountId,

    pub lsd_token_mint: AccountId,

    // external staking service bindings
    pub staking_program: AccountId,
    pub staking_token_mint: AccountId,
    pub staking_pool: AccountId,
    pub staking_min_stake_amount: u64,

    pub era_seconds: i64,
    pub era_offset: i64,
    pub min_stake_amount: u64,
    pub platform_fee_commission: u64, // decimals 9
    pub rate_change_limit: u64,       // decimals 9
    pub unbonding_duration: u64,      // in eras

    pub era_status: EraStatus,
    pub latest_era: u64,
    pub rate: u64, // decimals 9
    pub era_bond: u64,
    pub era_unbond: u64,
    pub pending_bond: u64,
    pub pending_unbond: u64,
    pub active: u64,
    pub total_platform_fee: u64,

    pub era_rates: Vec<EraRate>,
}

/// One pending redemption: created by unstake, settled and destroyed by
/// withdraw.
#[derive(Clone, Copy, Debug, PartialEq, Eq, Structural)]
pub struct UnstakeAccount {
    pub stake_manager: AccountId,
    pub user: AccountId,
    pub amount: u64,
    pub withdrawable_era: u64,
}

/// Derivative tokens minted for a deposit of `staking_amount` at `rate`:
/// `staking_amount * CAL_BASE / rate`, rounded down.
pub open spec fn spec_lsd_amount(staking_amount: int, rate: int) -> int {
    staking_amount * CAL_BASE / rate
}

/// Base-asset value owed for a redemption of `lsd_amount` at `rate`:
/// `lsd_amount * rate / CAL_BASE`, rounded down.
pub open spec fn spec_staking_amount(lsd_amount: int, rate: int) -> int {
    lsd_amount * rate / (CAL_BASE as int)
}

/// Platform fee, in derivative-token units, on `reward` base-asset units:
/// `reward * commission / rate`, rounded down.
pub open spec fn spec_platform_fee(reward: int, commission: int, rate: int) -> int {
    reward * commission / rate
}

/// The pool exchange rate implied by `staking_amount` base-asset units
/// backing `lsd_amount` derivative tokens. An empty pool (either side zero)
/// resets to `CAL_BASE`, the `1.0` convention.
pub open spec fn spec_rate(staking_amount: int, lsd_amount: int) -> int {
    if staking_amount == 0 || lsd_amount == 0 {
        CAL_BASE as int
    } else {
        staking_amount * CAL_BASE / lsd_amount
    }
}

/// Relative magnitude of a rate move, in `CAL_BASE` units of the old rate:
/// `|old_rate - new_rate| * CAL_BASE / old_rate`, and `0` while the pool
/// bootstraps with `old_rate == 0`.
pub open spec fn spec_rate_change(old_rate: int, new_rate: int) -> int {
    if old_rate == 0 {
        0
    } else if old_rate > new_rate {
        (old_rate - new_rate) * CAL_BASE / old_rate
    } else {
        (new_rate - old_rate) * CAL_BASE / old_rate
    }
}

/// The era number a wall-clock second falls in:
/// `timestamp / era_seconds + era_offset`.
pub open spec fn spec_current_era(timestamp: int, era_seconds: int, era_offset: int) -> int {
    timestamp / era_seconds + era_offset
}

/// The product of two 64-bit values always fits in 128 bits.
proof fn lemma_u64_mul_fits_u128(x: u64, y: u64)
    by (nonlinear_arith)
    ensures
        0 <= x * y < u128::MAX,
{
}

impl StakeManager {
    /// Well-formedness of a pool ledger: the exchange rate is positive (so
    /// amount conversions are defined), eras have positive duration, and the
    /// rate history is within its bound.
    pub open spec fn wf(self) -> bool {
        &&& self.rate > 0
        &&& self.era_seconds > 0
        &&& self.era_rates@.len() <= ERA_RATES_LEN_LIMIT
    }

    /// Derivative tokens minted for a deposit of `staking_token_amount` at the
    /// current rate; fails exactly when the result does not fit in 64 bits.
    pub fn calc_lsd_token_amount(&self, staking_token_amount: u64) -> (r: Result<u64, Errors>)
        requires
            self.rate > 0,
        ensures
            match r {
                Ok(v) => {
                    &&& v == spec_lsd_amount(staking_token_amount as int, self.rate as int)
                    &&& spec_lsd_amount(staking_token_amount as int, self.rate as int) <= u64::MAX
                },
                Err(e) => {
                    &&& e == Errors::CalculationFail
                    &&& spec_lsd_amount(staking_token_amount as int, self.rate as int) > u64::MAX
                },
            },
    {
        let wide: u128 = (staking_token_amount as u128) * (CAL_BASE as u128) / (self.rate as u128);
        if wide > u64::MAX as u128 {
            Err(Errors::CalculationFail)
        } else {
            Ok(wide as u64)
        }
    }

    /// Base-asset value owed for a redemption of `lsd_token_amount` at the
    /// current rate; fails exactly when the result does not fit in 64 bits.
    pub fn calc_staking_token_amount(&self, lsd_token_amount: u64) -> (r: Result<u64, Errors>)
        ensures
            match r {
                Ok(v) => {
                    &&& v == spec_staking_amount(lsd_token_amount as int, self.rate as int)
                    &&& spec_staking_amount(lsd_token_amount as int, self.rate as int) <= u64::MAX
                },
                Err(e) => {
                    &&& e == Errors::CalculationFail
                    &&& spec_staking_amount(lsd_token_amount as int, self.rate as int) > u64::MAX
                },
            },
    {
        proof {
            lemma_u64_mul_fits_u128(lsd_token_amount, self.rate);
        }
        let wide: u128 = (lsd_token_amount as u128) * (self.rate as u128) / (CAL_BASE as u128);
        if wide > u64::MAX as u128 {
            Err(Errors::CalculationFail)
        } else {
            Ok(wide as u64)
        }
    }

    /// Platform fee, in derivative-token units, on `reward` base-asset units
    /// of realized rewards; fails exactly when the result does not fit in 64
    /// bits.
    pub fn calc_platform_fee(&self, reward: u64) -> (r: Result<u64, Errors>)
        requires
            self.rate > 0,
        ensures
            match r {
                Ok(v) => {
                    &&& v == spec_platform_fee(
                        reward as int,
                        self.platform_fee_commission as int,
                        self.rate as int,
                    )
                    &&& spec_platform_fee(
                        reward as int,
                        self.platform_fee_commission as int,
                        self.rate as int,
                    ) <= u64::MAX
                },
                Err(e) => {
                    &&& e == Errors::CalculationFail
                    &&& spec_platform_fee(
                        reward as int,
                        self.platform_fee_commission as int,
                        self.rate as int,
                    ) > u64::MAX
                },
            },
    {
        proof {
            lemma_u64_mul_fits_u128(reward, self.platform_fee_commission);
        }
        let wide: u128 = (reward as u128) * (self.platform_fee_commission as u128) / (
        self.rate as u128);
        if wide > u64::MAX as u128 {
            Err(Errors::CalculationFail)
        } else {
            Ok(wide as u64)
        }
    }

    /// The exchange rate implied by `staking_token_amount` base-asset units
    /// backing `lsd_token_amount` derivative tokens; an empty pool resets to
    /// `CAL_BASE`. Fails exactly when the result does not fit in 64 bits.
    pub fn calc_rate(&self, staking_token_amount: u64, lsd_token_amount: u64) -> (r: Result<
        u64,
        Errors,
    >)
        ensures
            match r {
                Ok(v) => {
                    &&& v == spec_rate(staking_token_amount as int, lsd_token_amount as int)
                    &&& spec_rate(staking_token_amount as int, lsd_token_amount as int)
                        <= u64::MAX
                },
                Err(e) => {
                    &&& e == Errors::CalculationFail
                    &&& spec_rate(staking_token_amount as int, lsd_token_amount as int) > u64::MAX
                },
            },
    {
        if staking_token_amount == 0 || lsd_token_amount == 0 {
            return Ok(CAL_BASE);
        }
        proof {
            lemma_u64_mul_fits_u128(staking_token_amount, CAL_BASE);
        }
        let wide: u128 = (staking_token_amount as u128) * (CAL_BASE as u128) / (lsd_token_amount
            as u128);
        if wide > u64::MAX as u128 {
            Err(Errors::CalculationFail)
        } else {
            Ok(wide as u64)
        }
    }

    /// Relative magnitude of the move from `old_rate` to `new_rate`, in
    /// `CAL_BASE` units of `old_rate`; `0` while the pool bootstraps with
    /// `old_rate == 0`. Fails exactly when the result does not fit in 64 bits.
    pub fn calc_rate_change(&self, old_rate: u64, new_rate: u64) -> (r: Result<u64, Errors>)
        ensures
            match r {
                Ok(v) => {
                    &&& v == spec_rate_change(old_rate as int, new_rate as int)
                    &&& spec_rate_change(old_rate as int, new_rate as int) <= u64::MAX
                },
                Err(e) => {
                    &&& e == Errors::CalculationFail
                    &&& spec_rate_change(old_rate as int, new_rate as int) > u64::MAX
                },
            },
    {
        if old_rate == 0 {
            return Ok(0);
        }
        let diff: u64 = if old_rate > new_rate {
            old_rate - new_rate
        } else {
            new_rate - old_rate
        };
        proof {
            lemma_u64_mul_fits_u128(diff, CAL_BASE);
        }
        let wide: u128 = (diff as u128) * (CAL_BASE as u128) / (old_rate as u128);
        if wide > u64::MAX as u128 {
            Err(Errors::CalculationFail)
        } else {
            Ok(wide as u64)
        }
    }

    /// The era number `timestamp` falls in for this pool; fails exactly when
    /// the offset pushes the number below zero.
    pub fn calc_current_era(&self, timestamp: i64) -> (r: Result<u64, Errors>)
        requires
            self.era_seconds > 0,
            timestamp >= 0,
            spec_current_era(timestamp as int, self.era_seconds as int, self.era_offset as int)
                <= i64::MAX,
        ensures
            match r {
                Ok(v) => {
                    &&& v == spec_current_era(
                        timestamp as int,
                        self.era_seconds as int,
                        self.era_offset as int,
                    )
                    &&& spec_current_era(
                        timestamp as int,
                        self.era_seconds as int,
                        self.era_offset as int,
                    ) >= 0
                },
                Err(e) => {
                    &&& e == Errors::CalculationFail
                    &&& spec_current_era(
                        timestamp as int,
                        self.era_seconds as int,
                        self.era_offset as int,
                    ) < 0
                },
            },
    {
        let quotient: i64 = timestamp / self.era_seconds;
        let current: i64 = quotient + self.era_offset;
        if current < 0 {
            Err(Errors::CalculationFail)
        } else {
            Ok(current as u64)
        }
    }
}

} // verus!
