//! Fixed-point base and pool defaults.

use vstd::prelude::*;

verus! {

/// Fixed-point base: rates, fee commissions and rate-change limits carry nine
/// decimals, so the value `1_000_000_000` stands for `1.0`.
pub const CAL_BASE: u64 = 1_000_000_000;

/// Exchange rate a fresh pool starts with: `1.0`.
pub const DEFAULT_RATE: u64 = 1_000_000_000;

/// Smallest deposit a fresh pool accepts.
pub const DEFAULT_MIN_STAKE_AMOUNT: u64 = 10_000_000;

/// Share of realized rewards minted to the platform in a fresh pool: `0.1`.
pub const DEFAULT_PLATFORM_FEE_COMMISSION: u64 = 100_000_000;

/// Largest rate move a single era may commit in a fresh pool: `0.001`.
pub const DEFAULT_RATE_CHANGE_LIMIT: u64 = 1_000_000;

/// Number of `(era, rate)` observations the pool keeps; the oldest one is
/// evicted first.
pub const ERA_RATES_LEN_LIMIT: u8 = 10;

} // verus!
