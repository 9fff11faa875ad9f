//! Accounting engine for a liquid-staking pool.
//!
//! Users deposit a base staking asset and receive a derivative token priced by
//! a pool-wide exchange rate; redemptions are delayed by an unbonding period
//! measured in eras. The pool's position with the delegated external staking
//! service is kept in sync by a five-step era-lifecycle state machine, and the
//! exchange rate may only move within a bounded step per era.
//!
//! This crate holds the ledger state and every decision and amount
//! computation. The platform work around it (token transfers, mints and burns,
//! calls into the external staking service, clock reads) is left to the
//! embedding program: each operation here takes the externally observed values
//! as arguments and returns the amounts the embedding program must act on.

pub mod admin;
pub mod era_active;
pub mod era_bond;
pub mod era_new;
pub mod era_unbond;
pub mod era_withdraw;
pub mod errors;
pub mod helper;
pub mod initialize_stake_manager;
pub mod laws;
pub mod staker_stake;
pub mod staker_unstake;
pub mod staker_withdraw;
pub mod states;

pub use crate::errors::Errors;
pub use crate::states::AccountId;
pub use crate::states::EraRate;
pub use crate::states::EraStatus;
pub use crate::states::StakeManager;
pub use crate::states::UnstakeAccount;
