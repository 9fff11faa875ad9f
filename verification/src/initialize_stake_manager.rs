//! Pool creation: bind to an external stake pool and start at rate `1.0`.

use crate::errors::Errors;
use crate::helper::DEFAULT_MIN_STAKE_AMOUNT;
use crate::helper::DEFAULT_PLATFORM_FEE_COMMISSION;
use crate::helper::DEFAULT_RATE;
use crate::helper::DEFAULT_RATE_CHANGE_LIMIT;
use crate::states::AccountId;
use crate::states::EraStatus;
use crate::states::StakeManager;
use vstd::prelude::*;

verus! {

/// Creation parameters: how long an era lasts, and which of the creator's
/// pools this one is.
#[derive(Clone, Copy, Debug, PartialEq, Eq, Structural)]
pub struct InitializeStakeManagerParams {
    pub era_seconds: i64,
    pub index: u8,
}

/// What a fresh pool ledger holds. The era offset makes the pool start at
/// era zero, and the unbonding duration covers the external service's
/// unbonding period with one era to spare.
pub open spec fn spec_initialized(
    sm: StakeManager,
    params: InitializeStakeManagerParams,
    admin: AccountId,
    lsd_token_mint: AccountId,
    staking_program: AccountId,
    staking_pool: AccountId,
    staking_token_mint: AccountId,
    staking_min_stake_amount: u64,
    unbonding_seconds: u64,
    timestamp: i64,
) -> bool {
    &&& sm.creator == admin
    &&& sm.index == params.index
    &&& sm.admin == admin
    &&& sm.pending_admin == 0
    &&& sm.lsd_token_mint == lsd_token_mint
    &&& sm.staking_program == staking_program
    &&& sm.staking_token_mint == staking_token_mint
    &&& sm.staking_pool == staking_pool
    &&& sm.staking_min_stake_amount == staking_min_stake_amount
    &&& sm.era_seconds == params.era_seconds
    &&& sm.era_offset == 0 - timestamp as int / params.era_seconds as int
    &&& sm.min_stake_amount == DEFAULT_MIN_STAKE_AMOUNT
    &&& sm.platform_fee_commission == DEFAULT_PLATFORM_FEE_COMMISSION
    &&& sm.rate_change_limit == DEFAULT_RATE_CHANGE_LIMIT
    &&& sm.unbonding_duration == unbonding_seconds as int / params.era_seconds as int + 1
    &&& sm.era_status == EraStatus::ActiveUpdated
    &&& sm.latest_era == 0
    &&& sm.rate == DEFAULT_RATE
    &&& sm.era_bond == 0
    &&& sm.era_unbond == 0
    &&& sm.pending_bond == 0
    &&& sm.pending_unbond == 0
    &&& sm.active == 0
    &&& sm.total_platform_fee == 0
    &&& sm.era_rates@.len() == 0
}

/// Create the ledger of a new pool bound to an external stake pool.
///
/// `staking_token_mint`, `staking_min_stake_amount` and `unbonding_seconds`
/// are what the embedding program reads off the external stake pool's
/// account, and `staking_program` is that account's owner; the fresh
/// derivative-token mint is created by the embedding program in the same
/// transaction. Fails exactly when the era duration is not positive.
pub fn initialize_stake_manager(
    params: InitializeStakeManagerParams,
    admin: AccountId,
    lsd_token_mint: AccountId,
    staking_program: AccountId,
    staking_pool: AccountId,
    staking_token_mint: AccountId,
    staking_min_stake_amount: u64,
    unbonding_seconds: u64,
    timestamp: i64,
) -> (r: Result<StakeManager, Errors>)
    requires
        timestamp >= 0,
        unbonding_seconds < u64::MAX,
    ensures
        match r {
            Ok(sm) => {
                &&& params.era_seconds > 0
                &&& spec_initialized(
                    sm,
                    params,
                    admin,
                    lsd_token_mint,
                    staking_program,
                    staking_pool,
                    staking_token_mint,
                    staking_min_stake_amount,
                    unbonding_seconds,
                    timestamp,
                )
                &&& sm.wf()
            },
            Err(e) => {
                &&& e == Errors::ParamsNotMatch
                &&& params.era_seconds <= 0
            },
        },
{
    if params.era_seconds <= 0 {
        return Err(Errors::ParamsNotMatch);
    }

    let era_offset: i64 = 0 - timestamp / params.era_seconds;
    let era_seconds_u: u64 = params.era_seconds as u64;
    proof {
        assert(unbonding_seconds / era_seconds_u <= unbonding_seconds) by (nonlinear_arith)
            requires
                era_seconds_u >= 1,
        ;
    }
    let unbonding_duration: u64 = unbonding_seconds / era_seconds_u + 1;

    Ok(
        StakeManager {
            creator: admin,
            index: params.index,
            admin,
            pending_admin: 0,
            lsd_token_mint,
            staking_program,
            staking_token_mint,
            staking_pool,
            staking_min_stake_amount,
            era_seconds: params.era_seconds,
            era_offset,
            min_stake_amount: DEFAULT_MIN_STAKE_AMOUNT,
            platform_fee_commission: DEFAULT_PLATFORM_FEE_COMMISSION,
            rate_change_limit: DEFAULT_RATE_CHANGE_LIMIT,
            unbonding_duration,
            era_status: EraStatus::ActiveUpdated,
            latest_era: 0,
            rate: DEFAULT_RATE,
            era_bond: 0,
            era_unbond: 0,
            pending_bond: 0,
            pending_unbond: 0,
            active: 0,
            total_platform_fee: 0,
            era_rates: Vec::new(),
        },
    )
}

} // verus!
