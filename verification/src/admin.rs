//! Administration: two-phase admin transfer and pool configuration.

use crate::errors::Errors;
use crate::helper::CAL_BASE;
use crate::states::AccountId;
use crate::states::StakeManager;
use vstd::prelude::*;

verus! {

/// Optional configuration updates; a field left `None` keeps its value.
#[derive(Clone, Copy, Debug, Default, PartialEq, Eq)]
pub struct ConfigStakeManagerParams {
    pub min_stake_amount: Option<u64>,
    pub platform_fee_commission: Option<u64>,
    pub rate_change_limit: Option<u64>,
}

/// Propose `new_admin` as the pool's next administrator. Only the current
/// administrator may propose; the proposal takes effect only once accepted.
pub fn transfer_stake_manager_admin(
    stake_manager: &mut StakeManager,
    admin: AccountId,
    new_admin: AccountId,
) -> (r: Result<(), Errors>)
    ensures
        match r {
            Ok(_) => {
                &&& admin == old(stake_manager).admin
                &&& *final(stake_manager) == (StakeManager {
                    pending_admin: new_admin,
                    ..*old(stake_manager)
                })
            },
            Err(e) => {
                &&& *final(stake_manager) == *old(stake_manager)
                &&& e == Errors::AdminNotMatch
                &&& admin != old(stake_manager).admin
            },
        },
        final(stake_manager).rate == old(stake_manager).rate,
{
    if admin != stake_manager.admin {
        return Err(Errors::AdminNotMatch);
    }
    stake_manager.pending_admin = new_admin;
    Ok(())
}

/// Accept a proposed admin transfer. Only the proposed administrator may
/// accept; the proposal slot is cleared afterwards.
pub fn accept_stake_manager_admin(stake_manager: &mut StakeManager, pending_admin: AccountId) -> (r:
    Result<(), Errors>)
    ensures
        match r {
            Ok(_) => {
                &&& pending_admin == old(stake_manager).pending_admin
                &&& *final(stake_manager) == (StakeManager {
                    admin: old(stake_manager).pending_admin,
                    pending_admin: 0,
                    ..*old(stake_manager)
                })
            },
            Err(e) => {
                &&& *final(stake_manager) == *old(stake_manager)
                &&& e == Errors::PendingAdminNotMatch
                &&& pending_admin != old(stake_manager).pending_admin
            },
        },
        final(stake_manager).rate == old(stake_manager).rate,
{
    if pending_admin != stake_manager.pending_admin {
        return Err(Errors::PendingAdminNotMatch);
    }
    stake_manager.admin = stake_manager.pending_admin;
    stake_manager.pending_admin = 0;
    Ok(())
}

/// A fee commission is a fraction of `CAL_BASE`, so it must stay below `1.0`:
/// a pool may never take the whole reward.
pub open spec fn spec_commission_allowed(params: ConfigStakeManagerParams) -> bool {
    match params.platform_fee_commission {
        Some(commission) => commission < CAL_BASE,
        None => true,
    }
}

/// The pool configuration after `params` is applied to `sm`.
pub open spec fn spec_configured(sm: StakeManager, params: ConfigStakeManagerParams) -> StakeManager {
    StakeManager {
        min_stake_amount: match params.min_stake_amount {
            Some(v) => v,
            None => sm.min_stake_amount,
        },
        platform_fee_commission: match params.platform_fee_commission {
            Some(v) => v,
            None => sm.platform_fee_commission,
        },
        rate_change_limit: match params.rate_change_limit {
            Some(v) => v,
            None => sm.rate_change_limit,
        },
        ..sm
    }
}

/// Update the pool's configuration. Only the administrator may configure; a
/// fee commission of `CAL_BASE` (100%) or more is rejected outright, and a
/// rejected call applies none of the requested updates.
pub fn config_stake_manager(
    stake_manager: &mut StakeManager,
    admin: AccountId,
    params: ConfigStakeManagerParams,
) -> (r: Result<(), Errors>)
    ensures
        match r {
            Ok(_) => {
                &&& admin == old(stake_manager).admin
                &&& spec_commission_allowed(params)
                &&& *final(stake_manager) == spec_configured(*old(stake_manager), params)
            },
            Err(e) => {
                &&& *final(stake_manager) == *old(stake_manager)
                &&& e == (if admin != old(stake_manager).admin {
                    Errors::AdminNotMatch
                } else {
                    Errors::ParamsNotMatch
                })
                &&& !(admin == old(stake_manager).admin && spec_commission_allowed(params))
            },
        },
        final(stake_manager).rate == old(stake_manager).rate,
{
    if admin != stake_manager.admin {
        return Err(Errors::AdminNotMatch);
    }
    if let Some(platform_fee_commission) = params.platform_fee_commission {
        if platform_fee_commission >= CAL_BASE {
            return Err(Errors::ParamsNotMatch);
        }
    }

    if let Some(min_stake_amount) = params.min_stake_amount {
        stake_manager.min_stake_amount = min_stake_amount;
    }
    if let Some(platform_fee_commission) = params.platform_fee_commission {
        stake_manager.platform_fee_commission = platform_fee_commission;
    }
    if let Some(rate_change_limit) = params.rate_change_limit {
        stake_manager.rate_change_limit = rate_change_limit;
    }
    Ok(())
}

} // verus!
