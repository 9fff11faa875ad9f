//! Unbond: forward the era's net redemption to the external staking service.

use crate::errors::Errors;
use crate::states::EraStatus;
use crate::states::StakeManager;
use vstd::prelude::*;

verus! {

/// Announces that the era's net redemption was forwarded.
#[derive(Clone, Copy, Debug, PartialEq, Eq, Structural)]
pub struct EventEraUnbond {
    pub era: u64,
}

/// Settle the era's pending position as a net redemption.
///
/// Only legal right after advance-era, when the pending position is a net
/// redemption. On success both pending accumulators are cleared and the
/// returned amount must be forwarded to the external staking service's
/// unstake primitive — the call into that service runs outside this engine,
/// in the same atomic transaction. A failing call changes nothing.
pub fn era_unbond(stake_manager: &mut StakeManager) -> (r: Result<(u64, EventEraUnbond), Errors>)
    ensures
        match r {
            Ok((diff, ev)) => {
                &&& old(stake_manager).era_status == EraStatus::EraUpdated
                &&& old(stake_manager).pending_bond < old(stake_manager).pending_unbond
                &&& diff == old(stake_manager).pending_unbond - old(stake_manager).pending_bond
                &&& ev == (EventEraUnbond { era: old(stake_manager).latest_era })
                &&& *final(stake_manager) == (StakeManager {
                    pending_bond: 0,
                    pending_unbond: 0,
                    era_status: EraStatus::Unbonded,
                    ..*old(stake_manager)
                })
            },
            Err(e) => {
                &&& *final(stake_manager) == *old(stake_manager)
                &&& e == Errors::EraStatusNotMatch
                &&& !(old(stake_manager).era_status == EraStatus::EraUpdated && old(
                    stake_manager,
                ).pending_bond < old(stake_manager).pending_unbond)
            },
        },
        final(stake_manager).rate == old(stake_manager).rate,
{
    if stake_manager.era_status != EraStatus::EraUpdated {
        return Err(Errors::EraStatusNotMatch);
    }
    if !(stake_manager.pending_bond < stake_manager.pending_unbond) {
        return Err(Errors::EraStatusNotMatch);
    }
    let diff = stake_manager.pending_unbond - stake_manager.pending_bond;

    stake_manager.pending_bond = 0;
    stake_manager.pending_unbond = 0;
    stake_manager.era_status = EraStatus::Unbonded;

    Ok((diff, EventEraUnbond { era: stake_manager.latest_era }))
}

} // verus!
