//! Bond: forward the era's net deposit to the external staking service.

use crate::errors::Errors;
use crate::states::EraStatus;
use crate::states::StakeManager;
use vstd::prelude::*;

verus! {

/// Announces that the era's net deposit was forwarded.
#[derive(Clone, Copy, Debug, PartialEq, Eq, Structural)]
pub struct EventEraBond {
    pub era: u64,
}

/// Settle the era's pending position as a net deposit.
///
/// Only legal right after advance-era, when the pending position is a net
/// deposit of at least the external service's minimum stake. On success both
/// pending accumulators are cleared and the returned amount must be forwarded
/// to the external staking service's stake primitive — the call into that
/// service runs outside this engine, in the same atomic transaction. A
/// failing call changes nothing.
pub fn era_bond(stake_manager: &mut StakeManager) -> (r: Result<(u64, EventEraBond), Errors>)
    ensures
        match r {
            Ok((diff, ev)) => {
                &&& old(stake_manager).era_status == EraStatus::EraUpdated
                &&& old(stake_manager).pending_bond > old(stake_manager).pending_unbond
                &&& diff == old(stake_manager).pending_bond - old(stake_manager).pending_unbond
                &&& diff >= old(stake_manager).staking_min_stake_amount
                &&& ev == (EventEraBond { era: old(stake_manager).latest_era })
                &&& *final(stake_manager) == (StakeManager {
                    pending_bond: 0,
                    pending_unbond: 0,
                    era_status: EraStatus::Bonded,
                    ..*old(stake_manager)
                })
            },
            Err(e) => {
                &&& *final(stake_manager) == *old(stake_manager)
                &&& e == Errors::EraStatusNotMatch
                &&& !(old(stake_manager).era_status == EraStatus::EraUpdated && old(
                    stake_manager,
                ).pending_bond > old(stake_manager).pending_unbond && old(
                    stake_manager,
                ).pending_bond - old(stake_manager).pending_unbond >= old(
                    stake_manager,
                ).staking_min_stake_amount)
            },
        },
        final(stake_manager).rate == old(stake_manager).rate,
{
    if stake_manager.era_status != EraStatus::EraUpdated {
        return Err(Errors::EraStatusNotMatch);
    }
    if !(stake_manager.pending_bond > stake_manager.pending_unbond) {
        return Err(Errors::EraStatusNotMatch);
    }
    let diff = stake_manager.pending_bond - stake_manager.pending_unbond;
    if !(diff >= stake_manager.staking_min_stake_amount) {
        return Err(Errors::EraStatusNotMatch);
    }

    stake_manager.pending_bond = 0;
    stake_manager.pending_unbond = 0;
    stake_manager.era_status = EraStatus::Bonded;

    Ok((diff, EventEraBond { era: stake_manager.latest_era }))
}

} // verus!
