//! Advance-era: the first step of each era's lifecycle.

use crate::errors::Errors;
use crate::states::spec_current_era;
use crate::states::EraStatus;
use crate::states::StakeManager;
use vstd::prelude::*;

verus! {

/// Announces that the pool advanced to a new era.
#[derive(Clone, Copy, Debug, PartialEq, Eq, Structural)]
pub struct EventEraNew {
    pub new_era: u64,
}

/// The pool state after advance-era succeeds at `new_era`: the per-era
/// accumulators are rolled into the pending position and reset, and a small
/// net deposit below the external service's minimum is netted out on the
/// spot, skipping the bond step.
pub open spec fn spec_era_new_state(sm: StakeManager, new_era: u64) -> StakeManager {
    let pending_bond = (sm.pending_bond + sm.era_bond) as u64;
    let pending_unbond = (sm.pending_unbond + sm.era_unbond) as u64;
    let netted = pending_bond >= pending_unbond && pending_bond - pending_unbond
        < sm.staking_min_stake_amount;
    StakeManager {
        latest_era: new_era,
        era_bond: 0,
        era_unbond: 0,
        pending_bond: if netted {
            (pending_bond - pending_unbond) as u64
        } else {
            pending_bond
        },
        pending_unbond: if netted {
            0
        } else {
            pending_unbond
        },
        era_status: if netted {
            EraStatus::Bonded
        } else {
            EraStatus::EraUpdated
        },
        ..sm
    }
}

/// Advance the pool to the era `timestamp` falls in.
///
/// Only legal once reconcile-active has closed the previous cycle, and only
/// when the clock has actually entered a later era. On success the per-era
/// accumulators roll into the cross-era pending position; a failing call
/// changes nothing.
pub fn era_new(stake_manager: &mut StakeManager, timestamp: i64) -> (r: Result<
    EventEraNew,
    Errors,
>)
    requires
        old(stake_manager).wf(),
        timestamp >= 0,
        old(stake_manager).latest_era < u64::MAX,
        old(stake_manager).pending_bond + old(stake_manager).era_bond <= u64::MAX,
        old(stake_manager).pending_unbond + old(stake_manager).era_unbond <= u64::MAX,
        spec_current_era(
            timestamp as int,
            old(stake_manager).era_seconds as int,
            old(stake_manager).era_offset as int,
        ) <= i64::MAX,
    ensures
        ({
            let current_era = spec_current_era(
                timestamp as int,
                old(stake_manager).era_seconds as int,
                old(stake_manager).era_offset as int,
            );
            match r {
                Ok(ev) => {
                    &&& old(stake_manager).era_status == EraStatus::ActiveUpdated
                    &&& current_era >= old(stake_manager).latest_era + 1
                    &&& ev == (EventEraNew { new_era: (old(stake_manager).latest_era + 1) as u64 })
                    &&& *final(stake_manager) == spec_era_new_state(
                        *old(stake_manager),
                        (old(stake_manager).latest_era + 1) as u64,
                    )
                },
                Err(e) => {
                    &&& *final(stake_manager) == *old(stake_manager)
                    &&& e == (if old(stake_manager).era_status != EraStatus::ActiveUpdated {
                        Errors::EraStatusNotMatch
                    } else if current_era < 0 {
                        Errors::CalculationFail
                    } else {
                        Errors::EraIsLatest
                    })
                    &&& !(old(stake_manager).era_status == EraStatus::ActiveUpdated && current_era
                        >= old(stake_manager).latest_era + 1)
                },
            }
        }),
        final(stake_manager).rate == old(stake_manager).rate,
        final(stake_manager).wf(),
{
    if stake_manager.era_status != EraStatus::ActiveUpdated {
        return Err(Errors::EraStatusNotMatch);
    }
    let new_era = stake_manager.latest_era + 1;
    let current_era = stake_manager.calc_current_era(timestamp)?;
    if current_era < new_era {
        return Err(Errors::EraIsLatest);
    }
    stake_manager.pending_unbond = stake_manager.pending_unbond + stake_manager.era_unbond;
    stake_manager.pending_bond = stake_manager.pending_bond + stake_manager.era_bond;

    stake_manager.era_status = EraStatus::EraUpdated;
    if stake_manager.pending_bond >= stake_manager.pending_unbond && stake_manager.pending_bond
        - stake_manager.pending_unbond < stake_manager.staking_min_stake_amount {
        stake_manager.pending_bond = stake_manager.pending_bond - stake_manager.pending_unbond;
        stake_manager.pending_unbond = 0;
        stake_manager.era_status = EraStatus::Bonded;
    }

    stake_manager.latest_era = new_era;
    stake_manager.era_bond = 0;
    stake_manager.era_unbond = 0;

    Ok(EventEraNew { new_era })
}

} // verus!
