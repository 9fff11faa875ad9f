//! Finalize-withdrawal: pull a matured external unbonding request back into
//! the pool.

use crate::errors::Errors;
use crate::states::EraStatus;
use crate::states::StakeManager;
use vstd::prelude::*;

verus! {

/// Announces that a matured external request was withdrawn into the pool.
#[derive(Clone, Copy, Debug, PartialEq, Eq, Structural)]
pub struct EventEraWithdraw {
    pub era: u64,
}

/// Decide whether a previously-unbonded external request may be withdrawn
/// into the pool now.
///
/// `withdrawable_timestamp` is the maturity time the external staking service
/// recorded on the request, and `timestamp` is the current wall-clock time;
/// the embedding program reads both and, on success, calls the external
/// service's withdraw primitive. Only legal right after advance-era, and
/// independent of the bond/unbond branch; the pool ledger itself is never
/// changed (the matured assets land in the pool's token balance, which the
/// host ledger keeps).
pub fn era_withdraw(
    stake_manager: &StakeManager,
    withdrawable_timestamp: u64,
    timestamp: u64,
) -> (r: Result<EventEraWithdraw, Errors>)
    ensures
        match r {
            Ok(ev) => {
                &&& stake_manager.era_status == EraStatus::EraUpdated
                &&& withdrawable_timestamp <= timestamp
                &&& ev == (EventEraWithdraw { era: stake_manager.latest_era })
            },
            Err(e) => {
                &&& e == (if stake_manager.era_status != EraStatus::EraUpdated {
                    Errors::EraStatusNotMatch
                } else {
                    Errors::UnstakeAccountNotWithdrawable
                })
                &&& !(stake_manager.era_status == EraStatus::EraUpdated
                    && withdrawable_timestamp <= timestamp)
            },
        },
{
    if stake_manager.era_status != EraStatus::EraUpdated {
        return Err(Errors::EraStatusNotMatch);
    }
    if !(withdrawable_timestamp <= timestamp) {
        return Err(Errors::UnstakeAccountNotWithdrawable);
    }
    Ok(EventEraWithdraw { era: stake_manager.latest_era })
}

} // verus!
