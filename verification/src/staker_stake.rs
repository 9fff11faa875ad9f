//! Stake: a user's deposit into the pool.

use crate::errors::Errors;
use crate::states::spec_lsd_amount;
use crate::states::AccountId;
use crate::states::StakeManager;
use vstd::prelude::*;

verus! {

/// Announces a deposit and the derivative tokens minted for it.
#[derive(Clone, Copy, Debug, PartialEq, Eq, Structural)]
pub struct EventStake {
    pub era: u64,
    pub staker: AccountId,
    pub stake_amount: u64,
    pub lsd_token_amount: u64,
    pub stake_manager: AccountId,
}

/// Deposit `stake_amount` base-asset units for `staker`.
///
/// Deposits are always priced at the live rate, whatever the era status. The
/// embedding program transfers `stake_amount` from the user to the pool and,
/// on success, mints `lsd_token_amount` derivative tokens to the staker —
/// both in the same atomic transaction. A failing call changes nothing.
pub fn stake(
    stake_manager: &mut StakeManager,
    staker: AccountId,
    stake_manager_address: AccountId,
    stake_amount: u64,
) -> (r: Result<EventStake, Errors>)
    requires
        old(stake_manager).wf(),
        old(stake_manager).era_bond + stake_amount <= u64::MAX,
        old(stake_manager).active + stake_amount <= u64::MAX,
    ensures
        ({
            let o = *old(stake_manager);
            let lsd = spec_lsd_amount(stake_amount as int, o.rate as int);
            match r {
                Ok(ev) => {
                    &&& stake_amount >= o.min_stake_amount
                    &&& lsd <= u64::MAX
                    &&& ev == (EventStake {
                        era: o.latest_era,
                        staker,
                        stake_amount,
                        lsd_token_amount: lsd as u64,
                        stake_manager: stake_manager_address,
                    })
                    &&& *final(stake_manager) == (StakeManager {
                        era_bond: (o.era_bond + stake_amount) as u64,
                        active: (o.active + stake_amount) as u64,
                        ..o
                    })
                },
                Err(e) => {
                    &&& *final(stake_manager) == *old(stake_manager)
                    &&& e == (if stake_amount < o.min_stake_amount {
                        Errors::StakeAmountTooLow
                    } else {
                        Errors::CalculationFail
                    })
                    &&& !(stake_amount >= o.min_stake_amount && lsd <= u64::MAX)
                },
            }
        }),
        final(stake_manager).rate == old(stake_manager).rate,
        final(stake_manager).wf(),
{
    if stake_amount < stake_manager.min_stake_amount {
        return Err(Errors::StakeAmountTooLow);
    }

    let lsd_token_amount = stake_manager.calc_lsd_token_amount(stake_amount)?;
    stake_manager.era_bond = stake_manager.era_bond + stake_amount;
    stake_manager.active = stake_manager.active + stake_amount;

    Ok(
        EventStake {
            era: stake_manager.latest_era,
            staker,
            stake_amount,
            lsd_token_amount,
            stake_manager: stake_manager_address,
        },
    )
}

} // verus!
