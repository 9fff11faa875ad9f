//! Unstake: a user's redemption request, settled after the unbonding period.

use crate::errors::Errors;
use crate::states::spec_staking_amount;
use crate::states::AccountId;
use crate::states::StakeManager;
use crate::states::UnstakeAccount;
use vstd::prelude::*;

verus! {

/// Announces a redemption request and the base-asset value fixed for it.
#[derive(Clone, Copy, Debug, PartialEq, Eq, Structural)]
pub struct EventUnstake {
    pub era: u64,
    pub staker: AccountId,
    pub unstake_account: AccountId,
    pub unstake_amount: u64,
    pub staking_token_amount: u64,
    pub stake_manager: AccountId,
}

/// Whether a redemption of `unstake_amount` derivative tokens passes every
/// validation: a nonzero amount, a covering user balance, a converted value
/// that fits in 64 bits, and a converted value above zero (dust protection).
pub open spec fn spec_unstake_allowed(
    sm: StakeManager,
    user_lsd_balance: u64,
    unstake_amount: u64,
) -> bool {
    let staking = spec_staking_amount(unstake_amount as int, sm.rate as int);
    &&& unstake_amount > 0
    &&& user_lsd_balance >= unstake_amount
    &&& staking <= u64::MAX
    &&& staking > 0
}

/// Redeem `unstake_amount` derivative tokens for `user`, whose derivative
/// balance is `user_lsd_balance`.
///
/// The base-asset value owed is fixed now, at the live rate; settlement waits
/// until the pool reaches `latest_era + unbonding_duration`. On success the
/// embedding program burns `unstake_amount` derivative tokens from the user
/// and stores the returned withdrawal request under
/// `unstake_account_address` — both in the same atomic transaction. A failing
/// call changes nothing.
pub fn unstake(
    stake_manager: &mut StakeManager,
    stake_manager_address: AccountId,
    user: AccountId,
    unstake_account_address: AccountId,
    user_lsd_balance: u64,
    unstake_amount: u64,
) -> (r: Result<(UnstakeAccount, EventUnstake), Errors>)
    requires
        old(stake_manager).wf(),
        spec_unstake_allowed(*old(stake_manager), user_lsd_balance, unstake_amount) ==> {
            let staking = spec_staking_amount(
                unstake_amount as int,
                old(stake_manager).rate as int,
            );
            &&& old(stake_manager).era_unbond + staking <= u64::MAX
            &&& staking <= old(stake_manager).active
            &&& old(stake_manager).latest_era + old(stake_manager).unbonding_duration <= u64::MAX
        },
    ensures
        ({
            let o = *old(stake_manager);
            let staking = spec_staking_amount(unstake_amount as int, o.rate as int);
            match r {
                Ok((account, ev)) => {
                    &&& spec_unstake_allowed(o, user_lsd_balance, unstake_amount)
                    &&& account == (UnstakeAccount {
                        stake_manager: stake_manager_address,
                        user,
                        amount: staking as u64,
                        withdrawable_era: (o.latest_era + o.unbonding_duration) as u64,
                    })
                    &&& ev == (EventUnstake {
                        era: o.latest_era,
                        staker: user,
                        unstake_account: unstake_account_address,
                        unstake_amount,
                        staking_token_amount: staking as u64,
                        stake_manager: stake_manager_address,
                    })
                    &&& *final(stake_manager) == (StakeManager {
                        era_unbond: (o.era_unbond + staking) as u64,
                        active: (o.active - staking) as u64,
                        ..o
                    })
                },
                Err(e) => {
                    &&& *final(stake_manager) == *old(stake_manager)
                    &&& !spec_unstake_allowed(o, user_lsd_balance, unstake_amount)
                    &&& e == (if unstake_amount == 0 {
                        Errors::UnstakeAmountIsZero
                    } else if user_lsd_balance < unstake_amount {
                        Errors::BalanceNotEnough
                    } else if staking > u64::MAX {
                        Errors::CalculationFail
                    } else {
                        Errors::UnstakeAccountAmountZero
                    })
                },
            }
        }),
        final(stake_manager).rate == old(stake_manager).rate,
        final(stake_manager).wf(),
{
    if unstake_amount == 0 {
        return Err(Errors::UnstakeAmountIsZero);
    }
    if user_lsd_balance < unstake_amount {
        return Err(Errors::BalanceNotEnough);
    }

    let staking_token_amount = stake_manager.calc_staking_token_amount(unstake_amount)?;
    if staking_token_amount == 0 {
        return Err(Errors::UnstakeAccountAmountZero);
    }

    stake_manager.era_unbond = stake_manager.era_unbond + staking_token_amount;
    stake_manager.active = stake_manager.active - staking_token_amount;

    let account = UnstakeAccount {
        stake_manager: stake_manager_address,
        user,
        amount: staking_token_amount,
        withdrawable_era: stake_manager.latest_era + stake_manager.unbonding_duration,
    };
    let ev = EventUnstake {
        era: stake_manager.latest_era,
        staker: user,
        unstake_account: unstake_account_address,
        unstake_amount,
        staking_token_amount,
        stake_manager: stake_manager_address,
    };
    Ok((account, ev))
}

} // verus!
