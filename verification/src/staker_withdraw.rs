//! Withdraw: settle a matured redemption request.

use crate::errors::Errors;
use crate::states::AccountId;
use crate::states::StakeManager;
use crate::states::UnstakeAccount;
use vstd::prelude::*;

verus! {

/// Announces a settled withdrawal.
#[derive(Clone, Copy, Debug, PartialEq, Eq, Structural)]
pub struct EventWithdraw {
    pub era: u64,
    pub user: AccountId,
    pub unstake_account: AccountId,
    pub withdraw_amount: u64,
    pub stake_manager: AccountId,
}

/// Settle the withdrawal request `unstake_account` for `user`.
///
/// `pool_balance` is the pool's settled base-asset balance on the host
/// ledger. The request's amount is zeroed *before* any transfer — the guard
/// against double withdrawal — and on success the embedding program transfers
/// `withdraw_amount` base-asset units from the pool to the user and
/// deallocates the request, in the same atomic transaction. A failing call
/// changes nothing.
pub fn withdraw(
    stake_manager: &StakeManager,
    unstake_account: &mut UnstakeAccount,
    user: AccountId,
    stake_manager_address: AccountId,
    unstake_account_address: AccountId,
    pool_balance: u64,
) -> (r: Result<EventWithdraw, Errors>)
    ensures
        ({
            let o = *old(unstake_account);
            let allowed = user == o.user && o.stake_manager == stake_manager_address && o.amount
                > 0 && stake_manager.latest_era >= o.withdrawable_era && pool_balance >= o.amount;
            match r {
                Ok(ev) => {
                    &&& allowed
                    &&& ev == (EventWithdraw {
                        era: stake_manager.latest_era,
                        user,
                        unstake_account: unstake_account_address,
                        withdraw_amount: o.amount,
                        stake_manager: stake_manager_address,
                    })
                    &&& *final(unstake_account) == (UnstakeAccount { amount: 0, ..o })
                },
                Err(e) => {
                    &&& *final(unstake_account) == *old(unstake_account)
                    &&& !allowed
                    &&& e == (if user != o.user {
                        Errors::UnstakeUserNotMatch
                    } else if o.stake_manager != stake_manager_address {
                        Errors::InvalidUnstakeAccount
                    } else if o.amount == 0 {
                        Errors::UnstakeAccountAmountZero
                    } else if stake_manager.latest_era < o.withdrawable_era {
                        Errors::UnstakeAccountNotWithdrawable
                    } else {
                        Errors::PoolBalanceNotEnough
                    })
                },
            }
        }),
{
    if user != unstake_account.user {
        return Err(Errors::UnstakeUserNotMatch);
    }
    if unstake_account.stake_manager != stake_manager_address {
        return Err(Errors::InvalidUnstakeAccount);
    }
    if unstake_account.amount == 0 {
        return Err(Errors::UnstakeAccountAmountZero);
    }
    if stake_manager.latest_era < unstake_account.withdrawable_era {
        return Err(Errors::UnstakeAccountNotWithdrawable);
    }

    let withdraw_amount = unstake_account.amount;
    if pool_balance < withdraw_amount {
        return Err(Errors::PoolBalanceNotEnough);
    }

    unstake_account.amount = 0;

    Ok(
        EventWithdraw {
            era: stake_manager.latest_era,
            user,
            unstake_account: unstake_account_address,
            withdraw_amount,
            stake_manager: stake_manager_address,
        },
    )
}

} // verus!
