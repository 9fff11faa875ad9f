//! Reconcile-active: commit the era's balance report, fee and exchange rate.

use crate::errors::Errors;
use crate::helper::ERA_RATES_LEN_LIMIT;
use crate::states::spec_platform_fee;
use crate::states::spec_rate;
use crate::states::spec_rate_change;
use crate::states::EraRate;
use crate::states::EraStatus;
use crate::states::StakeManager;
use vstd::prelude::*;

verus! {

/// Announces the rate and platform fee an era was closed with.
#[derive(Clone, Copy, Debug, PartialEq, Eq, Structural)]
pub struct EventEraActive {
    pub era: u64,
    pub rate: u64,
    pub platform_fee: u64,
}

/// The base-asset value backing the pool according to this era's external
/// report: the reported stake balance plus everything not yet forwarded,
/// minus this era's redemptions. Negative exactly when the report cannot
/// cover the redemptions, which reconcile-active rejects.
pub open spec fn spec_era_active_new_active(sm: StakeManager, staking_stake_balance: u64) -> int {
    staking_stake_balance + sm.pending_bond + sm.era_bond - sm.era_unbond
}

/// The era's realized reward: growth of the backing value, clamped at zero
/// on a loss.
pub open spec fn spec_era_active_reward(sm: StakeManager, staking_stake_balance: u64) -> int {
    let new_active = spec_era_active_new_active(sm, staking_stake_balance);
    if new_active > sm.active {
        new_active - sm.active
    } else {
        0
    }
}

/// The platform fee owed on this era's reward, in derivative-token units.
pub open spec fn spec_era_active_fee(sm: StakeManager, staking_stake_balance: u64) -> int {
    spec_platform_fee(
        spec_era_active_reward(sm, staking_stake_balance),
        sm.platform_fee_commission as int,
        sm.rate as int,
    )
}

/// How a successful reconcile-active rewrites the pool: `new_sm` commits the
/// backing value and rate, accrues the fee, appends this era's rate
/// observation (evicting the oldest past the bound), closes the cycle, and
/// leaves every other field of `old_sm` unchanged.
pub open spec fn spec_era_active_updates(
    old_sm: StakeManager,
    new_sm: StakeManager,
    new_active: u64,
    new_rate: u64,
    platform_fee: u64,
) -> bool {
    let entry = EraRate { era: old_sm.latest_era, rate: new_rate };
    &&& new_sm.active == new_active
    &&& new_sm.rate == new_rate
    &&& new_sm.total_platform_fee == old_sm.total_platform_fee + platform_fee
    &&& new_sm.era_status == EraStatus::ActiveUpdated
    &&& new_sm.era_rates@ == (if old_sm.era_rates@.len() + 1 > ERA_RATES_LEN_LIMIT as int {
        old_sm.era_rates@.push(entry).remove(0)
    } else {
        old_sm.era_rates@.push(entry)
    })
    &&& new_sm.creator == old_sm.creator
    &&& new_sm.index == old_sm.index
    &&& new_sm.admin == old_sm.admin
    &&& new_sm.pending_admin == old_sm.pending_admin
    &&& new_sm.lsd_token_mint == old_sm.lsd_token_mint
    &&& new_sm.staking_program == old_sm.staking_program
    &&& new_sm.staking_token_mint == old_sm.staking_token_mint
    &&& new_sm.staking_pool == old_sm.staking_pool
    &&& new_sm.staking_min_stake_amount == old_sm.staking_min_stake_amount
    &&& new_sm.era_seconds == old_sm.era_seconds
    &&& new_sm.era_offset == old_sm.era_offset
    &&& new_sm.min_stake_amount == old_sm.min_stake_amount
    &&& new_sm.platform_fee_commission == old_sm.platform_fee_commission
    &&& new_sm.rate_change_limit == old_sm.rate_change_limit
    &&& new_sm.unbonding_duration == old_sm.unbonding_duration
    &&& new_sm.latest_era == old_sm.latest_era
    &&& new_sm.era_bond == old_sm.era_bond
    &&& new_sm.era_unbond == old_sm.era_unbond
    &&& new_sm.pending_bond == old_sm.pending_bond
    &&& new_sm.pending_unbond == old_sm.pending_unbond
}

/// Reconcile the pool against the external staking service's balance report
/// and commit this era's exchange rate.
///
/// The embedding program first calls the external service's claim primitive
/// (realizing accrued rewards into the stake balance) and then hands this
/// function the reported stake balance and the derivative token supply. On
/// success it must mint `platform_fee` derivative tokens to the platform's
/// fee recipient. A failing call changes nothing; in particular a report
/// that would move the rate further than the configured limit is rejected
/// whole — the last line of defense against a corrupted external report.
///
/// A report whose implied rate truncates to zero is rejected as a
/// calculation fault: the rate divides every later amount conversion, so a
/// zero may never be committed, whatever the rate-change limit — the
/// exchange rate stays positive for the pool's whole life.
pub fn era_active(
    stake_manager: &mut StakeManager,
    staking_stake_balance: u64,
    lsd_token_supply: u64,
) -> (r: Result<EventEraActive, Errors>)
    requires
        old(stake_manager).wf(),
        staking_stake_balance + old(stake_manager).pending_bond + old(stake_manager).era_bond
            <= u64::MAX,
        spec_era_active_fee(*old(stake_manager), staking_stake_balance) <= u64::MAX ==> {
            &&& old(stake_manager).total_platform_fee + spec_era_active_fee(
                *old(stake_manager),
                staking_stake_balance,
            ) <= u64::MAX
            &&& lsd_token_supply + spec_era_active_fee(*old(stake_manager), staking_stake_balance)
                <= u64::MAX
        },
    ensures
        ({
            let o = *old(stake_manager);
            let new_active = spec_era_active_new_active(o, staking_stake_balance);
            let fee = spec_era_active_fee(o, staking_stake_balance);
            let new_supply = lsd_token_supply + fee;
            let new_rate = spec_rate(new_active, new_supply);
            let change = spec_rate_change(o.rate as int, new_rate);
            let status_ok = o.era_status == EraStatus::Bonded || o.era_status
                == EraStatus::Unbonded;
            let all_ok = status_ok && new_active >= 0 && fee <= u64::MAX && 0 < new_rate
                <= u64::MAX && change <= u64::MAX && (o.rate_change_limit == 0 || change
                <= o.rate_change_limit);
            match r {
                Ok(ev) => {
                    &&& all_ok
                    &&& ev == (EventEraActive {
                        era: o.latest_era,
                        rate: new_rate as u64,
                        platform_fee: fee as u64,
                    })
                    &&& spec_era_active_updates(
                        o,
                        *final(stake_manager),
                        new_active as u64,
                        new_rate as u64,
                        fee as u64,
                    )
                    &&& o.rate_change_limit > 0 ==> spec_rate_change(
                        o.rate as int,
                        final(stake_manager).rate as int,
                    ) <= o.rate_change_limit
                    &&& final(stake_manager).rate > 0
                    &&& final(stake_manager).wf()
                },
                Err(e) => {
                    &&& *final(stake_manager) == *old(stake_manager)
                    &&& !all_ok
                    &&& e == (if !status_ok {
                        Errors::EraStatusNotMatch
                    } else if new_active < 0 || fee > u64::MAX || new_rate > u64::MAX || new_rate
                        == 0 || change > u64::MAX {
                        Errors::CalculationFail
                    } else {
                        Errors::RateChangeOverLimit
                    })
                },
            }
        }),
        final(stake_manager).era_rates@.len() <= ERA_RATES_LEN_LIMIT,
{
    if !(stake_manager.era_status == EraStatus::Bonded || stake_manager.era_status
        == EraStatus::Unbonded) {
        return Err(Errors::EraStatusNotMatch);
    }

    let total_bond_and_reward = staking_stake_balance + stake_manager.pending_bond
        + stake_manager.era_bond;
    let total_unbond = stake_manager.era_unbond;
    if total_bond_and_reward < total_unbond {
        return Err(Errors::CalculationFail);
    }
    let new_active = total_bond_and_reward - total_unbond;

    let reward = if new_active > stake_manager.active {
        new_active - stake_manager.active
    } else {
        0
    };

    let platform_fee = stake_manager.calc_platform_fee(reward)?;
    let new_supply = lsd_token_supply + platform_fee;

    let new_rate = stake_manager.calc_rate(new_active, new_supply)?;
    if new_rate == 0 {
        return Err(Errors::CalculationFail);
    }
    let rate_change = stake_manager.calc_rate_change(stake_manager.rate, new_rate)?;

    if stake_manager.rate_change_limit > 0 && rate_change > stake_manager.rate_change_limit {
        return Err(Errors::RateChangeOverLimit);
    }

    stake_manager.active = new_active;
    stake_manager.rate = new_rate;
    stake_manager.total_platform_fee = stake_manager.total_platform_fee + platform_fee;

    let latest_era = stake_manager.latest_era;
    stake_manager.era_rates.push(EraRate { era: latest_era, rate: new_rate });
    if stake_manager.era_rates.len() > ERA_RATES_LEN_LIMIT as usize {
        stake_manager.era_rates.remove(0);
    }

    stake_manager.era_status = EraStatus::ActiveUpdated;

    Ok(EventEraActive { era: latest_era, rate: new_rate, platform_fee })
}

} // verus!
