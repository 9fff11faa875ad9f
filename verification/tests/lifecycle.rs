//! The era-lifecycle state machine: ordering, netting, reconciliation, and
//! the bounded rate history.

use lsd_program::era_active::era_active;
use lsd_program::era_bond::era_bond;
use lsd_program::era_new::era_new;
use lsd_program::era_unbond::era_unbond;
use lsd_program::era_withdraw::era_withdraw;
use lsd_program::initialize_stake_manager::initialize_stake_manager;
use lsd_program::initialize_stake_manager::InitializeStakeManagerParams;
use lsd_program::staker_stake::stake;
use lsd_program::staker_unstake::unstake;
use lsd_program::states::EraStatus;
use lsd_program::EraRate;
use lsd_program::Errors;
use lsd_program::StakeManager;

const BASE: u64 = 1_000_000_000;

fn fresh_pool() -> StakeManager {
    let params = InitializeStakeManagerParams { era_seconds: 60, index: 0 };
    // external stake pool: min stake 1_000_000, unbonding 120 s; created at t=0
    initialize_stake_manager(params, 1, 2, 3, 4, 5, 1_000_000, 120, 0).unwrap()
}

#[test]
fn lifecycle_full_cycle_no_reward() {
    let mut sm = fresh_pool();
    stake(&mut sm, 42, 9, 100_000_000).unwrap();

    let ev = era_new(&mut sm, 60).unwrap();
    assert_eq!(ev.new_era, 1);
    assert_eq!(sm.latest_era, 1);
    assert_eq!(sm.era_status, EraStatus::EraUpdated);
    assert_eq!(sm.pending_bond, 100_000_000);
    assert_eq!(sm.era_bond, 0);

    let (diff, bev) = era_bond(&mut sm).unwrap();
    assert_eq!(diff, 100_000_000);
    assert_eq!(bev.era, 1);
    assert_eq!(sm.era_status, EraStatus::Bonded);
    assert_eq!(sm.pending_bond, 0);

    // the external service reports exactly what was bonded: no reward
    let ev = era_active(&mut sm, 100_000_000, 100_000_000).unwrap();
    assert_eq!(ev.rate, BASE);
    assert_eq!(ev.platform_fee, 0);
    assert_eq!(sm.rate, BASE);
    assert_eq!(sm.active, 100_000_000);
    assert_eq!(sm.era_status, EraStatus::ActiveUpdated);
    assert_eq!(sm.era_rates, vec![EraRate { era: 1, rate: BASE }]);
}

#[test]
fn lifecycle_reward_mints_fee_and_lifts_rate() {
    let mut sm = fresh_pool();
    sm.rate_change_limit = 0; // unlimited, to let a large reward through
    stake(&mut sm, 42, 9, 100_000_000).unwrap();
    era_new(&mut sm, 60).unwrap();
    era_bond(&mut sm).unwrap();

    // 1% reward realized; commission 10% of it, paid in derivative tokens
    let ev = era_active(&mut sm, 101_000_000, 100_000_000).unwrap();
    assert_eq!(sm.active, 101_000_000);
    // fee = 1_000_000 * 0.1e9 / 1e9 = 100_000 derivative tokens
    assert_eq!(ev.platform_fee, 100_000);
    assert_eq!(sm.total_platform_fee, 100_000);
    // rate = 101_000_000 * 1e9 / 100_100_000 (supply grew by the fee)
    assert_eq!(ev.rate, 101_000_000 * BASE / 100_100_000);
    assert_eq!(sm.rate, ev.rate);
    assert!(sm.rate > BASE);
}

#[test]
fn lifecycle_loss_clamps_reward_and_lowers_rate() {
    let mut sm = fresh_pool();
    stake(&mut sm, 42, 9, 100_000_000).unwrap();
    era_new(&mut sm, 60).unwrap();
    era_bond(&mut sm).unwrap();

    // the report shows a small loss: reward clamps to 0, no fee, rate drops
    let ev = era_active(&mut sm, 99_950_000, 100_000_000).unwrap();
    assert_eq!(ev.platform_fee, 0);
    assert_eq!(sm.total_platform_fee, 0);
    assert_eq!(sm.active, 99_950_000);
    assert_eq!(sm.rate, 999_500_000);
    assert!(sm.rate < BASE);
}

#[test]
fn lifecycle_rate_change_over_limit_rejected() {
    let mut sm = fresh_pool();
    stake(&mut sm, 42, 9, 100_000_000).unwrap();
    era_new(&mut sm, 60).unwrap();
    era_bond(&mut sm).unwrap();

    // a 1% loss is far over the default 0.1% limit: rejected, nothing changes
    let snapshot = sm.clone();
    assert_eq!(era_active(&mut sm, 99_000_000, 100_000_000), Err(Errors::RateChangeOverLimit));
    assert_eq!(sm, snapshot);

    // the same report passes once the limit is lifted
    sm.rate_change_limit = 0;
    era_active(&mut sm, 99_000_000, 100_000_000).unwrap();
    assert_eq!(sm.rate, 990_000_000);
}

#[test]
fn lifecycle_underflowing_report_rejected() {
    let mut sm = fresh_pool();
    stake(&mut sm, 42, 9, 100_000_000).unwrap();
    era_new(&mut sm, 60).unwrap();
    era_bond(&mut sm).unwrap();
    // redeem this era so era_unbond is ahead of what the report can cover
    unstake(&mut sm, 9, 42, 8, 100_000_000, 50_000_000).unwrap();
    let snapshot = sm.clone();
    assert_eq!(era_active(&mut sm, 10_000_000, 50_000_000), Err(Errors::CalculationFail));
    assert_eq!(sm, snapshot);
}

#[test]
fn lifecycle_zero_rate_report_rejected() {
    // a collapsed report whose implied rate truncates to zero is a
    // calculation fault even with the rate-change limit lifted: the rate
    // stays positive for the pool's whole life
    let mut sm = fresh_pool();
    sm.rate_change_limit = 0;
    era_new(&mut sm, 60).unwrap();
    assert_eq!(sm.era_status, EraStatus::Bonded); // empty position netted out
    let snapshot = sm.clone();
    // one base unit backing an enormous derivative supply: 1e9 / u64::MAX -> 0
    assert_eq!(era_active(&mut sm, 1, u64::MAX), Err(Errors::CalculationFail));
    assert_eq!(sm, snapshot);
    assert!(sm.rate > 0);
}

#[test]
fn lifecycle_era_new_requires_active_updated() {
    let mut sm = fresh_pool();
    era_new(&mut sm, 60).unwrap();
    let snapshot = sm.clone();
    assert_eq!(era_new(&mut sm, 120), Err(Errors::EraStatusNotMatch));
    assert_eq!(sm, snapshot);
}

#[test]
fn lifecycle_era_new_same_era_is_latest() {
    let mut sm = fresh_pool();
    let snapshot = sm.clone();
    assert_eq!(era_new(&mut sm, 59), Err(Errors::EraIsLatest));
    assert_eq!(sm, snapshot);
}

#[test]
fn lifecycle_era_new_nets_small_deposit() {
    let mut sm = fresh_pool();
    // a deposit below the external minimum of 1_000_000 is netted on the spot
    sm.min_stake_amount = 1;
    stake(&mut sm, 42, 9, 900_000).unwrap();
    era_new(&mut sm, 60).unwrap();
    assert_eq!(sm.era_status, EraStatus::Bonded);
    assert_eq!(sm.pending_bond, 900_000);
    assert_eq!(sm.pending_unbond, 0);
}

#[test]
fn lifecycle_era_bond_requires_era_updated() {
    let mut sm = fresh_pool();
    stake(&mut sm, 42, 9, 100_000_000).unwrap();
    let snapshot = sm.clone();
    assert_eq!(era_bond(&mut sm), Err(Errors::EraStatusNotMatch));
    assert_eq!(sm, snapshot);
}

#[test]
fn lifecycle_era_bond_requires_net_deposit() {
    let mut sm = fresh_pool();
    era_new(&mut sm, 60).unwrap();
    assert_eq!(sm.era_status, EraStatus::Bonded); // empty position netted out
    let snapshot = sm.clone();
    assert_eq!(era_bond(&mut sm), Err(Errors::EraStatusNotMatch));
    assert_eq!(sm, snapshot);
}

#[test]
fn lifecycle_era_unbond_settles_net_redemption() {
    let mut sm = fresh_pool();
    stake(&mut sm, 42, 9, 100_000_000).unwrap();
    era_new(&mut sm, 60).unwrap();
    era_bond(&mut sm).unwrap();
    era_active(&mut sm, 100_000_000, 100_000_000).unwrap();
    unstake(&mut sm, 9, 42, 8, 100_000_000, 30_000_000).unwrap();
    era_new(&mut sm, 120).unwrap();
    assert_eq!(sm.era_status, EraStatus::EraUpdated);
    assert_eq!(sm.pending_unbond, 30_000_000);
    let (diff, uev) = era_unbond(&mut sm).unwrap();
    assert_eq!(diff, 30_000_000);
    assert_eq!(uev.era, 2);
    assert_eq!(sm.era_status, EraStatus::Unbonded);
    assert_eq!(sm.pending_bond, 0);
    assert_eq!(sm.pending_unbond, 0);
}

#[test]
fn lifecycle_era_unbond_requires_net_redemption() {
    let mut sm = fresh_pool();
    stake(&mut sm, 42, 9, 100_000_000).unwrap();
    era_new(&mut sm, 60).unwrap();
    assert_eq!(sm.era_status, EraStatus::EraUpdated);
    let snapshot = sm.clone();
    assert_eq!(era_unbond(&mut sm), Err(Errors::EraStatusNotMatch));
    assert_eq!(sm, snapshot);
}

#[test]
fn lifecycle_era_withdraw_gates() {
    let mut sm = fresh_pool();
    stake(&mut sm, 42, 9, 100_000_000).unwrap();
    // out of order: the cycle is still at ActiveUpdated
    assert_eq!(era_withdraw(&sm, 100, 200), Err(Errors::EraStatusNotMatch));
    era_new(&mut sm, 60).unwrap();
    assert_eq!(sm.era_status, EraStatus::EraUpdated);
    // not yet matured
    assert_eq!(era_withdraw(&sm, 300, 200), Err(Errors::UnstakeAccountNotWithdrawable));
    // matured
    let ev = era_withdraw(&sm, 200, 200).unwrap();
    assert_eq!(ev.era, 1);
    assert_eq!(sm.era_status, EraStatus::EraUpdated);
}

#[test]
fn lifecycle_era_active_requires_bond_or_unbond() {
    let mut sm = fresh_pool();
    let snapshot = sm.clone();
    assert_eq!(era_active(&mut sm, 0, 0), Err(Errors::EraStatusNotMatch));
    assert_eq!(sm, snapshot);
}

#[test]
fn lifecycle_era_rates_keep_last_ten() {
    let mut sm = fresh_pool();
    sm.rate_change_limit = 0;
    let mut timestamp: i64 = 60;
    for era in 1..=12u64 {
        era_new(&mut sm, timestamp).unwrap();
        assert!(sm.era_status == EraStatus::Bonded); // nothing pending: netted
        era_active(&mut sm, 0, 0).unwrap();
        assert_eq!(sm.latest_era, era);
        assert!(sm.era_rates.len() <= 10);
        timestamp += 60;
    }
    // twelve observations were pushed; the two oldest were evicted
    assert_eq!(sm.era_rates.len(), 10);
    assert_eq!(sm.era_rates[0], EraRate { era: 3, rate: BASE });
    assert_eq!(sm.era_rates[9], EraRate { era: 12, rate: BASE });
}

#[test]
fn lifecycle_rate_only_moves_in_reconcile() {
    let mut sm = fresh_pool();
    stake(&mut sm, 42, 9, 100_000_000).unwrap();
    assert_eq!(sm.rate, BASE);
    era_new(&mut sm, 60).unwrap();
    assert_eq!(sm.rate, BASE);
    era_bond(&mut sm).unwrap();
    assert_eq!(sm.rate, BASE);
    unstake(&mut sm, 9, 42, 8, 100_000_000, 10_000_000).unwrap();
    assert_eq!(sm.rate, BASE);
    // only reconcile-active rewrites the rate
    sm.rate_change_limit = 0;
    era_active(&mut sm, 105_000_000, 100_000_000).unwrap();
    assert_ne!(sm.rate, BASE);
}
