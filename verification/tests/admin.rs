//! Two-phase admin transfer and pool configuration.

use lsd_program::admin::accept_stake_manager_admin;
use lsd_program::admin::config_stake_manager;
use lsd_program::admin::transfer_stake_manager_admin;
use lsd_program::admin::ConfigStakeManagerParams;
use lsd_program::initialize_stake_manager::initialize_stake_manager;
use lsd_program::initialize_stake_manager::InitializeStakeManagerParams;
use lsd_program::Errors;
use lsd_program::StakeManager;

const ADMIN: u64 = 1;

fn fresh_pool() -> StakeManager {
    let params = InitializeStakeManagerParams { era_seconds: 60, index: 0 };
    initialize_stake_manager(params, ADMIN, 2, 3, 4, 5, 1_000_000, 120, 0).unwrap()
}

#[test]
fn admin_two_phase_transfer() {
    let mut sm = fresh_pool();
    transfer_stake_manager_admin(&mut sm, ADMIN, 77).unwrap();
    assert_eq!(sm.admin, ADMIN);
    assert_eq!(sm.pending_admin, 77);

    accept_stake_manager_admin(&mut sm, 77).unwrap();
    assert_eq!(sm.admin, 77);
    assert_eq!(sm.pending_admin, 0);
}

#[test]
fn admin_transfer_requires_admin() {
    let mut sm = fresh_pool();
    let snapshot = sm.clone();
    assert_eq!(transfer_stake_manager_admin(&mut sm, 99, 77), Err(Errors::AdminNotMatch));
    assert_eq!(sm, snapshot);
}

#[test]
fn admin_accept_requires_pending_admin() {
    let mut sm = fresh_pool();
    transfer_stake_manager_admin(&mut sm, ADMIN, 77).unwrap();
    let snapshot = sm.clone();
    assert_eq!(accept_stake_manager_admin(&mut sm, 78), Err(Errors::PendingAdminNotMatch));
    assert_eq!(sm, snapshot);
}

#[test]
fn admin_config_applies_requested_fields() {
    let mut sm = fresh_pool();
    let params = ConfigStakeManagerParams {
        min_stake_amount: Some(20_000_000),
        platform_fee_commission: Some(50_000_000),
        rate_change_limit: Some(2_000_000),
    };
    config_stake_manager(&mut sm, ADMIN, params).unwrap();
    assert_eq!(sm.min_stake_amount, 20_000_000);
    assert_eq!(sm.platform_fee_commission, 50_000_000);
    assert_eq!(sm.rate_change_limit, 2_000_000);
}

#[test]
fn admin_config_none_keeps_values() {
    let mut sm = fresh_pool();
    let before = sm.clone();
    let params = ConfigStakeManagerParams {
        min_stake_amount: None,
        platform_fee_commission: None,
        rate_change_limit: None,
    };
    config_stake_manager(&mut sm, ADMIN, params).unwrap();
    assert_eq!(sm, before);
}

#[test]
fn admin_config_requires_admin() {
    let mut sm = fresh_pool();
    let snapshot = sm.clone();
    let params = ConfigStakeManagerParams {
        min_stake_amount: Some(1),
        platform_fee_commission: None,
        rate_change_limit: None,
    };
    assert_eq!(config_stake_manager(&mut sm, 99, params), Err(Errors::AdminNotMatch));
    assert_eq!(sm, snapshot);
}

#[test]
fn admin_config_full_commission_rejected() {
    // a commission of 1.0 (or more) never reaches the fee computation, and a
    // rejected call applies none of the requested updates
    let mut sm = fresh_pool();
    let snapshot = sm.clone();
    let params = ConfigStakeManagerParams {
        min_stake_amount: Some(20_000_000),
        platform_fee_commission: Some(1_000_000_000),
        rate_change_limit: None,
    };
    assert_eq!(config_stake_manager(&mut sm, ADMIN, params), Err(Errors::ParamsNotMatch));
    assert_eq!(sm, snapshot);

    let params = ConfigStakeManagerParams {
        min_stake_amount: None,
        platform_fee_commission: Some(u64::MAX),
        rate_change_limit: None,
    };
    assert_eq!(config_stake_manager(&mut sm, ADMIN, params), Err(Errors::ParamsNotMatch));
    assert_eq!(sm, snapshot);
}

#[test]
fn admin_config_commission_just_below_full_accepted() {
    let mut sm = fresh_pool();
    let params = ConfigStakeManagerParams {
        min_stake_amount: None,
        platform_fee_commission: Some(999_999_999),
        rate_change_limit: None,
    };
    config_stake_manager(&mut sm, ADMIN, params).unwrap();
    assert_eq!(sm.platform_fee_commission, 999_999_999);
}
