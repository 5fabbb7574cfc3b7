use fund_program::error::FundError;
use fund_program::insurance::{ADLTriggerReason, InsuranceFundConfig};
use fund_program::math::INITIAL_NAV_E6;
use fund_program::state::{Address, FeeConfig, Fund, FundStats, LPPosition};

fn key(b: u8) -> Address {
    Address::new([b; 32])
}

fn test_fund() -> Fund {
    Fund::new(key(1), "Test Fund", 254, key(2), key(3), FeeConfig::new(200, 2000), 1, 1000000)
}

#[test]
fn test_fund_creation() {
    let manager = key(1);
    let fund = test_fund();
    assert_eq!(fund.manager, manager);
    assert_eq!(fund.name_str(), "Test Fund");
    assert!(fund.is_open);
    assert!(!fund.is_paused);
    assert_eq!(fund.stats.current_nav_e6, INITIAL_NAV_E6);
}

#[test]
fn test_fund_deposit_withdrawal() {
    let mut fund = test_fund();
    fund.record_deposit(100_000_000, 100_000_000).unwrap();
    assert_eq!(fund.stats.total_deposits_e6, 100_000_000);
    assert_eq!(fund.stats.total_shares, 100_000_000);
    fund.record_withdrawal(50_000_000, 50_000_000).unwrap();
    assert_eq!(fund.stats.total_withdrawals_e6, 50_000_000);
    assert_eq!(fund.stats.total_shares, 50_000_000);
}

#[test]
fn test_lp_position() {
    let mut position = LPPosition::new(key(4), key(5), 100_000_000, 1_000_000, 100_000_000, 1000000, 254);
    assert_eq!(position.current_value(1_000_000), 100_000_000);
    assert_eq!(position.current_value(1_500_000), 150_000_000);
    assert_eq!(position.unrealized_pnl(1_500_000), 50_000_000);
    position.add_shares(50_000_000, 50_000_000, 1_000_000, 2000000).unwrap();
    assert_eq!(position.shares, 150_000_000);
    assert_eq!(position.total_deposited_e6, 150_000_000);
    position.remove_shares(25_000_000, 25_000_000, 3000000).unwrap();
    assert_eq!(position.shares, 125_000_000);
    assert_eq!(position.total_withdrawn_e6, 25_000_000);
}

#[test]
fn test_fund_stats() {
    let mut stats = FundStats::new(1000000);
    assert_eq!(stats.current_nav_e6, INITIAL_NAV_E6);
    assert_eq!(stats.high_water_mark_e6, INITIAL_NAV_E6);
    assert_eq!(stats.total_shares, 0);
    stats.total_deposits_e6 = 100_000_000;
    stats.total_shares = 100_000_000;
    stats.update_nav().unwrap();
    assert_eq!(stats.current_nav_e6, 1_000_000);
    stats.total_realized_pnl_e6 = 20_000_000;
    stats.update_nav().unwrap();
    stats.update_hwm();
    assert_eq!(stats.current_nav_e6, 1_200_000);
    assert_eq!(stats.high_water_mark_e6, 1_200_000);
}

#[test]
fn test_insurance_fund_config_creation() {
    let fund = key(6);
    let config = InsuranceFundConfig::new(fund, 254, 100_000_000, 3600, key(7), 1000000);
    assert_eq!(config.fund, fund);
    assert_eq!(config.adl_trigger_threshold_e6, 100_000_000);
    assert_eq!(config.withdrawal_delay_secs, 3600);
    assert_eq!(config.total_liquidation_income_e6, 0);
    assert!(!config.is_adl_in_progress);
}

#[test]
fn test_insurance_fund_adl_trigger_conditions() {
    let mut config = InsuranceFundConfig::new(key(6), 254, 100_000_000, 3600, key(7), 1000000);
    config.balance_1h_ago_e6 = 1000_000_000;
    assert_eq!(config.should_trigger_adl(50_000_000, 100_000_000), ADLTriggerReason::Bankruptcy);
    assert_eq!(config.should_trigger_adl(50_000_000, 0), ADLTriggerReason::InsufficientBalance);
    assert_eq!(config.should_trigger_adl(600_000_000, 0), ADLTriggerReason::RapidDecline);
    assert_eq!(config.should_trigger_adl(800_000_000, 0), ADLTriggerReason::NoTrigger);
}

#[test]
fn test_insurance_fund_cover_shortfall() {
    let mut config = InsuranceFundConfig::new(key(6), 254, 100_000_000, 3600, key(7), 1000000);
    let (covered, remaining) = config.cover_shortfall(500_000_000, 1000_000_000).unwrap();
    assert_eq!(covered, 500_000_000);
    assert_eq!(remaining, 0);
    assert_eq!(config.total_shortfall_payout_e6, 500_000_000);
    let (covered, remaining) = config.cover_shortfall(600_000_000, 400_000_000).unwrap();
    assert_eq!(covered, 400_000_000);
    assert_eq!(remaining, 200_000_000);
    assert_eq!(config.total_shortfall_payout_e6, 900_000_000);
}

#[test]
fn test_insurance_fund_income_tracking() {
    let mut config = InsuranceFundConfig::new(key(6), 254, 100_000_000, 3600, key(7), 1000000);
    config.add_liquidation_income(100_000_000).unwrap();
    assert_eq!(config.total_liquidation_income_e6, 100_000_000);
    config.add_adl_profit(50_000_000).unwrap();
    assert_eq!(config.total_adl_profit_e6, 50_000_000);
    assert_eq!(config.total_income_e6(), 150_000_000);
    config.cover_shortfall(30_000_000, 1000_000_000).unwrap();
    assert_eq!(config.net_income_e6(), 120_000_000);
}

#[test]
fn fund_gates_and_manager() {
    let mut fund = test_fund();
    assert!(fund.is_manager(&key(1)));
    assert!(!fund.is_manager(&key(9)));
    assert!(fund.can_deposit());
    fund.is_open = false;
    assert!(!fund.can_deposit());
    assert!(fund.can_withdraw());
    fund.is_open = true;
    fund.is_paused = true;
    assert!(!fund.can_deposit());
    assert!(!fund.can_withdraw());
}

#[test]
fn fee_config_defaults() {
    let config = FeeConfig::new(200, 2000);
    assert_eq!(config.management_fee_bps, 200);
    assert_eq!(config.performance_fee_bps, 2000);
    assert!(config.use_high_water_mark);
    assert_eq!(config.fee_collection_interval, 86_400);
}

#[test]
fn withdrawal_beyond_shares_is_underflow() {
    let mut fund = test_fund();
    fund.record_deposit(10_000_000, 10_000_000).unwrap();
    assert_eq!(fund.record_withdrawal(1, 10_000_001), Err(FundError::Underflow));
    assert_eq!(fund.stats.total_shares, 10_000_000);
    assert_eq!(fund.stats.total_withdrawals_e6, 0);
}

#[test]
fn failed_pnl_changes_nothing() {
    let mut fund = test_fund();
    fund.record_deposit(10_000_000, 10_000_000).unwrap();
    assert_eq!(fund.record_pnl(-10_000_000), Err(FundError::NAVCalculationError));
    assert_eq!(fund.stats.total_realized_pnl_e6, 0);
    assert_eq!(fund.stats.current_nav_e6, 1_000_000);
}

#[test]
fn pnl_raises_hwm_and_loss_keeps_it() {
    let mut fund = test_fund();
    fund.record_deposit(100_000_000, 100_000_000).unwrap();
    fund.record_pnl(20_000_000).unwrap();
    assert_eq!(fund.stats.current_nav_e6, 1_200_000);
    assert_eq!(fund.stats.high_water_mark_e6, 1_200_000);
    fund.record_pnl(-50_000_000).unwrap();
    assert_eq!(fund.stats.current_nav_e6, 700_000);
    assert_eq!(fund.stats.high_water_mark_e6, 1_200_000);
}

#[test]
fn fees_accrue_and_are_booked() {
    let mut fund = test_fund();
    fund.record_deposit(100_000_000_000, 100_000_000_000).unwrap();
    fund.record_pnl(20_000_000_000).unwrap();
    fund.stats.high_water_mark_e6 = 1_000_000;
    let now = 1000000 + 31_536_000;
    let (mgmt, perf) = fund.calculate_fees(now).unwrap();
    assert_eq!(mgmt, 2_400_000_000);
    assert_eq!(perf, 4_000_000_000);
    fund.collect_fees(mgmt, perf, now).unwrap();
    assert_eq!(fund.stats.total_management_fee_e6, 2_400_000_000);
    assert_eq!(fund.stats.total_performance_fee_e6, 4_000_000_000);
    assert_eq!(fund.stats.last_fee_collection_ts, now);
    assert_eq!(fund.stats.current_nav_e6, 1_136_000);
    assert_eq!(fund.stats.high_water_mark_e6, 1_136_000);
    assert_eq!(fund.calculate_fees(now), Ok((0, 0)));
}

#[test]
fn stats_collect_fees_accrues_nothing() {
    let mut stats = FundStats::new(5);
    assert_eq!(stats.collect_fees(1_000_000), Ok((0, 0)));
    assert_eq!(stats.last_fee_collection_ts, 5);
}

#[test]
fn total_value_is_exact_or_overflows() {
    let mut stats = FundStats::new(0);
    stats.total_deposits_e6 = i64::MAX;
    stats.total_withdrawals_e6 = 10;
    stats.total_realized_pnl_e6 = 5;
    assert_eq!(stats.total_value_e6(), Ok(i64::MAX - 5));
    stats.total_withdrawals_e6 = -10;
    assert_eq!(stats.total_value_e6(), Err(FundError::Overflow));
    stats.total_shares = 1;
    assert_eq!(stats.update_nav(), Err(FundError::Overflow));
    stats.total_management_fee_e6 = 15;
    assert_eq!(stats.total_value_e6(), Ok(i64::MAX));
}

#[test]
fn position_errors_and_emptiness() {
    let mut position = LPPosition::new(key(4), key(5), 10, 1_000_000, 10, 0, 1);
    assert_eq!(position.remove_shares(11, 11, 5), Err(FundError::InsufficientShares));
    assert_eq!(position.shares, 10);
    assert_eq!(position.add_shares(u64::MAX, 1, 1_000_000, 5), Err(FundError::Overflow));
    assert_eq!(position.shares, 10);
    position.add_shares(5, 5, 2_000_000, 7).unwrap();
    assert_eq!(position.deposit_nav_e6, 2_000_000);
    assert_eq!(position.last_update_ts, 7);
    position.remove_shares(15, 20, 9).unwrap();
    assert!(position.is_empty());
    assert_eq!(position.unrealized_pnl(1_000_000), 5);
}

#[test]
fn snapshot_waits_an_hour() {
    let mut config = InsuranceFundConfig::new(key(6), 254, 100, 3600, key(7), 1_000);
    assert_eq!(config.update_hourly_snapshot(500, 4_599), Err(FundError::SnapshotTooRecent));
    assert_eq!(config.balance_1h_ago_e6, 0);
    assert_eq!(config.update_hourly_snapshot(500, 4_600), Ok(()));
    assert_eq!(config.balance_1h_ago_e6, 500);
    assert_eq!(config.last_snapshot_ts, 4_600);
}

#[test]
fn adl_episodes_are_counted() {
    let mut config = InsuranceFundConfig::new(key(6), 254, 100, 3600, key(7), 0);
    config.set_adl_in_progress(true);
    assert!(config.is_adl_in_progress);
    assert!(!config.can_withdraw());
    assert_eq!(config.adl_trigger_count, 1);
    config.set_adl_in_progress(false);
    assert_eq!(config.adl_trigger_count, 1);
    assert!(config.can_withdraw());
    assert!(config.is_authorized_caller(&key(7)));
    assert!(!config.is_authorized_caller(&key(8)));
}

#[test]
fn bankruptcy_outranks_low_balance() {
    let mut config = InsuranceFundConfig::new(key(6), 254, 100_000_000, 3600, key(7), 0);
    config.balance_1h_ago_e6 = 1_000_000_000;
    assert_eq!(config.should_trigger_adl(50_000_000, 100_000_000), ADLTriggerReason::Bankruptcy);
    config.balance_1h_ago_e6 = 0;
    assert_eq!(config.should_trigger_adl(100_000_000, 0), ADLTriggerReason::NoTrigger);
    assert_eq!(ADLTriggerReason::default(), ADLTriggerReason::NoTrigger);
}

#[test]
fn partial_cover_adds_exact_payout() {
    let mut config = InsuranceFundConfig::new(key(6), 254, 100_000_000, 3600, key(7), 0);
    let before = config.total_shortfall_payout_e6;
    assert_eq!(config.cover_shortfall(600_000_000, 400_000_000), Ok((400_000_000, 200_000_000)));
    assert_eq!(config.total_shortfall_payout_e6 - before, 400_000_000);
}

#[test]
fn trading_fee_counts_as_liquidation_income() {
    let mut config = InsuranceFundConfig::new(key(6), 254, 100, 3600, key(7), 0);
    assert_eq!(config.add_trading_fee(30), Ok(()));
    assert_eq!(config.total_liquidation_income_e6, 30);
    assert_eq!(config.add_liquidation_income(i64::MAX), Err(FundError::Overflow));
    assert_eq!(config.total_liquidation_income_e6, 30);
    assert_eq!(config.add_adl_profit(i64::MAX), Ok(()));
    assert_eq!(config.add_adl_profit(1), Err(FundError::Overflow));
}

#[test]
fn shortfall_inputs_are_checked() {
    let mut config = InsuranceFundConfig::new(key(6), 254, 100, 3600, key(7), 0);
    assert_eq!(config.cover_shortfall(-1, 10), Err(FundError::InvalidAmount));
    assert_eq!(config.cover_shortfall(10, -1), Err(FundError::InvalidAmount));
    assert_eq!(config.cover_shortfall(0, 10), Ok((0, 0)));
    config.total_shortfall_payout_e6 = i64::MAX - 5;
    assert_eq!(config.cover_shortfall(6, 10), Err(FundError::Overflow));
    assert_eq!(config.total_shortfall_payout_e6, i64::MAX - 5);
}

#[test]
fn fee_booking_is_gated() {
    let mut fund = test_fund();
    fund.record_deposit(100_000_000, 100_000_000).unwrap();
    assert_eq!(fund.collect_fees(1, 1, 1000000 + 86_399), Err(FundError::FeeCollectionTooEarly));
    assert_eq!(fund.collect_fees(0, 0, 1000000 + 86_400), Err(FundError::NoFeesToCollect));
    assert_eq!(fund.collect_fees(5, -5, 1000000 + 86_400), Err(FundError::NoFeesToCollect));
    assert_eq!(fund.stats.last_fee_collection_ts, 1000000);
    assert_eq!(fund.collect_fees(1_000_000, 0, 1000000 + 86_400), Ok(()));
    assert_eq!(fund.stats.current_nav_e6, 990_000);
}
