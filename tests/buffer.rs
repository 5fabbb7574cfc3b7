use fund_program::buffer::{
    add_adl_profit_to_buffer, cover_shortfall_from_buffer, add_liquidation_income_to_buffer, add_trading_fee_to_buffer,
    initialize_insurance_fund, set_buffer_adl_in_progress,
};
use fund_program::error::FundError;
use fund_program::instruction::{InitializeInsuranceFundArgs, SetFundOpenArgs, SetFundPausedArgs};
use fund_program::operations::{open_lp_position, refresh_nav, set_fund_open, set_fund_paused};
use fund_program::state::Address;

fn key(b: u8) -> Address {
    Address::new([b; 32])
}

fn setup() -> (fund_program::state::Fund, fund_program::insurance::InsuranceFundConfig) {
    let args = InitializeInsuranceFundArgs {
        adl_trigger_threshold_e6: 100_000_000,
        withdrawal_delay_secs: 3_600,
        authorized_caller: key(40),
    };
    initialize_insurance_fund(key(30), key(31), 200, key(32), key(33), 0, 201, &args, 10_000)
}

#[test]
fn buffer_setup_is_fee_free() {
    let (fund, config) = setup();
    assert_eq!(fund.manager, key(30));
    assert_eq!(fund.fee_config.management_fee_bps, 0);
    assert_eq!(fund.fee_config.performance_fee_bps, 0);
    assert!(!fund.fee_config.use_high_water_mark);
    assert_eq!(fund.stats.current_nav_e6, 1_000_000);
    assert_eq!(config.fund, key(31));
    assert_eq!(config.bump, 201);
    assert_eq!(config.adl_trigger_threshold_e6, 100_000_000);
    assert_eq!(config.last_snapshot_ts, 10_000);
    assert_eq!(config.balance_1h_ago_e6, 0);
}

#[test]
fn buffer_income_raises_nav() {
    let (mut fund, mut config) = setup();
    let _lp = open_lp_position(&mut fund, key(31), key(50), 100_000_000, 10_100, 7).unwrap();
    add_liquidation_income_to_buffer(&mut config, &mut fund, &key(40), 10_000_000, 10_200).unwrap();
    assert_eq!(config.total_liquidation_income_e6, 10_000_000);
    assert_eq!(fund.stats.current_nav_e6, 1_100_000);
    add_adl_profit_to_buffer(&mut config, &mut fund, &key(40), 5_000_000, 10_300).unwrap();
    assert_eq!(config.total_adl_profit_e6, 5_000_000);
    add_trading_fee_to_buffer(&mut config, &mut fund, &key(40), 5_000_000, 10_400).unwrap();
    assert_eq!(config.total_liquidation_income_e6, 15_000_000);
    assert_eq!(fund.stats.current_nav_e6, 1_200_000);
    assert_eq!(fund.stats.high_water_mark_e6, 1_200_000);
    assert_eq!(config.last_update_ts, 10_400);
    assert_eq!(config.total_income_e6(), 20_000_000);
}

#[test]
fn buffer_rejects_strangers_and_bad_fees() {
    let (mut fund, mut config) = setup();
    assert_eq!(
        add_liquidation_income_to_buffer(&mut config, &mut fund, &key(41), 1, 10_100),
        Err(FundError::UnauthorizedCaller)
    );
    assert_eq!(add_adl_profit_to_buffer(&mut config, &mut fund, &key(41), 1, 10_100), Err(FundError::UnauthorizedCaller));
    assert_eq!(add_trading_fee_to_buffer(&mut config, &mut fund, &key(41), 1, 10_100), Err(FundError::UnauthorizedCaller));
    assert_eq!(add_trading_fee_to_buffer(&mut config, &mut fund, &key(40), 0, 10_100), Err(FundError::InvalidAmount));
    assert_eq!(set_buffer_adl_in_progress(&mut config, &key(41), true, 10_100), Err(FundError::UnauthorizedCaller));
    assert_eq!(config.total_liquidation_income_e6, 0);
    assert!(!config.is_adl_in_progress);
    assert_eq!(set_buffer_adl_in_progress(&mut config, &key(40), true, 10_200), Ok(()));
    assert!(config.is_adl_in_progress);
    assert_eq!(config.adl_trigger_count, 1);
}

#[test]
fn buffer_loss_beyond_value_is_refused() {
    let (mut fund, mut config) = setup();
    let _lp = open_lp_position(&mut fund, key(31), key(50), 10_000_000, 10_100, 7).unwrap();
    assert_eq!(
        add_liquidation_income_to_buffer(&mut config, &mut fund, &key(40), -10_000_000, 10_200),
        Err(FundError::NAVCalculationError)
    );
    assert_eq!(config.total_liquidation_income_e6, 0);
    assert_eq!(fund.stats.total_realized_pnl_e6, 0);
}

#[test]
fn manager_toggles_gates() {
    let (mut fund, _config) = setup();
    assert_eq!(set_fund_open(&mut fund, &key(99), &SetFundOpenArgs { is_open: false }, 11_000), Err(FundError::NotFundManager));
    assert!(fund.is_open);
    assert_eq!(set_fund_open(&mut fund, &key(30), &SetFundOpenArgs { is_open: false }, 11_000), Ok(()));
    assert!(!fund.can_deposit());
    assert_eq!(set_fund_paused(&mut fund, &key(99), &SetFundPausedArgs { is_paused: true }, 11_100), Err(FundError::NotFundManager));
    assert_eq!(set_fund_paused(&mut fund, &key(30), &SetFundPausedArgs { is_paused: true }, 11_100), Ok(()));
    assert!(!fund.can_withdraw());
    assert_eq!(fund.last_update_ts, 11_100);
}

#[test]
fn nav_refresh_follows_totals() {
    let (mut fund, _config) = setup();
    fund.stats.total_deposits_e6 = 30_000_000;
    fund.stats.total_shares = 20_000_000;
    assert_eq!(refresh_nav(&mut fund, 12_000), Ok(()));
    assert_eq!(fund.stats.current_nav_e6, 1_500_000);
    assert_eq!(fund.last_update_ts, 12_000);
    fund.stats.total_withdrawals_e6 = 30_000_000;
    assert_eq!(refresh_nav(&mut fund, 13_000), Err(FundError::NAVCalculationError));
    assert_eq!(fund.stats.current_nav_e6, 1_500_000);
    assert_eq!(fund.last_update_ts, 12_000);
}

#[test]
fn shortfall_cover_books_a_loss() {
    let (mut buffer_fund, mut config) = setup();
    let _position = open_lp_position(&mut buffer_fund, key(31), key(50), 1_000_000_000, 10_100, 9).unwrap();
    assert_eq!(
        cover_shortfall_from_buffer(&mut config, &mut buffer_fund, &key(41), 1, 1, 10_150),
        Err(FundError::UnauthorizedCaller)
    );
    let split = cover_shortfall_from_buffer(&mut config, &mut buffer_fund, &key(40), 600_000_000, 400_000_000, 10_200).unwrap();
    assert_eq!(split, (400_000_000, 200_000_000));
    assert_eq!(config.total_shortfall_payout_e6, 400_000_000);
    assert_eq!(config.last_update_ts, 10_200);
    assert_eq!(buffer_fund.stats.total_realized_pnl_e6, -400_000_000);
    assert_eq!(buffer_fund.stats.current_nav_e6, 600_000);
    assert_eq!(
        cover_shortfall_from_buffer(&mut config, &mut buffer_fund, &key(40), 700_000_000, 900_000_000, 10_300),
        Err(FundError::NAVCalculationError)
    );
    assert_eq!(config.total_shortfall_payout_e6, 400_000_000);
    assert_eq!(config.last_update_ts, 10_200);
}

#[test]
fn buffer_totals_report_overflow() {
    let (mut fund, mut config) = setup();
    let _lp = open_lp_position(&mut fund, key(31), key(50), 100_000_000, 10_100, 7).unwrap();
    config.total_adl_profit_e6 = i64::MAX;
    assert_eq!(add_adl_profit_to_buffer(&mut config, &mut fund, &key(40), 1, 10_200), Err(FundError::Overflow));
    assert_eq!(fund.stats.total_realized_pnl_e6, 0);
    assert_eq!(
        cover_shortfall_from_buffer(&mut config, &mut fund, &key(40), -5, 1_000, 10_300),
        Err(FundError::InvalidAmount)
    );
    assert_eq!(config.total_shortfall_payout_e6, 0);
    assert_eq!(cover_shortfall_from_buffer(&mut config, &mut fund, &key(40), 0, 1_000, 10_400), Ok((0, 0)));
    assert_eq!(config.last_update_ts, 10_400);
}
