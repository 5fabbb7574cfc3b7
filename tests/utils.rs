use fund_program::math::{
    calculate_management_fee, calculate_nav_e6, calculate_performance_fee, calculate_redemption_value,
    calculate_shares_to_mint, can_collect_fees, safe_add_i64, safe_add_u64, safe_div_i64, safe_div_u64,
    safe_mul_i64, safe_mul_u64, safe_sub_i64, safe_sub_u64, validate_fee_config, validate_fund_name,
    INITIAL_NAV_E6, MAX_FUND_NAME_LEN, SECONDS_PER_YEAR,
};
use fund_program::error::FundError;

#[test]
fn test_calculate_nav() {
    assert_eq!(calculate_nav_e6(0, 0).unwrap(), INITIAL_NAV_E6);
    assert_eq!(calculate_nav_e6(1_000_000, 1_000_000).unwrap(), 1_000_000);
    assert_eq!(calculate_nav_e6(15_000_000, 10_000_000).unwrap(), 1_500_000);
    assert_eq!(calculate_nav_e6(5_000_000, 10_000_000).unwrap(), 500_000);
}

#[test]
fn test_calculate_shares_to_mint() {
    let shares = calculate_shares_to_mint(100_000_000, 1_000_000).unwrap();
    assert_eq!(shares, 100_000_000);
    let shares = calculate_shares_to_mint(100_000_000, 1_500_000).unwrap();
    assert_eq!(shares, 66_666_666);
    let shares = calculate_shares_to_mint(100_000_000, 500_000).unwrap();
    assert_eq!(shares, 200_000_000);
}

#[test]
fn test_calculate_redemption_value() {
    let value = calculate_redemption_value(100_000_000, 1_000_000).unwrap();
    assert_eq!(value, 100_000_000);
    let value = calculate_redemption_value(100_000_000, 1_500_000).unwrap();
    assert_eq!(value, 150_000_000);
}

#[test]
fn test_calculate_management_fee() {
    let fee = calculate_management_fee(100_000_000_000, 200, SECONDS_PER_YEAR).unwrap();
    assert_eq!(fee, 2_000_000_000);
    let fee = calculate_management_fee(100_000_000_000, 200, 24 * 60 * 60).unwrap();
    assert!(fee > 5_000_000 && fee < 6_000_000);
}

#[test]
fn test_calculate_performance_fee() {
    let fee = calculate_performance_fee(1_200_000, 1_000_000, 100_000_000_000, 2_000).unwrap();
    assert_eq!(fee, 3_333_333_333);
    let fee = calculate_performance_fee(900_000, 1_000_000, 100_000_000_000, 2_000).unwrap();
    assert_eq!(fee, 0);
}

#[test]
fn test_validate_fee_config() {
    assert!(validate_fee_config(200, 2000).is_ok());
    assert!(validate_fee_config(1500, 2000).is_err());
    assert!(validate_fee_config(200, 6000).is_err());
}

#[test]
fn test_validate_fund_name() {
    assert!(validate_fund_name("My Awesome Fund").is_ok());
    assert!(validate_fund_name("").is_err());
    let long_name = "a".repeat(MAX_FUND_NAME_LEN + 1);
    assert!(validate_fund_name(&long_name).is_err());
}

#[test]
fn test_safe_math() {
    assert_eq!(safe_add_i64(10, 20).unwrap(), 30);
    assert!(safe_add_i64(i64::MAX, 1).is_err());
    assert_eq!(safe_sub_i64(30, 10).unwrap(), 20);
    assert!(safe_sub_i64(i64::MIN, 1).is_err());
    assert_eq!(safe_mul_i64(10, 20).unwrap(), 200);
    assert!(safe_mul_i64(i64::MAX, 2).is_err());
    assert_eq!(safe_div_i64(100, 10).unwrap(), 10);
    assert!(safe_div_i64(100, 0).is_err());
}

#[test]
fn initial_nav_of_empty_fund() {
    assert_eq!(calculate_nav_e6(0, 0), Ok(1_000_000));
    assert_eq!(calculate_nav_e6(-5, 0), Ok(1_000_000));
}

#[test]
fn nav_errors() {
    assert_eq!(calculate_nav_e6(0, 10), Err(FundError::NAVCalculationError));
    assert_eq!(calculate_nav_e6(-1, 10), Err(FundError::NAVCalculationError));
    assert_eq!(calculate_nav_e6(i64::MAX, 1), Err(FundError::Overflow));
    assert_eq!(calculate_nav_e6(2, 3), Ok(666_666));
}

#[test]
fn share_minting_errors() {
    assert_eq!(calculate_shares_to_mint(100, 0), Err(FundError::NAVCalculationError));
    assert_eq!(calculate_shares_to_mint(0, 1_000_000), Err(FundError::InvalidAmount));
    assert_eq!(calculate_shares_to_mint(-3, 1_000_000), Err(FundError::InvalidAmount));
    assert_eq!(calculate_shares_to_mint(1, 2_000_000), Err(FundError::ShareCalculationError));
    assert_eq!(calculate_shares_to_mint(i64::MAX, 1), Err(FundError::Overflow));
}

#[test]
fn redemption_errors() {
    assert_eq!(calculate_redemption_value(10, 0), Err(FundError::NAVCalculationError));
    assert_eq!(calculate_redemption_value(0, 1_000_000), Err(FundError::InvalidAmount));
    assert_eq!(calculate_redemption_value(u64::MAX, i64::MAX), Err(FundError::Overflow));
    assert_eq!(calculate_redemption_value(3, 1_500_000), Ok(4));
}

#[test]
fn round_trip_never_gains() {
    let nav = 1_500_000;
    let amount = 100_000_001;
    let shares = calculate_shares_to_mint(amount, nav).unwrap();
    let value = calculate_redemption_value(shares, nav).unwrap();
    assert_eq!(shares, 66_666_667);
    assert_eq!(value, 100_000_000);
    assert!(value <= amount);
}

#[test]
fn management_fee_edges() {
    assert_eq!(calculate_management_fee(0, 200, 10), Ok(0));
    assert_eq!(calculate_management_fee(100, 0, 10), Ok(0));
    assert_eq!(calculate_management_fee(100, 200, 0), Ok(0));
    assert_eq!(calculate_management_fee(100, 200, -5), Ok(0));
    assert_eq!(calculate_management_fee(100_000_000_000, 200, 86_400), Ok(5_479_452));
    assert_eq!(calculate_management_fee(i64::MAX, u32::MAX, i64::MAX), Err(FundError::Overflow));
}

#[test]
fn performance_fee_edges() {
    assert_eq!(calculate_performance_fee(1_000_000, 1_000_000, 100, 2_000), Ok(0));
    assert_eq!(calculate_performance_fee(1_200_000, 1_000_000, 0, 2_000), Ok(0));
    assert_eq!(calculate_performance_fee(1_200_000, 1_000_000, 100, 0), Ok(0));
    assert_eq!(calculate_performance_fee(0, -5, 100, 2_000), Err(FundError::DivisionByZero));
    assert_eq!(calculate_performance_fee(-1, -5, 100, 2_000), Err(FundError::NAVCalculationError));
    assert_eq!(calculate_performance_fee(1, -4_611_686_018_427_387_904, 4, 1), Ok(1_844_674_407_370_955));
    assert_eq!(calculate_performance_fee(1, i64::MIN, i64::MAX, 10_000), Err(FundError::Overflow));
}

#[test]
fn fee_config_errors() {
    assert_eq!(validate_fee_config(1_000, 5_000), Ok(()));
    assert_eq!(validate_fee_config(1_001, 5_000), Err(FundError::ManagementFeeTooHigh));
    assert_eq!(validate_fee_config(1_000, 5_001), Err(FundError::PerformanceFeeTooHigh));
}

#[test]
fn fund_name_limits() {
    let exact = "a".repeat(MAX_FUND_NAME_LEN);
    assert_eq!(validate_fund_name(&exact), Ok(()));
    assert_eq!(validate_fund_name(""), Err(FundError::FundNameTooLong));
}

#[test]
fn unsigned_and_division_math() {
    assert_eq!(safe_add_u64(u64::MAX, 1), Err(FundError::Overflow));
    assert_eq!(safe_add_u64(1, 2), Ok(3));
    assert_eq!(safe_sub_u64(1, 2), Err(FundError::Underflow));
    assert_eq!(safe_sub_u64(5, 2), Ok(3));
    assert_eq!(safe_mul_u64(u64::MAX, 2), Err(FundError::Overflow));
    assert_eq!(safe_mul_u64(6, 7), Ok(42));
    assert_eq!(safe_div_u64(7, 0), Err(FundError::DivisionByZero));
    assert_eq!(safe_div_u64(7, 2), Ok(3));
    assert_eq!(safe_div_i64(-7, 2), Ok(-3));
    assert_eq!(safe_div_i64(i64::MIN, -1), Err(FundError::Overflow));
    assert_eq!(safe_div_i64(1, 0), Err(FundError::DivisionByZero));
    assert_eq!(safe_sub_i64(i64::MAX, -1), Err(FundError::Underflow));
}

#[test]
fn fee_collection_interval() {
    assert!(can_collect_fees(1_000, 86_400, 87_400));
    assert!(!can_collect_fees(1_000, 86_400, 87_399));
    assert!(can_collect_fees(i64::MIN, 10, i64::MAX));
}
