//! Fixed-point arithmetic in 1,000,000-scaled ("e6") units: checked integer
//! operations, NAV and share conversion, and fee accrual.
use vstd::prelude::*;

use vstd::arithmetic::div_mod::{lemma_fundamental_div_mod, lemma_mod_bound};
use vstd::string::StringSliceAdditionalSpecFns;

use crate::error::FundError;

verus! {

/// Basis points in one whole (100% = 10,000 bps).
pub const BPS_DENOMINATOR: u64 = 10_000;

/// Largest management fee a fund may charge (10%).
pub const MAX_MANAGEMENT_FEE_BPS: u32 = 1_000;

/// Largest performance fee a fund may charge (50%).
pub const MAX_PERFORMANCE_FEE_BPS: u32 = 5_000;

/// Smallest deposit a fund accepts (1.0 in e6 units).
pub const MIN_DEPOSIT_AMOUNT_E6: i64 = 1_000_000;

/// Seconds in a (365-day) year, the period a management fee rate refers to.
pub const SECONDS_PER_YEAR: i64 = 365 * 24 * 60 * 60;

/// Longest fund name, in bytes.
pub const MAX_FUND_NAME_LEN: usize = 32;

/// NAV of a fund without shares: 1.0 in e6 units.
pub const INITIAL_NAV_E6: i64 = 1_000_000;

/// The e6 scale: 1.0 is represented as this many units.
pub const E6: u128 = 1_000_000;

/// Denominator of the yearly management fee proration.
pub const MANAGEMENT_FEE_DENOMINATOR: u128 = 10_000 * 31_536_000;

/// Whether an integer is representable as an `i64`.
pub open spec fn fits_i64(x: int) -> bool {
    i64::MIN <= x <= i64::MAX
}

/// Whether an integer is representable as a `u64`.
pub open spec fn fits_u64(x: int) -> bool {
    0 <= x <= u64::MAX
}

/// Division rounding toward zero, as Rust's integer division does.
pub open spec fn trunc_div(a: int, b: int) -> int {
    if a >= 0 && b > 0 {
        a / b
    } else if a < 0 && b < 0 {
        (-a) / (-b)
    } else if a < 0 && b > 0 {
        -((-a) / b)
    } else if b < 0 {
        -(a / (-b))
    } else {
        0
    }
}

/// NAV per share of a fund holding `total_value` over `total_shares` shares.
pub open spec fn nav_spec(total_value: int, total_shares: int) -> int {
    if total_shares == 0 {
        INITIAL_NAV_E6 as int
    } else {
        total_value * 1_000_000 / total_shares
    }
}

/// Outcome of a NAV computation.
pub open spec fn nav_result(total_value: int, total_shares: int) -> Result<i64, FundError> {
    if total_shares == 0 {
        Ok(INITIAL_NAV_E6)
    } else if total_value <= 0 {
        Err(FundError::NAVCalculationError)
    } else if !fits_i64(nav_spec(total_value, total_shares)) {
        Err(FundError::Overflow)
    } else {
        Ok(nav_spec(total_value, total_shares) as i64)
    }
}

/// Shares bought by `deposit` at a NAV of `nav`, rounded down.
pub open spec fn shares_spec(deposit: int, nav: int) -> int {
    deposit * 1_000_000 / nav
}

/// Outcome of converting a deposit into shares.
pub open spec fn shares_result(deposit: int, nav: int) -> Result<u64, FundError> {
    if nav <= 0 {
        Err(FundError::NAVCalculationError)
    } else if deposit <= 0 {
        Err(FundError::InvalidAmount)
    } else if !fits_u64(shares_spec(deposit, nav)) {
        Err(FundError::Overflow)
    } else if shares_spec(deposit, nav) == 0 {
        Err(FundError::ShareCalculationError)
    } else {
        Ok(shares_spec(deposit, nav) as u64)
    }
}

/// Value paid for `shares` at a NAV of `nav`, rounded down.
pub open spec fn redemption_spec(shares: int, nav: int) -> int {
    shares * nav / 1_000_000
}

/// Outcome of valuing a redemption.
pub open spec fn redemption_result(shares: int, nav: int) -> Result<i64, FundError> {
    if nav <= 0 {
        Err(FundError::NAVCalculationError)
    } else if shares == 0 {
        Err(FundError::InvalidAmount)
    } else if !fits_i64(redemption_spec(shares, nav)) {
        Err(FundError::Overflow)
    } else {
        Ok(redemption_spec(shares, nav) as i64)
    }
}

/// Management fee on `aum` at `fee_bps` a year for `elapsed` seconds:
/// linear proration, rounded down, and zero when any input is not positive.
pub open spec fn management_fee_spec(aum: int, fee_bps: int, elapsed: int) -> int {
    if aum <= 0 || fee_bps <= 0 || elapsed <= 0 {
        0
    } else {
        aum * fee_bps * elapsed / (10_000 * SECONDS_PER_YEAR as int)
    }
}

/// Outcome of a management fee computation.
pub open spec fn management_fee_result(aum: int, fee_bps: int, elapsed: int) -> Result<i64, FundError> {
    if fits_i64(management_fee_spec(aum, fee_bps, elapsed)) {
        Ok(management_fee_spec(aum, fee_bps, elapsed) as i64)
    } else {
        Err(FundError::Overflow)
    }
}

/// Whether a performance fee is owed at all.
pub open spec fn performance_fee_due(nav: int, hwm: int, total_value: int, fee_bps: int) -> bool {
    nav > hwm && fee_bps > 0 && total_value > 0
}

/// Fund-wide profit above the high-water mark, measured with the current NAV
/// as denominator.
pub open spec fn performance_profit_spec(nav: int, hwm: int, total_value: int) -> int {
    (nav - hwm) * total_value / nav
}

/// Performance fee: `fee_bps` of the profit above the high-water mark.
pub open spec fn performance_fee_spec(nav: int, hwm: int, total_value: int, fee_bps: int) -> int {
    performance_profit_spec(nav, hwm, total_value) * fee_bps / 10_000
}

/// Outcome of a performance fee computation.
pub open spec fn performance_fee_result(nav: int, hwm: int, total_value: int, fee_bps: int) -> Result<i64, FundError> {
    if !performance_fee_due(nav, hwm, total_value, fee_bps) {
        Ok(0)
    } else if nav == 0 {
        Err(FundError::DivisionByZero)
    } else if nav < 0 {
        Err(FundError::NAVCalculationError)
    } else if !fits_i64(performance_fee_spec(nav, hwm, total_value, fee_bps)) {
        Err(FundError::Overflow)
    } else {
        Ok(performance_fee_spec(nav, hwm, total_value, fee_bps) as i64)
    }
}

/// Checks that both fee rates are within their caps.
pub fn validate_fee_config(management_fee_bps: u32, performance_fee_bps: u32) -> (r: Result<(), FundError>)
    ensures
        r == (if management_fee_bps > MAX_MANAGEMENT_FEE_BPS {
            Err(FundError::ManagementFeeTooHigh)
        } else if performance_fee_bps > MAX_PERFORMANCE_FEE_BPS {
            Err(FundError::PerformanceFeeTooHigh)
        } else {
            Ok(())
        }),
{
    if management_fee_bps > MAX_MANAGEMENT_FEE_BPS {
        return Err(FundError::ManagementFeeTooHigh);
    }
    if performance_fee_bps > MAX_PERFORMANCE_FEE_BPS {
        return Err(FundError::PerformanceFeeTooHigh);
    }
    Ok(())
}

/// Checks that a fund name is not empty and at most `MAX_FUND_NAME_LEN` bytes long.
pub fn validate_fund_name(name: &str) -> (r: Result<(), FundError>)
    ensures
        r == (if name.spec_bytes().len() > MAX_FUND_NAME_LEN || name.spec_bytes().len() == 0 {
            Err(FundError::FundNameTooLong)
        } else {
            Ok(())
        }),
{
    let len = name.as_bytes().len();
    if len > MAX_FUND_NAME_LEN || len == 0 {
        return Err(FundError::FundNameTooLong);
    }
    Ok(())
}


/// Addition of two `i64`, failing with `Overflow` out of range.
pub fn safe_add_i64(a: i64, b: i64) -> (r: Result<i64, FundError>)
    ensures
        r == (if fits_i64(a + b) { Ok((a + b) as i64) } else { Err(FundError::Overflow) }),
{
    match a.checked_add(b) {
        Some(v) => Ok(v),
        None => Err(FundError::Overflow),
    }
}

/// Subtraction of two `i64`, failing with `Underflow` out of range.
pub fn safe_sub_i64(a: i64, b: i64) -> (r: Result<i64, FundError>)
    ensures
        r == (if fits_i64(a - b) { Ok((a - b) as i64) } else { Err(FundError::Underflow) }),
{
    match a.checked_sub(b) {
        Some(v) => Ok(v),
        None => Err(FundError::Underflow),
    }
}

/// Multiplication of two `i64`, failing with `Overflow` out of range.
pub fn safe_mul_i64(a: i64, b: i64) -> (r: Result<i64, FundError>)
    ensures
        r == (if fits_i64(a * b) { Ok((a * b) as i64) } else { Err(FundError::Overflow) }),
{
    match a.checked_mul(b) {
        Some(v) => Ok(v),
        None => Err(FundError::Overflow),
    }
}

/// Division of two `i64` rounding toward zero; fails with `DivisionByZero`
/// on a zero divisor and with `Overflow` when the quotient is out of range.
pub fn safe_div_i64(a: i64, b: i64) -> (r: Result<i64, FundError>)
    ensures
        r == (if b == 0 {
            Err(FundError::DivisionByZero)
        } else if fits_i64(trunc_div(a as int, b as int)) {
            Ok(trunc_div(a as int, b as int) as i64)
        } else {
            Err(FundError::Overflow)
        }),
{
    if b == 0 {
        return Err(FundError::DivisionByZero);
    }
    match a.checked_div(b) {
        Some(v) => Ok(v),
        None => Err(FundError::Overflow),
    }
}

/// Addition of two `u64`, failing with `Overflow` out of range.
pub fn safe_add_u64(a: u64, b: u64) -> (r: Result<u64, FundError>)
    ensures
        r == (if fits_u64(a + b) { Ok((a + b) as u64) } else { Err(FundError::Overflow) }),
{
    match a.checked_add(b) {
        Some(v) => Ok(v),
        None => Err(FundError::Overflow),
    }
}

/// Subtraction of two `u64`, failing with `Underflow` below zero.
pub fn safe_sub_u64(a: u64, b: u64) -> (r: Result<u64, FundError>)
    ensures
        r == (if b <= a { Ok((a - b) as u64) } else { Err(FundError::Underflow) }),
{
    match a.checked_sub(b) {
        Some(v) => Ok(v),
        None => Err(FundError::Underflow),
    }
}

/// Multiplication of two `u64`, failing with `Overflow` out of range.
pub fn safe_mul_u64(a: u64, b: u64) -> (r: Result<u64, FundError>)
    ensures
        r == (if fits_u64(a * b) { Ok((a * b) as u64) } else { Err(FundError::Overflow) }),
{
    match a.checked_mul(b) {
        Some(v) => Ok(v),
        None => Err(FundError::Overflow),
    }
}

/// Division of two `u64` rounding down; fails with `DivisionByZero` on a
/// zero divisor.
pub fn safe_div_u64(a: u64, b: u64) -> (r: Result<u64, FundError>)
    ensures
        r == (if b == 0 { Err(FundError::DivisionByZero) } else { Ok((a / b) as u64) }),
{
    if b == 0 {
        return Err(FundError::DivisionByZero);
    }
    Ok(a / b)
}

/// NAV per share: 1.0 for a fund without shares, else the total value per
/// share rounded down. A non-positive value behind outstanding shares is a
/// `NAVCalculationError`.
pub fn calculate_nav_e6(total_value_e6: i64, total_shares: u64) -> (r: Result<i64, FundError>)
    ensures
        r == nav_result(total_value_e6 as int, total_shares as int),
{
    if total_shares == 0 {
        return Ok(INITIAL_NAV_E6);
    }
    if total_value_e6 <= 0 {
        return Err(FundError::NAVCalculationError);
    }
    let nav: u128 = (total_value_e6 as u128) * E6 / (total_shares as u128);
    if nav > i64::MAX as u128 {
        return Err(FundError::Overflow);
    }
    Ok(nav as i64)
}

/// Shares minted for a deposit at the given NAV, rounded down in the fund's
/// favour. A deposit too small to buy one share unit is refused.
pub fn calculate_shares_to_mint(deposit_amount_e6: i64, nav_e6: i64) -> (r: Result<u64, FundError>)
    ensures
        r == shares_result(deposit_amount_e6 as int, nav_e6 as int),
{
    if nav_e6 <= 0 {
        return Err(FundError::NAVCalculationError);
    }
    if deposit_amount_e6 <= 0 {
        return Err(FundError::InvalidAmount);
    }
    let shares: u128 = (deposit_amount_e6 as u128) * E6 / (nav_e6 as u128);
    if shares > u64::MAX as u128 {
        return Err(FundError::Overflow);
    }
    if shares == 0 {
        return Err(FundError::ShareCalculationError);
    }
    Ok(shares as u64)
}

/// Value paid out for redeeming shares at the given NAV, rounded down in
/// the fund's favour.
pub fn calculate_redemption_value(shares: u64, nav_e6: i64) -> (r: Result<i64, FundError>)
    ensures
        r == redemption_result(shares as int, nav_e6 as int),
{
    if nav_e6 <= 0 {
        return Err(FundError::NAVCalculationError);
    }
    if shares == 0 {
        return Err(FundError::InvalidAmount);
    }
    proof {
        lemma_mul_bound(shares as int, nav_e6 as int, 0x1_0000_0000_0000_0000, 0x8000_0000_0000_0000);
    }
    let value: u128 = (shares as u128) * (nav_e6 as u128) / E6;
    if value > i64::MAX as u128 {
        return Err(FundError::Overflow);
    }
    Ok(value as i64)
}

pub(crate) proof fn lemma_mul_bound(a: int, b: int, ma: int, mb: int)
    requires
        0 <= a < ma,
        0 <= b < mb,
    ensures
        0 <= a * b < ma * mb,
{
    assert(0 <= a * b < ma * mb) by (nonlinear_arith)
        requires
            0 <= a < ma,
            0 <= b < mb,
    ;
}

/// Time-prorated management fee: `aum × fee_bps × elapsed / (10,000 ×
/// SECONDS_PER_YEAR)` rounded down, zero when any input is not positive,
/// and `Overflow` when the fee exceeds the `i64` range.
pub fn calculate_management_fee(aum_e6: i64, fee_bps: u32, time_elapsed_seconds: i64) -> (r: Result<i64, FundError>)
    ensures
        r == management_fee_result(aum_e6 as int, fee_bps as int, time_elapsed_seconds as int),
{
    if aum_e6 <= 0 || fee_bps == 0 || time_elapsed_seconds <= 0 {
        return Ok(0);
    }
    proof {
        lemma_mul_bound(aum_e6 as int, fee_bps as int, 0x8000_0000_0000_0000, 0x1_0000_0000);
    }
    let rate: u128 = (aum_e6 as u128) * (fee_bps as u128);
    let elapsed = time_elapsed_seconds as u128;
    if rate > u128::MAX / elapsed {
        proof {
            lemma_product_exceeds(rate as int, elapsed as int, u128::MAX as int);
            assert(rate * elapsed / (MANAGEMENT_FEE_DENOMINATOR as int) > i64::MAX) by (nonlinear_arith)
                requires
                    rate * elapsed > u128::MAX,
                    MANAGEMENT_FEE_DENOMINATOR == 315_360_000_000,
            ;
        }
        return Err(FundError::Overflow);
    }
    proof {
        lemma_product_fits(rate as int, elapsed as int, u128::MAX as int);
    }
    let fee: u128 = rate * elapsed / MANAGEMENT_FEE_DENOMINATOR;
    if fee > i64::MAX as u128 {
        return Err(FundError::Overflow);
    }
    Ok(fee as i64)
}

proof fn lemma_product_exceeds(a: int, b: int, m: int)
    requires
        b > 0,
        m >= 0,
        a > m / b,
    ensures
        a * b > m,
{
    lemma_fundamental_div_mod(m, b);
    lemma_mod_bound(m, b);
    assert(a * b > m) by (nonlinear_arith)
        requires
            b > 0,
            m >= 0,
            a >= m / b + 1,
            m == b * (m / b) + m % b,
            m % b < b,
    ;
}

proof fn lemma_product_fits(a: int, b: int, m: int)
    requires
        b > 0,
        a >= 0,
        m >= 0,
        a <= m / b,
    ensures
        0 <= a * b <= m,
{
    lemma_fundamental_div_mod(m, b);
    lemma_mod_bound(m, b);
    assert(0 <= a * b <= m) by (nonlinear_arith)
        requires
            b > 0,
            a >= 0,
            m >= 0,
            a <= m / b,
            m == b * (m / b) + m % b,
            m % b >= 0,
    ;
}

/// Performance fee on the profit above the high-water mark: zero unless the
/// NAV is above the mark (and the rate and total value are positive);
/// otherwise `fee_bps` of `(nav − hwm) × total_value / nav`, each step
/// rounded down and computed exactly; only the fee itself must fit an
/// `i64` (`Overflow` otherwise). A zero NAV above the mark is a
/// `DivisionByZero`, a negative one a `NAVCalculationError`.
pub fn calculate_performance_fee(
    current_nav_e6: i64,
    hwm_e6: i64,
    total_value_e6: i64,
    fee_bps: u32,
) -> (r: Result<i64, FundError>)
    ensures
        r == performance_fee_result(current_nav_e6 as int, hwm_e6 as int, total_value_e6 as int, fee_bps as int),
{
    if current_nav_e6 <= hwm_e6 || fee_bps == 0 || total_value_e6 <= 0 {
        return Ok(0);
    }
    if current_nav_e6 == 0 {
        return Err(FundError::DivisionByZero);
    }
    if current_nav_e6 < 0 {
        return Err(FundError::NAVCalculationError);
    }
    let profit_per_share: u128 = ((current_nav_e6 as i128) - (hwm_e6 as i128)) as u128;
    proof {
        lemma_mul_bound(profit_per_share as int, total_value_e6 as int, 0x1_0000_0000_0000_0000, 0x8000_0000_0000_0000);
    }
    let total_profit: u128 = profit_per_share * (total_value_e6 as u128) / (current_nav_e6 as u128);
    let rate = fee_bps as u128;
    if total_profit > u128::MAX / rate {
        proof {
            lemma_product_exceeds(total_profit as int, rate as int, u128::MAX as int);
            assert(total_profit * rate / 10_000 > i64::MAX) by (nonlinear_arith)
                requires
                    total_profit * rate > u128::MAX,
            ;
        }
        return Err(FundError::Overflow);
    }
    proof {
        lemma_product_fits(total_profit as int, rate as int, u128::MAX as int);
    }
    let fee: u128 = total_profit * rate / (BPS_DENOMINATOR as u128);
    if fee > i64::MAX as u128 {
        return Err(FundError::Overflow);
    }
    Ok(fee as i64)
}

/// Whether fees may be collected at `current_ts`: at least
/// `interval_seconds` have passed since the last collection.
pub fn can_collect_fees(last_collection_ts: i64, interval_seconds: i64, current_ts: i64) -> (r: bool)
    ensures
        r == (current_ts - last_collection_ts >= interval_seconds),
{
    (current_ts as i128) - (last_collection_ts as i128) >= interval_seconds as i128
}

} // verus!
