//! Operations of the insurance buffer as a whole: setting it up, booking
//! its income into the fund that holds its assets, and switching ADL. Each
//! is reserved to the buffer's authorized caller (but the set-up) and
//! leaves every state unchanged on failure.
use vstd::prelude::*;

use crate::error::FundError;
use crate::instruction::InitializeInsuranceFundArgs;
use crate::insurance::{cover_result, paid_out, InsuranceFundConfig};
use crate::math::fits_i64;
use crate::state::{pnl_result, Address, FeeConfig, Fund, FundStats};

verus! {

/// Fee configuration of the buffer's fund: it charges no fees.
pub open spec fn buffer_fee_config() -> FeeConfig {
    FeeConfig {
        management_fee_bps: 0,
        performance_fee_bps: 0,
        use_high_water_mark: false,
        fee_collection_interval: 0,
    }
}

/// Sets up the insurance buffer at `current_ts`: a fee-free fund managed by
/// `authority` that holds the buffer's assets, and the buffer's own state.
pub fn initialize_insurance_fund(
    authority: Address,
    fund_key: Address,
    fund_bump: u8,
    fund_vault: Address,
    share_mint: Address,
    fund_index: u64,
    config_bump: u8,
    args: &InitializeInsuranceFundArgs,
    current_ts: i64,
) -> (r: (Fund, InsuranceFundConfig))
    ensures
        r.0.manager == authority,
        r.0.fee_config == buffer_fee_config(),
        r.0.stats == FundStats::new_spec(current_ts),
        r.0.is_open,
        !r.0.is_paused,
        r.0.bump == fund_bump,
        r.0.fund_vault == fund_vault,
        r.0.share_mint == share_mint,
        r.0.fund_index == fund_index,
        r.0.created_at == current_ts,
        r.0.last_update_ts == current_ts,
        r.1 == InsuranceFundConfig::new_spec(
            fund_key,
            config_bump,
            args.adl_trigger_threshold_e6,
            args.withdrawal_delay_secs,
            args.authorized_caller,
            current_ts,
        ),
{
    let fee_config = FeeConfig {
        management_fee_bps: 0,
        performance_fee_bps: 0,
        use_high_water_mark: false,
        fee_collection_interval: 0,
    };
    let fund = Fund::new(authority, "Insurance Fund", fund_bump, fund_vault, share_mint, fee_config, fund_index, current_ts);
    let config = InsuranceFundConfig::new(
        fund_key,
        config_bump,
        args.adl_trigger_threshold_e6,
        args.withdrawal_delay_secs,
        args.authorized_caller,
        current_ts,
    );
    (fund, config)
}

/// Books liquidation income reported by `caller` at `current_ts`: counted
/// as income of the buffer and as realized profit of its fund. On failure
/// neither state changes.
pub fn add_liquidation_income_to_buffer(
    config: &mut InsuranceFundConfig,
    fund: &mut Fund,
    caller: &Address,
    amount_e6: i64,
    current_ts: i64,
) -> (r: Result<(), FundError>)
    ensures
        if caller@ != old(config).authorized_caller@ {
            r == Err::<(), FundError>(FundError::UnauthorizedCaller) && *final(config) == *old(config) && *final(fund)
                == *old(fund)
        } else if !fits_i64(old(config).total_liquidation_income_e6 + amount_e6) {
            r == Err::<(), FundError>(FundError::Overflow) && *final(config) == *old(config) && *final(fund)
                == *old(fund)
        } else {
            match pnl_result(old(fund).stats, amount_e6 as int) {
                Ok(t) => r == Ok::<(), FundError>(()) && *final(fund) == (Fund {
                    stats: t,
                    last_update_ts: current_ts,
                    ..*old(fund)
                }) && *final(config) == (InsuranceFundConfig {
                    total_liquidation_income_e6: (old(config).total_liquidation_income_e6 + amount_e6) as i64,
                    last_update_ts: current_ts,
                    ..*old(config)
                }),
                Err(e) => r == Err::<(), FundError>(e) && *final(config) == *old(config) && *final(fund) == *old(fund),
            }
        },
{
    if !config.is_authorized_caller(caller) {
        return Err(FundError::UnauthorizedCaller);
    }
    let mut c = *config;
    c.add_liquidation_income(amount_e6)?;
    fund.record_pnl(amount_e6)?;
    fund.last_update_ts = current_ts;
    c.last_update_ts = current_ts;
    *config = c;
    Ok(())
}

/// Books ADL surplus reported by `caller` at `current_ts`: counted as ADL
/// profit of the buffer and as realized profit of its fund. On failure
/// neither state changes.
pub fn add_adl_profit_to_buffer(
    config: &mut InsuranceFundConfig,
    fund: &mut Fund,
    caller: &Address,
    amount_e6: i64,
    current_ts: i64,
) -> (r: Result<(), FundError>)
    ensures
        if caller@ != old(config).authorized_caller@ {
            r == Err::<(), FundError>(FundError::UnauthorizedCaller) && *final(config) == *old(config) && *final(fund)
                == *old(fund)
        } else if !fits_i64(old(config).total_adl_profit_e6 + amount_e6) {
            r == Err::<(), FundError>(FundError::Overflow) && *final(config) == *old(config) && *final(fund)
                == *old(fund)
        } else {
            match pnl_result(old(fund).stats, amount_e6 as int) {
                Ok(t) => r == Ok::<(), FundError>(()) && *final(fund) == (Fund {
                    stats: t,
                    last_update_ts: current_ts,
                    ..*old(fund)
                }) && *final(config) == (InsuranceFundConfig {
                    total_adl_profit_e6: (old(config).total_adl_profit_e6 + amount_e6) as i64,
                    last_update_ts: current_ts,
                    ..*old(config)
                }),
                Err(e) => r == Err::<(), FundError>(e) && *final(config) == *old(config) && *final(fund) == *old(fund),
            }
        },
{
    if !config.is_authorized_caller(caller) {
        return Err(FundError::UnauthorizedCaller);
    }
    let mut c = *config;
    c.add_adl_profit(amount_e6)?;
    fund.record_pnl(amount_e6)?;
    fund.last_update_ts = current_ts;
    c.last_update_ts = current_ts;
    *config = c;
    Ok(())
}

/// Books a trading fee reported by `caller` at `current_ts`: a fee must be
/// positive (`InvalidAmount`); it is counted with liquidation income and as
/// realized profit of the buffer's fund. On failure neither state changes.
pub fn add_trading_fee_to_buffer(
    config: &mut InsuranceFundConfig,
    fund: &mut Fund,
    caller: &Address,
    fee_e6: i64,
    current_ts: i64,
) -> (r: Result<(), FundError>)
    ensures
        if caller@ != old(config).authorized_caller@ {
            r == Err::<(), FundError>(FundError::UnauthorizedCaller) && *final(config) == *old(config) && *final(fund)
                == *old(fund)
        } else if fee_e6 <= 0 {
            r == Err::<(), FundError>(FundError::InvalidAmount) && *final(config) == *old(config) && *final(fund)
                == *old(fund)
        } else if !fits_i64(old(config).total_liquidation_income_e6 + fee_e6) {
            r == Err::<(), FundError>(FundError::Overflow) && *final(config) == *old(config) && *final(fund)
                == *old(fund)
        } else {
            match pnl_result(old(fund).stats, fee_e6 as int) {
                Ok(t) => r == Ok::<(), FundError>(()) && *final(fund) == (Fund {
                    stats: t,
                    last_update_ts: current_ts,
                    ..*old(fund)
                }) && *final(config) == (InsuranceFundConfig {
                    total_liquidation_income_e6: (old(config).total_liquidation_income_e6 + fee_e6) as i64,
                    last_update_ts: current_ts,
                    ..*old(config)
                }),
                Err(e) => r == Err::<(), FundError>(e) && *final(config) == *old(config) && *final(fund) == *old(fund),
            }
        },
{
    if !config.is_authorized_caller(caller) {
        return Err(FundError::UnauthorizedCaller);
    }
    if fee_e6 <= 0 {
        return Err(FundError::InvalidAmount);
    }
    let mut c = *config;
    c.add_trading_fee(fee_e6)?;
    fund.record_pnl(fee_e6)?;
    fund.last_update_ts = current_ts;
    c.last_update_ts = current_ts;
    *config = c;
    Ok(())
}

/// Switches ADL on or off at the request of `caller` at `current_ts`.
pub fn set_buffer_adl_in_progress(
    config: &mut InsuranceFundConfig,
    caller: &Address,
    in_progress: bool,
    current_ts: i64,
) -> (r: Result<(), FundError>)
    ensures
        if caller@ != old(config).authorized_caller@ {
            r == Err::<(), FundError>(FundError::UnauthorizedCaller) && *final(config) == *old(config)
        } else {
            r == Ok::<(), FundError>(()) && final(config).is_adl_in_progress == in_progress
                && final(config).last_update_ts == current_ts
                && final(config).adl_trigger_count == (if in_progress && old(config).adl_trigger_count < u64::MAX {
                    (old(config).adl_trigger_count + 1) as u64
                } else {
                    old(config).adl_trigger_count
                }) && *final(config) == (InsuranceFundConfig {
                    is_adl_in_progress: in_progress,
                    adl_trigger_count: final(config).adl_trigger_count,
                    last_update_ts: current_ts,
                    ..*old(config)
                })
        },
{
    if !config.is_authorized_caller(caller) {
        return Err(FundError::UnauthorizedCaller);
    }
    config.set_adl_in_progress(in_progress);
    config.last_update_ts = current_ts;
    Ok(())
}

/// Covers a shortfall reported by `caller` from the buffer holding
/// `current_balance_e6`, and books the covered part as a loss of the
/// buffer's fund. Returns `(covered, remaining)`; a positive remainder must
/// be recovered through ADL. A negative shortfall or balance is an
/// `InvalidAmount`. On failure neither state changes.
pub fn cover_shortfall_from_buffer(
    config: &mut InsuranceFundConfig,
    fund: &mut Fund,
    caller: &Address,
    shortfall_e6: i64,
    current_balance_e6: i64,
    current_ts: i64,
) -> (r: Result<(i64, i64), FundError>)
    ensures
        if caller@ != old(config).authorized_caller@ {
            r == Err::<(i64, i64), FundError>(FundError::UnauthorizedCaller) && *final(config) == *old(config)
                && *final(fund) == *old(fund)
        } else {
            match cover_result(*old(config), shortfall_e6 as int, current_balance_e6 as int) {
                Err(e) => r == Err::<(i64, i64), FundError>(e) && *final(config) == *old(config) && *final(fund)
                    == *old(fund),
                Ok((covered, remaining)) => {
                    let booked = InsuranceFundConfig { last_update_ts: current_ts, ..paid_out(*old(config), covered) };
                    if covered > 0 {
                        match pnl_result(old(fund).stats, -covered) {
                            Ok(t) => r == Ok::<(i64, i64), FundError>((covered, remaining)) && *final(fund) == (Fund {
                                stats: t,
                                last_update_ts: current_ts,
                                ..*old(fund)
                            }) && *final(config) == booked,
                            Err(e) => r == Err::<(i64, i64), FundError>(e) && *final(fund) == *old(fund)
                                && *final(config) == *old(config),
                        }
                    } else {
                        r == Ok::<(i64, i64), FundError>((covered, remaining)) && *final(fund) == *old(fund)
                            && *final(config) == booked
                    }
                },
            }
        },
        final(config).total_shortfall_payout_e6 >= old(config).total_shortfall_payout_e6,
{
    if !config.is_authorized_caller(caller) {
        return Err(FundError::UnauthorizedCaller);
    }
    let mut c = *config;
    let (covered, remaining) = c.cover_shortfall(shortfall_e6, current_balance_e6)?;
    if covered > 0 {
        fund.record_pnl(-covered)?;
        fund.last_update_ts = current_ts;
    }
    c.last_update_ts = current_ts;
    *config = c;
    Ok((covered, remaining))
}

} // verus!
