//! Whole operations on a fund: creation and settings, deposits,
//! redemptions (from an ordinary fund and from the insurance buffer), fee
//! collection and closing. Each validates everything before it writes, so a failed
//! operation leaves every state it was given unchanged. Moving tokens is
//! left to the caller, who does it with the amounts returned.
use vstd::prelude::*;

use crate::error::FundError;
use crate::instruction::{CreateFundArgs, SetFundOpenArgs, SetFundPausedArgs, UpdateFundArgs};
use crate::insurance::InsuranceFundConfig;
use crate::math::{
    calculate_redemption_value, calculate_shares_to_mint, can_collect_fees, fits_i64, fits_u64,
    redemption_result, safe_add_i64, shares_result, validate_fee_config, validate_fund_name,
    MAX_FUND_NAME_LEN, MAX_MANAGEMENT_FEE_BPS, MAX_PERFORMANCE_FEE_BPS, MIN_DEPOSIT_AMOUNT_E6,
};
use crate::state::{
    bought, deposit_result, fee_collection_result, fees_result, refreshed, sold, withdrawal_result, Address, FeeConfig, Fund,
    FundStats, LPPosition,
};

use vstd::utf8::encode_utf8;

verus! {

/// Shares a deposit of `amount` buys in `f`, or why the deposit is refused.
pub open spec fn deposit_shares(f: Fund, amount: i64) -> Result<u64, FundError> {
    if amount <= 0 {
        Err(FundError::InvalidAmount)
    } else if amount < MIN_DEPOSIT_AMOUNT_E6 {
        Err(FundError::DepositTooSmall)
    } else if !(f.is_open && !f.is_paused) {
        Err(FundError::FundClosed)
    } else {
        shares_result(amount as int, f.stats.current_nav_e6 as int)
    }
}

/// Outcome of a deposit into an existing position: shares minted and the
/// new fund and position.
pub open spec fn deposit_outcome(f: Fund, p: LPPosition, amount: i64, ts: i64) -> Result<(u64, Fund, LPPosition), FundError> {
    match deposit_shares(f, amount) {
        Err(e) => Err(e),
        Ok(s) => if !fits_u64(p.shares + s) || !fits_i64(p.total_deposited_e6 + amount) {
            Err(FundError::Overflow)
        } else {
            match deposit_result(f.stats, amount as int, s as int) {
                Err(e) => Err(e),
                Ok(t) => Ok((s, Fund { stats: t, last_update_ts: ts, ..f }, bought(p, s, amount, f.stats.current_nav_e6, ts))),
            }
        },
    }
}

/// Outcome of a first deposit, which opens a position: the new fund (one
/// more investor) and the new position.
pub open spec fn open_outcome(
    f: Fund,
    fund_key: Address,
    investor: Address,
    amount: i64,
    ts: i64,
    bump: u8,
) -> Result<(Fund, LPPosition), FundError> {
    match deposit_shares(f, amount) {
        Err(e) => Err(e),
        Ok(s) => match deposit_result(f.stats, amount as int, s as int) {
            Err(e) => Err(e),
            Ok(t) => Ok(
                (
                    Fund {
                        stats: FundStats {
                            lp_count: if t.lp_count == u32::MAX { u32::MAX } else { (t.lp_count + 1) as u32 },
                            ..t
                        },
                        last_update_ts: ts,
                        ..f
                    },
                    LPPosition {
                        fund: fund_key,
                        investor,
                        shares: s,
                        deposit_nav_e6: f.stats.current_nav_e6,
                        total_deposited_e6: amount,
                        total_withdrawn_e6: 0,
                        deposited_at: ts,
                        last_update_ts: ts,
                        bump,
                    },
                ),
            ),
        },
    }
}

/// Outcome of settling a redemption of `shares` worth `value`: the new fund
/// (one investor fewer if the position is emptied) and the new position.
pub open spec fn settle_outcome(f: Fund, p: LPPosition, shares: u64, value: i64, ts: i64) -> Result<(Fund, LPPosition), FundError> {
    if shares > p.shares {
        Err(FundError::InsufficientShares)
    } else if !fits_i64(p.total_withdrawn_e6 + value) {
        Err(FundError::Overflow)
    } else {
        match withdrawal_result(f.stats, value as int, shares as int) {
            Err(e) => Err(e),
            Ok(t) => Ok(
                (
                    Fund {
                        stats: FundStats {
                            lp_count: if p.shares == shares && t.lp_count > 0 {
                                (t.lp_count - 1) as u32
                            } else {
                                t.lp_count
                            },
                            ..t
                        },
                        last_update_ts: ts,
                        ..f
                    },
                    sold(p, shares, value, ts),
                ),
            ),
        }
    }
}

/// Whether `p` is `investor`'s position in the fund at `fund_key`.
pub open spec fn held_by(p: LPPosition, fund_key: Address, investor: Address) -> bool {
    p.fund@ == fund_key@ && p.investor@ == investor@
}

/// Outcome of redeeming `shares` from an ordinary fund whose vault holds
/// `vault_balance`: the value paid out, the new fund and position.
pub open spec fn redeem_outcome(
    f: Fund,
    fund_key: Address,
    investor: Address,
    p: LPPosition,
    shares: u64,
    vault_balance: u64,
    ts: i64,
) -> Result<(i64, Fund, LPPosition), FundError> {
    if shares == 0 {
        Err(FundError::InvalidAmount)
    } else if f.is_paused {
        Err(FundError::FundPaused)
    } else {
        match redemption_result(shares as int, f.stats.current_nav_e6 as int) {
            Err(e) => Err(e),
            Ok(v) => if (vault_balance as int) < v {
                Err(FundError::InsufficientBalance)
            } else if !held_by(p, fund_key, investor) {
                Err(FundError::LPPositionNotFound)
            } else {
                match settle_outcome(f, p, shares, v, ts) {
                    Err(e) => Err(e),
                    Ok((f_new, p_new)) => Ok((v, f_new, p_new)),
                }
            },
        }
    }
}

/// Whether the withdrawal delay of the buffer has not yet passed for `p`
/// at time `ts` (the delay runs from the position's latest change).
pub open spec fn delay_pending(c: InsuranceFundConfig, p: LPPosition, ts: i64) -> bool {
    ts - p.last_update_ts < c.withdrawal_delay_secs
}

/// Outcome of redeeming `shares` from the insurance buffer's fund.
pub open spec fn insurance_redeem_outcome(
    c: InsuranceFundConfig,
    f: Fund,
    fund_key: Address,
    vault_key: Address,
    investor: Address,
    p: LPPosition,
    shares: u64,
    vault_balance: u64,
    ts: i64,
) -> Result<(i64, Fund, LPPosition), FundError> {
    if shares == 0 {
        Err(FundError::InvalidAmount)
    } else if c.is_adl_in_progress {
        Err(FundError::ADLInProgress)
    } else if f.fund_vault@ != vault_key@ || c.fund@ != fund_key@ {
        Err(FundError::InvalidFundAccount)
    } else if f.is_paused {
        Err(FundError::FundPaused)
    } else if !held_by(p, fund_key, investor) {
        Err(FundError::LPPositionNotFound)
    } else if p.shares < shares {
        Err(FundError::InsufficientShares)
    } else if delay_pending(c, p, ts) {
        Err(FundError::WithdrawalDelayNotMet)
    } else {
        redeem_outcome(f, fund_key, investor, p, shares, vault_balance, ts)
    }
}

/// Outcome of collecting the fees owed at `ts`: the fees and the new fund.
pub open spec fn collection_outcome(f: Fund, ts: i64) -> Result<(i64, i64, Fund), FundError> {
    if ts - f.stats.last_fee_collection_ts < f.fee_config.fee_collection_interval {
        Err(FundError::FeeCollectionTooEarly)
    } else {
        match fees_result(f, ts as int) {
            Err(e) => Err(e),
            Ok((m, p)) => if !fits_i64(m + p) {
                Err(FundError::Overflow)
            } else if m + p <= 0 {
                Err(FundError::NoFeesToCollect)
            } else {
                match fee_collection_result(f.stats, m as int, p as int, ts) {
                    Err(e) => Err(e),
                    Ok(t) => Ok((m, p, Fund { stats: t, ..f })),
                }
            },
        }
    }
}

/// Deposits `amount_e6` at time `current_ts` into an investor's existing
/// position: mints shares at the NAV in effect before the call and returns
/// their number. On failure neither state changes.
pub fn deposit_to_fund(fund: &mut Fund, position: &mut LPPosition, amount_e6: i64, current_ts: i64) -> (r: Result<u64, FundError>)
    ensures
        match deposit_outcome(*old(fund), *old(position), amount_e6, current_ts) {
            Ok((s, f_new, p_new)) => r == Ok::<u64, FundError>(s) && *final(fund) == f_new && *final(position) == p_new,
            Err(e) => r == Err::<u64, FundError>(e) && *final(fund) == *old(fund) && *final(position) == *old(position),
        },
        r is Ok ==> final(fund).stats.total_shares - old(fund).stats.total_shares == final(position).shares
            - old(position).shares,
{
    let shares = check_deposit(fund, amount_e6)?;
    let mut p = *position;
    p.add_shares(shares, amount_e6, fund.stats.current_nav_e6, current_ts)?;
    fund.record_deposit(amount_e6, shares)?;
    fund.last_update_ts = current_ts;
    *position = p;
    Ok(shares)
}

/// The checks a deposit passes before anything is written, and the shares
/// it buys.
fn check_deposit(fund: &Fund, amount_e6: i64) -> (r: Result<u64, FundError>)
    ensures
        r == deposit_shares(*fund, amount_e6),
{
    if amount_e6 <= 0 {
        return Err(FundError::InvalidAmount);
    }
    if amount_e6 < MIN_DEPOSIT_AMOUNT_E6 {
        return Err(FundError::DepositTooSmall);
    }
    if !fund.can_deposit() {
        return Err(FundError::FundClosed);
    }
    calculate_shares_to_mint(amount_e6, fund.stats.current_nav_e6)
}

/// Handles an investor's first deposit into a fund: mints shares at the
/// NAV in effect before the call, counts one more investor and returns the
/// new position. On failure the fund does not change.
pub fn open_lp_position(
    fund: &mut Fund,
    fund_key: Address,
    investor: Address,
    amount_e6: i64,
    current_ts: i64,
    bump: u8,
) -> (r: Result<LPPosition, FundError>)
    ensures
        match open_outcome(*old(fund), fund_key, investor, amount_e6, current_ts, bump) {
            Ok((f_new, p_new)) => r == Ok::<LPPosition, FundError>(p_new) && *final(fund) == f_new,
            Err(e) => r == Err::<LPPosition, FundError>(e) && *final(fund) == *old(fund),
        },
        r is Ok ==> final(fund).stats.total_shares - old(fund).stats.total_shares == r->Ok_0.shares,
{
    let shares = check_deposit(fund, amount_e6)?;
    let nav = fund.stats.current_nav_e6;
    fund.record_deposit(amount_e6, shares)?;
    fund.stats.lp_count = fund.stats.lp_count.saturating_add(1);
    fund.last_update_ts = current_ts;
    Ok(LPPosition::new(fund_key, investor, shares, nav, amount_e6, current_ts, bump))
}

/// Removes `shares` worth `value_e6` from a position and from its fund.
fn settle_redemption(fund: &mut Fund, position: &mut LPPosition, shares: u64, value_e6: i64, current_ts: i64) -> (r: Result<(), FundError>)
    ensures
        match settle_outcome(*old(fund), *old(position), shares, value_e6, current_ts) {
            Ok((f_new, p_new)) => r == Ok::<(), FundError>(()) && *final(fund) == f_new && *final(position) == p_new,
            Err(e) => r == Err::<(), FundError>(e) && *final(fund) == *old(fund) && *final(position) == *old(position),
        },
{
    let mut p = *position;
    p.remove_shares(shares, value_e6, current_ts)?;
    fund.record_withdrawal(value_e6, shares)?;
    if p.is_empty() {
        fund.stats.lp_count = fund.stats.lp_count.saturating_sub(1);
    }
    fund.last_update_ts = current_ts;
    *position = p;
    Ok(())
}

/// Redeems `shares` of `investor`'s position in the fund at `fund_key` at
/// the current NAV at time `current_ts`, when the fund's vault holds
/// `vault_balance`, and returns the value owed to the investor. A position
/// held by someone else or in another fund is `LPPositionNotFound`. On
/// failure neither state changes.
pub fn redeem_from_fund(
    fund: &mut Fund,
    fund_key: Address,
    investor: Address,
    position: &mut LPPosition,
    shares: u64,
    vault_balance: u64,
    current_ts: i64,
) -> (r: Result<i64, FundError>)
    ensures
        match redeem_outcome(*old(fund), fund_key, investor, *old(position), shares, vault_balance, current_ts) {
            Ok((v, f_new, p_new)) => r == Ok::<i64, FundError>(v) && *final(fund) == f_new && *final(position) == p_new,
            Err(e) => r == Err::<i64, FundError>(e) && *final(fund) == *old(fund) && *final(position) == *old(position),
        },
        r is Ok ==> old(fund).stats.total_shares - final(fund).stats.total_shares == old(position).shares
            - final(position).shares,
{
    if shares == 0 {
        return Err(FundError::InvalidAmount);
    }
    if !fund.can_withdraw() {
        return Err(FundError::FundPaused);
    }
    let value = calculate_redemption_value(shares, fund.stats.current_nav_e6)?;
    if (vault_balance as i128) < value as i128 {
        return Err(FundError::InsufficientBalance);
    }
    if !position.fund.same(&fund_key) || !position.investor.same(&investor) {
        return Err(FundError::LPPositionNotFound);
    }
    settle_redemption(fund, position, shares, value, current_ts)?;
    Ok(value)
}

/// Redeems `shares` of `investor`'s position in the insurance buffer's
/// fund (at `fund_key`, with its vault at `vault_key`). Refused with
/// `ADLInProgress` while ADL runs, with `InvalidFundAccount` when the fund
/// or vault is not the buffer's, and with `WithdrawalDelayNotMet` while
/// less than the buffer's delay has passed since the position last
/// changed; otherwise as `redeem_from_fund`. On failure neither state
/// changes.
pub fn redeem_from_insurance_fund(
    config: &InsuranceFundConfig,
    fund: &mut Fund,
    fund_key: Address,
    vault_key: Address,
    investor: Address,
    position: &mut LPPosition,
    shares: u64,
    vault_balance: u64,
    current_ts: i64,
) -> (r: Result<i64, FundError>)
    ensures
        match insurance_redeem_outcome(
            *config,
            *old(fund),
            fund_key,
            vault_key,
            investor,
            *old(position),
            shares,
            vault_balance,
            current_ts,
        ) {
            Ok((v, f_new, p_new)) => r == Ok::<i64, FundError>(v) && *final(fund) == f_new && *final(position) == p_new,
            Err(e) => r == Err::<i64, FundError>(e) && *final(fund) == *old(fund) && *final(position) == *old(position),
        },
        shares > 0 && config.is_adl_in_progress ==> r == Err::<i64, FundError>(FundError::ADLInProgress),
        r is Ok ==> old(fund).stats.total_shares - final(fund).stats.total_shares == old(position).shares
            - final(position).shares,
{
    if shares == 0 {
        return Err(FundError::InvalidAmount);
    }
    if !config.can_withdraw() {
        return Err(FundError::ADLInProgress);
    }
    if !fund.fund_vault.same(&vault_key) || !config.fund.same(&fund_key) {
        return Err(FundError::InvalidFundAccount);
    }
    if !fund.can_withdraw() {
        return Err(FundError::FundPaused);
    }
    if !position.fund.same(&fund_key) || !position.investor.same(&investor) {
        return Err(FundError::LPPositionNotFound);
    }
    if position.shares < shares {
        return Err(FundError::InsufficientShares);
    }
    let since_update: i128 = (current_ts as i128) - (position.last_update_ts as i128);
    if since_update < config.withdrawal_delay_secs as i128 {
        return Err(FundError::WithdrawalDelayNotMet);
    }
    redeem_from_fund(fund, fund_key, investor, position, shares, vault_balance, current_ts)
}

/// Collects the fees owed at `current_ts` at the request of `signer`, who
/// must be the fund's manager (`NotFundManager`), and returns
/// `(management fee, performance fee)`. Refused with
/// `FeeCollectionTooEarly` before the collection interval has passed and
/// with `NoFeesToCollect` when nothing is owed; on failure the fund does
/// not change.
pub fn collect_due_fees(fund: &mut Fund, signer: &Address, current_ts: i64) -> (r: Result<(i64, i64), FundError>)
    ensures
        if old(fund).manager@ != signer@ {
            r == Err::<(i64, i64), FundError>(FundError::NotFundManager) && *final(fund) == *old(fund)
        } else {
            match collection_outcome(*old(fund), current_ts) {
                Ok((m, p, f_new)) => r == Ok::<(i64, i64), FundError>((m, p)) && *final(fund) == f_new,
                Err(e) => r == Err::<(i64, i64), FundError>(e) && *final(fund) == *old(fund),
            }
        },
        final(fund).stats.high_water_mark_e6 >= old(fund).stats.high_water_mark_e6,
{
    if !fund.is_manager(signer) {
        return Err(FundError::NotFundManager);
    }
    if !can_collect_fees(fund.stats.last_fee_collection_ts, fund.fee_config.fee_collection_interval, current_ts) {
        return Err(FundError::FeeCollectionTooEarly);
    }
    let (mgmt_fee, perf_fee) = fund.calculate_fees(current_ts)?;
    let total_fee = safe_add_i64(mgmt_fee, perf_fee)?;
    if total_fee <= 0 {
        return Err(FundError::NoFeesToCollect);
    }
    fund.collect_fees(mgmt_fee, perf_fee, current_ts)?;
    Ok((mgmt_fee, perf_fee))
}

/// Whether `signer` may retire the fund: only its manager
/// (`NotFundManager`), and only once no investor and no share is left
/// (`FundHasLPPositions`).
pub fn close_fund(fund: &Fund, signer: &Address) -> (r: Result<(), FundError>)
    ensures
        r == (if fund.manager@ != signer@ {
            Err::<(), FundError>(FundError::NotFundManager)
        } else if fund.stats.lp_count == 0 && fund.stats.total_shares == 0 {
            Ok::<(), FundError>(())
        } else {
            Err::<(), FundError>(FundError::FundHasLPPositions)
        }),
{
    if !fund.is_manager(signer) {
        return Err(FundError::NotFundManager);
    }
    if fund.stats.lp_count > 0 {
        return Err(FundError::FundHasLPPositions);
    }
    if fund.stats.total_shares > 0 {
        return Err(FundError::FundHasLPPositions);
    }
    Ok(())
}


/// Whether both fee rates are within their caps.
pub open spec fn fees_within_caps(management_fee_bps: u32, performance_fee_bps: u32) -> bool {
    management_fee_bps <= MAX_MANAGEMENT_FEE_BPS && performance_fee_bps <= MAX_PERFORMANCE_FEE_BPS
}

/// Creates a fund for `manager` from a creation request at `current_ts`,
/// after checking its name (`FundNameTooLong`) and fee rates
/// (`ManagementFeeTooHigh`, `PerformanceFeeTooHigh`).
pub fn create_fund(
    manager: Address,
    args: &CreateFundArgs,
    bump: u8,
    fund_vault: Address,
    share_mint: Address,
    fund_index: u64,
    current_ts: i64,
) -> (r: Result<Fund, FundError>)
    ensures
        ({
            let bytes = encode_utf8(args.name@).len();
            if bytes > MAX_FUND_NAME_LEN || bytes == 0 {
                r == Err::<Fund, FundError>(FundError::FundNameTooLong)
            } else if args.management_fee_bps > MAX_MANAGEMENT_FEE_BPS {
                r == Err::<Fund, FundError>(FundError::ManagementFeeTooHigh)
            } else if args.performance_fee_bps > MAX_PERFORMANCE_FEE_BPS {
                r == Err::<Fund, FundError>(FundError::PerformanceFeeTooHigh)
            } else {
                r is Ok && r->Ok_0.manager == manager && r->Ok_0.name@ == args.name@
                    && r->Ok_0.fee_config == (FeeConfig {
                        management_fee_bps: args.management_fee_bps,
                        performance_fee_bps: args.performance_fee_bps,
                        use_high_water_mark: args.use_high_water_mark,
                        fee_collection_interval: args.fee_collection_interval,
                    }) && r->Ok_0.stats == FundStats::new_spec(current_ts) && r->Ok_0.is_open
                    && !r->Ok_0.is_paused && r->Ok_0.bump == bump && r->Ok_0.fund_vault == fund_vault
                    && r->Ok_0.share_mint == share_mint && r->Ok_0.fund_index == fund_index
                    && r->Ok_0.created_at == current_ts && r->Ok_0.last_update_ts == current_ts
            }
        }),
{
    validate_fund_name(args.name.as_str())?;
    validate_fee_config(args.management_fee_bps, args.performance_fee_bps)?;
    let fee_config = FeeConfig {
        management_fee_bps: args.management_fee_bps,
        performance_fee_bps: args.performance_fee_bps,
        use_high_water_mark: args.use_high_water_mark,
        fee_collection_interval: args.fee_collection_interval,
    };
    Ok(Fund::new(manager, args.name.as_str(), bump, fund_vault, share_mint, fee_config, fund_index, current_ts))
}

/// Applies an update request of `signer` at `current_ts`: only the manager
/// may update (`NotFundManager`), and a new fee configuration must respect
/// the caps. On failure nothing changes.
pub fn update_fund(fund: &mut Fund, signer: &Address, args: &UpdateFundArgs, current_ts: i64) -> (r: Result<(), FundError>)
    ensures
        if old(fund).manager@ != signer@ {
            r == Err::<(), FundError>(FundError::NotFundManager) && *final(fund) == *old(fund)
        } else {
            match args.fee_config {
                Some(c) => if c.management_fee_bps > MAX_MANAGEMENT_FEE_BPS {
                    r == Err::<(), FundError>(FundError::ManagementFeeTooHigh) && *final(fund) == *old(fund)
                } else if c.performance_fee_bps > MAX_PERFORMANCE_FEE_BPS {
                    r == Err::<(), FundError>(FundError::PerformanceFeeTooHigh) && *final(fund) == *old(fund)
                } else {
                    r == Ok::<(), FundError>(()) && *final(fund) == (Fund {
                        fee_config: c,
                        last_update_ts: current_ts,
                        ..*old(fund)
                    })
                },
                None => r == Ok::<(), FundError>(()) && *final(fund) == (Fund {
                    last_update_ts: current_ts,
                    ..*old(fund)
                }),
            }
        },
{
    if !fund.is_manager(signer) {
        return Err(FundError::NotFundManager);
    }
    if let Some(c) = args.fee_config {
        validate_fee_config(c.management_fee_bps, c.performance_fee_bps)?;
        fund.fee_config = c;
    }
    fund.last_update_ts = current_ts;
    Ok(())
}

/// Opens or closes the fund for deposits at the request of `signer`, who
/// must be its manager (`NotFundManager`).
pub fn set_fund_open(fund: &mut Fund, signer: &Address, args: &SetFundOpenArgs, current_ts: i64) -> (r: Result<(), FundError>)
    ensures
        if old(fund).manager@ != signer@ {
            r == Err::<(), FundError>(FundError::NotFundManager) && *final(fund) == *old(fund)
        } else {
            r == Ok::<(), FundError>(()) && *final(fund) == (Fund {
                is_open: args.is_open,
                last_update_ts: current_ts,
                ..*old(fund)
            })
        },
{
    if !fund.is_manager(signer) {
        return Err(FundError::NotFundManager);
    }
    fund.is_open = args.is_open;
    fund.last_update_ts = current_ts;
    Ok(())
}

/// Pauses or resumes the fund at the request of `signer`, who must be its
/// manager (`NotFundManager`).
pub fn set_fund_paused(fund: &mut Fund, signer: &Address, args: &SetFundPausedArgs, current_ts: i64) -> (r: Result<(), FundError>)
    ensures
        if old(fund).manager@ != signer@ {
            r == Err::<(), FundError>(FundError::NotFundManager) && *final(fund) == *old(fund)
        } else {
            r == Ok::<(), FundError>(()) && *final(fund) == (Fund {
                is_paused: args.is_paused,
                last_update_ts: current_ts,
                ..*old(fund)
            })
        },
{
    if !fund.is_manager(signer) {
        return Err(FundError::NotFundManager);
    }
    fund.is_paused = args.is_paused;
    fund.last_update_ts = current_ts;
    Ok(())
}

/// Recomputes the fund's NAV from its totals at `current_ts`. On failure
/// nothing changes.
pub fn refresh_nav(fund: &mut Fund, current_ts: i64) -> (r: Result<(), FundError>)
    ensures
        match refreshed(old(fund).stats) {
            Ok(t) => r == Ok::<(), FundError>(()) && *final(fund) == (Fund {
                stats: t,
                last_update_ts: current_ts,
                ..*old(fund)
            }),
            Err(e) => r == Err::<(), FundError>(e) && *final(fund) == *old(fund),
        },
{
    fund.stats.update_nav()?;
    fund.last_update_ts = current_ts;
    Ok(())
}

} // verus!
