//! The insurance buffer: income and payout tracking, the rolling balance
//! snapshot, the ADL trigger decision and the split of a shortfall between
//! the buffer and ADL.
use vstd::prelude::*;

use crate::error::FundError;
use crate::math::{fits_i64, safe_add_i64};
use crate::state::Address;

verus! {

/// Minimum time between two balance snapshots: one hour.
pub const SNAPSHOT_INTERVAL_SECS: i64 = 3600;

/// Why ADL must start, if it must.
#[derive(Debug, Clone, Copy, PartialEq, Eq, Structural)]
pub enum ADLTriggerReason {
    /// No trigger condition holds.
    NoTrigger,
    /// The buffer cannot cover the shortfall it is asked to cover.
    Bankruptcy,
    /// The buffer is below its configured floor.
    InsufficientBalance,
    /// The buffer fell by more than 30% since the last snapshot.
    RapidDecline,
}

impl Default for ADLTriggerReason {
    fn default() -> (r: ADLTriggerReason)
        ensures
            r == ADLTriggerReason::NoTrigger,
    {
        ADLTriggerReason::NoTrigger
    }
}

/// State of the insurance buffer, whose assets sit in a dedicated fund.
#[derive(Debug, Clone, Copy)]
pub struct InsuranceFundConfig {
    /// The fund that holds the buffer's assets.
    pub fund: Address,
    pub bump: u8,
    /// Liquidation penalties and trading fees received.
    pub total_liquidation_income_e6: i64,
    /// Surplus received from ADL.
    pub total_adl_profit_e6: i64,
    /// Shortfalls covered so far.
    pub total_shortfall_payout_e6: i64,
    /// Balance below which ADL is triggered.
    pub adl_trigger_threshold_e6: i64,
    /// Number of times ADL was switched on.
    pub adl_trigger_count: u64,
    /// Balance at the last snapshot (0: none taken yet).
    pub balance_1h_ago_e6: i64,
    pub last_snapshot_ts: i64,
    /// Time an investor must leave a position untouched before redeeming it.
    pub withdrawal_delay_secs: i64,
    /// While set, redemptions from the buffer are refused.
    pub is_adl_in_progress: bool,
    /// The only caller allowed to report income and shortfalls.
    pub authorized_caller: Address,
    pub last_update_ts: i64,
}

/// 70% of a snapshot balance, rounded down: the level below which the
/// buffer counts as in rapid decline.
pub open spec fn rapid_decline_floor(balance_1h_ago: int) -> int {
    balance_1h_ago * 70 / 100
}

/// The ADL trigger decision, conditions taken in priority order.
pub open spec fn adl_trigger_spec(c: InsuranceFundConfig, balance: int, shortfall: int) -> ADLTriggerReason {
    if shortfall > 0 && balance < shortfall {
        ADLTriggerReason::Bankruptcy
    } else if balance < c.adl_trigger_threshold_e6 {
        ADLTriggerReason::InsufficientBalance
    } else if c.balance_1h_ago_e6 > 0 && balance < rapid_decline_floor(c.balance_1h_ago_e6 as int) {
        ADLTriggerReason::RapidDecline
    } else {
        ADLTriggerReason::NoTrigger
    }
}

/// Part of a shortfall the buffer covers: all of it if the balance allows,
/// else the whole balance.
pub open spec fn covered_spec(shortfall: int, balance: int) -> int {
    if shortfall <= balance {
        shortfall
    } else {
        balance
    }
}

/// Part of a shortfall left for ADL.
pub open spec fn remaining_spec(shortfall: int, balance: int) -> int {
    if shortfall <= balance {
        0
    } else {
        shortfall - balance
    }
}

/// Outcome of covering `shortfall` from a buffer holding `balance`: the
/// covered and remaining parts, or why the request is refused.
pub open spec fn cover_result(c: InsuranceFundConfig, shortfall: int, balance: int) -> Result<(i64, i64), FundError> {
    if shortfall < 0 || balance < 0 {
        Err(FundError::InvalidAmount)
    } else if !fits_i64(c.total_shortfall_payout_e6 + covered_spec(shortfall, balance)) {
        Err(FundError::Overflow)
    } else {
        Ok((covered_spec(shortfall, balance) as i64, remaining_spec(shortfall, balance) as i64))
    }
}

/// `c` with `amount` more shortfall payouts.
pub open spec fn paid_out(c: InsuranceFundConfig, amount: i64) -> InsuranceFundConfig {
    InsuranceFundConfig { total_shortfall_payout_e6: (c.total_shortfall_payout_e6 + amount) as i64, ..c }
}

impl InsuranceFundConfig {
    /// A buffer with no income, no payouts, no snapshot and ADL off.
    pub open spec fn new_spec(
        fund: Address,
        bump: u8,
        adl_trigger_threshold_e6: i64,
        withdrawal_delay_secs: i64,
        authorized_caller: Address,
        created_at: i64,
    ) -> InsuranceFundConfig {
        InsuranceFundConfig {
            fund,
            bump,
            total_liquidation_income_e6: 0,
            total_adl_profit_e6: 0,
            total_shortfall_payout_e6: 0,
            adl_trigger_threshold_e6,
            adl_trigger_count: 0,
            balance_1h_ago_e6: 0,
            last_snapshot_ts: created_at,
            withdrawal_delay_secs,
            is_adl_in_progress: false,
            authorized_caller,
            last_update_ts: created_at,
        }
    }

    /// A buffer with no income, no payouts, no snapshot and ADL off.
    pub fn new(
        fund: Address,
        bump: u8,
        adl_trigger_threshold_e6: i64,
        withdrawal_delay_secs: i64,
        authorized_caller: Address,
        created_at: i64,
    ) -> (r: InsuranceFundConfig)
        ensures
            r == (InsuranceFundConfig {
                fund,
                bump,
                total_liquidation_income_e6: 0,
                total_adl_profit_e6: 0,
                total_shortfall_payout_e6: 0,
                adl_trigger_threshold_e6,
                adl_trigger_count: 0,
                balance_1h_ago_e6: 0,
                last_snapshot_ts: created_at,
                withdrawal_delay_secs,
                is_adl_in_progress: false,
                authorized_caller,
                last_update_ts: created_at,
            }),
    {
        InsuranceFundConfig {
            fund,
            bump,
            total_liquidation_income_e6: 0,
            total_adl_profit_e6: 0,
            total_shortfall_payout_e6: 0,
            adl_trigger_threshold_e6,
            adl_trigger_count: 0,
            balance_1h_ago_e6: 0,
            last_snapshot_ts: created_at,
            withdrawal_delay_secs,
            is_adl_in_progress: false,
            authorized_caller,
            last_update_ts: created_at,
        }
    }

    /// Whether ADL must start for a buffer holding `current_balance_e6` that
    /// is asked to cover `shortfall_e6`: bankruptcy first, then the floor,
    /// then rapid decline since the last snapshot.
    pub fn should_trigger_adl(&self, current_balance_e6: i64, shortfall_e6: i64) -> (r: ADLTriggerReason)
        ensures
            r == adl_trigger_spec(*self, current_balance_e6 as int, shortfall_e6 as int),
    {
        if shortfall_e6 > 0 && current_balance_e6 < shortfall_e6 {
            return ADLTriggerReason::Bankruptcy;
        }
        if current_balance_e6 < self.adl_trigger_threshold_e6 {
            return ADLTriggerReason::InsufficientBalance;
        }
        if self.balance_1h_ago_e6 > 0 {
            let floor: u128 = (self.balance_1h_ago_e6 as u128) * 70 / 100;
            if (current_balance_e6 as i128) < floor as i128 {
                return ADLTriggerReason::RapidDecline;
            }
        }
        ADLTriggerReason::NoTrigger
    }

    /// Splits `shortfall_e6` into the part the buffer covers from
    /// `current_balance_e6` and the part left for ADL, and adds the covered
    /// part to the payouts. A negative shortfall or balance is an
    /// `InvalidAmount`, a payout total beyond the `i64` range an `Overflow`;
    /// on failure nothing changes, so the payout total never decreases.
    pub fn cover_shortfall(&mut self, shortfall_e6: i64, current_balance_e6: i64) -> (r: Result<(i64, i64), FundError>)
        ensures
            r == cover_result(*old(self), shortfall_e6 as int, current_balance_e6 as int),
            match r {
                Ok((covered, _)) => *final(self) == paid_out(*old(self), covered),
                Err(_) => *final(self) == *old(self),
            },
            final(self).total_shortfall_payout_e6 >= old(self).total_shortfall_payout_e6,
    {
        if shortfall_e6 < 0 || current_balance_e6 < 0 {
            return Err(FundError::InvalidAmount);
        }
        let (covered, remaining) = if shortfall_e6 <= current_balance_e6 {
            (shortfall_e6, 0)
        } else {
            (current_balance_e6, shortfall_e6 - current_balance_e6)
        };
        self.total_shortfall_payout_e6 = safe_add_i64(self.total_shortfall_payout_e6, covered)?;
        Ok((covered, remaining))
    }

    /// Books liquidation income; `Overflow` (nothing changed) when the total
    /// leaves the `i64` range.
    pub fn add_liquidation_income(&mut self, amount_e6: i64) -> (r: Result<(), FundError>)
        ensures
            if fits_i64(old(self).total_liquidation_income_e6 + amount_e6) {
                r == Ok::<(), FundError>(()) && *final(self) == (InsuranceFundConfig {
                    total_liquidation_income_e6: (old(self).total_liquidation_income_e6 + amount_e6) as i64,
                    ..*old(self)
                })
            } else {
                r == Err::<(), FundError>(FundError::Overflow) && *final(self) == *old(self)
            },
    {
        self.total_liquidation_income_e6 = safe_add_i64(self.total_liquidation_income_e6, amount_e6)?;
        Ok(())
    }

    /// Books surplus received from ADL; `Overflow` (nothing changed) when
    /// the total leaves the `i64` range.
    pub fn add_adl_profit(&mut self, amount_e6: i64) -> (r: Result<(), FundError>)
        ensures
            if fits_i64(old(self).total_adl_profit_e6 + amount_e6) {
                r == Ok::<(), FundError>(()) && *final(self) == (InsuranceFundConfig {
                    total_adl_profit_e6: (old(self).total_adl_profit_e6 + amount_e6) as i64,
                    ..*old(self)
                })
            } else {
                r == Err::<(), FundError>(FundError::Overflow) && *final(self) == *old(self)
            },
    {
        self.total_adl_profit_e6 = safe_add_i64(self.total_adl_profit_e6, amount_e6)?;
        Ok(())
    }

    /// Books trading fee income, which is counted with liquidation income;
    /// `Overflow` (nothing changed) when the total leaves the `i64` range.
    pub fn add_trading_fee(&mut self, fee_e6: i64) -> (r: Result<(), FundError>)
        ensures
            if fits_i64(old(self).total_liquidation_income_e6 + fee_e6) {
                r == Ok::<(), FundError>(()) && *final(self) == (InsuranceFundConfig {
                    total_liquidation_income_e6: (old(self).total_liquidation_income_e6 + fee_e6) as i64,
                    ..*old(self)
                })
            } else {
                r == Err::<(), FundError>(FundError::Overflow) && *final(self) == *old(self)
            },
    {
        self.total_liquidation_income_e6 = safe_add_i64(self.total_liquidation_income_e6, fee_e6)?;
        Ok(())
    }

    /// Overwrites the balance snapshot with `current_balance_e6` taken at
    /// `current_ts`; refused with `SnapshotTooRecent` (nothing changed) when
    /// less than an hour passed since the last one.
    pub fn update_hourly_snapshot(&mut self, current_balance_e6: i64, current_ts: i64) -> (r: Result<(), FundError>)
        ensures
            if current_ts - old(self).last_snapshot_ts < SNAPSHOT_INTERVAL_SECS {
                r == Err::<(), FundError>(FundError::SnapshotTooRecent) && *final(self) == *old(self)
            } else {
                r == Ok::<(), FundError>(()) && *final(self) == (InsuranceFundConfig {
                    balance_1h_ago_e6: current_balance_e6,
                    last_snapshot_ts: current_ts,
                    ..*old(self)
                })
            },
    {
        if (current_ts as i128) - (self.last_snapshot_ts as i128) < SNAPSHOT_INTERVAL_SECS as i128 {
            return Err(FundError::SnapshotTooRecent);
        }
        self.balance_1h_ago_e6 = current_balance_e6;
        self.last_snapshot_ts = current_ts;
        Ok(())
    }

    /// Switches ADL on or off; switching it on counts one more trigger.
    pub fn set_adl_in_progress(&mut self, in_progress: bool)
        ensures
            *final(self) == (InsuranceFundConfig {
                is_adl_in_progress: in_progress,
                adl_trigger_count: if in_progress {
                    if old(self).adl_trigger_count == u64::MAX {
                        u64::MAX
                    } else {
                        (old(self).adl_trigger_count + 1) as u64
                    }
                } else {
                    old(self).adl_trigger_count
                },
                ..*old(self)
            }),
    {
        self.is_adl_in_progress = in_progress;
        if in_progress {
            self.adl_trigger_count = self.adl_trigger_count.saturating_add(1);
        }
    }

    /// Redemptions from the buffer are allowed while ADL is off.
    pub fn can_withdraw(&self) -> (r: bool)
        ensures
            r == !self.is_adl_in_progress,
    {
        !self.is_adl_in_progress
    }

    /// Whether `caller` may report income and shortfalls.
    pub fn is_authorized_caller(&self, caller: &Address) -> (r: bool)
        ensures
            r == (caller@ == self.authorized_caller@),
    {
        caller.same(&self.authorized_caller)
    }

    /// Liquidation income plus ADL surplus.
    pub fn total_income_e6(&self) -> (r: i64)
        requires
            fits_i64(self.total_liquidation_income_e6 + self.total_adl_profit_e6),
        ensures
            r == self.total_liquidation_income_e6 + self.total_adl_profit_e6,
    {
        self.total_liquidation_income_e6 + self.total_adl_profit_e6
    }

    /// Total income minus shortfall payouts.
    pub fn net_income_e6(&self) -> (r: i64)
        requires
            fits_i64(self.total_liquidation_income_e6 + self.total_adl_profit_e6),
            fits_i64(self.total_liquidation_income_e6 + self.total_adl_profit_e6 - self.total_shortfall_payout_e6),
        ensures
            r == self.total_liquidation_income_e6 + self.total_adl_profit_e6 - self.total_shortfall_payout_e6,
    {
        self.total_income_e6() - self.total_shortfall_payout_e6
    }
}

} // verus!
