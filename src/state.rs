//! The fund ledger, investor positions and their fee configuration.
use vstd::prelude::*;

use vstd::arithmetic::div_mod::{lemma_fundamental_div_mod, lemma_fundamental_div_mod_converse, lemma_mod_bound};

use crate::error::FundError;
use crate::math::{
    calculate_management_fee, calculate_nav_e6, calculate_performance_fee, can_collect_fees, fits_i64, fits_u64,
    lemma_mul_bound, management_fee_result, nav_result, performance_fee_result, safe_add_i64,
    INITIAL_NAV_E6,
};

verus! {

/// A 32-byte account address (a fund, an investor, a vault, a mint).
#[derive(Debug, Clone, Copy)]
pub struct Address {
    pub bytes: [u8; 32],
}

impl View for Address {
    type V = Seq<u8>;

    open spec fn view(&self) -> Seq<u8> {
        self.bytes@
    }
}

impl Address {
    /// The address with the given bytes.
    pub fn new(bytes: [u8; 32]) -> (r: Address)
        ensures
            r.bytes == bytes,
    {
        Address { bytes }
    }

    /// Whether two addresses hold the same bytes.
    pub fn same(&self, other: &Address) -> (r: bool)
        ensures
            r == (self@ == other@),
    {
        let mut i: usize = 0;
        while i < 32
            invariant
                0 <= i <= 32,
                self@.len() == 32,
                other@.len() == 32,
                forall|j: int| 0 <= j < i ==> self@[j] == other@[j],
            decreases 32 - i,
        {
            if self.bytes[i] != other.bytes[i] {
                return false;
            }
            i = i + 1;
        }
        assert(self@ =~= other@);
        true
    }
}

impl PartialEq for Address {
    fn eq(&self, other: &Address) -> (r: bool) {
        self.same(other)
    }
}

impl vstd::std_specs::cmp::PartialEqSpecImpl for Address {
    open spec fn obeys_eq_spec() -> bool {
        true
    }

    open spec fn eq_spec(&self, other: &Address) -> bool {
        self@ == other@
    }
}

/// Default minimum time between two fee collections: one day.
pub const DEFAULT_COLLECTION_INTERVAL: i64 = 24 * 60 * 60;

/// How a fund charges its manager's fees.
#[derive(Debug, Clone, Copy)]
pub struct FeeConfig {
    /// Yearly management fee, in basis points of assets under management.
    pub management_fee_bps: u32,
    /// Performance fee, in basis points of profit above the high-water mark.
    pub performance_fee_bps: u32,
    /// Whether a performance fee is charged (it is always gated by the mark).
    pub use_high_water_mark: bool,
    /// Minimum number of seconds between two fee collections.
    pub fee_collection_interval: i64,
}

impl FeeConfig {
    /// A configuration with the given rates, the high-water mark in use and
    /// fees collectable once a day.
    pub fn new(management_fee_bps: u32, performance_fee_bps: u32) -> (r: FeeConfig)
        ensures
            r.management_fee_bps == management_fee_bps,
            r.performance_fee_bps == performance_fee_bps,
            r.use_high_water_mark,
            r.fee_collection_interval == DEFAULT_COLLECTION_INTERVAL,
    {
        FeeConfig {
            management_fee_bps,
            performance_fee_bps,
            use_high_water_mark: true,
            fee_collection_interval: DEFAULT_COLLECTION_INTERVAL,
        }
    }
}

/// Running totals of a fund, from which its NAV is derived.
#[derive(Debug, Clone, Copy)]
pub struct FundStats {
    pub total_deposits_e6: i64,
    pub total_withdrawals_e6: i64,
    /// NAV per share, kept equal to `nav_spec(total value, total_shares)`.
    pub current_nav_e6: i64,
    /// Highest NAV reached; performance fees are only charged above it.
    pub high_water_mark_e6: i64,
    pub total_management_fee_e6: i64,
    pub total_performance_fee_e6: i64,
    pub total_shares: u64,
    pub last_fee_collection_ts: i64,
    pub total_realized_pnl_e6: i64,
    /// Number of investors holding shares.
    pub lp_count: u32,
}

/// Value held by a fund: deposits − withdrawals + realized PnL − fees.
pub open spec fn total_value_spec(s: FundStats) -> int {
    s.total_deposits_e6 - s.total_withdrawals_e6 + s.total_realized_pnl_e6 - s.total_management_fee_e6
        - s.total_performance_fee_e6
}

/// The fund's value as an `i64`, or `Overflow` when it does not fit.
pub open spec fn total_value_result(s: FundStats) -> Result<i64, FundError> {
    if fits_i64(total_value_spec(s)) {
        Ok(total_value_spec(s) as i64)
    } else {
        Err(FundError::Overflow)
    }
}

/// `s` with its NAV recomputed from its totals, or the error that prevents it.
pub open spec fn refreshed(s: FundStats) -> Result<FundStats, FundError> {
    if !fits_i64(total_value_spec(s)) {
        Err(FundError::Overflow)
    } else {
        match nav_result(total_value_spec(s), s.total_shares as int) {
            Ok(nav) => Ok(FundStats { current_nav_e6: nav, ..s }),
            Err(e) => Err(e),
        }
    }
}

/// `s` with its high-water mark raised to its NAV if the NAV is above it.
pub open spec fn raised(s: FundStats) -> FundStats {
    if s.current_nav_e6 > s.high_water_mark_e6 {
        FundStats { high_water_mark_e6: s.current_nav_e6, ..s }
    } else {
        s
    }
}

impl FundStats {
    /// Totals of a fund created at `created_at`.
    pub open spec fn new_spec(created_at: i64) -> FundStats {
        FundStats {
            total_deposits_e6: 0,
            total_withdrawals_e6: 0,
            current_nav_e6: INITIAL_NAV_E6,
            high_water_mark_e6: INITIAL_NAV_E6,
            total_management_fee_e6: 0,
            total_performance_fee_e6: 0,
            total_shares: 0,
            last_fee_collection_ts: created_at,
            total_realized_pnl_e6: 0,
            lp_count: 0,
        }
    }

    /// Whether the NAV agrees with the totals.
    pub open spec fn nav_consistent(&self) -> bool {
        refreshed(*self) == Ok::<FundStats, FundError>(*self)
    }

    /// Totals of a fund created at `created_at`: nothing deposited, no
    /// shares, NAV and high-water mark at 1.0.
    pub fn new(created_at: i64) -> (r: FundStats)
        ensures
            r.total_deposits_e6 == 0,
            r.total_withdrawals_e6 == 0,
            r.current_nav_e6 == INITIAL_NAV_E6,
            r.high_water_mark_e6 == INITIAL_NAV_E6,
            r.total_management_fee_e6 == 0,
            r.total_performance_fee_e6 == 0,
            r.total_shares == 0,
            r.last_fee_collection_ts == created_at,
            r.total_realized_pnl_e6 == 0,
            r.lp_count == 0,
            r == FundStats::new_spec(created_at),
            r.nav_consistent(),
    {
        FundStats {
            total_deposits_e6: 0,
            total_withdrawals_e6: 0,
            current_nav_e6: INITIAL_NAV_E6,
            high_water_mark_e6: INITIAL_NAV_E6,
            total_management_fee_e6: 0,
            total_performance_fee_e6: 0,
            total_shares: 0,
            last_fee_collection_ts: created_at,
            total_realized_pnl_e6: 0,
            lp_count: 0,
        }
    }

    /// Value held by the fund (see `total_value_spec`); `Overflow` when it
    /// does not fit an `i64`.
    pub fn total_value_e6(&self) -> (r: Result<i64, FundError>)
        ensures
            r == total_value_result(*self),
    {
        let value: i128 = (self.total_deposits_e6 as i128) - (self.total_withdrawals_e6 as i128)
            + (self.total_realized_pnl_e6 as i128) - (self.total_management_fee_e6 as i128)
            - (self.total_performance_fee_e6 as i128);
        if value > i64::MAX as i128 || value < i64::MIN as i128 {
            return Err(FundError::Overflow);
        }
        Ok(value as i64)
    }

    /// Recomputes the NAV from the totals; on failure nothing changes.
    pub fn update_nav(&mut self) -> (r: Result<(), FundError>)
        ensures
            match refreshed(*old(self)) {
                Ok(t) => r == Ok::<(), FundError>(()) && *final(self) == t,
                Err(e) => r == Err::<(), FundError>(e) && *final(self) == *old(self),
            },
            r is Ok ==> final(self).nav_consistent(),
    {
        let value = self.total_value_e6()?;
        let nav = calculate_nav_e6(value, self.total_shares)?;
        self.current_nav_e6 = nav;
        Ok(())
    }

    /// Raises the high-water mark to the NAV if the NAV is above it.
    pub fn update_hwm(&mut self)
        ensures
            *final(self) == raised(*old(self)),
            final(self).high_water_mark_e6 >= old(self).high_water_mark_e6,
            old(self).nav_consistent() ==> final(self).nav_consistent(),
    {
        if self.current_nav_e6 > self.high_water_mark_e6 {
            self.high_water_mark_e6 = self.current_nav_e6;
        }
    }

    /// Totals alone carry no fee rates, so nothing accrues on them: always
    /// `(0, 0)` with nothing changed. Fees of a fund are computed by
    /// `Fund::calculate_fees`.
    pub fn collect_fees(&mut self, current_ts: i64) -> (r: Result<(i64, i64), FundError>)
        ensures
            r == Ok::<(i64, i64), FundError>((0, 0)),
            *final(self) == *old(self),
    {
        Ok((0, 0))
    }
}

/// Outcome of recording a deposit of `amount` that minted `shares`.
pub open spec fn deposit_result(s: FundStats, amount: int, shares: int) -> Result<FundStats, FundError> {
    if !fits_i64(s.total_deposits_e6 + amount) {
        Err(FundError::Overflow)
    } else if !fits_u64(s.total_shares + shares) {
        Err(FundError::Overflow)
    } else {
        refreshed(
            FundStats {
                total_deposits_e6: (s.total_deposits_e6 + amount) as i64,
                total_shares: (s.total_shares + shares) as u64,
                ..s
            },
        )
    }
}

/// Outcome of recording a withdrawal of `amount` that burned `shares`.
pub open spec fn withdrawal_result(s: FundStats, amount: int, shares: int) -> Result<FundStats, FundError> {
    if !fits_i64(s.total_withdrawals_e6 + amount) {
        Err(FundError::Overflow)
    } else if shares > s.total_shares {
        Err(FundError::Underflow)
    } else {
        refreshed(
            FundStats {
                total_withdrawals_e6: (s.total_withdrawals_e6 + amount) as i64,
                total_shares: (s.total_shares - shares) as u64,
                ..s
            },
        )
    }
}

/// Outcome of recording a realized profit or loss of `pnl`.
pub open spec fn pnl_result(s: FundStats, pnl: int) -> Result<FundStats, FundError> {
    if !fits_i64(s.total_realized_pnl_e6 + pnl) {
        Err(FundError::Overflow)
    } else {
        match refreshed(FundStats { total_realized_pnl_e6: (s.total_realized_pnl_e6 + pnl) as i64, ..s }) {
            Ok(t) => Ok(raised(t)),
            Err(e) => Err(e),
        }
    }
}

/// Outcome of collecting a management fee `mgmt` and a performance fee
/// `perf` at time `ts`.
pub open spec fn fee_collection_result(s: FundStats, mgmt: int, perf: int, ts: i64) -> Result<FundStats, FundError> {
    if !fits_i64(s.total_management_fee_e6 + mgmt) {
        Err(FundError::Overflow)
    } else if !fits_i64(s.total_performance_fee_e6 + perf) {
        Err(FundError::Overflow)
    } else {
        match refreshed(
            FundStats {
                total_management_fee_e6: (s.total_management_fee_e6 + mgmt) as i64,
                total_performance_fee_e6: (s.total_performance_fee_e6 + perf) as i64,
                last_fee_collection_ts: ts,
                ..s
            },
        ) {
            Ok(t) => Ok(raised(t)),
            Err(e) => Err(e),
        }
    }
}

/// A fund run by a manager and owned, through shares, by its investors.
#[derive(Debug, Clone)]
pub struct Fund {
    pub manager: Address,
    pub name: String,
    pub bump: u8,
    pub fund_vault: Address,
    pub share_mint: Address,
    pub fee_config: FeeConfig,
    pub stats: FundStats,
    /// Whether new deposits are accepted.
    pub is_open: bool,
    /// Whether deposits and withdrawals are suspended.
    pub is_paused: bool,
    pub created_at: i64,
    pub last_update_ts: i64,
    pub fund_index: u64,
}

/// Fees owed by a fund at time `ts`: the management fee on its total value
/// since the last collection, and, where the high-water mark is in use, the
/// performance fee. Nothing is owed when no time has passed.
pub open spec fn fees_result(f: Fund, ts: int) -> Result<(i64, i64), FundError> {
    let elapsed = ts - f.stats.last_fee_collection_ts;
    let value = total_value_spec(f.stats);
    if elapsed <= 0 {
        Ok((0, 0))
    } else if !fits_i64(elapsed) {
        Err(FundError::Overflow)
    } else if !fits_i64(value) {
        Err(FundError::Overflow)
    } else {
        match management_fee_result(value, f.fee_config.management_fee_bps as int, elapsed) {
            Err(e) => Err(e),
            Ok(m) => if f.fee_config.use_high_water_mark {
                match performance_fee_result(
                    f.stats.current_nav_e6 as int,
                    f.stats.high_water_mark_e6 as int,
                    value,
                    f.fee_config.performance_fee_bps as int,
                ) {
                    Ok(p) => Ok((m, p)),
                    Err(e) => Err(e),
                }
            } else {
                Ok((m, 0))
            },
        }
    }
}

/// Outcome of collecting fees `mgmt` and `perf` from `f` at time `ts`,
/// the collection interval and a positive total required.
pub open spec fn gated_collection_result(f: Fund, mgmt: int, perf: int, ts: i64) -> Result<FundStats, FundError> {
    if ts - f.stats.last_fee_collection_ts < f.fee_config.fee_collection_interval {
        Err(FundError::FeeCollectionTooEarly)
    } else if mgmt + perf <= 0 {
        Err(FundError::NoFeesToCollect)
    } else {
        fee_collection_result(f.stats, mgmt, perf, ts)
    }
}

impl Fund {
    /// A fund that is open, not paused, without shares and at NAV 1.0.
    pub fn new(
        manager: Address,
        name: &str,
        bump: u8,
        fund_vault: Address,
        share_mint: Address,
        fee_config: FeeConfig,
        fund_index: u64,
        created_at: i64,
    ) -> (r: Fund)
        ensures
            r.manager == manager,
            r.name@ == name@,
            r.bump == bump,
            r.fund_vault == fund_vault,
            r.share_mint == share_mint,
            r.fee_config == fee_config,
            r.stats == FundStats::new_spec(created_at),
            r.stats.nav_consistent(),
            r.is_open,
            !r.is_paused,
            r.created_at == created_at,
            r.last_update_ts == created_at,
            r.fund_index == fund_index,
    {
        Fund {
            manager,
            name: name.to_owned(),
            bump,
            fund_vault,
            share_mint,
            fee_config,
            stats: FundStats::new(created_at),
            is_open: true,
            is_paused: false,
            created_at,
            last_update_ts: created_at,
            fund_index,
        }
    }

    /// The fund's name.
    pub fn name_str(&self) -> (r: String)
        ensures
            r@ == self.name@,
    {
        self.name.clone()
    }

    /// Whether `signer` is the fund's manager.
    pub fn is_manager(&self, signer: &Address) -> (r: bool)
        ensures
            r == (self.manager@ == signer@),
    {
        self.manager.same(signer)
    }

    /// Deposits are accepted while the fund is open and not paused.
    pub fn can_deposit(&self) -> (r: bool)
        ensures
            r == (self.is_open && !self.is_paused),
    {
        self.is_open && !self.is_paused
    }

    /// Withdrawals are accepted while the fund is not paused.
    pub fn can_withdraw(&self) -> (r: bool)
        ensures
            r == !self.is_paused,
    {
        !self.is_paused
    }

    /// Records a deposit of `amount_e6` for which `shares` were minted (at
    /// the NAV in effect before the call) and recomputes the NAV. On failure
    /// nothing changes.
    pub fn record_deposit(&mut self, amount_e6: i64, shares: u64) -> (r: Result<(), FundError>)
        ensures
            match deposit_result(old(self).stats, amount_e6 as int, shares as int) {
                Ok(t) => r == Ok::<(), FundError>(()) && *final(self) == (Fund { stats: t, ..*old(self) }),
                Err(e) => r == Err::<(), FundError>(e) && *final(self) == *old(self),
            },
            final(self).stats.high_water_mark_e6 == old(self).stats.high_water_mark_e6,
            r is Ok ==> final(self).stats.nav_consistent(),
    {
        let mut t = self.stats;
        t.total_deposits_e6 = safe_add_i64(t.total_deposits_e6, amount_e6)?;
        t.total_shares = match t.total_shares.checked_add(shares) {
            Some(v) => v,
            None => return Err(FundError::Overflow),
        };
        t.update_nav()?;
        self.stats = t;
        Ok(())
    }

    /// Records a withdrawal of `amount_e6` for which `shares` were burned and
    /// recomputes the NAV. Burning more shares than exist is an `Underflow`.
    /// On failure nothing changes.
    pub fn record_withdrawal(&mut self, amount_e6: i64, shares: u64) -> (r: Result<(), FundError>)
        ensures
            match withdrawal_result(old(self).stats, amount_e6 as int, shares as int) {
                Ok(t) => r == Ok::<(), FundError>(()) && *final(self) == (Fund { stats: t, ..*old(self) }),
                Err(e) => r == Err::<(), FundError>(e) && *final(self) == *old(self),
            },
            final(self).stats.high_water_mark_e6 == old(self).stats.high_water_mark_e6,
            r is Ok ==> final(self).stats.nav_consistent(),
    {
        let mut t = self.stats;
        t.total_withdrawals_e6 = safe_add_i64(t.total_withdrawals_e6, amount_e6)?;
        if shares > t.total_shares {
            return Err(FundError::Underflow);
        }
        t.total_shares = t.total_shares - shares;
        t.update_nav()?;
        self.stats = t;
        Ok(())
    }

    /// Records a realized profit (or, if negative, loss), recomputes the NAV
    /// and raises the high-water mark if the NAV passed it. On failure
    /// nothing changes.
    pub fn record_pnl(&mut self, pnl_e6: i64) -> (r: Result<(), FundError>)
        ensures
            match pnl_result(old(self).stats, pnl_e6 as int) {
                Ok(t) => r == Ok::<(), FundError>(()) && *final(self) == (Fund { stats: t, ..*old(self) }),
                Err(e) => r == Err::<(), FundError>(e) && *final(self) == *old(self),
            },
            final(self).stats.high_water_mark_e6 >= old(self).stats.high_water_mark_e6,
            r is Ok ==> final(self).stats.nav_consistent(),
    {
        let mut t = self.stats;
        t.total_realized_pnl_e6 = safe_add_i64(t.total_realized_pnl_e6, pnl_e6)?;
        t.update_nav()?;
        t.update_hwm();
        self.stats = t;
        Ok(())
    }

    /// Management and performance fees owed at `current_ts` (see
    /// `fees_result`).
    pub fn calculate_fees(&self, current_ts: i64) -> (r: Result<(i64, i64), FundError>)
        ensures
            r == fees_result(*self, current_ts as int),
    {
        let elapsed: i128 = (current_ts as i128) - (self.stats.last_fee_collection_ts as i128);
        if elapsed <= 0 {
            return Ok((0, 0));
        }
        if elapsed > i64::MAX as i128 {
            return Err(FundError::Overflow);
        }
        let total_value = self.stats.total_value_e6()?;
        let mgmt_fee = calculate_management_fee(total_value, self.fee_config.management_fee_bps, elapsed as i64)?;
        let perf_fee = if self.fee_config.use_high_water_mark {
            calculate_performance_fee(
                self.stats.current_nav_e6,
                self.stats.high_water_mark_e6,
                total_value,
                self.fee_config.performance_fee_bps,
            )?
        } else {
            0
        };
        Ok((mgmt_fee, perf_fee))
    }

    /// Books collected fees at `current_ts`, recomputes the NAV against the
    /// lower total value and raises the high-water mark if the NAV passed it.
    /// Refused with `FeeCollectionTooEarly` before the collection interval
    /// has passed since the last collection, and with `NoFeesToCollect` when
    /// the fees add up to nothing. On failure nothing changes.
    pub fn collect_fees(&mut self, mgmt_fee: i64, perf_fee: i64, current_ts: i64) -> (r: Result<(), FundError>)
        ensures
            match gated_collection_result(*old(self), mgmt_fee as int, perf_fee as int, current_ts) {
                Ok(t) => r == Ok::<(), FundError>(()) && *final(self) == (Fund { stats: t, ..*old(self) }),
                Err(e) => r == Err::<(), FundError>(e) && *final(self) == *old(self),
            },
            final(self).stats.high_water_mark_e6 >= old(self).stats.high_water_mark_e6,
            r is Ok ==> final(self).stats.nav_consistent(),
    {
        if !can_collect_fees(self.stats.last_fee_collection_ts, self.fee_config.fee_collection_interval, current_ts) {
            return Err(FundError::FeeCollectionTooEarly);
        }
        if (mgmt_fee as i128) + (perf_fee as i128) <= 0 {
            return Err(FundError::NoFeesToCollect);
        }
        let mut t = self.stats;
        t.total_management_fee_e6 = safe_add_i64(t.total_management_fee_e6, mgmt_fee)?;
        t.total_performance_fee_e6 = safe_add_i64(t.total_performance_fee_e6, perf_fee)?;
        t.last_fee_collection_ts = current_ts;
        t.update_nav()?;
        t.update_hwm();
        self.stats = t;
        Ok(())
    }
}

/// An investor's holding in one fund.
///
/// A position is kept once emptied, so its historical totals survive a
/// later re-entry.
#[derive(Debug, Clone, Copy)]
pub struct LPPosition {
    pub fund: Address,
    pub investor: Address,
    pub shares: u64,
    /// NAV of the latest deposit (overwritten on each deposit).
    pub deposit_nav_e6: i64,
    pub total_deposited_e6: i64,
    pub total_withdrawn_e6: i64,
    /// Time of the first deposit.
    pub deposited_at: i64,
    /// Time of the latest change of any kind.
    pub last_update_ts: i64,
    pub bump: u8,
}

/// Floor division of a negated non-negative number.
proof fn lemma_floor_of_negative(x: int, d: int)
    requires
        x >= 0,
        d > 0,
    ensures
        (-x) / d == if x % d == 0 { -(x / d) } else { -(x / d) - 1 },
{
    lemma_fundamental_div_mod(x, d);
    lemma_mod_bound(x, d);
    let q = x / d;
    let m = x % d;
    assert(-x == (-q) * d - m) by (nonlinear_arith)
        requires
            x == d * q + m,
    ;
    if m == 0 {
        lemma_fundamental_div_mod_converse(-x, d, -q, 0);
    } else {
        assert(-x == (-q - 1) * d + (d - m)) by (nonlinear_arith)
            requires
                -x == (-q) * d - m,
        ;
        lemma_fundamental_div_mod_converse(-x, d, -q - 1, d - m);
    }
}

/// Value of `shares` at a NAV of `nav`, rounded down.
pub open spec fn position_value_spec(shares: int, nav: int) -> int {
    shares * nav / 1_000_000
}

/// `p` after buying `shares` for `amount` at `nav` at time `ts`.
pub open spec fn bought(p: LPPosition, shares: u64, amount: i64, nav: i64, ts: i64) -> LPPosition {
    LPPosition {
        shares: (p.shares + shares) as u64,
        total_deposited_e6: (p.total_deposited_e6 + amount) as i64,
        deposit_nav_e6: nav,
        last_update_ts: ts,
        ..p
    }
}

/// `p` after redeeming `shares` for `amount` at time `ts`.
pub open spec fn sold(p: LPPosition, shares: u64, amount: i64, ts: i64) -> LPPosition {
    LPPosition {
        shares: (p.shares - shares) as u64,
        total_withdrawn_e6: (p.total_withdrawn_e6 + amount) as i64,
        last_update_ts: ts,
        ..p
    }
}

impl LPPosition {
    /// A position opened by a first deposit of `deposited_amount_e6` that
    /// bought `shares` at `deposit_nav_e6`.
    pub fn new(
        fund: Address,
        investor: Address,
        shares: u64,
        deposit_nav_e6: i64,
        deposited_amount_e6: i64,
        deposited_at: i64,
        bump: u8,
    ) -> (r: LPPosition)
        ensures
            r == (LPPosition {
                fund,
                investor,
                shares,
                deposit_nav_e6,
                total_deposited_e6: deposited_amount_e6,
                total_withdrawn_e6: 0,
                deposited_at,
                last_update_ts: deposited_at,
                bump,
            }),
    {
        LPPosition {
            fund,
            investor,
            shares,
            deposit_nav_e6,
            total_deposited_e6: deposited_amount_e6,
            total_withdrawn_e6: 0,
            deposited_at,
            last_update_ts: deposited_at,
            bump,
        }
    }

    /// Value of the held shares at `current_nav_e6`, rounded down.
    pub fn current_value(&self, current_nav_e6: i64) -> (r: i64)
        requires
            fits_i64(position_value_spec(self.shares as int, current_nav_e6 as int)),
        ensures
            r == position_value_spec(self.shares as int, current_nav_e6 as int),
    {
        if current_nav_e6 >= 0 {
            proof {
                lemma_mul_bound(self.shares as int, current_nav_e6 as int, 0x1_0000_0000_0000_0000, 0x8000_0000_0000_0000);
            }
            ((self.shares as u128) * (current_nav_e6 as u128) / 1_000_000u128) as i64
        } else {
            let magnitude: u128 = (0i128 - current_nav_e6 as i128) as u128;
            proof {
                lemma_mul_bound(self.shares as int, magnitude as int, 0x1_0000_0000_0000_0000, 0x8000_0000_0000_0001);
            }
            let product: u128 = (self.shares as u128) * magnitude;
            let quotient: u128 = product / 1_000_000u128;
            let remainder: u128 = product % 1_000_000u128;
            proof {
                lemma_floor_of_negative(product as int, 1_000_000);
                assert(self.shares as int * current_nav_e6 as int == -(product as int)) by (nonlinear_arith)
                    requires
                        product as int == self.shares as int * magnitude as int,
                        magnitude as int == -(current_nav_e6 as int),
                ;
            }
            if remainder == 0 {
                (0i128 - quotient as i128) as i64
            } else {
                (0i128 - quotient as i128 - 1) as i64
            }
        }
    }

    /// Current value minus the net amount invested (deposited − withdrawn).
    pub fn unrealized_pnl(&self, current_nav_e6: i64) -> (r: i64)
        requires
            fits_i64(position_value_spec(self.shares as int, current_nav_e6 as int)),
            fits_i64(
                position_value_spec(self.shares as int, current_nav_e6 as int) - (self.total_deposited_e6
                    - self.total_withdrawn_e6),
            ),
        ensures
            r == position_value_spec(self.shares as int, current_nav_e6 as int) - (self.total_deposited_e6
                - self.total_withdrawn_e6),
    {
        let current_value = self.current_value(current_nav_e6);
        let net_invested: i128 = (self.total_deposited_e6 as i128) - (self.total_withdrawn_e6 as i128);
        ((current_value as i128) - net_invested) as i64
    }

    /// Adds `shares` bought for `amount_e6` at `current_nav_e6` at time
    /// `current_ts`. On failure nothing changes.
    pub fn add_shares(&mut self, shares: u64, amount_e6: i64, current_nav_e6: i64, current_ts: i64) -> (r: Result<(), FundError>)
        ensures
            if !fits_u64(old(self).shares + shares) || !fits_i64(old(self).total_deposited_e6 + amount_e6) {
                r == Err::<(), FundError>(FundError::Overflow) && *final(self) == *old(self)
            } else {
                r == Ok::<(), FundError>(()) && *final(self) == bought(*old(self), shares, amount_e6, current_nav_e6, current_ts)
            },
    {
        let new_shares = match self.shares.checked_add(shares) {
            Some(v) => v,
            None => return Err(FundError::Overflow),
        };
        let new_deposited = safe_add_i64(self.total_deposited_e6, amount_e6)?;
        self.shares = new_shares;
        self.total_deposited_e6 = new_deposited;
        self.deposit_nav_e6 = current_nav_e6;
        self.last_update_ts = current_ts;
        Ok(())
    }

    /// Removes `shares` redeemed for `amount_e6` at time `current_ts`.
    /// Removing more than is held is `InsufficientShares`. On failure
    /// nothing changes.
    pub fn remove_shares(&mut self, shares: u64, amount_e6: i64, current_ts: i64) -> (r: Result<(), FundError>)
        ensures
            if shares > old(self).shares {
                r == Err::<(), FundError>(FundError::InsufficientShares) && *final(self) == *old(self)
            } else if !fits_i64(old(self).total_withdrawn_e6 + amount_e6) {
                r == Err::<(), FundError>(FundError::Overflow) && *final(self) == *old(self)
            } else {
                r == Ok::<(), FundError>(()) && *final(self) == sold(*old(self), shares, amount_e6, current_ts)
            },
    {
        if shares > self.shares {
            return Err(FundError::InsufficientShares);
        }
        let new_withdrawn = safe_add_i64(self.total_withdrawn_e6, amount_e6)?;
        self.shares = self.shares - shares;
        self.total_withdrawn_e6 = new_withdrawn;
        self.last_update_ts = current_ts;
        Ok(())
    }

    /// Whether no shares are held.
    pub fn is_empty(&self) -> (r: bool)
        ensures
            r == (self.shares == 0),
    {
        self.shares == 0
    }
}

} // verus!
