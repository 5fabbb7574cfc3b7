//! Properties that hold across operations: share conservation between a
//! fund and its positions, the rounding bias of a deposit-redeem round
//! trip, and the monotonicity of the high-water mark.
use vstd::prelude::*;

use vstd::arithmetic::div_mod::{lemma_div_is_ordered, lemma_fundamental_div_mod, lemma_mod_bound};

use crate::insurance::InsuranceFundConfig;
use crate::math::{redemption_result, redemption_spec, shares_result};
use crate::operations::{
    collection_outcome, deposit_outcome, insurance_redeem_outcome, open_outcome, redeem_outcome,
};
use crate::state::{gated_collection_result, pnl_result, total_value_spec, Address, Fund, LPPosition};

verus! {

/// Shares held by a list of positions.
pub open spec fn sum_shares(ps: Seq<LPPosition>) -> int
    decreases ps.len(),
{
    if ps.len() == 0 {
        0
    } else {
        sum_shares(ps.drop_last()) + ps.last().shares
    }
}

/// Whether the positions of a fund hold exactly the fund's shares.
pub open spec fn conserved(f: Fund, ps: Seq<LPPosition>) -> bool {
    sum_shares(ps) == f.stats.total_shares
}

proof fn lemma_sum_shares_update(ps: Seq<LPPosition>, i: int, p: LPPosition)
    requires
        0 <= i < ps.len(),
    ensures
        sum_shares(ps.update(i, p)) == sum_shares(ps) - ps[i].shares + p.shares,
    decreases ps.len(),
{
    let qs = ps.update(i, p);
    if i == ps.len() - 1 {
        assert(qs.drop_last() =~= ps.drop_last());
    } else {
        lemma_sum_shares_update(ps.drop_last(), i, p);
        assert(qs.drop_last() =~= ps.drop_last().update(i, p));
    }
}

proof fn lemma_sum_shares_push(ps: Seq<LPPosition>, p: LPPosition)
    ensures
        sum_shares(ps.push(p)) == sum_shares(ps) + p.shares,
{
    assert(ps.push(p).drop_last() =~= ps);
}

/// A deposit into the `i`-th position keeps the positions' shares equal to
/// the fund's shares.
pub proof fn lemma_deposit_conserves_shares(f: Fund, ps: Seq<LPPosition>, i: int, amount: i64, ts: i64)
    requires
        conserved(f, ps),
        0 <= i < ps.len(),
    ensures
        match deposit_outcome(f, ps[i], amount, ts) {
            Ok((_s, f_new, p_new)) => conserved(f_new, ps.update(i, p_new)),
            Err(_) => true,
        },
{
    if let Ok((_s, _f2, p_new)) = deposit_outcome(f, ps[i], amount, ts) {
        lemma_sum_shares_update(ps, i, p_new);
    }
}

/// A first deposit, which adds a position, keeps the positions' shares
/// equal to the fund's shares.
pub proof fn lemma_open_conserves_shares(
    f: Fund,
    ps: Seq<LPPosition>,
    fund_key: Address,
    investor: Address,
    amount: i64,
    ts: i64,
    bump: u8,
)
    requires
        conserved(f, ps),
    ensures
        match open_outcome(f, fund_key, investor, amount, ts, bump) {
            Ok((f_new, p_new)) => conserved(f_new, ps.push(p_new)),
            Err(_) => true,
        },
{
    if let Ok((_f2, p_new)) = open_outcome(f, fund_key, investor, amount, ts, bump) {
        lemma_sum_shares_push(ps, p_new);
    }
}

/// A redemption from the `i`-th position keeps the positions' shares equal
/// to the fund's shares.
pub proof fn lemma_redeem_conserves_shares(
    f: Fund,
    ps: Seq<LPPosition>,
    i: int,
    fund_key: Address,
    investor: Address,
    shares: u64,
    vault_balance: u64,
    ts: i64,
)
    requires
        conserved(f, ps),
        0 <= i < ps.len(),
    ensures
        match redeem_outcome(f, fund_key, investor, ps[i], shares, vault_balance, ts) {
            Ok((_v, f_new, p_new)) => conserved(f_new, ps.update(i, p_new)),
            Err(_) => true,
        },
{
    if let Ok((_v, _f2, p_new)) = redeem_outcome(f, fund_key, investor, ps[i], shares, vault_balance, ts) {
        lemma_sum_shares_update(ps, i, p_new);
    }
}

/// A redemption from the insurance buffer's fund keeps the positions'
/// shares equal to the fund's shares.
pub proof fn lemma_insurance_redeem_conserves_shares(
    c: InsuranceFundConfig,
    f: Fund,
    ps: Seq<LPPosition>,
    i: int,
    fund_key: Address,
    vault_key: Address,
    investor: Address,
    shares: u64,
    vault_balance: u64,
    ts: i64,
)
    requires
        conserved(f, ps),
        0 <= i < ps.len(),
    ensures
        match insurance_redeem_outcome(c, f, fund_key, vault_key, investor, ps[i], shares, vault_balance, ts) {
            Ok((_v, f_new, p_new)) => conserved(f_new, ps.update(i, p_new)),
            Err(_) => true,
        },
{
    if let Ok((_v, _f2, p_new)) = insurance_redeem_outcome(c, f, fund_key, vault_key, investor, ps[i], shares, vault_balance, ts) {
        lemma_sum_shares_update(ps, i, p_new);
    }
}

/// Depositing an amount at some NAV and at once redeeming the shares it
/// bought at the same NAV never pays out more than was deposited.
pub proof fn lemma_round_trip_never_gains(amount: i64, nav: i64)
    ensures
        match shares_result(amount as int, nav as int) {
            Ok(s) => match redemption_result(s as int, nav as int) {
                Ok(v) => v <= amount,
                Err(_) => true,
            },
            Err(_) => true,
        },
{
    if let Ok(s) = shares_result(amount as int, nav as int) {
        let x = amount as int * 1_000_000;
        let n = nav as int;
        lemma_fundamental_div_mod(x, n);
        lemma_mod_bound(x, n);
        assert(s == x / n);
        assert(s * n <= x) by (nonlinear_arith)
            requires
                x == n * (x / n) + x % n,
                x % n >= 0,
                s == x / n,
        ;
        lemma_div_is_ordered(s * n, x, 1_000_000);
        assert(x / 1_000_000 == amount as int);
        assert(redemption_spec(s as int, n) == (s * n) / 1_000_000);
    }
}

/// A redemption paid at the rounded-down value never lowers the NAV of the
/// shares that stay in the fund.
pub proof fn lemma_redeem_keeps_nav(
    f: Fund,
    fund_key: Address,
    investor: Address,
    p: LPPosition,
    shares: u64,
    vault_balance: u64,
    ts: i64,
)
    requires
        f.stats.nav_consistent(),
    ensures
        match redeem_outcome(f, fund_key, investor, p, shares, vault_balance, ts) {
            Ok((_v, f_new, _p_new)) => f_new.stats.total_shares > 0 ==> f_new.stats.current_nav_e6
                >= f.stats.current_nav_e6,
            Err(_) => true,
        },
{
    if let Ok((v, f_new, _p_new)) = redeem_outcome(f, fund_key, investor, p, shares, vault_balance, ts) {
        if f_new.stats.total_shares > 0 {
            let total = f.stats.total_shares as int;
            let left = f_new.stats.total_shares as int;
            let value = total_value_spec(f.stats);
            let value_left = total_value_spec(f_new.stats);
            let nav = f.stats.current_nav_e6 as int;
            let s = shares as int;
            assert(total == left + s);
            assert(value_left == value - v);
            assert(nav == value * 1_000_000 / total);
            assert(v == s * nav / 1_000_000);
            lemma_fundamental_div_mod(value * 1_000_000, total);
            lemma_mod_bound(value * 1_000_000, total);
            lemma_fundamental_div_mod(s * nav, 1_000_000);
            lemma_mod_bound(s * nav, 1_000_000);
            assert(nav * total <= value * 1_000_000) by (nonlinear_arith)
                requires
                    value * 1_000_000 == total * nav + (value * 1_000_000) % total,
                    (value * 1_000_000) % total >= 0,
            ;
            assert(v * 1_000_000 <= s * nav) by (nonlinear_arith)
                requires
                    s * nav == 1_000_000 * v + (s * nav) % 1_000_000,
                    (s * nav) % 1_000_000 >= 0,
            ;
            assert(nav * left <= value_left * 1_000_000) by (nonlinear_arith)
                requires
                    nav * total <= value * 1_000_000,
                    v * 1_000_000 <= s * nav,
                    total == left + s,
                    value_left == value - v,
            ;
            lemma_div_is_ordered(nav * left, value_left * 1_000_000, left);
            assert(nav * left / left == nav) by (nonlinear_arith)
                requires
                    left > 0,
            ;
        }
    }
}

/// A change of the ledger that may move the high-water mark.
pub enum LedgerEvent {
    /// A realized profit or loss.
    Pnl { pnl_e6: i64 },
    /// A fee collection.
    Fees { mgmt_fee_e6: i64, perf_fee_e6: i64, ts: i64 },
}

/// The fund after an event; a refused event changes nothing.
pub open spec fn apply_event(f: Fund, e: LedgerEvent) -> Fund {
    let r = match e {
        LedgerEvent::Pnl { pnl_e6 } => pnl_result(f.stats, pnl_e6 as int),
        LedgerEvent::Fees { mgmt_fee_e6, perf_fee_e6, ts } => gated_collection_result(
            f,
            mgmt_fee_e6 as int,
            perf_fee_e6 as int,
            ts,
        ),
    };
    match r {
        Ok(t) => Fund { stats: t, ..f },
        Err(_) => f,
    }
}

/// The fund after a sequence of events, in order.
pub open spec fn replay(f: Fund, events: Seq<LedgerEvent>) -> Fund
    decreases events.len(),
{
    if events.len() == 0 {
        f
    } else {
        apply_event(replay(f, events.drop_last()), events.last())
    }
}

/// The high-water mark never decreases over any sequence of realized PnL
/// and fee collections.
pub proof fn lemma_hwm_never_decreases(f: Fund, events: Seq<LedgerEvent>)
    ensures
        replay(f, events).stats.high_water_mark_e6 >= f.stats.high_water_mark_e6,
    decreases events.len(),
{
    if events.len() > 0 {
        lemma_hwm_never_decreases(f, events.drop_last());
    }
}

/// One operation on a fund and the positions held in it.
pub enum FundOp {
    /// A first deposit, which adds a position.
    Open { fund_key: Address, investor: Address, amount_e6: i64, ts: i64, bump: u8 },
    /// A deposit into the position at `index`.
    Deposit { index: usize, amount_e6: i64, ts: i64 },
    /// A redemption from the position at `index`.
    Redeem { fund_key: Address, investor: Address, index: usize, shares: u64, vault_balance: u64, ts: i64 },
    /// A redemption from the position at `index` of the insurance buffer's fund.
    RedeemFromBuffer {
        config: InsuranceFundConfig,
        fund_key: Address,
        vault_key: Address,
        investor: Address,
        index: usize,
        shares: u64,
        vault_balance: u64,
        ts: i64,
    },
    /// A realized profit or loss.
    Pnl { pnl_e6: i64 },
    /// A collection of the fees owed.
    CollectFees { ts: i64 },
}

/// The fund and positions after an operation; a refused operation, or one
/// naming a position that does not exist, changes nothing.
pub open spec fn apply_op(f: Fund, ps: Seq<LPPosition>, op: FundOp) -> (Fund, Seq<LPPosition>) {
    match op {
        FundOp::Open { fund_key, investor, amount_e6, ts, bump } => match open_outcome(
            f,
            fund_key,
            investor,
            amount_e6,
            ts,
            bump,
        ) {
            Ok((f_new, p_new)) => (f_new, ps.push(p_new)),
            Err(_) => (f, ps),
        },
        FundOp::Deposit { index, amount_e6, ts } => if index < ps.len() {
            match deposit_outcome(f, ps[index as int], amount_e6, ts) {
                Ok((_s, f_new, p_new)) => (f_new, ps.update(index as int, p_new)),
                Err(_) => (f, ps),
            }
        } else {
            (f, ps)
        },
        FundOp::Redeem { fund_key, investor, index, shares, vault_balance, ts } => if index < ps.len() {
            match redeem_outcome(f, fund_key, investor, ps[index as int], shares, vault_balance, ts) {
                Ok((_v, f_new, p_new)) => (f_new, ps.update(index as int, p_new)),
                Err(_) => (f, ps),
            }
        } else {
            (f, ps)
        },
        FundOp::RedeemFromBuffer { config, fund_key, vault_key, investor, index, shares, vault_balance, ts } => if index
            < ps.len() {
            match insurance_redeem_outcome(
                config,
                f,
                fund_key,
                vault_key,
                investor,
                ps[index as int],
                shares,
                vault_balance,
                ts,
            ) {
                Ok((_v, f_new, p_new)) => (f_new, ps.update(index as int, p_new)),
                Err(_) => (f, ps),
            }
        } else {
            (f, ps)
        },
        FundOp::Pnl { pnl_e6 } => match pnl_result(f.stats, pnl_e6 as int) {
            Ok(t) => (Fund { stats: t, ..f }, ps),
            Err(_) => (f, ps),
        },
        FundOp::CollectFees { ts } => match collection_outcome(f, ts) {
            Ok((_m, _p, f_new)) => (f_new, ps),
            Err(_) => (f, ps),
        },
    }
}

/// The fund and positions after a sequence of operations, in order.
pub open spec fn run_ops(f: Fund, ps: Seq<LPPosition>, ops: Seq<FundOp>) -> (Fund, Seq<LPPosition>)
    decreases ops.len(),
{
    if ops.len() == 0 {
        (f, ps)
    } else {
        let prev = run_ops(f, ps, ops.drop_last());
        apply_op(prev.0, prev.1, ops.last())
    }
}

/// Share conservation: over any sequence of operations, the positions of a
/// fund hold exactly the fund's shares, provided they did at the start
/// (as they do for a new fund without positions).
pub proof fn lemma_shares_conserved(f: Fund, ps: Seq<LPPosition>, ops: Seq<FundOp>)
    requires
        conserved(f, ps),
    ensures
        conserved(run_ops(f, ps, ops).0, run_ops(f, ps, ops).1),
    decreases ops.len(),
{
    if ops.len() > 0 {
        lemma_shares_conserved(f, ps, ops.drop_last());
        let prev = run_ops(f, ps, ops.drop_last());
        lemma_op_conserves_shares(prev.0, prev.1, ops.last());
    }
}

proof fn lemma_op_conserves_shares(f: Fund, ps: Seq<LPPosition>, op: FundOp)
    requires
        conserved(f, ps),
    ensures
        conserved(apply_op(f, ps, op).0, apply_op(f, ps, op).1),
{
    match op {
        FundOp::Open { fund_key, investor, amount_e6, ts, bump } => {
            lemma_open_conserves_shares(f, ps, fund_key, investor, amount_e6, ts, bump);
        },
        FundOp::Deposit { index, amount_e6, ts } => {
            if index < ps.len() {
                lemma_deposit_conserves_shares(f, ps, index as int, amount_e6, ts);
            }
        },
        FundOp::Redeem { fund_key, investor, index, shares, vault_balance, ts } => {
            if index < ps.len() {
                lemma_redeem_conserves_shares(f, ps, index as int, fund_key, investor, shares, vault_balance, ts);
            }
        },
        FundOp::RedeemFromBuffer { config, fund_key, vault_key, investor, index, shares, vault_balance, ts } => {
            if index < ps.len() {
                lemma_insurance_redeem_conserves_shares(
                    config,
                    f,
                    ps,
                    index as int,
                    fund_key,
                    vault_key,
                    investor,
                    shares,
                    vault_balance,
                    ts,
                );
            }
        },
        FundOp::Pnl { pnl_e6 } => {},
        FundOp::CollectFees { ts } => {},
    }
}

/// A new fund without positions starts with its shares conserved.
pub proof fn lemma_new_fund_conserved(f: Fund)
    requires
        f.stats.total_shares == 0,
    ensures
        conserved(f, Seq::<LPPosition>::empty()),
{
}

} // verus!
