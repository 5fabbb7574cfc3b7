//! Arguments of the requests a fund and the insurance buffer accept.
use vstd::prelude::*;

use crate::state::{Address, FeeConfig};

verus! {

/// Creates a fund with the given name and fees.
#[derive(Debug, Clone)]
pub struct CreateFundArgs {
    pub name: String,
    pub management_fee_bps: u32,
    pub performance_fee_bps: u32,
    pub use_high_water_mark: bool,
    pub fee_collection_interval: i64,
}

/// Replaces a fund's fee configuration, if one is given.
#[derive(Debug, Clone, Copy)]
pub struct UpdateFundArgs {
    pub fee_config: Option<FeeConfig>,
}

/// Opens or closes a fund for deposits.
#[derive(Debug, Clone, Copy)]
pub struct SetFundOpenArgs {
    pub is_open: bool,
}

/// Pauses or resumes a fund.
#[derive(Debug, Clone, Copy)]
pub struct SetFundPausedArgs {
    pub is_paused: bool,
}

/// Deposits an amount into a fund.
#[derive(Debug, Clone, Copy)]
pub struct DepositToFundArgs {
    pub amount: u64,
}

/// Redeems shares from a fund.
#[derive(Debug, Clone, Copy)]
pub struct RedeemFromFundArgs {
    pub shares: u64,
}

/// Opens a trade with fund assets.
#[derive(Debug, Clone, Copy)]
pub struct TradeFundArgs {
    pub market_index: u8,
    pub side: u8,
    pub size_e6: u64,
    pub price_e6: u64,
    pub leverage: u8,
    pub max_slippage_bps: u32,
}

/// Closes a trade opened with fund assets.
#[derive(Debug, Clone, Copy)]
pub struct CloseFundPositionArgs {
    pub market_index: u8,
    pub size_e6: u64,
    pub price_e6: u64,
}

/// Pauses or resumes the whole program.
#[derive(Debug, Clone, Copy)]
pub struct SetProgramPausedArgs {
    pub is_paused: bool,
}

/// Reports a realized profit or loss of a fund.
#[derive(Debug, Clone, Copy)]
pub struct RecordPnLArgs {
    pub pnl_e6: i64,
}

/// Sets up the insurance buffer.
#[derive(Debug, Clone, Copy)]
pub struct InitializeInsuranceFundArgs {
    pub adl_trigger_threshold_e6: i64,
    pub withdrawal_delay_secs: i64,
    pub authorized_caller: Address,
}

/// Reports liquidation income of the insurance buffer.
#[derive(Debug, Clone, Copy)]
pub struct AddLiquidationIncomeArgs {
    pub amount_e6: i64,
}

/// Reports ADL surplus of the insurance buffer.
#[derive(Debug, Clone, Copy)]
pub struct AddADLProfitArgs {
    pub amount_e6: i64,
}

/// Asks the insurance buffer to cover a shortfall.
#[derive(Debug, Clone, Copy)]
pub struct CoverShortfallArgs {
    pub shortfall_e6: i64,
}

/// Switches ADL on or off.
#[derive(Debug, Clone, Copy)]
pub struct SetADLInProgressArgs {
    pub in_progress: bool,
}

/// Asks whether ADL must start for a shortfall.
#[derive(Debug, Clone, Copy)]
pub struct CheckADLTriggerArgs {
    pub shortfall_e6: i64,
}

/// Reports trading fee income of the insurance buffer.
#[derive(Debug, Clone, Copy)]
pub struct AddTradingFeeArgs {
    pub fee_e6: i64,
}

/// Redeems shares of the insurance buffer's fund.
#[derive(Debug, Clone, Copy)]
pub struct RedeemFromInsuranceFundArgs {
    pub shares: u64,
}

} // verus!
