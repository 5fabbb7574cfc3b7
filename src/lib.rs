//! Fund accounting and loss-absorption engine.
//!
//! Pooled investor capital is tracked as shares of a fund whose per-share
//! value (NAV) is kept in 1,000,000-scaled fixed point. The library covers
//! the NAV and fee arithmetic, the fund ledger, investor positions and the
//! insurance buffer that absorbs shortfalls and decides when auto-deleveraging
//! (ADL) must start.
//!
//! - `math`: checked arithmetic, NAV and share conversion, fee accrual.
//! - `state`: fee configuration, fund totals, the fund and investor positions.
//! - `insurance`: the insurance buffer's state, ADL trigger and shortfall split.
//! - `operations`: whole fund operations (create, deposit, redeem, fees, close).
//! - `buffer`: whole operations of the insurance buffer.
//! - `instruction`: arguments of the requests the engine serves.
//! - `laws`: share conservation, rounding bias and high-water mark monotonicity.
//! - `error`: the error type shared by all of them.
pub mod buffer;
pub mod error;
pub mod instruction;
pub mod insurance;
pub mod laws;
pub mod math;
pub mod operations;
pub mod state;
