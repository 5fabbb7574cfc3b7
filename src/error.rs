//! Errors reported by the fund engine.
use vstd::prelude::*;

verus! {

/// Every way an operation of the engine can fail.
///
/// Validation errors are reported before any state is touched, arithmetic
/// errors when a value would leave its 64-bit range, and policy errors when
/// the state of a fund or of the insurance buffer forbids the request.
#[derive(Debug, Clone, Copy, PartialEq, Eq, Structural)]
pub enum FundError {
    Unauthorized,
    NotFundManager,
    NotLPInvestor,
    AdminRequired,
    UnauthorizedCaller,
    FundAlreadyInitialized,
    FundNotInitialized,
    InvalidFundAccount,
    LPPositionNotFound,
    LPPositionAlreadyExists,
    InvalidAccountOwner,
    InvalidMint,
    InsufficientBalance,
    InsufficientShares,
    DepositTooSmall,
    CannotEmptyFund,
    InvalidAmount,
    FundClosed,
    FundHasOpenPositions,
    FundPaused,
    FundHasLPPositions,
    FundNameTooLong,
    InvalidFeeConfig,
    ManagementFeeTooHigh,
    PerformanceFeeTooHigh,
    FeeCollectionTooEarly,
    NoFeesToCollect,
    Overflow,
    Underflow,
    DivisionByZero,
    NAVCalculationError,
    ShareCalculationError,
    InvalidPDA,
    InvalidSeeds,
    PDAMismatch,
    InsuranceFundAlreadyInitialized,
    InsuranceFundNotInitialized,
    InsuranceFundInsufficientBalance,
    ADLInProgress,
    ADLNotRequired,
    InvalidInsuranceFundConfig,
    SnapshotTooRecent,
    WithdrawalDelayNotMet,
    InvalidPaymentType,
    PaymentRecordAlreadyExists,
    InvalidFeeConfiguration,
}

} // verus!
