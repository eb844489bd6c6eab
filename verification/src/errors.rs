use vstd::prelude::*;

verus! {

/// The errors that the program's instructions report.
#[derive(Clone, Copy, Debug, PartialEq, Eq, Structural)]
pub enum ErrorCode {
    InvalidAmount,
    InvalidTimestamp,
    InvalidUri,
    BelowMinimum,
    NameTooLong,
    SymbolTooLong,
    RaiseTargetMet,
    RaiseClosed,
    RaiseTargetNotMet,
    PropertyNotActive,
    NotFundraising,
    InsufficientTokens,
    Unauthorized,
    Overflow,
    Underflow,
    NoPendingIncome,
    RedemptionThresholdNotMet,
    RedemptionAlreadyRequested,
    EscrowAlreadyReleased,
    RaiseStillActive,
    ListingNotVisible,
    InvalidStatus,
}

} // verus!
