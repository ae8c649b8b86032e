use vstd::prelude::*;

verus! {

/// Why an operation on a payout plan was refused.
#[derive(Debug, Clone, Copy, PartialEq, Eq, Structural)]
pub enum ErrorCode {
    InvalidMonthlyPayout,
    InvalidMetadataLength,
    ZeroFundingAmount,
    EmergencyModeActive,
    NftMintRequired,
    NftMintMismatch,
    MathOverflow,
    PlanInactive,
    InsufficientBalance,
    NothingToPayout,
    PriceCannotBeZero,
    TbtcConversionOverflow,
    Unauthorized,
    EmergencyAlreadyTriggered,
    EmergencyNotTriggered,
}

} // verus!
