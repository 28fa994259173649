use vstd::prelude::*;

verus! {

/// Every way an instruction of the program can be rejected.
#[derive(Clone, Copy, Debug, PartialEq, Eq, Structural)]
pub enum ErrorCode {
    GenericError,
    EpochMismatch,
    TokenNameTooLong,
    TokenSymbolTooLong,
    CreatorAllocationTooHigh,
    NegativeLockupPeriod,
    ProposalNotActive,
    EpochNotActive,
    EpochNotEnded,
    InvalidAuthority,
    InvalidEpochTimeRange,
    EpochNotFound,
    CustomError,
    InvalidEpochId,
    EpochAlreadyInactive,
    ProposalEpochMismatch,
    AmountMustBeGreaterThanZero,
    Overflow,
    EpochNotClosed,
    ProposalNotInEpoch,
    InvalidProposalStatusUpdate,
    ProposalAlreadyFinalized,
    EpochAlreadyProcessed,
    Unauthorized,
    ProposalNotRejected,
    ProposalMismatch,
    NothingToReclaim,
    InsufficientProposalFunds,
    CouldNotRetrieveBump,
    RoleAlreadyExists,
    RolesCapacityExceeded,
    CalculationOverflow,
    AmountTooLowToCoverFees,
    FeeCannotBeZero,
    EpochNotProcessedYet,
    UnauthorizedCreator,
    InsufficientFunds,
}

} // verus!
