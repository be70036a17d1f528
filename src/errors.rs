use vstd::prelude::*;

verus! {

/// Every way in which an operation of the engine can be refused.
#[derive(Debug, Clone, Copy, PartialEq, Eq, Structural)]
pub enum ErrorCode {
    InvalidProgramId,
    InvalidOwner,
    NotAuthorized,
    Overflow,
    InvalidAssociatedToken,
    InvalidFeeTreasuryAccount,
    InvalidTreasuryMintDecimals,
    TreasuryAlreadyInitialized,
    TreasuryNotInitialized,
    InvalidTreasuryVersion,
    InvalidTreasuryMint,
    InvalidTreasury,
    InvalidTreasurySize,
    InvalidTreasurer,
    InvalidBeneficiary,
    InvalidArgument,
    StreamNotInitialized,
    StreamAlreadyInitialized,
    InvalidStreamVersion,
    InvalidStreamSize,
    InvalidStream,
    InvalidRequestedStreamAllocation,
    InvalidWithdrawalAmount,
    StringTooLong,
    StreamAlreadyRunning,
    StreamAlreadyPaused,
    StreamZeroRemainingAllocation,
    ZeroContributionAmount,
    ZeroWithdrawalAmount,
    StreamIsScheduled,
    CloseLockedStreamNotAllowedWhileRunning,
    PauseOrResumeLockedStreamNotAllowed,
    ReservedAllocationExceedWithdrawableAmount,
    AllocateNotAllowedOnLockedStreams,
    InvalidStreamRate,
    InvalidCliff,
    InsufficientLamports,
    TreasuryContainsStreams,
    InsufficientFunds,
    InsufficientTreasuryBalance,
    CannotResumeAutoPausedStream,
    InvalidTreasuryRequestedAllocation,
    InvalidIdlFileVersion,
    CannotPauseAndUnpauseOnSameBlockTime,
    InvalidTotalStreamsInTreasury,
    NumberOfIntervalsMustBePossitive,
    CannotModifyTemplate,
    InvalidTemplateVersion,
    InvalidTemplateSize,
}

} // verus!
