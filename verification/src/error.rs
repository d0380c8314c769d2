//! The ways in which an entry point refuses a call.
use vstd::prelude::*;

verus! {

/// Error codes of the contract.
#[derive(Clone, Copy, Debug, PartialEq, Eq, Structural)]
pub enum ContractError {
    NotInitialized,
    AlreadyInitialized,
    NotAdmin,
    AdminUnchanged,
    InvalidAdminAddress,
    BondAlreadyExists,
    BondNotFound,
    BondNotActive,
    NotBondOwner,
    InvalidBondAmount,
    InvalidBondDuration,
    InvalidNoticePeriod,
    NotRollingBond,
    WithdrawalAlreadyRequested,
    LockupNotExpired,
    InsufficientBalance,
    SlashExceedsBond,
    EarlyExitConfigNotSet,
    TreasuryNotConfigured,
    TreasuryBeneficiaryMismatch,
    UnauthorizedAttester,
    DuplicateAttestation,
    AttestationNotFound,
    NotOriginalAttester,
    AttestationAlreadyRevoked,
    AttestationWeightExceedsMax,
    EmptyBatch,
    BatchTooLarge,
    ReentrancyDetected,
    DuplicateIdempotencyKey,
    EmergencyDrainNotPermitted,
    TimelockNotReady,
    InvariantViolation,
    Overflow,
    Underflow,
}

/// Why a call was refused. A refused call changes nothing.
#[derive(Clone, Copy, Debug, PartialEq, Eq, Structural)]
pub enum Revert {
    /// A coded contract error.
    Contract(ContractError),
    /// The contract is paused.
    Paused,
    /// An address whose authorization the call needs did not authorize it.
    Unauthorized,
    /// Borrowing operations are frozen.
    BorrowFrozen,
    /// The nonce is not the one that is due.
    InvalidNonce,
    /// The list of accepted tokens is empty.
    EmptyTokenList,
    /// The penalty rate lies above 10 000 basis points.
    PenaltyRateOutOfRange,
    /// No treasury is configured for emergencies.
    EmergencyConfigNotSet,
    /// The contract has no administrator who could pause it.
    PauseNotInitialized,
    /// The caller may not pause the contract.
    PauseNotAdmin,
    /// No drain has been recorded under this id.
    UnknownDrainRecord,
    /// An amount is zero or negative.
    AmountNotPositive,
    /// The end of a new bond would not fit a timestamp.
    BondEndWouldOverflow,
    /// The end of the bond does not fit a timestamp.
    BondEndOverflow,
    /// The end of the notice period does not fit a timestamp.
    NoticePeriodOverflow,
    /// The lock-up still runs.
    LockupRunning,
    /// Withdrawal from a rolling bond was not requested.
    WithdrawalNotRequested,
    /// The notice period of an identity's own bond was never started.
    NoticeNotStarted,
    /// The notice period still runs.
    NoticePeriodNotElapsed,
    /// The bond is neither fully slashed nor expired.
    NotEligibleForLiquidation,
    /// Two items of a batch have the same attester.
    DuplicateAttesterInBatch,
    /// A transfer names the contract itself as its recipient.
    SelfTransfer,
    /// The amounts of a batch do not add up to a representable total.
    TotalAmountOverflow,
    /// An unchecked sum or difference does not fit its type.
    ArithmeticOverflow,
    /// A rule of another subsystem refused, with the code given.
    Subsystem(u32),
}

/// The answer of a subsystem that the host asks before, or in the course of, a call.
pub type Verdict = Result<(), Revert>;

impl Revert {
    /// The text with which the host aborts, for the refusals that carry no code.
    pub open spec fn text(self) -> Option<Seq<char>> {
        match self {
            Revert::PauseNotInitialized => Some("not initialized"@),
            Revert::PauseNotAdmin => Some("not admin"@),
            Revert::AmountNotPositive => Some("amount must be positive"@),
            Revert::BondEndWouldOverflow => Some("bond end timestamp would overflow"@),
            Revert::BondEndOverflow => Some("bond end timestamp overflow"@),
            Revert::NoticePeriodOverflow => Some("notice period overflow"@),
            Revert::LockupRunning => Some("lock-up not expired; use withdraw_early"@),
            Revert::WithdrawalNotRequested => Some("withdrawal not requested"@),
            Revert::NoticeNotStarted => Some("notice not started"@),
            Revert::NoticePeriodNotElapsed => Some("notice period not elapsed"@),
            Revert::NotEligibleForLiquidation => Some(
                "bond is not eligible for liquidation: must be fully slashed or expired (non-rolling) without renewal"@,
            ),
            Revert::DuplicateAttesterInBatch => Some("duplicate attester in batch"@),
            Revert::SelfTransfer => Some("recipient cannot be the contract itself"@),
            Revert::TotalAmountOverflow => Some("total amount overflow"@),
            _ => None,
        }
    }

    /// The text with which the host aborts, for the refusals that carry no code.
    pub fn message(&self) -> (r: Option<&'static str>)
        ensures
            r is Some <==> self.text() is Some,
            r matches Some(m) ==> self.text() == Some(m@),
    {
        match self {
            Revert::PauseNotInitialized => Some("not initialized"),
            Revert::PauseNotAdmin => Some("not admin"),
            Revert::AmountNotPositive => Some("amount must be positive"),
            Revert::BondEndWouldOverflow => Some("bond end timestamp would overflow"),
            Revert::BondEndOverflow => Some("bond end timestamp overflow"),
            Revert::NoticePeriodOverflow => Some("notice period overflow"),
            Revert::LockupRunning => Some("lock-up not expired; use withdraw_early"),
            Revert::WithdrawalNotRequested => Some("withdrawal not requested"),
            Revert::NoticeNotStarted => Some("notice not started"),
            Revert::NoticePeriodNotElapsed => Some("notice period not elapsed"),
            Revert::NotEligibleForLiquidation => Some(
                "bond is not eligible for liquidation: must be fully slashed or expired (non-rolling) without renewal",
            ),
            Revert::DuplicateAttesterInBatch => Some("duplicate attester in batch"),
            Revert::SelfTransfer => Some("recipient cannot be the contract itself"),
            Revert::TotalAmountOverflow => Some("total amount overflow"),
            _ => None,
        }
    }
}

} // verus!
