//! Failure codes surfaced by the handler.
//!
//! `IDOProgramError` holds the sale-specific failures (schedule validity and
//! time-gated rejections).  `ProcessError` is the full taxonomy a transition
//! can abort with: it wraps `IDOProgramError` in its `Custom` variant and adds
//! the platform-level failures (malformed input, address authentication,
//! account decoding, resource exhaustion).

use vstd::prelude::*;

verus! {

/// Sale-specific failure codes.
#[derive(Clone, Copy, Debug, PartialEq, Eq, Structural)]
pub enum IDOProgramError {
    MaxUnlocksOverflow,
    UnlocksMustNotEqualZero,
    CliffIsActive,
    VestingIsActive,
    VestingPeriodMustBeGreaterThanNow,
    CliffPeriodMustBeGreaterThanNow,
    VestingPeriodMustBeGreaterThanCliff,
    AlreadyClaimed,
    VestingPeriodEnded,
    ClaimBeforeBuy,
}

impl IDOProgramError {
    /// The discriminated code under which the failure is surfaced to callers.
    pub fn code(&self) -> (c: u32)
        ensures
            c == self.spec_code(),
    {
        match self {
            IDOProgramError::MaxUnlocksOverflow => 0,
            IDOProgramError::UnlocksMustNotEqualZero => 1,
            IDOProgramError::CliffIsActive => 2,
            IDOProgramError::VestingIsActive => 3,
            IDOProgramError::VestingPeriodMustBeGreaterThanNow => 4,
            IDOProgramError::CliffPeriodMustBeGreaterThanNow => 5,
            IDOProgramError::VestingPeriodMustBeGreaterThanCliff => 6,
            IDOProgramError::AlreadyClaimed => 7,
            IDOProgramError::VestingPeriodEnded => 8,
            IDOProgramError::ClaimBeforeBuy => 9,
        }
    }

    /// The code of each variant, in declaration order.
    pub open spec fn spec_code(self) -> u32 {
        match self {
            IDOProgramError::MaxUnlocksOverflow => 0,
            IDOProgramError::UnlocksMustNotEqualZero => 1,
            IDOProgramError::CliffIsActive => 2,
            IDOProgramError::VestingIsActive => 3,
            IDOProgramError::VestingPeriodMustBeGreaterThanNow => 4,
            IDOProgramError::CliffPeriodMustBeGreaterThanNow => 5,
            IDOProgramError::VestingPeriodMustBeGreaterThanCliff => 6,
            IDOProgramError::AlreadyClaimed => 7,
            IDOProgramError::VestingPeriodEnded => 8,
            IDOProgramError::ClaimBeforeBuy => 9,
        }
    }

    /// A human-readable description of the failure.
    pub fn message(&self) -> &'static str {
        match self {
            IDOProgramError::MaxUnlocksOverflow => "Max Unlocks must not be greater than 100! Visit docs for more info on setting up Vesting Strategy.",
            IDOProgramError::UnlocksMustNotEqualZero => "Unlocks must not equal zero! Visit docs to see how unlocks are calculated based on the Vesting Strategy.",
            IDOProgramError::CliffIsActive => "Cliff Period is still active.",
            IDOProgramError::VestingIsActive => "Vesting Period is still active, please wait until it's possible to claim the next portion of tokens.",
            IDOProgramError::VestingPeriodMustBeGreaterThanNow => "Vesting Period must be greater than Current Timestamp.",
            IDOProgramError::CliffPeriodMustBeGreaterThanNow => "Cliff Period must be greater than Current Timestamp.",
            IDOProgramError::VestingPeriodMustBeGreaterThanCliff => "Vesting Period must be greater than Cliff Period.",
            IDOProgramError::AlreadyClaimed => "Already claimed! No tokens to claim.",
            IDOProgramError::VestingPeriodEnded => "Vesting Period has ended!",
            IDOProgramError::ClaimBeforeBuy => "Nothing to claim! Buy tokens before claiming them.",
        }
    }
}

/// Every failure a transition of the handler can abort with.
#[derive(Clone, Copy, Debug, PartialEq, Eq, Structural)]
pub enum ProcessError {
    /// The instruction's account list is shorter than the transition requires.
    NotEnoughAccountKeys,
    /// The account that must authorize the instruction did not sign it.
    MissingRequiredSignature,
    /// Malformed instruction data, or a caller-supplied address that does not
    /// match its deterministic derivation.
    InvalidInstructionData,
    /// An account's data does not decode under its fixed layout.
    InvalidAccountData,
    /// An account's data decodes, but its initialized flag is clear.
    UninitializedAccount,
    /// An intermediate value does not fit its fixed-width integer type.
    ArithmeticOverflow,
    /// The buyer's spendable native balance does not cover the purchase.
    InsufficientFunds,
    /// A sale-specific failure.
    Custom(IDOProgramError),
}

} // verus!
