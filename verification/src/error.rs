//! The error taxonomy of the lottery: every failed precondition maps to one
//! specific variant, and every error leaves the ledger unchanged.

use vstd::prelude::*;

use crate::state::{FeeRate, LotteryPhase};

verus! {

/// The specific reason a list of lucky numbers was rejected.
#[derive(Clone, Copy, Debug, PartialEq, Eq, Structural)]
pub enum LuckyNumbersError {
    /// The list was empty.
    Empty,
    /// The list held more entries than the per-reveal ceiling.
    TooMany,
    /// Some entry was outside the `0..=999` range.
    OutOfRange,
    /// The number of entries did not equal the committed bet amount.
    CountMismatch,
    /// One value occurred more often than the concentration cap allows.
    OverCap,
}

#[derive(Clone, Debug, PartialEq, Eq)]
pub enum ContractError {
    Unauthorized,
    ContractPaused,
    InvalidPhase { expected: LotteryPhase, actual: LotteryPhase },
    InvalidLuckyNumbers { reason: LuckyNumbersError },
    InvalidBetAmount { amount: u128 },
    ParticipantAlreadyExists,
    ParticipantNotFound,
    RandomSeedAlreadyRevealed,
    RandomSeedNotRevealed,
    LotteryAlreadySettled,
    LotteryNotSettled,
    NoParticipants,
    InsufficientFunds,
    ReentrancyDetected,
    InvalidServiceFeeRate { rate: FeeRate },
    InvalidRandomSeed,
    CommitmentHashMismatch,
    InvalidCommitmentHash,
    SessionNotFound,
    InvalidSessionId,
    PhaseTransitionNotAllowed,
    InvalidWinnerLevel { level: u8 },
    RewardCalculationError,
    InvalidConfiguration,
    RandomGenerationFailed,
    InvalidBetDenom,
    LuckyNumbersCountMismatch { expected: u32, actual: u32 },
    ContractUpgradeNotAllowed,
}

impl ContractError {
    pub fn invalid_phase(expected: LotteryPhase, actual: LotteryPhase) -> (e: Self)
        ensures
            e == (ContractError::InvalidPhase { expected, actual }),
    {
        ContractError::InvalidPhase { expected, actual }
    }

    pub fn invalid_lucky_numbers(reason: LuckyNumbersError) -> (e: Self)
        ensures
            e == (ContractError::InvalidLuckyNumbers { reason }),
    {
        ContractError::InvalidLuckyNumbers { reason }
    }

    pub fn invalid_bet_amount(amount: u128) -> (e: Self)
        ensures
            e == (ContractError::InvalidBetAmount { amount }),
    {
        ContractError::InvalidBetAmount { amount }
    }

    pub fn lucky_numbers_count_mismatch(expected: u32, actual: u32) -> (e: Self)
        ensures
            e == (ContractError::LuckyNumbersCountMismatch { expected, actual }),
    {
        ContractError::LuckyNumbersCountMismatch { expected, actual }
    }

    pub fn invalid_service_fee_rate(rate: FeeRate) -> (e: Self)
        ensures
            e == (ContractError::InvalidServiceFeeRate { rate }),
    {
        ContractError::InvalidServiceFeeRate { rate }
    }

    pub fn invalid_winner_level(level: u8) -> (e: Self)
        ensures
            e == (ContractError::InvalidWinnerLevel { level }),
    {
        ContractError::InvalidWinnerLevel { level }
    }
}

} // verus!
