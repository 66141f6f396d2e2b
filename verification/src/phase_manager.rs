//! Phase gating: deriving the current phase from the clock, the remaining
//! blocks of a phase, and whether an operation may run at a given height.

use vstd::prelude::*;

use crate::error::ContractError;
use crate::state::{phase_at, Config, LotteryPhase, COMMITMENT_END, CYCLE_LENGTH, REVEAL_END};

verus! {

/// The three phase-gated mutating operations.
#[derive(Clone, Copy, Debug, PartialEq, Eq, Structural)]
pub enum Operation {
    PlaceBet,
    RevealRandom,
    SettleLottery,
}

/// The phase an operation requires.
pub open spec fn required_phase(operation: Operation) -> LotteryPhase {
    match operation {
        Operation::PlaceBet => LotteryPhase::Commitment,
        Operation::RevealRandom => LotteryPhase::Reveal,
        Operation::SettleLottery => LotteryPhase::Settlement,
    }
}

/// Blocks left until the current phase (at `height`) ends.
pub open spec fn remaining_blocks_at(height: u64) -> int {
    let m = height % CYCLE_LENGTH;
    match phase_at(height) {
        LotteryPhase::Commitment => COMMITMENT_END - m,
        LotteryPhase::Reveal => REVEAL_END - m,
        LotteryPhase::Settlement => CYCLE_LENGTH - m,
    }
}

pub struct PhaseManager;

impl PhaseManager {
    /// The phase the clock currently stands in.
    pub fn get_current_phase(height: u64) -> (phase: LotteryPhase)
        ensures
            phase == phase_at(height),
    {
        LotteryPhase::from_block_height(height)
    }

    /// Whether the clock currently stands in `phase`.
    pub fn is_in_phase(height: u64, phase: LotteryPhase) -> (r: bool)
        ensures
            r == (phase_at(height) == phase),
    {
        Self::get_current_phase(height) == phase
    }

    /// How many blocks are left in the current phase.
    pub fn get_phase_remaining_blocks(height: u64) -> (r: u64)
        ensures
            r == remaining_blocks_at(height),
    {
        let phase_mod = height % CYCLE_LENGTH;
        match LotteryPhase::from_block_height(height) {
            LotteryPhase::Commitment => COMMITMENT_END - phase_mod,
            LotteryPhase::Reveal => REVEAL_END - phase_mod,
            LotteryPhase::Settlement => CYCLE_LENGTH - phase_mod,
        }
    }

    /// Whether an operation may run now: the contract must not be paused
    /// (nor pausing at a cycle boundary), and the phase must match the one
    /// the operation requires.
    pub fn can_execute_operation(config: &Config, height: u64, operation: Operation) -> (r:
        Result<bool, ContractError>)
        ensures
            config.paused ==> r == Err::<bool, _>(ContractError::ContractPaused),
            !config.paused && config.pause_requested && height % CYCLE_LENGTH == 0 ==> r == Err::<
                bool,
                _,
            >(ContractError::ContractPaused),
            !config.paused && !(config.pause_requested && height % CYCLE_LENGTH == 0) ==> r == Ok::<
                _,
                ContractError,
            >(phase_at(height) == required_phase(operation)),
    {
        if config.paused {
            return Err(ContractError::ContractPaused);
        }
        if config.pause_requested && Self::is_new_commitment_phase(height) {
            return Err(ContractError::ContractPaused);
        }
        let current_phase = Self::get_current_phase(height);
        match operation {
            Operation::PlaceBet => Ok(current_phase == LotteryPhase::Commitment),
            Operation::RevealRandom => Ok(current_phase == LotteryPhase::Reveal),
            Operation::SettleLottery => Ok(current_phase == LotteryPhase::Settlement),
        }
    }

    /// Whether `height` is the first block of a new cycle.
    pub fn is_new_commitment_phase(height: u64) -> (r: bool)
        ensures
            r == (height % CYCLE_LENGTH == 0),
    {
        height % CYCLE_LENGTH == 0
    }

    /// Whether a requested pause takes effect now (at a cycle boundary).
    pub fn should_pause_after_cycle(config: &Config, height: u64) -> (r: bool)
        ensures
            r == (config.pause_requested && height % CYCLE_LENGTH == 0),
    {
        config.pause_requested && Self::is_new_commitment_phase(height)
    }

    /// A snapshot of the phase-related facts at `height`.
    pub fn get_phase_info(height: u64) -> (info: PhaseInfo)
        ensures
            info.phase == phase_at(height),
            info.remaining_blocks == remaining_blocks_at(height),
            info.block_height == height,
            info.phase_mod == height % CYCLE_LENGTH,
    {
        let current_phase = Self::get_current_phase(height);
        let remaining_blocks = Self::get_phase_remaining_blocks(height);
        PhaseInfo {
            phase: current_phase,
            remaining_blocks,
            block_height: height,
            phase_mod: height % CYCLE_LENGTH,
        }
    }
}

/// Phase facts at one block height.
#[derive(Clone, Copy, Debug, PartialEq, Eq, Structural)]
pub struct PhaseInfo {
    pub phase: LotteryPhase,
    pub remaining_blocks: u64,
    pub block_height: u64,
    pub phase_mod: u64,
}

impl PhaseInfo {
    pub fn phase_name(&self) -> (name: &'static str)
        ensures
            name@ == crate::state::phase_name_at(self.phase),
    {
        self.phase.name()
    }

    pub fn is_commitment_phase(&self) -> (r: bool)
        ensures
            r == (self.phase == LotteryPhase::Commitment),
    {
        matches!(self.phase, LotteryPhase::Commitment)
    }

    pub fn is_reveal_phase(&self) -> (r: bool)
        ensures
            r == (self.phase == LotteryPhase::Reveal),
    {
        matches!(self.phase, LotteryPhase::Reveal)
    }

    pub fn is_settlement_phase(&self) -> (r: bool)
        ensures
            r == (self.phase == LotteryPhase::Settlement),
    {
        matches!(self.phase, LotteryPhase::Settlement)
    }
}

/// Phase totality: every clock value falls in exactly one of the three
/// phases, and the phase windows tile the cycle at the documented bounds.
pub proof fn lemma_phase_totality(height: u64)
    ensures
        phase_at(height) == LotteryPhase::Commitment || phase_at(height) == LotteryPhase::Reveal
            || phase_at(height) == LotteryPhase::Settlement,
        phase_at(height) == LotteryPhase::Commitment <==> height % CYCLE_LENGTH < COMMITMENT_END,
        phase_at(height) == LotteryPhase::Reveal <==> COMMITMENT_END <= height % CYCLE_LENGTH
            < REVEAL_END,
        phase_at(height) == LotteryPhase::Settlement <==> REVEAL_END <= height % CYCLE_LENGTH,
{
}

} // verus!
