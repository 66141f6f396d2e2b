//! A commit-reveal lottery ledger.
//!
//! Participants seal their chosen numbers behind a SHA-256 commitment during
//! the commitment phase, disclose them during the reveal phase, and a winning
//! number is derived from the aggregate of the revealed seeds at settlement.
//! Phases are derived purely from an external block-height clock; all ledger
//! operations are phase-gated, guarded against reentrancy, and leave the
//! state unchanged whenever they fail.

pub mod arith;
pub mod contract;
pub mod crypto;
pub mod error;
pub mod execute;
pub mod lottery_logic;
pub mod msg;
pub mod phase_manager;
pub mod query;
pub mod randomness;
pub mod reward_system;
pub mod state;
