//! Message types: the host environment snapshot, call metadata, the
//! execute and query messages, and the query response shapes.

use vstd::prelude::*;

use crate::state::{
    Config, FeeRate, LotteryPhase, LotteryResult, LotterySession, Participant,
};

verus! {

/// The facts the external clock supplies for one invocation.
#[derive(Clone, Copy, Debug, PartialEq, Eq, Structural)]
pub struct Env {
    pub block_height: u64,
    pub block_time: u64,
}

/// One denomination of attached funds.
#[derive(Clone, Debug, PartialEq, Eq)]
pub struct Coin {
    pub denom: String,
    pub amount: u128,
}

#[verifier::ext_equal]
pub ghost struct CoinModel {
    pub denom: Seq<char>,
    pub amount: u128,
}

impl View for Coin {
    type V = CoinModel;

    open spec fn view(&self) -> CoinModel {
        CoinModel { denom: self.denom@, amount: self.amount }
    }
}

/// Who called, and with which funds.
#[derive(Clone, Debug, PartialEq, Eq)]
pub struct MessageInfo {
    pub sender: String,
    pub funds: Vec<Coin>,
}

#[verifier::ext_equal]
pub ghost struct MessageInfoModel {
    pub sender: Seq<char>,
    pub funds: Seq<CoinModel>,
}

impl View for MessageInfo {
    type V = MessageInfoModel;

    open spec fn view(&self) -> MessageInfoModel {
        MessageInfoModel {
            sender: self.sender@,
            funds: self.funds@.map_values(|c: Coin| c@),
        }
    }
}

/// A fund transfer the host must carry out after a successful operation.
#[derive(Clone, Debug, PartialEq, Eq)]
pub struct BankTransfer {
    pub to_address: String,
    pub denom: String,
    pub amount: u128,
}

/// What a successful execute call asks the host to do.
#[derive(Clone, Debug, PartialEq, Eq)]
pub struct Response {
    pub transfer: Option<BankTransfer>,
}

#[derive(Clone, Debug, PartialEq, Eq)]
pub struct InstantiateMsg {
    pub admin: String,
    pub service_fee_rate: FeeRate,
    pub min_bet_amount: u128,
    pub max_bet_amount: u128,
    pub bet_denom: String,
    pub pause_requested: Option<bool>,
}

#[derive(Clone, Debug, PartialEq, Eq)]
pub struct MigrateMsg {
    pub new_admin: Option<String>,
}

#[derive(Clone, Debug, PartialEq, Eq)]
pub enum ExecuteMsg {
    /// Place a bet during the commitment phase, sending only the sealed hash.
    PlaceBet { commitment_hash: String },
    /// Disclose numbers and seed during the reveal phase.
    RevealRandom { lucky_numbers: Vec<u16>, random_seed: String },
    /// Settle the cycle during the settlement phase.
    SettleLottery {},
    /// Admin-only update of the economic parameters.
    UpdateConfig {
        service_fee_rate: Option<FeeRate>,
        min_bet_amount: Option<u128>,
        max_bet_amount: Option<u128>,
        bet_denom: Option<String>,
        pause_requested: Option<bool>,
    },
    /// Admin-only immediate pause or unpause.
    EmergencyPause { paused: bool },
    /// Admin-only withdrawal of accrued service fees.
    WithdrawServiceFee { amount: u128 },
}

#[derive(Clone, Debug, PartialEq, Eq)]
pub enum QueryMsg {
    GetCurrentSession {},
    GetParticipantInfo { participant: String },
    GetLotteryResult { session_id: String },
    GetCurrentPhase {},
    GetConfig {},
    GetLotteryHistory { limit: Option<u32>, start_after: Option<String> },
    GetParticipants {},
    GetStats {},
    GetVersion {},
}

#[derive(Clone, Debug, PartialEq, Eq)]
pub struct CurrentSessionResponse {
    pub session: Option<LotterySession>,
    pub phase: LotteryPhase,
    pub block_height: u64,
}

#[derive(Clone, Debug, PartialEq, Eq)]
pub struct ParticipantResponse {
    pub participant: Option<Participant>,
}

#[derive(Clone, Debug, PartialEq, Eq)]
pub struct LotteryResultResponse {
    pub result: Option<LotteryResult>,
}

#[derive(Clone, Copy, Debug, PartialEq, Eq, Structural)]
pub struct PhaseResponse {
    pub phase: LotteryPhase,
    pub block_height: u64,
    pub phase_mod: u64,
}

#[derive(Clone, Debug, PartialEq, Eq)]
pub struct ConfigResponse {
    pub config: Config,
}

#[derive(Clone, Debug, PartialEq, Eq)]
pub struct LotteryHistoryResponse {
    pub results: Vec<LotteryResult>,
    pub total: u32,
}

#[derive(Clone, Debug, PartialEq, Eq)]
pub struct ParticipantsResponse {
    pub participants: Vec<Participant>,
    pub total: u32,
}

#[derive(Clone, Copy, Debug, PartialEq, Eq, Structural)]
pub struct StatsResponse {
    pub total_sessions: u64,
    pub total_participants: u64,
    pub total_pool: u128,
    pub total_service_fee: u128,
    pub total_rewards: u128,
}

#[derive(Clone, Debug, PartialEq, Eq)]
pub struct VersionResponse {
    pub contract_name: String,
    pub contract_version: String,
}

} // verus!
