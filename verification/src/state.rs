//! Core data model: configuration, sessions, participants, commitments,
//! results and running statistics, together with their mathematical views.

use vstd::prelude::*;

verus! {

/// Length of one full lottery cycle in blocks.
pub const CYCLE_LENGTH: u64 = 10000;

/// First block (within a cycle) of the reveal phase.
pub const COMMITMENT_END: u64 = 6000;

/// First block (within a cycle) of the settlement phase.
pub const REVEAL_END: u64 = 9000;

/// The three phases of a lottery cycle, derived purely from the clock.
#[derive(Clone, Copy, Debug, PartialEq, Eq, Structural)]
pub enum LotteryPhase {
    Commitment,
    Reveal,
    Settlement,
}

/// The phase that a given block height falls into.
pub open spec fn phase_at(height: u64) -> LotteryPhase {
    let m = height % CYCLE_LENGTH;
    if m < COMMITMENT_END {
        LotteryPhase::Commitment
    } else if m < REVEAL_END {
        LotteryPhase::Reveal
    } else {
        LotteryPhase::Settlement
    }
}

/// Phase names as character sequences, for contracts about `name`.
pub open spec fn phase_name_at(phase: LotteryPhase) -> Seq<char> {
    match phase {
        LotteryPhase::Commitment => "commitment"@,
        LotteryPhase::Reveal => "reveal"@,
        LotteryPhase::Settlement => "settlement"@,
    }
}

impl LotteryPhase {
    /// Derive the phase from a block height: the cycle is `CYCLE_LENGTH`
    /// blocks long and splits into commitment, reveal and settlement windows.
    pub fn from_block_height(block_height: u64) -> (phase: Self)
        ensures
            phase == phase_at(block_height),
    {
        let phase_mod = block_height % CYCLE_LENGTH;
        if phase_mod < COMMITMENT_END {
            LotteryPhase::Commitment
        } else if phase_mod < REVEAL_END {
            LotteryPhase::Reveal
        } else {
            LotteryPhase::Settlement
        }
    }

    /// A lower-case name for the phase.
    pub fn name(&self) -> (name: &'static str)
        ensures
            name@ == phase_name_at(*self),
    {
        match self {
            LotteryPhase::Commitment => "commitment",
            LotteryPhase::Reveal => "reveal",
            LotteryPhase::Settlement => "settlement",
        }
    }
}

/// A service-fee rate expressed in atomic units of `10^-18`, so that
/// `FEE_DENOM` atomics stand for a rate of exactly one.
pub const FEE_DENOM: u64 = 1000000000000000000;

#[derive(Clone, Copy, Debug, PartialEq, Eq, Structural)]
pub struct FeeRate {
    pub atomics: u64,
}

impl FeeRate {
    /// A rate is valid when it does not exceed one.
    pub open spec fn wf(self) -> bool {
        self.atomics <= FEE_DENOM
    }

    pub fn from_atomics(atomics: u64) -> (r: FeeRate)
        ensures
            r.atomics == atomics,
    {
        FeeRate { atomics }
    }

    /// The rate `p` percent.
    pub fn percent(p: u64) -> (r: FeeRate)
        requires
            p * 10000000000000000 <= u64::MAX,
        ensures
            r.atomics == p * 10000000000000000,
    {
        FeeRate { atomics: p * 10000000000000000 }
    }
}

/// Economic and administrative parameters.
#[derive(Clone, Debug, PartialEq, Eq)]
pub struct Config {
    pub admin: String,
    pub service_fee_rate: FeeRate,
    pub min_bet_amount: u128,
    pub max_bet_amount: u128,
    pub bet_denom: String,
    pub paused: bool,
    pub pause_requested: bool,
}

/// Mathematical view of a `Config`.
#[verifier::ext_equal]
pub ghost struct ConfigModel {
    pub admin: Seq<char>,
    pub service_fee_rate: FeeRate,
    pub min_bet_amount: u128,
    pub max_bet_amount: u128,
    pub bet_denom: Seq<char>,
    pub paused: bool,
    pub pause_requested: bool,
}

impl View for Config {
    type V = ConfigModel;

    open spec fn view(&self) -> ConfigModel {
        ConfigModel {
            admin: self.admin@,
            service_fee_rate: self.service_fee_rate,
            min_bet_amount: self.min_bet_amount,
            max_bet_amount: self.max_bet_amount,
            bet_denom: self.bet_denom@,
            paused: self.paused,
            pause_requested: self.pause_requested,
        }
    }
}

impl ConfigModel {
    /// A configuration is valid when its fee rate is at most one and the bet
    /// bounds are ordered.
    pub open spec fn wf(self) -> bool {
        &&& self.service_fee_rate.wf()
        &&& self.min_bet_amount < self.max_bet_amount
    }
}

/// One participant's record within a session.
#[derive(Clone, Debug, PartialEq, Eq)]
pub struct Participant {
    pub address: String,
    pub bet_amount: u128,
    pub lucky_numbers: Vec<u16>,
    pub random_seed: Option<String>,
    pub revealed: bool,
    pub commitment_hash: Option<String>,
    pub bet_time: u64,
    pub reveal_time: Option<u64>,
}

#[verifier::ext_equal]
pub ghost struct ParticipantModel {
    pub address: Seq<char>,
    pub bet_amount: u128,
    pub lucky_numbers: Seq<u16>,
    pub random_seed: Option<Seq<char>>,
    pub revealed: bool,
    pub commitment_hash: Option<Seq<char>>,
    pub bet_time: u64,
    pub reveal_time: Option<u64>,
}

impl View for Participant {
    type V = ParticipantModel;

    open spec fn view(&self) -> ParticipantModel {
        ParticipantModel {
            address: self.address@,
            bet_amount: self.bet_amount,
            lucky_numbers: self.lucky_numbers@,
            random_seed: match self.random_seed {
                Some(s) => Some(s@),
                None => None,
            },
            revealed: self.revealed,
            commitment_hash: match self.commitment_hash {
                Some(h) => Some(h@),
                None => None,
            },
            bet_time: self.bet_time,
            reveal_time: self.reveal_time,
        }
    }
}

/// A sealed pledge: hash and paid amount, recorded at commitment time.
#[derive(Clone, Debug, PartialEq, Eq)]
pub struct Commitment {
    pub participant: String,
    pub commitment_hash: String,
    pub bet_amount: u128,
    pub submitted_at: u64,
}

#[verifier::ext_equal]
pub ghost struct CommitmentModel {
    pub participant: Seq<char>,
    pub commitment_hash: Seq<char>,
    pub bet_amount: u128,
    pub submitted_at: u64,
}

impl View for Commitment {
    type V = CommitmentModel;

    open spec fn view(&self) -> CommitmentModel {
        CommitmentModel {
            participant: self.participant@,
            commitment_hash: self.commitment_hash@,
            bet_amount: self.bet_amount,
            submitted_at: self.submitted_at,
        }
    }
}

/// One matched ticket, with its prize once rewards are distributed.
#[derive(Clone, Debug, PartialEq, Eq)]
pub struct Winner {
    pub address: String,
    pub level: u8,
    pub match_count: u8,
    pub reward_amount: u128,
}

#[verifier::ext_equal]
pub ghost struct WinnerModel {
    pub address: Seq<char>,
    pub level: u8,
    pub match_count: u8,
    pub reward_amount: u128,
}

impl View for Winner {
    type V = WinnerModel;

    open spec fn view(&self) -> WinnerModel {
        WinnerModel {
            address: self.address@,
            level: self.level,
            match_count: self.match_count,
            reward_amount: self.reward_amount,
        }
    }
}

/// An archived settlement outcome, permanent once written.
#[derive(Clone, Debug, PartialEq, Eq)]
pub struct LotteryResult {
    pub session_id: String,
    pub winning_number: u16,
    pub total_pool: u128,
    pub service_fee: u128,
    pub reward_pool: u128,
    pub winners: Vec<Winner>,
    pub settled_at: u64,
    pub settled_height: u64,
}

#[verifier::ext_equal]
pub ghost struct LotteryResultModel {
    pub session_id: Seq<char>,
    pub winning_number: u16,
    pub total_pool: u128,
    pub service_fee: u128,
    pub reward_pool: u128,
    pub winners: Seq<WinnerModel>,
    pub settled_at: u64,
    pub settled_height: u64,
}

impl View for LotteryResult {
    type V = LotteryResultModel;

    open spec fn view(&self) -> LotteryResultModel {
        LotteryResultModel {
            session_id: self.session_id@,
            winning_number: self.winning_number,
            total_pool: self.total_pool,
            service_fee: self.service_fee,
            reward_pool: self.reward_pool,
            winners: self.winners@.map_values(|w: Winner| w@),
            settled_at: self.settled_at,
            settled_height: self.settled_height,
        }
    }
}

/// Running totals across all sessions.
#[derive(Clone, Copy, Debug, PartialEq, Eq, Structural)]
pub struct Stats {
    pub total_sessions: u64,
    pub total_participants: u64,
    pub total_pool: u128,
    pub total_service_fee: u128,
    pub total_rewards: u128,
    pub last_updated: u64,
}

/// One lottery cycle's mutable ledger.
#[derive(Clone, Debug, PartialEq, Eq)]
pub struct LotterySession {
    pub session_id: String,
    pub phase: LotteryPhase,
    pub total_pool: u128,
    pub service_fee: u128,
    pub participants: Vec<Participant>,
    pub created_height: u64,
    pub winning_number: Option<u16>,
    pub settled: bool,
}

#[verifier::ext_equal]
pub ghost struct LotterySessionModel {
    pub session_id: Seq<char>,
    pub phase: LotteryPhase,
    pub total_pool: u128,
    pub service_fee: u128,
    pub participants: Seq<ParticipantModel>,
    pub created_height: u64,
    pub winning_number: Option<u16>,
    pub settled: bool,
}

impl View for LotterySession {
    type V = LotterySessionModel;

    open spec fn view(&self) -> LotterySessionModel {
        LotterySessionModel {
            session_id: self.session_id@,
            phase: self.phase,
            total_pool: self.total_pool,
            service_fee: self.service_fee,
            participants: self.participants@.map_values(|p: Participant| p@),
            created_height: self.created_height,
            winning_number: self.winning_number,
            settled: self.settled,
        }
    }
}

/// The whole persisted state of the lottery, as one value: configuration,
/// the current session, all commitments, the archived history, statistics
/// and the reentrancy latch.
#[derive(Clone, Debug, PartialEq, Eq)]
pub struct LotteryState {
    pub config: Config,
    pub current_session: Option<LotterySession>,
    pub commitments: Vec<Commitment>,
    pub history: Vec<LotteryResult>,
    pub stats: Stats,
    pub reentrancy_lock: bool,
}

#[verifier::ext_equal]
pub ghost struct LotteryStateModel {
    pub config: ConfigModel,
    pub current_session: Option<LotterySessionModel>,
    pub commitments: Seq<CommitmentModel>,
    pub history: Seq<LotteryResultModel>,
    pub stats: Stats,
    pub reentrancy_lock: bool,
}

impl View for LotteryState {
    type V = LotteryStateModel;

    open spec fn view(&self) -> LotteryStateModel {
        LotteryStateModel {
            config: self.config@,
            current_session: match self.current_session {
                Some(s) => Some(s@),
                None => None,
            },
            commitments: self.commitments@.map_values(|c: Commitment| c@),
            history: self.history@.map_values(|r: LotteryResult| r@),
            stats: self.stats,
            reentrancy_lock: self.reentrancy_lock,
        }
    }
}

/// The total of all bets in a roster.
pub open spec fn sum_bets(ps: Seq<ParticipantModel>) -> int
    decreases ps.len(),
{
    if ps.len() == 0 {
        0
    } else {
        sum_bets(ps.drop_last()) + ps.last().bet_amount
    }
}

/// Whether some roster entry belongs to `who`.
pub open spec fn roster_has(ps: Seq<ParticipantModel>, who: Seq<char>) -> bool {
    exists|i: int| 0 <= i < ps.len() && ps[i].address == who
}

/// The index of the first roster entry belonging to `who`.
pub open spec fn roster_index(ps: Seq<ParticipantModel>, who: Seq<char>) -> int {
    choose|i: int| 0 <= i < ps.len() && ps[i].address == who && forall|j: int|
        0 <= j < i ==> ps[j].address != who
}

/// Every roster entry has a distinct address.
pub open spec fn roster_unique(ps: Seq<ParticipantModel>) -> bool {
    forall|i: int, j: int| 0 <= i < j < ps.len() ==> ps[i].address != ps[j].address
}

/// Whether a commitment is stored for `who`.
pub open spec fn commitments_have(cs: Seq<CommitmentModel>, who: Seq<char>) -> bool {
    exists|i: int| 0 <= i < cs.len() && cs[i].participant == who
}

/// Every stored commitment belongs to a distinct participant.
pub open spec fn commitments_unique(cs: Seq<CommitmentModel>) -> bool {
    forall|i: int, j: int| 0 <= i < j < cs.len() ==> cs[i].participant != cs[j].participant
}

/// Whether a result under the given session id is archived.
pub open spec fn history_has(hs: Seq<LotteryResultModel>, session_id: Seq<char>) -> bool {
    exists|i: int| 0 <= i < hs.len() && hs[i].session_id == session_id
}

/// The index of the archived result with the given session id (unique by
/// the invariant).
pub open spec fn history_index_of(hs: Seq<LotteryResultModel>, session_id: Seq<char>) -> int {
    choose|i: int| 0 <= i < hs.len() && hs[i].session_id == session_id
}

/// Every archived result has a distinct session id.
pub open spec fn history_unique(hs: Seq<LotteryResultModel>) -> bool {
    forall|i: int, j: int| 0 <= i < j < hs.len() ==> hs[i].session_id != hs[j].session_id
}

/// An element-wise copy of a list of numbers.
pub fn clone_numbers(v: &Vec<u16>) -> (r: Vec<u16>)
    ensures
        r@ == v@,
{
    let mut r: Vec<u16> = Vec::new();
    let n = v.len();
    for i in 0..n
        invariant
            n == v@.len(),
            r@ =~= v@.subrange(0, i as int),
    {
        r.push(v[i]);
        proof {
            assert(r@ =~= v@.subrange(0, i + 1));
        }
    }
    proof {
        assert(v@.subrange(0, n as int) =~= v@);
    }
    r
}

impl Config {
    /// A copy with the same mathematical view.
    pub fn snapshot(&self) -> (r: Config)
        ensures
            r@ == self@,
    {
        Config {
            admin: self.admin.clone(),
            service_fee_rate: self.service_fee_rate,
            min_bet_amount: self.min_bet_amount,
            max_bet_amount: self.max_bet_amount,
            bet_denom: self.bet_denom.clone(),
            paused: self.paused,
            pause_requested: self.pause_requested,
        }
    }
}

impl Participant {
    /// A copy with the same mathematical view.
    pub fn snapshot(&self) -> (r: Participant)
        ensures
            r@ == self@,
    {
        let r = Participant {
            address: self.address.clone(),
            bet_amount: self.bet_amount,
            lucky_numbers: clone_numbers(&self.lucky_numbers),
            random_seed: match &self.random_seed {
                Some(s) => Some(s.clone()),
                None => None,
            },
            revealed: self.revealed,
            commitment_hash: match &self.commitment_hash {
                Some(h) => Some(h.clone()),
                None => None,
            },
            bet_time: self.bet_time,
            reveal_time: self.reveal_time,
        };
        proof {
            assert(r@ =~= self@);
        }
        r
    }
}

/// An element-wise copy of a roster, with the same views.
pub fn clone_participants(v: &Vec<Participant>) -> (r: Vec<Participant>)
    ensures
        r@.map_values(|p: Participant| p@) == v@.map_values(|p: Participant| p@),
{
    let mut r: Vec<Participant> = Vec::new();
    let n = v.len();
    proof {
        assert(r@.map_values(|p: Participant| p@) =~= v@.map_values(|p: Participant| p@).subrange(
            0,
            0,
        ));
    }
    for i in 0..n
        invariant
            n == v@.len(),
            r@.map_values(|p: Participant| p@) =~= v@.map_values(|p: Participant| p@).subrange(
                0,
                i as int,
            ),
    {
        let element = v[i].snapshot();
        let ghost element_model = element@;
        let ghost before = r@;
        r.push(element);
        proof {
            assert(element_model == v@[i as int]@);
            assert(r@ =~= before.push(element));
            assert(r@.map_values(|p: Participant| p@) =~= before.map_values(
                |p: Participant| p@,
            ).push(element_model));
            assert(r@.map_values(|p: Participant| p@) =~= v@.map_values(
                |p: Participant| p@,
            ).subrange(0, i + 1));
        }
    }
    proof {
        assert(v@.map_values(|p: Participant| p@).subrange(0, n as int) =~= v@.map_values(
            |p: Participant| p@,
        ));
    }
    r
}

impl Winner {
    /// A copy with the same mathematical view.
    pub fn snapshot(&self) -> (r: Winner)
        ensures
            r@ == self@,
    {
        Winner {
            address: self.address.clone(),
            level: self.level,
            match_count: self.match_count,
            reward_amount: self.reward_amount,
        }
    }
}

/// An element-wise copy of a winner list, with the same views.
pub fn clone_winners(v: &Vec<Winner>) -> (r: Vec<Winner>)
    ensures
        r@.map_values(|w: Winner| w@) == v@.map_values(|w: Winner| w@),
{
    let mut r: Vec<Winner> = Vec::new();
    let n = v.len();
    proof {
        assert(r@.map_values(|w: Winner| w@) =~= v@.map_values(|w: Winner| w@).subrange(0, 0));
    }
    for i in 0..n
        invariant
            n == v@.len(),
            r@.map_values(|w: Winner| w@) =~= v@.map_values(|w: Winner| w@).subrange(0, i as int),
    {
        let element = v[i].snapshot();
        let ghost element_model = element@;
        let ghost before = r@;
        r.push(element);
        proof {
            assert(element_model == v@[i as int]@);
            assert(r@ =~= before.push(element));
            assert(r@.map_values(|w: Winner| w@) =~= before.map_values(|w: Winner| w@).push(
                element_model,
            ));
            assert(r@.map_values(|w: Winner| w@) =~= v@.map_values(|w: Winner| w@).subrange(
                0,
                i + 1,
            ));
        }
    }
    proof {
        assert(v@.map_values(|w: Winner| w@).subrange(0, n as int) =~= v@.map_values(
            |w: Winner| w@,
        ));
    }
    r
}

impl LotteryResult {
    /// A copy with the same mathematical view.
    pub fn snapshot(&self) -> (r: LotteryResult)
        ensures
            r@ == self@,
    {
        let r = LotteryResult {
            session_id: self.session_id.clone(),
            winning_number: self.winning_number,
            total_pool: self.total_pool,
            service_fee: self.service_fee,
            reward_pool: self.reward_pool,
            winners: clone_winners(&self.winners),
            settled_at: self.settled_at,
            settled_height: self.settled_height,
        };
        proof {
            assert(r@ =~= self@);
        }
        r
    }
}

impl LotterySession {
    /// A copy with the same mathematical view.
    pub fn snapshot(&self) -> (r: LotterySession)
        ensures
            r@ == self@,
    {
        let r = LotterySession {
            session_id: self.session_id.clone(),
            phase: self.phase,
            total_pool: self.total_pool,
            service_fee: self.service_fee,
            participants: clone_participants(&self.participants),
            created_height: self.created_height,
            winning_number: self.winning_number,
            settled: self.settled,
        };
        proof {
            assert(r@ =~= self@);
        }
        r
    }
}

impl LotterySessionModel {
    /// The session ledger invariant: the pool is exactly the sum of the
    /// recorded bets, the accrued fee never exceeds the pool, and each
    /// participant appears at most once.
    pub open spec fn wf(self) -> bool {
        &&& self.total_pool == sum_bets(self.participants)
        &&& self.service_fee <= self.total_pool
        &&& roster_unique(self.participants)
        // a reveal carries at most 1000000 betting codes, so every stored
        // list stays below that bound (and in particular within u32)
        &&& forall|i: int|
            0 <= i < self.participants.len() ==> #[trigger] self.participants[i].lucky_numbers.len()
                <= 1000000
    }
}

impl LotteryStateModel {
    /// The global state invariant, preserved by every operation.
    pub open spec fn wf(self) -> bool {
        &&& self.config.wf()
        &&& commitments_unique(self.commitments)
        &&& history_unique(self.history)
        &&& match self.current_session {
            Some(s) => s.wf() && s.total_pool <= self.stats.total_pool,
            None => true,
        }
        &&& self.stats.total_service_fee <= self.stats.total_pool
    }
}

} // verus!
