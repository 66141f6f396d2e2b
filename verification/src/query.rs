//! Read-only queries: pure functions over the current state. None of them
//! mutates the ledger, and each returns copies with the same mathematical
//! view as the stored data.

use vstd::prelude::*;

use crate::msg::{
    ConfigResponse, CurrentSessionResponse, LotteryHistoryResponse, LotteryResultResponse,
    ParticipantResponse, ParticipantsResponse, PhaseResponse, QueryMsg, StatsResponse,
    VersionResponse,
};
use crate::state::{
    clone_participants, commitments_have, history_has, history_index_of, phase_at, roster_has,
    roster_index, LotteryPhase, LotteryResult, LotteryResultModel, LotteryState, LotteryStateModel,
    Participant, ParticipantModel, CYCLE_LENGTH,
};

verus! {

/// The roster record a participant query answers with: the participant's
/// entry in the current session, provided a commitment exists for them.
pub open spec fn participant_info_of(s: LotteryStateModel, who: Seq<char>) -> Option<
    ParticipantModel,
> {
    if commitments_have(s.commitments, who) {
        match s.current_session {
            Some(sess) => if roster_has(sess.participants, who) {
                Some(sess.participants[roster_index(sess.participants, who)])
            } else {
                None
            },
            None => None,
        }
    } else {
        None
    }
}

/// The archived results a history query answers with: the newest `count`
/// entries, most recent first.
pub open spec fn history_page(hs: Seq<LotteryResultModel>, count: int) -> Seq<LotteryResultModel> {
    Seq::new(count as nat, |i: int| hs[hs.len() - 1 - i])
}

/// The number of history entries a query with the given limit returns.
pub open spec fn history_page_len(hs: Seq<LotteryResultModel>, limit: Option<u32>) -> int {
    let lim: int = match limit {
        Some(l) => if l > 100 {
            100
        } else {
            l as int
        },
        None => 30,
    };
    if lim <= hs.len() {
        lim
    } else {
        hs.len() as int
    }
}

/// The current session (a copy), the phase, and the clock value.
pub fn query_current_session(state: &LotteryState, height: u64) -> (r: CurrentSessionResponse)
    ensures
        match state@.current_session {
            Some(sess) => r.session is Some && r.session->0@ == sess,
            None => r.session is None,
        },
        r.phase == phase_at(height),
        r.block_height == height,
{
    let session = match state.current_session.as_ref() {
        Some(sess) => Some(sess.snapshot()),
        None => None,
    };
    CurrentSessionResponse {
        session,
        phase: LotteryPhase::from_block_height(height),
        block_height: height,
    }
}

/// A participant's roster record, if they committed and stand in the
/// current session.
pub fn query_participant_info(state: &LotteryState, participant: &String) -> (r:
    ParticipantResponse)
    requires
        state@.wf(),
    ensures
        match participant_info_of(state@, participant@) {
            Some(p) => r.participant is Some && r.participant->0@ == p,
            None => r.participant is None,
        },
{
    let has_commitment = match crate::execute::find_commitment_index(&state.commitments, participant) {
        Some(_) => true,
        None => false,
    };
    if !has_commitment {
        return ParticipantResponse { participant: None };
    }
    match state.current_session.as_ref() {
        Some(sess) => {
            match crate::execute::find_roster_index(&sess.participants, participant) {
                Some(i) => ParticipantResponse { participant: Some(sess.participants[i].snapshot()) },
                None => ParticipantResponse { participant: None },
            }
        },
        None => ParticipantResponse { participant: None },
    }
}

/// The archived result for a session id, if one exists.
pub fn query_lottery_result(state: &LotteryState, session_id: &String) -> (r: LotteryResultResponse)
    requires
        state@.wf(),
    ensures
        history_has(state@.history, session_id@) ==> r.result is Some && r.result->0@
            == state@.history[history_index_of(state@.history, session_id@)],
        !history_has(state@.history, session_id@) ==> r.result is None,
{
    match crate::execute::find_history_index(&state.history, session_id) {
        Some(i) => LotteryResultResponse { result: Some(state.history[i].snapshot()) },
        None => LotteryResultResponse { result: None },
    }
}

/// The current phase and the clock facts behind it.
pub fn query_current_phase(height: u64) -> (r: PhaseResponse)
    ensures
        r.phase == phase_at(height),
        r.block_height == height,
        r.phase_mod == height % CYCLE_LENGTH,
{
    PhaseResponse {
        phase: LotteryPhase::from_block_height(height),
        block_height: height,
        phase_mod: height % CYCLE_LENGTH,
    }
}

/// The configuration (a copy).
pub fn query_config(state: &LotteryState) -> (r: ConfigResponse)
    ensures
        r.config@ == state@.config,
{
    ConfigResponse { config: state.config.snapshot() }
}

/// A page of the archived history: the newest results first, at most the
/// given limit (default 30, capped at 100).
pub fn query_lottery_history(
    state: &LotteryState,
    limit: Option<u32>,
    start_after: Option<String>,
) -> (r: LotteryHistoryResponse)
    ensures
        ({
            let count = history_page_len(state@.history, limit);
            &&& r.results@.map_values(|h: LotteryResult| h@) == history_page(state@.history, count)
            &&& r.total == count
        }),
{
    let _ = start_after;
    let lim_u32: u32 = match limit {
        Some(l) => if l > 100 {
            100
        } else {
            l
        },
        None => 30,
    };
    let mut lim: usize = lim_u32 as usize;
    if lim > state.history.len() {
        lim = state.history.len();
    }
    let ghost hs = state@.history;
    let mut results: Vec<LotteryResult> = Vec::new();
    proof {
        assert(results@.map_values(|h: LotteryResult| h@) =~= history_page(hs, 0));
    }
    for i in 0..lim
        invariant
            lim <= state.history@.len(),
            hs == state@.history,
            results@.map_values(|h: LotteryResult| h@) =~= history_page(hs, i as int),
    {
        let idx = state.history.len() - 1 - i;
        let element = state.history[idx].snapshot();
        let ghost element_model = element@;
        let ghost before = results@;
        results.push(element);
        proof {
            assert(element_model == hs[hs.len() - 1 - i]);
            assert(results@ =~= before.push(element));
            assert(results@.map_values(|h: LotteryResult| h@) =~= before.map_values(
                |h: LotteryResult| h@,
            ).push(element_model));
            assert(results@.map_values(|h: LotteryResult| h@) =~= history_page(hs, i + 1));
        }
    }
    let total = results.len() as u32;
    LotteryHistoryResponse { results, total }
}

/// The full roster of the current session (copies).
pub fn query_participants(state: &LotteryState) -> (r: ParticipantsResponse)
    requires
        state@.wf(),
        match state@.current_session {
            Some(sess) => sess.participants.len() <= u32::MAX,
            None => true,
        },
    ensures
        match state@.current_session {
            Some(sess) => r.participants@.map_values(|p: Participant| p@) == sess.participants
                && r.total == sess.participants.len(),
            None => r.participants@.len() == 0 && r.total == 0,
        },
{
    match state.current_session.as_ref() {
        Some(sess) => {
            let participants = clone_participants(&sess.participants);
            let total = participants.len() as u32;
            ParticipantsResponse { participants, total }
        },
        None => ParticipantsResponse { participants: Vec::new(), total: 0 },
    }
}

/// The running statistics.
pub fn query_stats(state: &LotteryState) -> (r: StatsResponse)
    ensures
        r.total_sessions == state@.stats.total_sessions,
        r.total_participants == state@.stats.total_participants,
        r.total_pool == state@.stats.total_pool,
        r.total_service_fee == state@.stats.total_service_fee,
        r.total_rewards == state@.stats.total_rewards,
{
    StatsResponse {
        total_sessions: state.stats.total_sessions,
        total_participants: state.stats.total_participants,
        total_pool: state.stats.total_pool,
        total_service_fee: state.stats.total_service_fee,
        total_rewards: state.stats.total_rewards,
    }
}

/// The build identifiers.
pub fn query_version() -> (r: VersionResponse)
    ensures
        r.contract_name@ == "dd-3d-lottery"@,
        r.contract_version@ == "0.1.0"@,
{
    VersionResponse {
        contract_name: String::from_str("dd-3d-lottery"),
        contract_version: String::from_str("0.1.0"),
    }
}

/// One answer per query message.
pub enum QueryAnswer {
    CurrentSession(CurrentSessionResponse),
    ParticipantInfo(ParticipantResponse),
    LotteryResult(LotteryResultResponse),
    CurrentPhase(PhaseResponse),
    Config(ConfigResponse),
    LotteryHistory(LotteryHistoryResponse),
    Participants(ParticipantsResponse),
    Stats(StatsResponse),
    Version(VersionResponse),
}

/// Dispatch one read-only query.
pub fn query(state: &LotteryState, height: u64, msg: QueryMsg) -> (r: QueryAnswer)
    requires
        state@.wf(),
        match state@.current_session {
            Some(sess) => sess.participants.len() <= u32::MAX,
            None => true,
        },
    ensures
        match msg {
            QueryMsg::GetCurrentSession {  } => r matches QueryAnswer::CurrentSession(s)
                && s.block_height == height && s.phase == phase_at(height) && (match
                state@.current_session {
                Some(sess) => s.session is Some && s.session->0@ == sess,
                None => s.session is None,
            }),
            QueryMsg::GetParticipantInfo { participant } => r matches QueryAnswer::ParticipantInfo(
                p,
            ) && (match participant_info_of(state@, participant@) {
                Some(m) => p.participant is Some && p.participant->0@ == m,
                None => p.participant is None,
            }),
            QueryMsg::GetLotteryResult { session_id } => r matches QueryAnswer::LotteryResult(res)
                && (if history_has(state@.history, session_id@) {
                res.result is Some && res.result->0@ == state@.history[history_index_of(
                    state@.history,
                    session_id@,
                )]
            } else {
                res.result is None
            }),
            QueryMsg::GetCurrentPhase {  } => r matches QueryAnswer::CurrentPhase(p) && p.phase
                == phase_at(height) && p.block_height == height && p.phase_mod == height
                % CYCLE_LENGTH,
            QueryMsg::GetConfig {  } => r matches QueryAnswer::Config(c) && c.config@
                == state@.config,
            QueryMsg::GetLotteryHistory { limit, start_after } => r matches
                QueryAnswer::LotteryHistory(h) && ({
                let count = history_page_len(state@.history, limit);
                h.results@.map_values(|x: LotteryResult| x@) == history_page(state@.history, count)
                    && h.total == count
            }),
            QueryMsg::GetParticipants {  } => r matches QueryAnswer::Participants(p) && (match
                state@.current_session {
                Some(sess) => p.participants@.map_values(|x: Participant| x@) == sess.participants
                    && p.total == sess.participants.len(),
                None => p.participants@.len() == 0 && p.total == 0,
            }),
            QueryMsg::GetStats {  } => r matches QueryAnswer::Stats(s) && s.total_sessions
                == state@.stats.total_sessions && s.total_participants
                == state@.stats.total_participants && s.total_pool == state@.stats.total_pool
                && s.total_service_fee == state@.stats.total_service_fee && s.total_rewards
                == state@.stats.total_rewards,
            QueryMsg::GetVersion {  } => r matches QueryAnswer::Version(v) && v.contract_name@
                == "dd-3d-lottery"@ && v.contract_version@ == "0.1.0"@,
        },
{
    match msg {
        QueryMsg::GetCurrentSession {  } => QueryAnswer::CurrentSession(
            query_current_session(state, height),
        ),
        QueryMsg::GetParticipantInfo { participant } => QueryAnswer::ParticipantInfo(
            query_participant_info(state, &participant),
        ),
        QueryMsg::GetLotteryResult { session_id } => QueryAnswer::LotteryResult(
            query_lottery_result(state, &session_id),
        ),
        QueryMsg::GetCurrentPhase {  } => QueryAnswer::CurrentPhase(query_current_phase(height)),
        QueryMsg::GetConfig {  } => QueryAnswer::Config(query_config(state)),
        QueryMsg::GetLotteryHistory { limit, start_after } => QueryAnswer::LotteryHistory(
            query_lottery_history(state, limit, start_after),
        ),
        QueryMsg::GetParticipants {  } => QueryAnswer::Participants(query_participants(state)),
        QueryMsg::GetStats {  } => QueryAnswer::Stats(query_stats(state)),
        QueryMsg::GetVersion {  } => QueryAnswer::Version(query_version()),
    }
}

} // verus!
