//! The phase-gated state machine: bet placement, reveal, settlement, and
//! the admin operations. Every operation is specified as a total function
//! from the old state model to either an error (leaving the state unchanged)
//! or the new state model, and every operation preserves the state invariant.

use vstd::prelude::*;

use crate::arith::{lemma_mul_ratio_le, mul_ratio, multiply_ratio_floor};
use crate::crypto::{append_decimal, dec_chars, is_hex64};
use crate::error::{ContractError, LuckyNumbersError};
use crate::lottery_logic::{
    all_in_range, within_concentration_cap, LotteryLogic, MAX_BETTING_CODES, MAX_COMMITMENT_BET,
    MAX_LUCKY_NUMBER, MAX_SINGLE_NUMBER_COUNT, MIN_COMMITMENT_BET,
};
use crate::msg::{Coin, CoinModel, MessageInfo, MessageInfoModel};
use crate::phase_manager::PhaseManager;
use crate::reward_system::RewardSystem;
use crate::state::{
    commitments_have, commitments_unique, history_has, history_index_of, history_unique, phase_at,
    roster_has, roster_unique, sum_bets, Commitment, CommitmentModel, LotteryPhase,
    LotteryResult, LotteryResultModel, LotterySession, LotterySessionModel, LotteryState,
    LotteryStateModel, Participant, ParticipantModel, Stats, CYCLE_LENGTH,
};

verus! {

/// The session-compatibility lattice: a session created in some phase may be
/// used in that phase and (for commitment and reveal sessions) the next one.
pub open spec fn session_compatible(
    session_phase: LotteryPhase,
    current_phase: LotteryPhase,
) -> bool {
    match (session_phase, current_phase) {
        (LotteryPhase::Commitment, LotteryPhase::Commitment) => true,
        (LotteryPhase::Commitment, LotteryPhase::Reveal) => true,
        (LotteryPhase::Reveal, LotteryPhase::Reveal) => true,
        (LotteryPhase::Reveal, LotteryPhase::Settlement) => true,
        (LotteryPhase::Settlement, LotteryPhase::Settlement) => true,
        _ => false,
    }
}

/// Whether a session created in `session_phase` may still be used while the
/// clock stands in `current_phase`.
pub fn is_session_phase_compatible(
    session_phase: &LotteryPhase,
    current_phase: &LotteryPhase,
) -> (r: bool)
    ensures
        r == session_compatible(*session_phase, *current_phase),
{
    match (session_phase, current_phase) {
        (LotteryPhase::Commitment, LotteryPhase::Commitment) => true,
        (LotteryPhase::Commitment, LotteryPhase::Reveal) => true,
        (LotteryPhase::Reveal, LotteryPhase::Reveal) => true,
        (LotteryPhase::Reveal, LotteryPhase::Settlement) => true,
        (LotteryPhase::Settlement, LotteryPhase::Settlement) => true,
        _ => false,
    }
}

/// The amount of the accepted denomination among the attached funds: the
/// first matching coin counts, and no matching coin means zero.
pub open spec fn bet_amount_in(funds: Seq<CoinModel>, denom: Seq<char>) -> u128
    decreases funds.len(),
{
    if funds.len() == 0 {
        0
    } else if funds.first().denom == denom {
        funds.first().amount
    } else {
        bet_amount_in(funds.drop_first(), denom)
    }
}

/// Find the attached amount of the accepted denomination.
fn find_bet_amount(funds: &Vec<Coin>, denom: &String) -> (amount: u128)
    ensures
        amount == bet_amount_in(funds@.map_values(|c: Coin| c@), denom@),
{
    let ghost all = funds@.map_values(|c: Coin| c@);
    let n = funds.len();
    assert(all.skip(0) =~= all);
    for i in 0..n
        invariant
            n == funds@.len(),
            all == funds@.map_values(|c: Coin| c@),
            bet_amount_in(all, denom@) == bet_amount_in(all.skip(i as int), denom@),
    {
        proof {
            assert(all.skip(i as int).first() == all[i as int]);
            assert(all.skip(i as int).drop_first() =~= all.skip(i + 1));
        }
        if funds[i].denom == *denom {
            return funds[i].amount;
        }
    }
    proof {
        assert(all.skip(n as int) =~= Seq::<CoinModel>::empty());
    }
    0
}

/// The identifier of the session created at a given height.
pub open spec fn session_id_chars(height: u64) -> Seq<char> {
    "global_session_"@ + dec_chars(height as nat)
}

fn make_session_id(height: u64) -> (s: String)
    ensures
        s@ == session_id_chars(height),
{
    let mut s = String::from_str("global_session_");
    append_decimal(&mut s, height as u128);
    s
}

/// The empty session created by the first bet at `height`.
pub open spec fn fresh_session_model(height: u64) -> LotterySessionModel {
    LotterySessionModel {
        session_id: session_id_chars(height),
        phase: LotteryPhase::Commitment,
        total_pool: 0,
        service_fee: 0,
        participants: Seq::empty(),
        created_height: height,
        winning_number: None,
        settled: false,
    }
}

fn fresh_session(height: u64) -> (s: LotterySession)
    ensures
        s@ == fresh_session_model(height),
{
    let s = LotterySession {
        session_id: make_session_id(height),
        phase: LotteryPhase::Commitment,
        total_pool: 0,
        service_fee: 0,
        participants: Vec::new(),
        created_height: height,
        winning_number: None,
        settled: false,
    };
    proof {
        assert(s@ =~= fresh_session_model(height));
    }
    s
}

/// The index of the commitment stored for `who` (unique by the invariant).
pub open spec fn commitment_index_of(cs: Seq<CommitmentModel>, who: Seq<char>) -> int {
    choose|i: int| 0 <= i < cs.len() && cs[i].participant == who
}

/// Replace the commitment stored for the same participant, or append a new
/// one.
pub open spec fn upsert_commitment(cs: Seq<CommitmentModel>, c: CommitmentModel) -> Seq<
    CommitmentModel,
> {
    if commitments_have(cs, c.participant) {
        cs.update(commitment_index_of(cs, c.participant), c)
    } else {
        cs.push(c)
    }
}

/// Find the index of the commitment stored for `who`.
pub(crate) fn find_commitment_index(commitments: &Vec<Commitment>, who: &String) -> (r: Option<usize>)
    requires
        commitments_unique(commitments@.map_values(|c: Commitment| c@)),
    ensures
        ({
            let cs = commitments@.map_values(|c: Commitment| c@);
            match r {
                Some(i) => commitments_have(cs, who@) && i == commitment_index_of(cs, who@) && 0
                    <= i < cs.len() && cs[i as int].participant == who@,
                None => !commitments_have(cs, who@),
            }
        }),
{
    let ghost cs = commitments@.map_values(|c: Commitment| c@);
    let n = commitments.len();
    for i in 0..n
        invariant
            n == commitments@.len(),
            cs == commitments@.map_values(|c: Commitment| c@),
            commitments_unique(cs),
            forall|j: int| 0 <= j < i ==> #[trigger] cs[j].participant != who@,
    {
        if commitments[i].participant == *who {
            proof {
                assert(cs[i as int].participant == who@);
                let k = commitment_index_of(cs, who@);
                assert(0 <= k < cs.len() && cs[k].participant == who@);
                if k < i as int {
                    assert(cs[k].participant != cs[i as int].participant);
                } else if k > i as int {
                    assert(cs[i as int].participant != cs[k].participant);
                }
            }
            return Some(i);
        }
    }
    None
}

/// Find the roster index of `who` (unique by the session invariant).
pub(crate) fn find_roster_index(participants: &Vec<Participant>, who: &String) -> (r: Option<usize>)
    requires
        roster_unique(participants@.map_values(|p: Participant| p@)),
    ensures
        ({
            let ps = participants@.map_values(|p: Participant| p@);
            match r {
                Some(i) => roster_has(ps, who@) && i == crate::state::roster_index(ps, who@) && 0
                    <= i < ps.len() && ps[i as int].address == who@,
                None => !roster_has(ps, who@),
            }
        }),
{
    let ghost ps = participants@.map_values(|p: Participant| p@);
    let n = participants.len();
    for i in 0..n
        invariant
            n == participants@.len(),
            ps == participants@.map_values(|p: Participant| p@),
            roster_unique(ps),
            forall|j: int| 0 <= j < i ==> #[trigger] ps[j].address != who@,
    {
        if participants[i].address == *who {
            proof {
                assert(ps[i as int].address == who@);
                let k = crate::state::roster_index(ps, who@);
                assert(0 <= k < ps.len() && ps[k].address == who@);
                if k < i as int {
                    assert(ps[k].address != ps[i as int].address);
                } else if k > i as int {
                    assert(ps[i as int].address != ps[k].address);
                }
            }
            return Some(i);
        }
    }
    None
}

/// The session a commitment-phase bet lands in: the current unsettled
/// session, or a fresh one when none exists or the last one is settled.
pub open spec fn bet_target_session(s: LotteryStateModel, height: u64) -> LotterySessionModel {
    match s.current_session {
        Some(sess) => if sess.settled {
            fresh_session_model(height)
        } else {
            sess
        },
        None => fresh_session_model(height),
    }
}

/// The roster record a bet creates: an empty number list, sealed behind the
/// commitment hash, not yet revealed.
pub open spec fn new_participant_model(
    sender: Seq<char>,
    amount: u128,
    hash: Seq<char>,
    time: u64,
) -> ParticipantModel {
    ParticipantModel {
        address: sender,
        bet_amount: amount,
        lucky_numbers: Seq::empty(),
        random_seed: None,
        revealed: false,
        commitment_hash: Some(hash),
        bet_time: time,
        reveal_time: None,
    }
}

/// Which error, if any, a bet placement fails with.
pub open spec fn place_bet_error(
    s: LotteryStateModel,
    height: u64,
    info: MessageInfoModel,
    hash: Seq<char>,
) -> Option<ContractError> {
    let amount = bet_amount_in(info.funds, s.config.bet_denom);
    let target = bet_target_session(s, height);
    if s.reentrancy_lock {
        Some(ContractError::ReentrancyDetected)
    } else if phase_at(height) != LotteryPhase::Commitment {
        Some(
            ContractError::InvalidPhase {
                expected: LotteryPhase::Commitment,
                actual: phase_at(height),
            },
        )
    } else if s.config.paused {
        Some(ContractError::ContractPaused)
    } else if s.config.pause_requested && height % CYCLE_LENGTH == 0 {
        Some(ContractError::ContractPaused)
    } else if amount < s.config.min_bet_amount || amount > s.config.max_bet_amount {
        Some(ContractError::InvalidBetAmount { amount })
    } else if roster_has(target.participants, info.sender) {
        Some(ContractError::ParticipantAlreadyExists)
    } else if !is_hex64(hash) {
        Some(ContractError::InvalidCommitmentHash)
    } else if amount < MIN_COMMITMENT_BET || amount > MAX_COMMITMENT_BET {
        Some(ContractError::InvalidBetAmount { amount })
    } else if !session_compatible(target.phase, phase_at(height)) {
        Some(ContractError::InvalidPhase { expected: target.phase, actual: phase_at(height) })
    } else {
        None
    }
}

/// The state after a successful bet placement.
pub open spec fn place_bet_next(
    s: LotteryStateModel,
    height: u64,
    time: u64,
    info: MessageInfoModel,
    hash: Seq<char>,
) -> LotteryStateModel {
    let amount = bet_amount_in(info.funds, s.config.bet_denom);
    let rate = s.config.service_fee_rate.atomics;
    let target = bet_target_session(s, height);
    let participant = new_participant_model(info.sender, amount, hash, time);
    let new_pool = (target.total_pool + amount) as u128;
    let session = LotterySessionModel {
        participants: target.participants.push(participant),
        total_pool: new_pool,
        service_fee: mul_ratio(new_pool, rate) as u128,
        ..target
    };
    let commitment = CommitmentModel {
        participant: info.sender,
        commitment_hash: hash,
        bet_amount: amount,
        submitted_at: time,
    };
    LotteryStateModel {
        config: s.config,
        current_session: Some(session),
        commitments: upsert_commitment(s.commitments, commitment),
        history: s.history,
        stats: Stats {
            total_sessions: s.stats.total_sessions,
            total_participants: (s.stats.total_participants + 1) as u64,
            total_pool: (s.stats.total_pool + amount) as u128,
            total_service_fee: (s.stats.total_service_fee + mul_ratio(amount, rate)) as u128,
            total_rewards: s.stats.total_rewards,
            last_updated: time,
        },
        reentrancy_lock: false,
    }
}

pub proof fn lemma_sum_bets_push(ps: Seq<ParticipantModel>, p: ParticipantModel)
    ensures
        sum_bets(ps.push(p)) == sum_bets(ps) + p.bet_amount,
{
    assert(ps.push(p).drop_last() =~= ps);
}

pub proof fn lemma_sum_bets_nonneg(ps: Seq<ParticipantModel>)
    ensures
        sum_bets(ps) >= 0,
    decreases ps.len(),
{
    if ps.len() > 0 {
        lemma_sum_bets_nonneg(ps.drop_last());
    }
}

/// Place a bet: guarded by the reentrancy latch, accepted only in the
/// commitment phase of an unpaused contract, with funds inside the
/// configured bounds and a well-formed sealed hash. On success the
/// participant joins the session roster, the commitment is stored, and pool,
/// fee and statistics are updated; on failure the state is unchanged.
pub fn place_bet(
    state: &mut LotteryState,
    height: u64,
    time: u64,
    info: &MessageInfo,
    commitment_hash: String,
) -> (r: Result<(), ContractError>)
    requires
        old(state)@.wf(),
        old(state)@.stats.total_pool + bet_amount_in(info@.funds, old(state)@.config.bet_denom)
            <= u128::MAX,
        old(state)@.stats.total_participants < u64::MAX,
    ensures
        match place_bet_error(old(state)@, height, info@, commitment_hash@) {
            Some(e) => r == Err::<(), ContractError>(e) && final(state)@ == old(state)@,
            None => r == Ok::<(), ContractError>(()) && final(state)@ == place_bet_next(
                old(state)@,
                height,
                time,
                info@,
                commitment_hash@,
            ),
        },
        final(state)@.wf(),
{
    if state.reentrancy_lock {
        proof {
            assert(state@ =~= old(state)@);
        }
        return Err(ContractError::ReentrancyDetected);
    }
    state.reentrancy_lock = true;

    let current_phase = LotteryPhase::from_block_height(height);
    if !matches!(current_phase, LotteryPhase::Commitment) {
        state.reentrancy_lock = false;
        proof {
            assert(state@ =~= old(state)@);
        }
        return Err(ContractError::invalid_phase(LotteryPhase::Commitment, current_phase));
    }

    if state.config.paused {
        state.reentrancy_lock = false;
        proof {
            assert(state@ =~= old(state)@);
        }
        return Err(ContractError::ContractPaused);
    }
    if state.config.pause_requested && PhaseManager::is_new_commitment_phase(height) {
        state.reentrancy_lock = false;
        proof {
            assert(state@ =~= old(state)@);
        }
        return Err(ContractError::ContractPaused);
    }

    let bet_amount = find_bet_amount(&info.funds, &state.config.bet_denom);
    if bet_amount < state.config.min_bet_amount || bet_amount > state.config.max_bet_amount {
        state.reentrancy_lock = false;
        proof {
            assert(state@ =~= old(state)@);
        }
        return Err(ContractError::invalid_bet_amount(bet_amount));
    }

    // examine the target session without disturbing it yet
    let ghost target_model = bet_target_session(old(state)@, height);
    let mut roster_conflict = false;
    let mut session_phase = LotteryPhase::Commitment;
    match state.current_session.as_ref() {
        Some(sess) => {
            if !sess.settled {
                session_phase = sess.phase;
                roster_conflict = find_roster_index(&sess.participants, &info.sender).is_some();
            }
        },
        None => {},
    }
    proof {
        assert(session_phase == target_model.phase);
        assert(roster_conflict == roster_has(target_model.participants, info@.sender));
    }

    if roster_conflict {
        state.reentrancy_lock = false;
        proof {
            assert(state@ =~= old(state)@);
        }
        return Err(ContractError::ParticipantAlreadyExists);
    }

    match LotteryLogic::validate_commitment_consistency(bet_amount, commitment_hash.as_str()) {
        Ok(()) => {},
        Err(e) => {
            state.reentrancy_lock = false;
            proof {
                assert(state@ =~= old(state)@);
            }
            return Err(e);
        },
    }

    if !is_session_phase_compatible(&session_phase, &current_phase) {
        state.reentrancy_lock = false;
        proof {
            assert(state@ =~= old(state)@);
        }
        return Err(ContractError::invalid_phase(session_phase, current_phase));
    }

    // all guards passed: take the session out and extend it
    let previous = state.current_session.take();
    let mut session: LotterySession = match previous {
        Some(sess) => {
            if sess.settled {
                fresh_session(height)
            } else {
                sess
            }
        },
        None => fresh_session(height),
    };
    proof {
        assert(session@ == target_model);
    }

    let participant = Participant {
        address: info.sender.clone(),
        bet_amount,
        lucky_numbers: Vec::new(),
        random_seed: None,
        revealed: false,
        commitment_hash: Some(commitment_hash.clone()),
        bet_time: time,
        reveal_time: None,
    };
    proof {
        assert(participant@ =~= new_participant_model(info@.sender, bet_amount, commitment_hash@, time));
        assert(session@.total_pool <= old(state)@.stats.total_pool) by {
            lemma_sum_bets_nonneg(session@.participants);
        }
    }
    let ghost roster_before = session@.participants;
    session.participants.push(participant);
    proof {
        assert(session@.participants =~= roster_before.push(
            new_participant_model(info@.sender, bet_amount, commitment_hash@, time),
        ));
        lemma_sum_bets_push(
            roster_before,
            new_participant_model(info@.sender, bet_amount, commitment_hash@, time),
        );
    }
    session.total_pool = session.total_pool + bet_amount;
    session.service_fee = multiply_ratio_floor(session.total_pool, state.config.service_fee_rate.atomics);

    // store or replace the commitment
    let commitment = Commitment {
        participant: info.sender.clone(),
        commitment_hash: commitment_hash,
        bet_amount,
        submitted_at: time,
    };
    let ghost commitment_model = commitment@;
    let ghost commitments_before = state.commitments@.map_values(|c: Commitment| c@);
    match find_commitment_index(&state.commitments, &info.sender) {
        Some(idx) => {
            state.commitments.set(idx, commitment);
            proof {
                assert(state.commitments@.map_values(|c: Commitment| c@) =~= upsert_commitment(
                    commitments_before,
                    commitment_model,
                ));
            }
        },
        None => {
            state.commitments.push(commitment);
            proof {
                assert(state.commitments@.map_values(|c: Commitment| c@) =~= upsert_commitment(
                    commitments_before,
                    commitment_model,
                ));
            }
        },
    }

    // update statistics
    proof {
        lemma_mul_ratio_le(bet_amount, state.config.service_fee_rate.atomics);
    }
    let fee_part = multiply_ratio_floor(bet_amount, state.config.service_fee_rate.atomics);
    state.stats.total_participants = state.stats.total_participants + 1;
    state.stats.total_pool = state.stats.total_pool + bet_amount;
    state.stats.total_service_fee = state.stats.total_service_fee + fee_part;
    state.stats.last_updated = time;

    state.current_session = Some(session);
    state.reentrancy_lock = false;

    proof {
        let next = place_bet_next(old(state)@, height, time, info@, commitment_hash@);
        assert(state@ =~= next);
        lemma_mul_ratio_le(
            next.current_session->Some_0.total_pool,
            old(state)@.config.service_fee_rate.atomics,
        );
        assert(forall|i: int, j: int|
            0 <= i < j < next.current_session->Some_0.participants.len()
                ==> next.current_session->Some_0.participants[i].address
                != next.current_session->Some_0.participants[j].address);
    }
    Ok(())
}

pub proof fn lemma_sum_bets_update(ps: Seq<ParticipantModel>, i: int, p: ParticipantModel)
    requires
        0 <= i < ps.len(),
    ensures
        sum_bets(ps.update(i, p)) == sum_bets(ps) - ps[i].bet_amount + p.bet_amount,
    decreases ps.len(),
{
    if i == ps.len() - 1 {
        assert(ps.update(i, p).drop_last() =~= ps.drop_last());
        assert(ps.update(i, p).last() == p);
    } else {
        assert(ps.update(i, p).drop_last() =~= ps.drop_last().update(i, p));
        lemma_sum_bets_update(ps.drop_last(), i, p);
        assert(ps.update(i, p).last() == ps.last());
    }
}

/// The roster record after a reveal: numbers and seed disclosed, marked
/// revealed, everything else unchanged.
pub open spec fn revealed_participant_model(
    p: ParticipantModel,
    numbers: Seq<u16>,
    seed: Seq<char>,
    time: u64,
) -> ParticipantModel {
    ParticipantModel {
        lucky_numbers: numbers,
        random_seed: Some(seed),
        revealed: true,
        reveal_time: Some(time),
        ..p
    }
}

/// Which error, if any, a reveal fails with.
pub open spec fn reveal_error(
    s: LotteryStateModel,
    height: u64,
    sender: Seq<char>,
    numbers: Seq<u16>,
    seed: Seq<char>,
) -> Option<ContractError> {
    if s.reentrancy_lock {
        Some(ContractError::ReentrancyDetected)
    } else if phase_at(height) != LotteryPhase::Reveal {
        Some(
            ContractError::InvalidPhase { expected: LotteryPhase::Reveal, actual: phase_at(height) },
        )
    } else if !all_in_range(numbers) {
        Some(ContractError::InvalidLuckyNumbers { reason: LuckyNumbersError::OutOfRange })
    } else if numbers.len() == 0 {
        Some(ContractError::InvalidLuckyNumbers { reason: LuckyNumbersError::Empty })
    } else if numbers.len() > MAX_BETTING_CODES {
        Some(ContractError::InvalidLuckyNumbers { reason: LuckyNumbersError::TooMany })
    } else if !commitments_have(s.commitments, sender) {
        Some(ContractError::ParticipantNotFound)
    } else {
        let c = s.commitments[commitment_index_of(s.commitments, sender)];
        if c.bet_amount != numbers.len() {
            Some(ContractError::InvalidLuckyNumbers { reason: LuckyNumbersError::CountMismatch })
        } else if !within_concentration_cap(numbers) {
            Some(ContractError::InvalidLuckyNumbers { reason: LuckyNumbersError::OverCap })
        } else if crate::crypto::commitment_digest(c.bet_amount, numbers, seed)
            != c.commitment_hash {
            Some(ContractError::CommitmentHashMismatch)
        } else {
            match s.current_session {
                None => Some(ContractError::ParticipantNotFound),
                Some(sess) => if sess.settled {
                    Some(ContractError::LotteryAlreadySettled)
                } else if !session_compatible(sess.phase, phase_at(height)) {
                    Some(
                        ContractError::InvalidPhase {
                            expected: sess.phase,
                            actual: phase_at(height),
                        },
                    )
                } else if !roster_has(sess.participants, sender) {
                    Some(ContractError::ParticipantNotFound)
                } else {
                    None
                },
            }
        }
    }
}

/// The state after a successful reveal: only the sender's roster record
/// changes.
pub open spec fn reveal_next(
    s: LotteryStateModel,
    time: u64,
    sender: Seq<char>,
    numbers: Seq<u16>,
    seed: Seq<char>,
) -> LotteryStateModel {
    let sess = s.current_session->Some_0;
    let i = crate::state::roster_index(sess.participants, sender);
    let updated = revealed_participant_model(sess.participants[i], numbers, seed, time);
    LotteryStateModel {
        current_session: Some(
            LotterySessionModel { participants: sess.participants.update(i, updated), ..sess },
        ),
        ..s
    }
}

/// Reveal numbers and seed: guarded by the reentrancy latch, accepted only
/// in the reveal phase, with a valid list of betting codes whose count
/// equals the committed bet amount, whose concentration stays under the
/// per-value cap, and whose recomputed hash matches the stored commitment
/// exactly. On success the sender's roster record is filled in; on failure
/// the state is unchanged.
#[verifier::loop_isolation(false)]
pub fn reveal_random(
    state: &mut LotteryState,
    height: u64,
    time: u64,
    info: &MessageInfo,
    lucky_numbers: Vec<u16>,
    random_seed: String,
) -> (r: Result<(), ContractError>)
    requires
        old(state)@.wf(),
    ensures
        match reveal_error(old(state)@, height, info@.sender, lucky_numbers@, random_seed@) {
            Some(e) => r == Err::<(), ContractError>(e) && final(state)@ == old(state)@,
            None => r == Ok::<(), ContractError>(()) && final(state)@ == reveal_next(
                old(state)@,
                time,
                info@.sender,
                lucky_numbers@,
                random_seed@,
            ),
        },
        final(state)@.wf(),
{
    if state.reentrancy_lock {
        proof {
            assert(state@ =~= old(state)@);
        }
        return Err(ContractError::ReentrancyDetected);
    }
    state.reentrancy_lock = true;

    let current_phase = LotteryPhase::from_block_height(height);
    if !matches!(current_phase, LotteryPhase::Reveal) {
        state.reentrancy_lock = false;
        proof {
            assert(state@ =~= old(state)@);
        }
        return Err(ContractError::invalid_phase(LotteryPhase::Reveal, current_phase));
    }

    let n = lucky_numbers.len();
    for i in 0..n
        invariant
            n == lucky_numbers@.len(),
            forall|j: int| 0 <= j < i ==> #[trigger] lucky_numbers@[j] <= MAX_LUCKY_NUMBER,
            state@ == (LotteryStateModel { reentrancy_lock: true, ..old(state)@ }),
    {
        if lucky_numbers[i] > MAX_LUCKY_NUMBER {
            state.reentrancy_lock = false;
            proof {
                assert(state@ =~= old(state)@);
            }
            return Err(ContractError::invalid_lucky_numbers(LuckyNumbersError::OutOfRange));
        }
    }
    if lucky_numbers.len() == 0 {
        state.reentrancy_lock = false;
        proof {
            assert(state@ =~= old(state)@);
        }
        return Err(ContractError::invalid_lucky_numbers(LuckyNumbersError::Empty));
    }
    if lucky_numbers.len() > MAX_BETTING_CODES {
        state.reentrancy_lock = false;
        proof {
            assert(state@ =~= old(state)@);
        }
        return Err(ContractError::invalid_lucky_numbers(LuckyNumbersError::TooMany));
    }

    let commitment_index = match find_commitment_index(&state.commitments, &info.sender) {
        Some(i) => i,
        None => {
            state.reentrancy_lock = false;
            proof {
                assert(state@ =~= old(state)@);
            }
            return Err(ContractError::ParticipantNotFound);
        },
    };
    let commitment_bet = state.commitments[commitment_index].bet_amount;
    if commitment_bet != lucky_numbers.len() as u128 {
        state.reentrancy_lock = false;
        proof {
            assert(state@ =~= old(state)@);
        }
        return Err(ContractError::invalid_lucky_numbers(LuckyNumbersError::CountMismatch));
    }

    match LotteryLogic::validate_lucky_number_counts(lucky_numbers.as_slice()) {
        Ok(()) => {},
        Err(e) => {
            state.reentrancy_lock = false;
            proof {
                assert(state@ =~= old(state)@);
            }
            return Err(e);
        },
    }

    match LotteryLogic::validate_commitment_full_consistency(
        commitment_bet,
        lucky_numbers.as_slice(),
        random_seed.as_str(),
        state.commitments[commitment_index].commitment_hash.as_str(),
    ) {
        Ok(()) => {},
        Err(e) => {
            state.reentrancy_lock = false;
            proof {
                assert(state@ =~= old(state)@);
            }
            return Err(e);
        },
    }

    // locate the sender's roster record
    let roster_index: usize = match state.current_session.as_ref() {
        None => {
            state.reentrancy_lock = false;
            proof {
                assert(state@ =~= old(state)@);
            }
            return Err(ContractError::ParticipantNotFound);
        },
        Some(sess) => {
            if sess.settled {
                state.reentrancy_lock = false;
                proof {
                    assert(state@ =~= old(state)@);
                }
                return Err(ContractError::LotteryAlreadySettled);
            }
            if !is_session_phase_compatible(&sess.phase, &current_phase) {
                let bad_phase = sess.phase;
                state.reentrancy_lock = false;
                proof {
                    assert(state@ =~= old(state)@);
                }
                return Err(ContractError::invalid_phase(bad_phase, current_phase));
            }
            match find_roster_index(&sess.participants, &info.sender) {
                Some(i) => i,
                None => {
                    state.reentrancy_lock = false;
                    proof {
                        assert(state@ =~= old(state)@);
                    }
                    return Err(ContractError::ParticipantNotFound);
                },
            }
        },
    };

    let previous = state.current_session.take();
    let mut session: LotterySession = previous.unwrap();
    let ghost roster_before = session@.participants;
    let ghost old_record = roster_before[roster_index as int];

    let updated = {
        let old_p = &session.participants[roster_index];
        Participant {
            address: old_p.address.clone(),
            bet_amount: old_p.bet_amount,
            lucky_numbers,
            random_seed: Some(random_seed),
            revealed: true,
            commitment_hash: match &old_p.commitment_hash {
                Some(h) => Some(h.clone()),
                None => None,
            },
            bet_time: old_p.bet_time,
            reveal_time: Some(time),
        }
    };
    let ghost updated_model = updated@;
    session.participants.set(roster_index, updated);
    proof {
        lemma_sum_bets_update(roster_before, roster_index as int, updated_model);
        assert(session@.participants =~= roster_before.update(
            roster_index as int,
            updated_model,
        ));
    }
    state.current_session = Some(session);
    state.reentrancy_lock = false;
    proof {
        let next = reveal_next(old(state)@, time, info@.sender, lucky_numbers@, random_seed@);
        assert(updated_model == revealed_participant_model(
            old_record,
            lucky_numbers@,
            random_seed@,
            time,
        ));
        assert(state@ =~= next);
        let ps = next.current_session->Some_0.participants;
        assert(forall|i: int, j: int|
            0 <= i < j < ps.len() ==> ps[i].address != ps[j].address) by {
            assert(forall|k: int|
                0 <= k < ps.len() ==> ps[k].address == roster_before[k].address);
        }
        assert(forall|i: int|
            0 <= i < ps.len() ==> #[trigger] ps[i].lucky_numbers.len() <= 1000000);
    }
    Ok(())
}

/// Replace the archived result with the same session id, or append it.
pub open spec fn upsert_history(
    hs: Seq<LotteryResultModel>,
    result: LotteryResultModel,
) -> Seq<LotteryResultModel> {
    if history_has(hs, result.session_id) {
        hs.update(history_index_of(hs, result.session_id), result)
    } else {
        hs.push(result)
    }
}

/// Find the index of the archived result with the given session id.
pub(crate) fn find_history_index(history: &Vec<LotteryResult>, session_id: &String) -> (r: Option<usize>)
    requires
        history_unique(history@.map_values(|h: LotteryResult| h@)),
    ensures
        ({
            let hs = history@.map_values(|h: LotteryResult| h@);
            match r {
                Some(i) => history_has(hs, session_id@) && i == history_index_of(hs, session_id@)
                    && 0 <= i < hs.len(),
                None => !history_has(hs, session_id@),
            }
        }),
{
    let ghost hs = history@.map_values(|h: LotteryResult| h@);
    let n = history.len();
    for i in 0..n
        invariant
            n == history@.len(),
            hs == history@.map_values(|h: LotteryResult| h@),
            history_unique(hs),
            forall|j: int| 0 <= j < i ==> #[trigger] hs[j].session_id != session_id@,
    {
        if history[i].session_id == *session_id {
            proof {
                assert(hs[i as int].session_id == session_id@);
                let k = history_index_of(hs, session_id@);
                assert(0 <= k < hs.len() && hs[k].session_id == session_id@);
                if k < i as int {
                    assert(hs[k].session_id != hs[i as int].session_id);
                } else if k > i as int {
                    assert(hs[i as int].session_id != hs[k].session_id);
                }
            }
            return Some(i);
        }
    }
    None
}

/// Which error, if any, settlement fails with.
pub open spec fn settle_error(s: LotteryStateModel, height: u64) -> Option<ContractError> {
    if s.reentrancy_lock {
        Some(ContractError::ReentrancyDetected)
    } else if phase_at(height) != LotteryPhase::Settlement {
        Some(
            ContractError::InvalidPhase {
                expected: LotteryPhase::Settlement,
                actual: phase_at(height),
            },
        )
    } else {
        match s.current_session {
            None => Some(ContractError::SessionNotFound),
            Some(sess) => if sess.settled {
                Some(ContractError::LotteryAlreadySettled)
            } else if crate::lottery_logic::revealed_seed_values(sess.participants).len() == 0 {
                Some(ContractError::NoParticipants)
            } else {
                None
            },
        }
    }
}

/// The archived result a settlement produces.
pub open spec fn settlement_result(
    sess: LotterySessionModel,
    height: u64,
    time: u64,
) -> LotteryResultModel {
    let w = crate::lottery_logic::winning_number_of(sess.participants) as u16;
    let winners0 = crate::reward_system::winners_of(sess.participants, w);
    let reward_pool = (sess.total_pool - sess.service_fee) as u128;
    let winners = if winners0.len() == 0 {
        winners0
    } else {
        crate::reward_system::with_reward(
            winners0,
            crate::reward_system::reward_per_winner(winners0.len() as int, reward_pool) as u128,
        )
    };
    LotteryResultModel {
        session_id: sess.session_id,
        winning_number: w,
        total_pool: sess.total_pool,
        service_fee: sess.service_fee,
        reward_pool,
        winners,
        settled_at: time,
        settled_height: height,
    }
}

/// The state after a successful settlement: the session is frozen, the
/// result archived, and the statistics advanced.
pub open spec fn settle_next(s: LotteryStateModel, height: u64, time: u64) -> LotteryStateModel {
    let sess = s.current_session->Some_0;
    let result = settlement_result(sess, height, time);
    LotteryStateModel {
        current_session: Some(
            LotterySessionModel {
                winning_number: Some(result.winning_number),
                settled: true,
                ..sess
            },
        ),
        history: upsert_history(s.history, result),
        stats: Stats {
            total_sessions: (s.stats.total_sessions + 1) as u64,
            total_rewards: (s.stats.total_rewards + result.reward_pool) as u128,
            last_updated: time,
            ..s.stats
        },
        ..s
    }
}

/// Settle the lottery: guarded by the reentrancy latch, accepted only in
/// the settlement phase, exactly once per session, and only when at least
/// one participant revealed. The winning number is derived from all
/// revealed seeds, winners and prizes are computed, the outcome is archived
/// under the session id, and the session becomes immutable.
#[verifier::loop_isolation(false)]
pub fn settle_lottery(state: &mut LotteryState, height: u64, time: u64) -> (r: Result<
    (),
    ContractError,
>)
    requires
        old(state)@.wf(),
        old(state)@.stats.total_sessions < u64::MAX,
        match old(state)@.current_session {
            Some(sess) => old(state)@.stats.total_rewards + (sess.total_pool - sess.service_fee)
                <= u128::MAX,
            None => true,
        },
    ensures
        match settle_error(old(state)@, height) {
            Some(e) => r == Err::<(), ContractError>(e) && final(state)@ == old(state)@,
            None => r == Ok::<(), ContractError>(()) && final(state)@ == settle_next(
                old(state)@,
                height,
                time,
            ),
        },
        final(state)@.wf(),
{
    if state.reentrancy_lock {
        proof {
            assert(state@ =~= old(state)@);
        }
        return Err(ContractError::ReentrancyDetected);
    }
    state.reentrancy_lock = true;

    let current_phase = LotteryPhase::from_block_height(height);
    if !matches!(current_phase, LotteryPhase::Settlement) {
        state.reentrancy_lock = false;
        proof {
            assert(state@ =~= old(state)@);
        }
        return Err(ContractError::invalid_phase(LotteryPhase::Settlement, current_phase));
    }
    match state.current_session.as_ref() {
        None => {
            state.reentrancy_lock = false;
            proof {
                assert(state@ =~= old(state)@);
            }
            return Err(ContractError::SessionNotFound);
        },
        Some(sess) => {
            if sess.settled {
                state.reentrancy_lock = false;
                proof {
                    assert(state@ =~= old(state)@);
                }
                return Err(ContractError::LotteryAlreadySettled);
            }
        },
    }

    let previous = state.current_session.take();
    let mut session: LotterySession = previous.unwrap();
    let ghost sess_model = session@;

    let winning_number = match LotteryLogic::calculate_winning_number(
        session.participants.as_slice(),
    ) {
        Ok(w) => w,
        Err(e) => {
            state.current_session = Some(session);
            state.reentrancy_lock = false;
            proof {
                assert(state@ =~= old(state)@);
            }
            return Err(e);
        },
    };

    proof {
        assert forall|i: int| 0 <= i < session.participants@.len() implies #[trigger]
        session.participants@[i].lucky_numbers@.len() <= u32::MAX by {
            assert(session.participants@[i]@ == sess_model.participants[i]);
            assert(sess_model.participants[i].lucky_numbers.len() <= 1000000);
        }
    }
    let mut winners = match RewardSystem::calculate_winners(
        session.participants.as_slice(),
        winning_number,
    ) {
        Ok(ws) => ws,
        Err(e) => {
            state.current_session = Some(session);
            state.reentrancy_lock = false;
            proof {
                assert(state@ =~= old(state)@);
                assert(false);
            }
            return Err(e);
        },
    };

    let reward_pool = session.total_pool - session.service_fee;
    let distributed = match RewardSystem::distribute_rewards(&mut winners, reward_pool) {
        Ok(ws) => ws,
        Err(e) => {
            state.current_session = Some(session);
            state.reentrancy_lock = false;
            proof {
                assert(state@ =~= old(state)@);
                assert(false);
            }
            return Err(e);
        },
    };

    let result = LotteryResult {
        session_id: session.session_id.clone(),
        winning_number,
        total_pool: session.total_pool,
        service_fee: session.service_fee,
        reward_pool,
        winners: distributed,
        settled_at: time,
        settled_height: height,
    };
    let ghost result_model = result@;
    proof {
        assert(result_model =~= settlement_result(sess_model, height, time));
    }

    let ghost history_before = state.history@.map_values(|h: LotteryResult| h@);
    match find_history_index(&state.history, &session.session_id) {
        Some(idx) => {
            state.history.set(idx, result);
            proof {
                assert(state.history@.map_values(|h: LotteryResult| h@) =~= upsert_history(
                    history_before,
                    result_model,
                ));
            }
        },
        None => {
            state.history.push(result);
            proof {
                assert(state.history@.map_values(|h: LotteryResult| h@) =~= upsert_history(
                    history_before,
                    result_model,
                ));
            }
        },
    }

    session.winning_number = Some(winning_number);
    session.settled = true;
    state.current_session = Some(session);
    state.reentrancy_lock = false;

    state.stats.total_sessions = state.stats.total_sessions + 1;
    state.stats.total_rewards = state.stats.total_rewards + reward_pool;
    state.stats.last_updated = time;

    proof {
        let next = settle_next(old(state)@, height, time);
        assert(state@ =~= next);
    }
    Ok(())
}

/// Ticket conservation: a reveal can only succeed when the number of
/// disclosed betting codes equals the committed bet amount — one token buys
/// exactly one code.
pub proof fn lemma_ticket_conservation(
    s: LotteryStateModel,
    height: u64,
    sender: Seq<char>,
    numbers: Seq<u16>,
    seed: Seq<char>,
)
    requires
        reveal_error(s, height, sender, numbers, seed) is None,
    ensures
        commitments_have(s.commitments, sender),
        s.commitments[commitment_index_of(s.commitments, sender)].bet_amount == numbers.len(),
{
}

/// Concentration cap: a reveal can only succeed when no single number value
/// occurs more often than the cap allows.
pub proof fn lemma_concentration_cap(
    s: LotteryStateModel,
    height: u64,
    sender: Seq<char>,
    numbers: Seq<u16>,
    seed: Seq<char>,
)
    requires
        reveal_error(s, height, sender, numbers, seed) is None,
    ensures
        within_concentration_cap(numbers),
        forall|v: u16| crate::lottery_logic::count_in(numbers, v) <= MAX_SINGLE_NUMBER_COUNT,
{
}

/// Idempotent settlement: once a settlement has succeeded, any further
/// settlement attempt on the same session fails with the already-settled
/// error — and a failing settlement leaves the state, the archived result
/// included, unchanged (by the settlement contract).
pub proof fn lemma_settle_idempotent(s: LotteryStateModel, h1: u64, t1: u64, h2: u64)
    requires
        settle_error(s, h1) is None,
        phase_at(h2) == LotteryPhase::Settlement,
    ensures
        settle_error(settle_next(s, h1, t1), h2) == Some(ContractError::LotteryAlreadySettled),
{
}

/// Reentrancy: while the latch is held, every ledger operation — bet
/// placement, reveal and settlement — fails with the reentrancy error, and
/// a failing operation leaves the ledger unchanged (by each operation's
/// contract).
pub proof fn lemma_reentrancy_guard(
    s: LotteryStateModel,
    height: u64,
    info: MessageInfoModel,
    hash: Seq<char>,
    numbers: Seq<u16>,
    seed: Seq<char>,
)
    requires
        s.reentrancy_lock,
    ensures
        place_bet_error(s, height, info, hash) == Some(ContractError::ReentrancyDetected),
        reveal_error(s, height, info.sender, numbers, seed) == Some(
            ContractError::ReentrancyDetected,
        ),
        settle_error(s, height) == Some(ContractError::ReentrancyDetected),
{
}

/// Which error, if any, a configuration update fails with.
pub open spec fn update_config_error(
    s: LotteryStateModel,
    sender: Seq<char>,
    service_fee_rate: Option<crate::state::FeeRate>,
    min_bet_amount: Option<u128>,
    max_bet_amount: Option<u128>,
    bet_denom: Option<Seq<char>>,
) -> Option<ContractError> {
    let new_min = if min_bet_amount is Some {
        min_bet_amount->0
    } else {
        s.config.min_bet_amount
    };
    if sender != s.config.admin {
        Some(ContractError::Unauthorized)
    } else if service_fee_rate is Some && service_fee_rate->0.atomics > crate::state::FEE_DENOM {
        Some(ContractError::InvalidServiceFeeRate { rate: service_fee_rate->0 })
    } else if min_bet_amount is Some && min_bet_amount->0 >= s.config.max_bet_amount {
        Some(ContractError::InvalidBetAmount { amount: min_bet_amount->0 })
    } else if max_bet_amount is Some && max_bet_amount->0 <= new_min {
        Some(ContractError::InvalidBetAmount { amount: max_bet_amount->0 })
    } else if bet_denom is Some && bet_denom->0.len() == 0 {
        Some(ContractError::InvalidBetDenom)
    } else {
        None
    }
}

/// The configuration after a successful update.
pub open spec fn update_config_next(
    c: crate::state::ConfigModel,
    service_fee_rate: Option<crate::state::FeeRate>,
    min_bet_amount: Option<u128>,
    max_bet_amount: Option<u128>,
    bet_denom: Option<Seq<char>>,
    pause_requested: Option<bool>,
) -> crate::state::ConfigModel {
    crate::state::ConfigModel {
        service_fee_rate: if service_fee_rate is Some {
            service_fee_rate->0
        } else {
            c.service_fee_rate
        },
        min_bet_amount: if min_bet_amount is Some {
            min_bet_amount->0
        } else {
            c.min_bet_amount
        },
        max_bet_amount: if max_bet_amount is Some {
            max_bet_amount->0
        } else {
            c.max_bet_amount
        },
        bet_denom: if bet_denom is Some {
            bet_denom->0
        } else {
            c.bet_denom
        },
        pause_requested: if pause_requested is Some {
            pause_requested->0
        } else {
            c.pause_requested
        },
        ..c
    }
}

/// Admin-only update of the economic parameters. Each supplied field is
/// validated against the configuration as updated so far, and the bet
/// bounds always stay ordered.
pub fn update_config(
    state: &mut LotteryState,
    info: &MessageInfo,
    service_fee_rate: Option<crate::state::FeeRate>,
    min_bet_amount: Option<u128>,
    max_bet_amount: Option<u128>,
    bet_denom: Option<String>,
    pause_requested: Option<bool>,
) -> (r: Result<(), ContractError>)
    requires
        old(state)@.wf(),
    ensures
        ({
            let denom_model = match bet_denom {
                Some(d) => Some(d@),
                None => None,
            };
            match update_config_error(
                old(state)@,
                info@.sender,
                service_fee_rate,
                min_bet_amount,
                max_bet_amount,
                denom_model,
            ) {
                Some(e) => r == Err::<(), ContractError>(e) && final(state)@ == old(state)@,
                None => r == Ok::<(), ContractError>(()) && final(state)@ == (LotteryStateModel {
                    config: update_config_next(
                        old(state)@.config,
                        service_fee_rate,
                        min_bet_amount,
                        max_bet_amount,
                        denom_model,
                        pause_requested,
                    ),
                    ..old(state)@
                }),
            }
        }),
        final(state)@.wf(),
{
    if !(info.sender == state.config.admin) {
        return Err(ContractError::Unauthorized);
    }
    match service_fee_rate {
        Some(rate) => {
            if rate.atomics > crate::state::FEE_DENOM {
                return Err(ContractError::invalid_service_fee_rate(rate));
            }
        },
        None => {},
    }
    let new_min = match min_bet_amount {
        Some(min_amount) => {
            if min_amount >= state.config.max_bet_amount {
                return Err(ContractError::invalid_bet_amount(min_amount));
            }
            min_amount
        },
        None => state.config.min_bet_amount,
    };
    match max_bet_amount {
        Some(max_amount) => {
            if max_amount <= new_min {
                return Err(ContractError::invalid_bet_amount(max_amount));
            }
        },
        None => {},
    }
    match &bet_denom {
        Some(denom) => {
            if denom.unicode_len() == 0 {
                return Err(ContractError::InvalidBetDenom);
            }
        },
        None => {},
    }
    let ghost denom_model: Option<Seq<char>> = match bet_denom {
        Some(ref d) => Some(d@),
        None => None,
    };
    match service_fee_rate {
        Some(rate) => {
            state.config.service_fee_rate = rate;
        },
        None => {},
    }
    state.config.min_bet_amount = new_min;
    match max_bet_amount {
        Some(max_amount) => {
            state.config.max_bet_amount = max_amount;
        },
        None => {},
    }
    match bet_denom {
        Some(denom) => {
            state.config.bet_denom = denom;
        },
        None => {},
    }
    match pause_requested {
        Some(pause_req) => {
            state.config.pause_requested = pause_req;
        },
        None => {},
    }
    proof {
        assert(state@ =~= (LotteryStateModel {
            config: update_config_next(
                old(state)@.config,
                service_fee_rate,
                min_bet_amount,
                max_bet_amount,
                denom_model,
                pause_requested,
            ),
            ..old(state)@
        }));
    }
    Ok(())
}

/// Admin-only immediate pause or unpause.
pub fn emergency_pause(state: &mut LotteryState, info: &MessageInfo, paused: bool) -> (r: Result<
    (),
    ContractError,
>)
    requires
        old(state)@.wf(),
    ensures
        info@.sender != old(state)@.config.admin ==> r == Err::<(), ContractError>(
            ContractError::Unauthorized,
        ) && final(state)@ == old(state)@,
        info@.sender == old(state)@.config.admin ==> r == Ok::<(), ContractError>(())
            && final(state)@ == (LotteryStateModel {
            config: crate::state::ConfigModel { paused, ..old(state)@.config },
            ..old(state)@
        }),
        final(state)@.wf(),
{
    if !(info.sender == state.config.admin) {
        return Err(ContractError::Unauthorized);
    }
    state.config.paused = paused;
    proof {
        assert(state@ =~= (LotteryStateModel {
            config: crate::state::ConfigModel { paused, ..old(state)@.config },
            ..old(state)@
        }));
    }
    Ok(())
}

/// Admin-only withdrawal of accrued service fees: decides whether the host
/// should transfer funds, given the contract's current balance.
pub fn withdraw_service_fee(
    state: &LotteryState,
    info: &MessageInfo,
    balance: u128,
    amount: u128,
) -> (r: Result<crate::msg::BankTransfer, ContractError>)
    ensures
        info@.sender != state@.config.admin ==> r == Err::<crate::msg::BankTransfer, _>(
            ContractError::Unauthorized,
        ),
        info@.sender == state@.config.admin && balance < amount ==> r == Err::<
            crate::msg::BankTransfer,
            _,
        >(ContractError::InsufficientFunds),
        info@.sender == state@.config.admin && balance >= amount ==> r is Ok
            && r->Ok_0.to_address@ == info@.sender && r->Ok_0.denom@ == state@.config.bet_denom
            && r->Ok_0.amount == amount,
{
    if !(info.sender == state.config.admin) {
        return Err(ContractError::Unauthorized);
    }
    if balance < amount {
        return Err(ContractError::InsufficientFunds);
    }
    Ok(
        crate::msg::BankTransfer {
            to_address: info.sender.clone(),
            denom: state.config.bet_denom.clone(),
            amount,
        },
    )
}

/// Dispatch one execute message. The host supplies the clock (`env`), the
/// caller (`info`), and the contract's current balance in the accepted
/// denomination (consulted only by fee withdrawal).
pub fn execute(
    state: &mut LotteryState,
    env: &crate::msg::Env,
    info: MessageInfo,
    balance: u128,
    msg: crate::msg::ExecuteMsg,
) -> (r: Result<crate::msg::Response, ContractError>)
    requires
        old(state)@.wf(),
        old(state)@.stats.total_pool + bet_amount_in(info@.funds, old(state)@.config.bet_denom)
            <= u128::MAX,
        old(state)@.stats.total_participants < u64::MAX,
        old(state)@.stats.total_sessions < u64::MAX,
        match old(state)@.current_session {
            Some(sess) => old(state)@.stats.total_rewards + (sess.total_pool - sess.service_fee)
                <= u128::MAX,
            None => true,
        },
    ensures
        final(state)@.wf(),
        match msg {
            crate::msg::ExecuteMsg::PlaceBet { commitment_hash } => match place_bet_error(
                old(state)@,
                env.block_height,
                info@,
                commitment_hash@,
            ) {
                Some(e) => r == Err::<crate::msg::Response, ContractError>(e) && final(state)@
                    == old(state)@,
                None => r is Ok && r->Ok_0.transfer is None && final(state)@ == place_bet_next(
                    old(state)@,
                    env.block_height,
                    env.block_time,
                    info@,
                    commitment_hash@,
                ),
            },
            crate::msg::ExecuteMsg::RevealRandom { lucky_numbers, random_seed } => match
                reveal_error(
                old(state)@,
                env.block_height,
                info@.sender,
                lucky_numbers@,
                random_seed@,
            ) {
                Some(e) => r == Err::<crate::msg::Response, ContractError>(e) && final(state)@
                    == old(state)@,
                None => r is Ok && r->Ok_0.transfer is None && final(state)@ == reveal_next(
                    old(state)@,
                    env.block_time,
                    info@.sender,
                    lucky_numbers@,
                    random_seed@,
                ),
            },
            crate::msg::ExecuteMsg::SettleLottery {  } => match settle_error(
                old(state)@,
                env.block_height,
            ) {
                Some(e) => r == Err::<crate::msg::Response, ContractError>(e) && final(state)@
                    == old(state)@,
                None => r is Ok && r->Ok_0.transfer is None && final(state)@ == settle_next(
                    old(state)@,
                    env.block_height,
                    env.block_time,
                ),
            },
            crate::msg::ExecuteMsg::UpdateConfig {
                service_fee_rate,
                min_bet_amount,
                max_bet_amount,
                bet_denom,
                pause_requested,
            } => {
                let denom_model = match bet_denom {
                    Some(d) => Some(d@),
                    None => None,
                };
                match update_config_error(
                    old(state)@,
                    info@.sender,
                    service_fee_rate,
                    min_bet_amount,
                    max_bet_amount,
                    denom_model,
                ) {
                    Some(e) => r == Err::<crate::msg::Response, ContractError>(e) && final(state)@
                        == old(state)@,
                    None => r is Ok && r->Ok_0.transfer is None && final(state)@
                        == (LotteryStateModel {
                        config: update_config_next(
                            old(state)@.config,
                            service_fee_rate,
                            min_bet_amount,
                            max_bet_amount,
                            denom_model,
                            pause_requested,
                        ),
                        ..old(state)@
                    }),
                }
            },
            crate::msg::ExecuteMsg::EmergencyPause { paused } => {
                if info@.sender != old(state)@.config.admin {
                    r == Err::<crate::msg::Response, ContractError>(ContractError::Unauthorized)
                        && final(state)@ == old(state)@
                } else {
                    r is Ok && r->Ok_0.transfer is None && final(state)@ == (LotteryStateModel {
                        config: crate::state::ConfigModel { paused, ..old(state)@.config },
                        ..old(state)@
                    })
                }
            },
            crate::msg::ExecuteMsg::WithdrawServiceFee { amount } => final(state)@ == old(state)@
                && if info@.sender != old(state)@.config.admin {
                r == Err::<crate::msg::Response, ContractError>(ContractError::Unauthorized)
            } else if balance < amount {
                r == Err::<crate::msg::Response, ContractError>(ContractError::InsufficientFunds)
            } else {
                r is Ok && r->Ok_0.transfer is Some && r->Ok_0.transfer->0.to_address@
                    == info@.sender && r->Ok_0.transfer->0.denom@ == old(state)@.config.bet_denom
                    && r->Ok_0.transfer->0.amount == amount
            },
        },
{
    match msg {
        crate::msg::ExecuteMsg::PlaceBet { commitment_hash } => {
            match place_bet(state, env.block_height, env.block_time, &info, commitment_hash) {
                Ok(()) => Ok(crate::msg::Response { transfer: None }),
                Err(e) => Err(e),
            }
        },
        crate::msg::ExecuteMsg::RevealRandom { lucky_numbers, random_seed } => {
            match reveal_random(
                state,
                env.block_height,
                env.block_time,
                &info,
                lucky_numbers,
                random_seed,
            ) {
                Ok(()) => Ok(crate::msg::Response { transfer: None }),
                Err(e) => Err(e),
            }
        },
        crate::msg::ExecuteMsg::SettleLottery {  } => {
            match settle_lottery(state, env.block_height, env.block_time) {
                Ok(()) => Ok(crate::msg::Response { transfer: None }),
                Err(e) => Err(e),
            }
        },
        crate::msg::ExecuteMsg::UpdateConfig {
            service_fee_rate,
            min_bet_amount,
            max_bet_amount,
            bet_denom,
            pause_requested,
        } => {
            match update_config(
                state,
                &info,
                service_fee_rate,
                min_bet_amount,
                max_bet_amount,
                bet_denom,
                pause_requested,
            ) {
                Ok(()) => Ok(crate::msg::Response { transfer: None }),
                Err(e) => Err(e),
            }
        },
        crate::msg::ExecuteMsg::EmergencyPause { paused } => {
            match emergency_pause(state, &info, paused) {
                Ok(()) => Ok(crate::msg::Response { transfer: None }),
                Err(e) => Err(e),
            }
        },
        crate::msg::ExecuteMsg::WithdrawServiceFee { amount } => {
            match withdraw_service_fee(state, &info, balance, amount) {
                Ok(transfer) => Ok(crate::msg::Response { transfer: Some(transfer) }),
                Err(e) => Err(e),
            }
        },
    }
}

} // verus!
