use sha2::{Digest, Sha256};

use dd_3d_lottery::contract::{instantiate, migrate};
use dd_3d_lottery::error::ContractError;
use dd_3d_lottery::execute::{execute, is_session_phase_compatible};
use dd_3d_lottery::lottery_logic::LotteryLogic;
use dd_3d_lottery::msg::{Coin, Env, ExecuteMsg, InstantiateMsg, MessageInfo, MigrateMsg};
use dd_3d_lottery::phase_manager::{Operation, PhaseManager};
use dd_3d_lottery::reward_system::RewardSystem;
use dd_3d_lottery::state::{FeeRate, LotteryPhase, LotteryState, Winner};

const ADMIN: &str = "cosmwasm1abc123def456ghi789jkl012mno345pqr678stu901vwx234yz";
const USER1: &str = "cosmwasm1def456ghi789jkl012mno345pqr678stu901vwx234yzabc123";
const DENOM: &str = "uusd";

fn generate_commitment_hash(bet_amount: u128, lucky_numbers: &[u16], random_seed: &str) -> String {
    let numbers_str = lucky_numbers
        .iter()
        .map(|n| n.to_string())
        .collect::<Vec<_>>()
        .join(",");
    let commitment_data = format!("{}|{}|{}", bet_amount, numbers_str, random_seed);
    let hash = Sha256::digest(commitment_data.as_bytes());
    hex::encode(hash)
}

fn mock_info(sender: &str, funds: &[Coin]) -> MessageInfo {
    MessageInfo { sender: sender.to_string(), funds: funds.to_vec() }
}

fn mock_instantiate_msg() -> InstantiateMsg {
    InstantiateMsg {
        admin: ADMIN.to_string(),
        service_fee_rate: FeeRate::percent(10),
        min_bet_amount: 1000,
        max_bet_amount: 1000000,
        bet_denom: DENOM.to_string(),
        pause_requested: Some(false),
    }
}

fn mock_env_with_height(height: u64) -> Env {
    Env { block_height: height, block_time: height * 6 }
}

fn setup(height: u64) -> (LotteryState, Env) {
    let env = mock_env_with_height(height);
    let state = instantiate(env.block_time, mock_instantiate_msg()).unwrap();
    (state, env)
}

/// Phase totality at the window boundaries: `a-1, a, b-1, b, L-1, L`.
#[test]
fn test_phase_boundaries() {
    assert_eq!(LotteryPhase::from_block_height(0), LotteryPhase::Commitment);
    assert_eq!(LotteryPhase::from_block_height(5999), LotteryPhase::Commitment);
    assert_eq!(LotteryPhase::from_block_height(6000), LotteryPhase::Reveal);
    assert_eq!(LotteryPhase::from_block_height(8999), LotteryPhase::Reveal);
    assert_eq!(LotteryPhase::from_block_height(9000), LotteryPhase::Settlement);
    assert_eq!(LotteryPhase::from_block_height(9999), LotteryPhase::Settlement);
    assert_eq!(LotteryPhase::from_block_height(10000), LotteryPhase::Commitment);
    assert_eq!(LotteryPhase::from_block_height(u64::MAX), LotteryPhase::Commitment);
}

#[test]
fn test_phase_names_and_info() {
    assert_eq!(LotteryPhase::Commitment.name(), "commitment");
    assert_eq!(LotteryPhase::Reveal.name(), "reveal");
    assert_eq!(LotteryPhase::Settlement.name(), "settlement");

    let info = PhaseManager::get_phase_info(1000);
    assert_eq!(info.phase, LotteryPhase::Commitment);
    assert_eq!(info.remaining_blocks, 5000);
    assert_eq!(info.block_height, 1000);
    assert_eq!(info.phase_mod, 1000);
    assert!(info.is_commitment_phase());
    assert!(!info.is_reveal_phase());
    assert!(!info.is_settlement_phase());
    assert_eq!(info.phase_name(), "commitment");

    assert_eq!(PhaseManager::get_phase_remaining_blocks(7000), 2000);
    assert_eq!(PhaseManager::get_phase_remaining_blocks(9500), 500);
    assert!(PhaseManager::is_in_phase(7000, LotteryPhase::Reveal));
    assert!(PhaseManager::is_new_commitment_phase(20000));
    assert!(!PhaseManager::is_new_commitment_phase(20001));
}

#[test]
fn test_can_execute_operation() {
    let (state, _env) = setup(1000);
    assert_eq!(
        PhaseManager::can_execute_operation(&state.config, 1000, Operation::PlaceBet),
        Ok(true)
    );
    assert_eq!(
        PhaseManager::can_execute_operation(&state.config, 1000, Operation::RevealRandom),
        Ok(false)
    );
    assert_eq!(
        PhaseManager::can_execute_operation(&state.config, 9500, Operation::SettleLottery),
        Ok(true)
    );

    let mut paused_state = state;
    paused_state.config.paused = true;
    assert_eq!(
        PhaseManager::can_execute_operation(&paused_state.config, 1000, Operation::PlaceBet),
        Err(ContractError::ContractPaused)
    );
    assert!(!PhaseManager::should_pause_after_cycle(&paused_state.config, 1000));
}

#[test]
fn test_session_phase_lattice() {
    let c = LotteryPhase::Commitment;
    let r = LotteryPhase::Reveal;
    let s = LotteryPhase::Settlement;
    assert!(is_session_phase_compatible(&c, &c));
    assert!(is_session_phase_compatible(&c, &r));
    assert!(!is_session_phase_compatible(&c, &s));
    assert!(!is_session_phase_compatible(&r, &c));
    assert!(is_session_phase_compatible(&r, &r));
    assert!(is_session_phase_compatible(&r, &s));
    assert!(!is_session_phase_compatible(&s, &c));
    assert!(!is_session_phase_compatible(&s, &r));
    assert!(is_session_phase_compatible(&s, &s));
}

/// The library's commitment hash must agree with an independent SHA-256
/// computation, including a fixed known vector.
#[test]
fn test_commitment_hash_known_vector() {
    let hash = LotteryLogic::generate_commitment_hash(1, &[123], "seed").unwrap();
    assert_eq!(hash, "f20051e652e1ae6f48b21b087acc12df5f4b8b2c984732a0f327c47276db4802");

    let hash2 = LotteryLogic::generate_commitment_hash(3, &[1, 22, 333], "my_seed").unwrap();
    assert_eq!(hash2, generate_commitment_hash(3, &[1, 22, 333], "my_seed"));
    assert_eq!(hash2.len(), 64);
}

#[test]
fn test_commitment_hash_deterministic_and_binding() {
    let h1 = LotteryLogic::generate_commitment_hash(2, &[5, 7], "seed").unwrap();
    let h2 = LotteryLogic::generate_commitment_hash(2, &[5, 7], "seed").unwrap();
    assert_eq!(h1, h2);

    // changing any input changes the hash on these vectors
    let other_numbers = LotteryLogic::generate_commitment_hash(2, &[5, 8], "seed").unwrap();
    let other_seed = LotteryLogic::generate_commitment_hash(2, &[5, 7], "seee").unwrap();
    assert_ne!(h1, other_numbers);
    assert_ne!(h1, other_seed);

    assert!(LotteryLogic::verify_commitment_hash(2, &[5, 7], "seed", &h1).unwrap());
    assert!(!LotteryLogic::verify_commitment_hash(2, &[5, 7], "sEed", &h1).unwrap());
}

#[test]
fn test_generate_commitment_hash_errors() {
    let res = LotteryLogic::generate_commitment_hash(2, &[5, 1000], "seed");
    assert!(matches!(res, Err(ContractError::InvalidLuckyNumbers { .. })));
    let res = LotteryLogic::generate_commitment_hash(3, &[5, 7], "seed");
    assert!(matches!(res, Err(ContractError::InvalidLuckyNumbers { .. })));
}

#[test]
fn test_validate_lucky_numbers_cases() {
    assert!(LotteryLogic::validate_lucky_numbers(&[0, 999, 500]).is_ok());
    assert!(matches!(
        LotteryLogic::validate_lucky_numbers(&[]),
        Err(ContractError::InvalidLuckyNumbers { .. })
    ));
    assert!(matches!(
        LotteryLogic::validate_lucky_numbers(&[1000]),
        Err(ContractError::InvalidLuckyNumbers { .. })
    ));
}

/// Concentration cap: 1000 occurrences accepted, 1001 rejected.
#[test]
fn test_concentration_cap_boundary() {
    assert_eq!(LotteryLogic::get_max_lucky_number_count(), 1000);

    let at_limit = vec![7u16; 1000];
    assert!(LotteryLogic::validate_lucky_number_counts(&at_limit).is_ok());

    let over_limit = vec![7u16; 1001];
    assert!(matches!(
        LotteryLogic::validate_lucky_number_counts(&over_limit),
        Err(ContractError::InvalidLuckyNumbers { .. })
    ));

    let mut mixed = vec![7u16; 1000];
    mixed.extend(vec![8u16; 1000]);
    assert!(LotteryLogic::validate_lucky_number_counts(&mixed).is_ok());
    mixed.push(8);
    assert!(LotteryLogic::validate_lucky_number_counts(&mixed).is_err());
}

/// Ticket conservation: bet 1000, reveal 999 numbers is rejected; reveal
/// 1000 numbers is accepted.
#[test]
fn test_ticket_conservation_boundary() {
    let (mut state, env) = setup(1000);

    let bet_info = mock_info(USER1, &[Coin { denom: DENOM.to_string(), amount: 1000 }]);
    let bet_msg = ExecuteMsg::PlaceBet {
        commitment_hash: generate_commitment_hash(1000, &vec![123; 1000], "user1_seed"),
    };
    execute(&mut state, &env, bet_info, 0, bet_msg).unwrap();

    let env = mock_env_with_height(7000);
    let short_reveal = ExecuteMsg::RevealRandom {
        lucky_numbers: vec![123; 999],
        random_seed: "user1_seed".to_string(),
    };
    let res = execute(&mut state, &env, mock_info(USER1, &[]), 0, short_reveal);
    assert!(matches!(res, Err(ContractError::InvalidLuckyNumbers { .. })));

    let exact_reveal = ExecuteMsg::RevealRandom {
        lucky_numbers: vec![123; 1000],
        random_seed: "user1_seed".to_string(),
    };
    let res = execute(&mut state, &env, mock_info(USER1, &[]), 0, exact_reveal);
    assert!(res.is_ok());
}

#[test]
fn test_count_matches_and_level() {
    assert_eq!(LotteryLogic::count_matches(&[1, 2, 3, 2, 2], 2), 3);
    assert_eq!(LotteryLogic::count_matches(&[1, 2, 3], 9), 0);
    assert_eq!(LotteryLogic::count_matches(&[], 9), 0);

    assert_eq!(LotteryLogic::determine_winner_level(3), Ok(1));
    assert!(matches!(
        LotteryLogic::determine_winner_level(0),
        Err(ContractError::InvalidWinnerLevel { level: 0 })
    ));

    assert_eq!(LotteryLogic::get_winner_level_name(1), "first prize");
    assert_eq!(LotteryLogic::get_winner_level_name(2), "no prize");
}

#[test]
fn test_validate_commitment_consistency_cases() {
    let valid = generate_commitment_hash(1000, &vec![1; 1000], "s");
    assert!(LotteryLogic::validate_commitment_consistency(1000, &valid).is_ok());
    assert!(matches!(
        LotteryLogic::validate_commitment_consistency(1000, "zz"),
        Err(ContractError::InvalidCommitmentHash)
    ));
    assert!(matches!(
        LotteryLogic::validate_commitment_consistency(0, &valid),
        Err(ContractError::InvalidBetAmount { amount: 0 })
    ));
    assert!(matches!(
        LotteryLogic::validate_commitment_consistency(1000001, &valid),
        Err(ContractError::InvalidBetAmount { .. })
    ));
    // upper-case hex is accepted as a format
    let upper = valid.to_uppercase();
    assert!(LotteryLogic::validate_commitment_consistency(1000, &upper).is_ok());
}

/// Fixed-vs-split boundary: 3 winners, pool 2400 pays 800 each; pool 2399
/// pays 799 each with remainder 2; pool 1000 pays 333 each with remainder 1.
#[test]
fn test_fixed_vs_split_boundary() {
    let make_winners = || {
        vec![
            Winner { address: "a".to_string(), level: 1, match_count: 1, reward_amount: 0 },
            Winner { address: "b".to_string(), level: 1, match_count: 1, reward_amount: 0 },
            Winner { address: "c".to_string(), level: 1, match_count: 1, reward_amount: 0 },
        ]
    };

    let mut winners = make_winners();
    let paid = RewardSystem::distribute_rewards(&mut winners, 2400).unwrap();
    assert!(paid.iter().all(|w| w.reward_amount == 800));
    let total: u128 = paid.iter().map(|w| w.reward_amount).sum();
    assert_eq!(total, 2400);

    let mut winners = make_winners();
    let paid = RewardSystem::distribute_rewards(&mut winners, 2399).unwrap();
    assert!(paid.iter().all(|w| w.reward_amount == 799));
    let total: u128 = paid.iter().map(|w| w.reward_amount).sum();
    assert_eq!(total, 2397);
    assert_eq!(2399 - total, 2);

    let mut winners = make_winners();
    let paid = RewardSystem::distribute_rewards(&mut winners, 1000).unwrap();
    assert!(paid.iter().all(|w| w.reward_amount == 333));
    let total: u128 = paid.iter().map(|w| w.reward_amount).sum();
    assert_eq!(1000 - total, 1);
}

#[test]
fn test_reward_distribution_split() {
    let total_pool = 3000u128;
    let dist =
        RewardSystem::calculate_reward_distribution(total_pool, FeeRate::percent(10)).unwrap();
    assert_eq!(dist.total_pool, 3000);
    assert_eq!(dist.service_fee, 300);
    assert_eq!(dist.reward_pool, 2700);

    let zero = RewardSystem::calculate_reward_distribution(12345, FeeRate::from_atomics(0)).unwrap();
    assert_eq!(zero.service_fee, 0);
    assert_eq!(zero.reward_pool, 12345);
}

/// Idempotent settlement: the second settlement fails and the archived
/// result stays unchanged.
#[test]
fn test_idempotent_settlement() {
    let (mut state, env) = setup(1000);

    let bet_info = mock_info(USER1, &[Coin { denom: DENOM.to_string(), amount: 1000 }]);
    let bet_msg = ExecuteMsg::PlaceBet {
        commitment_hash: generate_commitment_hash(1000, &vec![123; 1000], "user1_seed"),
    };
    execute(&mut state, &env, bet_info, 0, bet_msg).unwrap();

    let env = mock_env_with_height(7000);
    let reveal_msg = ExecuteMsg::RevealRandom {
        lucky_numbers: vec![123; 1000],
        random_seed: "user1_seed".to_string(),
    };
    execute(&mut state, &env, mock_info(USER1, &[]), 0, reveal_msg).unwrap();

    let env = mock_env_with_height(9500);
    execute(&mut state, &env, mock_info(ADMIN, &[]), 0, ExecuteMsg::SettleLottery {}).unwrap();

    let history_after_first = state.history.clone();
    let res = execute(&mut state, &env, mock_info(ADMIN, &[]), 0, ExecuteMsg::SettleLottery {});
    assert!(matches!(res, Err(ContractError::LotteryAlreadySettled)));
    assert_eq!(state.history, history_after_first);
}

/// Reentrancy: a pre-set latch makes every ledger call fail and nothing
/// changes.
#[test]
fn test_reentrancy_never_mutates() {
    let (mut state, env) = setup(1000);
    state.reentrancy_lock = true;
    let snapshot = state.clone();

    let bet_info = mock_info(USER1, &[Coin { denom: DENOM.to_string(), amount: 1000 }]);
    let bet_msg = ExecuteMsg::PlaceBet {
        commitment_hash: generate_commitment_hash(1000, &[123], "user1_seed"),
    };
    let res = execute(&mut state, &env, bet_info, 0, bet_msg);
    assert!(matches!(res, Err(ContractError::ReentrancyDetected)));
    assert_eq!(state, snapshot);

    let reveal_env = mock_env_with_height(7000);
    let reveal_msg = ExecuteMsg::RevealRandom {
        lucky_numbers: vec![123],
        random_seed: "user1_seed".to_string(),
    };
    let res = execute(&mut state, &reveal_env, mock_info(USER1, &[]), 0, reveal_msg);
    assert!(matches!(res, Err(ContractError::ReentrancyDetected)));
    assert_eq!(state, snapshot);

    let settle_env = mock_env_with_height(9500);
    let res = execute(&mut state, &settle_env, mock_info(ADMIN, &[]), 0, ExecuteMsg::SettleLottery {});
    assert!(matches!(res, Err(ContractError::ReentrancyDetected)));
    assert_eq!(state, snapshot);
}

/// A latch held across an otherwise fully valid reveal still fails and
/// leaves the roster unrevealed.
#[test]
fn test_reentrancy_blocks_valid_reveal() {
    let (mut state, env) = setup(1000);

    let bet_info = mock_info(USER1, &[Coin { denom: DENOM.to_string(), amount: 1000 }]);
    let bet_msg = ExecuteMsg::PlaceBet {
        commitment_hash: generate_commitment_hash(1000, &vec![123; 1000], "user1_seed"),
    };
    execute(&mut state, &env, bet_info, 0, bet_msg).unwrap();

    state.reentrancy_lock = true;
    let snapshot = state.clone();

    let env = mock_env_with_height(7000);
    let reveal_msg = ExecuteMsg::RevealRandom {
        lucky_numbers: vec![123; 1000],
        random_seed: "user1_seed".to_string(),
    };
    let res = execute(&mut state, &env, mock_info(USER1, &[]), 0, reveal_msg);
    assert!(matches!(res, Err(ContractError::ReentrancyDetected)));
    assert_eq!(state, snapshot);
    assert!(!state.current_session.as_ref().unwrap().participants[0].revealed);
}

/// A reveal larger than the per-value cap is fine as long as no single
/// value exceeds the cap: 2000 codes spread over two values are accepted.
#[test]
fn test_reveal_total_above_single_value_cap() {
    let (mut state, env) = setup(1000);

    let mut numbers = vec![7u16; 1000];
    numbers.extend(vec![8u16; 1000]);

    let bet_info = mock_info(USER1, &[Coin { denom: DENOM.to_string(), amount: 2000 }]);
    let bet_msg = ExecuteMsg::PlaceBet {
        commitment_hash: generate_commitment_hash(2000, &numbers, "user1_seed"),
    };
    execute(&mut state, &env, bet_info, 0, bet_msg).unwrap();

    let env = mock_env_with_height(7000);
    let reveal_msg = ExecuteMsg::RevealRandom {
        lucky_numbers: numbers.clone(),
        random_seed: "user1_seed".to_string(),
    };
    let res = execute(&mut state, &env, mock_info(USER1, &[]), 0, reveal_msg);
    assert!(res.is_ok());

    // the same total with one value over the cap is still refused
    let (mut state2, env2) = setup(1000);
    let mut over = vec![7u16; 1001];
    over.extend(vec![8u16; 999]);
    let bet_info2 = mock_info(USER1, &[Coin { denom: DENOM.to_string(), amount: 2000 }]);
    let bet_msg2 = ExecuteMsg::PlaceBet {
        commitment_hash: generate_commitment_hash(2000, &over, "user1_seed"),
    };
    execute(&mut state2, &env2, bet_info2, 0, bet_msg2).unwrap();

    let env2 = mock_env_with_height(7000);
    let reveal_msg2 = ExecuteMsg::RevealRandom {
        lucky_numbers: over,
        random_seed: "user1_seed".to_string(),
    };
    let res2 = execute(&mut state2, &env2, mock_info(USER1, &[]), 0, reveal_msg2);
    assert!(matches!(res2, Err(ContractError::InvalidLuckyNumbers { .. })));
}

/// End-to-end: three bets of 1000 give pool 3000 and fee 300 at a 10% rate;
/// all reveal 123; the winning number is the fold of the revealed seed
/// values modulo 1000, recomputed here independently; the winner count is
/// 3000 exactly when it equals the common choice, else zero; the reward
/// pool is 2700.
#[test]
fn test_end_to_end_scenario() {
    let (mut state, env) = setup(1000);

    let users = ["cosmwasm1p0", "cosmwasm1p1", "cosmwasm1p2"];
    for (i, user) in users.iter().enumerate() {
        let seed = format!("user{}_seed", i);
        let bet_info = mock_info(user, &[Coin { denom: DENOM.to_string(), amount: 1000 }]);
        let bet_msg = ExecuteMsg::PlaceBet {
            commitment_hash: generate_commitment_hash(1000, &vec![123; 1000], &seed),
        };
        execute(&mut state, &env, bet_info, 0, bet_msg).unwrap();
    }

    {
        let session = state.current_session.as_ref().unwrap();
        assert_eq!(session.total_pool, 3000u128);
        assert_eq!(session.service_fee, 300u128);
    }

    let env = mock_env_with_height(7000);
    for (i, user) in users.iter().enumerate() {
        let reveal_msg = ExecuteMsg::RevealRandom {
            lucky_numbers: vec![123; 1000],
            random_seed: format!("user{}_seed", i),
        };
        execute(&mut state, &env, mock_info(user, &[]), 0, reveal_msg).unwrap();
    }

    let env = mock_env_with_height(9500);
    execute(&mut state, &env, mock_info(ADMIN, &[]), 0, ExecuteMsg::SettleLottery {}).unwrap();

    // recompute the winning number independently: the little-endian reading
    // of the first 16 digest bytes of each seed, summed modulo 1000
    let mut expected: u128 = 0;
    for i in 0..3 {
        let seed = format!("user{}_seed", i);
        let digest = Sha256::digest(seed.as_bytes());
        let mut value: u128 = 0;
        for (j, byte) in digest.iter().take(16).enumerate() {
            value += (*byte as u128) << (8 * j);
        }
        expected = (expected + value % 1000) % 1000;
    }

    let session_id = state.current_session.as_ref().unwrap().session_id.clone();
    let result = state
        .history
        .iter()
        .find(|r| r.session_id == session_id)
        .unwrap();

    assert_eq!(result.winning_number as u128, expected);
    assert_eq!(result.reward_pool, 2700u128);
    if result.winning_number == 123 {
        assert_eq!(result.winners.len(), 3000);
    } else {
        assert_eq!(result.winners.len(), 0);
    }
}

#[test]
fn test_reveal_without_commitment() {
    let (mut state, _env) = setup(1000);

    let env = mock_env_with_height(7000);
    let reveal_msg = ExecuteMsg::RevealRandom {
        lucky_numbers: vec![123],
        random_seed: "user1_seed".to_string(),
    };
    let res = execute(&mut state, &env, mock_info(USER1, &[]), 0, reveal_msg);
    assert!(matches!(res, Err(ContractError::ParticipantNotFound)));
}

#[test]
fn test_settle_without_reveals() {
    let (mut state, env) = setup(1000);

    let bet_info = mock_info(USER1, &[Coin { denom: DENOM.to_string(), amount: 1000 }]);
    let bet_msg = ExecuteMsg::PlaceBet {
        commitment_hash: generate_commitment_hash(1000, &vec![123; 1000], "user1_seed"),
    };
    execute(&mut state, &env, bet_info, 0, bet_msg).unwrap();

    let env = mock_env_with_height(9500);
    let res = execute(&mut state, &env, mock_info(ADMIN, &[]), 0, ExecuteMsg::SettleLottery {});
    assert!(matches!(res, Err(ContractError::NoParticipants)));
}

#[test]
fn test_settle_without_session() {
    let (mut state, _env) = setup(1000);
    let env = mock_env_with_height(9500);
    let res = execute(&mut state, &env, mock_info(ADMIN, &[]), 0, ExecuteMsg::SettleLottery {});
    assert!(matches!(res, Err(ContractError::SessionNotFound)));
}

#[test]
fn test_paused_contract_rejects_bets() {
    let (mut state, env) = setup(1000);

    execute(
        &mut state,
        &env,
        mock_info(ADMIN, &[]),
        0,
        ExecuteMsg::EmergencyPause { paused: true },
    )
    .unwrap();
    assert!(state.config.paused);

    let bet_info = mock_info(USER1, &[Coin { denom: DENOM.to_string(), amount: 1000 }]);
    let bet_msg = ExecuteMsg::PlaceBet {
        commitment_hash: generate_commitment_hash(1000, &[123], "user1_seed"),
    };
    let res = execute(&mut state, &env, bet_info, 0, bet_msg);
    assert!(matches!(res, Err(ContractError::ContractPaused)));
}

#[test]
fn test_pause_requested_at_cycle_start() {
    let (mut state, _env) = setup(1000);
    execute(
        &mut state,
        &mock_env_with_height(1000),
        mock_info(ADMIN, &[]),
        0,
        ExecuteMsg::UpdateConfig {
            service_fee_rate: None,
            min_bet_amount: None,
            max_bet_amount: None,
            bet_denom: None,
            pause_requested: Some(true),
        },
    )
    .unwrap();

    // at the start of a new cycle a requested pause takes effect
    let env = mock_env_with_height(10000);
    let bet_info = mock_info(USER1, &[Coin { denom: DENOM.to_string(), amount: 1000 }]);
    let bet_msg = ExecuteMsg::PlaceBet {
        commitment_hash: generate_commitment_hash(1000, &[123], "user1_seed"),
    };
    let res = execute(&mut state, &env, bet_info.clone(), 0, bet_msg.clone());
    assert!(matches!(res, Err(ContractError::ContractPaused)));

    // one block later the cycle is under way and bets are accepted again
    let env = mock_env_with_height(10001);
    let res = execute(&mut state, &env, bet_info, 0, bet_msg);
    assert!(res.is_ok());
}

#[test]
fn test_update_config_validation() {
    let (mut state, env) = setup(1000);

    let res = execute(
        &mut state,
        &env,
        mock_info(ADMIN, &[]),
        0,
        ExecuteMsg::UpdateConfig {
            service_fee_rate: Some(FeeRate::from_atomics(2000000000000000000)),
            min_bet_amount: None,
            max_bet_amount: None,
            bet_denom: None,
            pause_requested: None,
        },
    );
    assert!(matches!(res, Err(ContractError::InvalidServiceFeeRate { .. })));

    let res = execute(
        &mut state,
        &env,
        mock_info(ADMIN, &[]),
        0,
        ExecuteMsg::UpdateConfig {
            service_fee_rate: None,
            min_bet_amount: Some(1000000),
            max_bet_amount: None,
            bet_denom: None,
            pause_requested: None,
        },
    );
    assert!(matches!(res, Err(ContractError::InvalidBetAmount { amount: 1000000 })));

    let res = execute(
        &mut state,
        &env,
        mock_info(ADMIN, &[]),
        0,
        ExecuteMsg::UpdateConfig {
            service_fee_rate: None,
            min_bet_amount: None,
            max_bet_amount: Some(1000),
            bet_denom: None,
            pause_requested: None,
        },
    );
    assert!(matches!(res, Err(ContractError::InvalidBetAmount { amount: 1000 })));

    let res = execute(
        &mut state,
        &env,
        mock_info(ADMIN, &[]),
        0,
        ExecuteMsg::UpdateConfig {
            service_fee_rate: None,
            min_bet_amount: None,
            max_bet_amount: None,
            bet_denom: Some("".to_string()),
            pause_requested: None,
        },
    );
    assert!(matches!(res, Err(ContractError::InvalidBetDenom)));

    execute(
        &mut state,
        &env,
        mock_info(ADMIN, &[]),
        0,
        ExecuteMsg::UpdateConfig {
            service_fee_rate: Some(FeeRate::percent(20)),
            min_bet_amount: Some(500),
            max_bet_amount: Some(2000000),
            bet_denom: Some("uluna".to_string()),
            pause_requested: Some(true),
        },
    )
    .unwrap();
    assert_eq!(state.config.service_fee_rate, FeeRate::percent(20));
    assert_eq!(state.config.min_bet_amount, 500);
    assert_eq!(state.config.max_bet_amount, 2000000);
    assert_eq!(state.config.bet_denom, "uluna".to_string());
    assert!(state.config.pause_requested);
}

#[test]
fn test_withdraw_service_fee_decisions() {
    let (mut state, env) = setup(1000);

    let res = execute(
        &mut state,
        &env,
        mock_info(ADMIN, &[]),
        500,
        ExecuteMsg::WithdrawServiceFee { amount: 1000 },
    );
    assert!(matches!(res, Err(ContractError::InsufficientFunds)));

    let res = execute(
        &mut state,
        &env,
        mock_info(ADMIN, &[]),
        5000,
        ExecuteMsg::WithdrawServiceFee { amount: 1000 },
    )
    .unwrap();
    let transfer = res.transfer.unwrap();
    assert_eq!(transfer.to_address, ADMIN.to_string());
    assert_eq!(transfer.denom, DENOM.to_string());
    assert_eq!(transfer.amount, 1000);
}

#[test]
fn test_instantiate_validation() {
    let mut msg = mock_instantiate_msg();
    msg.service_fee_rate = FeeRate::from_atomics(2000000000000000000);
    assert!(matches!(
        instantiate(0, msg),
        Err(ContractError::InvalidServiceFeeRate { .. })
    ));

    let mut msg = mock_instantiate_msg();
    msg.min_bet_amount = 1000000;
    assert!(matches!(instantiate(0, msg), Err(ContractError::InvalidBetAmount { .. })));

    let mut msg = mock_instantiate_msg();
    msg.bet_denom = "".to_string();
    assert!(matches!(instantiate(0, msg), Err(ContractError::InvalidBetDenom)));
}

#[test]
fn test_migrate_admin_gate() {
    let (mut state, _env) = setup(1000);

    let res = migrate(
        &mut state,
        &USER1.to_string(),
        MigrateMsg { new_admin: Some(USER1.to_string()) },
    );
    assert!(matches!(res, Err(ContractError::Unauthorized)));
    assert_eq!(state.config.admin, ADMIN.to_string());

    migrate(
        &mut state,
        &ADMIN.to_string(),
        MigrateMsg { new_admin: Some(USER1.to_string()) },
    )
    .unwrap();
    assert_eq!(state.config.admin, USER1.to_string());
}

#[test]
fn test_errors_leave_state_unchanged() {
    let (mut state, env) = setup(1000);

    let bet_info = mock_info(USER1, &[Coin { denom: DENOM.to_string(), amount: 1000 }]);
    let bet_msg = ExecuteMsg::PlaceBet {
        commitment_hash: generate_commitment_hash(1000, &vec![123; 1000], "user1_seed"),
    };
    execute(&mut state, &env, bet_info, 0, bet_msg).unwrap();
    let snapshot = state.clone();

    // a failing reveal (wrong phase) changes nothing
    let reveal_msg = ExecuteMsg::RevealRandom {
        lucky_numbers: vec![123; 1000],
        random_seed: "user1_seed".to_string(),
    };
    let res = execute(&mut state, &env, mock_info(USER1, &[]), 0, reveal_msg);
    assert!(matches!(res, Err(ContractError::InvalidPhase { .. })));
    assert_eq!(state, snapshot);

    // a failing settle (wrong phase) changes nothing
    let res = execute(&mut state, &env, mock_info(ADMIN, &[]), 0, ExecuteMsg::SettleLottery {});
    assert!(matches!(res, Err(ContractError::InvalidPhase { .. })));
    assert_eq!(state, snapshot);
}

#[test]
fn test_no_bet_denom_means_zero_amount() {
    let (mut state, env) = setup(1000);

    let bet_info = mock_info(USER1, &[Coin { denom: "uother".to_string(), amount: 5000 }]);
    let bet_msg = ExecuteMsg::PlaceBet {
        commitment_hash: generate_commitment_hash(5000, &[123], "user1_seed"),
    };
    let res = execute(&mut state, &env, bet_info, 0, bet_msg);
    assert!(matches!(res, Err(ContractError::InvalidBetAmount { amount: 0 })));
}
