//! Genesis and migration: building the initial state from the instantiate
//! message, and the admin-gated migration step.

use vstd::prelude::*;

use crate::error::ContractError;
use crate::msg::{InstantiateMsg, MigrateMsg};
use crate::state::{
    Config, ConfigModel, LotteryState, LotteryStateModel, Stats, FEE_DENOM,
};

verus! {

/// Which error, if any, instantiation fails with.
pub open spec fn instantiate_error(
    rate: crate::state::FeeRate,
    min_bet_amount: u128,
    max_bet_amount: u128,
    bet_denom: Seq<char>,
) -> Option<ContractError> {
    if rate.atomics > FEE_DENOM {
        Some(ContractError::InvalidServiceFeeRate { rate })
    } else if min_bet_amount >= max_bet_amount {
        Some(ContractError::InvalidBetAmount { amount: min_bet_amount })
    } else if bet_denom.len() == 0 {
        Some(ContractError::InvalidBetDenom)
    } else {
        None
    }
}

/// The genesis state: the configuration from the message, empty ledgers,
/// zeroed statistics, and a released reentrancy latch.
pub open spec fn genesis_state(time: u64, msg: InstantiateMsg) -> LotteryStateModel {
    LotteryStateModel {
        config: ConfigModel {
            admin: msg.admin@,
            service_fee_rate: msg.service_fee_rate,
            min_bet_amount: msg.min_bet_amount,
            max_bet_amount: msg.max_bet_amount,
            bet_denom: msg.bet_denom@,
            paused: false,
            pause_requested: match msg.pause_requested {
                Some(p) => p,
                None => false,
            },
        },
        current_session: None,
        commitments: Seq::empty(),
        history: Seq::empty(),
        stats: Stats {
            total_sessions: 0,
            total_participants: 0,
            total_pool: 0,
            total_service_fee: 0,
            total_rewards: 0,
            last_updated: time,
        },
        reentrancy_lock: false,
    }
}

/// Instantiate the contract: validates the fee rate, the bet bounds and the
/// denomination, and returns the genesis state.
pub fn instantiate(time: u64, msg: InstantiateMsg) -> (r: Result<LotteryState, ContractError>)
    ensures
        match instantiate_error(
            msg.service_fee_rate,
            msg.min_bet_amount,
            msg.max_bet_amount,
            msg.bet_denom@,
        ) {
            Some(e) => r == Err::<LotteryState, ContractError>(e),
            None => r is Ok && r->Ok_0@ == genesis_state(time, msg) && r->Ok_0@.wf(),
        },
{
    if msg.service_fee_rate.atomics > FEE_DENOM {
        return Err(ContractError::invalid_service_fee_rate(msg.service_fee_rate));
    }
    if msg.min_bet_amount >= msg.max_bet_amount {
        return Err(ContractError::invalid_bet_amount(msg.min_bet_amount));
    }
    if msg.bet_denom.unicode_len() == 0 {
        return Err(ContractError::InvalidBetDenom);
    }
    let pause_requested = match msg.pause_requested {
        Some(p) => p,
        None => false,
    };
    let state = LotteryState {
        config: Config {
            admin: msg.admin,
            service_fee_rate: msg.service_fee_rate,
            min_bet_amount: msg.min_bet_amount,
            max_bet_amount: msg.max_bet_amount,
            bet_denom: msg.bet_denom,
            paused: false,
            pause_requested,
        },
        current_session: None,
        commitments: Vec::new(),
        history: Vec::new(),
        stats: Stats {
            total_sessions: 0,
            total_participants: 0,
            total_pool: 0,
            total_service_fee: 0,
            total_rewards: 0,
            last_updated: time,
        },
        reentrancy_lock: false,
    };
    proof {
        assert(state@ =~= genesis_state(time, msg));
    }
    Ok(state)
}

/// Migrate the contract: permitted only when the host reports the contract
/// address as the configured admin; optionally hands the admin role over.
pub fn migrate(state: &mut LotteryState, contract_addr: &String, msg: MigrateMsg) -> (r: Result<
    (),
    ContractError,
>)
    requires
        old(state)@.wf(),
    ensures
        contract_addr@ != old(state)@.config.admin ==> r == Err::<(), ContractError>(
            ContractError::Unauthorized,
        ) && final(state)@ == old(state)@,
        contract_addr@ == old(state)@.config.admin ==> r == Ok::<(), ContractError>(())
            && final(state)@ == (LotteryStateModel {
            config: ConfigModel {
                admin: match msg.new_admin {
                    Some(a) => a@,
                    None => old(state)@.config.admin,
                },
                ..old(state)@.config
            },
            ..old(state)@
        }),
        final(state)@.wf(),
{
    if !(*contract_addr == state.config.admin) {
        return Err(ContractError::Unauthorized);
    }
    let ghost admin_model: Seq<char> = match msg.new_admin {
        Some(ref a) => a@,
        None => old(state)@.config.admin,
    };
    match msg.new_admin {
        Some(new_admin) => {
            state.config.admin = new_admin;
        },
        None => {},
    }
    proof {
        assert(state@ =~= (LotteryStateModel {
            config: ConfigModel { admin: admin_model, ..old(state)@.config },
            ..old(state)@
        }));
    }
    Ok(())
}

} // verus!
