//! The outbound-call edge: token and governance interactions.
//!
//! The core never performs an outbound call itself.  Each operation here
//! checks the caller and phase, stages all in-core writes, and returns a
//! plain description of the call the host must make (a token movement or
//! a list of transfers); a failing outbound call then aborts the host
//! transaction as a whole.

use vstd::prelude::*;
use crate::types::{Address, EnclaveType, Error, Phase, TokenInteraction, TokenInteractionType};
use crate::state::SystemState;

verus! {

/// Stake every participant must keep to stay eligible.
pub const MIN_STAKE: u64 = 1000;

/// The exact outcome of `stake_tokens` on a given state and caller.
pub open spec fn spec_stake_tokens_check(pre: SystemState, caller: Address) -> Result<(), Error> {
    if !pre.initialized {
        Err(Error::Uninitialized)
    } else if pre.current_phase == Phase::Crashed {
        Err(Error::WrongPhase { expected: Phase::Executing, actual: pre.current_phase })
    } else if !pre.spec_is_executor(caller) && !pre.spec_is_watchdog(caller) {
        Err(Error::Unauthorized)
    } else if pre.token_contract is None {
        Err(Error::StateCorruption)
    } else {
        Ok(())
    }
}

/// Accepts a stake from an executor or watchdog: stages the token
/// transfer from the caller to the contract for the host to perform.
/// On any error the state is unchanged.
pub fn stake_tokens(state: &mut SystemState, caller: Address, now: u64, amount: u64) -> (r: Result<
    TokenInteraction,
    Error,
>)
    requires
        old(state).wf(),
    ensures
        final(state).wf(),
        (match r {
            Ok(_) => spec_stake_tokens_check(*old(state), caller) is Ok,
            Err(e) => spec_stake_tokens_check(*old(state), caller) == Err::<(), Error>(e),
        }),
        r is Err ==> *final(state) == *old(state),
        r matches Ok(t) ==> {
            &&& t.token_address == old(state).token_contract.unwrap()
            &&& t.amount == amount
            &&& t.interaction_type == TokenInteractionType::Stake
            &&& *final(state) == (SystemState { last_global_update: now, ..*old(state) })
        },
{
    if !state.initialized {
        return Err(Error::Uninitialized);
    }
    if state.current_phase == Phase::Crashed {
        return Err(Error::WrongPhase { expected: Phase::Executing, actual: state.current_phase });
    }
    if !state.is_executor(&caller) && !state.is_watchdog(&caller) {
        return Err(Error::Unauthorized);
    }
    let token_address = match &state.token_contract {
        Some(a) => *a,
        None => {
            return Err(Error::StateCorruption);
        },
    };
    state.last_global_update = now;
    Ok(TokenInteraction { token_address, amount, interaction_type: TokenInteractionType::Stake })
}

/// The transfers a reward distribution performs: one third of the
/// balance split over the occupied executor slots, one third split
/// evenly over the watchdogs, one third left in the contract.
pub open spec fn spec_reward_transfers(pre: SystemState, balance: u64) -> Seq<(Address, u64)> {
    let executor_reward = balance as int / 3;
    let watchdog_reward = balance as int / 3;
    let slot_transfers = (match pre.executor_pool.sgx_executor {
        Some(a) => seq![(a, (executor_reward / 2) as u64)],
        None => Seq::<(Address, u64)>::empty(),
    }) + (match pre.executor_pool.sev_executor {
        Some(a) => seq![(a, (executor_reward / 2) as u64)],
        None => Seq::<(Address, u64)>::empty(),
    });
    let w = pre.watchdog_pool.watchdogs@.len();
    if w > 0 {
        slot_transfers + pre.watchdog_pool.watchdogs@.map(
            |i: int, p: (Address, EnclaveType)| (p.0, (watchdog_reward / (w as int)) as u64),
        )
    } else {
        slot_transfers
    }
}

/// The exact outcome of `distribute_rewards` on a given state.
pub open spec fn spec_distribute_rewards_check(pre: SystemState) -> Result<(), Error> {
    if !pre.initialized {
        Err(Error::Uninitialized)
    } else if pre.current_phase != Phase::Executing {
        Err(Error::WrongPhase { expected: Phase::Executing, actual: pre.current_phase })
    } else {
        Ok(())
    }
}

/// Computes the reward transfers for the host to perform, given the
/// contract's current token balance: a third of the balance is split
/// between the executors, a third evenly among the watchdogs, and a
/// third stays with the contract.  Valid only while executing; the state
/// itself is not changed.
#[verifier::loop_isolation(false)]
pub fn distribute_rewards(state: &SystemState, contract_balance: u64) -> (r: Result<
    Vec<(Address, u64)>,
    Error,
>)
    ensures
        (match r {
            Ok(_) => spec_distribute_rewards_check(*state) is Ok,
            Err(e) => spec_distribute_rewards_check(*state) == Err::<(), Error>(e),
        }),
        r matches Ok(ts) ==> ts@ == spec_reward_transfers(*state, contract_balance),
{
    if !state.initialized {
        return Err(Error::Uninitialized);
    }
    if !(state.current_phase == Phase::Executing) {
        return Err(Error::WrongPhase { expected: Phase::Executing, actual: state.current_phase });
    }

    let executor_reward = contract_balance / 3;
    let watchdog_reward = contract_balance / 3;
    let mut transfers: Vec<(Address, u64)> = Vec::new();
    match &state.executor_pool.sgx_executor {
        Some(a) => {
            transfers.push((*a, executor_reward / 2));
        },
        None => {},
    }
    match &state.executor_pool.sev_executor {
        Some(a) => {
            transfers.push((*a, executor_reward / 2));
        },
        None => {},
    }
    let ghost slot_transfers = transfers@;

    let w = state.watchdog_pool.watchdogs.len();
    if w > 0 {
        let per_watchdog = watchdog_reward / (w as u64);
        let mut i: usize = 0;
        while i < w
            invariant
                w == state.watchdog_pool.watchdogs@.len(),
                i <= w,
                w > 0,
                per_watchdog == watchdog_reward as int / (w as int),
                transfers@ == slot_transfers + state.watchdog_pool.watchdogs@.take(i as int).map(
                    |j: int, p: (Address, EnclaveType)| (p.0, per_watchdog),
                ),
            decreases w - i,
        {
            let entry = state.watchdog_pool.watchdogs[i];
            transfers.push((entry.0, per_watchdog));
            proof {
                let f = |j: int, p: (Address, EnclaveType)| (p.0, per_watchdog);
                assert(state.watchdog_pool.watchdogs@.take(i + 1).map(f) =~= state
                    .watchdog_pool.watchdogs@.take(i as int).map(f).push(
                    (entry.0, per_watchdog),
                ));
                assert(transfers@ =~= slot_transfers + state.watchdog_pool.watchdogs@.take(
                    i + 1,
                ).map(f));
            }
            i += 1;
        }
        proof {
            assert(state.watchdog_pool.watchdogs@.take(w as int) =~= state
                .watchdog_pool.watchdogs@);
            let f = |j: int, p: (Address, EnclaveType)| (p.0, per_watchdog);
            assert(state.watchdog_pool.watchdogs@.take(w as int).map(f) =~= state
                .watchdog_pool.watchdogs@.map(f));
            assert(transfers@ =~= spec_reward_transfers(*state, contract_balance));
        }
    } else {
        proof {
            assert(transfers@ =~= spec_reward_transfers(*state, contract_balance));
        }
    }
    Ok(transfers)
}

/// The exact outcome of `create_governance_proposal`.
pub open spec fn spec_create_proposal_check(pre: SystemState, caller: Address) -> Result<
    (),
    Error,
> {
    if !pre.initialized {
        Err(Error::Uninitialized)
    } else if !pre.spec_is_executor(caller) && !pre.spec_is_watchdog(caller) {
        Err(Error::Unauthorized)
    } else if pre.governance_contract is None {
        Err(Error::StateCorruption)
    } else {
        Ok(())
    }
}

/// Stages a proposal for the governance collaborator: the host forwards
/// the returned payload to the governance contract's proposal call.  Only
/// executors and watchdogs may propose.  The state is not changed.
pub fn create_governance_proposal(
    state: &SystemState,
    caller: Address,
    proposal_type: Vec<u8>,
    proposal_data: Vec<u8>,
) -> (r: Result<(Address, Vec<u8>, Vec<u8>), Error>)
    ensures
        (match r {
            Ok(_) => spec_create_proposal_check(*state, caller) is Ok,
            Err(e) => spec_create_proposal_check(*state, caller) == Err::<(), Error>(e),
        }),
        r matches Ok(call) ==> {
            &&& call.0 == state.governance_contract.unwrap()
            &&& call.1 == proposal_type
            &&& call.2 == proposal_data
        },
{
    if !state.initialized {
        return Err(Error::Uninitialized);
    }
    if !state.is_executor(&caller) && !state.is_watchdog(&caller) {
        return Err(Error::Unauthorized);
    }
    let governance_address = match &state.governance_contract {
        Some(a) => *a,
        None => {
            return Err(Error::StateCorruption);
        },
    };
    Ok((governance_address, proposal_type, proposal_data))
}

/// The exact outcome of `execute_governance_decision`.
pub open spec fn spec_execute_decision_check(pre: SystemState, caller: Address) -> Result<
    (),
    Error,
> {
    if !pre.initialized {
        Err(Error::Uninitialized)
    } else if pre.governance_contract != Some(caller) {
        Err(Error::Unauthorized)
    } else {
        Ok(())
    }
}

/// Applies a governance decision: gated on the caller being the
/// governance contract itself; the decision's effect on the core is a
/// global-state touch.  On any error the state is unchanged.
pub fn execute_governance_decision(
    state: &mut SystemState,
    caller: Address,
    now: u64,
    proposal_id: u128,
    execution_data: Vec<u8>,
) -> (r: Result<(), Error>)
    requires
        old(state).wf(),
    ensures
        final(state).wf(),
        r == spec_execute_decision_check(*old(state), caller),
        r is Err ==> *final(state) == *old(state),
        r is Ok ==> *final(state) == (SystemState { last_global_update: now, ..*old(state) }),
{
    if !state.initialized {
        return Err(Error::Uninitialized);
    }
    let authorized = match &state.governance_contract {
        Some(a) => *a == caller,
        None => false,
    };
    if !authorized {
        return Err(Error::Unauthorized);
    }
    state.last_global_update = now;
    Ok(())
}

/// The exact outcome of `init_token_contract`.
pub open spec fn spec_init_token_check(
    pre: SystemState,
    caller: Address,
    self_address: Address,
) -> Result<(), Error> {
    if !pre.initialized {
        Err(Error::Uninitialized)
    } else if caller != self_address {
        Err(Error::Unauthorized)
    } else {
        Ok(())
    }
}

/// Records the token collaborator deployed by the host for this core:
/// only the contract itself may bind it.  The host performs the actual
/// deployment and initial mint.  On any error the state is unchanged.
pub fn init_token_contract(
    state: &mut SystemState,
    caller: Address,
    self_address: Address,
    token_address: Address,
) -> (r: Result<(), Error>)
    requires
        old(state).wf(),
    ensures
        final(state).wf(),
        r == spec_init_token_check(*old(state), caller, self_address),
        r is Err ==> *final(state) == *old(state),
        r is Ok ==> *final(state) == (SystemState {
            token_contract: Some(token_address),
            ..*old(state)
        }),
{
    if !state.initialized {
        return Err(Error::Uninitialized);
    }
    if !(caller == self_address) {
        return Err(Error::Unauthorized);
    }
    state.token_contract = Some(token_address);
    Ok(())
}

/// Whether a registered identity holds at least the minimum stake, given
/// its token balance as reported by the token collaborator.
pub fn has_minimum_stake(state: &SystemState, address: &Address, balance: u64) -> (r: bool)
    ensures
        r == (state.spec_kind_of(*address) is Some && balance >= MIN_STAKE),
{
    let registered = crate::store::amap_get(&state.enclave_types, address).is_some();
    registered && balance >= MIN_STAKE
}

} // verus!
