//! System bootstrap.

use vstd::prelude::*;
use crate::types::{Address, Error, ExecutorPool, Operator, Phase, WatchdogPool};
use crate::state::SystemState;
use crate::store::slist_get;

verus! {

/// Bootstraps the system: moves the phase to `Creation`, creates the two
/// empty pools, writes both operator records as initialized, stores the
/// collaborator addresses and zeroes all counters.  Fails with
/// `AlreadyInitialized` when run twice; the state is then unchanged.
pub fn init(
    state: &mut SystemState,
    now: u64,
    sgx_operator: String,
    sev_operator: String,
    token_contract: Address,
    governance_contract: Address,
) -> (r: Result<(), Error>)
    requires
        old(state).wf(),
    ensures
        final(state).wf(),
        r is Ok <==> !old(state).initialized,
        r is Err ==> r == Err::<(), Error>(Error::AlreadyInitialized),
        r is Err ==> *final(state) == *old(state),
        r is Ok ==> {
            &&& final(state).initialized
            &&& final(state).current_phase == Phase::Creation
            &&& final(state).last_global_update == now
            &&& final(state).executor_pool.sgx_executor is None
            &&& final(state).executor_pool.sev_executor is None
            &&& final(state).executor_pool.last_execution_time == now
            &&& final(state).executor_pool.execution_count == 0
            &&& final(state).executor_pool.failed_attempts == 0
            &&& final(state).watchdog_pool.watchdogs@.len() == 0
            &&& final(state).watchdog_pool.active_challenges@.len() == 0
            &&& final(state).watchdog_pool.last_verification == now
            &&& spec_operator_initialized(slist_get(final(state).operators@, sgx_operator@), now)
            &&& spec_operator_initialized(slist_get(final(state).operators@, sev_operator@), now)
            &&& final(state).token_contract == Some(token_contract)
            &&& final(state).governance_contract == Some(governance_contract)
            &&& final(state).challenge_count == 0
            &&& final(state).contract_count == 0
            &&& final(state).challenges@.len() == 0
            &&& final(state).execution_results@.len() == 0
            &&& final(state).execution_mismatches@.len() == 0
            &&& final(state).pending_verifications@.len() == 0
        },
{
    if state.initialized {
        return Err(Error::AlreadyInitialized);
    }

    state.current_phase = Phase::Creation;

    state.executor_pool = ExecutorPool {
        sgx_executor: None,
        sev_executor: None,
        last_execution_time: now,
        execution_count: 0,
        failed_attempts: 0,
    };

    state.watchdog_pool = WatchdogPool {
        watchdogs: Vec::new(),
        active_challenges: Vec::new(),
        last_verification: now,
    };

    let sgx_op = Operator {
        initialized: true,
        attestation_report: Vec::new(),
        last_heartbeat: now,
        challenges_initiated: 0,
        challenges_responded: 0,
    };
    let sev_op = Operator {
        initialized: true,
        attestation_report: Vec::new(),
        last_heartbeat: now,
        challenges_initiated: 0,
        challenges_responded: 0,
    };

    crate::store::smap_set(&mut state.operators, sgx_operator, sgx_op);
    crate::store::smap_set(&mut state.operators, sev_operator, sev_op);

    state.challenges = Vec::new();
    state.execution_results = Vec::new();
    state.execution_mismatches = Vec::new();
    state.pending_verifications = Vec::new();

    state.initialized = true;
    state.token_contract = Some(token_contract);
    state.governance_contract = Some(governance_contract);
    state.challenge_count = 0;
    state.contract_count = 0;
    state.last_global_update = now;

    Ok(())
}

/// An operator record freshly written at bootstrap: marked initialized,
/// heartbeat at the bootstrap time, all counters zero.
pub open spec fn spec_operator_initialized(op: Option<Operator>, now: u64) -> bool {
    match op {
        Some(o) => {
            &&& o.initialized
            &&& o.last_heartbeat == now
            &&& o.challenges_initiated == 0
            &&& o.challenges_responded == 0
        },
        None => false,
    }
}

} // verus!
