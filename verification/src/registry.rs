//! Executor and watchdog registration, and heartbeats.

use vstd::prelude::*;
use crate::types::{Address, EnclaveType, Error, Operator, Phase};
use crate::state::SystemState;
use crate::store::{alist_get, amap_set, slist_get, smap_get, smap_set};
use crate::oracle::{spec_attestation_accepts, verify_attestation_report};

verus! {

/// The other enclave kind.
pub open spec fn other_kind(kind: EnclaveType) -> EnclaveType {
    match kind {
        EnclaveType::IntelSGX => EnclaveType::AMDSEV,
        EnclaveType::AMDSEV => EnclaveType::IntelSGX,
    }
}

/// An operator record that exists and was initialized at bootstrap.
pub open spec fn spec_operator_ready(op: Option<Operator>) -> bool {
    match op {
        Some(o) => o.initialized,
        None => false,
    }
}

/// The operator record after a successful executor registration: same
/// counters, fresh attestation report and heartbeat.
pub open spec fn spec_operator_after_registration(o: Operator, report: Vec<u8>, now: u64) -> Operator {
    Operator { attestation_report: report, last_heartbeat: now, ..o }
}

/// The exact outcome of `register_executor` on a given state and inputs.
pub open spec fn spec_register_executor_check(
    pre: SystemState,
    caller: Address,
    kind: EnclaveType,
    operator_key: Seq<char>,
    report: Seq<u8>,
    token: Seq<u8>,
) -> Result<(), Error> {
    if !pre.initialized {
        Err(Error::Uninitialized)
    } else if pre.current_phase != Phase::Creation {
        Err(Error::WrongPhase { expected: Phase::Creation, actual: pre.current_phase })
    } else if !spec_operator_ready(slist_get(pre.operators@, operator_key)) {
        Err(Error::NotRegistered)
    } else if !spec_attestation_accepts(report, token, kind) {
        Err(Error::InvalidAttestation)
    } else if pre.spec_is_watchdog(caller) || pre.spec_is_executor(caller) {
        Err(Error::Unauthorized)
    } else if pre.spec_slot(kind) is Some {
        Err(Error::SlotFilled)
    } else {
        Ok(())
    }
}

/// Fills the executor slot of the declared kind with the caller.
///
/// Requires the `Creation` phase, a bootstrap-initialized operator record,
/// a passing attestation, and a caller that holds no other role.  Stores
/// the caller's enclave kind, sandbox id, attestation token and heartbeat,
/// and moves the phase to `Executing` once both slots are filled.  On any
/// error the state is unchanged.
pub fn register_executor(
    state: &mut SystemState,
    caller: Address,
    now: u64,
    enclave_type: EnclaveType,
    operator_address: String,
    keep_id: String,
    attestation_report: Vec<u8>,
    drawbridge_token: Vec<u8>,
) -> (r: Result<(), Error>)
    requires
        old(state).wf(),
    ensures
        final(state).wf(),
        r == spec_register_executor_check(
            *old(state),
            caller,
            enclave_type,
            operator_address@,
            attestation_report@,
            drawbridge_token@,
        ),
        r is Err ==> *final(state) == *old(state),
        r is Ok ==> {
            &&& final(state).spec_slot(enclave_type) == Some(caller)
            &&& final(state).spec_slot(other_kind(enclave_type)) == old(state).spec_slot(
                other_kind(enclave_type),
            )
            &&& final(state).spec_kind_of(caller) == Some(enclave_type)
            &&& forall|a: Address|
                a != caller ==> final(state).spec_kind_of(a) == old(state).spec_kind_of(a)
            &&& alist_get(final(state).keep_ids@, caller) == Some(keep_id)
            &&& alist_get(final(state).drawbridge_tokens@, caller) == Some(drawbridge_token)
            &&& alist_get(final(state).attestation_status@, caller) == Some(true)
            &&& alist_get(final(state).heartbeat_timestamps@, caller) == Some(now)
            &&& alist_get(final(state).keep_status@, caller) == Some(true)
            &&& alist_get(final(state).last_attestation_times@, caller) == Some(now)
            &&& (match alist_get(final(state).operator_keys@, caller) {
                Some(k) => k@ == operator_address@,
                None => false,
            })
            &&& slist_get(final(state).operators@, operator_address@) == Some(
                spec_operator_after_registration(
                    slist_get(old(state).operators@, operator_address@).unwrap(),
                    attestation_report,
                    now,
                ),
            )
            &&& final(state).current_phase == (if old(state).spec_slot(
                other_kind(enclave_type),
            ) is Some {
                Phase::Executing
            } else {
                Phase::Creation
            })
            &&& final(state).watchdog_pool == old(state).watchdog_pool
            &&& final(state).challenges == old(state).challenges
            &&& final(state).execution_results == old(state).execution_results
            &&& final(state).pending_verifications == old(state).pending_verifications
            &&& final(state).challenge_count == old(state).challenge_count
            &&& final(state).contract_count == old(state).contract_count
            &&& final(state).executor_pool.execution_count == old(
                state,
            ).executor_pool.execution_count
            &&& final(state).executor_pool.failed_attempts == old(
                state,
            ).executor_pool.failed_attempts
        },
{
    if !state.initialized {
        return Err(Error::Uninitialized);
    }
    if !(state.current_phase == Phase::Creation) {
        return Err(Error::WrongPhase { expected: Phase::Creation, actual: state.current_phase });
    }
    let operator_ok = match smap_get(&state.operators, &operator_address) {
        Some(op) => op.initialized,
        None => false,
    };
    if !operator_ok {
        return Err(Error::NotRegistered);
    }
    if !verify_attestation_report(
        attestation_report.as_slice(),
        drawbridge_token.as_slice(),
        enclave_type,
    ) {
        return Err(Error::InvalidAttestation);
    }
    if state.is_watchdog(&caller) || state.is_executor(&caller) {
        return Err(Error::Unauthorized);
    }
    let slot_filled = match enclave_type {
        EnclaveType::IntelSGX => state.executor_pool.sgx_executor.is_some(),
        EnclaveType::AMDSEV => state.executor_pool.sev_executor.is_some(),
    };
    if slot_filled {
        return Err(Error::SlotFilled);
    }

    // All gates passed: stage every write of this transaction.
    match enclave_type {
        EnclaveType::IntelSGX => {
            state.executor_pool.sgx_executor = Some(caller);
        },
        EnclaveType::AMDSEV => {
            state.executor_pool.sev_executor = Some(caller);
        },
    }
    amap_set(&mut state.enclave_types, caller, enclave_type);
    amap_set(&mut state.keep_ids, caller, keep_id);
    amap_set(&mut state.drawbridge_tokens, caller, drawbridge_token);
    amap_set(&mut state.attestation_status, caller, true);
    amap_set(&mut state.heartbeat_timestamps, caller, now);
    amap_set(&mut state.keep_status, caller, true);
    amap_set(&mut state.last_attestation_times, caller, now);
    amap_set(&mut state.operator_keys, caller, operator_address.clone());

    let (keep_initialized, keep_ci, keep_cr) = match smap_get(&state.operators, &operator_address) {
        Some(op) => (op.initialized, op.challenges_initiated, op.challenges_responded),
        None => (false, 0u64, 0u64),
    };
    let updated_op = Operator {
        initialized: keep_initialized,
        attestation_report,
        last_heartbeat: now,
        challenges_initiated: keep_ci,
        challenges_responded: keep_cr,
    };
    smap_set(&mut state.operators, operator_address, updated_op);

    let both_filled = state.executor_pool.sgx_executor.is_some()
        && state.executor_pool.sev_executor.is_some();
    if both_filled {
        state.current_phase = Phase::Executing;
        state.last_global_update = now;
    }

    Ok(())
}

/// The exact outcome of `register_watchdog` on a given state and inputs.
pub open spec fn spec_register_watchdog_check(
    pre: SystemState,
    caller: Address,
    kind: EnclaveType,
    report: Seq<u8>,
    token: Seq<u8>,
) -> Result<(), Error> {
    if !pre.initialized {
        Err(Error::Uninitialized)
    } else if pre.current_phase != Phase::Creation && pre.current_phase != Phase::Executing {
        Err(Error::WrongPhase { expected: Phase::Executing, actual: pre.current_phase })
    } else if pre.spec_is_watchdog(caller) {
        Err(Error::DuplicateSubmission)
    } else if pre.spec_is_executor(caller) {
        Err(Error::Unauthorized)
    } else if !spec_attestation_accepts(report, token, kind) {
        Err(Error::InvalidAttestation)
    } else {
        Ok(())
    }
}

/// Adds the caller to the watchdog pool under the declared kind.
///
/// Valid in `Creation` or `Executing`; the caller must not already be a
/// watchdog or an executor, and its attestation must pass.  The phase
/// never changes.  On any error the state is unchanged.
pub fn register_watchdog(
    state: &mut SystemState,
    caller: Address,
    now: u64,
    enclave_type: EnclaveType,
    attestation_report: Vec<u8>,
    tee_signature: Vec<u8>,
) -> (r: Result<(), Error>)
    requires
        old(state).wf(),
    ensures
        final(state).wf(),
        r == spec_register_watchdog_check(
            *old(state),
            caller,
            enclave_type,
            attestation_report@,
            tee_signature@,
        ),
        r is Err ==> *final(state) == *old(state),
        r is Ok ==> {
            &&& final(state).watchdog_pool.watchdogs@ == old(
                state,
            ).watchdog_pool.watchdogs@.push((caller, enclave_type))
            &&& final(state).spec_kind_of(caller) == Some(enclave_type)
            &&& forall|a: Address|
                a != caller ==> final(state).spec_kind_of(a) == old(state).spec_kind_of(a)
            &&& alist_get(final(state).attestation_status@, caller) == Some(true)
            &&& alist_get(final(state).heartbeat_timestamps@, caller) == Some(now)
            &&& alist_get(final(state).keep_status@, caller) == Some(true)
            &&& alist_get(final(state).last_attestation_times@, caller) == Some(now)
            &&& final(state).current_phase == old(state).current_phase
            &&& final(state).executor_pool == old(state).executor_pool
            &&& final(state).challenges == old(state).challenges
            &&& final(state).execution_results == old(state).execution_results
            &&& final(state).pending_verifications == old(state).pending_verifications
            &&& final(state).watchdog_pool.active_challenges == old(
                state,
            ).watchdog_pool.active_challenges
            &&& final(state).challenge_count == old(state).challenge_count
        },
{
    if !state.initialized {
        return Err(Error::Uninitialized);
    }
    if !(state.current_phase == Phase::Creation || state.current_phase == Phase::Executing) {
        return Err(Error::WrongPhase { expected: Phase::Executing, actual: state.current_phase });
    }
    if state.is_watchdog(&caller) {
        return Err(Error::DuplicateSubmission);
    }
    if state.is_executor(&caller) {
        return Err(Error::Unauthorized);
    }
    if !verify_attestation_report(
        attestation_report.as_slice(),
        tee_signature.as_slice(),
        enclave_type,
    ) {
        return Err(Error::InvalidAttestation);
    }

    state.watchdog_pool.watchdogs.push((caller, enclave_type));
    amap_set(&mut state.enclave_types, caller, enclave_type);
    amap_set(&mut state.attestation_status, caller, true);
    amap_set(&mut state.heartbeat_timestamps, caller, now);
    amap_set(&mut state.keep_status, caller, true);
    amap_set(&mut state.last_attestation_times, caller, now);

    Ok(())
}

/// The exact outcome of `register_ready_tee` on a given state and inputs.
pub open spec fn spec_register_ready_tee_check(
    pre: SystemState,
    caller: Address,
    kind: EnclaveType,
    report: Seq<u8>,
    token: Seq<u8>,
) -> Result<(), Error> {
    if !pre.initialized {
        Err(Error::Uninitialized)
    } else if pre.current_phase == Phase::Crashed {
        Err(Error::WrongPhase { expected: Phase::Executing, actual: pre.current_phase })
    } else if pre.spec_is_watchdog(caller) {
        Err(Error::DuplicateSubmission)
    } else if pre.spec_is_executor(caller) {
        Err(Error::Unauthorized)
    } else if !spec_attestation_accepts(report, token, kind) {
        Err(Error::InvalidAttestation)
    } else {
        Ok(())
    }
}

/// Registers a stand-by TEE into the watchdog pool for later executor
/// replacement, recording its sandbox id and attestation token along with
/// its kind and a live sandbox mark.  Unlike `register_watchdog` this path
/// is not phase-gated: stand-bys may arrive at any point after bootstrap.
/// On any error the state is unchanged.
pub fn register_ready_tee(
    state: &mut SystemState,
    caller: Address,
    now: u64,
    enclave_type: EnclaveType,
    keep_id: String,
    attestation_report: Vec<u8>,
    drawbridge_token: Vec<u8>,
) -> (r: Result<(), Error>)
    requires
        old(state).wf(),
    ensures
        final(state).wf(),
        r == spec_register_ready_tee_check(
            *old(state),
            caller,
            enclave_type,
            attestation_report@,
            drawbridge_token@,
        ),
        r is Err ==> *final(state) == *old(state),
        r is Ok ==> {
            &&& final(state).watchdog_pool.watchdogs@ == old(
                state,
            ).watchdog_pool.watchdogs@.push((caller, enclave_type))
            &&& final(state).spec_kind_of(caller) == Some(enclave_type)
            &&& forall|a: Address|
                a != caller ==> final(state).spec_kind_of(a) == old(state).spec_kind_of(a)
            &&& alist_get(final(state).keep_ids@, caller) == Some(keep_id)
            &&& alist_get(final(state).drawbridge_tokens@, caller) == Some(drawbridge_token)
            &&& alist_get(final(state).keep_status@, caller) == Some(true)
            &&& alist_get(final(state).last_attestation_times@, caller) == Some(now)
            &&& final(state).current_phase == old(state).current_phase
            &&& final(state).executor_pool == old(state).executor_pool
            &&& final(state).challenges == old(state).challenges
            &&& final(state).execution_results == old(state).execution_results
            &&& final(state).pending_verifications == old(state).pending_verifications
        },
{
    if !state.initialized {
        return Err(Error::Uninitialized);
    }
    if state.current_phase == Phase::Crashed {
        return Err(Error::WrongPhase { expected: Phase::Executing, actual: state.current_phase });
    }
    if state.is_watchdog(&caller) {
        return Err(Error::DuplicateSubmission);
    }
    if state.is_executor(&caller) {
        return Err(Error::Unauthorized);
    }
    if !verify_attestation_report(
        attestation_report.as_slice(),
        drawbridge_token.as_slice(),
        enclave_type,
    ) {
        return Err(Error::InvalidAttestation);
    }

    state.watchdog_pool.watchdogs.push((caller, enclave_type));
    amap_set(&mut state.enclave_types, caller, enclave_type);
    amap_set(&mut state.keep_ids, caller, keep_id);
    amap_set(&mut state.drawbridge_tokens, caller, drawbridge_token);
    amap_set(&mut state.keep_status, caller, true);
    amap_set(&mut state.last_attestation_times, caller, now);

    Ok(())
}

/// The exact outcome of `submit_heartbeat` on a given state and caller.
pub open spec fn spec_submit_heartbeat_check(pre: SystemState, caller: Address) -> Result<
    (),
    Error,
> {
    if !pre.initialized {
        Err(Error::Uninitialized)
    } else if pre.current_phase == Phase::Crashed {
        Err(Error::WrongPhase { expected: Phase::Executing, actual: pre.current_phase })
    } else if !pre.spec_is_executor(caller) && !pre.spec_is_watchdog(caller) {
        Err(Error::Unauthorized)
    } else {
        Ok(())
    }
}

/// Records a liveness heartbeat for an executor or watchdog.  For an
/// executor the pool's execution counter and last-execution time advance
/// too.  On any error the state is unchanged.
pub fn submit_heartbeat(state: &mut SystemState, caller: Address, now: u64) -> (r: Result<
    (),
    Error,
>)
    requires
        old(state).wf(),
        old(state).executor_pool.execution_count < u64::MAX,
    ensures
        final(state).wf(),
        r == spec_submit_heartbeat_check(*old(state), caller),
        r is Err ==> *final(state) == *old(state),
        r is Ok ==> {
            &&& alist_get(final(state).heartbeat_timestamps@, caller) == Some(now)
            &&& forall|a: Address|
                a != caller ==> alist_get(final(state).heartbeat_timestamps@, a) == alist_get(
                    old(state).heartbeat_timestamps@,
                    a,
                )
            &&& (old(state).spec_is_executor(caller) ==> {
                &&& final(state).executor_pool.execution_count == old(
                    state,
                ).executor_pool.execution_count + 1
                &&& final(state).executor_pool.last_execution_time == now
            })
            &&& (!old(state).spec_is_executor(caller) ==> final(state).executor_pool == old(
                state,
            ).executor_pool)
            &&& final(state).current_phase == old(state).current_phase
            &&& final(state).watchdog_pool == old(state).watchdog_pool
            &&& final(state).executor_pool.sgx_executor == old(state).executor_pool.sgx_executor
            &&& final(state).executor_pool.sev_executor == old(state).executor_pool.sev_executor
            &&& final(state).challenges == old(state).challenges
            &&& final(state).execution_results == old(state).execution_results
            &&& final(state).pending_verifications == old(state).pending_verifications
            &&& final(state).enclave_types == old(state).enclave_types
            &&& final(state).keep_status == old(state).keep_status
        },
{
    if !state.initialized {
        return Err(Error::Uninitialized);
    }
    if state.current_phase == Phase::Crashed {
        return Err(Error::WrongPhase { expected: Phase::Executing, actual: state.current_phase });
    }
    let is_executor = state.is_executor(&caller);
    let is_watchdog = state.is_watchdog(&caller);
    if !is_executor && !is_watchdog {
        return Err(Error::Unauthorized);
    }

    amap_set(&mut state.heartbeat_timestamps, caller, now);
    if is_executor {
        state.executor_pool.last_execution_time = now;
        state.executor_pool.execution_count = state.executor_pool.execution_count + 1;
    }

    Ok(())
}

} // verus!
