//! Failure handling and executor replacement.
//!
//! When a challenge concludes against an executor, its slot is vacated,
//! the failure counter advances, and the watchdog that has waited longest
//! under a compatible kind is rotated into the slot.  With no compatible
//! watchdog the slot stays empty, and the system crashes once both slots
//! are empty.  A watchdog may also volunteer to replace a failed executor
//! directly through `replace_executor`.

use vstd::prelude::*;
use crate::types::{Address, EnclaveType, Error, Phase};
use crate::state::SystemState;
use crate::store::{alist_get, amap_get, amap_set};
use crate::registry::other_kind;
use crate::oracle::{spec_attestation_accepts, verify_attestation_report};

verus! {

/// The kind of the slot an identity currently occupies, if any.
pub open spec fn spec_slot_kind(pre: SystemState, a: Address) -> Option<EnclaveType> {
    if pre.executor_pool.sgx_executor == Some(a) {
        Some(EnclaveType::IntelSGX)
    } else if pre.executor_pool.sev_executor == Some(a) {
        Some(EnclaveType::AMDSEV)
    } else {
        None
    }
}

/// Index of the longest-waiting watchdog of the given kind: the first
/// matching entry in insertion order.
pub open spec fn spec_first_kind(ws: Seq<(Address, EnclaveType)>, kind: EnclaveType) -> Option<
    int,
>
    decreases ws.len(),
{
    if ws.len() == 0 {
        None
    } else if ws[0].1 == kind {
        Some(0int)
    } else {
        match spec_first_kind(ws.skip(1), kind) {
            Some(i) => Some(i + 1),
            None => None,
        }
    }
}

/// A found first-match index is in range and matches the kind.
pub proof fn lemma_first_kind_props(ws: Seq<(Address, EnclaveType)>, kind: EnclaveType)
    ensures
        match spec_first_kind(ws, kind) {
            Some(i) => 0 <= i < ws.len() && ws[i].1 == kind,
            None => forall|j: int| 0 <= j < ws.len() ==> ws[j].1 != kind,
        },
    decreases ws.len(),
{
    if ws.len() > 0 && ws[0].1 != kind {
        lemma_first_kind_props(ws.skip(1), kind);
        assert(forall|j: int| 0 <= j < ws.len() - 1 ==> #[trigger] ws.skip(1)[j] == ws[j + 1]);
        match spec_first_kind(ws.skip(1), kind) {
            Some(i) => {
                assert(ws.skip(1)[i] == ws[i + 1]);
            },
            None => {
                assert forall|j: int| 0 <= j < ws.len() implies ws[j].1 != kind by {
                    if j > 0 {
                        assert(ws.skip(1)[j - 1] == ws[j]);
                    }
                }
            },
        }
    }
}

/// A scan that saw no match up to `i` fixes the first match at `i`.
proof fn lemma_first_kind_at(ws: Seq<(Address, EnclaveType)>, kind: EnclaveType, i: int)
    requires
        0 <= i < ws.len(),
        ws[i].1 == kind,
        forall|j: int| 0 <= j < i ==> ws[j].1 != kind,
    ensures
        spec_first_kind(ws, kind) == Some(i),
    decreases i,
{
    if i > 0 {
        assert(forall|j: int| 0 <= j < ws.len() - 1 ==> #[trigger] ws.skip(1)[j] == ws[j + 1]);
        lemma_first_kind_at(ws.skip(1), kind, i - 1);
    }
}

/// A scan that saw no match anywhere means there is none.
proof fn lemma_first_kind_none(ws: Seq<(Address, EnclaveType)>, kind: EnclaveType)
    requires
        forall|j: int| 0 <= j < ws.len() ==> ws[j].1 != kind,
    ensures
        spec_first_kind(ws, kind) is None,
    decreases ws.len(),
{
    if ws.len() > 0 {
        assert(forall|j: int| 0 <= j < ws.len() - 1 ==> #[trigger] ws.skip(1)[j] == ws[j + 1]);
        lemma_first_kind_none(ws.skip(1), kind);
    }
}

/// What failure handling does to the executor pool, watchdog roster,
/// phase and sandbox-liveness map: a no-op for a party that holds no
/// slot; otherwise the slot is vacated, the failure counter advances, the
/// failed sandbox is marked dead, and the longest-waiting compatible
/// watchdog (if any) is rotated in, returning the phase to `Executing`;
/// with none and both slots empty, the phase crashes.  Fields other than
/// these four are not constrained here.
pub open spec fn spec_failure_core(
    pre: SystemState,
    post: SystemState,
    challenged: Address,
) -> bool {
    match spec_slot_kind(pre, challenged) {
        None => {
            &&& post.executor_pool == pre.executor_pool
            &&& post.watchdog_pool.watchdogs == pre.watchdog_pool.watchdogs
            &&& post.current_phase == pre.current_phase
            &&& post.keep_status == pre.keep_status
        },
        Some(kind) => {
            &&& post.executor_pool.failed_attempts == pre.executor_pool.failed_attempts + 1
            &&& post.executor_pool.execution_count == pre.executor_pool.execution_count
            &&& post.executor_pool.last_execution_time == pre.executor_pool.last_execution_time
            &&& post.spec_slot(other_kind(kind)) == pre.spec_slot(other_kind(kind))
            &&& alist_get(post.keep_status@, challenged) == Some(false)
            &&& match spec_first_kind(pre.watchdog_pool.watchdogs@, kind) {
                Some(i) => {
                    &&& post.spec_slot(kind) == Some(pre.watchdog_pool.watchdogs@[i].0)
                    &&& post.watchdog_pool.watchdogs@ == pre.watchdog_pool.watchdogs@.remove(i)
                    &&& post.current_phase == Phase::Executing
                    &&& (pre.watchdog_pool.watchdogs@[i].0 != challenged ==> alist_get(
                        post.keep_status@,
                        pre.watchdog_pool.watchdogs@[i].0,
                    ) == Some(true))
                    &&& forall|a: Address|
                        a != challenged && a != pre.watchdog_pool.watchdogs@[i].0 ==> alist_get(
                            post.keep_status@,
                            a,
                        ) == alist_get(pre.keep_status@, a)
                },
                None => {
                    &&& post.spec_slot(kind) is None
                    &&& post.watchdog_pool.watchdogs == pre.watchdog_pool.watchdogs
                    &&& post.current_phase == (if pre.spec_slot(other_kind(kind)) is None {
                        Phase::Crashed
                    } else {
                        pre.current_phase
                    })
                    &&& forall|a: Address|
                        a != challenged ==> alist_get(post.keep_status@, a) == alist_get(
                            pre.keep_status@,
                            a,
                        )
                },
            }
        },
    }
}

/// Applies the consequences of a failed (or expired) challenge to the
/// challenged executor, as described above.
pub(crate) fn handle_failure(state: &mut SystemState, challenged: Address)
    requires
        old(state).wf(),
        old(state).executor_pool.failed_attempts < u64::MAX,
    ensures
        final(state).wf(),
        spec_failure_core(*old(state), *final(state), challenged),
        *final(state) == (SystemState {
            executor_pool: final(state).executor_pool,
            watchdog_pool: final(state).watchdog_pool,
            current_phase: final(state).current_phase,
            keep_status: final(state).keep_status,
            ..*old(state)
        }),
        final(state).watchdog_pool.active_challenges == old(
            state,
        ).watchdog_pool.active_challenges,
        final(state).watchdog_pool.last_verification == old(
            state,
        ).watchdog_pool.last_verification,
{
    let ghost pre = *state;
    let in_sgx = match &state.executor_pool.sgx_executor {
        Some(x) => *x == challenged,
        None => false,
    };
    let in_sev = match &state.executor_pool.sev_executor {
        Some(x) => *x == challenged,
        None => false,
    };
    if !in_sgx && !in_sev {
        return ;
    }
    let kind = if in_sgx {
        EnclaveType::IntelSGX
    } else {
        EnclaveType::AMDSEV
    };

    // Vacate the slot and record the failure.
    match kind {
        EnclaveType::IntelSGX => {
            state.executor_pool.sgx_executor = None;
        },
        EnclaveType::AMDSEV => {
            state.executor_pool.sev_executor = None;
        },
    }
    state.executor_pool.failed_attempts = state.executor_pool.failed_attempts + 1;

    // Rotate in the longest-waiting compatible watchdog, if any.
    let mut idx: usize = 0;
    let mut found: bool = false;
    let n = state.watchdog_pool.watchdogs.len();
    while idx < n && !found
        invariant
            n == state.watchdog_pool.watchdogs@.len(),
            idx <= n,
            !found ==> forall|j: int|
                0 <= j < idx ==> state.watchdog_pool.watchdogs@[j].1 != kind,
            found ==> idx < n && state.watchdog_pool.watchdogs@[idx as int].1 == kind
                && (forall|j: int| 0 <= j < idx ==> state.watchdog_pool.watchdogs@[j].1 != kind),
        decreases n - idx + (if found { 0int } else { 1int }),
    {
        if state.watchdog_pool.watchdogs[idx].1 == kind {
            found = true;
        } else {
            idx += 1;
        }
    }

    if found {
        proof {
            lemma_first_kind_at(pre.watchdog_pool.watchdogs@, kind, idx as int);
        }
        let (replacement, _rk) = state.watchdog_pool.watchdogs.remove(idx);
        proof {
            pre.watchdog_pool.watchdogs@.remove_ensures(idx as int);
        }
        match kind {
            EnclaveType::IntelSGX => {
                state.executor_pool.sgx_executor = Some(replacement);
            },
            EnclaveType::AMDSEV => {
                state.executor_pool.sev_executor = Some(replacement);
            },
        }
        amap_set(&mut state.keep_status, replacement, true);
        state.current_phase = Phase::Executing;
        amap_set(&mut state.keep_status, challenged, false);
        proof {
            assert(replacement != challenged);
            assert forall|i: int, j: int|
                0 <= i < j < state.watchdog_pool.watchdogs@.len() implies state
                .watchdog_pool.watchdogs@[i].0 != state.watchdog_pool.watchdogs@[j].0 by {
                assert(pre.inv_watchdogs_distinct());
            }
            assert forall|i: int|
                0 <= i < state.watchdog_pool.watchdogs@.len() implies {
                &&& state.spec_kind_of(#[trigger] state.watchdog_pool.watchdogs@[i].0) == Some(
                    state.watchdog_pool.watchdogs@[i].1,
                )
                &&& !state.spec_is_executor(state.watchdog_pool.watchdogs@[i].0)
            } by {
                let ws = pre.watchdog_pool.watchdogs@;
                if i < idx as int {
                    assert(state.watchdog_pool.watchdogs@[i] == ws[i]);
                    assert(ws[i].0 != ws[idx as int].0);
                } else {
                    assert(state.watchdog_pool.watchdogs@[i] == ws[i + 1]);
                    assert(ws[i + 1].0 != ws[idx as int].0);
                }
            }
        }
    } else {
        proof {
            lemma_first_kind_none(pre.watchdog_pool.watchdogs@, kind);
        }
        amap_set(&mut state.keep_status, challenged, false);
        let both_empty = state.executor_pool.sgx_executor.is_none()
            && state.executor_pool.sev_executor.is_none();
        if both_empty {
            state.current_phase = Phase::Crashed;
        }
    }
}

/// The exact outcome of `replace_executor` on a given state and inputs.
pub open spec fn spec_replace_executor_check(
    pre: SystemState,
    caller: Address,
    failed_executor: Address,
    report: Seq<u8>,
    signature: Seq<u8>,
) -> Result<(), Error> {
    if !pre.initialized {
        Err(Error::Uninitialized)
    } else if pre.current_phase != Phase::Executing && pre.current_phase
        != Phase::ChallengeExecutor {
        Err(Error::WrongPhase { expected: Phase::Executing, actual: pre.current_phase })
    } else if !pre.spec_is_watchdog(caller) {
        Err(Error::Unauthorized)
    } else if pre.spec_kind_of(failed_executor) is None {
        Err(Error::NotRegistered)
    } else if pre.spec_kind_of(caller) != pre.spec_kind_of(failed_executor) {
        Err(Error::NoCompatibleWatchdog)
    } else if !spec_attestation_accepts(
        report,
        signature,
        pre.spec_kind_of(failed_executor).unwrap(),
    ) {
        Err(Error::InvalidAttestation)
    } else {
        Ok(())
    }
}

/// Rotates the calling watchdog into the slot of a failed executor of its
/// own kind, after checking the caller's fresh attestation.  The caller
/// leaves the watchdog pool, the failed executor's sandbox is marked
/// dead, and the phase returns to `Executing`.  On any error the state is
/// unchanged.
pub fn replace_executor(
    state: &mut SystemState,
    caller: Address,
    now: u64,
    failed_executor: Address,
    attestation_report: Vec<u8>,
    tee_signature: Vec<u8>,
) -> (r: Result<(), Error>)
    requires
        old(state).wf(),
    ensures
        final(state).wf(),
        r == spec_replace_executor_check(
            *old(state),
            caller,
            failed_executor,
            attestation_report@,
            tee_signature@,
        ),
        r is Err ==> *final(state) == *old(state),
        r is Ok ==> {
            let kind = old(state).spec_kind_of(failed_executor).unwrap();
            &&& final(state).spec_slot(kind) == Some(caller)
            &&& final(state).spec_slot(other_kind(kind)) == old(state).spec_slot(other_kind(kind))
            &&& !final(state).spec_is_watchdog(caller)
            &&& final(state).watchdog_pool.watchdogs@.len() == old(
                state,
            ).watchdog_pool.watchdogs@.len() - 1
            &&& forall|a: Address|
                a != caller ==> (final(state).spec_is_watchdog(a) == old(state).spec_is_watchdog(
                    a,
                ))
            &&& final(state).current_phase == Phase::Executing
            &&& (failed_executor != caller ==> alist_get(final(state).keep_status@, failed_executor)
                == Some(false))
            &&& alist_get(final(state).keep_status@, caller) == Some(true)
            &&& alist_get(final(state).heartbeat_timestamps@, caller) == Some(now)
            &&& alist_get(final(state).last_attestation_times@, caller) == Some(now)
            &&& final(state).challenges == old(state).challenges
            &&& final(state).execution_results == old(state).execution_results
            &&& final(state).pending_verifications == old(state).pending_verifications
            &&& final(state).enclave_types == old(state).enclave_types
            &&& final(state).executor_pool.failed_attempts == old(
                state,
            ).executor_pool.failed_attempts
        },
{
    if !state.initialized {
        return Err(Error::Uninitialized);
    }
    if !(state.current_phase == Phase::Executing || state.current_phase
        == Phase::ChallengeExecutor) {
        return Err(Error::WrongPhase { expected: Phase::Executing, actual: state.current_phase });
    }
    if !state.is_watchdog(&caller) {
        return Err(Error::Unauthorized);
    }
    let kind = match amap_get(&state.enclave_types, &failed_executor) {
        Some(k) => *k,
        None => {
            return Err(Error::NotRegistered);
        },
    };
    let caller_kind_matches = match amap_get(&state.enclave_types, &caller) {
        Some(k) => *k == kind,
        None => false,
    };
    if !caller_kind_matches {
        return Err(Error::NoCompatibleWatchdog);
    }
    if !verify_attestation_report(attestation_report.as_slice(), tee_signature.as_slice(), kind) {
        return Err(Error::InvalidAttestation);
    }

    let ghost pre = *state;

    // Remove the caller from the watchdog pool.
    let mut idx: usize = 0;
    let mut found: bool = false;
    let n = state.watchdog_pool.watchdogs.len();
    while idx < n && !found
        invariant
            n == state.watchdog_pool.watchdogs@.len(),
            idx <= n,
            *state == pre,
            pre.spec_is_watchdog(caller),
            !found ==> forall|j: int| 0 <= j < idx ==> state.watchdog_pool.watchdogs@[j].0 != caller,
            found ==> idx < n && state.watchdog_pool.watchdogs@[idx as int].0 == caller,
        decreases n - idx + (if found { 0int } else { 1int }),
    {
        if state.watchdog_pool.watchdogs[idx].0 == caller {
            found = true;
        } else {
            idx += 1;
        }
    }
    proof {
        if !found {
            let w = choose|w: int|
                0 <= w < pre.watchdog_pool.watchdogs@.len() && pre.watchdog_pool.watchdogs@[w].0
                    == caller;
            assert(false);
        }
    }
    state.watchdog_pool.watchdogs.remove(idx);
    proof {
        pre.watchdog_pool.watchdogs@.remove_ensures(idx as int);
    }

    // Rotate the caller into the failed executor's slot.
    match kind {
        EnclaveType::IntelSGX => {
            state.executor_pool.sgx_executor = Some(caller);
        },
        EnclaveType::AMDSEV => {
            state.executor_pool.sev_executor = Some(caller);
        },
    }
    amap_set(&mut state.keep_status, failed_executor, false);
    amap_set(&mut state.keep_status, caller, true);
    amap_set(&mut state.heartbeat_timestamps, caller, now);
    amap_set(&mut state.attestation_status, caller, true);
    amap_set(&mut state.last_attestation_times, caller, now);
    state.current_phase = Phase::Executing;

    proof {
        let ws = pre.watchdog_pool.watchdogs@;
        assert forall|i: int, j: int|
            0 <= i < j < state.watchdog_pool.watchdogs@.len() implies state
            .watchdog_pool.watchdogs@[i].0 != state.watchdog_pool.watchdogs@[j].0 by {
            assert(pre.inv_watchdogs_distinct());
        }
        assert forall|i: int|
            0 <= i < state.watchdog_pool.watchdogs@.len() implies {
            &&& state.spec_kind_of(#[trigger] state.watchdog_pool.watchdogs@[i].0) == Some(
                state.watchdog_pool.watchdogs@[i].1,
            )
            &&& !state.spec_is_executor(state.watchdog_pool.watchdogs@[i].0)
            &&& state.watchdog_pool.watchdogs@[i].0 != caller
        } by {
            if i < idx as int {
                assert(state.watchdog_pool.watchdogs@[i] == ws[i]);
                assert(ws[i].0 != ws[idx as int].0);
            } else {
                assert(state.watchdog_pool.watchdogs@[i] == ws[i + 1]);
                assert(ws[i + 1].0 != ws[idx as int].0);
            }
        }
        assert forall|a: Address|
            a != caller implies (state.spec_is_watchdog(a) == pre.spec_is_watchdog(a)) by {
            if pre.spec_is_watchdog(a) {
                let w = choose|w: int| 0 <= w < ws.len() && ws[w].0 == a;
                if w < idx as int {
                    assert(state.watchdog_pool.watchdogs@[w].0 == a);
                } else {
                    assert(w != idx as int);
                    assert(state.watchdog_pool.watchdogs@[w - 1].0 == a);
                }
            }
            if state.spec_is_watchdog(a) {
                let w = choose|w: int|
                    0 <= w < state.watchdog_pool.watchdogs@.len()
                        && state.watchdog_pool.watchdogs@[w].0 == a;
                if w < idx as int {
                    assert(ws[w].0 == a);
                } else {
                    assert(ws[w + 1].0 == a);
                }
            }
        }
    }

    Ok(())
}

} // verus!
