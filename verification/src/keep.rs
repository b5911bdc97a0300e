//! Sandbox (Keep) health registry: liveness flags, attestation renewal,
//! measurements, memory reports, and the pool health sweep.

use vstd::prelude::*;
use crate::types::{Address, EnclaveType, Error, MemoryStats};
use crate::state::SystemState;
use crate::store::{alist_get, amap_get, amap_set};
use crate::ATTESTATION_VALIDITY_PERIOD;
use crate::MIN_WATCHDOGS;

verus! {

/// Whether the identity's sandbox is currently marked live.
pub open spec fn spec_keep_active(pre: SystemState, a: Address) -> bool {
    alist_get(pre.keep_status@, a) == Some(true)
}

/// Marks the caller's sandbox as paused.
pub fn pause_keep(state: &mut SystemState, caller: Address)
    requires
        old(state).wf(),
    ensures
        final(state).wf(),
        alist_get(final(state).keep_status@, caller) == Some(false),
        forall|a: Address|
            a != caller ==> alist_get(final(state).keep_status@, a) == alist_get(
                old(state).keep_status@,
                a,
            ),
        final(state).executor_pool == old(state).executor_pool,
        final(state).watchdog_pool == old(state).watchdog_pool,
        final(state).current_phase == old(state).current_phase,
        final(state).challenges == old(state).challenges,
        final(state).execution_results == old(state).execution_results,
        final(state).pending_verifications == old(state).pending_verifications,
        final(state).enclave_types == old(state).enclave_types,
{
    amap_set(&mut state.keep_status, caller, false);
}

/// Marks the caller's sandbox as live again.
pub fn resume_keep(state: &mut SystemState, caller: Address)
    requires
        old(state).wf(),
    ensures
        final(state).wf(),
        alist_get(final(state).keep_status@, caller) == Some(true),
        forall|a: Address|
            a != caller ==> alist_get(final(state).keep_status@, a) == alist_get(
                old(state).keep_status@,
                a,
            ),
        final(state).executor_pool == old(state).executor_pool,
        final(state).watchdog_pool == old(state).watchdog_pool,
        final(state).current_phase == old(state).current_phase,
        final(state).challenges == old(state).challenges,
        final(state).execution_results == old(state).execution_results,
        final(state).pending_verifications == old(state).pending_verifications,
        final(state).enclave_types == old(state).enclave_types,
{
    amap_set(&mut state.keep_status, caller, true);
}

/// Renews the caller's attestation: requires a live sandbox, then stamps
/// the renewal time and stores the fresh token.  On error the state is
/// unchanged.
pub fn renew_attestation(
    state: &mut SystemState,
    caller: Address,
    now: u64,
    attestation_report: Vec<u8>,
    drawbridge_token: Vec<u8>,
) -> (r: Result<(), Error>)
    requires
        old(state).wf(),
    ensures
        final(state).wf(),
        r is Ok <==> spec_keep_active(*old(state), caller),
        r is Err ==> r == Err::<(), Error>(Error::NotRegistered),
        r is Err ==> *final(state) == *old(state),
        r is Ok ==> {
            &&& alist_get(final(state).last_attestation_times@, caller) == Some(now)
            &&& alist_get(final(state).drawbridge_tokens@, caller) == Some(drawbridge_token)
            &&& forall|a: Address|
                a != caller ==> alist_get(final(state).last_attestation_times@, a) == alist_get(
                    old(state).last_attestation_times@,
                    a,
                )
            &&& final(state).executor_pool == old(state).executor_pool
            &&& final(state).watchdog_pool == old(state).watchdog_pool
            &&& final(state).current_phase == old(state).current_phase
            &&& final(state).challenges == old(state).challenges
            &&& final(state).execution_results == old(state).execution_results
            &&& final(state).pending_verifications == old(state).pending_verifications
            &&& final(state).keep_status == old(state).keep_status
            &&& final(state).enclave_types == old(state).enclave_types
        },
{
    let active = match amap_get(&state.keep_status, &caller) {
        Some(b) => *b,
        None => false,
    };
    if !active {
        return Err(Error::NotRegistered);
    }
    amap_set(&mut state.last_attestation_times, caller, now);
    amap_set(&mut state.drawbridge_tokens, caller, drawbridge_token);
    Ok(())
}

/// Stores a fresh sandbox measurement for the caller: requires a live
/// sandbox.  On error the state is unchanged.
pub fn update_keep_measurement(
    state: &mut SystemState,
    caller: Address,
    measurement: Vec<u8>,
) -> (r: Result<(), Error>)
    requires
        old(state).wf(),
    ensures
        final(state).wf(),
        r is Ok <==> spec_keep_active(*old(state), caller),
        r is Err ==> r == Err::<(), Error>(Error::NotRegistered),
        r is Err ==> *final(state) == *old(state),
        r is Ok ==> {
            &&& alist_get(final(state).keep_measurements@, caller) == Some(measurement)
            &&& forall|a: Address|
                a != caller ==> alist_get(final(state).keep_measurements@, a) == alist_get(
                    old(state).keep_measurements@,
                    a,
                )
            &&& final(state).executor_pool == old(state).executor_pool
            &&& final(state).watchdog_pool == old(state).watchdog_pool
            &&& final(state).current_phase == old(state).current_phase
            &&& final(state).challenges == old(state).challenges
            &&& final(state).execution_results == old(state).execution_results
            &&& final(state).pending_verifications == old(state).pending_verifications
            &&& final(state).keep_status == old(state).keep_status
            &&& final(state).enclave_types == old(state).enclave_types
        },
{
    let active = match amap_get(&state.keep_status, &caller) {
        Some(b) => *b,
        None => false,
    };
    if !active {
        return Err(Error::NotRegistered);
    }
    amap_set(&mut state.keep_measurements, caller, measurement);
    Ok(())
}

/// Whether an identity's attestation is still within its validity window.
pub open spec fn spec_attestation_valid(pre: SystemState, a: Address, now: u64) -> bool {
    match alist_get(pre.last_attestation_times@, a) {
        Some(t) => now <= t + ATTESTATION_VALIDITY_PERIOD,
        None => false,
    }
}

/// Checks whether the identity renewed its attestation recently enough.
pub fn is_attestation_valid(state: &SystemState, executor: &Address, now: u64) -> (r: bool)
    ensures
        r == spec_attestation_valid(*state, *executor, now),
{
    match amap_get(&state.last_attestation_times, executor) {
        Some(t) => {
            if now <= *t {
                true
            } else {
                now - *t <= ATTESTATION_VALIDITY_PERIOD
            }
        },
        None => false,
    }
}

/// Records memory figures reported by a sandbox and refreshes its
/// attestation time; an unknown sandbox is ignored, as reports may
/// outlive a membership.
pub fn update_tee_health(
    state: &mut SystemState,
    caller: Address,
    now: u64,
    memory_stats: MemoryStats,
) -> (r: Result<(), Error>)
    requires
        old(state).wf(),
    ensures
        final(state).wf(),
        r is Ok,
        alist_get(old(state).keep_status@, caller) is Some ==> {
            &&& alist_get(final(state).keep_memory@, caller) == Some(memory_stats)
            &&& alist_get(final(state).last_attestation_times@, caller) == Some(now)
        },
        alist_get(old(state).keep_status@, caller) is None ==> *final(state) == *old(state),
        final(state).executor_pool == old(state).executor_pool,
        final(state).watchdog_pool == old(state).watchdog_pool,
        final(state).current_phase == old(state).current_phase,
        final(state).challenges == old(state).challenges,
        final(state).execution_results == old(state).execution_results,
        final(state).pending_verifications == old(state).pending_verifications,
        final(state).enclave_types == old(state).enclave_types,
{
    let known = amap_get(&state.keep_status, &caller).is_some();
    if known {
        amap_set(&mut state.keep_memory, caller, memory_stats);
        amap_set(&mut state.last_attestation_times, caller, now);
    }
    Ok(())
}

/// Sweeps the watchdog pool, dropping members whose sandbox is not live.
/// Fails with `NoCompatibleWatchdog`, leaving the state unchanged, when
/// the surviving pool would fall below the minimum size.
pub fn check_watchdog_pool_health(state: &mut SystemState) -> (r: Result<(), Error>)
    requires
        old(state).wf(),
    ensures
        final(state).wf(),
        r is Err ==> r == Err::<(), Error>(Error::NoCompatibleWatchdog),
        r is Err ==> *final(state) == *old(state),
        r is Ok ==> {
            &&& final(state).watchdog_pool.watchdogs@.len() >= MIN_WATCHDOGS
            &&& forall|i: int|
                0 <= i < final(state).watchdog_pool.watchdogs@.len() ==> {
                    &&& old(state).watchdog_pool.watchdogs@.contains(
                        #[trigger] final(state).watchdog_pool.watchdogs@[i],
                    )
                    &&& spec_keep_active(*old(state), final(state).watchdog_pool.watchdogs@[i].0)
                }
            &&& forall|i: int|
                0 <= i < old(state).watchdog_pool.watchdogs@.len() ==> (spec_keep_active(
                    *old(state),
                    old(state).watchdog_pool.watchdogs@[i].0,
                ) ==> final(state).watchdog_pool.watchdogs@.contains(
                    #[trigger] old(state).watchdog_pool.watchdogs@[i],
                ))
            &&& final(state).executor_pool == old(state).executor_pool
            &&& final(state).current_phase == old(state).current_phase
            &&& final(state).challenges == old(state).challenges
            &&& final(state).execution_results == old(state).execution_results
            &&& final(state).pending_verifications == old(state).pending_verifications
            &&& final(state).keep_status == old(state).keep_status
            &&& final(state).enclave_types == old(state).enclave_types
            &&& final(state).watchdog_pool.active_challenges == old(
                state,
            ).watchdog_pool.active_challenges
        },
{
    let ghost pre = *state;
    let mut healthy: Vec<(Address, EnclaveType)> = Vec::new();
    let mut i: usize = 0;
    while i < state.watchdog_pool.watchdogs.len()
        invariant
            *state == pre,
            pre.wf(),
            i <= pre.watchdog_pool.watchdogs@.len(),
            forall|x: int|
                0 <= x < healthy@.len() ==> exists|y: int|
                    0 <= y < i && pre.watchdog_pool.watchdogs@[y] == #[trigger] healthy@[x],
            forall|x: int|
                0 <= x < healthy@.len() ==> spec_keep_active(pre, #[trigger] healthy@[x].0),
            forall|y: int|
                0 <= y < i ==> (spec_keep_active(pre, pre.watchdog_pool.watchdogs@[y].0)
                    ==> healthy@.contains(#[trigger] pre.watchdog_pool.watchdogs@[y])),
            forall|x1: int, x2: int|
                0 <= x1 < x2 < healthy@.len() ==> healthy@[x1].0 != healthy@[x2].0,
        decreases pre.watchdog_pool.watchdogs@.len() - i,
    {
        let entry = state.watchdog_pool.watchdogs[i];
        let live = match amap_get(&state.keep_status, &entry.0) {
            Some(b) => *b,
            None => false,
        };
        if live {
            proof {
                assert forall|x: int| 0 <= x < healthy@.len() implies healthy@[x].0 != entry.0 by {
                    let y = choose|y: int|
                        0 <= y < i && pre.watchdog_pool.watchdogs@[y] == healthy@[x];
                    assert(pre.watchdog_pool.watchdogs@[y].0 != pre.watchdog_pool.watchdogs@[
                        i as int].0);
                }
            }
            let ghost healthy_before = healthy@;
            healthy.push(entry);
            proof {
                assert(healthy@[healthy@.len() - 1] == pre.watchdog_pool.watchdogs@[i as int]);
                assert forall|y: int|
                    0 <= y < i && spec_keep_active(
                        pre,
                        pre.watchdog_pool.watchdogs@[y].0,
                    ) implies healthy@.contains(#[trigger] pre.watchdog_pool.watchdogs@[y]) by {
                    let x = choose|x: int|
                        0 <= x < healthy_before.len() && healthy_before[x]
                            == pre.watchdog_pool.watchdogs@[y];
                    assert(healthy@[x] == pre.watchdog_pool.watchdogs@[y]);
                }
            }
        }
        i += 1;
    }
    if healthy.len() < MIN_WATCHDOGS {
        return Err(Error::NoCompatibleWatchdog);
    }

    proof {
        assert forall|x: int| 0 <= x < healthy@.len() implies {
            &&& pre.spec_kind_of(#[trigger] healthy@[x].0) == Some(healthy@[x].1)
            &&& !pre.spec_is_executor(healthy@[x].0)
            &&& pre.watchdog_pool.watchdogs@.contains(healthy@[x])
        } by {
            let y = choose|y: int|
                0 <= y < pre.watchdog_pool.watchdogs@.len() && pre.watchdog_pool.watchdogs@[y]
                    == healthy@[x];
            assert(pre.spec_kind_of(pre.watchdog_pool.watchdogs@[y].0) == Some(
                pre.watchdog_pool.watchdogs@[y].1,
            ));
            assert(!pre.spec_is_executor(pre.watchdog_pool.watchdogs@[y].0));
        }
    }
    state.watchdog_pool.watchdogs = healthy;
    Ok(())
}

} // verus!
