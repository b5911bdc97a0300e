//! The library's standing guarantees, stated as proof functions over any
//! well-formed state.
//!
//! Every mutating operation requires and re-establishes
//! [`SystemState::wf`], so each law below holds of every reachable
//! state.  The transition guarantees — status monotonicity, the
//! supermajority bound on verification, idempotent verdicts and the
//! all-or-nothing effect of failed transactions — are stated directly in
//! the `ensures` clauses of `respond_to_challenge`,
//! `verify_challenge_response` and the other operations.

use vstd::prelude::*;
use crate::types::{Address, EnclaveType, Phase};
use crate::state::{record_one_sided, SystemState};

verus! {

/// Slot typing: an occupied executor slot holds an identity whose
/// registered enclave kind is the slot's own.
pub proof fn lemma_slot_typing(s: SystemState)
    requires
        s.wf(),
    ensures
        s.executor_pool.sgx_executor matches Some(a) ==> s.spec_kind_of(a) == Some(
            EnclaveType::IntelSGX,
        ),
        s.executor_pool.sev_executor matches Some(a) ==> s.spec_kind_of(a) == Some(
            EnclaveType::AMDSEV,
        ),
{
}

/// Disjointness: no identity is both a watchdog and an executor.
pub proof fn lemma_watchdog_executor_disjoint(s: SystemState, a: Address)
    requires
        s.wf(),
        s.spec_is_watchdog(a),
    ensures
        !s.spec_is_executor(a),
{
    let i = choose|i: int|
        0 <= i < s.watchdog_pool.watchdogs@.len() && s.watchdog_pool.watchdogs@[i].0 == a;
    assert(!s.spec_is_executor(s.watchdog_pool.watchdogs@[i].0));
}

/// Phase and slots: a crashed system has no executors, and two filled
/// slots occur only while executing or challenging an executor.  (The
/// converse — that those phases always see two filled slots — fails
/// transiently when a failed executor finds no compatible replacement
/// while the other slot stays occupied.)
pub proof fn lemma_phase_slots(s: SystemState)
    requires
        s.wf(),
    ensures
        s.current_phase == Phase::Crashed ==> s.executor_pool.sgx_executor is None
            && s.executor_pool.sev_executor is None,
        s.executor_pool.sgx_executor is Some && s.executor_pool.sev_executor is Some
            ==> s.current_phase == Phase::Executing || s.current_phase
            == Phase::ChallengeExecutor,
{
}

/// Pending characterisation: an execution id sits in the pending list
/// exactly when its record holds one result and awaits the other.
pub proof fn lemma_pending_iff_one_sided(s: SystemState, id: u128)
    requires
        s.wf(),
    ensures
        s.pending_verifications@.contains(id) <==> (match s.spec_record(id) {
            Some(r) => record_one_sided(r),
            None => false,
        }),
{
    if s.pending_verifications@.contains(id) {
        let j = choose|j: int|
            0 <= j < s.pending_verifications@.len() && s.pending_verifications@[j] == id;
        assert(match crate::store::alist_get(
            s.execution_results@,
            s.pending_verifications@[j],
        ) {
            Some(r) => record_one_sided(r),
            None => false,
        });
    }
}

/// Verified records agree: a record marked verified holds both results
/// and their hashes are byte-identical.
pub proof fn lemma_verified_hashes_agree(s: SystemState, id: u128)
    requires
        s.wf(),
        (match s.spec_record(id) {
            Some(r) => r.verified,
            None => false,
        }),
    ensures
        (match s.spec_record(id) {
            Some(r) => {
                &&& r.sgx_result is Some
                &&& r.sev_result is Some
                &&& r.sgx_result.unwrap().result_hash@ == r.sev_result.unwrap().result_hash@
            },
            None => false,
        }),
{
}

} // verus!
