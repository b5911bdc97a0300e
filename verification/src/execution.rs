//! Execution-result reconciliation: one result per executor kind per
//! execution id, byte-exact hash matching, and promotion of mismatches
//! to a pair of execution challenges.

use vstd::prelude::*;
use crate::types::{
    Address, Challenge, ChallengeStatus, ChallengeType, EnclaveType, Error, ExecutionRecord,
    ExecutionResult, Phase,
};
use crate::state::{proofs_distinct, record_one_sided, record_wf, spec_status_monotone, SystemState};
use crate::store::{alist_get, imap_get, imap_index, imap_set, lemma_alist_get_update};
use crate::replacement::spec_slot_kind;
use crate::CHALLENGE_RESPONSE_WINDOW;

verus! {

/// Two results with the same content: every field agrees, the hash by
/// its bytes.
pub open spec fn spec_results_agree(a: ExecutionResult, b: ExecutionResult) -> bool {
    &&& a.result_hash@ == b.result_hash@
    &&& a.execution_id == b.execution_id
    &&& a.executor == b.executor
    &&& a.enclave_type == b.enclave_type
    &&& a.timestamp == b.timestamp
    &&& a.block_height == b.block_height
}

/// The record side owned by an enclave kind.
pub open spec fn spec_side(r: ExecutionRecord, kind: EnclaveType) -> Option<ExecutionResult> {
    match kind {
        EnclaveType::IntelSGX => r.sgx_result,
        EnclaveType::AMDSEV => r.sev_result,
    }
}

/// The result a submission stores.
pub open spec fn spec_new_result(
    caller: Address,
    kind: EnclaveType,
    execution_id: u128,
    result_hash: Vec<u8>,
    now: u64,
    block_height: u64,
) -> ExecutionResult {
    ExecutionResult {
        result_hash,
        execution_id,
        executor: caller,
        enclave_type: kind,
        timestamp: now,
        block_height,
    }
}

/// Byte-for-byte equality of two hashes.
fn bytes_eq(a: &Vec<u8>, b: &Vec<u8>) -> (r: bool)
    ensures
        r == (a@ == b@),
{
    if a.len() != b.len() {
        return false;
    }
    let mut i: usize = 0;
    while i < a.len()
        invariant
            a@.len() == b@.len(),
            i <= a@.len(),
            forall|j: int| 0 <= j < i ==> a@[j] == b@[j],
        decreases a@.len() - i,
    {
        if a[i] != b[i] {
            return false;
        }
        i += 1;
    }
    proof {
        assert(a@ =~= b@);
    }
    true
}

/// A content-equal copy of a result.
fn clone_result(r: &ExecutionResult) -> (c: ExecutionResult)
    ensures
        spec_results_agree(c, *r),
{
    ExecutionResult {
        result_hash: crate::store::bytes_copy(&r.result_hash),
        execution_id: r.execution_id,
        executor: r.executor,
        enclave_type: r.enclave_type,
        timestamp: r.timestamp,
        block_height: r.block_height,
    }
}

/// Removing one occurrence from a duplicate-free list removes the value
/// entirely and keeps everything else.
proof fn lemma_remove_value_distinct(s: Seq<u128>, x: u128)
    requires
        forall|i: int, j: int| 0 <= i < j < s.len() ==> s[i] != s[j],
        s.contains(x),
    ensures
        !s.remove_value(x).contains(x),
        forall|y: u128| y != x ==> (s.remove_value(x).contains(y) <==> s.contains(y)),
        forall|i: int, j: int|
            0 <= i < j < s.remove_value(x).len() ==> s.remove_value(x)[i] != s.remove_value(
                x,
            )[j],
        s.remove_value(x).len() == s.len() - 1,
{
    s.index_of_first_ensures(x);
    let i = s.index_of_first(x).unwrap();
    s.remove_ensures(i);
    let t = s.remove(i);
    assert forall|w: int| 0 <= w < t.len() implies t[w] != x by {
        if w < i {
            assert(t[w] == s[w]);
        } else {
            assert(t[w] == s[w + 1]);
        }
    }
    assert forall|y: u128| y != x && s.contains(y) implies t.contains(y) by {
        let w = choose|w: int| 0 <= w < s.len() && s[w] == y;
        if w < i {
            assert(t[w] == y);
        } else {
            assert(w != i);
            assert(t[w - 1] == y);
        }
    }
    assert forall|y: u128| t.contains(y) implies s.contains(y) by {
        let w = choose|w: int| 0 <= w < t.len() && t[w] == y;
        if w < i {
            assert(s[w] == y);
        } else {
            assert(s[w + 1] == y);
        }
    }
    assert forall|a: int, b: int| 0 <= a < b < t.len() implies t[a] != t[b] by {
        if b < i {
            assert(t[a] == s[a] && t[b] == s[b]);
        } else if a < i {
            assert(t[a] == s[a] && t[b] == s[b + 1]);
        } else {
            assert(t[a] == s[a + 1] && t[b] == s[b + 1]);
        }
    }
}

/// After a first-sided submission, the pending list and record store
/// still satisfy their invariants.
proof fn lemma_pending_after_first(pre: SystemState, post: SystemState, execution_id: u128)
    requires
        pre.wf(),
        !pre.pending_verifications@.contains(execution_id),
        post.pending_verifications@ == pre.pending_verifications@.push(execution_id),
        (match alist_get(post.execution_results@, execution_id) {
            Some(r) => record_one_sided(r) && record_wf(r),
            None => false,
        }),
        forall|id2: u128|
            id2 != execution_id ==> alist_get(post.execution_results@, id2) == alist_get(
                pre.execution_results@,
                id2,
            ),
    ensures
        post.inv_pending(),
        post.inv_records(),
{
    let pp = pre.pending_verifications@;
    let np = post.pending_verifications@;
    assert forall|j: int|
        0 <= j < np.len() implies (match alist_get(
        post.execution_results@,
        #[trigger] np[j],
    ) {
        Some(r) => record_one_sided(r),
        None => false,
    }) by {
        if j < np.len() - 1 {
            assert(np[j] == pp[j]);
            assert(pp[j] != execution_id);
            assert(alist_get(post.execution_results@, np[j]) == alist_get(
                pre.execution_results@,
                pp[j],
            ));
        } else {
            assert(np[j] == execution_id);
        }
    }
    assert forall|id2: u128|
        (match #[trigger] alist_get(post.execution_results@, id2) {
            Some(r) => record_one_sided(r),
            None => false,
        }) implies np.contains(id2) by {
        if id2 == execution_id {
            assert(np[np.len() - 1] == execution_id);
        } else {
            assert(alist_get(pre.execution_results@, id2) == alist_get(
                post.execution_results@,
                id2,
            ));
            assert(pp.contains(id2));
            let j = choose|j: int| 0 <= j < pp.len() && pp[j] == id2;
            assert(np[j] == id2);
        }
    }
    assert forall|i: int, j: int| 0 <= i < j < np.len() implies np[i] != np[j] by {
        if j == np.len() - 1 {
            assert(np[i] == pp[i]);
            if pp[i] == execution_id {
                assert(pp.contains(execution_id));
            }
        } else {
            assert(np[i] == pp[i] && np[j] == pp[j]);
        }
    }
    assert forall|id2: u128|
        match #[trigger] alist_get(post.execution_results@, id2) {
            Some(r) => record_wf(r),
            None => true,
        } by {
        if id2 != execution_id {
            assert(alist_get(post.execution_results@, id2) == alist_get(
                pre.execution_results@,
                id2,
            ));
        }
    }
}

/// After the second side arrives and the id leaves the pending list, the
/// pending list and record store still satisfy their invariants.
proof fn lemma_pending_after_second(pre: SystemState, post: SystemState, execution_id: u128)
    requires
        pre.wf(),
        pre.pending_verifications@.contains(execution_id),
        post.pending_verifications@ == pre.pending_verifications@.remove_value(execution_id),
        (match alist_get(post.execution_results@, execution_id) {
            Some(r) => !record_one_sided(r) && record_wf(r),
            None => false,
        }),
        forall|id2: u128|
            id2 != execution_id ==> alist_get(post.execution_results@, id2) == alist_get(
                pre.execution_results@,
                id2,
            ),
    ensures
        post.inv_pending(),
        post.inv_records(),
{
    let pp = pre.pending_verifications@;
    let np = post.pending_verifications@;
    lemma_remove_value_distinct(pp, execution_id);
    assert forall|j: int|
        0 <= j < np.len() implies (match alist_get(
        post.execution_results@,
        #[trigger] np[j],
    ) {
        Some(r) => record_one_sided(r),
        None => false,
    }) by {
        let y = np[j];
        assert(np.contains(y));
        assert(y != execution_id);
        assert(pp.contains(y));
        let j2 = choose|j2: int| 0 <= j2 < pp.len() && pp[j2] == y;
        assert(match alist_get(pre.execution_results@, pp[j2]) {
            Some(r) => record_one_sided(r),
            None => false,
        });
        assert(alist_get(post.execution_results@, y) == alist_get(pre.execution_results@, y));
    }
    assert forall|id2: u128|
        (match #[trigger] alist_get(post.execution_results@, id2) {
            Some(r) => record_one_sided(r),
            None => false,
        }) implies np.contains(id2) by {
        if id2 != execution_id {
            assert(alist_get(pre.execution_results@, id2) == alist_get(
                post.execution_results@,
                id2,
            ));
            assert(pp.contains(id2));
        }
    }
    assert forall|id2: u128|
        match #[trigger] alist_get(post.execution_results@, id2) {
            Some(r) => record_wf(r),
            None => true,
        } by {
        if id2 != execution_id {
            assert(alist_get(post.execution_results@, id2) == alist_get(
                pre.execution_results@,
                id2,
            ));
        }
    }
}

/// The exact outcome of `submit_execution_result` on a given state.
pub open spec fn spec_submit_result_check(
    pre: SystemState,
    caller: Address,
    execution_id: u128,
) -> Result<(), Error> {
    match spec_slot_kind(pre, caller) {
        None => Err(Error::Unauthorized),
        Some(kind) => {
            let filled = match pre.spec_record(execution_id) {
                Some(r) => spec_side(r, kind) is Some,
                None => false,
            };
            if filled {
                Err(Error::DuplicateSubmission)
            } else {
                Ok(())
            }
        },
    }
}

/// Accepts one executor's result hash for an execution id.
///
/// The caller must currently occupy an executor slot; a second result
/// from the same slot's kind is a duplicate.  The first result parks the
/// id in the pending list.  The second removes it and reconciles: equal
/// hashes mark the record verified; different hashes persist the
/// mismatched pair and open one execution challenge against each
/// executor, with the id and both hashes as shared challenge data, and
/// move the phase to `ChallengeExecutor`.  On any error the state is
/// unchanged.
#[verifier::loop_isolation(false)]
pub fn submit_execution_result(
    state: &mut SystemState,
    caller: Address,
    now: u64,
    block_height: u64,
    execution_id: u128,
    result_hash: Vec<u8>,
) -> (r: Result<(), Error>)
    requires
        old(state).wf(),
        old(state).challenge_count < u128::MAX - 1,
        now <= u64::MAX - CHALLENGE_RESPONSE_WINDOW,
    ensures
        final(state).wf(),
        r == spec_submit_result_check(*old(state), caller, execution_id),
        r is Err ==> *final(state) == *old(state),
        spec_status_monotone(*old(state), *final(state)),
        r is Ok ==> {
            let kind = spec_slot_kind(*old(state), caller).unwrap();
            let nr = spec_new_result(caller, kind, execution_id, result_hash, now, block_height);
            let other = match old(state).spec_record(execution_id) {
                Some(r0) => spec_side(r0, crate::registry::other_kind(kind)),
                None => None,
            };
            &&& *final(state) == (SystemState {
                execution_results: final(state).execution_results,
                pending_verifications: final(state).pending_verifications,
                execution_mismatches: final(state).execution_mismatches,
                challenges: final(state).challenges,
                challenge_count: final(state).challenge_count,
                current_phase: final(state).current_phase,
                watchdog_pool: final(state).watchdog_pool,
                ..*old(state)
            })
            &&& final(state).watchdog_pool.watchdogs == old(state).watchdog_pool.watchdogs
            &&& final(state).watchdog_pool.last_verification == old(
                state,
            ).watchdog_pool.last_verification
            &&& forall|id2: u128|
                id2 != execution_id ==> final(state).spec_record(id2) == old(state).spec_record(
                    id2,
                )
            &&& (match final(state).spec_record(execution_id) {
                Some(r2) => {
                    &&& (match spec_side(r2, kind) {
                        Some(stored) => spec_results_agree(stored, nr),
                        None => false,
                    })
                    &&& spec_side(r2, crate::registry::other_kind(kind)) == other
                    &&& r2.verified == (match other {
                        Some(o) => o.result_hash@ == nr.result_hash@,
                        None => false,
                    })
                },
                None => false,
            })
            &&& (other is None ==> {
                &&& final(state).pending_verifications@ == old(
                    state,
                ).pending_verifications@.push(execution_id)
                &&& final(state).challenges == old(state).challenges
                &&& final(state).challenge_count == old(state).challenge_count
                &&& final(state).current_phase == old(state).current_phase
                &&& final(state).execution_mismatches == old(state).execution_mismatches
                &&& final(state).watchdog_pool == old(state).watchdog_pool
            })
            &&& (other matches Some(o) ==> {
                &&& final(state).pending_verifications@ == old(
                    state,
                ).pending_verifications@.remove_value(execution_id)
                &&& (o.result_hash@ == nr.result_hash@ ==> {
                    &&& final(state).challenges == old(state).challenges
                    &&& final(state).challenge_count == old(state).challenge_count
                    &&& final(state).current_phase == old(state).current_phase
                    &&& final(state).execution_mismatches == old(state).execution_mismatches
                    &&& final(state).watchdog_pool == old(state).watchdog_pool
                })
                &&& (o.result_hash@ != nr.result_hash@ ==> {
                    let id_a = (old(state).challenge_count + 1) as u128;
                    let id_b = (old(state).challenge_count + 2) as u128;
                    let sgx_res = if kind == EnclaveType::IntelSGX {
                        nr
                    } else {
                        o
                    };
                    let sev_res = if kind == EnclaveType::IntelSGX {
                        o
                    } else {
                        nr
                    };
                    &&& final(state).current_phase == Phase::ChallengeExecutor
                    &&& final(state).challenge_count == old(state).challenge_count + 2
                    &&& (match alist_get(final(state).execution_mismatches@, execution_id) {
                        Some(pair) => spec_results_agree(pair.0, sgx_res) && spec_results_agree(
                            pair.1,
                            sev_res,
                        ),
                        None => false,
                    })
                    &&& spec_mismatch_challenge(
                        final(state).spec_challenge(id_a),
                        id_a,
                        caller,
                        sgx_res.executor,
                        execution_id,
                        sgx_res.result_hash@,
                        sev_res.result_hash@,
                        now,
                    )
                    &&& spec_mismatch_challenge(
                        final(state).spec_challenge(id_b),
                        id_b,
                        caller,
                        sev_res.executor,
                        execution_id,
                        sgx_res.result_hash@,
                        sev_res.result_hash@,
                        now,
                    )
                    &&& forall|id2: u128|
                        id2 != id_a && id2 != id_b ==> final(state).spec_challenge(id2) == old(
                            state,
                        ).spec_challenge(id2)
                    &&& final(state).watchdog_pool.active_challenges@ == old(
                        state,
                    ).watchdog_pool.active_challenges@.push(id_a).push(id_b)
                })
            })
        },
{
    let ghost pre = *state;
    let in_sgx = match &state.executor_pool.sgx_executor {
        Some(x) => *x == caller,
        None => false,
    };
    let in_sev = match &state.executor_pool.sev_executor {
        Some(x) => *x == caller,
        None => false,
    };
    if !in_sgx && !in_sev {
        return Err(Error::Unauthorized);
    }
    let kind = if in_sgx {
        EnclaveType::IntelSGX
    } else {
        EnclaveType::AMDSEV
    };

    let new_result = ExecutionResult {
        result_hash,
        execution_id,
        executor: caller,
        enclave_type: kind,
        timestamp: now,
        block_height,
    };

    match imap_index(&state.execution_results, execution_id) {
        None => {
            // First result for this id: park it as pending.
            let record = match kind {
                EnclaveType::IntelSGX => ExecutionRecord {
                    sgx_result: Some(new_result),
                    sev_result: None,
                    verified: false,
                },
                EnclaveType::AMDSEV => ExecutionRecord {
                    sgx_result: None,
                    sev_result: Some(new_result),
                    verified: false,
                },
            };
            imap_set(&mut state.execution_results, execution_id, record);
            proof {
                assert(!pre.pending_verifications@.contains(execution_id)) by {
                    if pre.pending_verifications@.contains(execution_id) {
                        let j = choose|j: int|
                            0 <= j < pre.pending_verifications@.len()
                                && pre.pending_verifications@[j] == execution_id;
                        assert(match alist_get(
                            pre.execution_results@,
                            pre.pending_verifications@[j],
                        ) {
                            Some(r) => record_one_sided(r),
                            None => false,
                        });
                    }
                }
            }
            state.pending_verifications.push(execution_id);
            proof {
                lemma_pending_after_first(pre, *state, execution_id);
            }
            return Ok(());
        },
        Some(idx) => {
            let ghost m0 = state.execution_results@;
            proof {
                lemma_alist_get_update(m0, idx as int, execution_id, m0[idx as int].1);
                assert(m0.update(idx as int, m0[idx as int]) =~= m0);
                assert(state.spec_record(execution_id) == Some(m0[idx as int].1));
            }
            let our_filled = match kind {
                EnclaveType::IntelSGX => state.execution_results[idx].1.sgx_result.is_some(),
                EnclaveType::AMDSEV => state.execution_results[idx].1.sev_result.is_some(),
            };
            if our_filled {
                return Err(Error::DuplicateSubmission);
            }
            let other_present = match kind {
                EnclaveType::IntelSGX => state.execution_results[idx].1.sev_result.is_some(),
                EnclaveType::AMDSEV => state.execution_results[idx].1.sgx_result.is_some(),
            };
            if !other_present {
                // The record exists but holds no result yet: fill our
                // side and park the id.
                match kind {
                    EnclaveType::IntelSGX => {
                        state.execution_results[idx].1.sgx_result = Some(new_result);
                    },
                    EnclaveType::AMDSEV => {
                        state.execution_results[idx].1.sev_result = Some(new_result);
                    },
                }
                state.execution_results[idx].1.verified = false;
                proof {
                    let r2 = state.execution_results@[idx as int].1;
                    assert(state.execution_results@ =~= m0.update(
                        idx as int,
                        (execution_id, r2),
                    ));
                    lemma_alist_get_update(m0, idx as int, execution_id, r2);
                    assert(!pre.pending_verifications@.contains(execution_id)) by {
                        if pre.pending_verifications@.contains(execution_id) {
                            let j = choose|j: int|
                                0 <= j < pre.pending_verifications@.len()
                                    && pre.pending_verifications@[j] == execution_id;
                            assert(match alist_get(
                                pre.execution_results@,
                                pre.pending_verifications@[j],
                            ) {
                                Some(r) => record_one_sided(r),
                                None => false,
                            });
                            assert(!record_one_sided(m0[idx as int].1));
                        }
                    }
                }
                state.pending_verifications.push(execution_id);
                proof {
                    lemma_pending_after_first(pre, *state, execution_id);
                }
                return Ok(());
            }

            // Both sides are now present: reconcile.
            let other_result = match kind {
                EnclaveType::IntelSGX => {
                    let o = match &state.execution_results[idx].1.sev_result {
                        Some(o) => clone_result(o),
                        None => {
                            return Err(Error::StateCorruption);
                        },
                    };
                    o
                },
                EnclaveType::AMDSEV => {
                    let o = match &state.execution_results[idx].1.sgx_result {
                        Some(o) => clone_result(o),
                        None => {
                            return Err(Error::StateCorruption);
                        },
                    };
                    o
                },
            };
            let our_copy = clone_result(&new_result);
            let hashes_match = bytes_eq(&other_result.result_hash, &new_result.result_hash);

            match kind {
                EnclaveType::IntelSGX => {
                    state.execution_results[idx].1.sgx_result = Some(new_result);
                },
                EnclaveType::AMDSEV => {
                    state.execution_results[idx].1.sev_result = Some(new_result);
                },
            }
            state.execution_results[idx].1.verified = hashes_match;
            proof {
                let r2 = state.execution_results@[idx as int].1;
                assert(state.execution_results@ =~= m0.update(idx as int, (execution_id, r2)));
                lemma_alist_get_update(m0, idx as int, execution_id, r2);
                assert(pre.pending_verifications@.contains(execution_id)) by {
                    assert(record_one_sided(m0[idx as int].1));
                    assert(alist_get(pre.execution_results@, execution_id) == Some(
                        m0[idx as int].1,
                    ));
                }
                lemma_remove_value_distinct(pre.pending_verifications@, execution_id);
            }
            crate::store::ids_remove(&mut state.pending_verifications, execution_id);
            proof {
                assert(match alist_get(pre.execution_results@, execution_id) {
                    Some(r) => record_wf(r),
                    None => true,
                });
                lemma_pending_after_second(pre, *state, execution_id);
            }

            if hashes_match {
                return Ok(());
            }

            // Hashes differ: persist the mismatch and open a challenge
            // against each executor.
            let (sgx_res, sev_res) = match kind {
                EnclaveType::IntelSGX => (our_copy, other_result),
                EnclaveType::AMDSEV => (other_result, our_copy),
            };
            let challenged_a = sgx_res.executor;
            let challenged_b = sev_res.executor;

            let ghost g_sgx = sgx_res;
            let ghost g_sev = sev_res;
            let mut challenge_data = vstd::bytes::u128_to_le_bytes(execution_id);
            challenge_data.extend_from_slice(sgx_res.result_hash.as_slice());
            challenge_data.extend_from_slice(sev_res.result_hash.as_slice());
            proof {
                assert(challenge_data@ =~= vstd::bytes::spec_u128_to_le_bytes(execution_id)
                    + g_sgx.result_hash@ + g_sev.result_hash@);
            }
            let data_copy = crate::store::bytes_copy(&challenge_data);

            imap_set(&mut state.execution_mismatches, execution_id, (sgx_res, sev_res));

            let id_a = state.challenge_count + 1;
            let id_b = state.challenge_count + 2;
            let challenge_a = Challenge {
                id: id_a,
                challenger: caller,
                challenged: challenged_a,
                challenge_type: ChallengeType::Execution,
                execution_id: Some(execution_id),
                challenge_data,
                response_deadline: now + CHALLENGE_RESPONSE_WINDOW,
                status: ChallengeStatus::Pending,
                verification_proofs: Vec::new(),
            };
            let challenge_b = Challenge {
                id: id_b,
                challenger: caller,
                challenged: challenged_b,
                challenge_type: ChallengeType::Execution,
                execution_id: Some(execution_id),
                challenge_data: data_copy,
                response_deadline: now + CHALLENGE_RESPONSE_WINDOW,
                status: ChallengeStatus::Pending,
                verification_proofs: Vec::new(),
            };
            proof {
                assert(pre.spec_challenge(id_a) is None);
                assert(pre.spec_challenge(id_b) is None);
            }
            imap_set(&mut state.challenges, id_a, challenge_a);
            imap_set(&mut state.challenges, id_b, challenge_b);
            state.watchdog_pool.active_challenges.push(id_a);
            state.watchdog_pool.active_challenges.push(id_b);
            state.challenge_count = id_b;
            state.current_phase = Phase::ChallengeExecutor;

            proof {
                assert forall|x: u128| x != id_a && x != id_b implies #[trigger] state
                    .spec_challenge(x) == pre.spec_challenge(x) by {}
                assert(spec_status_monotone(pre, *state));
                assert forall|x: u128|
                    match #[trigger] alist_get(state.challenges@, x) {
                        Some(c) => {
                            &&& c.id == x
                            &&& x <= state.challenge_count
                            &&& proofs_distinct(c.verification_proofs@)
                            &&& (c.status == ChallengeStatus::Pending
                                ==> c.verification_proofs@.len() == 0)
                        },
                        None => true,
                    } by {
                    if x != id_a && x != id_b {
                        assert(alist_get(state.challenges@, x) == alist_get(pre.challenges@, x));
                    }
                }
                assert(state.inv_challenges());
            }
            return Ok(());
        },
    }
}

/// A freshly opened execution-mismatch challenge: pending, addressed to
/// one of the two executors, carrying the execution id and both hashes.
pub open spec fn spec_mismatch_challenge(
    c: Option<Challenge>,
    id: u128,
    challenger: Address,
    challenged: Address,
    execution_id: u128,
    sgx_hash: Seq<u8>,
    sev_hash: Seq<u8>,
    now: u64,
) -> bool {
    match c {
        Some(c) => {
            &&& c.id == id
            &&& c.challenger == challenger
            &&& c.challenged == challenged
            &&& c.challenge_type == ChallengeType::Execution
            &&& c.execution_id == Some(execution_id)
            &&& c.challenge_data@ == vstd::bytes::spec_u128_to_le_bytes(execution_id) + sgx_hash
                + sev_hash
            &&& c.response_deadline == now + CHALLENGE_RESPONSE_WINDOW
            &&& c.status == ChallengeStatus::Pending
            &&& c.verification_proofs@.len() == 0
        },
        None => false,
    }
}

/// Whether both executors' results for this id were found to agree.
pub fn verify_execution(state: &SystemState, execution_id: u128) -> (r: bool)
    ensures
        r == (match state.spec_record(execution_id) {
            Some(rec) => rec.verified,
            None => false,
        }),
{
    match imap_get(&state.execution_results, execution_id) {
        Some(rec) => rec.verified,
        None => false,
    }
}

/// The reconciliation record for an execution id, if any.
pub fn get_execution_result<'a>(state: &'a SystemState, execution_id: u128) -> (r: Option<
    &'a ExecutionRecord,
>)
    ensures
        match r {
            Some(rec) => state.spec_record(execution_id) == Some(*rec),
            None => state.spec_record(execution_id) is None,
        },
{
    imap_get(&state.execution_results, execution_id)
}

/// The ids still waiting for their second result.
pub fn get_pending_verifications<'a>(state: &'a SystemState) -> (r: &'a Vec<u128>)
    ensures
        r@ == state.pending_verifications@,
{
    &state.pending_verifications
}

/// The stored pair of disagreeing results for an execution id, if any.
pub fn get_verification_mismatch<'a>(state: &'a SystemState, execution_id: u128) -> (r: Option<
    &'a (ExecutionResult, ExecutionResult),
>)
    ensures
        match r {
            Some(pair) => alist_get(state.execution_mismatches@, execution_id) == Some(*pair),
            None => alist_get(state.execution_mismatches@, execution_id) is None,
        },
{
    imap_get(&state.execution_mismatches, execution_id)
}

} // verus!
