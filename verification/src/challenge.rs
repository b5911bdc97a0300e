//! The challenge protocol: creation, response, supermajority
//! verification, deadline expiry and statistics.

use vstd::prelude::*;
use crate::types::{
    Address, Challenge, ChallengeContext, ChallengeProof, ChallengeStatus, ChallengeType,
    EnclaveType, Error, Operator, Phase, VerificationProof,
};
use crate::state::{count_true, proofs_distinct, spec_quorum, spec_status_monotone, SystemState};
use crate::store::{
    alist_get, amap_get, imap_get, imap_index, lemma_alist_get_update, slist_get, smap_get,
    smap_set,
};
use crate::replacement::{spec_slot_kind, spec_failure_core, handle_failure};
use crate::oracle::{
    hash_message, spec_digest, spec_signature_valid, verify_attestation_report, verify_signature,
};
use crate::CHALLENGE_RESPONSE_WINDOW;

verus! {

/// A counter bump that stops at the numeric ceiling.
pub open spec fn spec_bump(x: u64) -> u64 {
    if x < u64::MAX {
        (x + 1) as u64
    } else {
        x
    }
}

/// Whether one of the proofs was contributed by `a`.
pub open spec fn spec_has_verifier(ps: Seq<VerificationProof>, a: Address) -> bool {
    exists|i: int| 0 <= i < ps.len() && ps[i].verifier == a
}

/// `c2` is `c` with a new status and proof list, all other fields kept.
pub open spec fn spec_challenge_updated(
    c2: Challenge,
    c: Challenge,
    status: ChallengeStatus,
    ps: Seq<VerificationProof>,
) -> bool {
    &&& c2.id == c.id
    &&& c2.challenger == c.challenger
    &&& c2.challenged == c.challenged
    &&& c2.challenge_type == c.challenge_type
    &&& c2.execution_id == c.execution_id
    &&& c2.challenge_data == c.challenge_data
    &&& c2.response_deadline == c.response_deadline
    &&& c2.status == status
    &&& c2.verification_proofs@ == ps
}

/// The operator map after bumping one of an identity's challenge
/// counters.  An identity without an operator link, or whose linked
/// record is gone, leaves the map unchanged.
pub open spec fn spec_ops_after_bump(
    pre: SystemState,
    who: Address,
    post: Seq<(String, Operator)>,
    responded: bool,
) -> bool {
    match alist_get(pre.operator_keys@, who) {
        None => post == pre.operators@,
        Some(key) => match slist_get(pre.operators@, key@) {
            None => post == pre.operators@,
            Some(op) => {
                &&& (match slist_get(post, key@) {
                    Some(op2) => {
                        &&& op2.initialized == op.initialized
                        &&& op2.attestation_report@ == op.attestation_report@
                        &&& op2.last_heartbeat == op.last_heartbeat
                        &&& op2.challenges_initiated == (if responded {
                            op.challenges_initiated
                        } else {
                            spec_bump(op.challenges_initiated)
                        })
                        &&& op2.challenges_responded == (if responded {
                            spec_bump(op.challenges_responded)
                        } else {
                            op.challenges_responded
                        })
                    },
                    None => false,
                })
                &&& forall|k2: Seq<char>|
                    k2 != key@ ==> slist_get(post, k2) == slist_get(pre.operators@, k2)
            },
        },
    }
}

/// Advances the challenge counter of the operator record the identity
/// registered under, when such a record exists.
fn bump_challenge_counter(state: &mut SystemState, who: Address, responded: bool)
    ensures
        *final(state) == (SystemState { operators: final(state).operators, ..*old(state) }),
        spec_ops_after_bump(*old(state), who, final(state).operators@, responded),
{
    let key = match amap_get(&state.operator_keys, &who) {
        Some(k) => k.clone(),
        None => {
            return ;
        },
    };
    let (o_init, o_report, o_hb, o_ci, o_cr) = match smap_get(&state.operators, &key) {
        Some(op) => (
            op.initialized,
            op.attestation_report.clone(),
            op.last_heartbeat,
            op.challenges_initiated,
            op.challenges_responded,
        ),
        None => {
            return ;
        },
    };
    let updated = Operator {
        initialized: o_init,
        attestation_report: o_report,
        last_heartbeat: o_hb,
        challenges_initiated: if responded {
            o_ci
        } else if o_ci < u64::MAX {
            o_ci + 1
        } else {
            o_ci
        },
        challenges_responded: if responded {
            if o_cr < u64::MAX {
                o_cr + 1
            } else {
                o_cr
            }
        } else {
            o_cr
        },
    };
    smap_set(&mut state.operators, key, updated);
}

/// The exact outcome of `challenge_executor` on a given state and inputs.
pub open spec fn spec_challenge_executor_check(
    pre: SystemState,
    caller: Address,
    executor: Address,
) -> Result<u128, Error> {
    if !pre.initialized {
        Err(Error::Uninitialized)
    } else if !pre.spec_is_watchdog(caller) {
        Err(Error::Unauthorized)
    } else if spec_slot_kind(pre, executor) is None {
        Err(Error::NotRegistered)
    } else if pre.current_phase != Phase::Executing {
        Err(Error::WrongPhase { expected: Phase::Executing, actual: pre.current_phase })
    } else {
        Ok((pre.challenge_count + 1) as u128)
    }
}

/// Opens a challenge against an executor currently holding a slot.
///
/// The caller must be a watchdog and the system must be executing.  A
/// fresh id is allocated, the challenge is stored as `Pending` with a
/// response deadline one response window ahead, the id joins the active
/// list, the phase moves to `ChallengeExecutor`, and the challenger's
/// initiated-counter advances.  On any error the state is unchanged.
pub fn challenge_executor(
    state: &mut SystemState,
    caller: Address,
    now: u64,
    executor: Address,
    challenge_type: ChallengeType,
    challenge_data: Vec<u8>,
) -> (r: Result<u128, Error>)
    requires
        old(state).wf(),
        old(state).challenge_count < u128::MAX,
        now <= u64::MAX - CHALLENGE_RESPONSE_WINDOW,
    ensures
        final(state).wf(),
        r == spec_challenge_executor_check(*old(state), caller, executor),
        r is Err ==> *final(state) == *old(state),
        spec_status_monotone(*old(state), *final(state)),
        r matches Ok(id) ==> {
            &&& id == old(state).challenge_count + 1
            &&& final(state).challenge_count == id
            &&& (match final(state).spec_challenge(id) {
                Some(c) => {
                    &&& c.id == id
                    &&& c.challenger == caller
                    &&& c.challenged == executor
                    &&& c.challenge_type == challenge_type
                    &&& c.execution_id is None
                    &&& c.challenge_data == challenge_data
                    &&& c.response_deadline == now + CHALLENGE_RESPONSE_WINDOW
                    &&& c.status == ChallengeStatus::Pending
                    &&& c.verification_proofs@.len() == 0
                },
                None => false,
            })
            &&& forall|id2: u128|
                id2 != id ==> final(state).spec_challenge(id2) == old(state).spec_challenge(id2)
            &&& final(state).watchdog_pool.active_challenges@ == old(
                state,
            ).watchdog_pool.active_challenges@.push(id)
            &&& final(state).current_phase == Phase::ChallengeExecutor
            &&& final(state).last_global_update == now
            &&& final(state).executor_pool == old(state).executor_pool
            &&& final(state).watchdog_pool.watchdogs == old(state).watchdog_pool.watchdogs
            &&& final(state).execution_results == old(state).execution_results
            &&& final(state).pending_verifications == old(state).pending_verifications
            &&& spec_ops_after_bump(*old(state), caller, final(state).operators@, false)
        },
{
    if !state.initialized {
        return Err(Error::Uninitialized);
    }
    if !state.is_watchdog(&caller) {
        return Err(Error::Unauthorized);
    }
    let occupies_slot = state.is_executor(&executor);
    if !occupies_slot {
        return Err(Error::NotRegistered);
    }
    if !(state.current_phase == Phase::Executing) {
        return Err(Error::WrongPhase { expected: Phase::Executing, actual: state.current_phase });
    }

    let id = state.challenge_count + 1;
    let challenge = Challenge {
        id,
        challenger: caller,
        challenged: executor,
        challenge_type,
        execution_id: None,
        challenge_data,
        response_deadline: now + CHALLENGE_RESPONSE_WINDOW,
        status: ChallengeStatus::Pending,
        verification_proofs: Vec::new(),
    };
    crate::store::imap_set(&mut state.challenges, id, challenge);
    state.watchdog_pool.active_challenges.push(id);
    state.challenge_count = id;
    state.current_phase = Phase::ChallengeExecutor;
    bump_challenge_counter(state, caller, false);
    state.last_global_update = now;

    proof {
        assert forall|x: u128| x != id implies #[trigger] state.spec_challenge(x) == old(
            state,
        ).spec_challenge(x) by {}
        assert(old(state).spec_challenge(id) is None);
        assert(spec_status_monotone(*old(state), *state));
    }

    Ok(id)
}

/// Witness validity for a challenge response: every witness must be a
/// current watchdog and its signature must verify over the digest of the
/// challenge id followed by the response bytes.
pub open spec fn spec_witnesses_valid(
    pre: SystemState,
    id: u128,
    response: Seq<u8>,
    witnesses: Seq<(Address, Vec<u8>)>,
) -> bool {
    forall|i: int|
        0 <= i < witnesses.len() ==> pre.spec_is_watchdog(#[trigger] witnesses[i].0)
            && spec_signature_valid(
            spec_digest(vstd::bytes::spec_u128_to_le_bytes(id) + response),
            witnesses[i].1@,
            witnesses[i].0,
        )
}

/// The exact outcome of `respond_to_challenge` on a given state and inputs.
pub open spec fn spec_respond_check(
    pre: SystemState,
    caller: Address,
    id: u128,
    now: u64,
    response: Seq<u8>,
    witnesses: Seq<(Address, Vec<u8>)>,
) -> Result<(), Error> {
    if !pre.initialized {
        Err(Error::Uninitialized)
    } else if pre.current_phase == Phase::Crashed {
        Err(Error::WrongPhase { expected: Phase::Executing, actual: pre.current_phase })
    } else {
        match pre.spec_challenge(id) {
            None => Err(Error::ChallengeNotFound),
            Some(c) => {
                if c.challenged != caller {
                    Err(Error::Unauthorized)
                } else if c.status != ChallengeStatus::Pending {
                    Err(Error::ChallengeNotPending)
                } else if now > c.response_deadline {
                    Err(Error::DeadlinePassed)
                } else if !spec_witnesses_valid(pre, id, response, witnesses) {
                    Err(Error::InvalidSignature)
                } else {
                    Ok(())
                }
            },
        }
    }
}

/// Answers a pending challenge.
///
/// Only the challenged party may respond, only while the challenge is
/// `Pending` and its deadline has not passed, and only with witness
/// signatures from current watchdogs over the digest of the challenge id
/// and response.  The response joins the proof list, the status moves to
/// `Responded`, and the responder's answered-counter advances.  For an
/// attestation challenge the attestation oracle is consulted on the
/// evidence at once: acceptance refreshes the challenged party's
/// attestation mark, rejection vacates its slot through failure handling.
/// On any error the state is unchanged.
#[verifier::loop_isolation(false)]
pub fn respond_to_challenge(
    state: &mut SystemState,
    caller: Address,
    now: u64,
    challenge_id: u128,
    response_data: Vec<u8>,
    challenge_proof: ChallengeProof,
) -> (r: Result<(), Error>)
    requires
        old(state).wf(),
        old(state).executor_pool.failed_attempts < u64::MAX,
    ensures
        final(state).wf(),
        r == spec_respond_check(
            *old(state),
            caller,
            challenge_id,
            now,
            response_data@,
            challenge_proof.witness_signatures@,
        ),
        r is Err ==> *final(state) == *old(state),
        spec_status_monotone(*old(state), *final(state)),
        r is Ok ==> {
            let c = old(state).spec_challenge(challenge_id).unwrap();
            &&& (match final(state).spec_challenge(challenge_id) {
                Some(c2) => spec_challenge_updated(
                    c2,
                    c,
                    ChallengeStatus::Responded,
                    c.verification_proofs@.push(
                        VerificationProof {
                            verifier: caller,
                            verdict: true,
                            proof_data: response_data,
                        },
                    ),
                ),
                None => false,
            })
            &&& forall|id2: u128|
                id2 != challenge_id ==> final(state).spec_challenge(id2) == old(
                    state,
                ).spec_challenge(id2)
            &&& spec_ops_after_bump(*old(state), caller, final(state).operators@, true)
            &&& (c.challenge_type == ChallengeType::Attestation ==> alist_get(
                final(state).attestation_status@,
                c.challenged,
            ) == Some(true))
            &&& (c.challenge_type != ChallengeType::Attestation ==> final(state).attestation_status
                == old(state).attestation_status)
            &&& *final(state) == (SystemState {
                challenges: final(state).challenges,
                operators: final(state).operators,
                attestation_status: final(state).attestation_status,
                ..*old(state)
            })
        },
{
    let ghost pre = *state;
    if !state.initialized {
        return Err(Error::Uninitialized);
    }
    if state.current_phase == Phase::Crashed {
        return Err(Error::WrongPhase { expected: Phase::Executing, actual: state.current_phase });
    }
    let idx = match imap_index(&state.challenges, challenge_id) {
        Some(i) => i,
        None => {
            return Err(Error::ChallengeNotFound);
        },
    };
    proof {
        crate::store::lemma_alist_get_some_of_index(state.challenges@, idx as int);
        lemma_alist_get_update(
            state.challenges@,
            idx as int,
            challenge_id,
            state.challenges@[idx as int].1,
        );
        assert(state.challenges@.update(idx as int, state.challenges@[idx as int]) =~= state
            .challenges@);
        assert(state.spec_challenge(challenge_id) == Some(state.challenges@[idx as int].1));
    }
    let (c_challenged, c_status, c_deadline, c_type) = {
        let c = &state.challenges[idx].1;
        (c.challenged, c.status, c.response_deadline, c.challenge_type)
    };
    if !(c_challenged == caller) {
        return Err(Error::Unauthorized);
    }
    if !(c_status == ChallengeStatus::Pending) {
        return Err(Error::ChallengeNotPending);
    }
    if now > c_deadline {
        return Err(Error::DeadlinePassed);
    }

    // Check the witnesses: each must be a current watchdog, and its
    // signature must verify over hash(challenge_id || response).
    let mut message = vstd::bytes::u128_to_le_bytes(challenge_id);
    message.extend_from_slice(response_data.as_slice());
    proof {
        assert(message@ =~= vstd::bytes::spec_u128_to_le_bytes(challenge_id) + response_data@);
    }
    let digest = hash_message(message.as_slice());
    let mut wi: usize = 0;
    let wn = challenge_proof.witness_signatures.len();
    while wi < wn
        invariant
            wn == challenge_proof.witness_signatures@.len(),
            wi <= wn,
            *state == pre,
            pre == *old(state),
            digest@ == spec_digest(
                vstd::bytes::spec_u128_to_le_bytes(challenge_id) + response_data@,
            ),
            forall|i: int|
                0 <= i < wi ==> pre.spec_is_watchdog(
                    #[trigger] challenge_proof.witness_signatures@[i].0,
                ) && spec_signature_valid(
                    spec_digest(
                        vstd::bytes::spec_u128_to_le_bytes(challenge_id) + response_data@,
                    ),
                    challenge_proof.witness_signatures@[i].1@,
                    challenge_proof.witness_signatures@[i].0,
                ),
        decreases wn - wi,
    {
        let witness = challenge_proof.witness_signatures[wi].0;
        let member = state.is_watchdog(&witness);
        let signature_ok = verify_signature(
            digest.as_slice(),
            challenge_proof.witness_signatures[wi].1.as_slice(),
            &witness,
        );
        if !member || !signature_ok {
            proof {
                assert(challenge_proof.witness_signatures@[wi as int].0 == witness);
                assert(!spec_witnesses_valid(
                    pre,
                    challenge_id,
                    response_data@,
                    challenge_proof.witness_signatures@,
                ));
            }
            return Err(Error::InvalidSignature);
        }
        wi += 1;
    }

    // All gates passed: record the response.
    let ghost m0 = state.challenges@;
    let ghost c0 = m0[idx as int].1;
    let proof_entry = VerificationProof {
        verifier: caller,
        verdict: true,
        proof_data: response_data,
    };
    state.challenges[idx].1.status = ChallengeStatus::Responded;
    state.challenges[idx].1.verification_proofs.push(proof_entry);
    proof {
        let c2 = state.challenges@[idx as int].1;
        assert(state.challenges@ =~= m0.update(idx as int, (challenge_id, c2)));
        lemma_alist_get_update(m0, idx as int, challenge_id, c2);
        assert(alist_get(m0, challenge_id) == Some(c0));
        assert(c0.status == ChallengeStatus::Pending);
        assert(c0.verification_proofs@.len() == 0);
        assert(c2.verification_proofs@ == c0.verification_proofs@.push(proof_entry));
        assert(proofs_distinct(c2.verification_proofs@));
        assert forall|x: u128|
            match #[trigger] alist_get(state.challenges@, x) {
                Some(c) => {
                    &&& c.id == x
                    &&& x <= state.challenge_count
                    &&& proofs_distinct(c.verification_proofs@)
                    &&& (c.status == ChallengeStatus::Pending ==> c.verification_proofs@.len()
                        == 0)
                },
                None => true,
            } by {
            if x != challenge_id {
                assert(alist_get(state.challenges@, x) == alist_get(m0, x));
            } else {
                assert(alist_get(state.challenges@, x) == Some(c2));
            }
        }
        assert(state.inv_challenges());
    }
    bump_challenge_counter(state, caller, true);

    // An attestation challenge is checked against the oracle at once.
    if c_type == ChallengeType::Attestation {
        let kind = match amap_get(&state.enclave_types, &c_challenged) {
            Some(k) => *k,
            None => EnclaveType::IntelSGX,
        };
        let empty: Vec<u8> = Vec::new();
        let attestation_ok = verify_attestation_report(
            challenge_proof.proof_data.as_slice(),
            empty.as_slice(),
            kind,
        );
        if attestation_ok {
            crate::store::amap_set(&mut state.attestation_status, c_challenged, true);
        } else {
            handle_failure(state, c_challenged);
        }
    }

    proof {
        assert forall|x: u128| x != challenge_id implies #[trigger] state.spec_challenge(x) == old(
            state,
        ).spec_challenge(x) by {}
        assert(spec_status_monotone(*old(state), *state));
    }

    Ok(())
}

/// Whether one of the proofs came from this verifier.
fn proofs_have_verifier(ps: &Vec<VerificationProof>, a: &Address) -> (r: bool)
    ensures
        r == spec_has_verifier(ps@, *a),
{
    let mut i: usize = 0;
    while i < ps.len()
        invariant
            i <= ps@.len(),
            forall|j: int| 0 <= j < i ==> ps@[j].verifier != *a,
        decreases ps@.len() - i,
    {
        if ps[i].verifier == *a {
            return true;
        }
        i += 1;
    }
    false
}

/// Counts the proofs that carry a `true` verdict.
fn count_true_proofs(ps: &Vec<VerificationProof>) -> (n: usize)
    ensures
        n == count_true(ps@),
{
    let mut n: usize = 0;
    let mut i: usize = 0;
    while i < ps.len()
        invariant
            i <= ps@.len(),
            n <= i,
            n == count_true(ps@.take(i as int)),
        decreases ps@.len() - i,
    {
        proof {
            assert(ps@.take(i + 1).drop_last() =~= ps@.take(i as int));
            assert(ps@.take(i + 1).last() == ps@[i as int]);
        }
        if ps[i].verdict {
            n += 1;
        }
        i += 1;
    }
    proof {
        assert(ps@.take(ps@.len() as int) =~= ps@);
    }
    n
}

/// The exact gate outcome of `verify_challenge_response`: which calls are
/// accepted at all.  An accepted call on an expired pending challenge
/// marks it expired; one on a responded challenge records the verdict.
pub open spec fn spec_verify_response_check(
    pre: SystemState,
    caller: Address,
    id: u128,
    now: u64,
) -> Result<(), Error> {
    if !pre.initialized {
        Err(Error::Uninitialized)
    } else if pre.current_phase == Phase::Crashed {
        Err(Error::WrongPhase { expected: Phase::Executing, actual: pre.current_phase })
    } else if !pre.spec_is_watchdog(caller) {
        Err(Error::Unauthorized)
    } else {
        match pre.spec_challenge(id) {
            None => Err(Error::ChallengeNotFound),
            Some(c) => {
                if c.status == ChallengeStatus::Pending && now > c.response_deadline {
                    Ok(())
                } else if c.status != ChallengeStatus::Responded {
                    Err(Error::ChallengeNotPending)
                } else {
                    Ok(())
                }
            },
        }
    }
}

/// Records a watchdog's verdict on a responded challenge.
///
/// A pending challenge whose deadline has passed is marked `Expired` on
/// this touch and handed to failure handling.  Otherwise the challenge
/// must be `Responded`; a verdict from a watchdog that already voted is
/// dropped silently.  Once the proof list reaches the supermajority bound
/// `2W/3 + 1`, the verdicts are tallied: enough `true` verdicts set the
/// challenge `Verified` and return the phase to `Executing`; otherwise
/// the challenge is `Failed` and the challenged executor is replaced or
/// its slot vacated.  On any error the state is unchanged.
#[verifier::loop_isolation(false)]
pub fn verify_challenge_response(
    state: &mut SystemState,
    caller: Address,
    now: u64,
    challenge_id: u128,
    verification_result: bool,
    verification_proof: Vec<u8>,
) -> (r: Result<(), Error>)
    requires
        old(state).wf(),
        old(state).executor_pool.failed_attempts < u64::MAX,
    ensures
        final(state).wf(),
        r == spec_verify_response_check(*old(state), caller, challenge_id, now),
        r is Err ==> *final(state) == *old(state),
        spec_status_monotone(*old(state), *final(state)),
        r is Ok ==> {
            let c = old(state).spec_challenge(challenge_id).unwrap();
            let entry = VerificationProof {
                verifier: caller,
                verdict: verification_result,
                proof_data: verification_proof,
            };
            let ps2 = c.verification_proofs@.push(entry);
            let q = spec_quorum(old(state).watchdog_pool.watchdogs@.len());
            &&& *final(state) == (SystemState {
                challenges: final(state).challenges,
                executor_pool: final(state).executor_pool,
                watchdog_pool: final(state).watchdog_pool,
                current_phase: final(state).current_phase,
                keep_status: final(state).keep_status,
                ..*old(state)
            })
            &&& final(state).watchdog_pool.active_challenges == old(
                state,
            ).watchdog_pool.active_challenges
            &&& forall|id2: u128|
                id2 != challenge_id ==> final(state).spec_challenge(id2) == old(
                    state,
                ).spec_challenge(id2)
            &&& (c.status == ChallengeStatus::Pending ==> {
                // The touch that notices an elapsed deadline.
                &&& now > c.response_deadline
                &&& (match final(state).spec_challenge(challenge_id) {
                    Some(c2) => spec_challenge_updated(
                        c2,
                        c,
                        ChallengeStatus::Expired,
                        c.verification_proofs@,
                    ),
                    None => false,
                })
                &&& spec_failure_core(*old(state), *final(state), c.challenged)
            })
            &&& (c.status == ChallengeStatus::Responded && spec_has_verifier(
                c.verification_proofs@,
                caller,
            ) ==> *final(state) == *old(state))
            &&& (c.status == ChallengeStatus::Responded && !spec_has_verifier(
                c.verification_proofs@,
                caller,
            ) ==> {
                &&& final(state).watchdog_pool.last_verification == now
                &&& (ps2.len() < q ==> {
                    &&& (match final(state).spec_challenge(challenge_id) {
                        Some(c2) => spec_challenge_updated(
                            c2,
                            c,
                            ChallengeStatus::Responded,
                            ps2,
                        ),
                        None => false,
                    })
                    &&& final(state).executor_pool == old(state).executor_pool
                    &&& final(state).current_phase == old(state).current_phase
                    &&& final(state).watchdog_pool.watchdogs == old(
                        state,
                    ).watchdog_pool.watchdogs
                    &&& final(state).keep_status == old(state).keep_status
                })
                &&& (ps2.len() >= q && count_true(ps2) >= q ==> {
                    &&& (match final(state).spec_challenge(challenge_id) {
                        Some(c2) => spec_challenge_updated(
                            c2,
                            c,
                            ChallengeStatus::Verified,
                            ps2,
                        ),
                        None => false,
                    })
                    &&& final(state).current_phase == Phase::Executing
                    &&& final(state).executor_pool == old(state).executor_pool
                    &&& final(state).watchdog_pool.watchdogs == old(
                        state,
                    ).watchdog_pool.watchdogs
                    &&& final(state).keep_status == old(state).keep_status
                })
                &&& (ps2.len() >= q && count_true(ps2) < q ==> {
                    &&& (match final(state).spec_challenge(challenge_id) {
                        Some(c2) => spec_challenge_updated(c2, c, ChallengeStatus::Failed, ps2),
                        None => false,
                    })
                    &&& spec_failure_core(*old(state), *final(state), c.challenged)
                })
            })
        },
        // A challenge becomes `Verified` only on a distinct-verifier
        // supermajority of `true` verdicts.
        (match (old(state).spec_challenge(challenge_id), final(state).spec_challenge(
            challenge_id,
        )) {
            (Some(a), Some(b)) => a.status != ChallengeStatus::Verified && b.status
                == ChallengeStatus::Verified ==> count_true(b.verification_proofs@) >= spec_quorum(
                old(state).watchdog_pool.watchdogs@.len(),
            ) && proofs_distinct(b.verification_proofs@),
            _ => true,
        }),
{
    let ghost pre = *state;
    if !state.initialized {
        return Err(Error::Uninitialized);
    }
    if state.current_phase == Phase::Crashed {
        return Err(Error::WrongPhase { expected: Phase::Executing, actual: state.current_phase });
    }
    if !state.is_watchdog(&caller) {
        return Err(Error::Unauthorized);
    }
    let idx = match imap_index(&state.challenges, challenge_id) {
        Some(i) => i,
        None => {
            return Err(Error::ChallengeNotFound);
        },
    };
    proof {
        crate::store::lemma_alist_get_some_of_index(state.challenges@, idx as int);
        lemma_alist_get_update(
            state.challenges@,
            idx as int,
            challenge_id,
            state.challenges@[idx as int].1,
        );
        assert(state.challenges@.update(idx as int, state.challenges@[idx as int]) =~= state
            .challenges@);
        assert(state.spec_challenge(challenge_id) == Some(state.challenges@[idx as int].1));
    }
    let (c_challenged, c_status, c_deadline) = {
        let c = &state.challenges[idx].1;
        (c.challenged, c.status, c.response_deadline)
    };

    if c_status == ChallengeStatus::Pending && now > c_deadline {
        // The deadline has passed before any response: the challenge is
        // expired and treated as failed.
        let ghost m0 = state.challenges@;
        let ghost c0 = m0[idx as int].1;
        state.challenges[idx].1.status = ChallengeStatus::Expired;
        proof {
            let c2 = state.challenges@[idx as int].1;
            assert(state.challenges@ =~= m0.update(idx as int, (challenge_id, c2)));
            lemma_alist_get_update(m0, idx as int, challenge_id, c2);
            assert forall|x: u128|
                match #[trigger] alist_get(state.challenges@, x) {
                    Some(c) => {
                        &&& c.id == x
                        &&& x <= state.challenge_count
                        &&& proofs_distinct(c.verification_proofs@)
                        &&& (c.status == ChallengeStatus::Pending
                            ==> c.verification_proofs@.len() == 0)
                    },
                    None => true,
                } by {
                if x != challenge_id {
                    assert(alist_get(state.challenges@, x) == alist_get(m0, x));
                } else {
                    assert(alist_get(state.challenges@, x) == Some(c2));
                }
            }
            assert(state.inv_challenges());
        }
        let ghost mid = *state;
        handle_failure(state, c_challenged);
        proof {
            assert(spec_slot_kind(pre, c_challenged) == spec_slot_kind(mid, c_challenged));
            assert(spec_failure_core(pre, *state, c_challenged));
            assert forall|x: u128| x != challenge_id implies #[trigger] state.spec_challenge(x)
                == pre.spec_challenge(x) by {}
            assert(spec_status_monotone(pre, *state));
        }
        return Ok(());
    }
    if !(c_status == ChallengeStatus::Responded) {
        return Err(Error::ChallengeNotPending);
    }

    // A verdict from a verifier that already voted counts only once and
    // is dropped silently.
    let already = proofs_have_verifier(&state.challenges[idx].1.verification_proofs, &caller);
    if already {
        return Ok(());
    }

    let ghost m0 = state.challenges@;
    let ghost c0 = m0[idx as int].1;
    let entry = VerificationProof {
        verifier: caller,
        verdict: verification_result,
        proof_data: verification_proof,
    };
    state.challenges[idx].1.verification_proofs.push(entry);

    let total = state.challenges[idx].1.verification_proofs.len();
    let w = state.watchdog_pool.watchdogs.len();
    let quorum: u128 = (w as u128) * 2 / 3 + 1;
    proof {
        assert(quorum == spec_quorum(pre.watchdog_pool.watchdogs@.len()));
    }

    let concluded: bool = (total as u128) >= quorum;
    let mut accepted: bool = false;
    if concluded {
        let trues = count_true_proofs(&state.challenges[idx].1.verification_proofs);
        accepted = (trues as u128) >= quorum;
        if accepted {
            state.challenges[idx].1.status = ChallengeStatus::Verified;
        } else {
            state.challenges[idx].1.status = ChallengeStatus::Failed;
        }
    }

    proof {
        let c2 = state.challenges@[idx as int].1;
        assert(state.challenges@ =~= m0.update(idx as int, (challenge_id, c2)));
        lemma_alist_get_update(m0, idx as int, challenge_id, c2);
        assert(alist_get(m0, challenge_id) == Some(c0));
        assert(c2.verification_proofs@ == c0.verification_proofs@.push(entry));
        assert forall|i: int, j: int|
            0 <= i < j < c2.verification_proofs@.len() implies c2.verification_proofs@[i].verifier
            != c2.verification_proofs@[j].verifier by {
            if j == c2.verification_proofs@.len() - 1 {
                assert(c2.verification_proofs@[i] == c0.verification_proofs@[i]);
                assert(!spec_has_verifier(c0.verification_proofs@, caller));
            } else {
                assert(c2.verification_proofs@[i] == c0.verification_proofs@[i]);
                assert(c2.verification_proofs@[j] == c0.verification_proofs@[j]);
            }
        }
        assert forall|x: u128|
            match #[trigger] alist_get(state.challenges@, x) {
                Some(c) => {
                    &&& c.id == x
                    &&& x <= state.challenge_count
                    &&& proofs_distinct(c.verification_proofs@)
                    &&& (c.status == ChallengeStatus::Pending ==> c.verification_proofs@.len()
                        == 0)
                },
                None => true,
            } by {
            if x != challenge_id {
                assert(alist_get(state.challenges@, x) == alist_get(m0, x));
            } else {
                assert(alist_get(state.challenges@, x) == Some(c2));
            }
        }
        assert(state.inv_challenges());
    }

    state.watchdog_pool.last_verification = now;
    if concluded {
        if accepted {
            state.current_phase = Phase::Executing;
        } else {
            let ghost mid = *state;
            handle_failure(state, c_challenged);
            proof {
                assert(spec_slot_kind(pre, c_challenged) == spec_slot_kind(mid, c_challenged));
                assert(spec_failure_core(pre, *state, c_challenged));
            }
        }
    }

    proof {
        assert forall|x: u128| x != challenge_id implies #[trigger] state.spec_challenge(x)
            == pre.spec_challenge(x) by {}
        assert(spec_status_monotone(pre, *state));
    }

    Ok(())
}

/// How many ids in the list name a stored challenge with this status.
pub open spec fn spec_count_status(
    pre: SystemState,
    ids: Seq<u128>,
    status: ChallengeStatus,
) -> nat
    decreases ids.len(),
{
    if ids.len() == 0 {
        0
    } else {
        spec_count_status(pre, ids.drop_last(), status) + (match pre.spec_challenge(ids.last()) {
            Some(c) => if c.status == status {
                1nat
            } else {
                0nat
            },
            None => 0nat,
        })
    }
}

/// Counts the active challenges in the given status.
fn count_active_status(state: &SystemState, status: ChallengeStatus) -> (n: usize)
    ensures
        n == spec_count_status(*state, state.watchdog_pool.active_challenges@, status),
{
    let ids = &state.watchdog_pool.active_challenges;
    let mut n: usize = 0;
    let mut i: usize = 0;
    while i < ids.len()
        invariant
            i <= ids@.len(),
            n <= i,
            n == spec_count_status(*state, ids@.take(i as int), status),
        decreases ids@.len() - i,
    {
        proof {
            assert(ids@.take(i + 1).drop_last() =~= ids@.take(i as int));
            assert(ids@.take(i + 1).last() == ids@[i as int]);
        }
        match imap_get(&state.challenges, ids[i]) {
            Some(c) => {
                if c.status == status {
                    n += 1;
                }
            },
            None => {},
        }
        i += 1;
    }
    proof {
        assert(ids@.take(ids@.len() as int) =~= ids@);
    }
    n
}

/// Reports the total number of challenges ever opened and, over the
/// active list, how many sit pending, verified and failed.  Fails with
/// `Uninitialized` before bootstrap.
pub fn get_challenge_stats(state: &SystemState) -> (r: Result<(u128, usize, usize, usize), Error>)
    ensures
        r is Ok <==> state.initialized,
        r is Err ==> r == Err::<(u128, usize, usize, usize), Error>(Error::Uninitialized),
        r matches Ok(t) ==> t == (
            state.challenge_count,
            spec_count_status(
                *state,
                state.watchdog_pool.active_challenges@,
                ChallengeStatus::Pending,
            ) as usize,
            spec_count_status(
                *state,
                state.watchdog_pool.active_challenges@,
                ChallengeStatus::Verified,
            ) as usize,
            spec_count_status(
                *state,
                state.watchdog_pool.active_challenges@,
                ChallengeStatus::Failed,
            ) as usize,
        ),
{
    if !state.initialized {
        return Err(Error::Uninitialized);
    }
    let pending = count_active_status(state, ChallengeStatus::Pending);
    let verified = count_active_status(state, ChallengeStatus::Verified);
    let failed = count_active_status(state, ChallengeStatus::Failed);
    Ok((state.challenge_count, pending, verified, failed))
}

/// A snapshot of one challenge's verification progress: how many proofs
/// it holds against the current supermajority bound.
pub fn get_challenge_context(state: &SystemState, challenge_id: u128) -> (r: Option<
    ChallengeContext,
>)
    ensures
        r is Some <==> state.spec_challenge(challenge_id) is Some,
        r matches Some(ctx) ==> {
            &&& ctx.challenge_id == challenge_id
            &&& ctx.current_phase == state.current_phase
            &&& ctx.proof_count == state.spec_challenge(
                challenge_id,
            ).unwrap().verification_proofs@.len()
            &&& ctx.required_verifications == state.spec_required_verifications()
        },
{
    let c = match imap_get(&state.challenges, challenge_id) {
        Some(c) => c,
        None => {
            return None;
        },
    };
    let w = state.watchdog_pool.watchdogs.len();
    let q128: u128 = (w as u128) * 2 / 3 + 1;
    proof {
        assert(q128 <= usize::MAX as u128);
    }
    Some(
        ChallengeContext {
            challenge_id,
            current_phase: state.current_phase,
            proof_count: c.verification_proofs.len(),
            required_verifications: q128 as usize,
        },
    )
}

} // verus!
