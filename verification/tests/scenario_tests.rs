use tee_committee::challenge::{
    challenge_executor, get_challenge_context, get_challenge_stats, respond_to_challenge,
    verify_challenge_response,
};
use tee_committee::execution::{
    get_execution_result, get_pending_verifications, submit_execution_result, verify_execution,
};
use tee_committee::external::{
    create_governance_proposal, distribute_rewards, execute_governance_decision,
    has_minimum_stake, stake_tokens,
};
use tee_committee::init::init;
use tee_committee::keep::{check_watchdog_pool_health, pause_keep};
use tee_committee::oracle::{
    hash_incremental, hash_message, verify_attestation_report, verify_signature,
};
use tee_committee::registry::{register_executor, register_ready_tee, register_watchdog};
use tee_committee::state::SystemState;
use tee_committee::types::{
    Address, ChallengeProof, ChallengeStatus, ChallengeType, EnclaveType, Error, Phase,
    TokenInteractionType,
};

const SGX_OPERATOR: &str = "sgx_operator_address";
const SEV_OPERATOR: &str = "sev_operator_address";

fn setup() -> SystemState {
    let mut state = SystemState::new();
    init(
        &mut state,
        1,
        SGX_OPERATOR.to_string(),
        SEV_OPERATOR.to_string(),
        Address::from([1u8; 32]),
        Address::from([2u8; 32]),
    )
    .unwrap();
    state
}

fn register_both_executors(state: &mut SystemState) -> (Address, Address) {
    let sgx_executor = Address::from([3u8; 32]);
    let sev_executor = Address::from([4u8; 32]);
    register_executor(
        state,
        sgx_executor,
        2,
        EnclaveType::IntelSGX,
        SGX_OPERATOR.to_string(),
        "sgx-keep-123".to_string(),
        vec![0u8; 32],
        vec![0u8; 64],
    )
    .unwrap();
    register_executor(
        state,
        sev_executor,
        2,
        EnclaveType::AMDSEV,
        SEV_OPERATOR.to_string(),
        "sev-keep-456".to_string(),
        vec![0u8; 32],
        vec![0u8; 64],
    )
    .unwrap();
    (sgx_executor, sev_executor)
}

#[test]
fn scenario_matching_results_verify() {
    let mut state = setup();
    let (e1, e2) = register_both_executors(&mut state);

    let hash = vec![0xAAu8; 32];
    submit_execution_result(&mut state, e1, 3, 10, 1u128, hash.clone()).unwrap();
    submit_execution_result(&mut state, e2, 3, 10, 1u128, hash.clone()).unwrap();

    assert!(verify_execution(&state, 1u128));
    assert!(get_pending_verifications(&state).is_empty());
}

#[test]
fn scenario_mismatch_opens_two_challenges() {
    let mut state = setup();
    let (e1, e2) = register_both_executors(&mut state);

    let hash_a = vec![0xAAu8; 32];
    let hash_b = vec![0xBBu8; 32];
    submit_execution_result(&mut state, e1, 3, 10, 2u128, hash_a.clone()).unwrap();
    submit_execution_result(&mut state, e2, 3, 10, 2u128, hash_b.clone()).unwrap();

    assert_eq!(state.get_current_phase(), Phase::ChallengeExecutor);
    assert_eq!(state.challenge_count, 2);

    let first = state.get_challenge(1).unwrap();
    assert_eq!(first.challenge_type, ChallengeType::Execution);
    assert_eq!(first.challenged, e1);
    assert_eq!(first.execution_id, Some(2u128));
    // The shared challenge data carries the id and both hashes.
    assert_eq!(first.challenge_data.len(), 16 + 32 + 32);
    assert_eq!(&first.challenge_data[16..48], hash_a.as_slice());
    assert_eq!(&first.challenge_data[48..80], hash_b.as_slice());

    let second = state.get_challenge(2).unwrap();
    assert_eq!(second.challenge_type, ChallengeType::Execution);
    assert_eq!(second.challenged, e2);
    assert_eq!(second.challenge_data, first.challenge_data);
}

#[test]
fn scenario_supermajority_verifies_challenge() {
    let mut state = setup();
    let (e1, _e2) = register_both_executors(&mut state);

    // Three watchdogs: the supermajority bound is three.
    let w: Vec<Address> = (0..3u8).map(|i| Address::from([i + 5; 32])).collect();
    for (i, wd) in w.iter().enumerate() {
        register_watchdog(
            &mut state,
            *wd,
            3,
            if i % 2 == 0 {
                EnclaveType::IntelSGX
            } else {
                EnclaveType::AMDSEV
            },
            vec![0u8; 32],
            vec![0u8; 64],
        )
        .unwrap();
    }

    let id = challenge_executor(&mut state, w[0], 4, e1, ChallengeType::Execution, vec![1u8; 8])
        .unwrap();

    // The challenged party responds in time, with a watchdog witness.
    respond_to_challenge(
        &mut state,
        e1,
        5,
        id,
        vec![7u8; 16],
        ChallengeProof {
            challenge_id: id,
            proof_data: vec![8u8; 16],
            timestamp: 5,
            witness_signatures: vec![(w[1], vec![9u8; 64])],
        },
    )
    .unwrap();
    assert_eq!(state.get_challenge(id).unwrap().status, ChallengeStatus::Responded);

    // Two accepting verdicts from distinct watchdogs reach the bound
    // together with the recorded response.
    verify_challenge_response(&mut state, w[1], 6, id, true, vec![0u8; 16]).unwrap();
    assert_eq!(state.get_challenge(id).unwrap().status, ChallengeStatus::Responded);

    verify_challenge_response(&mut state, w[2], 7, id, true, vec![0u8; 16]).unwrap();
    assert_eq!(state.get_challenge(id).unwrap().status, ChallengeStatus::Verified);
    assert_eq!(state.get_current_phase(), Phase::Executing);

    // A later conflicting verdict cannot move a settled challenge.
    let conflict = verify_challenge_response(&mut state, w[0], 8, id, false, vec![0u8; 16]);
    assert_eq!(conflict, Err(Error::ChallengeNotPending));
    assert_eq!(state.get_challenge(id).unwrap().status, ChallengeStatus::Verified);
}

#[test]
fn scenario_duplicate_verdict_counts_once() {
    let mut state = setup();
    let (e1, _e2) = register_both_executors(&mut state);

    let w: Vec<Address> = (0..3u8).map(|i| Address::from([i + 5; 32])).collect();
    for wd in w.iter() {
        register_watchdog(&mut state, *wd, 3, EnclaveType::IntelSGX, vec![0u8; 32], vec![
            0u8;
            64
        ])
        .unwrap();
    }

    let id = challenge_executor(&mut state, w[0], 4, e1, ChallengeType::Execution, vec![1u8; 8])
        .unwrap();
    respond_to_challenge(
        &mut state,
        e1,
        5,
        id,
        vec![7u8; 16],
        ChallengeProof {
            challenge_id: id,
            proof_data: vec![8u8; 16],
            timestamp: 5,
            witness_signatures: Vec::new(),
        },
    )
    .unwrap();

    verify_challenge_response(&mut state, w[1], 6, id, true, vec![0u8; 16]).unwrap();
    let proofs_before = state.get_challenge(id).unwrap().verification_proofs.len();

    // The same watchdog voting again changes nothing.
    verify_challenge_response(&mut state, w[1], 7, id, true, vec![0u8; 16]).unwrap();
    let proofs_after = state.get_challenge(id).unwrap().verification_proofs.len();
    assert_eq!(proofs_before, proofs_after);
    assert_eq!(state.get_challenge(id).unwrap().status, ChallengeStatus::Responded);
}

#[test]
fn scenario_expired_challenges_crash_system() {
    let mut state = setup();
    let (e1, e2) = register_both_executors(&mut state);

    // One SEV-class watchdog.
    let w1 = Address::from([5u8; 32]);
    register_watchdog(&mut state, w1, 3, EnclaveType::AMDSEV, vec![0u8; 32], vec![0u8; 64])
        .unwrap();

    // A mismatch opens one challenge against each executor.
    submit_execution_result(&mut state, e1, 4, 10, 9u128, vec![1u8; 32]).unwrap();
    submit_execution_result(&mut state, e2, 4, 10, 9u128, vec![2u8; 32]).unwrap();
    assert_eq!(state.get_current_phase(), Phase::ChallengeExecutor);

    // Let both response deadlines elapse.
    let late = 4 + 100 + 1;

    // Touching the SGX challenge expires it; no SGX-class stand-by
    // exists, so the slot stays empty.
    verify_challenge_response(&mut state, w1, late, 1, true, vec![0u8; 16]).unwrap();
    assert_eq!(state.get_challenge(1).unwrap().status, ChallengeStatus::Expired);
    assert!(state.executor_pool.sgx_executor.is_none());

    // Touching the SEV challenge expires it too; the SEV watchdog is
    // rotated into the vacated slot.
    verify_challenge_response(&mut state, w1, late, 2, true, vec![0u8; 16]).unwrap();
    assert_eq!(state.executor_pool.sev_executor, Some(w1));
    assert_eq!(state.get_current_phase(), Phase::Executing);

    // A new SGX-class watchdog joins and challenges the remaining
    // executor; the challenge expires with no compatible replacement
    // and both slots empty: the system crashes.
    let w6 = Address::from([6u8; 32]);
    register_watchdog(&mut state, w6, late, EnclaveType::IntelSGX, vec![0u8; 32], vec![
        0u8;
        64
    ])
    .unwrap();
    let id3 = challenge_executor(&mut state, w6, late, w1, ChallengeType::Attestation, vec![
        0u8;
        8
    ])
    .unwrap();
    let later = late + 100 + 1;
    verify_challenge_response(&mut state, w6, later, id3, true, vec![0u8; 16]).unwrap();

    assert_eq!(state.get_current_phase(), Phase::Crashed);
    assert!(state.executor_pool.sgx_executor.is_none());
    assert!(state.executor_pool.sev_executor.is_none());
}

#[test]
fn scenario_failed_call_leaves_state_unchanged() {
    let mut state = setup();
    let (e1, _e2) = register_both_executors(&mut state);

    let phase_before = state.get_current_phase();
    let count_before = state.challenge_count;
    let watchdogs_before = state.watchdog_pool.watchdogs.len();
    let pending_before = state.pending_verifications.clone();

    // A duplicate submission fails and must leave no trace.
    submit_execution_result(&mut state, e1, 3, 10, 5u128, vec![1u8; 32]).unwrap();
    let side_before = get_execution_result(&state, 5u128).unwrap().sgx_result.clone();
    let attempt = submit_execution_result(&mut state, e1, 4, 11, 5u128, vec![2u8; 32]);
    assert_eq!(attempt, Err(Error::DuplicateSubmission));

    assert_eq!(state.get_current_phase(), phase_before);
    assert_eq!(state.challenge_count, count_before);
    assert_eq!(state.watchdog_pool.watchdogs.len(), watchdogs_before);
    let side_after = get_execution_result(&state, 5u128).unwrap().sgx_result.clone();
    assert_eq!(side_after, side_before);
    assert_eq!(state.pending_verifications.len(), pending_before.len() + 1);
}

#[test]
fn error_uninitialized_operations() {
    let mut state = SystemState::new();
    let caller = Address::from([3u8; 32]);
    let attempt = register_executor(
        &mut state,
        caller,
        1,
        EnclaveType::IntelSGX,
        SGX_OPERATOR.to_string(),
        "sgx-keep-123".to_string(),
        vec![0u8; 32],
        vec![0u8; 64],
    );
    assert_eq!(attempt, Err(Error::Uninitialized));
    assert_eq!(state.get_system_stats(), Err(Error::Uninitialized));
    assert_eq!(get_challenge_stats(&state), Err(Error::Uninitialized));
}

#[test]
fn error_wrong_phase_registration() {
    let mut state = setup();
    let (_e1, _e2) = register_both_executors(&mut state);
    let late_executor = Address::from([9u8; 32]);
    let attempt = register_executor(
        &mut state,
        late_executor,
        3,
        EnclaveType::IntelSGX,
        SGX_OPERATOR.to_string(),
        "sgx-keep-999".to_string(),
        vec![0u8; 32],
        vec![0u8; 64],
    );
    assert_eq!(
        attempt,
        Err(Error::WrongPhase { expected: Phase::Creation, actual: Phase::Executing })
    );
}

#[test]
fn error_unknown_operator_record() {
    let mut state = setup();
    let caller = Address::from([3u8; 32]);
    let attempt = register_executor(
        &mut state,
        caller,
        2,
        EnclaveType::IntelSGX,
        "nobody".to_string(),
        "sgx-keep-123".to_string(),
        vec![0u8; 32],
        vec![0u8; 64],
    );
    assert_eq!(attempt, Err(Error::NotRegistered));
}

#[test]
fn error_challenge_not_found_and_deadlines() {
    let mut state = setup();
    let (e1, _e2) = register_both_executors(&mut state);
    let w1 = Address::from([5u8; 32]);
    register_watchdog(&mut state, w1, 3, EnclaveType::IntelSGX, vec![0u8; 32], vec![0u8; 64])
        .unwrap();

    let missing = respond_to_challenge(
        &mut state,
        e1,
        4,
        77u128,
        vec![0u8; 8],
        ChallengeProof {
            challenge_id: 77u128,
            proof_data: Vec::new(),
            timestamp: 4,
            witness_signatures: Vec::new(),
        },
    );
    assert_eq!(missing, Err(Error::ChallengeNotFound));

    let id = challenge_executor(&mut state, w1, 4, e1, ChallengeType::Execution, vec![1u8; 8])
        .unwrap();

    // Only the challenged party may respond.
    let intruder = respond_to_challenge(
        &mut state,
        w1,
        5,
        id,
        vec![0u8; 8],
        ChallengeProof {
            challenge_id: id,
            proof_data: Vec::new(),
            timestamp: 5,
            witness_signatures: Vec::new(),
        },
    );
    assert_eq!(intruder, Err(Error::Unauthorized));

    // A witness that is not a watchdog invalidates the response.
    let stranger = Address::from([88u8; 32]);
    let bad_witness = respond_to_challenge(
        &mut state,
        e1,
        5,
        id,
        vec![0u8; 8],
        ChallengeProof {
            challenge_id: id,
            proof_data: Vec::new(),
            timestamp: 5,
            witness_signatures: vec![(stranger, vec![1u8; 64])],
        },
    );
    assert_eq!(bad_witness, Err(Error::InvalidSignature));

    // Responding after the deadline fails and changes nothing.
    let too_late = respond_to_challenge(
        &mut state,
        e1,
        4 + 100 + 1,
        id,
        vec![0u8; 8],
        ChallengeProof {
            challenge_id: id,
            proof_data: Vec::new(),
            timestamp: 4 + 100 + 1,
            witness_signatures: Vec::new(),
        },
    );
    assert_eq!(too_late, Err(Error::DeadlinePassed));
    assert_eq!(state.get_challenge(id).unwrap().status, ChallengeStatus::Pending);

    // Responding twice is rejected.
    respond_to_challenge(
        &mut state,
        e1,
        5,
        id,
        vec![0u8; 8],
        ChallengeProof {
            challenge_id: id,
            proof_data: Vec::new(),
            timestamp: 5,
            witness_signatures: Vec::new(),
        },
    )
    .unwrap();
    let again = respond_to_challenge(
        &mut state,
        e1,
        6,
        id,
        vec![0u8; 8],
        ChallengeProof {
            challenge_id: id,
            proof_data: Vec::new(),
            timestamp: 6,
            witness_signatures: Vec::new(),
        },
    );
    assert_eq!(again, Err(Error::ChallengeNotPending));
}

#[test]
fn error_state_corruption_without_token_contract() {
    let mut state = setup();
    let (e1, _e2) = register_both_executors(&mut state);
    state.token_contract = None;
    let attempt = stake_tokens(&mut state, e1, 4, 100);
    assert!(matches!(attempt, Err(Error::StateCorruption)));
}

#[test]
fn roles_remain_disjoint() {
    let mut state = setup();

    // A watchdog cannot take an executor slot under a new registration.
    let w1 = Address::from([5u8; 32]);
    register_watchdog(&mut state, w1, 1, EnclaveType::IntelSGX, vec![0u8; 32], vec![0u8; 64])
        .unwrap();
    let as_executor = register_executor(
        &mut state,
        w1,
        1,
        EnclaveType::IntelSGX,
        SGX_OPERATOR.to_string(),
        "sgx-keep-123".to_string(),
        vec![0u8; 32],
        vec![0u8; 64],
    );
    assert_eq!(as_executor, Err(Error::Unauthorized));

    // An executor cannot join the watchdog pool.
    let e1 = Address::from([3u8; 32]);
    register_executor(
        &mut state,
        e1,
        1,
        EnclaveType::IntelSGX,
        SGX_OPERATOR.to_string(),
        "sgx-keep-123".to_string(),
        vec![0u8; 32],
        vec![0u8; 64],
    )
    .unwrap();
    let as_watchdog =
        register_watchdog(&mut state, e1, 1, EnclaveType::IntelSGX, vec![0u8; 32], vec![0u8; 64]);
    assert_eq!(as_watchdog, Err(Error::Unauthorized));

    // The slot occupant carries the slot's own kind.
    assert_eq!(
        *state.get_enclave_type(&e1).unwrap(),
        EnclaveType::IntelSGX
    );
}

#[test]
fn test_sgx_attestation() {
    let report = vec![1u8; 32];
    let token = vec![2u8; 64];
    assert!(tee_committee::oracle::verify_sgx_keep(&report, &token));
    assert!(verify_attestation_report(&report, &token, EnclaveType::IntelSGX));
}

#[test]
fn oracle_and_hash_helpers() {
    assert!(verify_attestation_report(&[1, 2, 3], &[4, 5], EnclaveType::IntelSGX));
    assert!(verify_attestation_report(&[], &[], EnclaveType::AMDSEV));
    assert!(verify_signature(&[1], &[2], &Address::from([0u8; 32])));

    let digest = hash_message(&[9, 8, 7]);
    assert_eq!(digest, vec![9, 8, 7]);

    let extended = hash_incremental(vec![1, 2], "ab".to_string());
    assert_eq!(extended, vec![1, 2, 97, 98]);
}

#[test]
fn watchdog_pool_health_sweep() {
    let mut state = setup();
    let (_e1, _e2) = register_both_executors(&mut state);
    for i in 0..4u8 {
        register_ready_tee(
            &mut state,
            Address::from([i + 10; 32]),
            3,
            EnclaveType::IntelSGX,
            "keep".to_string(),
            vec![0u8; 32],
            vec![0u8; 64],
        )
        .unwrap();
    }

    // One dead sandbox leaves three healthy members: still acceptable.
    pause_keep(&mut state, Address::from([10u8; 32]));
    check_watchdog_pool_health(&mut state).unwrap();
    assert_eq!(state.watchdog_pool.watchdogs.len(), 3);

    // Another loss would shrink the pool below the minimum.
    pause_keep(&mut state, Address::from([11u8; 32]));
    let attempt = check_watchdog_pool_health(&mut state);
    assert_eq!(attempt, Err(Error::NoCompatibleWatchdog));
    assert_eq!(state.watchdog_pool.watchdogs.len(), 3);
}

#[test]
fn stake_and_reward_distribution() {
    let mut state = setup();
    let (e1, e2) = register_both_executors(&mut state);
    let w1 = Address::from([5u8; 32]);
    register_watchdog(&mut state, w1, 3, EnclaveType::IntelSGX, vec![0u8; 32], vec![0u8; 64])
        .unwrap();

    let staged = stake_tokens(&mut state, w1, 4, 2500).unwrap();
    assert_eq!(staged.amount, 2500);
    assert_eq!(staged.interaction_type, TokenInteractionType::Stake);
    assert_eq!(staged.token_address, Address::from([1u8; 32]));

    // A third each to executors and watchdogs; executors split theirs.
    let transfers = distribute_rewards(&state, 900).unwrap();
    assert_eq!(transfers.len(), 3);
    assert_eq!(transfers[0], (e1, 150));
    assert_eq!(transfers[1], (e2, 150));
    assert_eq!(transfers[2], (w1, 300));

    assert!(has_minimum_stake(&state, &w1, 1000));
    assert!(!has_minimum_stake(&state, &w1, 999));
    assert!(!has_minimum_stake(&state, &Address::from([77u8; 32]), 5000));
}

#[test]
fn governance_calls_are_gated() {
    let mut state = setup();
    let (e1, _e2) = register_both_executors(&mut state);
    let gov = Address::from([2u8; 32]);

    let call = create_governance_proposal(&state, e1, vec![1u8], vec![2u8, 3u8]).unwrap();
    assert_eq!(call.0, gov);
    assert_eq!(call.1, vec![1u8]);
    assert_eq!(call.2, vec![2u8, 3u8]);

    let stranger = Address::from([88u8; 32]);
    let refused = create_governance_proposal(&state, stranger, vec![1u8], vec![2u8]);
    assert_eq!(refused, Err(Error::Unauthorized));

    execute_governance_decision(&mut state, gov, 9, 1u128, vec![0u8]).unwrap();
    assert_eq!(state.last_global_update, 9);

    let fake = execute_governance_decision(&mut state, stranger, 10, 1u128, vec![0u8]);
    assert_eq!(fake, Err(Error::Unauthorized));
}

#[test]
fn challenge_statistics_and_context() {
    let mut state = setup();
    let (e1, _e2) = register_both_executors(&mut state);
    let w: Vec<Address> = (0..3u8).map(|i| Address::from([i + 5; 32])).collect();
    for wd in w.iter() {
        register_watchdog(&mut state, *wd, 3, EnclaveType::IntelSGX, vec![0u8; 32], vec![
            0u8;
            64
        ])
        .unwrap();
    }

    let id = challenge_executor(&mut state, w[0], 4, e1, ChallengeType::Execution, vec![1u8; 8])
        .unwrap();

    let (total, pending, verified, failed) = get_challenge_stats(&state).unwrap();
    assert_eq!(total, 1);
    assert_eq!(pending, 1);
    assert_eq!(verified, 0);
    assert_eq!(failed, 0);

    let ctx = get_challenge_context(&state, id).unwrap();
    assert_eq!(ctx.challenge_id, id);
    assert_eq!(ctx.current_phase, Phase::ChallengeExecutor);
    assert_eq!(ctx.proof_count, 0);
    assert_eq!(ctx.required_verifications, 3);

    assert!(get_challenge_context(&state, 55u128).is_none());
}
