use tee_committee::execution::{
    get_pending_verifications, get_verification_mismatch, submit_execution_result,
    verify_execution,
};
use tee_committee::init::init;
use tee_committee::registry::{register_executor, register_watchdog};
use tee_committee::state::SystemState;
use tee_committee::types::{Address, EnclaveType, Error, Phase};

const SGX_OPERATOR: &str = "sgx_operator_address";
const SEV_OPERATOR: &str = "sev_operator_address";

fn setup() -> SystemState {
    let mut state = SystemState::new();
    init(
        &mut state,
        1,
        SGX_OPERATOR.to_string(),
        SEV_OPERATOR.to_string(),
        Address::from([1u8; 32]),
        Address::from([2u8; 32]),
    )
    .unwrap();
    state
}

fn setup_system(state: &mut SystemState) -> (Address, Address, Address) {
    let sgx_executor = Address::from([3u8; 32]);
    let sev_executor = Address::from([4u8; 32]);
    let watchdog = Address::from([5u8; 32]);

    register_executor(
        state,
        sgx_executor,
        2,
        EnclaveType::IntelSGX,
        SGX_OPERATOR.to_string(),
        "sgx-keep-123".to_string(),
        vec![0u8; 32],
        vec![0u8; 64],
    )
    .unwrap();
    register_executor(
        state,
        sev_executor,
        2,
        EnclaveType::AMDSEV,
        SEV_OPERATOR.to_string(),
        "sev-keep-456".to_string(),
        vec![0u8; 32],
        vec![0u8; 64],
    )
    .unwrap();
    let _ = register_watchdog(
        state,
        watchdog,
        2,
        EnclaveType::IntelSGX,
        vec![0u8; 32],
        vec![0u8; 64],
    );

    (sgx_executor, sev_executor, watchdog)
}

#[test]
fn test_matching_execution_results() {
    let mut state = setup();
    let (sgx_executor, sev_executor, _) = setup_system(&mut state);

    let execution_id = 1u128;
    let result_hash = vec![1u8; 32];

    // Submit SGX result.
    submit_execution_result(&mut state, sgx_executor, 3, 10, execution_id, result_hash.clone())
        .unwrap();

    // Submit matching SEV result.
    submit_execution_result(&mut state, sev_executor, 3, 10, execution_id, result_hash.clone())
        .unwrap();

    // Verify results matched.
    assert!(verify_execution(&state, execution_id));

    // Verify no pending verifications.
    let pending = get_pending_verifications(&state);
    assert!(pending.is_empty());
}

#[test]
fn test_mismatched_execution_results() {
    let mut state = setup();
    let (sgx_executor, sev_executor, _) = setup_system(&mut state);

    let execution_id = 1u128;

    // Submit different results.
    submit_execution_result(&mut state, sgx_executor, 3, 10, execution_id, vec![1u8; 32])
        .unwrap();
    submit_execution_result(&mut state, sev_executor, 3, 10, execution_id, vec![2u8; 32])
        .unwrap();

    // Verify mismatch was detected.
    assert!(!verify_execution(&state, execution_id));
    assert_eq!(state.get_current_phase(), Phase::ChallengeExecutor);

    // Verify mismatch was stored.
    let (sgx, sev) = get_verification_mismatch(&state, execution_id).unwrap().clone();
    assert_ne!(sgx.result_hash, sev.result_hash);
}

#[test]
fn test_unauthorized_result_submission() {
    let mut state = setup();
    let unauthorized = Address::from([99u8; 32]);

    let attempt =
        submit_execution_result(&mut state, unauthorized, 3, 10, 1u128, vec![0u8; 32]);
    assert_eq!(attempt, Err(Error::Unauthorized));
}

#[test]
fn test_partial_verification() {
    let mut state = setup();
    let (sgx_executor, _, _) = setup_system(&mut state);

    let execution_id = 1u128;

    // Submit only the SGX result.
    submit_execution_result(&mut state, sgx_executor, 3, 10, execution_id, vec![1u8; 32])
        .unwrap();

    // Verify still pending.
    let pending = get_pending_verifications(&state);
    assert!(pending.contains(&execution_id));
    assert!(!verify_execution(&state, execution_id));
}
