use tee_committee::challenge::challenge_executor;
use tee_committee::init::init;
use tee_committee::registry::{register_executor, register_watchdog, submit_heartbeat};
use tee_committee::replacement::replace_executor;
use tee_committee::state::SystemState;
use tee_committee::types::{Address, ChallengeStatus, ChallengeType, EnclaveType, Error, Phase};

const SGX_OPERATOR: &str = "sgx_operator_address";
const SEV_OPERATOR: &str = "sev_operator_address";

fn setup() -> SystemState {
    let mut state = SystemState::new();
    init(
        &mut state,
        1,
        SGX_OPERATOR.to_string(),
        SEV_OPERATOR.to_string(),
        Address::from([1u8; 32]),
        Address::from([2u8; 32]),
    )
    .unwrap();
    state
}

fn setup_system(state: &mut SystemState) -> (Address, Address, Address) {
    let sgx_executor = Address::from([3u8; 32]);
    let sev_executor = Address::from([4u8; 32]);
    let watchdog = Address::from([5u8; 32]);

    register_executor(
        state,
        sgx_executor,
        2,
        EnclaveType::IntelSGX,
        SGX_OPERATOR.to_string(),
        "sgx-keep-123".to_string(),
        vec![0u8; 32],
        vec![0u8; 64],
    )
    .unwrap();

    register_executor(
        state,
        sev_executor,
        2,
        EnclaveType::AMDSEV,
        SEV_OPERATOR.to_string(),
        "sev-keep-456".to_string(),
        vec![0u8; 32],
        vec![0u8; 64],
    )
    .unwrap();

    let _ = register_watchdog(
        state,
        watchdog,
        2,
        EnclaveType::IntelSGX,
        vec![0u8; 32],
        vec![0u8; 64],
    );

    (sgx_executor, sev_executor, watchdog)
}

#[test]
fn test_watchdog_registration() {
    let mut state = setup();
    let (_sgx_executor, _sev_executor, _) = setup_system(&mut state);

    let watchdog1 = Address::from([5u8; 32]);
    let watchdog2 = Address::from([6u8; 32]);
    let watchdog3 = Address::from([7u8; 32]);

    let _ = register_watchdog(
        &mut state,
        watchdog1,
        3,
        EnclaveType::IntelSGX,
        vec![0u8; 32],
        vec![0u8; 64],
    );
    register_watchdog(
        &mut state,
        watchdog2,
        3,
        EnclaveType::AMDSEV,
        vec![0u8; 32],
        vec![0u8; 64],
    )
    .unwrap();
    register_watchdog(
        &mut state,
        watchdog3,
        3,
        EnclaveType::IntelSGX,
        vec![0u8; 32],
        vec![0u8; 64],
    )
    .unwrap();

    assert_eq!(state.watchdog_pool.watchdogs.len(), 3);

    let sgx_watchdogs = state
        .watchdog_pool
        .watchdogs
        .iter()
        .filter(|(_, t)| *t == EnclaveType::IntelSGX)
        .count();
    let sev_watchdogs = state
        .watchdog_pool
        .watchdogs
        .iter()
        .filter(|(_, t)| *t == EnclaveType::AMDSEV)
        .count();

    assert_eq!(sgx_watchdogs, 2);
    assert_eq!(sev_watchdogs, 1);
}

#[test]
fn test_watchdog_registration_phases() {
    let mut state = setup();

    // Register in Creation phase.
    let watchdog1 = Address::from([5u8; 32]);
    register_watchdog(
        &mut state,
        watchdog1,
        1,
        EnclaveType::IntelSGX,
        vec![0u8; 32],
        vec![0u8; 64],
    )
    .unwrap();

    // Setup executors to transition to Executing phase.
    let (_sgx_executor, _sev_executor, _) = setup_system(&mut state);

    // Register in Executing phase.
    let watchdog2 = Address::from([6u8; 32]);
    register_watchdog(
        &mut state,
        watchdog2,
        3,
        EnclaveType::AMDSEV,
        vec![0u8; 32],
        vec![0u8; 64],
    )
    .unwrap();

    assert_eq!(state.watchdog_pool.watchdogs.len(), 2);
}

#[test]
fn test_duplicate_watchdog_registration() {
    let mut state = setup();
    let watchdog = Address::from([5u8; 32]);

    register_watchdog(
        &mut state,
        watchdog,
        1,
        EnclaveType::IntelSGX,
        vec![0u8; 32],
        vec![0u8; 64],
    )
    .unwrap();

    let second = register_watchdog(
        &mut state,
        watchdog,
        1,
        EnclaveType::IntelSGX,
        vec![0u8; 32],
        vec![0u8; 64],
    );
    assert_eq!(second, Err(Error::DuplicateSubmission));
}

#[test]
fn test_watchdog_heartbeat() {
    let mut state = setup();
    let (_, _, watchdog) = setup_system(&mut state);

    submit_heartbeat(&mut state, watchdog, 4).unwrap();

    let timestamp = state.get_heartbeat_timestamp(&watchdog).unwrap();
    assert!(timestamp > 0);
}

#[test]
fn test_watchdog_attestation_verification() {
    let mut state = setup();
    let watchdog = Address::from([5u8; 32]);

    let attestation_report = vec![1u8; 32];
    let tee_signature = vec![2u8; 64];

    register_watchdog(
        &mut state,
        watchdog,
        1,
        EnclaveType::IntelSGX,
        attestation_report.clone(),
        tee_signature.clone(),
    )
    .unwrap();

    let attestation_status = state.get_attestation_status(&watchdog).unwrap();
    assert!(attestation_status);
}

fn setup_challenge_state(state: &mut SystemState, executor: Address, watchdog: Address) -> u128 {
    challenge_executor(
        state,
        watchdog,
        3,
        executor,
        ChallengeType::Attestation,
        vec![0u8; 32],
    )
    .unwrap();

    state.challenge_count
}

#[test]
fn test_successful_executor_replacement() {
    let mut state = setup();
    let (sgx_executor, _, watchdog) = setup_system(&mut state);

    // Create challenge.
    let challenge_id = setup_challenge_state(&mut state, sgx_executor, watchdog);

    // Fail the challenge.
    for entry in state.challenges.iter_mut() {
        if entry.0 == challenge_id {
            entry.1.status = ChallengeStatus::Failed;
        }
    }

    // Replace executor.
    replace_executor(
        &mut state,
        watchdog,
        5,
        sgx_executor,
        vec![0u8; 32],
        vec![0u8; 64],
    )
    .unwrap();

    // Verify replacement.
    assert_eq!(state.executor_pool.sgx_executor, Some(watchdog));

    // Verify watchdog removed from pool.
    assert!(!state
        .watchdog_pool
        .watchdogs
        .iter()
        .any(|(addr, _)| *addr == watchdog));
}

#[test]
fn test_invalid_replacement_type() {
    let mut state = setup();
    let (sgx_executor, _, watchdog) = setup_system(&mut state);

    // Register additional SEV watchdog.
    let sev_watchdog = Address::from([6u8; 32]);
    register_watchdog(
        &mut state,
        sev_watchdog,
        3,
        EnclaveType::AMDSEV,
        vec![0u8; 32],
        vec![0u8; 64],
    )
    .unwrap();

    // Create challenge.
    let _challenge_id = setup_challenge_state(&mut state, sgx_executor, watchdog);

    // Attempt replacement with wrong enclave type.
    let attempt = replace_executor(
        &mut state,
        sev_watchdog,
        5,
        sgx_executor,
        vec![0u8; 32],
        vec![0u8; 64],
    );
    assert_eq!(attempt, Err(Error::NoCompatibleWatchdog));
}

#[test]
fn test_watchdog_pool_scaling() {
    let mut state = setup();
    let sgx_executor = Address::from([3u8; 32]);
    let sev_executor = Address::from([4u8; 32]);
    register_executor(
        &mut state,
        sgx_executor,
        2,
        EnclaveType::IntelSGX,
        SGX_OPERATOR.to_string(),
        "sgx-keep-123".to_string(),
        vec![0u8; 32],
        vec![0u8; 64],
    )
    .unwrap();
    register_executor(
        &mut state,
        sev_executor,
        2,
        EnclaveType::AMDSEV,
        SEV_OPERATOR.to_string(),
        "sev-keep-456".to_string(),
        vec![0u8; 32],
        vec![0u8; 64],
    )
    .unwrap();

    // Register multiple watchdogs.
    for i in 0..10u8 {
        let watchdog = Address::from([i + 10; 32]);
        register_watchdog(
            &mut state,
            watchdog,
            3,
            if i % 2 == 0 {
                EnclaveType::IntelSGX
            } else {
                EnclaveType::AMDSEV
            },
            vec![0u8; 32],
            vec![0u8; 64],
        )
        .unwrap();
    }

    assert_eq!(state.watchdog_pool.watchdogs.len(), 10);

    // Verify type distribution.
    let sgx_count = state
        .watchdog_pool
        .watchdogs
        .iter()
        .filter(|(_, t)| *t == EnclaveType::IntelSGX)
        .count();
    let sev_count = state
        .watchdog_pool
        .watchdogs
        .iter()
        .filter(|(_, t)| *t == EnclaveType::AMDSEV)
        .count();

    assert_eq!(sgx_count, 5);
    assert_eq!(sev_count, 5);
}

#[test]
fn test_watchdog_pool_state() {
    let mut state = setup();
    let (_, _, _) = setup_system(&mut state);

    // Register and perform operations with watchdogs.
    let watchdogs: Vec<Address> = (0..5u8).map(|i| Address::from([i + 10; 32])).collect();

    for (i, &watchdog) in watchdogs.iter().enumerate() {
        register_watchdog(
            &mut state,
            watchdog,
            4,
            if i % 2 == 0 {
                EnclaveType::IntelSGX
            } else {
                EnclaveType::AMDSEV
            },
            vec![0u8; 32],
            vec![0u8; 64],
        )
        .unwrap();

        submit_heartbeat(&mut state, watchdog, 5).unwrap();
    }

    // Verify all watchdogs are active.
    for &watchdog in &watchdogs {
        let heartbeat = state.get_heartbeat_timestamp(&watchdog).unwrap();
        assert!(heartbeat > 0);
    }

    assert_eq!(state.get_current_phase(), Phase::Executing);
}
