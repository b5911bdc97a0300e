//! Core data model: identities, enumerations, pools, challenges and
//! execution records.

use vstd::prelude::*;

verus! {

/// A 32-byte opaque identity supplied by the host.  Two addresses are the
/// same identity exactly when all bytes agree.
#[derive(Clone, Copy, Debug)]
pub struct Address {
    pub bytes: [u8; 32],
}

impl Address {
    /// Builds an address from its raw bytes.
    pub fn from(bytes: [u8; 32]) -> (r: Address)
        ensures
            r.bytes == bytes,
    {
        Address { bytes }
    }
}

impl PartialEq for Address {
    fn eq(&self, other: &Address) -> (r: bool) {
        let mut i: usize = 0;
        while i < 32
            invariant
                i <= 32,
                forall|j: int| 0 <= j < i ==> self.bytes@[j] == other.bytes@[j],
            decreases 32 - i,
        {
            if self.bytes[i] != other.bytes[i] {
                assert(self.bytes@[i as int] != other.bytes@[i as int]);
                assert(self.bytes != other.bytes);
                return false;
            }
            i += 1;
        }
        proof {
            assert(self.bytes@ =~= other.bytes@);
            vstd::array::axiom_array_ext_equal(self.bytes, other.bytes);
        }
        true
    }
}

impl Eq for Address {}

impl vstd::std_specs::cmp::PartialEqSpecImpl for Address {
    open spec fn obeys_eq_spec() -> bool {
        true
    }

    open spec fn eq_spec(&self, other: &Address) -> bool {
        self.bytes == other.bytes
    }
}

/// The class of trusted execution environment an identity runs in.
#[derive(Clone, Copy, PartialEq, Eq, Structural, Debug)]
pub enum EnclaveType {
    IntelSGX,
    AMDSEV,
}

/// System life-cycle phase.  `NotStarted` exists only before
/// initialization; `Crashed` is terminal.
#[derive(Clone, Copy, PartialEq, Eq, Structural, Debug)]
pub enum Phase {
    NotStarted,
    Creation,
    Executing,
    ChallengeExecutor,
    ChallengeWatchdog,
    Crashed,
}

/// What a challenge disputes.
#[derive(Clone, Copy, PartialEq, Eq, Structural, Debug)]
pub enum ChallengeType {
    Attestation,
    Execution,
    StateVerification,
    HeartbeatMissed,
}

/// Life-cycle of a single challenge.
#[derive(Clone, Copy, PartialEq, Eq, Structural, Debug)]
pub enum ChallengeStatus {
    Pending,
    Responded,
    Verified,
    Failed,
    Expired,
}

/// Why an operation was rejected.  Every exposed operation is a whole
/// transaction: when one of these comes back, no state was changed.
#[derive(Clone, Copy, PartialEq, Eq, Structural, Debug)]
pub enum Error {
    Uninitialized,
    AlreadyInitialized,
    WrongPhase { expected: Phase, actual: Phase },
    IllegalTransition,
    Unauthorized,
    SlotFilled,
    NotRegistered,
    DuplicateSubmission,
    ChallengeNotFound,
    ChallengeNotPending,
    DeadlinePassed,
    InvalidAttestation,
    InvalidSignature,
    NoCompatibleWatchdog,
    OracleFailure,
    StateCorruption,
}

/// Per-operator record, keyed by the operator's string address.
#[derive(Clone, Debug)]
pub struct Operator {
    pub initialized: bool,
    pub attestation_report: Vec<u8>,
    pub last_heartbeat: u64,
    pub challenges_initiated: u64,
    pub challenges_responded: u64,
}

/// The two typed executor slots with their counters.
#[derive(Clone, Debug)]
pub struct ExecutorPool {
    pub sgx_executor: Option<Address>,
    pub sev_executor: Option<Address>,
    pub last_execution_time: u64,
    pub execution_count: u64,
    pub failed_attempts: u64,
}

/// The watchdog verifier pool: member identities with their enclave kinds,
/// the ordered list of currently active challenge ids, and the time of the
/// last verification activity.
#[derive(Clone, Debug)]
pub struct WatchdogPool {
    pub watchdogs: Vec<(Address, EnclaveType)>,
    pub active_challenges: Vec<u128>,
    pub last_verification: u64,
}

/// One verification vote on a challenge, recorded at most once per
/// verifier.
#[derive(Clone, Debug)]
pub struct VerificationProof {
    pub verifier: Address,
    pub verdict: bool,
    pub proof_data: Vec<u8>,
}

/// A dispute over an executor's attestation or execution result.
#[derive(Clone, Debug)]
pub struct Challenge {
    pub id: u128,
    pub challenger: Address,
    pub challenged: Address,
    pub challenge_type: ChallengeType,
    pub execution_id: Option<u128>,
    pub challenge_data: Vec<u8>,
    pub response_deadline: u64,
    pub status: ChallengeStatus,
    pub verification_proofs: Vec<VerificationProof>,
}

/// Evidence accompanying a challenge response.
#[derive(Clone, Debug)]
pub struct ChallengeProof {
    pub challenge_id: u128,
    pub proof_data: Vec<u8>,
    pub timestamp: u64,
    pub witness_signatures: Vec<(Address, Vec<u8>)>,
}

/// A single executor's result for one execution id.
#[derive(Clone, Debug, PartialEq)]
pub struct ExecutionResult {
    pub result_hash: Vec<u8>,
    pub execution_id: u128,
    pub executor: Address,
    pub enclave_type: EnclaveType,
    pub timestamp: u64,
    pub block_height: u64,
}

/// The reconciliation record for one execution id: at most one result per
/// executor kind, and whether the two results were found to agree.
#[derive(Clone, Debug)]
pub struct ExecutionRecord {
    pub sgx_result: Option<ExecutionResult>,
    pub sev_result: Option<ExecutionResult>,
    pub verified: bool,
}

/// Kinds of token movements the core stages for the host to perform.
#[derive(Clone, Copy, PartialEq, Eq, Structural, Debug)]
pub enum TokenInteractionType {
    Stake,
    Unstake,
    Reward,
}

/// A staged token movement, handed to the host after all in-core
/// mutations are committed.
#[derive(Clone, Debug)]
pub struct TokenInteraction {
    pub token_address: Address,
    pub amount: u64,
    pub interaction_type: TokenInteractionType,
}

/// A point-in-time view of a challenge's verification progress.
#[derive(Clone, Debug)]
pub struct ChallengeContext {
    pub challenge_id: u128,
    pub current_phase: Phase,
    pub proof_count: usize,
    pub required_verifications: usize,
}

/// Outcome summary of a concluded challenge.
#[derive(Clone, Debug)]
pub struct ChallengeResult {
    pub success: bool,
    pub new_phase: Phase,
    pub verification_data: Vec<u8>,
}

/// Snapshot of an execution sandbox's state, as handed over by the host.
#[derive(Clone, Debug)]
pub struct KeepState {
    pub keep_id: String,
    pub state_data: Vec<u8>,
    pub timestamp: u64,
}

/// Memory usage figures reported for a sandbox.
#[derive(Clone, Copy, PartialEq, Eq, Structural, Debug)]
pub struct MemoryStats {
    pub used: usize,
    pub total: usize,
}

/// A managed contract instance tracked by the core.
#[derive(Clone, Debug)]
pub struct Contract {
    pub id: u128,
    pub phase: Phase,
    pub creation_time: u64,
    pub incremental_tx_hash: Vec<u8>,
    pub executor_pool: ExecutorPool,
    pub watchdog_pool: WatchdogPool,
    pub creation_operator: String,
    pub code_hash: [u8; 32],
    pub exec_challenge_hash: Vec<u8>,
    pub watchdog_challenge_hash: Vec<u8>,
    pub deadline: u64,
    pub state_root: Vec<u8>,
    pub last_verified_block: u64,
}


/// Platform constraints a sandbox must satisfy before it is accepted.
#[derive(Clone, Debug)]
pub struct PlatformRequirements {
    pub min_cpu_svn: Option<u64>,
    pub required_features: Vec<String>,
    pub allowed_measurements: Vec<Vec<u8>>,
}

/// What an attestation token must prove before it is trusted, with its
/// maximum age in timestamp units.
#[derive(Clone, Debug)]
pub struct VerificationRequirements {
    pub require_matching_measurements: bool,
    pub require_matching_platform: bool,
    pub max_token_age: u64,
}

/// How often attestations are refreshed, in timestamp units, and what
/// the platform must provide.
#[derive(Clone, Debug)]
pub struct AttestationConfig {
    pub refresh_interval: u64,
    pub required_tcb_level: Option<String>,
    pub platform_requirements: Option<PlatformRequirements>,
}

/// Token refresh cadence, in timestamp units, and the checks applied to
/// each refreshed token.
#[derive(Clone, Debug)]
pub struct DrawbridgeConfig {
    pub token_refresh_interval: u64,
    pub verification_requirements: VerificationRequirements,
}

/// Configuration of the host-side sandbox manager: where the sandbox
/// binary lives and how its attestations and tokens are maintained.
#[derive(Clone, Debug)]
pub struct EnarxConfig {
    pub keep_binary: String,
    pub attestation_config: AttestationConfig,
    pub drawbridge_config: DrawbridgeConfig,
    pub heap_size: usize,
    pub stack_size: usize,
    pub debug: bool,
}

} // verus!
