//! The persisted state of the coordination core and its invariants.
//!
//! Every exposed operation reads and writes one value of [`SystemState`];
//! the host serialises operations, so there is no internal concurrency.
//! The spec functions here state the reachable-state invariants: slot
//! typing, watchdog/executor disjointness, the phase/slot relation, the
//! pending-set characterisation and the verified-record guarantee.  Each
//! mutating operation requires and re-establishes [`SystemState::wf`].

use vstd::prelude::*;
use crate::types::{
    Address, Challenge, ChallengeStatus, EnclaveType, Error, ExecutionRecord, ExecutionResult,
    ExecutorPool, MemoryStats, Operator, Phase, VerificationProof, WatchdogPool,
};
use crate::store::alist_get;

verus! {

/// The whole persisted state, one field per key family of the schema.
pub struct SystemState {
    /// `SystemInitialized`
    pub initialized: bool,
    /// `CurrentPhase`
    pub current_phase: Phase,
    /// `LastGlobalUpdate`
    pub last_global_update: u64,
    /// `ExecutorPool`
    pub executor_pool: ExecutorPool,
    /// `WatchdogPool`; also carries `ActiveChallenges`
    pub watchdog_pool: WatchdogPool,
    /// `OperatorData(string)`
    pub operators: Vec<(String, Operator)>,
    /// Which operator record an identity registered under
    pub operator_keys: Vec<(Address, String)>,
    /// `EnclaveType(Address)`
    pub enclave_types: Vec<(Address, EnclaveType)>,
    /// `AttestationStatus(Address)`
    pub attestation_status: Vec<(Address, bool)>,
    /// `HeartbeatTimestamp(Address)`
    pub heartbeat_timestamps: Vec<(Address, u64)>,
    /// `KeepId(Address)`
    pub keep_ids: Vec<(Address, String)>,
    /// `DrawbridgeToken(Address)`
    pub drawbridge_tokens: Vec<(Address, Vec<u8>)>,
    /// Whether an identity's sandbox is currently considered live
    pub keep_status: Vec<(Address, bool)>,
    /// Latest reported sandbox measurement
    pub keep_measurements: Vec<(Address, Vec<u8>)>,
    /// When an identity last renewed its attestation
    pub last_attestation_times: Vec<(Address, u64)>,
    /// Latest reported sandbox memory figures
    pub keep_memory: Vec<(Address, MemoryStats)>,
    /// `Challenge(u128)`
    pub challenges: Vec<(u128, Challenge)>,
    /// `ChallengeCount`; also the challenge id generator
    pub challenge_count: u128,
    /// `ExecutionResult(u128)`; `ExecutionVerified` is its `verified` bit
    pub execution_results: Vec<(u128, ExecutionRecord)>,
    /// `ExecutionMismatches(u128)`
    pub execution_mismatches: Vec<(u128, (ExecutionResult, ExecutionResult))>,
    /// `PendingVerifications`
    pub pending_verifications: Vec<u128>,
    /// `ContractCount`
    pub contract_count: u128,
    /// `TokenContract`
    pub token_contract: Option<Address>,
    /// `GovernanceContract`
    pub governance_contract: Option<Address>,
}

/// A record holds a result for exactly one of the two executor kinds.
pub open spec fn record_one_sided(r: ExecutionRecord) -> bool {
    (r.sgx_result is Some) != (r.sev_result is Some)
}

/// Result sides sit under their own kind, and a record marked verified
/// holds two results whose hashes agree.
pub open spec fn record_wf(r: ExecutionRecord) -> bool {
    &&& (r.sgx_result matches Some(e) ==> e.enclave_type == EnclaveType::IntelSGX)
    &&& (r.sev_result matches Some(e) ==> e.enclave_type == EnclaveType::AMDSEV)
    &&& (r.verified ==> {
        &&& r.sgx_result is Some
        &&& r.sev_result is Some
        &&& r.sgx_result.unwrap().result_hash@ == r.sev_result.unwrap().result_hash@
    })
}

/// Verifiers of a challenge's proofs are pairwise distinct: a verdict
/// from one party is counted at most once.
pub open spec fn proofs_distinct(ps: Seq<VerificationProof>) -> bool {
    forall|i: int, j: int| 0 <= i < j < ps.len() ==> ps[i].verifier != ps[j].verifier
}

/// How many proofs in the list carry a `true` verdict.
pub open spec fn count_true(ps: Seq<VerificationProof>) -> nat
    decreases ps.len(),
{
    if ps.len() == 0 {
        0
    } else {
        count_true(ps.drop_last()) + if ps.last().verdict { 1nat } else { 0nat }
    }
}

/// The supermajority bound over a watchdog set of size `w`.
pub open spec fn spec_quorum(w: nat) -> nat {
    2 * w / 3 + 1
}

/// The only allowed moves of a challenge's status: forward along
/// `Pending -> Responded -> {Verified, Failed}` or `Pending -> Expired`.
pub open spec fn status_step(a: ChallengeStatus, b: ChallengeStatus) -> bool {
    ||| a == b
    ||| (a == ChallengeStatus::Pending && (b == ChallengeStatus::Responded
            || b == ChallengeStatus::Expired))
    ||| (a == ChallengeStatus::Responded && (b == ChallengeStatus::Verified
            || b == ChallengeStatus::Failed))
}

/// Between two states, every challenge's status moved only forward along
/// the allowed transitions, and no challenge was dropped.
pub open spec fn spec_status_monotone(pre: SystemState, post: SystemState) -> bool {
    forall|id: u128|
        match (#[trigger] pre.spec_challenge(id), post.spec_challenge(id)) {
            (Some(a), Some(b)) => status_step(a.status, b.status),
            (Some(a), None) => false,
            _ => true,
        }
}

impl SystemState {
    /// The slot an enclave kind owns.
    pub open spec fn spec_slot(self, kind: EnclaveType) -> Option<Address> {
        match kind {
            EnclaveType::IntelSGX => self.executor_pool.sgx_executor,
            EnclaveType::AMDSEV => self.executor_pool.sev_executor,
        }
    }

    /// Whether `a` is a member of the watchdog pool.
    pub open spec fn spec_is_watchdog(self, a: Address) -> bool {
        exists|i: int|
            0 <= i < self.watchdog_pool.watchdogs@.len()
                && self.watchdog_pool.watchdogs@[i].0 == a
    }

    /// Whether `a` currently occupies an executor slot.
    pub open spec fn spec_is_executor(self, a: Address) -> bool {
        self.executor_pool.sgx_executor == Some(a)
            || self.executor_pool.sev_executor == Some(a)
    }

    /// The enclave kind recorded for `a`, if any.
    pub open spec fn spec_kind_of(self, a: Address) -> Option<EnclaveType> {
        alist_get(self.enclave_types@, a)
    }

    /// The challenge stored under `id`, if any.
    pub open spec fn spec_challenge(self, id: u128) -> Option<Challenge> {
        alist_get(self.challenges@, id)
    }

    /// The execution record stored under `id`, if any.
    pub open spec fn spec_record(self, id: u128) -> Option<ExecutionRecord> {
        alist_get(self.execution_results@, id)
    }

    /// The current supermajority bound.
    pub open spec fn spec_required_verifications(self) -> nat {
        spec_quorum(self.watchdog_pool.watchdogs@.len())
    }

    /// Slot typing: an occupied slot holds an identity registered under
    /// the slot's own kind.
    pub open spec fn inv_slot_typing(self) -> bool {
        &&& (self.executor_pool.sgx_executor matches Some(a) ==> self.spec_kind_of(a)
            == Some(EnclaveType::IntelSGX))
        &&& (self.executor_pool.sev_executor matches Some(a) ==> self.spec_kind_of(a)
            == Some(EnclaveType::AMDSEV))
    }

    /// Every watchdog entry carries the kind its identity registered under.
    pub open spec fn inv_watchdog_kinds(self) -> bool {
        forall|i: int|
            0 <= i < self.watchdog_pool.watchdogs@.len()
                ==> self.spec_kind_of(#[trigger] self.watchdog_pool.watchdogs@[i].0)
                == Some(self.watchdog_pool.watchdogs@[i].1)
    }

    /// Disjointness: no identity is both a watchdog and an executor.
    pub open spec fn inv_disjoint(self) -> bool {
        forall|i: int|
            0 <= i < self.watchdog_pool.watchdogs@.len()
                ==> !self.spec_is_executor(#[trigger] self.watchdog_pool.watchdogs@[i].0)
    }

    /// Watchdog identities are pairwise distinct.
    pub open spec fn inv_watchdogs_distinct(self) -> bool {
        forall|i: int, j: int|
            0 <= i < j < self.watchdog_pool.watchdogs@.len()
                ==> self.watchdog_pool.watchdogs@[i].0 != self.watchdog_pool.watchdogs@[j].0
    }

    /// Phase/slot relation: a crashed system has no executors; two filled
    /// slots occur only while executing or challenging an executor; the
    /// phase is `NotStarted` exactly before initialization.
    pub open spec fn inv_phase_slots(self) -> bool {
        &&& (self.current_phase == Phase::Crashed ==> self.executor_pool.sgx_executor is None
            && self.executor_pool.sev_executor is None)
        &&& (self.executor_pool.sgx_executor is Some && self.executor_pool.sev_executor is Some
            ==> self.current_phase == Phase::Executing
                || self.current_phase == Phase::ChallengeExecutor)
        &&& (self.executor_pool.sgx_executor is Some || self.executor_pool.sev_executor is Some
            ==> self.initialized)
        &&& (self.initialized <==> self.current_phase != Phase::NotStarted)
    }

    /// Pending-set characterisation: an id sits in the pending list
    /// exactly when its record holds one result and awaits the other.
    pub open spec fn inv_pending(self) -> bool {
        &&& forall|j: int|
            0 <= j < self.pending_verifications@.len()
                ==> match alist_get(
                    self.execution_results@,
                    #[trigger] self.pending_verifications@[j],
                ) {
                    Some(r) => record_one_sided(r),
                    None => false,
                }
        &&& forall|id: u128|
            (match #[trigger] alist_get(self.execution_results@, id) {
                Some(r) => record_one_sided(r),
                None => false,
            }) ==> self.pending_verifications@.contains(id)
        &&& forall|i: int, j: int|
            0 <= i < j < self.pending_verifications@.len()
                ==> self.pending_verifications@[i] != self.pending_verifications@[j]
    }

    /// Every stored execution record is well formed.
    pub open spec fn inv_records(self) -> bool {
        forall|id: u128|
            match #[trigger] alist_get(self.execution_results@, id) {
                Some(r) => record_wf(r),
                None => true,
            }
    }

    /// Every stored challenge carries its own id, was allocated by the
    /// id counter, counts each verifier at most once, and holds no proof
    /// before it was responded to.
    pub open spec fn inv_challenges(self) -> bool {
        forall|id: u128|
            match #[trigger] alist_get(self.challenges@, id) {
                Some(c) => {
                    &&& c.id == id
                    &&& id <= self.challenge_count
                    &&& proofs_distinct(c.verification_proofs@)
                    &&& (c.status == ChallengeStatus::Pending ==> c.verification_proofs@.len()
                        == 0)
                },
                None => true,
            }
    }

    /// All reachable-state invariants together.
    pub open spec fn wf(self) -> bool {
        &&& self.inv_slot_typing()
        &&& self.inv_watchdog_kinds()
        &&& self.inv_disjoint()
        &&& self.inv_watchdogs_distinct()
        &&& self.inv_phase_slots()
        &&& self.inv_pending()
        &&& self.inv_records()
        &&& self.inv_challenges()
    }

    /// The state of a freshly deployed, not yet initialized system.
    pub fn new() -> (s: SystemState)
        ensures
            s.wf(),
            !s.initialized,
            s.current_phase == Phase::NotStarted,
            s.watchdog_pool.watchdogs@.len() == 0,
            s.executor_pool.sgx_executor is None,
            s.executor_pool.sev_executor is None,
            s.challenges@.len() == 0,
            s.execution_results@.len() == 0,
            s.pending_verifications@.len() == 0,
            s.challenge_count == 0,
            s.contract_count == 0,
    {
        let s = SystemState {
            initialized: false,
            current_phase: Phase::NotStarted,
            last_global_update: 0,
            executor_pool: ExecutorPool {
                sgx_executor: None,
                sev_executor: None,
                last_execution_time: 0,
                execution_count: 0,
                failed_attempts: 0,
            },
            watchdog_pool: WatchdogPool {
                watchdogs: Vec::new(),
                active_challenges: Vec::new(),
                last_verification: 0,
            },
            operators: Vec::new(),
            operator_keys: Vec::new(),
            enclave_types: Vec::new(),
            attestation_status: Vec::new(),
            heartbeat_timestamps: Vec::new(),
            keep_ids: Vec::new(),
            drawbridge_tokens: Vec::new(),
            keep_status: Vec::new(),
            keep_measurements: Vec::new(),
            last_attestation_times: Vec::new(),
            keep_memory: Vec::new(),
            challenges: Vec::new(),
            challenge_count: 0,
            execution_results: Vec::new(),
            execution_mismatches: Vec::new(),
            pending_verifications: Vec::new(),
            contract_count: 0,
            token_contract: None,
            governance_contract: None,
        };
        s
    }

    /// Gate: the system must have been initialized.
    pub fn ensure_initialized(&self) -> (r: Result<(), Error>)
        ensures
            r is Ok <==> self.initialized,
            r is Err ==> r == Err::<(), Error>(Error::Uninitialized),
    {
        if self.initialized {
            Ok(())
        } else {
            Err(Error::Uninitialized)
        }
    }

    /// Gate: the system must sit in the expected phase.
    pub fn ensure_phase(&self, expected: Phase) -> (r: Result<(), Error>)
        ensures
            r is Ok <==> self.current_phase == expected,
            r is Err ==> r == Err::<(), Error>(
                (Error::WrongPhase { expected, actual: self.current_phase }),
            ),
    {
        if self.current_phase == expected {
            Ok(())
        } else {
            Err(Error::WrongPhase { expected, actual: self.current_phase })
        }
    }

    /// Whether `a` currently occupies an executor slot.
    pub fn is_executor(&self, a: &Address) -> (r: bool)
        ensures
            r == self.spec_is_executor(*a),
    {
        let in_sgx = match &self.executor_pool.sgx_executor {
            Some(x) => *x == *a,
            None => false,
        };
        let in_sev = match &self.executor_pool.sev_executor {
            Some(x) => *x == *a,
            None => false,
        };
        in_sgx || in_sev
    }

    /// Whether `a` is a member of the watchdog pool.
    pub fn is_watchdog(&self, a: &Address) -> (r: bool)
        ensures
            r == self.spec_is_watchdog(*a),
    {
        let mut i: usize = 0;
        while i < self.watchdog_pool.watchdogs.len()
            invariant
                i <= self.watchdog_pool.watchdogs@.len(),
                forall|j: int| 0 <= j < i ==> self.watchdog_pool.watchdogs@[j].0 != *a,
            decreases self.watchdog_pool.watchdogs@.len() - i,
        {
            if self.watchdog_pool.watchdogs[i].0 == *a {
                return true;
            }
            i += 1;
        }
        false
    }

    /// The current life-cycle phase.
    pub fn get_current_phase(&self) -> (r: Phase)
        ensures
            r == self.current_phase,
    {
        self.current_phase
    }

    /// Contract count, challenge count and the last global-update time.
    pub fn get_system_stats(&self) -> (r: Result<(u128, u128, u64), Error>)
        ensures
            r is Ok <==> self.initialized,
            r is Err ==> r == Err::<(u128, u128, u64), Error>(Error::Uninitialized),
            r matches Ok(t) ==> t == (self.contract_count, self.challenge_count,
            self.last_global_update),
    {
        if !self.initialized {
            return Err(Error::Uninitialized);
        }
        Ok((self.contract_count, self.challenge_count, self.last_global_update))
    }

    /// The operator record stored under a string address, if any.
    pub fn get_operator_data<'a>(&'a self, key: &String) -> (r: Option<&'a Operator>)
        ensures
            match r {
                Some(op) => crate::store::slist_get(self.operators@, key@) == Some(*op),
                None => crate::store::slist_get(self.operators@, key@) is None,
            },
    {
        crate::store::smap_get(&self.operators, key)
    }

    /// The enclave kind an identity registered under, if any.
    pub fn get_enclave_type<'a>(&'a self, a: &Address) -> (r: Option<&'a EnclaveType>)
        ensures
            match r {
                Some(k) => self.spec_kind_of(*a) == Some(*k),
                None => self.spec_kind_of(*a) is None,
            },
    {
        crate::store::amap_get(&self.enclave_types, a)
    }

    /// Whether an identity's last attestation was accepted.
    pub fn get_attestation_status(&self, a: &Address) -> (r: Option<bool>)
        ensures
            r == alist_get(self.attestation_status@, *a),
    {
        match crate::store::amap_get(&self.attestation_status, a) {
            Some(b) => Some(*b),
            None => None,
        }
    }

    /// An identity's last recorded heartbeat time.
    pub fn get_heartbeat_timestamp(&self, a: &Address) -> (r: Option<u64>)
        ensures
            r == alist_get(self.heartbeat_timestamps@, *a),
    {
        match crate::store::amap_get(&self.heartbeat_timestamps, a) {
            Some(t) => Some(*t),
            None => None,
        }
    }

    /// The sandbox id an identity registered, if any.
    pub fn get_keep_id<'a>(&'a self, a: &Address) -> (r: Option<&'a String>)
        ensures
            match r {
                Some(s) => alist_get(self.keep_ids@, *a) == Some(*s),
                None => alist_get(self.keep_ids@, *a) is None,
            },
    {
        crate::store::amap_get(&self.keep_ids, a)
    }

    /// The attestation token an identity last deposited, if any.
    pub fn get_drawbridge_token<'a>(&'a self, a: &Address) -> (r: Option<&'a Vec<u8>>)
        ensures
            match r {
                Some(t) => alist_get(self.drawbridge_tokens@, *a) == Some(*t),
                None => alist_get(self.drawbridge_tokens@, *a) is None,
            },
    {
        crate::store::amap_get(&self.drawbridge_tokens, a)
    }

    /// Whether an identity's sandbox is currently marked live.
    pub fn get_keep_status(&self, a: &Address) -> (r: Option<bool>)
        ensures
            r == alist_get(self.keep_status@, *a),
    {
        match crate::store::amap_get(&self.keep_status, a) {
            Some(b) => Some(*b),
            None => None,
        }
    }

    /// The sandbox measurement an identity last reported, if any.
    pub fn get_keep_measurement<'a>(&'a self, a: &Address) -> (r: Option<&'a Vec<u8>>)
        ensures
            match r {
                Some(m) => alist_get(self.keep_measurements@, *a) == Some(*m),
                None => alist_get(self.keep_measurements@, *a) is None,
            },
    {
        crate::store::amap_get(&self.keep_measurements, a)
    }

    /// When an identity last renewed its attestation, if ever.
    pub fn get_last_attestation_time(&self, a: &Address) -> (r: Option<u64>)
        ensures
            r == alist_get(self.last_attestation_times@, *a),
    {
        match crate::store::amap_get(&self.last_attestation_times, a) {
            Some(t) => Some(*t),
            None => None,
        }
    }

    /// The ordered list of currently active challenge ids.
    pub fn get_active_challenges<'a>(&'a self) -> (r: &'a Vec<u128>)
        ensures
            r@ == self.watchdog_pool.active_challenges@,
    {
        &self.watchdog_pool.active_challenges
    }

    /// The challenge stored under an id, if any.
    pub fn get_challenge<'a>(&'a self, id: u128) -> (r: Option<&'a Challenge>)
        ensures
            match r {
                Some(c) => self.spec_challenge(id) == Some(*c),
                None => self.spec_challenge(id) is None,
            },
    {
        crate::store::imap_get(&self.challenges, id)
    }

    /// Records that this transaction touched global state.
    pub fn update_global_state(&mut self, now: u64)
        ensures
            *final(self) == (SystemState { last_global_update: now, ..*old(self) }),
    {
        self.last_global_update = now;
    }
}

} // verus!
