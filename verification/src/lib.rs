//! Coordination core of a dual-TEE execution committee.
//!
//! A deterministic state machine governs a pair of heterogeneous trusted
//! executors, a pool of watchdog verifiers, an execution-result
//! reconciliation protocol, and a challenge-response protocol that detects
//! equivocation and replaces faulty executors.  The machine is driven by
//! transactions carrying a caller identity and a host-supplied timestamp;
//! every operation is a whole transaction: on error the state is unchanged.

use vstd::prelude::*;

pub mod types;
pub mod store;
pub mod state;
pub mod oracle;
pub mod init;
pub mod registry;
pub mod keep;
pub mod replacement;
pub mod challenge;
pub mod execution;
pub mod external;
pub mod laws;

verus! {

/// Window, in timestamp units, granted to a challenged executor to respond.
pub const CHALLENGE_RESPONSE_WINDOW: u64 = 100;

/// Minimum size the watchdog pool must keep to be considered healthy.
pub const MIN_WATCHDOGS: usize = 3;

/// How long, in timestamp units, an attestation stays fresh.
pub const ATTESTATION_VALIDITY_PERIOD: u64 = 86_400;

} // verus!
