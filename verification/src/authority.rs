//! Writer authority and bounded outage recovery.
//!
//! This module owns two questions: may this session mutate at all, and what
//! happens when it is interrupted.
//!
//! Admission is product-wide. A run carries one durable
//! [`marker::AdmissionMarker`]; the session that creates it exclusively holds
//! authority until it cooperatively releases it. A competing session reads the
//! marker, finds it held, and is denied. There is no timeout path, because silence
//! proves nothing about whether the former writer is still issuing I/O.
//!
//! [`journal::MutationJournal`] wraps the replay log so that a mutation's intent
//! and its settled result reach the log before the caller is told anything.
//!
//! [`outage::OutageMachine`] is the finite state machine over recovery states.
//! Every transition either resolves or stops; none fabricates a success, a release
//! or a clean checkpoint. Split brain and hard partition stop both sides: nothing
//! here selects a winner, deletes a rival's marker, or treats an increasing epoch
//! as a fence.
pub mod admission;
pub mod journal;
pub mod keys;
pub mod marker;
pub mod outage;
pub mod server_marker;

pub use admission::{
    AdmissionControl, AdmissionOutcome, AdmissionRequest, Admitted, OutstandingIo, ReleaseOutcome,
};
pub use journal::{
    Acknowledged, CommittedResult, DispatchTicket, Durability, KeyStanding, MutationJournal,
    MutationRequest, RecoveryPlan,
};
pub use marker::{
    AdmissionMarker, AdmissionPhase, ExclusiveCreate, MarkerError, MarkerStore,
    MemoryMarkerStore, WriterToken,
};
pub use outage::{
    AdmissionStanding, CrashWindow, Deferral, Evidence, OutageBudget, OutageMachine,
    RecoveryState, StoppedSafely,
};
pub use server_marker::ServerMarkerStore;
