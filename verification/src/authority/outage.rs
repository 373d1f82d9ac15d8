//! The finite outage state machine.
//!
//! Five states, and one transition per crash window. Every window either resolves
//! to [`RecoveryState::Running`] or stops. None fabricates a success, a release or
//! a clean checkpoint, and none reaches a state by consulting a clock for
//! authority: the clocks here bound how long recovery may try, never who owns the
//! run.
//!
//! The first failure a window produces is latched and kept. Later attempts are
//! counted but never overwrite it.
//!
//! [`OutageMachine::stop`] consumes the machine: a caller holding a
//! [`StoppedSafely`] has no machine left to drive.
//!
//! Split brain and hard partition stop both sides and record a deferral: an
//! increasing epoch is not a fence, and neither is a client-side marker check.
use vstd::prelude::*;

pub mod decisions;

use crate::contract::{opt_view, IdempotencyKey, LeaseEpoch, OperationId};
use crate::error::{
    authority_text, status_of, AuthorityError, AuthorityErrorView, FacadeError, FacadeErrorView,
    Nfs4Status, ReplayError, RetainedError, RetainedErrorView, TransportError,
    TransportErrorView,
};
use crate::text::join;
use crate::transport::{ConnectionEpoch, Deadline};

verus! {

/// The states of a run under recovery.
#[derive(Clone, Copy, Debug, PartialEq, Eq, Structural)]
pub enum RecoveryState {
    /// Authority, connection and required evidence are valid.
    Running,
    /// New mutations are stopped while bounded outstanding operations are resolved.
    Recovering,
    /// Timeout, missing authority or unavailable evidence. The writer marker, the
    /// replay data and the diagnostic are retained.
    BlockedRecoverable,
    /// Contradictory identities, invalid frames, or demonstrated loss of data that
    /// was promised durable. No automatic repair or relaunch is attempted.
    Corrupted,
    /// An agent or child failed. Storage may be entirely intact.
    FailedTracee,
}

/// Whether a run has stopped in `state`.
pub open spec fn terminal(state: RecoveryState) -> bool {
    state == RecoveryState::BlockedRecoverable || state == RecoveryState::Corrupted || state
        == RecoveryState::FailedTracee
}

impl RecoveryState {
    /// Whether the run has stopped in this state.
    pub fn is_terminal(self) -> (r: bool)
        ensures
            r == terminal(self),
    {
        match self {
            RecoveryState::BlockedRecoverable => true,
            RecoveryState::Corrupted => true,
            RecoveryState::FailedTracee => true,
            _ => false,
        }
    }

    /// Whether a mutation may be admitted in this state.
    pub fn admits_mutation(self) -> (r: bool)
        ensures
            r == (self == RecoveryState::Running),
    {
        match self {
            RecoveryState::Running => true,
            _ => false,
        }
    }
}

/// Work this provider does not own.
#[derive(Clone, Copy, Debug, PartialEq, Eq, Structural)]
pub enum Deferral {
    /// Needs a fencing authority: a fence receipt and a cutoff that excludes the
    /// old writer's mutations before a winner is selected.
    M3Fencing,
    /// Needs remote-persistence qualification.
    M3Qualification,
}

/// Why a deferral stops instead of resolving.
pub open spec fn deferral_note(deferral: Deferral) -> Seq<char> {
    match deferral {
        Deferral::M3Fencing => "conflicting valid ownership evidence: both sides stop until M3 fencing authority supplies a fence receipt and a cutoff; an increasing epoch is not a fence"@,
        Deferral::M3Qualification => "server-side persistence assumptions are not qualified in M1; a process restart is not power-loss qualification"@,
    }
}

impl Deferral {
    /// Why this stops instead of resolving.
    pub fn note(self) -> (r: &'static str)
        ensures
            r@ == deferral_note(self),
    {
        match self {
            Deferral::M3Fencing => "conflicting valid ownership evidence: both sides stop until M3 fencing authority supplies a fence receipt and a cutoff; an increasing epoch is not a fence",
            Deferral::M3Qualification => "server-side persistence assumptions are not qualified in M1; a process restart is not power-loss qualification",
        }
    }
}

/// The crash windows that are answered.
#[derive(Clone, Copy, Debug, PartialEq, Eq, PartialOrd, Ord, Structural)]
pub enum CrashWindow {
    /// Umbra died before any intent reached the log.
    UmbraCrashBeforeWrite,
    /// Umbra died with a durable intent recorded and no outcome.
    UmbraCrashMidWrite,
    /// Umbra died after the result was durably recorded, before replying.
    UmbraCrashAfterWrite,
    /// A traced child failed. Storage is not implicated by an exit status.
    TraceeCrash,
    /// The connection dropped and may come back within the outage budget.
    TransientPartition,
    /// The server restarted gracefully; reclaim inside grace applies.
    GaneshaGracefulRestart,
    /// The server answered `NFS4ERR_NOSPC` or `NFS4ERR_DQUOT`.
    ServerEnospc,
    /// The server answered `NFS4ERR_IO`, or a stable write failed.
    ServerEio,
    /// `NFS4ERR_STALE` or `NFS4ERR_FHEXPIRED` on an existing handle.
    StaleFilehandle,
    /// Umbra was suspended and continued.
    UmbraSigstopResume,
    /// The client lost power with a WRITE or COMMIT in flight.
    ClientPowerLossInFlight,
    /// The server or its storage lost power with a WRITE or COMMIT in flight.
    ServerPowerLoss,
    /// Two hosts hold conflicting valid ownership evidence.
    SplitBrain,
    /// The partition outlasted every budget and both sides may still be live.
    HardPartition,
}

/// The deferral a window carries, when its resolution is owned elsewhere.
pub open spec fn deferral_of(window: CrashWindow) -> Option<Deferral> {
    match window {
        CrashWindow::SplitBrain => Some(Deferral::M3Fencing),
        CrashWindow::HardPartition => Some(Deferral::M3Fencing),
        CrashWindow::ServerPowerLoss => Some(Deferral::M3Qualification),
        _ => None,
    }
}

impl CrashWindow {
    /// Every window that is answered.
    pub fn all() -> (r: Vec<CrashWindow>)
        ensures
            r@.len() == 14,
            forall|window: CrashWindow| #[trigger] r@.contains(window),
            forall|i: int, j: int| 0 <= i < j < 14 ==> r@[i] != r@[j],
    {
        let r: Vec<CrashWindow> = vec![
            CrashWindow::UmbraCrashBeforeWrite,
            CrashWindow::UmbraCrashMidWrite,
            CrashWindow::UmbraCrashAfterWrite,
            CrashWindow::TraceeCrash,
            CrashWindow::TransientPartition,
            CrashWindow::GaneshaGracefulRestart,
            CrashWindow::ServerEnospc,
            CrashWindow::ServerEio,
            CrashWindow::StaleFilehandle,
            CrashWindow::UmbraSigstopResume,
            CrashWindow::ClientPowerLossInFlight,
            CrashWindow::ServerPowerLoss,
            CrashWindow::SplitBrain,
            CrashWindow::HardPartition,
        ];
        proof {
            assert forall|window: CrashWindow| #[trigger] r@.contains(window) by {
                let place: int = match window {
                    CrashWindow::UmbraCrashBeforeWrite => 0,
                    CrashWindow::UmbraCrashMidWrite => 1,
                    CrashWindow::UmbraCrashAfterWrite => 2,
                    CrashWindow::TraceeCrash => 3,
                    CrashWindow::TransientPartition => 4,
                    CrashWindow::GaneshaGracefulRestart => 5,
                    CrashWindow::ServerEnospc => 6,
                    CrashWindow::ServerEio => 7,
                    CrashWindow::StaleFilehandle => 8,
                    CrashWindow::UmbraSigstopResume => 9,
                    CrashWindow::ClientPowerLossInFlight => 10,
                    CrashWindow::ServerPowerLoss => 11,
                    CrashWindow::SplitBrain => 12,
                    CrashWindow::HardPartition => 13,
                };
                assert(r@[place] == window);
            }
        }
        r
    }

    /// The deferral this window carries, when its resolution is owned elsewhere.
    pub fn deferral(self) -> (r: Option<Deferral>)
        ensures
            r == deferral_of(self),
    {
        match self {
            CrashWindow::SplitBrain => Some(Deferral::M3Fencing),
            CrashWindow::HardPartition => Some(Deferral::M3Fencing),
            CrashWindow::ServerPowerLoss => Some(Deferral::M3Qualification),
            _ => None,
        }
    }
}

/// Where this session stands on admission when a window opens.
#[derive(Clone, Copy, Debug, PartialEq, Eq, Structural)]
pub enum AdmissionStanding {
    /// This session holds admission at this epoch.
    Held(LeaseEpoch),
    /// This session was denied; a marker held by someone else stands.
    Denied(LeaseEpoch),
    /// Admission could not be proven at all.
    Unproven,
}

impl AdmissionStanding {
    /// The epoch, when one was observed.
    pub fn epoch(self) -> (r: Option<LeaseEpoch>)
        ensures
            r == (match self {
                AdmissionStanding::Held(epoch) => Some(epoch),
                AdmissionStanding::Denied(epoch) => Some(epoch),
                AdmissionStanding::Unproven => None,
            }),
    {
        match self {
            AdmissionStanding::Held(epoch) => Some(epoch),
            AdmissionStanding::Denied(epoch) => Some(epoch),
            AdmissionStanding::Unproven => None,
        }
    }

    /// Whether this session may still mutate.
    pub fn is_held(self) -> (r: bool)
        ensures
            r == (self is Held),
    {
        match self {
            AdmissionStanding::Held(_) => true,
            _ => false,
        }
    }
}

/// What was observed when a window opened. Every field has a conservative reading.
#[derive(Debug, PartialEq, Eq)]
pub struct Evidence {
    /// Operation identity the latched error is bound to.
    pub operation: OperationId,
    /// Key the latched error settles, if it settles one.
    pub key: IdempotencyKey,
    /// The verbatim failure that opened the window.
    pub error: Option<FacadeError>,
    /// Where this session stands on admission.
    pub admission: AdmissionStanding,
    /// Monotonic milliseconds the outage has lasted.
    pub elapsed_millis: u64,
    /// Whether a durable intent for the in-flight mutation exists.
    pub intent_durable: bool,
    /// Whether the payload needed to rebuild the mutation survived durably.
    pub payload_durable: bool,
    /// Whether the committed result was durably recorded before the crash.
    pub result_durable: bool,
    /// Whether object identity was proven again after the interruption.
    pub identity_proven: Option<bool>,
    /// Whether every call this session issued is proven withdrawn or settled.
    pub outstanding_io_excluded: bool,
    /// Whether a reclaim pass recovered every target.
    pub reclaim_recovered_all: Option<bool>,
    /// The server's advertised grace, in seconds.
    pub grace_seconds: u32,
    /// Monotonic milliseconds the process was suspended.
    pub suspend_gap_millis: u64,
    /// Whether loss of previously promised durable data was actually proven.
    pub proven_loss: bool,
}

/// The content of a [`Evidence`].
pub struct EvidenceView {
    /// Operation identity the latched error is bound to.
    pub operation: OperationId,
    /// Key the latched error settles, if it settles one.
    pub key: Seq<char>,
    /// The verbatim failure that opened the window.
    pub error: Option<FacadeErrorView>,
    /// Where this session stands on admission.
    pub admission: AdmissionStanding,
    /// Monotonic milliseconds the outage has lasted.
    pub elapsed_millis: u64,
    /// Whether a durable intent for the in-flight mutation exists.
    pub intent_durable: bool,
    /// Whether the payload needed to rebuild the mutation survived durably.
    pub payload_durable: bool,
    /// Whether the committed result was durably recorded before the crash.
    pub result_durable: bool,
    /// Whether object identity was proven again after the interruption.
    pub identity_proven: Option<bool>,
    /// Whether every call this session issued is proven withdrawn or settled.
    pub outstanding_io_excluded: bool,
    /// Whether a reclaim pass recovered every target.
    pub reclaim_recovered_all: Option<bool>,
    /// The server's advertised grace, in seconds.
    pub grace_seconds: u32,
    /// Monotonic milliseconds the process was suspended.
    pub suspend_gap_millis: u64,
    /// Whether loss of previously promised durable data was actually proven.
    pub proven_loss: bool,
}

impl View for Evidence {
    type V = EvidenceView;

    open spec fn view(&self) -> EvidenceView {
        EvidenceView {
            operation: self.operation,
            key: self.key@,
            error: opt_view(self.error),
            admission: self.admission,
            elapsed_millis: self.elapsed_millis,
            intent_durable: self.intent_durable,
            payload_durable: self.payload_durable,
            result_durable: self.result_durable,
            identity_proven: self.identity_proven,
            outstanding_io_excluded: self.outstanding_io_excluded,
            reclaim_recovered_all: self.reclaim_recovered_all,
            grace_seconds: self.grace_seconds,
            suspend_gap_millis: self.suspend_gap_millis,
            proven_loss: self.proven_loss,
        }
    }
}

impl Clone for Evidence {
    fn clone(&self) -> (r: Self)
        ensures
            r@ == self@,
    {
        Evidence {
            operation: self.operation,
            key: self.key.clone(),
            error: match &self.error {
                Some(inner) => Some(inner.clone()),
                None => None,
            },
            admission: self.admission,
            elapsed_millis: self.elapsed_millis,
            intent_durable: self.intent_durable,
            payload_durable: self.payload_durable,
            result_durable: self.result_durable,
            identity_proven: self.identity_proven,
            outstanding_io_excluded: self.outstanding_io_excluded,
            reclaim_recovered_all: self.reclaim_recovered_all,
            grace_seconds: self.grace_seconds,
            suspend_gap_millis: self.suspend_gap_millis,
            proven_loss: self.proven_loss,
        }
    }
}

impl Evidence {
    /// Conservative evidence bound to one operation identity: nothing durable,
    /// nothing proven, nothing excluded.
    pub fn for_operation(operation: OperationId, key: IdempotencyKey) -> (r: Self)
        ensures
            r@ == (EvidenceView {
                operation,
                key: key@,
                error: None,
                admission: AdmissionStanding::Unproven,
                elapsed_millis: 0,
                intent_durable: false,
                payload_durable: false,
                result_durable: false,
                identity_proven: None,
                outstanding_io_excluded: false,
                reclaim_recovered_all: None,
                grace_seconds: 0,
                suspend_gap_millis: 0,
                proven_loss: false,
            }),
    {
        Evidence {
            operation,
            key,
            error: None,
            admission: AdmissionStanding::Unproven,
            elapsed_millis: 0,
            intent_durable: false,
            payload_durable: false,
            result_durable: false,
            identity_proven: None,
            outstanding_io_excluded: false,
            reclaim_recovered_all: None,
            grace_seconds: 0,
            suspend_gap_millis: 0,
            proven_loss: false,
        }
    }

    /// The verbatim failure that opened the window.
    pub fn with_error(self, error: FacadeError) -> (r: Self)
        ensures
            r@ == (EvidenceView { error: Some(error@), ..self@ }),
    {
        Evidence { error: Some(error), ..self }
    }

    /// Where this session stands on admission.
    pub fn with_admission(self, admission: AdmissionStanding) -> (r: Self)
        ensures
            r@ == (EvidenceView { admission, ..self@ }),
    {
        Evidence { admission, ..self }
    }

    /// How long the outage has lasted.
    pub fn elapsed(self, millis: u64) -> (r: Self)
        ensures
            r@ == (EvidenceView { elapsed_millis: millis, ..self@ }),
    {
        Evidence { elapsed_millis: millis, ..self }
    }

    /// What survived durably: intent, payload, result.
    pub fn durable(self, intent: bool, payload: bool, result: bool) -> (r: Self)
        ensures
            r@ == (EvidenceView {
                intent_durable: intent,
                payload_durable: payload,
                result_durable: result,
                ..self@
            }),
    {
        Evidence {
            intent_durable: intent,
            payload_durable: payload,
            result_durable: result,
            ..self
        }
    }

    /// Whether object identity was proven again.
    pub fn identity(self, proven: bool) -> (r: Self)
        ensures
            r@ == (EvidenceView { identity_proven: Some(proven), ..self@ }),
    {
        Evidence { identity_proven: Some(proven), ..self }
    }

    /// Whether outstanding I/O is proven excluded.
    pub fn io_excluded(self, excluded: bool) -> (r: Self)
        ensures
            r@ == (EvidenceView { outstanding_io_excluded: excluded, ..self@ }),
    {
        Evidence { outstanding_io_excluded: excluded, ..self }
    }

    /// The result of a reclaim pass, and the grace it ran inside.
    pub fn reclaim(self, recovered_all: bool, grace_seconds: u32) -> (r: Self)
        ensures
            r@ == (EvidenceView {
                reclaim_recovered_all: Some(recovered_all),
                grace_seconds,
                ..self@
            }),
    {
        Evidence { reclaim_recovered_all: Some(recovered_all), grace_seconds, ..self }
    }

    /// How long the process was suspended.
    pub fn suspended(self, millis: u64) -> (r: Self)
        ensures
            r@ == (EvidenceView { suspend_gap_millis: millis, ..self@ }),
    {
        Evidence { suspend_gap_millis: millis, ..self }
    }

    /// Loss of previously promised durable data was actually demonstrated.
    pub fn proven_loss(self) -> (r: Self)
        ensures
            r@ == (EvidenceView { proven_loss: true, ..self@ }),
    {
        Evidence { proven_loss: true, ..self }
    }
}

/// The finite budgets of a recovery. They bound how long recovery may keep trying;
/// none of them bounds ownership.
#[derive(Clone, Copy, Debug, PartialEq, Eq, Structural)]
pub struct OutageBudget {
    /// Deadline applied to one RPC attempt.
    pub rpc_deadline: Deadline,
    /// First reconnect backoff.
    pub reconnect_backoff_initial_millis: u64,
    /// Ceiling the reconnect backoff doubles up to.
    pub reconnect_backoff_max_millis: u64,
    /// Budget for an ordinary outage.
    pub ordinary_outage_millis: u64,
    /// Extra budget granted on top of the server's grace during reclaim.
    pub grace_extra_millis: u64,
}

/// A sum or product of `u64` that stops at the largest.
pub open spec fn saturated(value: int) -> u64 {
    if value > u64::MAX {
        u64::MAX
    } else {
        value as u64
    }
}

/// The budget a grace recovery gets: the server's grace plus the extra.
pub open spec fn grace_budget(budget: OutageBudget, grace_seconds: u32) -> u64 {
    saturated(grace_seconds * 1000 + budget.grace_extra_millis)
}

/// The backoff for one reconnect attempt: the initial value doubled once per
/// attempt, up to the ceiling.
pub open spec fn backoff(budget: OutageBudget, attempt: u32) -> u64 {
    let doublings: nat = if attempt > 63 {
        63
    } else {
        attempt as nat
    };
    let wanted = saturated(
        budget.reconnect_backoff_initial_millis * vstd::arithmetic::power2::pow2(doublings),
    );
    if wanted < budget.reconnect_backoff_max_millis {
        wanted
    } else {
        budget.reconnect_backoff_max_millis
    }
}

/// The design defaults: 5 s per attempt, 250 ms doubling to 5 s, a 30 s ordinary
/// outage budget and grace plus 30 s for reclaim.
pub open spec fn design_budget() -> OutageBudget {
    OutageBudget {
        rpc_deadline: Deadline { millis: 5_000 },
        reconnect_backoff_initial_millis: 250,
        reconnect_backoff_max_millis: 5_000,
        ordinary_outage_millis: 30_000,
        grace_extra_millis: 30_000,
    }
}

impl OutageBudget {
    /// The design defaults.
    pub fn design_defaults() -> (r: Self)
        ensures
            r == design_budget(),
    {
        OutageBudget {
            rpc_deadline: Deadline { millis: 5_000 },
            reconnect_backoff_initial_millis: 250,
            reconnect_backoff_max_millis: 5_000,
            ordinary_outage_millis: 30_000,
            grace_extra_millis: 30_000,
        }
    }

    /// The bounded budget a grace recovery gets: the server's grace plus the extra.
    pub fn grace_budget_millis(&self, grace_seconds: u32) -> (r: u64)
        ensures
            r == grace_budget(*self, grace_seconds),
    {
        let grace: u64 = grace_seconds as u64 * 1_000;
        grace.saturating_add(self.grace_extra_millis)
    }

    /// The backoff for reconnect attempt `attempt`, zero-based, doubling from the
    /// initial value and stopping at the ceiling.
    pub fn backoff_millis(&self, attempt: u32) -> (r: u64)
        ensures
            r == backoff(*self, attempt),
    {
        let doublings: u64 = if attempt > 63 {
            63
        } else {
            attempt as u64
        };
        proof {
            vstd::arithmetic::power2::lemma2_to64_rest();
            if doublings < 63 {
                vstd::arithmetic::power2::lemma_pow2_strictly_increases(doublings as nat, 63);
            }
            vstd::bits::lemma_u64_shl_is_mul(1, doublings);
        }
        let factor: u64 = 1u64 << doublings;
        let wanted: u64 = match self.reconnect_backoff_initial_millis.checked_mul(factor) {
            Some(product) => product,
            None => u64::MAX,
        };
        if wanted < self.reconnect_backoff_max_millis {
            wanted
        } else {
            self.reconnect_backoff_max_millis
        }
    }
}

impl Default for OutageBudget {
    fn default() -> (r: Self)
        ensures
            r == design_budget(),
    {
        OutageBudget::design_defaults()
    }
}

/// A run that has stopped, with everything retained. Produced by consuming the machine.
#[derive(Debug, PartialEq, Eq)]
pub struct StoppedSafely {
    state: RecoveryState,
    retained: Option<RetainedError>,
    deferral: Option<Deferral>,
    marker_retained: bool,
    attempts: u32,
    diagnostic: String,
}

/// The content of a [`StoppedSafely`].
pub struct StoppedSafelyView {
    /// The state the run stopped in.
    pub state: RecoveryState,
    /// The latched original failure.
    pub retained: Option<RetainedErrorView>,
    /// What owns the resolution, when it is owned elsewhere.
    pub deferral: Option<Deferral>,
    /// Whether the writer marker is still held.
    pub marker_retained: bool,
    /// Recovery attempts made before stopping.
    pub attempts: u32,
    /// The human-readable reason.
    pub diagnostic: Seq<char>,
}

impl View for StoppedSafely {
    type V = StoppedSafelyView;

    closed spec fn view(&self) -> StoppedSafelyView {
        StoppedSafelyView {
            state: self.state,
            retained: opt_view(self.retained),
            deferral: self.deferral,
            marker_retained: self.marker_retained,
            attempts: self.attempts,
            diagnostic: self.diagnostic@,
        }
    }
}

impl Clone for StoppedSafely {
    fn clone(&self) -> (r: Self)
        ensures
            r@ == self@,
    {
        StoppedSafely {
            state: self.state,
            retained: match &self.retained {
                Some(inner) => Some(inner.clone()),
                None => None,
            },
            deferral: self.deferral,
            marker_retained: self.marker_retained,
            attempts: self.attempts,
            diagnostic: self.diagnostic.clone(),
        }
    }
}

/// The server status a latched failure carries.
pub open spec fn latched_status(retained: Option<RetainedErrorView>) -> Option<Nfs4Status> {
    match retained {
        Some(latched) => status_of(latched.error),
        None => None,
    }
}

fn status_in(retained: &Option<RetainedError>) -> (r: Option<Nfs4Status>)
    ensures
        r == latched_status(opt_view(*retained)),
{
    match retained {
        Some(latched) => latched.error().status(),
        None => None,
    }
}

impl StoppedSafely {
    /// The state the run stopped in.
    pub fn state(&self) -> (r: RecoveryState)
        ensures
            r == self@.state,
    {
        self.state
    }

    /// The latched original failure.
    pub fn retained(&self) -> (r: Option<&RetainedError>)
        ensures
            match r {
                Some(latched) => self@.retained == Some(latched@),
                None => self@.retained is None,
            },
    {
        match &self.retained {
            Some(latched) => Some(latched),
            None => None,
        }
    }

    /// The verbatim status the outage started with, when it came from the server.
    pub fn status(&self) -> (r: Option<Nfs4Status>)
        ensures
            r == latched_status(self@.retained),
    {
        status_in(&self.retained)
    }

    /// What owns the resolution, when it is owned elsewhere.
    pub fn deferral(&self) -> (r: Option<Deferral>)
        ensures
            r == self@.deferral,
    {
        self.deferral
    }

    /// Whether the writer marker is still held. Always true for a stop.
    pub fn marker_retained(&self) -> (r: bool)
        ensures
            r == self@.marker_retained,
    {
        self.marker_retained
    }

    /// Recovery attempts made before stopping.
    pub fn attempts(&self) -> (r: u32)
        ensures
            r == self@.attempts,
    {
        self.attempts
    }

    /// The human-readable reason, retained alongside the typed evidence.
    pub fn diagnostic(&self) -> (r: &str)
        ensures
            r@ == self@.diagnostic,
    {
        self.diagnostic.as_str()
    }
}

/// Drives one run through the crash windows.
#[derive(Debug, PartialEq, Eq)]
pub struct OutageMachine {
    state: RecoveryState,
    budget: OutageBudget,
    retained: Option<RetainedError>,
    deferral: Option<Deferral>,
    marker_retained: bool,
    attempts: u32,
    durable_evidence: bool,
}

/// The content of a [`OutageMachine`].
pub struct OutageMachineView {
    /// The current state.
    pub state: RecoveryState,
    /// The budgets in force.
    pub budget: OutageBudget,
    /// The latched original failure.
    pub retained: Option<RetainedErrorView>,
    /// What owns the window's resolution, when it is owned elsewhere.
    pub deferral: Option<Deferral>,
    /// Whether the writer marker is still held.
    pub marker_retained: bool,
    /// Recovery attempts made so far.
    pub attempts: u32,
    /// Whether the log behind this run reaches a persistence boundary.
    pub durable_evidence: bool,
}

impl View for OutageMachine {
    type V = OutageMachineView;

    closed spec fn view(&self) -> OutageMachineView {
        OutageMachineView {
            state: self.state,
            budget: self.budget,
            retained: opt_view(self.retained),
            deferral: self.deferral,
            marker_retained: self.marker_retained,
            attempts: self.attempts,
            durable_evidence: self.durable_evidence,
        }
    }
}

impl Clone for OutageMachine {
    fn clone(&self) -> (r: Self)
        ensures
            r@ == self@,
    {
        OutageMachine {
            state: self.state,
            budget: self.budget,
            retained: match &self.retained {
                Some(inner) => Some(inner.clone()),
                None => None,
            },
            deferral: self.deferral,
            marker_retained: self.marker_retained,
            attempts: self.attempts,
            durable_evidence: self.durable_evidence,
        }
    }
}

/// The state one window settles in, on that window's own evidence.
pub open spec fn settles_in(
    budget: OutageBudget,
    window: CrashWindow,
    evidence: EvidenceView,
) -> RecoveryState {
    match window {
        CrashWindow::UmbraCrashBeforeWrite => after_crash(evidence),
        CrashWindow::UmbraCrashMidWrite => after_crash(evidence),
        CrashWindow::UmbraCrashAfterWrite => after_crash(evidence),
        CrashWindow::TraceeCrash => RecoveryState::FailedTracee,
        CrashWindow::TransientPartition => if evidence.elapsed_millis
            > budget.ordinary_outage_millis {
            RecoveryState::BlockedRecoverable
        } else {
            RecoveryState::Recovering
        },
        CrashWindow::GaneshaGracefulRestart => if evidence.elapsed_millis > grace_budget(
            budget,
            evidence.grace_seconds,
        ) {
            RecoveryState::BlockedRecoverable
        } else {
            match evidence.reclaim_recovered_all {
                Some(true) => RecoveryState::Running,
                Some(false) => RecoveryState::BlockedRecoverable,
                None => RecoveryState::Recovering,
            }
        },
        CrashWindow::ServerEnospc => RecoveryState::BlockedRecoverable,
        CrashWindow::ServerEio => after_loss(evidence),
        CrashWindow::StaleFilehandle => if evidence.identity_proven == Some(true) {
            RecoveryState::Running
        } else {
            RecoveryState::BlockedRecoverable
        },
        CrashWindow::UmbraSigstopResume => if evidence.outstanding_io_excluded
            && evidence.admission is Held && evidence.suspend_gap_millis
            <= budget.ordinary_outage_millis {
            RecoveryState::Recovering
        } else {
            RecoveryState::BlockedRecoverable
        },
        CrashWindow::ClientPowerLossInFlight => RecoveryState::BlockedRecoverable,
        CrashWindow::ServerPowerLoss => after_loss(evidence),
        CrashWindow::SplitBrain => RecoveryState::BlockedRecoverable,
        CrashWindow::HardPartition => RecoveryState::BlockedRecoverable,
    }
}

/// After a crash of its own process a run recovers only in the same session, with
/// old I/O ruled out. An abandoned marker is never taken.
pub open spec fn after_crash(evidence: EvidenceView) -> RecoveryState {
    if evidence.admission is Held && evidence.outstanding_io_excluded {
        RecoveryState::Recovering
    } else {
        RecoveryState::BlockedRecoverable
    }
}

/// A server failure is corruption only on proven loss.
pub open spec fn after_loss(evidence: EvidenceView) -> RecoveryState {
    if evidence.proven_loss {
        RecoveryState::Corrupted
    } else {
        RecoveryState::BlockedRecoverable
    }
}

/// What is latched after a window: the first failure, whenever it came.
pub open spec fn latched(machine: OutageMachineView, evidence: EvidenceView) -> Option<
    RetainedErrorView,
> {
    match (machine.retained, evidence.error) {
        (None, Some(error)) => Some(
            RetainedErrorView {
                operation: evidence.operation,
                key: evidence.key,
                error,
                durable: machine.durable_evidence,
            },
        ),
        (kept, _) => kept,
    }
}

/// The machine after one crash window. A stopped machine does not move.
pub open spec fn entered(
    machine: OutageMachineView,
    window: CrashWindow,
    evidence: EvidenceView,
) -> OutageMachineView {
    if terminal(machine.state) {
        machine
    } else {
        OutageMachineView {
            state: settles_in(machine.budget, window, evidence),
            retained: latched(machine, evidence),
            deferral: match deferral_of(window) {
                Some(deferral) => Some(deferral),
                None => machine.deferral,
            },
            attempts: if machine.attempts == u32::MAX {
                u32::MAX
            } else {
                (machine.attempts + 1) as u32
            },
            ..machine
        }
    }
}

/// What stopping a machine retains.
pub open spec fn stopped(machine: OutageMachineView, diagnostic: Seq<char>) -> StoppedSafelyView {
    StoppedSafelyView {
        state: machine.state,
        retained: machine.retained,
        deferral: machine.deferral,
        marker_retained: true,
        attempts: machine.attempts,
        diagnostic,
    }
}

/// The machine once authority could not be proven. Where nothing had failed yet,
/// the refusal itself is what gets latched.
pub open spec fn unauthorised(machine: OutageMachineView, error: AuthorityErrorView) -> OutageMachineView {
    OutageMachineView {
        state: RecoveryState::BlockedRecoverable,
        retained: match machine.retained {
            Some(kept) => Some(kept),
            None => Some(
                RetainedErrorView {
                    operation: nil_operation(),
                    key: ""@,
                    error: FacadeErrorView::Authority(error),
                    durable: machine.durable_evidence,
                },
            ),
        },
        ..machine
    }
}

/// The operation id of no operation.
pub open spec fn nil_operation() -> OperationId {
    OperationId(
        [
            0u8,
            0u8,
            0u8,
            0u8,
            0u8,
            0u8,
            0u8,
            0u8,
            0u8,
            0u8,
            0u8,
            0u8,
            0u8,
            0u8,
            0u8,
            0u8,
        ],
    )
}

impl OutageMachine {
    /// A running machine under `budget`.
    ///
    /// `durable_evidence` says whether the log behind this run reaches a
    /// persistence boundary, so a volatile run cannot claim otherwise.
    pub fn running(budget: OutageBudget, durable_evidence: bool) -> (r: Self)
        ensures
            r@ == (OutageMachineView {
                state: RecoveryState::Running,
                budget,
                retained: None,
                deferral: None,
                marker_retained: true,
                attempts: 0,
                durable_evidence,
            }),
    {
        OutageMachine {
            state: RecoveryState::Running,
            budget,
            retained: None,
            deferral: None,
            marker_retained: true,
            attempts: 0,
            durable_evidence,
        }
    }

    /// The current state.
    pub fn state(&self) -> (r: RecoveryState)
        ensures
            r == self@.state,
    {
        self.state
    }

    /// The budgets in force.
    pub fn budget(&self) -> (r: &OutageBudget)
        ensures
            *r == self@.budget,
    {
        &self.budget
    }

    /// The latched original failure, preserved across every attempt.
    pub fn retained(&self) -> (r: Option<&RetainedError>)
        ensures
            match r {
                Some(latched) => self@.retained == Some(latched@),
                None => self@.retained is None,
            },
    {
        match &self.retained {
            Some(latched) => Some(latched),
            None => None,
        }
    }

    /// The verbatim status the latch holds, when it came from the server.
    pub fn status(&self) -> (r: Option<Nfs4Status>)
        ensures
            r == latched_status(self@.retained),
    {
        status_in(&self.retained)
    }

    /// What owns this window's resolution, when it is owned elsewhere.
    pub fn deferral(&self) -> (r: Option<Deferral>)
        ensures
            r == self@.deferral,
    {
        self.deferral
    }

    /// Recovery attempts made so far.
    pub fn attempts(&self) -> (r: u32)
        ensures
            r == self@.attempts,
    {
        self.attempts
    }

    /// Whether the writer marker is still held.
    pub fn marker_retained(&self) -> (r: bool)
        ensures
            r == self@.marker_retained,
    {
        self.marker_retained
    }

    /// Drive one crash window and return the state it settled in.
    ///
    /// A terminal state is terminal: the attempt is not counted, no later error
    /// displaces the latched one, and no deferral is recorded. Only building a new
    /// machine reopens a stopped run.
    pub fn enter(&mut self, window: CrashWindow, evidence: &Evidence) -> (r: RecoveryState)
        ensures
            final(self)@ == entered(old(self)@, window, evidence@),
            r == final(self)@.state,
    {
        if self.state.is_terminal() {
            return self.state;
        }
        self.attempts = self.attempts.saturating_add(1);
        if let Some(error) = &evidence.error {
            self.latch(evidence.operation, &evidence.key, error.clone());
        }
        if let Some(deferral) = window.deferral() {
            self.deferral = Some(deferral);
        }
        self.state = self.decide(window, evidence);
        self.state
    }

    /// Latch the first failure. Later ones are counted, never substituted.
    fn latch(&mut self, operation: OperationId, key: &IdempotencyKey, error: FacadeError)
        ensures
            final(self)@ == (OutageMachineView {
                retained: match old(self)@.retained {
                    Some(kept) => Some(kept),
                    None => Some(
                        RetainedErrorView {
                            operation,
                            key: key@,
                            error: error@,
                            durable: old(self)@.durable_evidence,
                        },
                    ),
                },
                ..old(self)@
            }),
    {
        if self.retained.is_none() {
            self.retained = Some(
                RetainedError::record(operation, key.clone(), error, self.durable_evidence),
            );
        }
    }

    fn decide(&self, window: CrashWindow, evidence: &Evidence) -> (r: RecoveryState)
        ensures
            r == settles_in(self@.budget, window, evidence@),
    {
        match window {
            // A crashed controller leaves an abandoned session, whose marker is
            // never taken, so a follow-on process is blocked whatever the journal
            // holds.
            CrashWindow::UmbraCrashBeforeWrite
            | CrashWindow::UmbraCrashMidWrite
            | CrashWindow::UmbraCrashAfterWrite => {
                if evidence.admission.is_held() && evidence.outstanding_io_excluded {
                    RecoveryState::Recovering
                } else {
                    RecoveryState::BlockedRecoverable
                }
            },
            // Storage corruption is never inferred from an exit status.
            CrashWindow::TraceeCrash => RecoveryState::FailedTracee,
            CrashWindow::TransientPartition => {
                if evidence.elapsed_millis > self.budget.ordinary_outage_millis {
                    RecoveryState::BlockedRecoverable
                } else {
                    RecoveryState::Recovering
                }
            },
            CrashWindow::GaneshaGracefulRestart => {
                if evidence.elapsed_millis > self.budget.grace_budget_millis(
                    evidence.grace_seconds,
                ) {
                    return RecoveryState::BlockedRecoverable;
                }
                match evidence.reclaim_recovered_all {
                    Some(true) => RecoveryState::Running,
                    Some(false) => RecoveryState::BlockedRecoverable,
                    None => RecoveryState::Recovering,
                }
            },
            CrashWindow::ServerEnospc => RecoveryState::BlockedRecoverable,
            CrashWindow::ServerEio | CrashWindow::ServerPowerLoss => {
                if evidence.proven_loss {
                    RecoveryState::Corrupted
                } else {
                    RecoveryState::BlockedRecoverable
                }
            },
            CrashWindow::StaleFilehandle => match evidence.identity_proven {
                Some(true) => RecoveryState::Running,
                _ => RecoveryState::BlockedRecoverable,
            },
            // Silence while suspended proves nothing either way, and the authority
            // this session held may have lapsed while it could not check.
            CrashWindow::UmbraSigstopResume => {
                if !evidence.outstanding_io_excluded || !evidence.admission.is_held() {
                    RecoveryState::BlockedRecoverable
                } else if evidence.suspend_gap_millis > self.budget.ordinary_outage_millis {
                    RecoveryState::BlockedRecoverable
                } else {
                    RecoveryState::Recovering
                }
            },
            CrashWindow::ClientPowerLossInFlight => RecoveryState::BlockedRecoverable,
            // Both sides stop. No winner is selected here.
            CrashWindow::SplitBrain | CrashWindow::HardPartition => {
                RecoveryState::BlockedRecoverable
            },
        }
    }

    /// Give up safely because writer authority could not be proven.
    ///
    /// Consumes the machine. The marker is retained, the latch is preserved, and
    /// the reason is recorded verbatim.
    pub fn give_up_unproven_authority(self, error: AuthorityError) -> (r: StoppedSafely)
        ensures
            r@ == stopped(
                unauthorised(self@, error@),
                "authority could not be proven: "@ + authority_text(error@),
            ),
    {
        let diagnostic = join("authority could not be proven: ", error.text().as_str());
        let mut machine = self;
        let operation = OperationId(
            [
                0u8,
                0u8,
                0u8,
                0u8,
                0u8,
                0u8,
                0u8,
                0u8,
                0u8,
                0u8,
                0u8,
                0u8,
                0u8,
                0u8,
                0u8,
                0u8,
            ],
        );
        machine.latch(
            operation,
            &IdempotencyKey("".to_owned()),
            FacadeError::Authority(error),
        );
        machine.state = RecoveryState::BlockedRecoverable;
        machine.stop(diagnostic)
    }

    /// Stop, retaining everything. The marker is never released on the way down.
    pub fn stop(self, diagnostic: String) -> (r: StoppedSafely)
        ensures
            r@ == stopped(self@, diagnostic@),
    {
        StoppedSafely {
            state: self.state,
            retained: self.retained,
            deferral: self.deferral,
            marker_retained: true,
            attempts: self.attempts,
            diagnostic,
        }
    }
}

/// The verbatim failure a transport disconnect produces.
pub fn disconnected(epoch: ConnectionEpoch, detail: &str) -> (r: FacadeError)
    ensures
        r@ == FacadeErrorView::Transport(
            TransportErrorView::Disconnected { epoch, detail: detail@ },
        ),
{
    FacadeError::Transport(TransportError::Disconnected { epoch, detail: detail.to_owned() })
}

/// The verbatim failure a lost payload produces.
pub fn payload_missing() -> (r: FacadeError)
    ensures
        r@ == FacadeErrorView::Replay(ReplayError::PayloadMissing),
{
    FacadeError::Replay(ReplayError::PayloadMissing)
}

/// A stopped machine never moves again, whatever window arrives with whatever
/// evidence.
pub proof fn a_terminal_state_is_terminal(
    machine: OutageMachineView,
    window: CrashWindow,
    evidence: EvidenceView,
)
    requires
        terminal(machine.state),
    ensures
        entered(machine, window, evidence) == machine,
{
}

/// The first failure is latched, and no later window replaces it.
pub proof fn the_first_failure_is_kept(
    machine: OutageMachineView,
    window: CrashWindow,
    evidence: EvidenceView,
)
    ensures
        machine.retained is Some ==> entered(machine, window, evidence).retained
            == machine.retained,
        !terminal(machine.state) && machine.retained is None && evidence.error is Some ==> entered(
            machine,
            window,
            evidence,
        ).retained is Some && entered(machine, window, evidence).retained->0.error
            == evidence.error->0,
{
}

/// The windows this milestone does not own stop the run, and say who owns them.
pub proof fn a_deferred_window_stops(
    machine: OutageMachineView,
    window: CrashWindow,
    evidence: EvidenceView,
)
    requires
        deferral_of(window) is Some,
        !terminal(machine.state),
    ensures
        terminal(entered(machine, window, evidence).state),
        entered(machine, window, evidence).deferral == deferral_of(window),
{
}

/// No window, whatever its evidence, releases the writer marker, and neither does
/// stopping.
pub proof fn the_marker_is_never_released(
    machine: OutageMachineView,
    window: CrashWindow,
    evidence: EvidenceView,
    diagnostic: Seq<char>,
)
    ensures
        entered(machine, window, evidence).marker_retained == machine.marker_retained,
        stopped(machine, diagnostic).marker_retained,
{
}

/// Without held admission, no crash or suspension of the process lets the run go
/// on: elapsed time alone is never authority.
pub proof fn time_is_never_authority(
    machine: OutageMachineView,
    window: CrashWindow,
    evidence: EvidenceView,
)
    requires
        !(evidence.admission is Held),
        !terminal(machine.state),
        window == CrashWindow::UmbraCrashBeforeWrite || window == CrashWindow::UmbraCrashMidWrite
            || window == CrashWindow::UmbraCrashAfterWrite || window
            == CrashWindow::UmbraSigstopResume,
    ensures
        entered(machine, window, evidence).state == RecoveryState::BlockedRecoverable,
{
}

/// Each reconnect attempt waits twice as long as the one before it, up to the
/// ceiling.
pub proof fn the_backoff_doubles_up_to_its_ceiling(budget: OutageBudget, attempt: u32)
    requires
        attempt < 63,
    ensures
        backoff(budget, (attempt + 1) as u32) == (if 2 * backoff(budget, attempt)
            < budget.reconnect_backoff_max_millis {
            2 * backoff(budget, attempt)
        } else {
            budget.reconnect_backoff_max_millis as int
        }),
        backoff(budget, attempt) <= budget.reconnect_backoff_max_millis,
{
    vstd::arithmetic::power2::lemma_pow2_unfold((attempt + 1) as nat);
    let step = vstd::arithmetic::power2::pow2(attempt as nat);
    let initial = budget.reconnect_backoff_initial_millis;
    assert(initial * (2 * step) == 2 * (initial * step)) by (nonlinear_arith);
}

} // verus!
