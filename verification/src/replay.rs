//! Durable intent identity, verifier accounting and backpressure.
//!
//! Two rules shape the types. A recorded outcome is final for its key: it is
//! returned verbatim, a recorded failure included. And a digest is not a payload:
//! a recovery that needs bytes and finds only a digest fails with
//! [`ReplayError::PayloadMissing`] instead of inventing them.
use vstd::prelude::*;

pub mod admissions;

use crate::bytes::{copy_bytes, same_bytes};
use crate::contract::{opt_view, res_view, IdempotencyKey, LeaseEpoch, OperationId, RunId};
use crate::error::{
    FacadeError, FacadeErrorView, FacadeResult, ReplayError, RetainedError, RetainedErrorView,
};
use crate::handle::ObjectIdentity;
use crate::transport::{same_verifier, Stability, WriteVerifier};

verus! {

/// What a durable intent describes.
#[derive(Debug, PartialEq, Eq)]
pub enum IntentKind {
    /// A positional write. Recovery needs the exact bytes and range.
    Write {
        /// Object.
        object: ObjectIdentity,
        /// Offset.
        offset: u64,
        /// Stability.
        stability: Stability,
    },
    /// A commit of a byte range; a count of zero means to end of file.
    Commit {
        /// Object.
        object: ObjectIdentity,
        /// Offset.
        offset: u64,
        /// Count.
        count: u32,
    },
    /// A namespace mutation. Never resubmitted under a new identity merely because its reply was lost.
    Namespace {
        /// Operation.
        operation: String,
    },
    /// An exclusive create, whose verifier is its whole idempotency story.
    ExclusiveCreate {
        /// Verifier.
        verifier: [u8; 8],
    },
}

/// The content of a [`IntentKind`].
pub enum IntentKindView {
    /// A positional write. Recovery needs the exact bytes and range.
    Write {
        /// Object.
        object: ObjectIdentity,
        /// Offset.
        offset: u64,
        /// Stability.
        stability: Stability,
    },
    /// A commit of a byte range; a count of zero means to end of file.
    Commit {
        /// Object.
        object: ObjectIdentity,
        /// Offset.
        offset: u64,
        /// Count.
        count: u32,
    },
    /// A namespace mutation. Never resubmitted under a new identity merely because its reply was lost.
    Namespace {
        /// Operation.
        operation: Seq<char>,
    },
    /// An exclusive create, whose verifier is its whole idempotency story.
    ExclusiveCreate {
        /// Verifier.
        verifier: [u8; 8],
    },
}

impl View for IntentKind {
    type V = IntentKindView;

    open spec fn view(&self) -> IntentKindView {
        match *self {
            IntentKind::Write { object, offset, stability } => IntentKindView::Write {
                object,
                offset,
                stability,
            },
            IntentKind::Commit { object, offset, count } => IntentKindView::Commit {
                object,
                offset,
                count,
            },
            IntentKind::Namespace { operation } => IntentKindView::Namespace {
                operation: operation@,
            },
            IntentKind::ExclusiveCreate { verifier } => IntentKindView::ExclusiveCreate {
                verifier,
            },
        }
    }
}

impl Clone for IntentKind {
    fn clone(&self) -> (r: Self)
        ensures
            r@ == self@,
    {
        match self {
            IntentKind::Write { object, offset, stability } => IntentKind::Write {
                object: *object,
                offset: *offset,
                stability: *stability,
            },
            IntentKind::Commit { object, offset, count } => IntentKind::Commit {
                object: *object,
                offset: *offset,
                count: *count,
            },
            IntentKind::Namespace { operation } => IntentKind::Namespace {
                operation: operation.clone(),
            },
            IntentKind::ExclusiveCreate { verifier } => IntentKind::ExclusiveCreate {
                verifier: *verifier,
            },
        }
    }
}

/// Payload retention for one intent.
#[derive(Debug, PartialEq, Eq)]
pub enum Payload {
    /// The bytes themselves, retained by the log.
    Inline(Vec<u8>),
    /// A digest only, valid solely when a surviving payload source is guaranteed.
    Digest {
        /// Digest.
        digest: [u8; 32],
        /// Len.
        len: u64,
        /// Source.
        source: String,
    },
    /// No payload is needed to rebuild this intent.
    NoPayload,
}

/// The content of a [`Payload`].
pub enum PayloadView {
    /// The bytes themselves, retained by the log.
    Inline(Seq<u8>),
    /// A digest only, valid solely when a surviving payload source is guaranteed.
    Digest {
        /// Digest.
        digest: [u8; 32],
        /// Len.
        len: u64,
        /// Source.
        source: Seq<char>,
    },
    /// No payload is needed to rebuild this intent.
    NoPayload,
}

impl View for Payload {
    type V = PayloadView;

    open spec fn view(&self) -> PayloadView {
        match *self {
            Payload::Inline(inner) => PayloadView::Inline(inner@),
            Payload::Digest { digest, len, source } => PayloadView::Digest {
                digest,
                len,
                source: source@,
            },
            Payload::NoPayload => PayloadView::NoPayload,
        }
    }
}

impl Clone for Payload {
    fn clone(&self) -> (r: Self)
        ensures
            r@ == self@,
    {
        match self {
            Payload::Inline(inner) => Payload::Inline(copy_bytes(inner.as_slice())),
            Payload::Digest { digest, len, source } => Payload::Digest {
                digest: *digest,
                len: *len,
                source: source.clone(),
            },
            Payload::NoPayload => Payload::NoPayload,
        }
    }
}

/// Bytes a payload costs against the buffer budget.
pub open spec fn retained_len(payload: PayloadView) -> nat {
    match payload {
        PayloadView::Inline(bytes) => bytes.len(),
        _ => 0,
    }
}

impl Payload {
    /// Bytes retained by the log, if any.
    pub fn bytes(&self) -> (r: Option<&[u8]>)
        ensures
            match self@ {
                PayloadView::Inline(bytes) => r is Some && r->0@ == bytes,
                _ => r is None,
            },
    {
        match self {
            Payload::Inline(bytes) => Some(bytes.as_slice()),
            _ => None,
        }
    }

    /// Bytes this payload costs against the buffer budget.
    pub fn retained_len(&self) -> (r: u64)
        ensures
            r == retained_len(self@),
    {
        match self {
            Payload::Inline(bytes) => bytes.len() as u64,
            _ => 0,
        }
    }
}

/// A durable intent recorded before dispatch.
#[derive(Debug, PartialEq, Eq)]
pub struct ReplayIntent {
    /// Run this intent belongs to.
    pub run_id: RunId,
    /// Operation identity. Reusing it for a different key is an error.
    pub operation: OperationId,
    /// Idempotency key. The identity a retry is matched on.
    pub key: IdempotencyKey,
    /// Writer epoch that authorised the mutation.
    pub epoch: LeaseEpoch,
    /// What is being attempted.
    pub kind: IntentKind,
    /// Retained payload.
    pub payload: Payload,
}

/// The content of a [`ReplayIntent`].
pub struct ReplayIntentView {
    /// Run this intent belongs to.
    pub run_id: RunId,
    /// Operation identity. Reusing it for a different key is an error.
    pub operation: OperationId,
    /// Idempotency key. The identity a retry is matched on.
    pub key: Seq<char>,
    /// Writer epoch that authorised the mutation.
    pub epoch: LeaseEpoch,
    /// What is being attempted.
    pub kind: IntentKindView,
    /// Retained payload.
    pub payload: PayloadView,
}

impl View for ReplayIntent {
    type V = ReplayIntentView;

    open spec fn view(&self) -> ReplayIntentView {
        ReplayIntentView {
            run_id: self.run_id,
            operation: self.operation,
            key: self.key@,
            epoch: self.epoch,
            kind: self.kind@,
            payload: self.payload@,
        }
    }
}

impl Clone for ReplayIntent {
    fn clone(&self) -> (r: Self)
        ensures
            r@ == self@,
    {
        ReplayIntent {
            run_id: self.run_id,
            operation: self.operation,
            key: self.key.clone(),
            epoch: self.epoch,
            kind: self.kind.clone(),
            payload: self.payload.clone(),
        }
    }
}

/// What a completed mutation actually achieved.
///
/// A short count and a weaker-than-requested stability are recorded as they
/// happened; neither is rounded up to the request.
#[derive(Clone, Copy, Debug, PartialEq, Eq)]
pub struct CompletedWrite {
    /// Bytes the server accepted.
    pub count: u32,
    /// Stability the server actually reached.
    pub committed: Stability,
    /// Verifier the server returned, for later COMMIT comparison.
    pub verifier: Option<WriteVerifier>,
}

/// The settled outcome of an intent.
#[derive(Debug, PartialEq, Eq)]
pub enum ReplayOutcome {
    /// Completed. The recorded effect is the answer for this key forever.
    Completed(CompletedWrite),
    /// Failed, with the error retained verbatim for this key.
    Failed(RetainedError),
}

/// The content of a [`ReplayOutcome`].
pub enum ReplayOutcomeView {
    /// Completed. The recorded effect is the answer for this key forever.
    Completed(CompletedWrite),
    /// Failed, with the error retained verbatim for this key.
    Failed(RetainedErrorView),
}

impl View for ReplayOutcome {
    type V = ReplayOutcomeView;

    open spec fn view(&self) -> ReplayOutcomeView {
        match *self {
            ReplayOutcome::Completed(inner) => ReplayOutcomeView::Completed(inner),
            ReplayOutcome::Failed(inner) => ReplayOutcomeView::Failed(inner@),
        }
    }
}

impl Clone for ReplayOutcome {
    fn clone(&self) -> (r: Self)
        ensures
            r@ == self@,
    {
        match self {
            ReplayOutcome::Completed(inner) => ReplayOutcome::Completed(*inner),
            ReplayOutcome::Failed(inner) => ReplayOutcome::Failed(inner.clone()),
        }
    }
}

/// A recorded intent with, once known, its outcome.
#[derive(Debug, PartialEq, Eq)]
pub struct ReplayRecord {
    /// The intent as it was recorded before dispatch.
    pub intent: ReplayIntent,
    /// The outcome, absent while the operation is in flight or unknown.
    pub outcome: Option<ReplayOutcome>,
}

/// The content of a [`ReplayRecord`].
pub struct ReplayRecordView {
    /// The intent as it was recorded before dispatch.
    pub intent: ReplayIntentView,
    /// The outcome, absent while the operation is in flight or unknown.
    pub outcome: Option<ReplayOutcomeView>,
}

impl View for ReplayRecord {
    type V = ReplayRecordView;

    open spec fn view(&self) -> ReplayRecordView {
        ReplayRecordView {
            intent: self.intent@,
            outcome: opt_view(self.outcome),
        }
    }
}

impl Clone for ReplayRecord {
    fn clone(&self) -> (r: Self)
        ensures
            r@ == self@,
    {
        ReplayRecord {
            intent: self.intent.clone(),
            outcome: match &self.outcome {
                Some(inner) => Some(inner.clone()),
                None => None,
            },
        }
    }
}

/// What admitting an intent decided.
#[derive(Debug, PartialEq, Eq)]
pub enum Admission {
    /// A fresh intent was recorded; dispatch may proceed.
    Fresh,
    /// This key already has a settled outcome. Return it; do not dispatch.
    Recorded(ReplayOutcome),
    /// This key was recorded but its outcome is unknown. Recovery must settle it first.
    Indeterminate,
}

/// The content of a [`Admission`].
pub enum AdmissionView {
    /// A fresh intent was recorded; dispatch may proceed.
    Fresh,
    /// This key already has a settled outcome. Return it; do not dispatch.
    Recorded(ReplayOutcomeView),
    /// This key was recorded but its outcome is unknown. Recovery must settle it first.
    Indeterminate,
}

impl View for Admission {
    type V = AdmissionView;

    open spec fn view(&self) -> AdmissionView {
        match *self {
            Admission::Fresh => AdmissionView::Fresh,
            Admission::Recorded(inner) => AdmissionView::Recorded(inner@),
            Admission::Indeterminate => AdmissionView::Indeterminate,
        }
    }
}

/// Bounds on the replay buffer. Exhaustion is backpressure, not data loss.
#[derive(Clone, Copy, Debug, PartialEq, Eq, Structural)]
pub struct ReplayBudget {
    /// Maximum records retained.
    pub max_records: u32,
    /// Maximum inline payload bytes retained.
    pub max_payload_bytes: u64,
}

/// Current occupancy of the replay buffer.
#[derive(Clone, Copy, Debug, PartialEq, Eq, Structural)]
pub struct Backpressure {
    /// Records retained.
    pub records: u32,
    /// Inline payload bytes retained.
    pub payload_bytes: u64,
    /// Configured bounds.
    pub budget: ReplayBudget,
}

/// Whether a further intent of `payload_len` bytes would exceed the budget.
pub open spec fn would_exceed(pressure: Backpressure, payload_len: nat) -> bool {
    pressure.records >= pressure.budget.max_records || pressure.payload_bytes + payload_len
        > pressure.budget.max_payload_bytes
}

/// Whether a further intent of `payload_len` bytes is refused. The sum saturates,
/// so a budget of all of `u64` is never exceeded by it.
pub open spec fn refuses(pressure: Backpressure, payload_len: nat) -> bool {
    pressure.records >= pressure.budget.max_records || (if pressure.payload_bytes + payload_len
        > u64::MAX {
        u64::MAX as int
    } else {
        pressure.payload_bytes + payload_len
    }) > pressure.budget.max_payload_bytes
}

impl Backpressure {
    /// Whether a further intent of `payload_len` bytes would exceed the budget.
    pub fn would_exceed(&self, payload_len: u64) -> (r: bool)
        ensures
            r == refuses(*self, payload_len as nat),
            self.payload_bytes + payload_len <= u64::MAX ==> r == would_exceed(
                *self,
                payload_len as nat,
            ),
    {
        self.records >= self.budget.max_records || self.payload_bytes.saturating_add(payload_len)
            > self.budget.max_payload_bytes
    }
}

/// Verifier accounting across WRITE and COMMIT.
///
/// An unstable WRITE is only durable once a COMMIT returns the verifier the WRITE
/// did. A changed verifier means the server lost the unstable data.
#[derive(Clone, Copy, Debug, PartialEq, Eq)]
pub enum VerifierMatch {
    /// Same verifier: unstable writes covered by this commit are stable.
    Match,
    /// Verifier changed: the covered writes must be replayed from payload.
    Changed {
        /// Verifier recorded at WRITE time.
        recorded: WriteVerifier,
        /// Verifier observed at COMMIT time.
        observed: WriteVerifier,
    },
    /// No verifier was recorded for the range, so nothing can be concluded.
    Unknown,
}

impl View for VerifierMatch {
    type V = VerifierMatch;

    open spec fn view(&self) -> VerifierMatch {
        *self
    }
}

/// What comparing a recorded verifier with an observed one concludes.
pub open spec fn verifier_match(
    recorded: Option<WriteVerifier>,
    observed: WriteVerifier,
) -> VerifierMatch {
    match recorded {
        None => VerifierMatch::Unknown,
        Some(noted) => if noted == observed {
            VerifierMatch::Match
        } else {
            VerifierMatch::Changed { recorded: noted, observed }
        },
    }
}

/// The failure a comparison amounts to, if it amounts to one.
pub open spec fn match_result(verdict: VerifierMatch) -> Result<(), FacadeErrorView> {
    match verdict {
        VerifierMatch::Match => Ok(()),
        VerifierMatch::Changed { recorded, observed } => Err(
            FacadeErrorView::Replay(
                ReplayError::VerifierChanged { recorded: recorded.0, observed: observed.0 },
            ),
        ),
        VerifierMatch::Unknown => Err(FacadeErrorView::Replay(ReplayError::Indeterminate)),
    }
}

impl VerifierMatch {
    /// Compare a recorded verifier against one observed at COMMIT.
    pub fn compare(recorded: Option<WriteVerifier>, observed: WriteVerifier) -> (r: Self)
        ensures
            r == verifier_match(recorded, observed),
    {
        match recorded {
            None => VerifierMatch::Unknown,
            Some(noted) => if same_verifier(&noted.0, &observed.0) {
                VerifierMatch::Match
            } else {
                VerifierMatch::Changed { recorded: noted, observed }
            },
        }
    }

    /// Convert a mismatch into the replay error consumers act on.
    pub fn into_result(self) -> (r: FacadeResult<()>)
        ensures
            res_view(r) == match_result(self),
    {
        match self {
            VerifierMatch::Match => Ok(()),
            VerifierMatch::Changed { recorded, observed } => Err(
                FacadeError::Replay(
                    ReplayError::VerifierChanged { recorded: recorded.0, observed: observed.0 },
                ),
            ),
            VerifierMatch::Unknown => Err(FacadeError::Replay(ReplayError::Indeterminate)),
        }
    }
}

/// A replay ledger's content.
#[verifier::ext_equal]
pub struct Ledger {
    /// Records by key.
    pub records: Map<Seq<char>, ReplayRecordView>,
    /// The key each operation id was recorded under.
    pub operations: Map<OperationId, Seq<char>>,
    /// Verifiers noted by key.
    pub verifiers: Map<Seq<char>, WriteVerifier>,
    /// Payload bytes charged.
    pub payload_bytes: u64,
    /// The budget.
    pub budget: ReplayBudget,
}

/// The occupancy of a ledger.
pub open spec fn ledger_pressure(ledger: Ledger) -> Backpressure {
    Backpressure {
        records: ledger.records.len() as u32,
        payload_bytes: ledger.payload_bytes,
        budget: ledger.budget,
    }
}

/// What admitting `intent` decides. A known key is answered from its record; a
/// fresh one is refused when its operation id belongs to another key or when the
/// budget is spent.
pub open spec fn admit_answer(ledger: Ledger, intent: ReplayIntentView) -> Result<
    AdmissionView,
    ReplayError,
> {
    if ledger.records.contains_key(intent.key) {
        let record = ledger.records[intent.key];
        if record.intent != intent {
            Err(ReplayError::KeyConflict)
        } else {
            match record.outcome {
                Some(outcome) => Ok(AdmissionView::Recorded(outcome)),
                None => Ok(AdmissionView::Indeterminate),
            }
        }
    } else if ledger.operations.contains_key(intent.operation)
        && ledger.operations[intent.operation] != intent.key {
        Err(ReplayError::OperationReused)
    } else if would_exceed(ledger_pressure(ledger), retained_len(intent.payload)) {
        Err(
            ReplayError::CapacityExhausted {
                records: ledger_pressure(ledger).records,
                bytes: ledger.payload_bytes,
            },
        )
    } else {
        Ok(AdmissionView::Fresh)
    }
}

/// The ledger after admitting `intent`: unchanged unless the intent was fresh.
pub open spec fn after_admit(ledger: Ledger, intent: ReplayIntentView) -> Ledger {
    if admit_answer(ledger, intent) == Ok::<AdmissionView, ReplayError>(AdmissionView::Fresh) {
        Ledger {
            records: ledger.records.insert(
                intent.key,
                ReplayRecordView { intent, outcome: None },
            ),
            operations: ledger.operations.insert(intent.operation, intent.key),
            payload_bytes: (ledger.payload_bytes + retained_len(intent.payload)) as u64,
            ..ledger
        }
    } else {
        ledger
    }
}

/// What settling `key` answers. Settling twice is an error, not an update.
pub open spec fn record_answer(ledger: Ledger, key: Seq<char>) -> Result<(), ReplayError> {
    if !ledger.records.contains_key(key) {
        Err(ReplayError::Indeterminate)
    } else if ledger.records[key].outcome is Some {
        Err(ReplayError::KeyConflict)
    } else {
        Ok(())
    }
}

/// The ledger after settling `key`.
pub open spec fn after_record(
    ledger: Ledger,
    key: Seq<char>,
    outcome: ReplayOutcomeView,
) -> Ledger {
    if record_answer(ledger, key) is Ok {
        Ledger {
            records: ledger.records.insert(
                key,
                ReplayRecordView {
                    intent: ledger.records[key].intent,
                    outcome: Some(outcome),
                },
            ),
            ..ledger
        }
    } else {
        ledger
    }
}

/// What retiring `key` answers. An unsettled record is never dropped.
pub open spec fn retire_answer(ledger: Ledger, key: Seq<char>) -> Result<(), ReplayError> {
    if ledger.records.contains_key(key) && ledger.records[key].outcome is Some {
        Ok(())
    } else {
        Err(ReplayError::Indeterminate)
    }
}

/// The ledger after retiring `key`: its record, operation, verifier and budget
/// released.
pub open spec fn after_retire(ledger: Ledger, key: Seq<char>) -> Ledger {
    if retire_answer(ledger, key) is Ok {
        let intent = ledger.records[key].intent;
        Ledger {
            records: ledger.records.remove(key),
            operations: ledger.operations.remove(intent.operation),
            verifiers: ledger.verifiers.remove(key),
            payload_bytes: if ledger.payload_bytes >= retained_len(intent.payload) {
                (ledger.payload_bytes - retained_len(intent.payload)) as u64
            } else {
                0
            },
            ..ledger
        }
    } else {
        ledger
    }
}

/// The verifier noted for `key`, if one was.
pub open spec fn noted_verifier(ledger: Ledger, key: Seq<char>) -> Option<WriteVerifier> {
    if ledger.verifiers.contains_key(key) {
        Some(ledger.verifiers[key])
    } else {
        None
    }
}

/// The durable replay ledger.
///
/// `ledger` is its content. An implementation upholds five rules, which the
/// contracts below state. Admitting records the intent before it answers
/// [`Admission::Fresh`] and refuses when the budget is spent. A key with a
/// recorded outcome always returns it. Reusing a key with a different intent is a
/// conflict, and so is reusing an operation id for another key. Recording is the
/// only way an outcome is settled, and a settled outcome is never rewritten.
/// Retiring releases settled records only.
pub trait ReplayLog: Sized {
    /// The ledger's content.
    spec fn ledger(&self) -> Ledger;

    /// Admit an intent for dispatch, or return the settled answer for its key.
    fn admit_intent(&mut self, intent: &ReplayIntent) -> (r: Result<Admission, ReplayError>)
        ensures
            res_view(r) == admit_answer(old(self).ledger(), intent@),
            final(self).ledger() == after_admit(old(self).ledger(), intent@),
    ;

    /// Settle the outcome for a key. Recording twice is an error, not an update.
    fn record(&mut self, key: &IdempotencyKey, outcome: ReplayOutcome) -> (r: Result<
        (),
        ReplayError,
    >)
        ensures
            r == record_answer(old(self).ledger(), key@),
            final(self).ledger() == after_record(old(self).ledger(), key@, outcome@),
    ;

    /// Read a record back.
    fn get(&self, key: &IdempotencyKey) -> (r: Option<&ReplayRecord>)
        ensures
            match r {
                Some(record) => self.ledger().records.contains_key(key@)
                    && self.ledger().records[key@] == record@,
                None => !self.ledger().records.contains_key(key@),
            },
    ;

    /// Release a settled, durable record and its budget.
    fn retire(&mut self, key: &IdempotencyKey) -> (r: Result<(), ReplayError>)
        ensures
            r == retire_answer(old(self).ledger(), key@),
            final(self).ledger() == after_retire(old(self).ledger(), key@),
    ;

    /// Current occupancy.
    fn pressure(&self) -> (r: Backpressure)
        ensures
            r == ledger_pressure(self.ledger()),
    ;

    /// Record the verifier a WRITE returned, for later COMMIT comparison.
    fn note_write_verifier(&mut self, key: &IdempotencyKey, verifier: WriteVerifier)
        ensures
            final(self).ledger() == (Ledger {
                verifiers: old(self).ledger().verifiers.insert(key@, verifier),
                ..old(self).ledger()
            }),
    ;

    /// Compare a COMMIT verifier against what was recorded for a key.
    fn check_commit_verifier(&self, key: &IdempotencyKey, observed: WriteVerifier) -> (r:
        VerifierMatch)
        ensures
            r == verifier_match(noted_verifier(self.ledger(), key@), observed),
    ;
}

/// Whether two intent kinds are the same.
pub(crate) fn same_kind(a: &IntentKind, b: &IntentKind) -> (r: bool)
    ensures
        r == (a@ == b@),
{
    match (a, b) {
        (
            IntentKind::Write { object: o1, offset: f1, stability: s1 },
            IntentKind::Write { object: o2, offset: f2, stability: s2 },
        ) => *o1 == *o2 && *f1 == *f2 && *s1 == *s2,
        (
            IntentKind::Commit { object: o1, offset: f1, count: c1 },
            IntentKind::Commit { object: o2, offset: f2, count: c2 },
        ) => *o1 == *o2 && *f1 == *f2 && *c1 == *c2,
        (
            IntentKind::Namespace { operation: o1 },
            IntentKind::Namespace { operation: o2 },
        ) => *o1 == *o2,
        (
            IntentKind::ExclusiveCreate { verifier: v1 },
            IntentKind::ExclusiveCreate { verifier: v2 },
        ) => same_verifier(v1, v2),
        _ => false,
    }
}

/// Whether two payloads are the same.
pub(crate) fn same_payload(a: &Payload, b: &Payload) -> (r: bool)
    ensures
        r == (a@ == b@),
{
    match (a, b) {
        (Payload::Inline(x), Payload::Inline(y)) => same_bytes(x.as_slice(), y.as_slice()),
        (
            Payload::Digest { digest: d1, len: l1, source: s1 },
            Payload::Digest { digest: d2, len: l2, source: s2 },
        ) => {
            let digests = same_bytes(d1, d2);
            proof {
                if digests {
                    assert(d1 =~= d2);
                }
            }
            digests && *l1 == *l2 && *s1 == *s2
        },
        (Payload::NoPayload, Payload::NoPayload) => true,
        _ => false,
    }
}

impl ReplayIntent {
    /// Whether two intents are the same intent.
    pub fn same(&self, other: &ReplayIntent) -> (r: bool)
        ensures
            r == (self@ == other@),
    {
        self.run_id.same(&other.run_id) && self.operation.same(&other.operation) && self.key.same(
            &other.key,
        ) && self.epoch == other.epoch && same_kind(&self.kind, &other.kind) && same_payload(
            &self.payload,
            &other.payload,
        )
    }
}

/// A settled key keeps its answer: whatever is admitted, settled or noted
/// afterwards, admitting the same intent again returns the outcome recorded
/// first, and nothing is dispatched.
pub proof fn a_settled_answer_is_final(
    ledger: Ledger,
    intent: ReplayIntentView,
    outcome: ReplayOutcomeView,
    later: ReplayOutcomeView,
    other: ReplayIntentView,
)
    requires
        ledger.records.contains_key(intent.key),
        ledger.records[intent.key] == (ReplayRecordView { intent, outcome: Some(outcome) }),
    ensures
        admit_answer(ledger, intent) == Ok::<AdmissionView, ReplayError>(
            AdmissionView::Recorded(outcome),
        ),
        after_admit(ledger, intent) == ledger,
        record_answer(ledger, intent.key) == Err::<(), ReplayError>(ReplayError::KeyConflict),
        after_record(ledger, intent.key, later) == ledger,
        admit_answer(after_admit(ledger, other), intent) == Ok::<AdmissionView, ReplayError>(
            AdmissionView::Recorded(outcome),
        ),
{
}

/// A fresh intent is on record before anything can be dispatched for it: after
/// [`Admission::Fresh`] the same intent is indeterminate until it is settled, and
/// any other intent under its key conflicts.
pub proof fn a_fresh_intent_is_recorded_first(
    ledger: Ledger,
    intent: ReplayIntentView,
    other: ReplayIntentView,
)
    requires
        admit_answer(ledger, intent) == Ok::<AdmissionView, ReplayError>(AdmissionView::Fresh),
    ensures
        after_admit(ledger, intent).records.contains_key(intent.key),
        after_admit(ledger, intent).records[intent.key].intent == intent,
        admit_answer(after_admit(ledger, intent), intent) == Ok::<AdmissionView, ReplayError>(
            AdmissionView::Indeterminate,
        ),
        other.key == intent.key && other != intent ==> admit_answer(
            after_admit(ledger, intent),
            other,
        ) == Err::<AdmissionView, ReplayError>(ReplayError::KeyConflict),
{
}

/// An unsettled record is never dropped to make room.
pub proof fn an_unsettled_record_is_never_dropped(ledger: Ledger, key: Seq<char>)
    requires
        ledger.records.contains_key(key),
        ledger.records[key].outcome is None,
    ensures
        retire_answer(ledger, key) is Err,
        after_retire(ledger, key) == ledger,
{
}

/// Admission never takes a ledger past its byte budget, and never past its record
/// budget where the count of records fits the counter that is compared.
pub proof fn admission_stays_within_budget(ledger: Ledger, intent: ReplayIntentView)
    requires
        ledger.payload_bytes <= ledger.budget.max_payload_bytes,
        ledger.records.dom().finite(),
        ledger.records.len() <= ledger.budget.max_records,
    ensures
        after_admit(ledger, intent).payload_bytes <= ledger.budget.max_payload_bytes,
        after_admit(ledger, intent).records.len() <= ledger.budget.max_records,
{
}

/// A verifier comparison never guesses: it succeeds only on the very verifier that
/// was recorded.
pub proof fn only_the_recorded_verifier_proves_durability(
    recorded: Option<WriteVerifier>,
    observed: WriteVerifier,
)
    ensures
        match_result(verifier_match(recorded, observed)) is Ok <==> recorded == Some(observed),
{
}

} // verus!
