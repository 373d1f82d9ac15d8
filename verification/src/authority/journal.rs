//! Durable intent, payload identity and committed result, recorded before the
//! caller is told anything.
//!
//! The only way to obtain a [`DispatchTicket`] is [`MutationJournal::begin`], and
//! only once the intent, the writer epoch and the payload have reached the log.
//! Settling consumes the ticket, so a result cannot be recorded twice.
//!
//! Backpressure is checked before an intent is admitted, so an exhausted buffer
//! refuses the mutation rather than letting it reach the wire with nowhere to
//! record its outcome.
//!
//! A digest-only write is blocked, never reconstructed: a digest proves what the
//! bytes were, not where they still are. A namespace intent whose reply was lost
//! is blocked too, because its record is no proof of before and after.
use vstd::prelude::*;

pub mod plans;

use crate::contract::{
    hyphenated, res_view, seq_view, IdempotencyKey, LeaseEpoch, OperationId, RunId,
};
use crate::error::{
    unproven, unproven_error, FacadeError, FacadeErrorView, ReplayError, RetainedError,
    RetainedErrorView,
};
use crate::replay::{
    admit_answer, after_admit, after_record, after_retire, ledger_pressure, noted_verifier,
    record_answer, refuses, retained_len, retire_answer, verifier_match, Admission, AdmissionView,
    Backpressure, CompletedWrite, IntentKind, IntentKindView, Ledger, Payload, PayloadView,
    ReplayIntent, ReplayIntentView, ReplayLog, ReplayOutcome, ReplayOutcomeView, ReplayRecord,
    VerifierMatch,
};
use crate::text::join3;
use crate::transport::WriteVerifier;

use super::admission::{Admitted, AdmittedView};
use super::keys::{rising, KeySet};

verus! {

/// Whether the log behind a journal reaches a persistence boundary.
///
/// A retained error must not claim durability the log does not provide.
#[derive(Clone, Copy, Debug, PartialEq, Eq, Structural)]
pub enum Durability {
    /// The log persists records across a process restart.
    Durable,
    /// The log is in memory. Records do not survive the process.
    Volatile,
}

/// One mutation, as it is described to the journal before dispatch.
#[derive(Debug, PartialEq, Eq)]
pub struct MutationRequest {
    /// Operation identity. Reusing it under a different key is refused.
    pub operation: OperationId,
    /// Idempotency key. The identity a retry is matched on.
    pub key: IdempotencyKey,
    /// What is being attempted.
    pub kind: IntentKind,
    /// Payload retention. A digest is not a payload.
    pub payload: Payload,
}

/// The content of a [`MutationRequest`].
pub struct MutationRequestView {
    /// Operation identity. Reusing it under a different key is refused.
    pub operation: OperationId,
    /// Idempotency key. The identity a retry is matched on.
    pub key: Seq<char>,
    /// What is being attempted.
    pub kind: IntentKindView,
    /// Payload retention. A digest is not a payload.
    pub payload: PayloadView,
}

impl View for MutationRequest {
    type V = MutationRequestView;

    open spec fn view(&self) -> MutationRequestView {
        MutationRequestView {
            operation: self.operation,
            key: self.key@,
            kind: self.kind@,
            payload: self.payload@,
        }
    }
}

impl Clone for MutationRequest {
    fn clone(&self) -> (r: Self)
        ensures
            r@ == self@,
    {
        MutationRequest {
            operation: self.operation,
            key: self.key.clone(),
            kind: self.kind.clone(),
            payload: self.payload.clone(),
        }
    }
}

/// Proof that one mutation's intent reached the log before it was dispatched.
#[derive(Debug, PartialEq, Eq)]
pub struct DispatchTicket {
    run: RunId,
    operation: OperationId,
    key: IdempotencyKey,
    epoch: LeaseEpoch,
}

/// The content of a [`DispatchTicket`].
pub struct DispatchTicketView {
    /// The run this dispatch belongs to.
    pub run: RunId,
    /// The operation identity recorded with the intent.
    pub operation: OperationId,
    /// The key the outcome will be settled under.
    pub key: Seq<char>,
    /// The writer epoch that authorised the mutation.
    pub epoch: LeaseEpoch,
}

impl View for DispatchTicket {
    type V = DispatchTicketView;

    closed spec fn view(&self) -> DispatchTicketView {
        DispatchTicketView {
            run: self.run,
            operation: self.operation,
            key: self.key@,
            epoch: self.epoch,
        }
    }
}

impl DispatchTicket {
    /// The run this dispatch belongs to.
    pub fn run(&self) -> (r: RunId)
        ensures
            r == self@.run,
    {
        self.run
    }

    /// The operation identity recorded with the intent.
    pub fn operation(&self) -> (r: OperationId)
        ensures
            r == self@.operation,
    {
        self.operation
    }

    /// The key the outcome will be settled under.
    pub fn key(&self) -> (r: &IdempotencyKey)
        ensures
            r@ == self@.key,
    {
        &self.key
    }

    /// The writer epoch that authorised the mutation.
    pub fn epoch(&self) -> (r: LeaseEpoch)
        ensures
            r == self@.epoch,
    {
        self.epoch
    }
}

/// What [`MutationJournal::begin`] settled.
#[derive(Debug, PartialEq, Eq)]
pub enum Acknowledged {
    /// Intent recorded. Dispatch may proceed with this ticket.
    Dispatch(DispatchTicket),
    /// This key already has a settled outcome; it is the answer forever.
    Replayed(ReplayOutcome),
    /// The key is recorded with no outcome. Recovery settles it before anything else runs.
    Indeterminate,
}

/// The content of a [`Acknowledged`].
pub enum AcknowledgedView {
    /// Intent recorded. Dispatch may proceed with this ticket.
    Dispatch(DispatchTicketView),
    /// This key already has a settled outcome; it is the answer forever.
    Replayed(ReplayOutcomeView),
    /// The key is recorded with no outcome. Recovery settles it before anything else runs.
    Indeterminate,
}

impl View for Acknowledged {
    type V = AcknowledgedView;

    open spec fn view(&self) -> AcknowledgedView {
        match *self {
            Acknowledged::Dispatch(inner) => AcknowledgedView::Dispatch(inner@),
            Acknowledged::Replayed(inner) => AcknowledgedView::Replayed(inner@),
            Acknowledged::Indeterminate => AcknowledgedView::Indeterminate,
        }
    }
}

/// The committed result a dispatch produced.
#[derive(Debug, PartialEq, Eq)]
pub enum CommittedResult {
    /// What the server achieved: exact count, actual stability, verifier.
    Completed(CompletedWrite),
    /// A failure, retained verbatim as the answer for this key.
    Failed(FacadeError),
}

/// The content of a [`CommittedResult`].
pub enum CommittedResultView {
    /// What the server achieved: exact count, actual stability, verifier.
    Completed(CompletedWrite),
    /// A failure, retained verbatim as the answer for this key.
    Failed(FacadeErrorView),
}

impl View for CommittedResult {
    type V = CommittedResultView;

    open spec fn view(&self) -> CommittedResultView {
        match *self {
            CommittedResult::Completed(inner) => CommittedResultView::Completed(inner),
            CommittedResult::Failed(inner) => CommittedResultView::Failed(inner@),
        }
    }
}

impl Clone for CommittedResult {
    fn clone(&self) -> (r: Self)
        ensures
            r@ == self@,
    {
        match self {
            CommittedResult::Completed(inner) => CommittedResult::Completed(*inner),
            CommittedResult::Failed(inner) => CommittedResult::Failed(inner.clone()),
        }
    }
}

/// How one key stands after a crash.
#[derive(Debug, PartialEq, Eq)]
pub enum KeyStanding {
    /// A settled outcome exists; return it and do not dispatch.
    Settled(ReplayOutcome),
    /// Intent and payload both survived, so the mutation can be driven again.
    Replayable,
    /// Durable evidence does not settle this key and cannot rebuild it.
    Blocked(FacadeError),
}

/// The content of a [`KeyStanding`].
pub enum KeyStandingView {
    /// A settled outcome exists; return it and do not dispatch.
    Settled(ReplayOutcomeView),
    /// Intent and payload both survived, so the mutation can be driven again.
    Replayable,
    /// Durable evidence does not settle this key and cannot rebuild it.
    Blocked(FacadeErrorView),
}

impl View for KeyStanding {
    type V = KeyStandingView;

    open spec fn view(&self) -> KeyStandingView {
        match *self {
            KeyStanding::Settled(inner) => KeyStandingView::Settled(inner@),
            KeyStanding::Replayable => KeyStandingView::Replayable,
            KeyStanding::Blocked(inner) => KeyStandingView::Blocked(inner@),
        }
    }
}

impl Clone for KeyStanding {
    fn clone(&self) -> (r: Self)
        ensures
            r@ == self@,
    {
        match self {
            KeyStanding::Settled(inner) => KeyStanding::Settled(inner.clone()),
            KeyStanding::Replayable => KeyStanding::Replayable,
            KeyStanding::Blocked(inner) => KeyStanding::Blocked(inner.clone()),
        }
    }
}

/// What a bounded post-crash replay pass may do.
#[derive(Debug, PartialEq, Eq)]
pub struct RecoveryPlan {
    /// Keys whose recorded outcome is the answer. Never dispatched again.
    pub settled: Vec<IdempotencyKey>,
    /// Keys that can be driven again under their original identity.
    pub replayable: Vec<IdempotencyKey>,
    /// Keys that stop, each with its verbatim reason.
    pub blocked: Vec<(IdempotencyKey, FacadeError)>,
}

/// The content of a [`RecoveryPlan`].
pub struct RecoveryPlanView {
    /// Keys whose recorded outcome is the answer.
    pub settled: Seq<Seq<char>>,
    /// Keys that can be driven again.
    pub replayable: Seq<Seq<char>>,
    /// Keys that stop, each with its reason.
    pub blocked: Seq<(Seq<char>, FacadeErrorView)>,
}

impl View for RecoveryPlan {
    type V = RecoveryPlanView;

    open spec fn view(&self) -> RecoveryPlanView {
        RecoveryPlanView {
            settled: seq_view(self.settled@),
            replayable: seq_view(self.replayable@),
            blocked: seq_view(self.blocked@),
        }
    }
}

/// How many keys a plan accounts for.
pub open spec fn plan_len(plan: RecoveryPlanView) -> nat {
    plan.settled.len() + plan.replayable.len() + plan.blocked.len()
}

impl RecoveryPlan {
    /// Total keys the plan accounts for.
    pub fn len(&self) -> (r: usize)
        requires
            plan_len(self@) <= usize::MAX,
        ensures
            r == plan_len(self@),
    {
        self.settled.len() + self.replayable.len() + self.blocked.len()
    }

    /// Whether the plan accounts for nothing.
    pub fn is_empty(&self) -> (r: bool)
        ensures
            r == (plan_len(self@) == 0),
    {
        self.settled.len() == 0 && self.replayable.len() == 0 && self.blocked.len() == 0
    }

    /// Whether every key is either settled or replayable.
    pub fn is_clean(&self) -> (r: bool)
        ensures
            r == (self@.blocked.len() == 0),
    {
        self.blocked.len() == 0
    }
}

/// Records every mutation's intent, payload and committed result.
#[derive(Debug)]
pub struct MutationJournal<L: ReplayLog> {
    log: L,
    run: RunId,
    durability: Durability,
    admitted_keys: KeySet,
}

/// The content of a [`MutationJournal`].
pub struct JournalView {
    /// The content of the log.
    pub ledger: Ledger,
    /// The run.
    pub run: RunId,
    /// Whether records reach a persistence boundary.
    pub durability: Durability,
    /// The keys admitted and not retired.
    pub keys: Set<Seq<char>>,
}

/// The intent a request is recorded as.
pub open spec fn intent_of(
    run: RunId,
    epoch: LeaseEpoch,
    request: MutationRequestView,
) -> ReplayIntentView {
    ReplayIntentView {
        run_id: run,
        operation: request.operation,
        key: request.key,
        epoch,
        kind: request.kind,
        payload: request.payload,
    }
}

/// Record a mutation's intent, and authorise dispatch.
pub open spec fn begin_run(
    journal: JournalView,
    admitted: AdmittedView,
    request: MutationRequestView,
) -> (Result<AcknowledgedView, FacadeErrorView>, JournalView) {
    let pressure = ledger_pressure(journal.ledger);
    if admitted.run != journal.run {
        (
            Err(
                unproven(
                    "admission is for run "@ + hyphenated(admitted.run.0@)
                        + " but this journal records run "@ + hyphenated(journal.run.0@),
                ),
            ),
            journal,
        )
    } else if refuses(pressure, retained_len(request.payload)) {
        (
            Err(
                FacadeErrorView::Replay(
                    ReplayError::CapacityExhausted {
                        records: pressure.records,
                        bytes: pressure.payload_bytes,
                    },
                ),
            ),
            journal,
        )
    } else {
        let intent = intent_of(journal.run, admitted.epoch, request);
        let noted = JournalView { ledger: after_admit(journal.ledger, intent), ..journal };
        match admit_answer(journal.ledger, intent) {
            Err(error) => (Err(FacadeErrorView::Replay(error)), noted),
            Ok(AdmissionView::Recorded(outcome)) => (
                Ok(AcknowledgedView::Replayed(outcome)),
                noted,
            ),
            Ok(AdmissionView::Indeterminate) => (Ok(AcknowledgedView::Indeterminate), noted),
            Ok(AdmissionView::Fresh) => (
                Ok(
                    AcknowledgedView::Dispatch(
                        DispatchTicketView {
                            run: journal.run,
                            operation: request.operation,
                            key: request.key,
                            epoch: admitted.epoch,
                        },
                    ),
                ),
                JournalView { keys: noted.keys.insert(request.key), ..noted },
            ),
        }
    }
}

/// The outcome a committed result is recorded as.
pub open spec fn outcome_of(
    ticket: DispatchTicketView,
    result: CommittedResultView,
    durability: Durability,
) -> ReplayOutcomeView {
    match result {
        CommittedResultView::Completed(write) => ReplayOutcomeView::Completed(write),
        CommittedResultView::Failed(error) => ReplayOutcomeView::Failed(
            RetainedErrorView {
                operation: ticket.operation,
                key: ticket.key,
                error,
                durable: durability == Durability::Durable,
            },
        ),
    }
}

/// How one key stands against what a ledger holds.
pub open spec fn standing_of(ledger: Ledger, key: Seq<char>) -> KeyStandingView {
    if !ledger.records.contains_key(key) {
        KeyStandingView::Blocked(FacadeErrorView::Replay(ReplayError::Indeterminate))
    } else {
        let record = ledger.records[key];
        match record.outcome {
            Some(outcome) => KeyStandingView::Settled(outcome),
            None => match record.intent.kind {
                IntentKindView::Write { .. } => if record.intent.payload is Inline {
                    KeyStandingView::Replayable
                } else {
                    KeyStandingView::Blocked(FacadeErrorView::Replay(ReplayError::PayloadMissing))
                },
                IntentKindView::Commit { .. } => KeyStandingView::Replayable,
                IntentKindView::ExclusiveCreate { .. } => KeyStandingView::Replayable,
                IntentKindView::Namespace { .. } => KeyStandingView::Blocked(
                    FacadeErrorView::Replay(ReplayError::Indeterminate),
                ),
            },
        }
    }
}

/// The plan with one more key, which is the `place`-th. A key set larger than the
/// buffer could ever have held is not something a journal recorded.
pub open spec fn planned(
    plan: RecoveryPlanView,
    ledger: Ledger,
    key: Seq<char>,
    place: nat,
) -> RecoveryPlanView {
    if place >= ledger.budget.max_records {
        RecoveryPlanView {
            blocked: plan.blocked.push(
                (
                    key,
                    FacadeErrorView::Replay(
                        ReplayError::CapacityExhausted {
                            records: (place % 0x1_0000_0000) as u32,
                            bytes: ledger.payload_bytes,
                        },
                    ),
                ),
            ),
            ..plan
        }
    } else {
        match standing_of(ledger, key) {
            KeyStandingView::Settled(_) => RecoveryPlanView {
                settled: plan.settled.push(key),
                ..plan
            },
            KeyStandingView::Replayable => RecoveryPlanView {
                replayable: plan.replayable.push(key),
                ..plan
            },
            KeyStandingView::Blocked(error) => RecoveryPlanView {
                blocked: plan.blocked.push((key, error)),
                ..plan
            },
        }
    }
}

/// What a bounded replay pass over `keys` may do.
pub open spec fn plan_of(ledger: Ledger, keys: Seq<Seq<char>>) -> RecoveryPlanView
    decreases keys.len(),
{
    if keys.len() == 0 {
        RecoveryPlanView {
            settled: Seq::empty(),
            replayable: Seq::empty(),
            blocked: Seq::empty(),
        }
    } else {
        planned(
            plan_of(ledger, keys.drop_last()),
            ledger,
            keys.last(),
            (keys.len() - 1) as nat,
        )
    }
}

impl<L: ReplayLog> MutationJournal<L> {
    /// What this journal holds.
    pub closed spec fn content(&self) -> JournalView {
        JournalView {
            ledger: self.log.ledger(),
            run: self.run,
            durability: self.durability,
            keys: self.admitted_keys@,
        }
    }

    /// A journal for `run` over `log`.
    pub fn new(run: RunId, log: L, durability: Durability) -> (r: Self)
        ensures
            r.content() == (JournalView {
                ledger: log.ledger(),
                run,
                durability,
                keys: Set::empty(),
            }),
    {
        MutationJournal { log, run, durability, admitted_keys: KeySet::new() }
    }

    /// The underlying log.
    pub fn log(&self) -> (r: &L)
        ensures
            r.ledger() == self.content().ledger,
    {
        &self.log
    }

    /// The underlying log, mutably.
    pub fn log_mut(&mut self) -> (r: &mut L)
        ensures
            r.ledger() == old(self).content().ledger,
            final(self).content() == (JournalView {
                ledger: final(r).ledger(),
                ..old(self).content()
            }),
    {
        &mut self.log
    }

    /// Whether records here reach a persistence boundary.
    pub fn durability(&self) -> (r: Durability)
        ensures
            r == self.content().durability,
    {
        self.durability
    }

    /// Current occupancy of the bounded buffer.
    pub fn pressure(&self) -> (r: Backpressure)
        ensures
            r == ledger_pressure(self.content().ledger),
    {
        self.log.pressure()
    }

    /// Keys this journal admitted and has not retired, in key order.
    pub fn admitted_keys(&self) -> (r: &Vec<IdempotencyKey>)
        ensures
            rising(seq_view(r@)),
            seq_view(r@).to_set() == self.content().keys,
    {
        self.admitted_keys.items()
    }

    /// Record a mutation's intent, payload and epoch, and then authorise dispatch.
    ///
    /// The writer epoch comes from the [`Admitted`] proof, so a mutation cannot be
    /// journalled under an epoch its session was never granted.
    pub fn begin(&mut self, admitted: &Admitted, request: &MutationRequest) -> (r: Result<
        Acknowledged,
        FacadeError,
    >)
        ensures
            (res_view(r), final(self).content()) == begin_run(
                old(self).content(),
                admitted@,
                request@,
            ),
    {
        if !admitted.run().same(&self.run) {
            return Err(
                unproven_error(
                    join3(
                        "admission is for run ",
                        admitted.run().text().as_str(),
                        " but this journal records run ",
                    ).concat(self.run.text().as_str()).as_str(),
                ),
            );
        }
        let pressure = self.log.pressure();
        if pressure.would_exceed(request.payload.retained_len()) {
            return Err(
                FacadeError::Replay(
                    ReplayError::CapacityExhausted {
                        records: pressure.records,
                        bytes: pressure.payload_bytes,
                    },
                ),
            );
        }
        let intent = ReplayIntent {
            run_id: self.run,
            operation: request.operation,
            key: request.key.clone(),
            epoch: admitted.epoch(),
            kind: request.kind.clone(),
            payload: request.payload.clone(),
        };
        proof {
            assert(intent@ == intent_of(self.run, admitted@.epoch, request@));
        }
        match self.log.admit_intent(&intent) {
            Err(error) => Err(FacadeError::Replay(error)),
            Ok(Admission::Recorded(outcome)) => Ok(Acknowledged::Replayed(outcome)),
            Ok(Admission::Indeterminate) => Ok(Acknowledged::Indeterminate),
            Ok(Admission::Fresh) => {
                self.admitted_keys.insert(request.key.clone());
                Ok(
                    Acknowledged::Dispatch(
                        DispatchTicket {
                            run: self.run,
                            operation: request.operation,
                            key: request.key.clone(),
                            epoch: admitted.epoch(),
                        },
                    ),
                )
            },
        }
    }

    /// Settle the committed result for a dispatch.
    ///
    /// Consumes the ticket: one dispatch settles once, and a settled outcome is
    /// never rewritten.
    pub fn settle(&mut self, ticket: DispatchTicket, result: CommittedResult) -> (r: Result<
        (),
        FacadeError,
    >)
        ensures
            res_view(r) == (match record_answer(old(self).content().ledger, ticket@.key) {
                Ok(()) => Ok::<(), FacadeErrorView>(()),
                Err(error) => Err(FacadeErrorView::Replay(error)),
            }),
            final(self).content() == (JournalView {
                ledger: after_record(
                    old(self).content().ledger,
                    ticket@.key,
                    outcome_of(ticket@, result@, old(self).content().durability),
                ),
                ..old(self).content()
            }),
    {
        let outcome = match result {
            CommittedResult::Completed(write) => ReplayOutcome::Completed(write),
            CommittedResult::Failed(error) => ReplayOutcome::Failed(
                RetainedError::record(
                    ticket.operation,
                    ticket.key.clone(),
                    error,
                    self.durability == Durability::Durable,
                ),
            ),
        };
        match self.log.record(&ticket.key, outcome) {
            Ok(()) => Ok(()),
            Err(error) => Err(FacadeError::Replay(error)),
        }
    }

    /// Read one record back.
    pub fn record(&self, key: &IdempotencyKey) -> (r: Option<&ReplayRecord>)
        ensures
            match r {
                Some(record) => self.content().ledger.records.contains_key(key@)
                    && self.content().ledger.records[key@] == record@,
                None => !self.content().ledger.records.contains_key(key@),
            },
    {
        self.log.get(key)
    }

    /// Note the verifier a WRITE returned, for later COMMIT comparison.
    pub fn note_write_verifier(&mut self, key: &IdempotencyKey, verifier: WriteVerifier)
        ensures
            final(self).content() == (JournalView {
                ledger: Ledger {
                    verifiers: old(self).content().ledger.verifiers.insert(key@, verifier),
                    ..old(self).content().ledger
                },
                ..old(self).content()
            }),
    {
        self.log.note_write_verifier(key, verifier);
    }

    /// Compare a COMMIT verifier against the one recorded for `key`.
    pub fn check_commit_verifier(&self, key: &IdempotencyKey, observed: WriteVerifier) -> (r:
        VerifierMatch)
        ensures
            r == verifier_match(noted_verifier(self.content().ledger, key@), observed),
    {
        self.log.check_commit_verifier(key, observed)
    }

    /// Release a settled, durable record and its budget.
    pub fn retire(&mut self, key: &IdempotencyKey) -> (r: Result<(), FacadeError>)
        ensures
            match retire_answer(old(self).content().ledger, key@) {
                Err(error) => {
                    &&& res_view(r) == Err::<(), FacadeErrorView>(FacadeErrorView::Replay(error))
                    &&& final(self).content() == old(self).content()
                },
                Ok(()) => {
                    &&& r is Ok
                    &&& final(self).content() == (JournalView {
                        ledger: after_retire(old(self).content().ledger, key@),
                        keys: old(self).content().keys.remove(key@),
                        ..old(self).content()
                    })
                },
            },
    {
        match self.log.retire(key) {
            Err(error) => Err(FacadeError::Replay(error)),
            Ok(()) => {
                self.admitted_keys.remove(key);
                Ok(())
            },
        }
    }

    /// How one key stands against the durable evidence.
    pub fn standing(&self, key: &IdempotencyKey) -> (r: KeyStanding)
        ensures
            r@ == standing_of(self.content().ledger, key@),
    {
        let record = match self.log.get(key) {
            // No intent at all: whether anything happened is unknown.
            None => {
                return KeyStanding::Blocked(FacadeError::Replay(ReplayError::Indeterminate));
            },
            Some(record) => record,
        };
        if let Some(outcome) = &record.outcome {
            return KeyStanding::Settled(outcome.clone());
        }
        match &record.intent.kind {
            IntentKind::Write { .. } => match &record.intent.payload {
                Payload::Inline(_) => KeyStanding::Replayable,
                _ => KeyStanding::Blocked(FacadeError::Replay(ReplayError::PayloadMissing)),
            },
            // The range and the verifier are both in the intent.
            IntentKind::Commit { .. } => KeyStanding::Replayable,
            IntentKind::ExclusiveCreate { .. } => KeyStanding::Replayable,
            // A name is no proof of before and after.
            IntentKind::Namespace { .. } => KeyStanding::Blocked(
                FacadeError::Replay(ReplayError::Indeterminate),
            ),
        }
    }

    /// Sort `keys` into what a bounded replay pass may do.
    pub fn plan_recovery(&self, keys: &Vec<IdempotencyKey>) -> (r: RecoveryPlan)
        ensures
            r@ == plan_of(self.content().ledger, seq_view(keys@)),
    {
        let mut settled: Vec<IdempotencyKey> = Vec::new();
        let mut replayable: Vec<IdempotencyKey> = Vec::new();
        let mut blocked: Vec<(IdempotencyKey, FacadeError)> = Vec::new();
        let pressure = self.log.pressure();
        let ghost names = seq_view(keys@);
        let ghost ledger = self.content().ledger;
        let mut i: usize = 0;
        proof {
            assert(names.take(0) =~= Seq::<Seq<char>>::empty());
            assert(seq_view(settled@) =~= Seq::<Seq<char>>::empty());
            assert(seq_view(replayable@) =~= Seq::<Seq<char>>::empty());
            assert(seq_view(blocked@) =~= Seq::<(Seq<char>, FacadeErrorView)>::empty());
        }
        while i < keys.len()
            invariant
                i <= keys@.len(),
                names == seq_view(keys@),
                ledger == self.content().ledger,
                pressure == ledger_pressure(ledger),
                (RecoveryPlanView {
                    settled: seq_view(settled@),
                    replayable: seq_view(replayable@),
                    blocked: seq_view(blocked@),
                }) == plan_of(ledger, names.take(i as int)),
            decreases keys@.len() - i,
        {
            let key = &keys[i];
            let ghost before = RecoveryPlanView {
                settled: seq_view(settled@),
                replayable: seq_view(replayable@),
                blocked: seq_view(blocked@),
            };
            let ghost name = key@;
            proof {
                let so_far = names.take(i + 1);
                assert(so_far.drop_last() =~= names.take(i as int));
                assert(so_far.last() == name);
            }
            if i as u64 >= pressure.budget.max_records as u64 {
                let records: u32 = (i as u64 % 0x1_0000_0000) as u32;
                let error = FacadeError::Replay(
                    ReplayError::CapacityExhausted { records, bytes: pressure.payload_bytes },
                );
                let ghost reason = error@;
                blocked.push((key.clone(), error));
                proof {
                    assert(seq_view(blocked@) =~= before.blocked.push((name, reason)));
                }
            } else {
                match self.standing(key) {
                    KeyStanding::Settled(_) => {
                        settled.push(key.clone());
                        proof {
                            assert(seq_view(settled@) =~= before.settled.push(name));
                        }
                    },
                    KeyStanding::Replayable => {
                        replayable.push(key.clone());
                        proof {
                            assert(seq_view(replayable@) =~= before.replayable.push(name));
                        }
                    },
                    KeyStanding::Blocked(error) => {
                        let ghost reason = error@;
                        blocked.push((key.clone(), error));
                        proof {
                            assert(seq_view(blocked@) =~= before.blocked.push((name, reason)));
                        }
                    },
                }
            }
            i += 1;
        }
        proof {
            assert(names.take(names.len() as int) =~= names);
        }
        RecoveryPlan { settled, replayable, blocked }
    }
}

/// A ticket exists only for an intent that is in the ledger, unsettled, under the
/// epoch the session was granted.
pub proof fn a_ticket_proves_a_recorded_intent(
    journal: JournalView,
    admitted: AdmittedView,
    request: MutationRequestView,
)
    ensures
        begin_run(journal, admitted, request).0 matches Ok(AcknowledgedView::Dispatch(ticket))
            ==> {
            let after = begin_run(journal, admitted, request).1;
            &&& after.ledger.records.contains_key(ticket.key)
            &&& after.ledger.records[ticket.key].outcome is None
            &&& after.ledger.records[ticket.key].intent.epoch == admitted.epoch
            &&& ticket.epoch == admitted.epoch
            &&& ticket.run == admitted.run
            &&& after.keys.contains(ticket.key)
        },
{
}

/// A request that is refused records nothing.
pub proof fn a_refused_request_records_nothing(
    journal: JournalView,
    admitted: AdmittedView,
    request: MutationRequestView,
)
    ensures
        begin_run(journal, admitted, request).0 is Err ==> begin_run(journal, admitted, request).1
            == journal,
{
}

/// A plan accounts for every key it was given, once each.
pub proof fn a_plan_accounts_for_every_key(ledger: Ledger, keys: Seq<Seq<char>>)
    ensures
        plan_len(plan_of(ledger, keys)) == keys.len(),
    decreases keys.len(),
{
    if keys.len() > 0 {
        a_plan_accounts_for_every_key(ledger, keys.drop_last());
    }
}

/// No key is replayed that has a settled outcome, and no write is replayed without
/// its bytes.
pub proof fn only_a_rebuildable_key_is_replayable(ledger: Ledger, key: Seq<char>)
    ensures
        standing_of(ledger, key) is Replayable ==> {
            &&& ledger.records.contains_key(key)
            &&& ledger.records[key].outcome is None
            &&& ledger.records[key].intent.kind is Write ==> ledger.records[key].intent.payload
                is Inline
            &&& !(ledger.records[key].intent.kind is Namespace)
        },
{
}

} // verus!
