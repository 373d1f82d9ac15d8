//! Durable intents and what a recovery may do with them.
use uuid::Uuid;

use umbra_storage_nfs_userspace::authority::{
    Acknowledged, AdmissionControl, AdmissionRequest, Admitted, CommittedResult, Durability,
    MemoryMarkerStore, MutationJournal, MutationRequest, WriterToken,
};
use umbra_storage_nfs_userspace::contract::{IdempotencyKey, OperationId, RunId, WriterId};
use umbra_storage_nfs_userspace::error::{
    AuthorityError, ErrorClass, FacadeError, Nfs4Status, ReplayError,
};
use umbra_storage_nfs_userspace::fake::FakeReplayLog;
use umbra_storage_nfs_userspace::handle::ObjectIdentity;
use umbra_storage_nfs_userspace::replay::{IntentKind, Payload, ReplayBudget, ReplayOutcome};
use umbra_storage_nfs_userspace::transport::{Fsid, OpCode, Stability};

fn run() -> RunId {
    RunId(*Uuid::from_u128(0x11).as_bytes())
}

fn admitted() -> Admitted {
    let mut control = AdmissionControl::new(run(), MemoryMarkerStore::empty());
    control
        .acquire(&AdmissionRequest::cooperative(
            WriterId("journal-test".into()),
            WriterToken([1; 16]),
        ))
        .admitted()
        .expect("first acquirer")
}

fn object() -> ObjectIdentity {
    ObjectIdentity {
        fsid: Fsid { major: 1, minor: 2 },
        fileid: 7,
    }
}

fn write_request(key: &str, payload: Payload) -> MutationRequest {
    MutationRequest {
        operation: OperationId(*Uuid::from_u128(0xABCD).as_bytes()),
        key: IdempotencyKey(key.into()),
        kind: IntentKind::Write {
            object: object(),
            offset: 0,
            stability: Stability::Unstable,
        },
        payload,
    }
}

fn journal(budget: ReplayBudget) -> MutationJournal<FakeReplayLog> {
    MutationJournal::new(run(), FakeReplayLog::new(budget), Durability::Volatile)
}

fn default_budget() -> ReplayBudget {
    ReplayBudget {
        max_records: 8,
        max_payload_bytes: 4096,
    }
}

#[test]
fn the_intent_is_recorded_before_the_ticket_exists() {
    let mut journal = journal(default_budget());
    let admitted = admitted();
    let request = write_request("k1", Payload::Inline(b"bytes".to_vec()));
    let Acknowledged::Dispatch(ticket) = journal
        .begin(&admitted, &request)
        .expect("fresh intent is admitted")
    else {
        panic!("expected a dispatch ticket");
    };
    let record = journal.record(ticket.key()).expect("intent is recorded");
    assert_eq!(record.intent.epoch, admitted.epoch());
    assert_eq!(record.intent.payload.bytes(), Some(&b"bytes"[..]));
    assert!(record.outcome.is_none(), "nothing settled before dispatch");
}

#[test]
fn a_settled_key_replays_its_recorded_answer_including_a_failure() {
    let mut journal = journal(default_budget());
    let admitted = admitted();
    let request = write_request("k1", Payload::Inline(b"bytes".to_vec()));
    let Acknowledged::Dispatch(ticket) = journal.begin(&admitted, &request).expect("admit")
    else {
        panic!("expected a ticket");
    };
    let enospc = FacadeError::protocol(
        Nfs4Status(Nfs4Status::NOSPC),
        OpCode::Write,
        1,
    );
    journal
        .settle(ticket, CommittedResult::Failed(enospc.clone()))
        .expect("settle");

    let Acknowledged::Replayed(ReplayOutcome::Failed(retained)) =
        journal.begin(&admitted, &request).expect("retry")
    else {
        panic!("a settled key must replay its recorded answer");
    };
    assert_eq!(retained.error(), &enospc);
    assert_eq!(
        retained.error().status(),
        Some(Nfs4Status(Nfs4Status::NOSPC)),
        "the verbatim status survives the round trip"
    );
    assert!(
        !retained.is_durable(),
        "an in-memory log must not claim durability"
    );
}

#[test]
fn backpressure_refuses_before_the_intent_is_admitted() {
    let mut journal = journal(ReplayBudget {
        max_records: 8,
        max_payload_bytes: 4,
    });
    let admitted = admitted();
    let error = journal
        .begin(
            &admitted,
            &write_request("big", Payload::Inline(vec![0; 5])),
        )
        .expect_err("an oversized payload must be refused");
    assert!(matches!(
        error,
        FacadeError::Replay(ReplayError::CapacityExhausted { .. })
    ));
    assert_eq!(error.class(), ErrorClass::Retriable);
    assert_eq!(
        journal.record(&IdempotencyKey("big".into())),
        None,
        "the refused intent must not have been recorded"
    );
}

#[test]
fn a_digest_only_write_is_blocked_and_never_reconstructed() {
    let mut journal = journal(default_budget());
    let admitted = admitted();
    let request = write_request(
        "digest",
        Payload::Digest {
            digest: [0; 32],
            len: 64,
            source: "somewhere else".into(),
        },
    );
    journal.begin(&admitted, &request).expect("admit");
    let plan = journal.plan_recovery(journal.admitted_keys());
    assert_eq!(plan.replayable, Vec::new());
    assert_eq!(plan.blocked.len(), 1);
    assert!(matches!(
        plan.blocked[0].1,
        FacadeError::Replay(ReplayError::PayloadMissing)
    ));
    assert_eq!(plan.blocked[0].1.class(), ErrorClass::SafeStop);
}

#[test]
fn an_inline_write_is_replayable_after_a_lost_reply() {
    let mut journal = journal(default_budget());
    let admitted = admitted();
    journal
        .begin(
            &admitted,
            &write_request("k", Payload::Inline(vec![1, 2, 3])),
        )
        .expect("admit");
    let plan = journal.plan_recovery(journal.admitted_keys());
    assert_eq!(plan.replayable, vec![IdempotencyKey("k".into())]);
    assert!(plan.is_clean());
}

#[test]
fn an_admission_for_another_run_cannot_journal_here() {
    let mut journal = MutationJournal::new(
        RunId(*Uuid::from_u128(0x22).as_bytes()),
        FakeReplayLog::new(default_budget()),
        Durability::Volatile,
    );
    let error = journal
        .begin(&admitted(), &write_request("k", Payload::NoPayload))
        .expect_err("cross-run admission must be refused");
    assert!(matches!(
        error,
        FacadeError::Authority(AuthorityError::IdentityUnproven(_))
    ));
}
