//! The in-memory server and replay log.
use uuid::Uuid;

use umbra_storage_nfs_userspace::contract::{IdempotencyKey, LeaseEpoch, OperationId, RunId};
use umbra_storage_nfs_userspace::error::{FacadeError, Nfs4Status, ReplayError, TransportError};
use umbra_storage_nfs_userspace::fake::{FakeReplayLog, FakeTransport, ScriptedFault};
use umbra_storage_nfs_userspace::handle::{ClientId, OpenOwner, Session, SessionId, Stateid};
use umbra_storage_nfs_userspace::replay::{
    Admission, CompletedWrite, IntentKind, Payload, ReplayBudget, ReplayIntent, ReplayLog,
    ReplayOutcome, VerifierMatch,
};
use umbra_storage_nfs_userspace::transport::{
    AttrMask, ComponentName, ConnectionEpoch, Deadline, DelegationType, FaultAction, FaultPoint,
    OpenArgs, OpenClaim, OpenHow, RawTransport, ShareAccess, ShareDeny, Stability, Verifier,
    WriteVerifier,
};

fn deadline() -> Deadline {
    Deadline { millis: 1_000 }
}

fn owner() -> OpenOwner {
    Session::establish(
        SessionId(1),
        ClientId(1),
        ConnectionEpoch(1),
    )
    .open_owner(b"owner".to_vec())
    .expect("a fresh session mints owners")
}

#[test]
fn the_fake_answers_the_shape_helpers_the_real_transport_will() {
    let mut transport = FakeTransport::new();
    let root = transport.root();
    let dir = transport.insert_directory(&root, b"run");
    transport.insert_file(&dir, b"\xffname", b"hello".to_vec());

    let fetched = transport.root_filehandle(deadline()).unwrap();
    assert_eq!(fetched.as_bytes(), root.as_bytes());

    let name = ComponentName::new(b"\xffname".to_vec()).unwrap();
    let (handle, attrs) = transport
        .lookup(&dir, &name, AttrMask(AttrMask::STAT), deadline())
        .unwrap();
    assert_eq!(attrs.size, Some(5));
    let read = transport
        .read(&handle, Stateid::anonymous(), 1, 3, deadline())
        .unwrap();
    assert_eq!(read.data, b"ell");
}

#[test]
fn short_writes_and_verifiers_are_reported_as_they_happen() {
    let mut transport = FakeTransport::new();
    let root = transport.root();
    let file = transport.insert_file(&root, b"data", Vec::new());
    transport.set_write_cap(Some(2));
    let write = transport
        .write(
            &file,
            Stateid::anonymous(),
            0,
            Stability::Unstable,
            vec![1, 2, 3, 4],
            deadline(),
        )
        .unwrap();
    assert_eq!(write.count, 2);
    assert_eq!(write.committed, Stability::Unstable);

    transport.rotate_write_verifier(WriteVerifier([0xFF; 8]));
    let commit = transport.commit(&file, 0, 0, deadline()).unwrap();
    assert_eq!(
        VerifierMatch::compare(Some(write.verifier), commit.verifier),
        VerifierMatch::Changed {
            recorded: write.verifier,
            observed: commit.verifier
        }
    );
}

#[test]
fn exclusive_create_distinguishes_replay_from_collision() {
    let mut transport = FakeTransport::new();
    let root = transport.root();
    let args = |verifier: u8| OpenArgs {
        seqid: 0,
        share_access: ShareAccess::BOTH,
        share_deny: ShareDeny::NONE,
        owner: owner(),
        how: OpenHow::Exclusive {
            verifier: Verifier([verifier; 8]),
        },
        claim: OpenClaim::Null {
            name: ComponentName::new(b"exclusive".to_vec()).unwrap(),
        },
    };
    let (first, handle) = transport.open(&root, args(1), deadline()).unwrap();
    assert!(first.confirm_required, "a fresh owner must confirm");
    assert_eq!(
        transport.open(&root, args(1), deadline()).unwrap().1,
        handle
    );
    let collision = transport.open(&root, args(2), deadline()).unwrap_err();
    assert_eq!(collision.status(), Some(Nfs4Status(Nfs4Status::EXIST)));
}

#[test]
fn claim_previous_is_refused_outside_grace_and_no_v41_reclaim_exists() {
    let mut transport = FakeTransport::new();
    let root = transport.root();
    let args = OpenArgs {
        seqid: 0,
        share_access: ShareAccess::READ,
        share_deny: ShareDeny::NONE,
        owner: owner(),
        how: OpenHow::NoCreate,
        claim: OpenClaim::Previous {
            delegate_type: DelegationType::NoDelegation,
        },
    };
    assert_eq!(
        transport
            .open(&root, args.clone(), deadline())
            .unwrap_err()
            .status(),
        Some(Nfs4Status(Nfs4Status::NO_GRACE))
    );
    transport.set_grace(true);
    assert!(transport.open(&root, args, deadline()).is_ok());
}

#[test]
fn a_dropped_reply_retires_its_registration_before_reporting_a_deadline() {
    let mut transport = FakeTransport::new();
    transport.install_faults(ScriptedFault::once(
        FaultPoint::OnDeadline,
        None,
        FaultAction::DropReply,
    ));
    let error = transport.root_filehandle(deadline()).unwrap_err();
    match error {
        FacadeError::Transport(TransportError::DeadlineExpired { retirement }) => {
            assert!(retirement.drained());
        }
        other => panic!("expected a deadline failure, got {other:?}"),
    }
    assert_eq!(transport.live_calls(), 0, "no registration may survive");
}

#[test]
fn a_recorded_outcome_is_returned_verbatim_and_never_redispatched() {
    let mut log = FakeReplayLog::default();
    let intent = ReplayIntent {
        run_id: RunId([0u8; 16]),
        operation: OperationId([0u8; 16]),
        key: IdempotencyKey("write-1".into()),
        epoch: LeaseEpoch(1),
        kind: IntentKind::Namespace {
            operation: "create".into(),
        },
        payload: Payload::Inline(vec![7; 16]),
    };
    assert_eq!(log.admit_intent(&intent).unwrap(), Admission::Fresh);
    assert_eq!(log.admit_intent(&intent).unwrap(), Admission::Indeterminate);
    let outcome = ReplayOutcome::Completed(CompletedWrite {
        count: 16,
        committed: Stability::FileSync,
        verifier: None,
    });
    log.record(&intent.key, outcome.clone()).unwrap();
    assert_eq!(log.admit_intent(&intent).unwrap(), Admission::Recorded(outcome));
    assert_eq!(log.pressure().payload_bytes, 16);
    log.retire(&intent.key).unwrap();
    assert_eq!(log.pressure().payload_bytes, 0);
}

#[test]
fn capacity_exhaustion_refuses_before_dispatch() {
    let mut log = FakeReplayLog::new(ReplayBudget {
        max_records: 1,
        max_payload_bytes: 8,
    });
    let intent = |n: u8| ReplayIntent {
        run_id: RunId([0u8; 16]),
        operation: OperationId(*Uuid::from_u128(n as u128).as_bytes()),
        key: IdempotencyKey(format!("key-{n}")),
        epoch: LeaseEpoch(1),
        kind: IntentKind::Namespace {
            operation: "create".into(),
        },
        payload: Payload::Inline(vec![0; 4]),
    };
    assert_eq!(log.admit_intent(&intent(1)).unwrap(), Admission::Fresh);
    assert!(matches!(
        log.admit_intent(&intent(2)),
        Err(ReplayError::CapacityExhausted { .. })
    ));
}
