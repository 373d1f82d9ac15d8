//! Admission over a marker kept on the server, and contended successions.
#![allow(dead_code)]
use uuid::Uuid;

use umbra_storage_nfs_userspace::authority::{
    AdmissionControl, AdmissionMarker, AdmissionOutcome, AdmissionPhase, AdmissionRequest,
    ExclusiveCreate, MarkerError, MarkerStore, MemoryMarkerStore, OutstandingIo, ReleaseOutcome,
    ServerMarkerStore, WriterToken,
};
use umbra_storage_nfs_userspace::contract::{BytePath, LeaseEpoch, RunId, WriterId};
use umbra_storage_nfs_userspace::error::{AuthorityError, FacadeError, TransportError};
use umbra_storage_nfs_userspace::fake::FakeTransport;
use umbra_storage_nfs_userspace::handle::{ClientId, FileHandle, Session, SessionId};
use umbra_storage_nfs_userspace::layout::{PRIVATE_DIR, WRITER_LOCK_FILE};
use umbra_storage_nfs_userspace::state::open_owner::OpenOwnerRegistry;
use umbra_storage_nfs_userspace::storage::NfsUserspaceConfig;
use umbra_storage_nfs_userspace::transport::{ComponentName, ConnectionEpoch, Deadline};

const EXPORT: &[u8] = b"exports/umbra";
const RUN_PARENT: &[u8] = b"runs";
const RUN_UUID: &str = "0a1b2c3d-4e5f-4a6b-8c7d-9e0f1a2b3c4d";

fn run_id() -> RunId {
    RunId(*Uuid::parse_str(RUN_UUID).expect("pinned run uuid").as_bytes())
}

fn config() -> NfsUserspaceConfig {
    NfsUserspaceConfig {
        host: b"127.0.0.1".to_vec(),
        port: 12108,
        export: BytePath::new(EXPORT.to_vec()).expect("export path"),
        run_parent: BytePath::new(RUN_PARENT.to_vec()).expect("run parent"),
        root_anchor: BytePath::new(b"root".to_vec()).expect("root anchor"),
        control_anchor: BytePath::new(b"control".to_vec()).expect("control anchor"),
        deadline: Deadline { millis: 5_000 },
    }
}

struct Layout {
    run: FileHandle,
    root: FileHandle,
    control: FileHandle,
}

fn server() -> (FakeTransport, Layout) {
    let mut fake = FakeTransport::new();
    let mut current = fake.root();
    for component in EXPORT.split(|byte| *byte == b'/') {
        current = fake.insert_directory(&current, component);
    }
    current = fake.insert_directory(&current, RUN_PARENT);
    let run = fake.insert_directory(&current, RUN_UUID.as_bytes());
    let root = fake.insert_directory(&run, b"root");
    let control = fake.insert_directory(&run, b"control");
    fake.insert_directory(&run, PRIVATE_DIR.as_bytes());
    (fake, Layout { run, root, control })
}

fn owners() -> OpenOwnerRegistry {
    OpenOwnerRegistry::new(
        Session::establish(SessionId(1), ClientId(7), ConnectionEpoch(1)),
        b"umbra/fixture".to_vec(),
    )
}

fn lock() -> ComponentName {
    ComponentName::new(WRITER_LOCK_FILE.as_bytes().to_vec()).expect("component")
}

fn asks(label: &str, token: u8) -> AdmissionRequest {
    AdmissionRequest::cooperative(WriterId(label.into()), WriterToken([token; 16]))
}

#[test]
fn a_server_marker_admits_denies_and_hands_over() {
    let (mut fake, layout) = server();
    let mut owners = owners();
    let deadline = Deadline { millis: 5_000 };
    {
        let store =
            ServerMarkerStore::new(&mut fake, &mut owners, layout.run.clone(), lock(), deadline);
        let mut control = AdmissionControl::new(run_id(), store);
        assert_eq!(control.inspect().expect("read"), None);
        let admitted = control.acquire(&asks("first", 1)).admitted().expect("admitted");
        assert_eq!(admitted.epoch(), LeaseEpoch(1));
        assert_eq!(admitted.writer().0, "first");
        assert_eq!(admitted.token().as_bytes(), &[1; 16]);
        let outcome = control.acquire(&asks("second", 2));
        match outcome {
            AdmissionOutcome::Denied { holder, holder_epoch, error } => {
                assert_eq!(holder, Some(WriterId("first".into())));
                assert_eq!(holder_epoch, LeaseEpoch(1));
                assert_eq!(
                    error.text(),
                    "authority: admission refused: run 0a1b2c3d-4e5f-4a6b-8c7d-9e0f1a2b3c4d is \
                     held by first at LeaseEpoch(1); a held marker is never taken over on a timeout"
                );
            }
            other => panic!("a held marker denies, not {other:?}"),
        }
        assert!(matches!(
            control.release(admitted, OutstandingIo::Excluded),
            ReleaseOutcome::Released { epoch: LeaseEpoch(1) }
        ));
    }
    let store =
        ServerMarkerStore::new(&mut fake, &mut owners, layout.run.clone(), lock(), deadline);
    let mut control = AdmissionControl::new(run_id(), store);
    let marker = control.inspect().expect("read").expect("present");
    assert_eq!(marker.phase(), AdmissionPhase::Released);
    let next = control.acquire(&asks("second", 2)).admitted().expect("succeeds");
    assert_eq!(next.epoch(), LeaseEpoch(2));
    assert_eq!(control.highest_epoch_seen(), LeaseEpoch(2));
    assert_eq!(control.takeover(), FacadeError::Authority(AuthorityError::TakeoverRefused));
}

#[test]
fn the_server_grants_one_claim_per_epoch() {
    let (mut fake, layout) = server();
    let mut owners = owners();
    let mut store = ServerMarkerStore::new(
        &mut fake,
        &mut owners,
        layout.run.clone(),
        lock(),
        Deadline { millis: 5_000 },
    );
    assert_eq!(store.read().expect("nothing yet"), None);
    assert!(store.overwrite(b"x").is_err(), "there is nothing to replace");
    assert_eq!(store.create_exclusive(b"one").expect("created"), ExclusiveCreate::Created);
    assert_eq!(store.create_exclusive(b"two").expect("answered"), ExclusiveCreate::Exists);
    assert_eq!(store.read().expect("read"), Some(b"one".to_vec()));
    let epoch = LeaseEpoch(7);
    assert_eq!(store.claim_succession(epoch).expect("claimed"), ExclusiveCreate::Created);
    assert_eq!(store.claim_succession(epoch).expect("answered"), ExclusiveCreate::Exists);
    assert_eq!(
        store.claim_succession(LeaseEpoch(8)).expect("claimed"),
        ExclusiveCreate::Created
    );
}

#[test]
fn a_contender_that_lost_the_claim_is_denied() {
    let mut store = MemoryMarkerStore::empty();
    let mut control = AdmissionControl::new(run_id(), &mut store);
    let admitted = control.acquire(&asks("first", 1)).admitted().expect("admitted");
    control.release(admitted, OutstandingIo::Excluded);
    assert_eq!(
        control.store_mut().claim_succession(LeaseEpoch(2)).expect("a rival claims"),
        ExclusiveCreate::Created
    );
    match control.acquire(&asks("late", 3)) {
        AdmissionOutcome::Denied { holder, holder_epoch, error } => {
            assert_eq!(holder, None);
            assert_eq!(holder_epoch, LeaseEpoch(2));
            assert!(error.text().contains("claimed that epoch first"));
        }
        other => panic!("a lost claim denies, not {other:?}"),
    }
    let marker = control.inspect().expect("read").expect("present");
    assert_eq!(marker.phase(), AdmissionPhase::Released, "the release evidence stands");
}

#[test]
fn a_failed_release_keeps_the_proof_and_an_exhausted_ladder_refuses() {
    let mut control = AdmissionControl::new(run_id(), MemoryMarkerStore::empty());
    let admitted = control.acquire(&asks("first", 1)).admitted().expect("admitted");
    control
        .store_mut()
        .fail_next(FacadeError::Transport(TransportError::Connect("down".into())));
    match control.release(admitted, OutstandingIo::Excluded) {
        ReleaseOutcome::Retained { admitted, error } => {
            assert_eq!(admitted.epoch(), LeaseEpoch(1));
            assert_eq!(error.text(), "transport: connect failed: down");
        }
        other => panic!("a failed write releases nothing, not {other:?}"),
    }

    let last = AdmissionMarker::new(
        WriterToken([5; 16]),
        WriterId("last".into()),
        LeaseEpoch(u64::MAX),
        AdmissionPhase::Released,
    );
    let store = MemoryMarkerStore::holding(last.encode().expect("fits"));
    let mut control = AdmissionControl::new(run_id(), store);
    let outcome = control.acquire(&asks("next", 1));
    assert_eq!(
        outcome.error().expect("refused").text(),
        "authority: object identity unproven: admission epoch would overflow; refusing rather \
         than wrapping"
    );
    let outcome = control.acquire(&asks(&"w".repeat(221), 1));
    assert_eq!(
        outcome.error().expect("refused").text(),
        "authority: object identity unproven: writer id is 221 bytes; a marker record holds at \
         most 220"
    );
}

#[test]
fn marker_bytes_are_laid_out_as_documented() {
    let marker = AdmissionMarker::new(
        WriterToken([0xAA; 16]),
        WriterId("w1".into()),
        LeaseEpoch(0x0102),
        AdmissionPhase::Released,
    );
    let bytes = marker.encode().expect("fits");
    assert_eq!(&bytes[..8], b"UMBRAWRL");
    assert_eq!(&bytes[8..10], &[1, 2]);
    assert_eq!(&bytes[10..18], &[2, 1, 0, 0, 0, 0, 0, 0]);
    assert_eq!(&bytes[18..34], &[0xAA; 16]);
    assert_eq!(&bytes[34..38], &[2, 0, b'w', b'1']);
    assert!(bytes[38..].iter().all(|byte| *byte == 0));

    let mut invalid = bytes.clone();
    invalid[36] = 0xFF;
    assert_eq!(
        AdmissionMarker::decode(&invalid).unwrap_err(),
        MarkerError::Malformed(
            "writer id is not UTF-8: invalid utf-8 sequence of 1 bytes from index 0".into()
        )
    );
    let mut long = bytes.clone();
    long[35] = 1;
    assert_eq!(
        AdmissionMarker::decode(&long).unwrap_err().text(),
        "admission marker is malformed: writer id declares 258 bytes, more than the 220 a record \
         holds"
    );
    let mut newer = bytes;
    newer[8] = 9;
    assert_eq!(
        AdmissionMarker::decode(&newer).unwrap_err().text(),
        "admission marker is malformed: unsupported marker version 9"
    );
}

