//! Create, read, write and commit over the in-memory server.
#![allow(dead_code)]
use uuid::Uuid;

use umbra_storage_nfs_userspace::contract::{
    BytePath, IdempotencyKey, LeaseEpoch, OperationId, RequestContext, RunId,
};
use umbra_storage_nfs_userspace::crud::{
    read_anonymous, CreateDisposition, MutationIdentity, OpenObject, WriteAt,
};
use umbra_storage_nfs_userspace::error::{
    AuthorityError, FacadeError, FacadeResult, Nfs4Status, ReplayError,
};
use umbra_storage_nfs_userspace::fake::{FakeReplayLog, FakeTransport};
use umbra_storage_nfs_userspace::handle::{ClientId, FileHandle, Session, SessionId};
use umbra_storage_nfs_userspace::identity::PinnedObject;
use umbra_storage_nfs_userspace::layout::PRIVATE_DIR;
use umbra_storage_nfs_userspace::replay::{ReplayLog, VerifierMatch};
use umbra_storage_nfs_userspace::state::open_owner::{CloseOutcome, OpenOwnerRegistry};
use umbra_storage_nfs_userspace::state::verifiers::create_verifier_for;
use umbra_storage_nfs_userspace::storage::NfsUserspaceConfig;
use umbra_storage_nfs_userspace::transport::{
    ComponentName, ConnectionEpoch, Deadline, ShareAccess, Stability, WriteVerifier,
};

const EXPORT: &[u8] = b"exports/umbra";
const RUN_PARENT: &[u8] = b"runs";
const RUN_UUID: &str = "0a1b2c3d-4e5f-4a6b-8c7d-9e0f1a2b3c4d";

fn run_id() -> RunId {
    RunId(*Uuid::parse_str(RUN_UUID).expect("pinned run uuid").as_bytes())
}

fn config() -> NfsUserspaceConfig {
    NfsUserspaceConfig {
        host: b"127.0.0.1".to_vec(),
        port: 12108,
        export: BytePath::new(EXPORT.to_vec()).expect("export path"),
        run_parent: BytePath::new(RUN_PARENT.to_vec()).expect("run parent"),
        root_anchor: BytePath::new(b"root".to_vec()).expect("root anchor"),
        control_anchor: BytePath::new(b"control".to_vec()).expect("control anchor"),
        deadline: Deadline { millis: 5_000 },
    }
}

struct Layout {
    run: FileHandle,
    root: FileHandle,
    control: FileHandle,
}

fn server() -> (FakeTransport, Layout) {
    let mut fake = FakeTransport::new();
    let mut current = fake.root();
    for component in EXPORT.split(|byte| *byte == b'/') {
        current = fake.insert_directory(&current, component);
    }
    current = fake.insert_directory(&current, RUN_PARENT);
    let run = fake.insert_directory(&current, RUN_UUID.as_bytes());
    let root = fake.insert_directory(&run, b"root");
    let control = fake.insert_directory(&run, b"control");
    fake.insert_directory(&run, PRIVATE_DIR.as_bytes());
    (fake, Layout { run, root, control })
}

fn owners() -> OpenOwnerRegistry {
    OpenOwnerRegistry::new(
        Session::establish(SessionId(1), ClientId(7), ConnectionEpoch(1)),
        b"umbra/fixture".to_vec(),
    )
}

fn context(key: &str, epoch: Option<u64>) -> RequestContext {
    RequestContext {
        run_id: run_id(),
        operation_id: OperationId(
            *Uuid::from_u128(key.bytes().fold(1, |id, byte| id * 257 + u128::from(byte))).as_bytes(),
        ),
        idempotency_key: IdempotencyKey(key.into()),
        writer_epoch: epoch.map(LeaseEpoch),
    }
}

fn replay() -> FakeReplayLog {
    FakeReplayLog::default()
}

fn deadline() -> Deadline {
    Deadline { millis: 5_000 }
}

fn root(fake: &mut FakeTransport, layout: &Layout) -> PinnedObject {
    PinnedObject::pin(fake, layout.root.clone(), deadline()).expect("pin the root anchor")
}

fn name(bytes: &[u8]) -> ComponentName {
    ComponentName::new(bytes.to_vec()).expect("component")
}

fn open(
    owners: &mut OpenOwnerRegistry,
    fake: &mut FakeTransport,
    parent: &PinnedObject,
    component: &[u8],
    disposition: CreateDisposition,
    access: ShareAccess,
) -> FacadeResult<OpenObject> {
    OpenObject::open(
        owners,
        fake,
        parent,
        &name(component),
        disposition,
        access,
        deadline(),
    )
}

fn identity(key: &str) -> MutationIdentity {
    MutationIdentity::from_context(&context(key, Some(1))).expect("an epoch")
}

#[test]
fn a_mutation_without_a_writer_epoch_is_refused_before_anything_happens() {
    let error = MutationIdentity::from_context(&context("k", None)).unwrap_err();
    assert!(matches!(
        error,
        FacadeError::Authority(AuthorityError::NoWriterEpoch)
    ));
}

#[test]
fn an_exclusive_create_replays_under_its_verifier_and_collides_under_another() {
    let (mut fake, layout) = server();
    let parent = root(&mut fake, &layout);
    let mut owners = owners();
    let mine = create_verifier_for(OperationId(*Uuid::from_u128(1).as_bytes()));
    let theirs = create_verifier_for(OperationId(*Uuid::from_u128(2).as_bytes()));
    assert_ne!(mine, theirs);

    let first = open(
        &mut owners,
        &mut fake,
        &parent,
        b"exclusive",
        CreateDisposition::CreateExclusive { verifier: mine },
        ShareAccess::BOTH,
    )
    .expect("the create succeeds");

    let replay = open(
        &mut owners,
        &mut fake,
        &parent,
        b"exclusive",
        CreateDisposition::CreateExclusive { verifier: mine },
        ShareAccess::BOTH,
    )
    .expect("a replay of my own create is recognised");
    assert_eq!(replay.identity(), first.identity());

    let error = open(
        &mut owners,
        &mut fake,
        &parent,
        b"exclusive",
        CreateDisposition::CreateExclusive { verifier: theirs },
        ShareAccess::BOTH,
    )
    .unwrap_err();
    assert_eq!(error.status(), Some(Nfs4Status(Nfs4Status::EXIST)));
}

#[test]
fn a_guarded_create_refuses_an_existing_name_and_open_existing_refuses_an_absent_one() {
    let (mut fake, layout) = server();
    let parent = root(&mut fake, &layout);
    let mut owners = owners();
    assert!(open(
        &mut owners,
        &mut fake,
        &parent,
        b"fresh",
        CreateDisposition::CreateNew { mode: 0o600 },
        ShareAccess::BOTH,
    )
    .is_ok());
    let error = open(
        &mut owners,
        &mut fake,
        &parent,
        b"fresh",
        CreateDisposition::CreateNew { mode: 0o600 },
        ShareAccess::BOTH,
    )
    .unwrap_err();
    assert_eq!(error.status(), Some(Nfs4Status(Nfs4Status::EXIST)));

    let error = open(
        &mut owners,
        &mut fake,
        &parent,
        b"absent",
        CreateDisposition::OpenExisting,
        ShareAccess::READ,
    )
    .unwrap_err();
    assert_eq!(error.status(), Some(Nfs4Status(Nfs4Status::NOENT)));
    assert!(CreateDisposition::OpenExisting.creates().eq(&false));
    assert!(CreateDisposition::CreateNew { mode: 0 }.creates());
}

#[test]
fn a_short_write_is_reported_as_it_happened_and_never_rounded_up() {
    let (mut fake, layout) = server();
    let parent = root(&mut fake, &layout);
    let mut owners = owners();
    let mut replay = replay();
    fake.set_write_cap(Some(3));
    let file = open(
        &mut owners,
        &mut fake,
        &parent,
        b"short",
        CreateDisposition::CreateNew { mode: 0o600 },
        ShareAccess::BOTH,
    )
    .expect("create");
    let ticket = file
        .write(
            owners.session(),
            &mut fake,
            &mut replay,
            &identity("short-write"),
            WriteAt {
                offset: 0,
                stability: Stability::Unstable,
                data: b"0123456789".to_vec(),
            },
            deadline(),
        )
        .expect("the server accepted a prefix");
    assert_eq!(ticket.count(), 3);
    assert!(ticket.is_short());
    assert!(!ticket.is_replayed());
    assert_eq!(ticket.offset(), 0);
}

#[test]
fn an_unstable_write_is_durable_only_when_the_commit_verifier_matches() {
    let (mut fake, layout) = server();
    let parent = root(&mut fake, &layout);
    let mut owners = owners();
    let mut replay = replay();
    let file = open(
        &mut owners,
        &mut fake,
        &parent,
        b"unstable",
        CreateDisposition::CreateNew { mode: 0o600 },
        ShareAccess::BOTH,
    )
    .expect("create");
    let ticket = file
        .write(
            owners.session(),
            &mut fake,
            &mut replay,
            &identity("unstable-1"),
            WriteAt {
                offset: 0,
                stability: Stability::Unstable,
                data: b"payload".to_vec(),
            },
            deadline(),
        )
        .expect("write");
    assert!(ticket.needs_commit());
    assert_eq!(ticket.committed(), Stability::Unstable);
    assert_eq!(
        file.commit(&mut fake, &replay, &ticket, deadline())
            .expect("an unrotated verifier commits"),
        VerifierMatch::Match
    );

    let second = file
        .write(
            owners.session(),
            &mut fake,
            &mut replay,
            &identity("unstable-2"),
            WriteAt {
                offset: 8,
                stability: Stability::Unstable,
                data: b"more".to_vec(),
            },
            deadline(),
        )
        .expect("write");
    fake.rotate_write_verifier(WriteVerifier([0x77; 8]));
    let error = file
        .commit(&mut fake, &replay, &second, deadline())
        .unwrap_err();
    assert!(matches!(
        error,
        FacadeError::Replay(ReplayError::VerifierChanged { .. })
    ));
}

#[test]
fn a_file_sync_write_owes_no_commit_and_records_no_verifier() {
    let (mut fake, layout) = server();
    let parent = root(&mut fake, &layout);
    let mut owners = owners();
    let mut replay = replay();
    let file = open(
        &mut owners,
        &mut fake,
        &parent,
        b"stable",
        CreateDisposition::CreateNew { mode: 0o600 },
        ShareAccess::BOTH,
    )
    .expect("create");
    let ticket = file
        .write(
            owners.session(),
            &mut fake,
            &mut replay,
            &identity("stable-1"),
            WriteAt {
                offset: 0,
                stability: Stability::FileSync,
                data: b"payload".to_vec(),
            },
            deadline(),
        )
        .expect("write");
    assert!(!ticket.needs_commit());
    assert_eq!(
        replay.check_commit_verifier(ticket.key(), WriteVerifier([0; 8])),
        VerifierMatch::Unknown
    );
    assert_eq!(
        file.commit(&mut fake, &replay, &ticket, deadline())
            .expect("nothing to prove"),
        VerifierMatch::Match
    );
}

#[test]
fn a_settled_key_is_answered_from_the_ledger_without_dispatching_again() {
    let (mut fake, layout) = server();
    let parent = root(&mut fake, &layout);
    let mut owners = owners();
    let mut replay = replay();
    let file = open(
        &mut owners,
        &mut fake,
        &parent,
        b"retried",
        CreateDisposition::CreateNew { mode: 0o600 },
        ShareAccess::BOTH,
    )
    .expect("create");
    let identity = identity("retried-write");
    let request = || WriteAt {
        offset: 0,
        stability: Stability::Unstable,
        data: b"payload".to_vec(),
    };
    let first = file
        .write(owners.session(), &mut fake, &mut replay, &identity, request(), deadline())
        .expect("write");
    assert_eq!(first.count(), 7);
    assert!(!first.is_replayed());

    fake.set_write_cap(Some(0));
    let second = file
        .write(owners.session(), &mut fake, &mut replay, &identity, request(), deadline())
        .expect("the recorded outcome is the answer");
    assert!(second.is_replayed());
    assert_eq!(second.count(), 7, "a retry returns the settled count");
}

#[test]
fn reusing_a_key_with_a_different_payload_is_refused() {
    let (mut fake, layout) = server();
    let parent = root(&mut fake, &layout);
    let mut owners = owners();
    let mut replay = replay();
    let file = open(
        &mut owners,
        &mut fake,
        &parent,
        b"conflict",
        CreateDisposition::CreateNew { mode: 0o600 },
        ShareAccess::BOTH,
    )
    .expect("create");
    let identity = identity("one-key");
    file.write(
        owners.session(),
        &mut fake,
        &mut replay,
        &identity,
        WriteAt {
            offset: 0,
            stability: Stability::Unstable,
            data: b"first".to_vec(),
        },
        deadline(),
    )
    .expect("write");
    let error = file
        .write(
            owners.session(),
            &mut fake,
            &mut replay,
            &identity,
            WriteAt {
                offset: 0,
                stability: Stability::Unstable,
                data: b"second".to_vec(),
            },
            deadline(),
        )
        .unwrap_err();
    assert!(matches!(
        error,
        FacadeError::Replay(ReplayError::KeyConflict)
    ));
}

#[test]
fn an_in_place_edit_by_another_writer_is_visible_through_an_open_handle() {
    let (mut fake, layout) = server();
    let parent = root(&mut fake, &layout);
    let mut owners = owners();
    let mut replay = replay();
    fake.insert_file(&layout.root, b"shared", b"before".to_vec());

    let reader = open(
        &mut owners,
        &mut fake,
        &parent,
        b"shared",
        CreateDisposition::OpenExisting,
        ShareAccess::READ,
    )
    .expect("open for reading");
    let pinned = reader.identity();
    assert_eq!(
        reader
            .read(owners.session(), &mut fake, 0, 32, deadline())
            .expect("read")
            .data,
        b"before"
    );

    let writer = open(
        &mut owners,
        &mut fake,
        &parent,
        b"shared",
        CreateDisposition::OpenExisting,
        ShareAccess::WRITE,
    )
    .expect("open for writing");
    assert_eq!(writer.identity(), pinned, "one name, one object");
    writer
        .write(
            owners.session(),
            &mut fake,
            &mut replay,
            &identity("in-place"),
            WriteAt {
                offset: 0,
                stability: Stability::FileSync,
                data: b"after!".to_vec(),
            },
            deadline(),
        )
        .expect("write");

    assert_eq!(
        reader
            .read(owners.session(), &mut fake, 0, 32, deadline())
            .expect("read")
            .data,
        b"after!"
    );
    assert_eq!(reader.identity(), pinned);
}

#[test]
fn a_pathname_replacement_leaves_an_open_handle_on_the_original_object() {
    let (mut fake, layout) = server();
    let parent = root(&mut fake, &layout);
    let mut owners = owners();
    fake.insert_file(&layout.root, b"target", b"original".to_vec());

    let held = open(
        &mut owners,
        &mut fake,
        &parent,
        b"target",
        CreateDisposition::OpenExisting,
        ShareAccess::READ,
    )
    .expect("open");
    let original = held.identity();
    assert_eq!(held.opened_as().as_bytes(), b"target");

    fake.insert_file(&layout.root, b"target", b"replacement".to_vec());

    assert_eq!(
        held.read(owners.session(), &mut fake, 0, 32, deadline()).expect("read").data,
        b"original"
    );
    assert_eq!(held.identity(), original);

    let fresh = open(
        &mut owners,
        &mut fake,
        &parent,
        b"target",
        CreateDisposition::OpenExisting,
        ShareAccess::READ,
    )
    .expect("open");
    assert_ne!(fresh.identity(), original);
    assert_eq!(
        fresh.read(owners.session(), &mut fake, 0, 32, deadline()).expect("read").data,
        b"replacement"
    );

    assert!(matches!(
        held.close(owners.session(), &mut fake, deadline()),
        CloseOutcome::Closed(_)
    ));
}

#[test]
fn an_anonymous_read_needs_no_open_state() {
    let (mut fake, layout) = server();
    let handle = fake.insert_file(&layout.root, b"plain", b"bytes".to_vec());
    let pin = PinnedObject::pin(&mut fake, handle, deadline()).expect("pin");
    let reply = read_anonymous(&mut fake, &pin, 0, 16, deadline()).expect("read");
    assert_eq!(reply.data, b"bytes");
    assert!(reply.eof);
}
