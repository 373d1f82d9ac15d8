//! Mutations of an open run with a dispatcher bound, end to end.
#![allow(dead_code)]
use uuid::Uuid;

use umbra_storage_nfs_userspace::contract::{
    BytePath, CreateKind, CreateOptions, ErrorKind, IdempotencyKey, ImmutableBaseContract,
    LeaseEpoch, MetadataUpdate, OpenRunIntent, OpenRunRequest, OperationId, RenameMode,
    RequestContext, RunId, StorageAnchor, StorageOperation, StoragePath, StoragePolicy,
    StorageRequest, StorageResponse, StorageResult,
};
use umbra_storage_nfs_userspace::fake::{FakeReplayLog, FakeTransport};
use umbra_storage_nfs_userspace::handle::{ClientId, FileHandle, Session, SessionId};
use umbra_storage_nfs_userspace::layout::PRIVATE_DIR;
use umbra_storage_nfs_userspace::namespace::dispatch::TransportDispatcher;
use umbra_storage_nfs_userspace::ops::{MutationContext, Operations, OpsContext};
use umbra_storage_nfs_userspace::state::open_owner::OpenOwnerRegistry;
use umbra_storage_nfs_userspace::state::verifiers::create_verifier_for;
use umbra_storage_nfs_userspace::storage::{NfsUserspaceConfig, FORMAT_VERSION};
use umbra_storage_nfs_userspace::transport::{AttrMask, ConnectionEpoch, Deadline, RawTransport};

const EXPORT: &[u8] = b"exports/umbra";
const RUN_PARENT: &[u8] = b"runs";
const RUN_UUID: &str = "0a1b2c3d-4e5f-4a6b-8c7d-9e0f1a2b3c4d";

fn run_id() -> RunId {
    RunId(*Uuid::parse_str(RUN_UUID).expect("pinned run uuid").as_bytes())
}

fn config() -> NfsUserspaceConfig {
    NfsUserspaceConfig {
        host: b"127.0.0.1".to_vec(),
        port: 12108,
        export: BytePath::new(EXPORT.to_vec()).expect("export path"),
        run_parent: BytePath::new(RUN_PARENT.to_vec()).expect("run parent"),
        root_anchor: BytePath::new(b"root".to_vec()).expect("root anchor"),
        control_anchor: BytePath::new(b"control".to_vec()).expect("control anchor"),
        deadline: Deadline { millis: 5_000 },
    }
}

struct Layout {
    run: FileHandle,
    root: FileHandle,
    control: FileHandle,
}

fn server() -> (FakeTransport, Layout) {
    let mut fake = FakeTransport::new();
    let mut current = fake.root();
    for component in EXPORT.split(|byte| *byte == b'/') {
        current = fake.insert_directory(&current, component);
    }
    current = fake.insert_directory(&current, RUN_PARENT);
    let run = fake.insert_directory(&current, RUN_UUID.as_bytes());
    let root = fake.insert_directory(&run, b"root");
    let control = fake.insert_directory(&run, b"control");
    fake.insert_directory(&run, PRIVATE_DIR.as_bytes());
    (fake, Layout { run, root, control })
}

fn owners() -> OpenOwnerRegistry {
    OpenOwnerRegistry::new(
        Session::establish(SessionId(1), ClientId(7), ConnectionEpoch(1)),
        b"umbra/fixture".to_vec(),
    )
}

struct Run {
    fake: FakeTransport,
    layout: Layout,
    owners: OpenOwnerRegistry,
    replay: FakeReplayLog,
    dispatcher: TransportDispatcher,
    operations: Operations,
}

fn opened(read_only: bool) -> Run {
    let (mut fake, layout) = server();
    let ask = OpenRunRequest {
        run_id: run_id(),
        intent: OpenRunIntent::OpenExisting,
        immutable_base: ImmutableBaseContract { identity: "base".into(), fingerprint: vec![1] },
        policy: StoragePolicy {
            read_only,
            require_strict_remote_persistence: false,
            require_kernel_shadow: false,
            format_version: FORMAT_VERSION,
        },
    };
    let operations = Operations::open(&mut fake, &config(), &ask, 0, Deadline { millis: 5_000 })
        .expect("the layout opens");
    Run {
        fake,
        layout,
        owners: owners(),
        replay: FakeReplayLog::default(),
        dispatcher: TransportDispatcher::new(),
        operations,
    }
}

impl Run {
    fn execute(&mut self, request: &StorageRequest) -> StorageResult<StorageResponse> {
        let verifier = create_verifier_for(request.context.operation_id);
        let mut context = OpsContext {
            transport: &mut self.fake,
            replay: &mut self.replay,
            mutations: Some(MutationContext {
                owners: &mut self.owners,
                create_verifier: Some(verifier),
                namespace: Some(&mut self.dispatcher),
            }),
            deadline: Deadline { millis: 5_000 },
        };
        self.operations.execute(&mut context, request)
    }

    fn does(&mut self, key: &str, operation: StorageOperation) -> StorageResult<StorageResponse> {
        self.execute(&StorageRequest { context: context(key, Some(1)), operation })
    }

    fn length(&mut self, name: &[u8]) -> StorageResult<u64> {
        match self.does("stat", StorageOperation::Stat { path: path(name) })? {
            StorageResponse::Stat(stat) => Ok(stat.len),
            other => panic!("a stat answers with a stat, not {other:?}"),
        }
    }

    fn bytes(&mut self, name: &[u8]) -> Vec<u8> {
        let read = StorageOperation::ReadAt { path: path(name), offset: 0, len: 64 };
        match self.does("read", read).expect("reads") {
            StorageResponse::ReadAt(bytes) => bytes,
            other => panic!("a read answers with bytes, not {other:?}"),
        }
    }
}

fn context(key: &str, epoch: Option<u64>) -> RequestContext {
    RequestContext {
        run_id: run_id(),
        operation_id: OperationId(
            *Uuid::from_u128(key.bytes().fold(1, |id, byte| id * 257 + u128::from(byte))).as_bytes(),
        ),
        idempotency_key: IdempotencyKey(key.into()),
        writer_epoch: epoch.map(LeaseEpoch),
    }
}

fn path(bytes: &[u8]) -> StoragePath {
    StoragePath::new(StorageAnchor::Root, bytes.to_vec()).expect("path")
}

fn file(name: &[u8], mode: u32) -> StorageOperation {
    StorageOperation::Create {
        path: path(name),
        options: CreateOptions { kind: CreateKind::File, mode },
    }
}

fn directory(name: &[u8]) -> StorageOperation {
    StorageOperation::Create {
        path: path(name),
        options: CreateOptions { kind: CreateKind::Directory, mode: 0o755 },
    }
}

fn write(name: &[u8], offset: u64, bytes: &[u8]) -> StorageOperation {
    StorageOperation::WriteAt { path: path(name), offset, bytes: bytes.to_vec() }
}

#[test]
fn a_read_gives_back_what_a_write_put_there() {
    let mut run = opened(false);
    let StorageResponse::Created(made) = run.does("create", file(b"note", 0o640)).expect("made")
    else {
        panic!("a create answers with the object");
    };
    assert_eq!(made.stat.len, 0);
    assert_eq!(made.stat.mode, 0o640);
    assert_eq!(run.does("w1", write(b"note", 0, b"hello world")), Ok(StorageResponse::WriteAt(11)));
    assert_eq!(run.bytes(b"note"), b"hello world");
    assert_eq!(run.does("w2", write(b"note", 6, b"there")), Ok(StorageResponse::WriteAt(5)));
    assert_eq!(run.bytes(b"note"), b"hello there");
    assert_eq!(run.does("w3", write(b"note", 13, b"!")), Ok(StorageResponse::WriteAt(1)));
    assert_eq!(run.bytes(b"note"), b"hello there\0\0!");
    let again = run.does("second", file(b"note", 0o600)).unwrap_err();
    assert_eq!(again.kind, ErrorKind::AlreadyExists);
}

#[test]
fn a_replayed_write_is_answered_without_another_dispatch() {
    let mut run = opened(false);
    run.does("create", file(b"note", 0o640)).expect("made");
    assert_eq!(run.does("once", write(b"note", 0, b"first")), Ok(StorageResponse::WriteAt(5)));
    assert_eq!(run.does("other", write(b"note", 0, b"OTHER")), Ok(StorageResponse::WriteAt(5)));
    assert_eq!(run.does("once", write(b"note", 0, b"first")), Ok(StorageResponse::WriteAt(5)));
    assert_eq!(run.bytes(b"note"), b"OTHER");
    assert!(run.does("once", write(b"note", 0, b"changed")).is_err());
    assert_eq!(run.bytes(b"note"), b"OTHER");
}

#[test]
fn names_are_made_moved_and_removed() {
    let mut run = opened(false);
    run.does("dir", directory(b"d")).expect("made");
    run.does("file", file(b"d/one", 0o600)).expect("made");
    run.does("write", write(b"d/one", 0, b"abc")).expect("written");
    let rename = |mode| StorageOperation::Rename {
        source: path(b"d/one"),
        destination: path(b"two"),
        mode,
    };
    let refused = run.does("mv", rename(RenameMode::NoReplace)).unwrap_err();
    assert_eq!(refused.kind, ErrorKind::UnsupportedCapability);
    assert_eq!(run.length(b"d/one"), Ok(3));
    let before = match run.does("l", StorageOperation::Lookup { path: path(b"d/one") }) {
        Ok(StorageResponse::Lookup(found)) => found.stat.object_id,
        other => panic!("a lookup answers with the object, not {other:?}"),
    };
    match run.does("mv", rename(RenameMode::Replace)) {
        Ok(StorageResponse::Renamed(moved)) => assert_eq!(moved.stat.object_id, before),
        other => panic!("a rename answers with the object, not {other:?}"),
    }
    assert_eq!(run.length(b"d/one").unwrap_err().kind, ErrorKind::NotFound);
    assert_eq!(run.bytes(b"two"), b"abc");
    let wrong = StorageOperation::RemoveDirectory { path: path(b"two") };
    assert!(run.does("rm", wrong).is_err());
    assert_eq!(
        run.does("rm", StorageOperation::Unlink { path: path(b"two") }),
        Ok(StorageResponse::Unlinked)
    );
    assert_eq!(
        run.does("rmd", StorageOperation::RemoveDirectory { path: path(b"d") }),
        Ok(StorageResponse::DirectoryRemoved)
    );
    assert_eq!(run.length(b"d").unwrap_err().kind, ErrorKind::NotFound);
}

#[test]
fn metadata_and_length_change_where_asked() {
    let mut run = opened(false);
    run.does("file", file(b"note", 0o600)).expect("made");
    run.does("write", write(b"note", 0, b"abcdef")).expect("written");
    let short = StorageOperation::Truncate { path: path(b"note"), len: 2 };
    match run.does("cut", short) {
        Ok(StorageResponse::Truncated(stat)) => assert_eq!(stat.len, 2),
        other => panic!("a truncate answers with the metadata, not {other:?}"),
    }
    assert_eq!(run.bytes(b"note"), b"ab");
    let update = MetadataUpdate {
        mode: Some(0o444),
        uid: None,
        gid: None,
        accessed_nanos: None,
        modified_nanos: Some(-1),
    };
    let set = StorageOperation::SetMetadata { path: path(b"note"), update };
    match run.does("set", set) {
        Ok(StorageResponse::MetadataSet(stat)) => {
            assert_eq!(stat.mode, 0o444);
            assert_eq!(stat.modified_nanos, -1);
        }
        other => panic!("a metadata change answers with the metadata, not {other:?}"),
    }
}

#[test]
fn missing_parents_are_made_once() {
    let mut run = opened(false);
    let parents = || StorageOperation::CreateParents { path: path(b"a/b/c"), mode: 0o755 };
    run.does("p", parents()).expect("made");
    run.does("q", parents()).expect("present already");
    run.does("f", file(b"a/b/c/note", 0o600)).expect("its parents are there");
    assert_eq!(run.length(b"a/b/c/note"), Ok(0));
}

#[test]
fn a_request_outside_the_contract_is_refused_before_it_is_sent() {
    let mut run = opened(true);
    let denied = run.does("w", write(b"note", 0, b"x")).unwrap_err();
    assert_eq!(denied.kind, ErrorKind::Denied);
    assert_eq!(denied.context, "this run was opened read-only; it does not accept mutations");

    let mut run = opened(false);
    let mut foreign = StorageRequest {
        context: context("k", None),
        operation: StorageOperation::Stat { path: path(b"") },
    };
    foreign.context.run_id = RunId([9; 16]);
    assert_eq!(run.execute(&foreign).unwrap_err().kind, ErrorKind::InvalidInput);
    let most = run.operations.limits();
    let long = vec![0; most.max_io_bytes as usize + 1];
    assert!(run.does("long", write(b"note", 0, &long)).is_err());
    let listing = |limit| StorageOperation::List { path: path(b""), cursor: None, limit };
    assert!(run.does("none", listing(0)).is_err());
    assert!(run.does("many", listing(most.max_directory_entries + 1)).is_err());
    assert!(run.does("some", listing(most.max_directory_entries)).is_ok());
}

#[test]
fn a_closed_session_mints_no_owner() {
    let mut run = opened(false);
    run.does("file", file(b"note", 0o600)).expect("made");
    run.owners.close_session();
    assert!(run.does("w", write(b"note", 0, b"x")).is_err());
    assert_eq!(run.length(b"note"), Ok(0));
}

fn change_of(fake: &mut FakeTransport, handle: &FileHandle) -> u64 {
    let mask = AttrMask(AttrMask::CHANGE);
    let attributes = fake.getattr(handle, mask, Deadline { millis: 5_000 }).expect("answers");
    attributes.change.expect("asked for")
}

#[test]
fn whatever_changes_a_directory_moves_its_change_attribute() {
    let mut run = opened(false);
    let root = run.layout.root.clone();
    let mut last = change_of(&mut run.fake, &root);
    run.does("made", file(b"note", 0o600)).expect("made");
    let now = change_of(&mut run.fake, &root);
    assert_eq!(now, last + 1, "a created name is a change");
    last = now;
    let note = run.fake.insert_file(&root, b"other", b"x".to_vec());
    assert_eq!(change_of(&mut run.fake, &root), last + 1);
    assert_eq!(change_of(&mut run.fake, &note), 1);
    last += 1;
    run.does("write", write(b"other", 0, b"y")).expect("written");
    assert_eq!(change_of(&mut run.fake, &root), last, "a write is not the directory's");
    assert_eq!(change_of(&mut run.fake, &note), 2);
    run.does("rm", StorageOperation::Unlink { path: path(b"other") }).expect("removed");
    assert_eq!(change_of(&mut run.fake, &root), last + 1);
    assert_eq!(change_of(&mut run.fake, &note), 2, "an unnamed object is still there");
}

#[test]
fn an_interrupted_create_is_replayed_under_its_own_verifier() {
    let mut run = opened(false);
    let StorageResponse::Created(first) = run.does("make", file(b"note", 0o644)).expect("made")
    else {
        panic!("a create answers with the object");
    };
    let StorageResponse::Created(again) = run.does("make", file(b"note", 0o644)).expect("same")
    else {
        panic!("a create answers with the object");
    };
    assert_eq!(again.stat.object_id, first.stat.object_id);
    assert_eq!(again.stat.mode, 0o644);
    assert_eq!(
        run.does("rival", file(b"note", 0o644)).unwrap_err().kind,
        ErrorKind::AlreadyExists
    );
}

#[test]
fn attribute_sets_combine() {
    let both = AttrMask(AttrMask::SIZE).union(AttrMask(AttrMask::MODE));
    assert_eq!(both.0, AttrMask::SIZE | AttrMask::MODE);
    assert!(both.contains(AttrMask(AttrMask::SIZE)));
}

