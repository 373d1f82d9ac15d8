//! The operations surface of an open run.
#![allow(dead_code)]
use uuid::Uuid;

use umbra_storage_nfs_userspace::capability::contract_surface;
use umbra_storage_nfs_userspace::contract::{
    ApprovedBaseObject, BytePath, CreateKind, CreateOptions, Durability, ErrorKind, Fencing,
    IdempotencyKey, ImmutableBaseContract, LeaseEpoch, MetadataUpdate, ObjectId, ObjectKind,
    OpenRunIntent, OpenRunRequest, OperationId, RenameMode, RequestContext, RunId, StorageAnchor,
    StorageHandle, StorageOperation, StoragePath, StoragePolicy, StorageRequest, StorageResponse,
    MAX_DIRECTORY_ENTRIES,
};
use umbra_storage_nfs_userspace::fake::{FakeReplayLog, FakeTransport};
use umbra_storage_nfs_userspace::handle::{ClientId, FileHandle, Session, SessionId};
use umbra_storage_nfs_userspace::identity::PinnedObject;
use umbra_storage_nfs_userspace::layout::PRIVATE_DIR;
use umbra_storage_nfs_userspace::namespace::dispatch::TransportDispatcher;
use umbra_storage_nfs_userspace::ops::{MutationContext, Operations, OpsContext};
use umbra_storage_nfs_userspace::state::open_owner::OpenOwnerRegistry;
use umbra_storage_nfs_userspace::storage::{NfsUserspaceConfig, FORMAT_VERSION};
use umbra_storage_nfs_userspace::transport::{ConnectionEpoch, Deadline};

const EXPORT: &[u8] = b"exports/umbra";
const RUN_PARENT: &[u8] = b"runs";
const RUN_UUID: &str = "0a1b2c3d-4e5f-4a6b-8c7d-9e0f1a2b3c4d";

fn run_id() -> RunId {
    RunId(*Uuid::parse_str(RUN_UUID).expect("pinned run uuid").as_bytes())
}

fn config() -> NfsUserspaceConfig {
    NfsUserspaceConfig {
        host: b"127.0.0.1".to_vec(),
        port: 12108,
        export: BytePath::new(EXPORT.to_vec()).expect("export path"),
        run_parent: BytePath::new(RUN_PARENT.to_vec()).expect("run parent"),
        root_anchor: BytePath::new(b"root".to_vec()).expect("root anchor"),
        control_anchor: BytePath::new(b"control".to_vec()).expect("control anchor"),
        deadline: Deadline { millis: 5_000 },
    }
}

struct Layout {
    run: FileHandle,
    root: FileHandle,
    control: FileHandle,
}

fn server() -> (FakeTransport, Layout) {
    let mut fake = FakeTransport::new();
    let mut current = fake.root();
    for component in EXPORT.split(|byte| *byte == b'/') {
        current = fake.insert_directory(&current, component);
    }
    current = fake.insert_directory(&current, RUN_PARENT);
    let run = fake.insert_directory(&current, RUN_UUID.as_bytes());
    let root = fake.insert_directory(&run, b"root");
    let control = fake.insert_directory(&run, b"control");
    fake.insert_directory(&run, PRIVATE_DIR.as_bytes());
    (fake, Layout { run, root, control })
}

fn owners() -> OpenOwnerRegistry {
    OpenOwnerRegistry::new(
        Session::establish(SessionId(1), ClientId(7), ConnectionEpoch(1)),
        b"umbra/fixture".to_vec(),
    )
}

fn context(key: &str, epoch: Option<u64>) -> RequestContext {
    RequestContext {
        run_id: run_id(),
        operation_id: OperationId(
            *Uuid::from_u128(key.bytes().fold(1, |id, byte| id * 257 + u128::from(byte))).as_bytes(),
        ),
        idempotency_key: IdempotencyKey(key.into()),
        writer_epoch: epoch.map(LeaseEpoch),
    }
}

type Context<'a> = OpsContext<'a, FakeTransport, FakeReplayLog, TransportDispatcher>;

fn replay() -> FakeReplayLog {
    FakeReplayLog::default()
}

fn open_run_request() -> OpenRunRequest {
    OpenRunRequest {
        run_id: run_id(),
        intent: OpenRunIntent::OpenExisting,
        immutable_base: ImmutableBaseContract {
            identity: "umbra-fixture-base".into(),
            fingerprint: vec![0xDE, 0xAD, 0xBE, 0xEF],
        },
        policy: StoragePolicy {
            read_only: false,
            require_strict_remote_persistence: false,
            require_kernel_shadow: false,
            format_version: FORMAT_VERSION,
        },
    }
}

fn operations(fake: &mut FakeTransport) -> Operations {
    Operations::open(fake, &config(), &open_run_request(), 0, Deadline { millis: 5_000 })
        .expect("the fixture layout opens")
}

fn ops_context<'a>(
    transport: &'a mut FakeTransport,
    replay: &'a mut FakeReplayLog,
    owners: Option<&'a mut OpenOwnerRegistry>,
) -> Context<'a> {
    OpsContext {
        transport,
        replay,
        mutations: owners.map(|owners| MutationContext {
            owners,
            create_verifier: None,
            namespace: None,
        }),
        deadline: Deadline { millis: 5_000 },
    }
}

fn path(bytes: &[u8]) -> StoragePath {
    StoragePath::new(StorageAnchor::Root, bytes.to_vec()).expect("path")
}

fn request(operation: StorageOperation, epoch: Option<u64>) -> StorageRequest {
    StorageRequest {
        context: context("ops-key", epoch),
        operation,
    }
}

#[test]
fn a_run_binding_publishes_session_tokens_and_no_physical_path() {
    let (mut fake, _) = server();
    let operations = operations(&mut fake);
    let binding = operations.binding();
    assert_eq!(binding.run_id, run_id());
    assert_eq!(binding.root.physical_path, None);
    assert_eq!(binding.control.physical_path, None);
    assert_ne!(binding.root.handle, binding.control.handle);
    assert!(binding.capabilities.max_io_bytes > 0);
    assert!(binding.capabilities.max_directory_entries > 0);
    assert!(binding.capabilities.max_directory_entries <= MAX_DIRECTORY_ENTRIES);
    assert_eq!(
        binding.capabilities.durability,
        Durability::NoClaim
    );
    assert_eq!(binding.capabilities.fencing, Fencing::ReadOnly);
    assert!(!binding.capabilities.xattrs);
    assert!(!binding.capabilities.hard_links);
    assert!(!binding.capabilities.atomic_swap);
    assert!(!binding.capabilities.kernel_shadow);
    assert!(binding.capabilities.features.is_empty());
}

#[test]
fn opening_a_run_of_the_wrong_format_version_is_refused() {
    let (mut fake, _) = server();
    let mut ask = open_run_request();
    ask.policy.format_version = FORMAT_VERSION + 1;
    let error = Operations::open(
        &mut fake,
        &config(),
        &ask,
        0,
        Deadline { millis: 5_000 },
    )
    .unwrap_err();
    assert_eq!(error.kind, ErrorKind::ProtocolMismatch);
}

#[test]
fn creating_a_run_that_already_exists_is_refused_rather_than_reopened() {
    let (mut fake, _) = server();
    let mut ask = open_run_request();
    ask.intent = OpenRunIntent::CreateNew;
    let error = Operations::open(
        &mut fake,
        &config(),
        &ask,
        0,
        Deadline { millis: 5_000 },
    )
    .unwrap_err();
    assert_eq!(error.kind, ErrorKind::AlreadyExists);
}

#[test]
fn the_read_surface_round_trips_without_writer_authority() {
    let (mut fake, layout) = server();
    fake.insert_file(&layout.root, b"note", b"hello".to_vec());
    fake.insert_directory(&layout.root, b"sub");
    let operations = operations(&mut fake);
    let mut replay = replay();
    let mut context = ops_context(&mut fake, &mut replay, None);

    let StorageResponse::Stat(stat) = operations
        .execute(
            &mut context,
            &request(
                StorageOperation::Stat {
                    path: path(b"note"),
                },
                None,
            ),
        )
        .expect("stat")
    else {
        panic!("stat answers with a stat");
    };
    assert_eq!(stat.len, 5);
    assert_eq!(stat.kind, ObjectKind::File);

    let StorageResponse::Lookup(found) = operations
        .execute(
            &mut context,
            &request(
                StorageOperation::Lookup {
                    path: path(b"note"),
                },
                None,
            ),
        )
        .expect("lookup")
    else {
        panic!("lookup answers with an object result");
    };
    assert_eq!(found.stat.object_id, stat.object_id);
    assert!(found.rewrite_target.is_none());

    let StorageResponse::ReadAt(bytes) = operations
        .execute(
            &mut context,
            &request(
                StorageOperation::ReadAt {
                    path: path(b"note"),
                    offset: 0,
                    len: 16,
                },
                None,
            ),
        )
        .expect("read")
    else {
        panic!("read answers with bytes");
    };
    assert_eq!(bytes, b"hello");

    let StorageResponse::List(listed) = operations
        .execute(
            &mut context,
            &request(
                StorageOperation::List {
                    path: path(b""),
                    cursor: None,
                    limit: 8,
                },
                None,
            ),
        )
        .expect("list")
    else {
        panic!("list answers with a page");
    };
    let mut names: Vec<_> = listed
        .entries
        .iter()
        .map(|entry| entry.name.as_bytes().to_vec())
        .collect();
    names.sort();
    assert_eq!(names, vec![b"note".to_vec(), b"sub".to_vec()]);
}

#[test]
fn the_write_surface_needs_both_a_writer_epoch_and_bound_open_owners() {
    let (mut fake, layout) = server();
    fake.insert_file(&layout.root, b"note", b"hello".to_vec());
    let operations = operations(&mut fake);
    let mut replay = replay();

    {
        let mut context = ops_context(&mut fake, &mut replay, None);
        let error = operations
            .execute(
                &mut context,
                &request(
                    StorageOperation::WriteAt {
                        path: path(b"note"),
                        offset: 0,
                        bytes: b"x".to_vec(),
                    },
                    None,
                ),
            )
            .unwrap_err();
        assert_eq!(error.kind, ErrorKind::LeaseLost);
    }

    {
        let mut context = ops_context(&mut fake, &mut replay, None);
        let error = operations
            .execute(
                &mut context,
                &request(
                    StorageOperation::WriteAt {
                        path: path(b"note"),
                        offset: 0,
                        bytes: b"x".to_vec(),
                    },
                    Some(4),
                ),
            )
            .unwrap_err();
        assert_eq!(error.kind, ErrorKind::LeaseLost);
        assert!(error.context.contains("authority_recovery"));
    }

    let mut owners = owners();
    let mut context = ops_context(&mut fake, &mut replay, Some(&mut owners));
    let StorageResponse::WriteAt(count) = operations
        .execute(
            &mut context,
            &request(
                StorageOperation::WriteAt {
                    path: path(b"note"),
                    offset: 0,
                    bytes: b"HELLO".to_vec(),
                },
                Some(4),
            ),
        )
        .expect("write")
    else {
        panic!("a write answers with a count");
    };
    assert_eq!(count, 5);
    let StorageResponse::ReadAt(bytes) = operations
        .execute(
            &mut context,
            &request(
                StorageOperation::ReadAt {
                    path: path(b"note"),
                    offset: 0,
                    len: 16,
                },
                None,
            ),
        )
        .expect("read back")
    else {
        panic!("read answers with bytes");
    };
    assert_eq!(bytes, b"HELLO");
}

#[test]
fn creating_a_file_returns_its_identity_and_refuses_a_second_create() {
    let (mut fake, _) = server();
    let operations = operations(&mut fake);
    let mut replay = replay();
    let mut owners = owners();
    let mut context = ops_context(&mut fake, &mut replay, Some(&mut owners));
    let create = || {
        request(
            StorageOperation::Create {
                path: path(b"fresh"),
                options: CreateOptions {
                    kind: CreateKind::File,
                    mode: 0o640,
                },
            },
            Some(4),
        )
    };
    let StorageResponse::Created(created) =
        operations.execute(&mut context, &create()).expect("create")
    else {
        panic!("a create answers with an object result");
    };
    assert_eq!(created.stat.kind, ObjectKind::File);
    let error = operations.execute(&mut context, &create()).unwrap_err();
    assert_eq!(error.kind, ErrorKind::AlreadyExists);
}

#[test]
fn every_unsupported_operation_is_refused_with_unsupported_capability() {
    let (mut fake, _) = server();
    let operations = operations(&mut fake);
    let mut replay = replay();
    let mut owners = owners();
    let mut context = ops_context(&mut fake, &mut replay, Some(&mut owners));

    let unsupported = [
        StorageOperation::Link {
            source: path(b"a"),
            destination: path(b"b"),
        },
        StorageOperation::ReadLink { path: path(b"a") },
        StorageOperation::Create {
            path: path(b"a"),
            options: CreateOptions {
                kind: CreateKind::LogicalSymlink {
                    target: BytePath::new(b"t".to_vec()).expect("target"),
                },
                mode: 0o777,
            },
        },
        StorageOperation::GetXattr {
            path: path(b"a"),
            name: b"user.x".to_vec(),
            max_bytes: 8,
        },
        StorageOperation::SetXattr {
            path: path(b"a"),
            name: b"user.x".to_vec(),
            value: vec![1],
        },
        StorageOperation::RemoveXattr {
            path: path(b"a"),
            name: b"user.x".to_vec(),
        },
        StorageOperation::GetWhiteout { path: path(b"a") },
        StorageOperation::SetWhiteout {
            path: path(b"a"),
            present: true,
        },
        StorageOperation::AtomicSwap {
            left: path(b"a"),
            right: path(b"b"),
        },
    ];
    for operation in unsupported {
        let error = operations
            .execute(&mut context, &request(operation.clone(), Some(4)))
            .unwrap_err();
        assert_eq!(
            error.kind,
            ErrorKind::UnsupportedCapability,
            "{operation:?} must be refused honestly, never emulated"
        );
    }
}

#[test]
fn every_deferred_operation_names_its_owner_instead_of_claiming_a_capability() {
    let (mut fake, layout) = server();
    fake.insert_file(&layout.root, b"note", b"x".to_vec());
    fake.insert_directory(&layout.root, b"dir");
    let operations = operations(&mut fake);
    let mut replay = replay();
    let mut owners = owners();
    let mut context = ops_context(&mut fake, &mut replay, Some(&mut owners));

    let deferred = [
        StorageOperation::Create {
            path: path(b"newdir"),
            options: CreateOptions {
                kind: CreateKind::Directory,
                mode: 0o700,
            },
        },
        StorageOperation::CreateParents {
            path: path(b"a/b"),
            mode: 0o700,
        },
        StorageOperation::Unlink {
            path: path(b"note"),
        },
        StorageOperation::RemoveDirectory { path: path(b"dir") },
        StorageOperation::Rename {
            source: path(b"note"),
            destination: path(b"moved"),
            mode: RenameMode::Replace,
        },
        StorageOperation::SetMetadata {
            path: path(b"note"),
            update: MetadataUpdate {
                mode: Some(0o600),
                uid: None,
                gid: None,
                accessed_nanos: None,
                modified_nanos: None,
            },
        },
        StorageOperation::Truncate {
            path: path(b"note"),
            len: 0,
        },
    ];
    for operation in deferred {
        let error = operations
            .execute(&mut context, &request(operation.clone(), Some(4)))
            .unwrap_err();
        assert_eq!(
            error.kind,
            ErrorKind::NotImplemented,
            "{operation:?} is authorised by the syscall matrix but unreachable"
        );
    }
}

#[test]
fn the_dispatch_agrees_with_the_capability_table_on_every_row() {
    let (mut fake, layout) = server();
    fake.insert_file(&layout.root, b"note", b"x".to_vec());
    fake.insert_directory(&layout.root, b"dir");
    let operations = operations(&mut fake);
    let mut replay = replay();
    let mut owners = owners();
    let mut context = ops_context(&mut fake, &mut replay, Some(&mut owners));

    for row in contract_surface() {
        let Some(expected) = row.support.error_kind() else {
            continue;
        };
        let operation = match row.operation {
            "Create { kind: Directory }" => StorageOperation::Create {
                path: path(b"newdir"),
                options: CreateOptions {
                    kind: CreateKind::Directory,
                    mode: 0o700,
                },
            },
            "Create { kind: LogicalSymlink }" => StorageOperation::Create {
                path: path(b"link"),
                options: CreateOptions {
                    kind: CreateKind::LogicalSymlink {
                        target: BytePath::new(b"t".to_vec()).expect("target"),
                    },
                    mode: 0o777,
                },
            },
            "CreateParents" => StorageOperation::CreateParents {
                path: path(b"a/b"),
                mode: 0o700,
            },
            "CopyUp" => StorageOperation::CopyUp {
                source: ApprovedBaseObject {
                    object_id: ObjectId([0u8; 16]),
                    handle: StorageHandle(vec![1]),
                },
                destination: path(b"copied"),
            },
            "Unlink" => StorageOperation::Unlink {
                path: path(b"note"),
            },
            "RemoveDirectory" => StorageOperation::RemoveDirectory { path: path(b"dir") },
            "Rename" => StorageOperation::Rename {
                source: path(b"note"),
                destination: path(b"moved"),
                mode: RenameMode::Replace,
            },
            "Link" => StorageOperation::Link {
                source: path(b"note"),
                destination: path(b"other"),
            },
            "ReadLink" => StorageOperation::ReadLink {
                path: path(b"note"),
            },
            "SetMetadata" => StorageOperation::SetMetadata {
                path: path(b"note"),
                update: MetadataUpdate {
                    mode: Some(0o600),
                    uid: None,
                    gid: None,
                    accessed_nanos: None,
                    modified_nanos: None,
                },
            },
            "Truncate" => StorageOperation::Truncate {
                path: path(b"note"),
                len: 0,
            },
            "GetXattr" => StorageOperation::GetXattr {
                path: path(b"note"),
                name: b"user.x".to_vec(),
                max_bytes: 8,
            },
            "SetXattr" => StorageOperation::SetXattr {
                path: path(b"note"),
                name: b"user.x".to_vec(),
                value: vec![1],
            },
            "RemoveXattr" => StorageOperation::RemoveXattr {
                path: path(b"note"),
                name: b"user.x".to_vec(),
            },
            "GetWhiteout" => StorageOperation::GetWhiteout {
                path: path(b"note"),
            },
            "SetWhiteout" => StorageOperation::SetWhiteout {
                path: path(b"note"),
                present: true,
            },
            "AtomicSwap" => StorageOperation::AtomicSwap {
                left: path(b"note"),
                right: path(b"other"),
            },
            other => panic!("no probe for capability row {other}"),
        };
        let error = operations
            .execute(&mut context, &request(operation, Some(4)))
            .unwrap_err();
        assert_eq!(error.kind, expected, "row {} drifted", row.operation);
    }
}

#[test]
fn a_cross_anchor_rename_is_rejected_before_any_dispatcher_is_consulted() {
    let (mut fake, layout) = server();
    fake.insert_file(&layout.root, b"note", b"x".to_vec());
    let operations = operations(&mut fake);
    let mut replay = replay();
    let mut owners = owners();
    let mut context = ops_context(&mut fake, &mut replay, Some(&mut owners));
    let error = operations
        .execute(
            &mut context,
            &request(
                StorageOperation::Rename {
                    source: path(b"note"),
                    destination: StoragePath::new(StorageAnchor::Control, b"note".to_vec())
                        .expect("path"),
                    mode: RenameMode::Replace,
                },
                Some(4),
            ),
        )
        .unwrap_err();
    assert_eq!(error.kind, ErrorKind::InvalidPath);
    assert!(error.context.contains("cross-anchor"));
}

#[test]
fn a_removal_must_match_the_kind_of_object_it_names() {
    let (mut fake, layout) = server();
    fake.insert_directory(&layout.root, b"dir");
    fake.insert_file(&layout.root, b"file", b"x".to_vec());
    let operations = operations(&mut fake);
    let mut replay = replay();
    let mut owners = owners();
    let mut context = ops_context(&mut fake, &mut replay, Some(&mut owners));

    let error = operations
        .execute(
            &mut context,
            &request(StorageOperation::Unlink { path: path(b"dir") }, Some(4)),
        )
        .unwrap_err();
    assert_eq!(error.kind, ErrorKind::InvalidInput);
    let error = operations
        .execute(
            &mut context,
            &request(
                StorageOperation::RemoveDirectory {
                    path: path(b"file"),
                },
                Some(4),
            ),
        )
        .unwrap_err();
    assert_eq!(error.kind, ErrorKind::InvalidInput);
}

#[test]
fn the_two_anchors_are_disjoint_namespaces_under_one_run() {
    let (mut fake, layout) = server();
    fake.insert_file(&layout.root, b"same", b"tracee".to_vec());
    fake.insert_file(&layout.control, b"same", b"control".to_vec());
    let operations = operations(&mut fake);
    let mut replay = replay();
    let mut context = ops_context(&mut fake, &mut replay, None);

    let read = |context: &mut Context<'_>, anchor| {
        let response = operations
            .execute(
                context,
                &request(
                    StorageOperation::ReadAt {
                        path: StoragePath::new(anchor, b"same".to_vec()).expect("path"),
                        offset: 0,
                        len: 16,
                    },
                    None,
                ),
            )
            .expect("read");
        match response {
            StorageResponse::ReadAt(bytes) => bytes,
            other => panic!("a read answers with bytes, not {other:?}"),
        }
    };
    assert_eq!(read(&mut context, StorageAnchor::Root), b"tracee");
    assert_eq!(read(&mut context, StorageAnchor::Control), b"control");
    assert_ne!(
        operations.anchor(StorageAnchor::Root).pin().identity(),
        operations.anchor(StorageAnchor::Control).pin().identity()
    );
}

#[test]
fn the_run_anchor_is_listed_with_provider_state_hidden() {
    let (mut fake, layout) = server();
    let operations = operations(&mut fake);
    let mut replay = replay();
    let mut context = ops_context(&mut fake, &mut replay, None);
    let run = PinnedObject::pin(
        context.transport,
        layout.run,
        Deadline { millis: 5_000 },
    )
    .expect("pin");
    let listed = operations.list(&mut context, &run, None, 16).expect("page");
    let names: Vec<_> = listed
        .entries
        .iter()
        .map(|entry| entry.name.as_bytes().to_vec())
        .collect();
    assert!(names.contains(&b"root".to_vec()));
    assert!(!names.contains(&PRIVATE_DIR.as_bytes().to_vec()));
}
