//! Files that gate a run are read whole, and every listing is delivered whole.
#![allow(dead_code)]
use uuid::Uuid;

use umbra_storage_nfs_userspace::anchor::{
    provision_private_state, read_manifest, read_persisted_state, Anchor, RunAnchors, RunManifest,
    MAX_PRIVATE_FILE_BYTES,
};
use umbra_storage_nfs_userspace::authority::{
    AdmissionMarker, AdmissionPhase, MarkerStore, ServerMarkerStore, WriterToken,
};
use umbra_storage_nfs_userspace::contract::{
    BytePath, ErrorKind, IdempotencyKey, ImmutableBaseContract, LeaseEpoch, OpenRunIntent,
    OpenRunRequest, OperationId, RequestContext, RunId, StorageAnchor, StorageOperation,
    StoragePath, StoragePolicy, StorageRequest, StorageResponse, WriterId,
};
use umbra_storage_nfs_userspace::crud::{CreateDisposition, OpenObject};
use umbra_storage_nfs_userspace::error::{
    FacadeErrorView, FacadeResult, Nfs4Status, TransportErrorView,
};
use umbra_storage_nfs_userspace::fake::{FakeReplayLog, FakeTransport, ScriptedFault};
use umbra_storage_nfs_userspace::handle::{
    ClientId, FileHandle, ObjectIdentity, Session, SessionId,
};
use umbra_storage_nfs_userspace::identity::{object_id, PinnedObject};
use umbra_storage_nfs_userspace::layout::{EPOCH_FILE, MANIFEST_FILE, PRIVATE_DIR, WRITER_LOCK_FILE};
use umbra_storage_nfs_userspace::namespace::dispatch::TransportDispatcher;
use umbra_storage_nfs_userspace::namespace::{
    NamespaceDispatcher, NamespaceMutation, NamespaceMutationView, NamespaceOutcome,
    NamespaceOutcomeView,
};
use umbra_storage_nfs_userspace::ops::{MutationContext, Operations, OpsContext};
use umbra_storage_nfs_userspace::pages::{page, NoiseFilter};
use umbra_storage_nfs_userspace::state::open_owner::OpenOwnerRegistry;
use umbra_storage_nfs_userspace::storage::{NfsUserspaceConfig, FORMAT_VERSION};
use umbra_storage_nfs_userspace::transport::{
    Answer, AttrMask, CallToken, ComponentName, Compound, CompoundReply, CompoundView,
    ConnectionEpoch, ConnectionState, Deadline, DirVerifier, Fsid, Nfs4Op, PersistenceBoundary,
    RawTransport, Retirement, ShareAccess, TransportLimits, TransportResult, Verifier,
    WireProfile,
};

const EXPORT: &[u8] = b"exports/umbra";
const RUN_PARENT: &[u8] = b"runs";
const RUN_UUID: &str = "0a1b2c3d-4e5f-4a6b-8c7d-9e0f1a2b3c4d";

/// A server that answers every READ with at most `most` bytes.
struct Short {
    inner: FakeTransport,
    most: u32,
}

impl RawTransport for Short {
    type World = ();

    fn world(&self) {}

    fn answer(_: (), _: CompoundView, _: Deadline) -> Answer {
        unreachable!("never run")
    }

    fn after(_: (), _: CompoundView, _: Deadline) {}

    fn limits_of(_: ()) -> TransportLimits {
        unreachable!("never run")
    }

    fn connection_of(_: ()) -> ConnectionState {
        unreachable!("never run")
    }

    fn boundary_of(_: ()) -> PersistenceBoundary {
        unreachable!("never run")
    }

    fn reconnect_answer(_: ()) -> Result<ConnectionEpoch, TransportErrorView> {
        unreachable!("never run")
    }

    fn after_reconnect(_: ()) {}

    fn wire_profile(&self) -> WireProfile {
        self.inner.wire_profile()
    }

    fn limits(&self) -> TransportLimits {
        self.inner.limits()
    }

    fn connection(&self) -> ConnectionState {
        self.inner.connection()
    }

    fn persistence_boundary(&self) -> PersistenceBoundary {
        self.inner.persistence_boundary()
    }

    fn submit(&mut self, mut call: Compound, deadline: Deadline) -> TransportResult<CompoundReply> {
        for op in &mut call.ops {
            if let Nfs4Op::Read { count, .. } = op {
                *count = (*count).min(self.most);
            }
        }
        self.inner.submit(call, deadline)
    }

    fn cancel(&mut self, token: CallToken) -> TransportResult<Retirement> {
        self.inner.cancel(token)
    }

    fn reconnect(&mut self) -> TransportResult<ConnectionEpoch> {
        self.inner.reconnect()
    }

    fn install_faults(&mut self, plan: Box<ScriptedFault>) {
        self.inner.install_faults(plan)
    }
}

fn run_id() -> RunId {
    RunId(*Uuid::parse_str(RUN_UUID).expect("pinned run uuid").as_bytes())
}

fn config() -> NfsUserspaceConfig {
    NfsUserspaceConfig {
        host: b"127.0.0.1".to_vec(),
        port: 12108,
        export: BytePath::new(EXPORT.to_vec()).expect("export path"),
        run_parent: BytePath::new(RUN_PARENT.to_vec()).expect("run parent"),
        root_anchor: BytePath::new(b"root".to_vec()).expect("root anchor"),
        control_anchor: BytePath::new(b"control".to_vec()).expect("control anchor"),
        deadline: deadline(),
    }
}

struct Layout {
    run: FileHandle,
    root: FileHandle,
    private: FileHandle,
}

fn server() -> (FakeTransport, Layout) {
    let mut fake = FakeTransport::new();
    let mut current = fake.root();
    for component in EXPORT.split(|byte| *byte == b'/') {
        current = fake.insert_directory(&current, component);
    }
    current = fake.insert_directory(&current, RUN_PARENT);
    let run = fake.insert_directory(&current, RUN_UUID.as_bytes());
    let root = fake.insert_directory(&run, b"root");
    fake.insert_directory(&run, b"control");
    let private = fake.insert_directory(&run, PRIVATE_DIR.as_bytes());
    (fake, Layout { run, root, private })
}

fn owners() -> OpenOwnerRegistry {
    OpenOwnerRegistry::new(
        Session::establish(SessionId(1), ClientId(7), ConnectionEpoch(1)),
        b"umbra/fixture".to_vec(),
    )
}

fn deadline() -> Deadline {
    Deadline { millis: 5_000 }
}

fn base() -> ImmutableBaseContract {
    ImmutableBaseContract { identity: "base".into(), fingerprint: vec![1, 2, 3] }
}

fn manifest() -> RunManifest {
    RunManifest { run_id: run_id(), immutable_base: base(), format_version: FORMAT_VERSION }
}

fn private_anchor<T: RawTransport>(transport: &mut T) -> Anchor {
    let existing = OpenRunIntent::OpenExisting;
    RunAnchors::open(transport, &config(), run_id(), existing, deadline())
        .expect("the fixture opens")
        .private()
        .expect("the fixture has one")
        .clone()
}

fn pinned(fake: &mut FakeTransport, handle: &FileHandle) -> PinnedObject {
    PinnedObject::pin(fake, handle.clone(), deadline()).expect("pins")
}

fn component(bytes: &[u8]) -> ComponentName {
    ComponentName::new(bytes.to_vec()).expect("component")
}

#[test]
fn short_replies_are_followed_to_the_end_of_a_private_file() {
    let (mut fake, _) = server();
    let private = private_anchor(&mut fake);
    provision_private_state(
        &mut fake,
        &mut owners(),
        &private,
        Ok(b"a manifest of many short replies".to_vec()),
        deadline(),
    )
    .expect("provisioned");
    let mut short = Short { inner: fake, most: 3 };
    let bytes = read_manifest(&mut short, &private, deadline()).expect("read whole");
    assert_eq!(bytes, b"a manifest of many short replies");
    let state = read_persisted_state(
        &mut short,
        &private,
        Ok(manifest()),
        run_id(),
        &base(),
        FORMAT_VERSION,
        deadline(),
    )
    .expect("eight bytes, three at a time");
    assert_eq!(state.epoch, LeaseEpoch(0));
}

#[test]
fn an_epoch_file_is_not_judged_by_its_first_reply() {
    let (mut fake, layout) = server();
    fake.insert_file(&layout.private, MANIFEST_FILE.as_bytes(), b"m".to_vec());
    fake.insert_file(&layout.private, EPOCH_FILE.as_bytes(), vec![0; 9]);
    let private = private_anchor(&mut fake);
    let mut short = Short { inner: fake, most: 8 };
    let refused = read_persisted_state(
        &mut short,
        &private,
        Ok(manifest()),
        run_id(),
        &base(),
        FORMAT_VERSION,
        deadline(),
    )
    .unwrap_err();
    assert_eq!(refused.kind, ErrorKind::CorruptJournal);
    assert!(refused.context.contains("is 9 bytes, not the 8"));
}

#[test]
fn a_private_file_past_its_bound_is_refused() {
    let (mut fake, layout) = server();
    let most = MAX_PRIVATE_FILE_BYTES as usize;
    fake.insert_file(&layout.private, MANIFEST_FILE.as_bytes(), vec![b'm'; most]);
    let private = private_anchor(&mut fake);
    let whole = read_manifest(&mut fake, &private, deadline()).expect("at the bound");
    assert_eq!(whole.len(), most);
    fake.insert_file(&layout.private, MANIFEST_FILE.as_bytes(), vec![b'm'; most + 1]);
    let refused = read_manifest(&mut fake, &private, deadline()).unwrap_err();
    assert_eq!(refused.kind, ErrorKind::CorruptJournal);
    assert_eq!(
        refused.context,
        "the run's .provider/manifest exceeds the 65536-byte bound before end of file; it is \
         refused rather than read as a truncated one"
    );
}

#[test]
fn a_marker_is_read_whole_and_never_as_a_prefix() {
    let marker = AdmissionMarker::new(
        WriterToken([7; 16]),
        WriterId("first".into()),
        LeaseEpoch(3),
        AdmissionPhase::Released,
    );
    let bytes = marker.encode().expect("fits");
    let (mut fake, layout) = server();
    fake.insert_file(&layout.run, WRITER_LOCK_FILE.as_bytes(), bytes.clone());
    let mut short = Short { inner: fake, most: 16 };
    let mut owners = owners();
    let name = component(WRITER_LOCK_FILE.as_bytes());
    let read = ServerMarkerStore::new(
        &mut short,
        &mut owners,
        layout.run.clone(),
        name.clone(),
        deadline(),
    )
    .read()
    .expect("read");
    assert_eq!(read, Some(bytes.clone()), "sixteen bytes of it are no legacy lock");

    let mut longer = bytes;
    longer.push(0);
    short.inner.insert_file(&layout.run, WRITER_LOCK_FILE.as_bytes(), longer);
    let refused =
        ServerMarkerStore::new(&mut short, &mut owners, layout.run.clone(), name, deadline())
            .read()
            .unwrap_err();
    assert_eq!(
        refused.text(),
        "authority: object identity unproven: admission marker is malformed: more bytes than a \
         record holds"
    );
}

#[test]
fn a_chain_of_pages_delivers_every_name_once() {
    let (mut fake, layout) = server();
    for at in 0..23u8 {
        fake.insert_file(&layout.root, format!("f{at:02}").as_bytes(), Vec::new());
    }
    fake.insert_file(&layout.root, b".gitignore", Vec::new());
    fake.insert_directory(&layout.root, PRIVATE_DIR.as_bytes());
    let directory = pinned(&mut fake, &layout.root);
    let filter = NoiseFilter::with_private_state();
    for limit in [1, 2, 7, 24, 100] {
        let mut names = Vec::new();
        let mut cursor = None;
        loop {
            let listed =
                page(&mut fake, &directory, cursor.as_ref(), limit, &filter.clone(), deadline())
                    .expect("lists");
            assert!(listed.entries.len() <= limit as usize);
            names.extend(listed.entries.iter().map(|entry| entry.name.as_bytes().to_vec()));
            cursor = listed.next;
            if cursor.is_none() {
                break;
            }
        }
        let mut expected = vec![b".gitignore".to_vec()];
        expected.extend((0..23u8).map(|at| format!("f{at:02}").into_bytes()));
        assert_eq!(names, expected);
    }
}

#[test]
fn a_rotated_verifier_voids_a_cursor_and_not_a_fresh_listing() {
    let (mut fake, layout) = server();
    for name in [b"a", b"b", b"c"] {
        fake.insert_file(&layout.root, name, Vec::new());
    }
    let directory = pinned(&mut fake, &layout.root);
    let filter = NoiseFilter::protocol_only();
    let first = page(&mut fake, &directory, None, 1, &filter, deadline()).expect("lists");
    let cursor = first.next.expect("more remains");
    fake.rotate_dir_verifier(DirVerifier([9; 8]));
    let refused =
        page(&mut fake, &directory, Some(&cursor), 1, &filter, deadline()).unwrap_err();
    assert_eq!(refused.kind, ErrorKind::StaleHandle);
    assert!(page(&mut fake, &directory, None, 1, &filter, deadline()).is_ok());
}

#[test]
fn an_absent_name_is_bound_exactly_when_the_disposition_creates() {
    for disposition in [
        CreateDisposition::OpenExisting,
        CreateDisposition::OpenOrCreate { mode: 0o600 },
        CreateDisposition::CreateNew { mode: 0o600 },
        CreateDisposition::CreateExclusive { verifier: Verifier([5; 8]) },
    ] {
        let (mut fake, layout) = server();
        let parent = pinned(&mut fake, &layout.root);
        let name = component(b"absent");
        let opened = OpenObject::open(
            &mut owners(),
            &mut fake,
            &parent,
            &name,
            disposition,
            ShareAccess::BOTH,
            deadline(),
        );
        let found = fake.lookup(&layout.root, &name, AttrMask(AttrMask::STAT), deadline());
        assert_eq!(found.is_ok(), disposition.creates());
        assert_eq!(opened.is_ok(), disposition.creates());
        if let Err(error) = opened {
            assert_eq!(error.status(), Some(Nfs4Status(Nfs4Status::NOENT)));
        }
    }
}

#[test]
fn objects_of_one_filesystem_have_their_own_ids() {
    let fsid = Fsid { major: 4, minor: 5 };
    let mut ids: Vec<_> = (0..1_000u64)
        .chain([u64::MAX, 1 << 63, 1 << 32])
        .map(|fileid| object_id(ObjectIdentity { fsid, fileid }).0)
        .collect();
    ids.sort();
    ids.dedup();
    assert_eq!(ids.len(), 1_003);
}

#[test]
fn no_filehandle_is_empty() {
    let (fake, layout) = server();
    assert!(!fake.root().is_empty());
    assert_eq!(layout.root.len(), 8);
}

/// Makes a directory and finds a child in it that another client has made already.
struct Racing {
    inner: TransportDispatcher,
}

impl NamespaceDispatcher<FakeTransport> for Racing {
    type State = ();

    fn state(&self) {}

    fn dispatched(
        _: (),
        _: <FakeTransport as RawTransport>::World,
        _: NamespaceMutationView,
    ) -> (
        Result<NamespaceOutcomeView, FacadeErrorView>,
        <FakeTransport as RawTransport>::World,
        (),
    ) {
        unreachable!("never run")
    }

    fn dispatch(
        &mut self,
        transport: &mut FakeTransport,
        mutation: &NamespaceMutation,
    ) -> FacadeResult<NamespaceOutcome> {
        let outcome = self.inner.dispatch(transport, mutation)?;
        if let NamespaceOutcome::Created(effect) = &outcome {
            transport.insert_directory(&effect.handle, b"leaf");
        }
        Ok(outcome)
    }
}

#[test]
fn made_parents_are_answered_with_the_leaf() {
    let (mut fake, _) = server();
    let ask = OpenRunRequest {
        run_id: run_id(),
        intent: OpenRunIntent::OpenExisting,
        immutable_base: base(),
        policy: StoragePolicy {
            read_only: false,
            require_strict_remote_persistence: false,
            require_kernel_shadow: false,
            format_version: FORMAT_VERSION,
        },
    };
    let operations = Operations::open(&mut fake, &config(), &ask, 0, deadline()).expect("opens");
    let path = |bytes: &[u8]| StoragePath::new(StorageAnchor::Root, bytes.to_vec()).expect("path");
    let request = |key: &str, operation| StorageRequest {
        context: RequestContext {
            run_id: run_id(),
            operation_id: OperationId([1; 16]),
            idempotency_key: IdempotencyKey(key.into()),
            writer_epoch: Some(LeaseEpoch(1)),
        },
        operation,
    };
    let mut replay = FakeReplayLog::default();
    let mut registry = owners();
    let mut racing = Racing { inner: TransportDispatcher::new() };
    let mut context = OpsContext {
        transport: &mut fake,
        replay: &mut replay,
        mutations: Some(MutationContext {
            owners: &mut registry,
            create_verifier: None,
            namespace: Some(&mut racing),
        }),
        deadline: deadline(),
    };
    let parents = StorageOperation::CreateParents { path: path(b"made/leaf"), mode: 0o755 };
    let made = operations.execute(&mut context, &request("p", parents)).expect("made");
    let stat = StorageOperation::Stat { path: path(b"made/leaf") };
    let leaf = operations.execute(&mut context, &request("s", stat)).expect("there");
    match (made, leaf) {
        (StorageResponse::Created(made), StorageResponse::Stat(leaf)) => {
            assert_eq!(made.stat.object_id, leaf.object_id);
        }
        other => panic!("the leaf is reported, not {other:?}"),
    }
}
