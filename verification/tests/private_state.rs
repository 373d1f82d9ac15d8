//! Provisioned run state, its validation, and the retry journal.
#![allow(dead_code)]
use uuid::Uuid;

use umbra_storage_nfs_userspace::anchor::{
    provision_private_state, read_manifest, read_persisted_state, within_labelled, Anchor,
    RunAnchors, RunManifest,
};
use umbra_storage_nfs_userspace::contract::{
    BlobStat, BytePath, ErrorKind, IdempotencyKey, ImmutableBaseContract, LeaseEpoch, ObjectId,
    ObjectKind, ObjectResult, OpenRunIntent, OperationId, RenameMode, RequestContext, RunId,
    StorageAnchor, StorageOperation, StoragePath, StorageRequest, StorageResponse,
};
use umbra_storage_nfs_userspace::crud::read_anonymous;
use umbra_storage_nfs_userspace::fake::FakeTransport;
use umbra_storage_nfs_userspace::handle::{ClientId, FileHandle, ObjectIdentity, Session, SessionId};
use umbra_storage_nfs_userspace::identity::PinnedObject;
use umbra_storage_nfs_userspace::journal::{
    admit_fresh, consult, is_blocked, lookup, read_evidence, record_recovered, recover,
    recover_interrupted, settle, Admission, Lookup, ObjectEvidence, Preconditions, Recovered,
    Recovery, RetryRecord, MAX_RECORD_BYTES,
};
use umbra_storage_nfs_userspace::layout::{PRIVATE_DIR, RETRIES_DIR};
use umbra_storage_nfs_userspace::ops::Observation;
use umbra_storage_nfs_userspace::probe::qualify;
use umbra_storage_nfs_userspace::state::open_owner::OpenOwnerRegistry;
use umbra_storage_nfs_userspace::storage::NfsUserspaceConfig;
use umbra_storage_nfs_userspace::transport::{
    AttrMask, ComponentName, ConnectionEpoch, Deadline, Fsid, RawTransport,
};

const EXPORT: &[u8] = b"exports/umbra";
const RUN_PARENT: &[u8] = b"runs";
const RUN_UUID: &str = "0a1b2c3d-4e5f-4a6b-8c7d-9e0f1a2b3c4d";

fn run_id() -> RunId {
    RunId(*Uuid::parse_str(RUN_UUID).expect("pinned run uuid").as_bytes())
}

fn config() -> NfsUserspaceConfig {
    NfsUserspaceConfig {
        host: b"127.0.0.1".to_vec(),
        port: 12108,
        export: BytePath::new(EXPORT.to_vec()).expect("export path"),
        run_parent: BytePath::new(RUN_PARENT.to_vec()).expect("run parent"),
        root_anchor: BytePath::new(b"root".to_vec()).expect("root anchor"),
        control_anchor: BytePath::new(b"control".to_vec()).expect("control anchor"),
        deadline: Deadline { millis: 5_000 },
    }
}

struct Layout {
    run: FileHandle,
    root: FileHandle,
    control: FileHandle,
}

fn server() -> (FakeTransport, Layout) {
    let mut fake = FakeTransport::new();
    let mut current = fake.root();
    for component in EXPORT.split(|byte| *byte == b'/') {
        current = fake.insert_directory(&current, component);
    }
    current = fake.insert_directory(&current, RUN_PARENT);
    let run = fake.insert_directory(&current, RUN_UUID.as_bytes());
    let root = fake.insert_directory(&run, b"root");
    let control = fake.insert_directory(&run, b"control");
    fake.insert_directory(&run, PRIVATE_DIR.as_bytes());
    (fake, Layout { run, root, control })
}

fn owners() -> OpenOwnerRegistry {
    OpenOwnerRegistry::new(
        Session::establish(SessionId(1), ClientId(7), ConnectionEpoch(1)),
        b"umbra/fixture".to_vec(),
    )
}

fn deadline() -> Deadline {
    Deadline { millis: 5_000 }
}

fn base() -> ImmutableBaseContract {
    ImmutableBaseContract { identity: "base".into(), fingerprint: vec![1, 2, 3] }
}

fn manifest() -> RunManifest {
    RunManifest { run_id: run_id(), immutable_base: base(), format_version: 1 }
}

struct Run {
    fake: FakeTransport,
    owners: OpenOwnerRegistry,
    anchors: RunAnchors,
}

impl Run {
    fn private(&self) -> Anchor {
        self.anchors.private().expect("the fixture has one").clone()
    }
}

fn provisioned() -> Run {
    let (mut fake, _) = server();
    let mut owners = owners();
    let anchors = RunAnchors::open(
        &mut fake,
        &config(),
        run_id(),
        OpenRunIntent::OpenExisting,
        deadline(),
    )
    .expect("the fixture opens");
    let private = anchors.private().expect("the fixture has one").clone();
    provision_private_state(
        &mut fake,
        &mut owners,
        &private,
        Ok(b"[manifest]".to_vec()),
        deadline(),
    )
    .expect("provisioned");
    Run { fake, owners, anchors }
}

fn request(key: &str, operation: u128, bytes: &[u8]) -> StorageRequest {
    StorageRequest {
        context: RequestContext {
            run_id: run_id(),
            operation_id: OperationId(*Uuid::from_u128(operation).as_bytes()),
            idempotency_key: IdempotencyKey(key.into()),
            writer_epoch: Some(LeaseEpoch(1)),
        },
        operation: StorageOperation::WriteAt {
            path: path(b"note"),
            offset: 0,
            bytes: bytes.to_vec(),
        },
    }
}

fn path(bytes: &[u8]) -> StoragePath {
    StoragePath::new(StorageAnchor::Root, bytes.to_vec()).expect("path")
}

fn evidence(fileid: u64, change: Option<u64>) -> ObjectEvidence {
    ObjectEvidence {
        identity: ObjectIdentity { fsid: Fsid { major: 1, minor: 2 }, fileid },
        change,
        size: Some(4),
        modified_nanos: Some(9),
    }
}

fn nothing() -> Preconditions {
    Preconditions { parent: None, target: None, destination_parent: None, destination: None }
}

#[test]
fn a_provisioned_run_holds_its_manifest_and_a_zero_epoch() {
    let mut run = provisioned();
    let private = run.private();
    assert_eq!(
        read_manifest(&mut run.fake, &private, deadline()).expect("present"),
        b"[manifest]"
    );
    let state = read_persisted_state(
        &mut run.fake,
        &private,
        Ok(manifest()),
        run_id(),
        &base(),
        1,
        deadline(),
    )
    .expect("the requested run");
    assert_eq!(state.epoch, LeaseEpoch(0));
    assert_eq!(state.run_id, run_id());
    assert_eq!(state.format_version, 1);
    assert_eq!(state.immutable_base, base());
}

#[test]
fn provisioning_stops_at_a_manifest_that_could_not_be_encoded() {
    let (mut fake, _) = server();
    let mut owners = owners();
    let anchors = RunAnchors::open(
        &mut fake,
        &config(),
        run_id(),
        OpenRunIntent::OpenExisting,
        deadline(),
    )
    .expect("opens");
    let private = anchors.private().expect("present").clone();
    let error = provision_private_state(
        &mut fake,
        &mut owners,
        &private,
        Err("too deep".into()),
        deadline(),
    )
    .unwrap_err();
    assert_eq!(error.kind, ErrorKind::InvalidState);
    assert_eq!(error.context, "the run manifest could not be encoded: too deep");
    let missing = read_manifest(&mut fake, &private, deadline()).unwrap_err();
    assert_eq!(missing.kind, ErrorKind::CorruptJournal);
}

#[test]
fn a_manifest_of_another_run_base_or_format_is_refused() {
    let mut run = provisioned();
    let private = run.private();
    let mut judge = |decoded: Result<RunManifest, String>| {
        read_persisted_state(
            &mut run.fake,
            &private,
            decoded,
            run_id(),
            &base(),
            1,
            deadline(),
        )
        .unwrap_err()
    };
    let error = judge(Err("expected value".into()));
    assert_eq!(error.kind, ErrorKind::CorruptJournal);
    assert_eq!(
        error.context,
        "the run manifest does not decode (expected value); the bytes are retained on the server \
         for inspection and the run is refused"
    );
    let error = judge(Ok(RunManifest { run_id: RunId([0; 16]), ..manifest() }));
    assert_eq!(error.kind, ErrorKind::InvalidState);
    assert_eq!(
        error.context,
        "the run directory's manifest records run 00000000-0000-0000-0000-000000000000, not the \
         requested 0a1b2c3d-4e5f-4a6b-8c7d-9e0f1a2b3c4d"
    );
    let error = judge(Ok(RunManifest { format_version: 2, ..manifest() }));
    assert_eq!(error.kind, ErrorKind::ProtocolMismatch);
    assert_eq!(
        error.context,
        "the run on the server was written at format version 2, not the 1 this request declares"
    );
    let error = judge(Ok(RunManifest {
        immutable_base: ImmutableBaseContract { identity: "o\"ther".into(), fingerprint: vec![] },
        ..manifest()
    }));
    assert_eq!(error.kind, ErrorKind::InvalidState);
    assert!(error.context.contains("immutable base \"o\\\"ther\", not the \"base\""));
}

#[test]
fn an_epoch_file_that_is_missing_or_misshapen_is_missing_evidence() {
    let (mut fake, layout) = server();
    let anchors = RunAnchors::open(
        &mut fake,
        &config(),
        run_id(),
        OpenRunIntent::OpenExisting,
        deadline(),
    )
    .expect("opens");
    let private = anchors.private().expect("present").clone();
    let judge = |fake: &mut FakeTransport| {
        read_persisted_state(fake, &private, Ok(manifest()), run_id(), &base(), 1, deadline())
    };
    let error = judge(&mut fake).unwrap_err();
    assert_eq!(error.kind, ErrorKind::CorruptJournal);
    assert!(error.context.contains("no .provider/epoch"));
    fake.insert_file(private.pin().handle(), b"epoch", vec![1, 2, 3]);
    let error = judge(&mut fake).unwrap_err();
    assert!(error.context.contains("is 3 bytes, not the 8"));
    fake.insert_file(private.pin().handle(), b"epoch", 258u64.to_le_bytes().to_vec());
    assert_eq!(judge(&mut fake).expect("eight bytes").epoch, LeaseEpoch(258));
    let _ = layout.run;
}

#[test]
fn an_object_on_another_filesystem_is_refused() {
    let (mut fake, layout) = server();
    let pin = PinnedObject::pin(&mut fake, layout.root, deadline()).expect("pin");
    let home = pin.identity().fsid;
    assert!(within_labelled(pin.clone(), home, "root", "resolve").is_ok());
    let elsewhere = Fsid { major: home.major + 1, minor: home.minor };
    let error = within_labelled(pin, elsewhere, "root", "execute.stat").unwrap_err();
    assert_eq!(error.kind, ErrorKind::InvalidPath);
    assert_eq!(error.operation, "execute.stat");
    assert_eq!(
        error.context,
        format!(
            "\"root\" is on filesystem {}:{}, not the run's {}:{}; the walk does not cross into \
             another exported filesystem",
            home.major, home.minor, elsewhere.major, elsewhere.minor
        )
    );
}

#[test]
fn a_name_that_is_not_utf8_is_shown_lossily() {
    let (mut fake, layout) = server();
    fake.insert_file(&layout.root, b"\xffile", Vec::new());
    let anchors = RunAnchors::open(
        &mut fake,
        &config(),
        run_id(),
        OpenRunIntent::OpenExisting,
        deadline(),
    )
    .expect("opens");
    let error = anchors
        .resolve(&mut fake, &path(b"\xffile/deeper"), deadline())
        .unwrap_err();
    assert_eq!(error.context, "\"\u{fffd}ile\" is Regular, not a directory");
}

#[test]
fn an_intent_is_recorded_settled_and_answered_from_its_record() {
    let mut run = provisioned();
    let private = run.private();
    let ask = request("k", 1, b"abc");
    let consulted = consult(&mut run.fake, &private, &ask, deadline()).expect("consulted");
    assert_eq!(consulted.record(), None);
    assert!(matches!(
        lookup(&mut run.fake, &consulted, &ask, None, "op", deadline()).expect("fresh"),
        Lookup::Fresh
    ));
    admit_fresh(
        &mut run.fake,
        &mut run.owners,
        &private,
        &ask,
        Ok(b"[intent]".to_vec()),
        Ok(b"[before]".to_vec()),
        "op",
        deadline(),
    )
    .expect("admitted");

    let consulted = consult(&mut run.fake, &private, &ask, deadline()).expect("consulted");
    assert_eq!(consulted.record(), Some(&b"[intent]"[..]));
    let open = RetryRecord { request: ask.clone(), outcome: None };
    match lookup(&mut run.fake, &consulted, &ask, Some(Ok(open)), "op", deadline()) {
        Ok(Lookup::Interrupted(bytes)) => assert_eq!(bytes, b"[before]"),
        other => panic!("an intent without an outcome is interrupted, not {other:?}"),
    }

    settle(
        &mut run.fake,
        &mut run.owners,
        &private,
        &ask,
        Ok(b"[settled, and shorter]".to_vec()),
        "op",
        deadline(),
    )
    .expect("settled");
    settle(
        &mut run.fake,
        &mut run.owners,
        &private,
        &ask,
        Ok(b"[short]".to_vec()),
        "op",
        deadline(),
    )
    .expect("a shorter record leaves no tail");
    let consulted = consult(&mut run.fake, &private, &ask, deadline()).expect("consulted");
    assert_eq!(consulted.record(), Some(&b"[short]"[..]));
    let settled = RetryRecord { request: ask.clone(), outcome: Some(Ok(StorageResponse::WriteAt(3))) };
    match lookup(&mut run.fake, &consulted, &ask, Some(Ok(settled)), "op", deadline()) {
        Ok(Lookup::Recorded(Ok(StorageResponse::WriteAt(count)))) => assert_eq!(count, 3),
        other => panic!("a settled key answers from its record, not {other:?}"),
    }
}

#[test]
fn a_key_or_an_operation_id_serves_one_request() {
    let mut run = provisioned();
    let private = run.private();
    let first = request("k1", 7, b"abc");
    admit_fresh(
        &mut run.fake,
        &mut run.owners,
        &private,
        &first,
        Ok(b"[1]".to_vec()),
        Ok(b"[]".to_vec()),
        "op",
        deadline(),
    )
    .expect("admitted");
    let error = admit_fresh(
        &mut run.fake,
        &mut run.owners,
        &private,
        &request("k2", 7, b"abc"),
        Ok(b"[2]".to_vec()),
        Ok(b"[]".to_vec()),
        "op",
        deadline(),
    )
    .unwrap_err();
    assert_eq!(error.kind, ErrorKind::InvalidInput);
    assert!(error.context.contains("operation id was already used"));

    let consulted = consult(&mut run.fake, &private, &first, deadline()).expect("consulted");
    let other = RetryRecord { request: request("k1", 7, b"xyz"), outcome: None };
    let error = lookup(&mut run.fake, &consulted, &first, Some(Ok(other)), "op", deadline())
        .unwrap_err();
    assert_eq!(error.kind, ErrorKind::InvalidInput);
    let error =
        lookup(&mut run.fake, &consulted, &first, Some(Err("eof".into())), "op", deadline())
            .unwrap_err();
    assert_eq!(error.kind, ErrorKind::CorruptJournal);
    let error = read_evidence(Err("eof".into()), "op").unwrap_err();
    assert_eq!(error.kind, ErrorKind::CorruptJournal);
    assert_eq!(read_evidence(Ok(nothing()), "op").expect("decoded"), nothing());
}

#[test]
fn an_intent_without_evidence_blocks_the_run() {
    let mut run = provisioned();
    let private = run.private();
    let ask = request("legacy", 3, b"abc");
    let retries = ComponentName::new(RETRIES_DIR.as_bytes().to_vec()).expect("component");
    let (retries, _) = run
        .fake
        .lookup(private.pin().handle(), &retries, AttrMask(AttrMask::STAT), deadline())
        .expect("provisioned");
    run.fake.insert_file(&retries, b"key-6c6567616379", b"[legacy]".to_vec());
    let consulted = consult(&mut run.fake, &private, &ask, deadline()).expect("consulted");
    assert_eq!(consulted.record(), Some(&b"[legacy]"[..]));
    let open = RetryRecord { request: ask.clone(), outcome: None };
    let error = lookup(&mut run.fake, &consulted, &ask, Some(Ok(open)), "op", deadline())
        .unwrap_err();
    assert!(is_blocked(&error));
    let error = lookup(&mut run.fake, &consulted, &ask, None, "op", deadline()).unwrap_err();
    assert_eq!(error.kind, ErrorKind::CorruptJournal, "a record that is there was not decoded");
}

#[test]
fn a_decoding_without_a_record_is_refused() {
    let mut run = provisioned();
    let private = run.private();
    let ask = request("none", 4, b"abc");
    let consulted = consult(&mut run.fake, &private, &ask, deadline()).expect("consulted");
    let open = RetryRecord { request: ask.clone(), outcome: None };
    let error = lookup(&mut run.fake, &consulted, &ask, Some(Ok(open)), "op", deadline())
        .unwrap_err();
    assert_eq!(error.kind, ErrorKind::CorruptJournal);
}

#[test]
fn a_record_is_bounded_and_written_in_as_many_trips_as_it_takes() {
    let mut run = provisioned();
    let private = run.private();
    let ask = request("big", 9, b"abc");
    let error = admit_fresh(
        &mut run.fake,
        &mut run.owners,
        &private,
        &ask,
        Ok(vec![7; MAX_RECORD_BYTES as usize + 1]),
        Ok(b"[]".to_vec()),
        "op",
        deadline(),
    )
    .unwrap_err();
    assert_eq!(error.kind, ErrorKind::InvalidInput);
    assert_eq!(
        error.context,
        "this request encodes to a 8388609-byte retry record, past the 8388608-byte bound this \
         journal can write and read back whole; it is refused before any record is created"
    );
    let error = admit_fresh(
        &mut run.fake,
        &mut run.owners,
        &private,
        &ask,
        Err("cyclic".into()),
        Ok(b"[]".to_vec()),
        "op",
        deadline(),
    )
    .unwrap_err();
    assert_eq!(error.context, "a retry record could not be encoded: cyclic");
    let error = admit_fresh(
        &mut run.fake,
        &mut run.owners,
        &private,
        &ask,
        Ok(b"[]".to_vec()),
        Err("cyclic".into()),
        "op",
        deadline(),
    )
    .unwrap_err();
    assert_eq!(error.context, "the preconditions could not be encoded: cyclic");
    let consulted = consult(&mut run.fake, &private, &ask, deadline()).expect("consulted");
    assert_eq!(consulted.record(), None, "nothing was created");

    run.fake.set_write_cap(Some(70_000));
    let record: Vec<u8> = (0..1_500_000u32).map(|i| (i % 251) as u8).collect();
    admit_fresh(
        &mut run.fake,
        &mut run.owners,
        &private,
        &ask,
        Ok(record.clone()),
        Ok(b"[]".to_vec()),
        "op",
        deadline(),
    )
    .expect("admitted over several writes");
    let consulted = consult(&mut run.fake, &private, &ask, deadline()).expect("several reads");
    assert_eq!(consulted.record(), Some(&record[..]));

    run.fake.set_write_cap(Some(0));
    let error = settle(
        &mut run.fake,
        &mut run.owners,
        &private,
        &ask,
        Ok(b"[1]".to_vec()),
        "op",
        deadline(),
    )
    .unwrap_err();
    assert_eq!(error.kind, ErrorKind::Io);
    assert_eq!(
        error.context,
        "the server accepted no bytes at offset 0 of a 3-byte retry record; the record is \
         incomplete on the server"
    );
}

#[test]
fn a_recovery_redispatches_settles_or_gives_up() {
    let mut run = provisioned();
    let private = run.private();
    let ask = request("r", 5, b"abc");
    let before = Preconditions { target: Some(evidence(4, Some(1))), ..nothing() };
    let same = Observation { evidence: before, destination_result: None };
    assert!(matches!(
        recover_interrupted(&mut run.fake, &private, &ask, &before, &same, "op", deadline())
            .expect("unchanged"),
        Recovered::Redispatch
    ));
    let moved = Observation {
        evidence: Preconditions { target: Some(evidence(4, Some(2))), ..nothing() },
        destination_result: None,
    };
    let error =
        recover_interrupted(&mut run.fake, &private, &ask, &before, &moved, "op", deadline())
            .unwrap_err();
    assert!(is_blocked(&error));
    assert!(error.context.contains("change Some(1) -> Some(2), size Some(4) -> Some(4)"));

    let rename = StorageRequest {
        operation: StorageOperation::Rename {
            source: path(b"a"),
            destination: path(b"b"),
            mode: RenameMode::Replace,
        },
        ..request("r", 5, b"abc")
    };
    let result = ObjectResult {
        stat: BlobStat {
            object_id: ObjectId([3; 16]),
            kind: ObjectKind::File,
            len: 4,
            link_count: 1,
            mode: 0o600,
            uid: 1,
            gid: 2,
            modified_nanos: 9,
        },
        rewrite_target: None,
    };
    let landed = Observation {
        evidence: Preconditions { destination: Some(evidence(4, Some(8))), ..nothing() },
        destination_result: Some(result),
    };
    admit_fresh(
        &mut run.fake,
        &mut run.owners,
        &private,
        &rename,
        Ok(b"[intent]".to_vec()),
        Ok(b"[]".to_vec()),
        "op",
        deadline(),
    )
    .expect("admitted");
    let Recovered::Settle { retries, response } =
        recover_interrupted(&mut run.fake, &private, &rename, &before, &landed, "op", deadline())
            .expect("the object is at its destination")
    else {
        panic!("an applied rename settles");
    };
    let admission = record_recovered(
        &mut run.fake,
        &mut run.owners,
        &retries,
        &rename,
        response,
        Ok(b"[recovered]".to_vec()),
        "op",
        deadline(),
    )
    .expect("recorded");
    assert!(matches!(admission, Admission::Recorded(Ok(StorageResponse::Renamed(_)))));
    let consulted = consult(&mut run.fake, &private, &rename, deadline()).expect("consulted");
    assert_eq!(consulted.record(), Some(&b"[recovered]"[..]));
}

#[test]
fn the_recovery_table_never_guesses() {
    let create = StorageOperation::CreateParents { path: path(b"a"), mode: 0o700 };
    assert_eq!(recover(&create, &nothing(), &nothing()), Recovery::NotApplied);

    let unlink = StorageOperation::Unlink { path: path(b"a") };
    let before = Preconditions {
        parent: Some(evidence(1, Some(10))),
        target: Some(evidence(2, Some(20))),
        ..nothing()
    };
    let gone = Preconditions { parent: Some(evidence(1, Some(11))), ..nothing() };
    assert_eq!(recover(&unlink, &before, &gone), Recovery::Applied);
    let impossible = Preconditions { parent: Some(evidence(1, Some(10))), ..nothing() };
    assert!(matches!(recover(&unlink, &before, &impossible), Recovery::Ambiguous(_)));
    assert_eq!(recover(&unlink, &before, &before), Recovery::NotApplied);
    let sibling = Preconditions { parent: Some(evidence(1, Some(11))), ..before };
    assert!(matches!(recover(&unlink, &before, &sibling), Recovery::Ambiguous(_)));
    let moved = Preconditions { parent: Some(evidence(9, Some(10))), ..before };
    assert_eq!(
        recover(&unlink, &before, &moved),
        Recovery::Ambiguous(
            "the parent directory was ObjectIdentity { fsid: Fsid { major: 1, minor: 2 }, fileid: \
             1 } before dispatch and is ObjectIdentity { fsid: Fsid { major: 1, minor: 2 }, \
             fileid: 9 } now"
                .into()
        )
    );
    let unknown = Preconditions {
        parent: Some(evidence(1, None)),
        target: Some(evidence(2, None)),
        ..nothing()
    };
    assert!(
        matches!(recover(&unlink, &unknown, &unknown), Recovery::Ambiguous(_)),
        "an unknown change attribute is no agreement"
    );
    let lookup = StorageOperation::Lookup { path: path(b"a") };
    assert!(matches!(recover(&lookup, &nothing(), &nothing()), Recovery::Ambiguous(_)));
}

#[test]
fn a_transport_that_declares_no_boundary_does_not_qualify() {
    let mut run = provisioned();
    let private = run.private();
    assert!(!qualify(&mut run.fake, &mut run.owners, &private, deadline()));
    let anchor = private.pin();
    assert!(
        read_anonymous(&mut run.fake, anchor, 0, 4, deadline()).is_err(),
        "a directory is not read as a file"
    );
}

