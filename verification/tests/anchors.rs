//! Anchors, tokens and path resolution.
#![allow(dead_code)]
use uuid::Uuid;

use umbra_storage_nfs_userspace::anchor::{component, AnchorKind, HandleMint, RunAnchors, Target};
use umbra_storage_nfs_userspace::contract::{
    BytePath, ErrorKind, OpenRunIntent, RunId, StorageAnchor, StorageHandle, StoragePath,
};
use umbra_storage_nfs_userspace::fake::FakeTransport;
use umbra_storage_nfs_userspace::handle::FileHandle;
use umbra_storage_nfs_userspace::layout::PRIVATE_DIR;
use umbra_storage_nfs_userspace::storage::NfsUserspaceConfig;
use umbra_storage_nfs_userspace::transport::Deadline;

const EXPORT: &[u8] = b"exports/umbra";
const RUN_PARENT: &[u8] = b"runs";
const RUN_UUID: &str = "0a1b2c3d-4e5f-4a6b-8c7d-9e0f1a2b3c4d";

fn run_id() -> RunId {
    RunId(*Uuid::parse_str(RUN_UUID).expect("pinned run uuid").as_bytes())
}

fn config() -> NfsUserspaceConfig {
    NfsUserspaceConfig {
        host: b"127.0.0.1".to_vec(),
        port: 12108,
        export: BytePath::new(EXPORT.to_vec()).expect("export path"),
        run_parent: BytePath::new(RUN_PARENT.to_vec()).expect("run parent"),
        root_anchor: BytePath::new(b"root".to_vec()).expect("root anchor"),
        control_anchor: BytePath::new(b"control".to_vec()).expect("control anchor"),
        deadline: Deadline { millis: 5_000 },
    }
}

struct Layout {
    run: FileHandle,
    root: FileHandle,
    control: FileHandle,
}

fn server() -> (FakeTransport, Layout) {
    let mut fake = FakeTransport::new();
    let mut current = fake.root();
    for component in EXPORT.split(|byte| *byte == b'/') {
        current = fake.insert_directory(&current, component);
    }
    current = fake.insert_directory(&current, RUN_PARENT);
    let run = fake.insert_directory(&current, RUN_UUID.as_bytes());
    let root = fake.insert_directory(&run, b"root");
    let control = fake.insert_directory(&run, b"control");
    fake.insert_directory(&run, PRIVATE_DIR.as_bytes());
    (fake, Layout { run, root, control })
}

fn deadline() -> Deadline {
    Deadline { millis: 5_000 }
}

fn anchors(fake: &mut FakeTransport) -> RunAnchors {
    RunAnchors::open(
        fake,
        &config(),
        run_id(),
        OpenRunIntent::OpenExisting,
        deadline(),
    )
    .expect("the fixture layout resolves")
}

#[test]
fn every_anchor_resolves_to_a_distinct_directory_object() {
    let (mut fake, _) = server();
    let resolved = anchors(&mut fake);
    for anchor in [resolved.run(), resolved.root(), resolved.control()] {
        assert!(anchor.pin().is_directory());
    }
    assert_ne!(
        resolved.root().pin().identity(),
        resolved.control().pin().identity()
    );
    assert_ne!(
        resolved.run().pin().identity(),
        resolved.root().pin().identity()
    );
    assert!(
        resolved.private().is_some(),
        "the fixture run carries .provider"
    );
    assert_eq!(
        resolved.for_contract(StorageAnchor::Root).kind(),
        AnchorKind::Root
    );
    assert_eq!(AnchorKind::Run.contract_anchor(), None);
    assert_eq!(AnchorKind::Private.contract_anchor(), None);
}

#[test]
fn a_binding_publishes_a_token_and_never_a_physical_path() {
    let (mut fake, _) = server();
    let resolved = anchors(&mut fake);
    let mint = HandleMint::for_session(run_id(), 0);
    let binding = resolved.root().binding(&mint);
    assert_eq!(binding.physical_path, None);
    let recovered = mint.accept(&binding.handle).expect("our own token");
    assert_eq!(
        recovered.as_bytes(),
        resolved.root().pin().handle().as_bytes()
    );
}

#[test]
fn a_token_from_another_session_is_rejected_rather_than_resolved() {
    let (mut fake, _) = server();
    let resolved = anchors(&mut fake);
    let first = HandleMint::for_session(run_id(), 0);
    let second = HandleMint::for_session(run_id(), 1);
    let token = resolved.root().binding(&first).handle;
    let error = second.accept(&token).unwrap_err();
    assert_eq!(error.kind, ErrorKind::StaleHandle);
    assert!(second
        .accept(&StorageHandle(b"not a token".to_vec()))
        .is_err());
    assert!(second.accept(&StorageHandle(Vec::new())).is_err());
}

#[test]
fn creating_a_run_writes_the_layout_the_mounted_adapter_reads() {
    let mut fake = FakeTransport::new();
    let mut current = fake.root();
    for part in EXPORT.split(|byte| *byte == b'/') {
        current = fake.insert_directory(&current, part);
    }
    fake.insert_directory(&current, RUN_PARENT);

    let anchors = RunAnchors::open(
        &mut fake,
        &config(),
        run_id(),
        OpenRunIntent::CreateNew,
        deadline(),
    )
    .expect("CreateNew builds the run layout");

    assert_eq!(anchors.run().kind(), AnchorKind::Run);
    assert!(anchors.private().is_some());
    let ids = [
        anchors.run().pin().identity().fileid,
        anchors.root().pin().identity().fileid,
        anchors.control().pin().identity().fileid,
        anchors.private().expect("private").pin().identity().fileid,
    ];
    let unique: std::collections::BTreeSet<_> = ids.iter().collect();
    assert_eq!(unique.len(), ids.len(), "anchors must be distinct objects");

    let reopened = RunAnchors::open(
        &mut fake,
        &config(),
        run_id(),
        OpenRunIntent::OpenExisting,
        deadline(),
    )
    .expect("the created run reopens");
    assert_eq!(
        reopened.root().pin().identity(),
        anchors.root().pin().identity()
    );
}

#[test]
fn creating_a_run_that_already_exists_is_a_collision_not_a_resumption() {
    let (mut fake, _) = server();
    let error = RunAnchors::open(
        &mut fake,
        &config(),
        run_id(),
        OpenRunIntent::CreateNew,
        deadline(),
    )
    .unwrap_err();
    assert_eq!(error.kind, ErrorKind::AlreadyExists);
}

#[test]
fn creating_a_run_under_a_missing_export_is_refused_rather_than_relocated() {
    let mut fake = FakeTransport::new();
    let error = RunAnchors::open(
        &mut fake,
        &config(),
        run_id(),
        OpenRunIntent::CreateNew,
        deadline(),
    )
    .unwrap_err();
    assert_eq!(error.kind, ErrorKind::NotFound);
}

#[test]
fn resolution_stops_at_a_non_directory_component_instead_of_walking_through() {
    let (mut fake, layout) = server();
    fake.insert_file(&layout.root, b"file", b"bytes".to_vec());
    let resolved = anchors(&mut fake);
    let path = StoragePath::new(StorageAnchor::Root, b"file/deeper".to_vec()).expect("path");
    let error = resolved.resolve(&mut fake, &path, deadline()).unwrap_err();
    assert_eq!(error.kind, ErrorKind::InvalidPath);
    assert!(error.context.contains("not a directory"));
}

#[test]
fn an_empty_path_names_the_anchor_and_a_named_path_names_its_parent() {
    let (mut fake, layout) = server();
    fake.insert_file(&layout.root, b"note", b"x".to_vec());
    let resolved = anchors(&mut fake);
    let anchor_path = StoragePath::new(StorageAnchor::Root, Vec::new()).expect("path");
    match resolved
        .resolve_parent(&mut fake, &anchor_path, deadline())
        .expect("resolves")
    {
        Target::Anchor(pin) => {
            assert_eq!(pin.identity(), resolved.root().pin().identity())
        }
        Target::Named { .. } => panic!("an empty path names the anchor itself"),
    }
    let named = StoragePath::new(StorageAnchor::Root, b"note".to_vec()).expect("path");
    match resolved
        .resolve_parent(&mut fake, &named, deadline())
        .expect("resolves")
    {
        Target::Named { parent, name } => {
            assert_eq!(parent.identity(), resolved.root().pin().identity());
            assert_eq!(name.as_bytes(), b"note");
        }
        Target::Anchor(_) => panic!("a named path names a child"),
    }
}

#[test]
fn a_component_that_could_escape_the_anchor_is_unrepresentable() {
    for escape in [b"..".as_slice(), b".", b"", b"a/../b"] {
        assert!(
            StoragePath::new(StorageAnchor::Root, escape.to_vec()).is_err()
                || component(escape.to_vec()).is_err(),
            "{escape:?} must not survive both layers"
        );
    }
    assert!(component(b"with/slash".to_vec()).is_err());
    assert!(component(b"with\0nul".to_vec()).is_err());
    assert!(component(b"ordinary".to_vec()).is_ok());
    assert_eq!(
        component(vec![0xFF, 0xFE])
            .expect("byte names survive")
            .as_bytes(),
        &[0xFF, 0xFE]
    );
}
