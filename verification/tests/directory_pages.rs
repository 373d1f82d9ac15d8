//! Bounded directory pages.
#![allow(dead_code)]
use uuid::Uuid;

use umbra_storage_nfs_userspace::contract::{BytePath, ErrorKind, ListCursor, RunId};
use umbra_storage_nfs_userspace::fake::FakeTransport;
use umbra_storage_nfs_userspace::handle::{FileHandle, ObjectIdentity};
use umbra_storage_nfs_userspace::identity::PinnedObject;
use umbra_storage_nfs_userspace::layout::PRIVATE_DIR;
use umbra_storage_nfs_userspace::pages::{page, NoiseFilter, PageCursor};
use umbra_storage_nfs_userspace::storage::NfsUserspaceConfig;
use umbra_storage_nfs_userspace::transport::{Deadline, DirCookie, DirVerifier, Fsid};

const EXPORT: &[u8] = b"exports/umbra";
const RUN_PARENT: &[u8] = b"runs";
const RUN_UUID: &str = "0a1b2c3d-4e5f-4a6b-8c7d-9e0f1a2b3c4d";

fn run_id() -> RunId {
    RunId(*Uuid::parse_str(RUN_UUID).expect("pinned run uuid").as_bytes())
}

fn config() -> NfsUserspaceConfig {
    NfsUserspaceConfig {
        host: b"127.0.0.1".to_vec(),
        port: 12108,
        export: BytePath::new(EXPORT.to_vec()).expect("export path"),
        run_parent: BytePath::new(RUN_PARENT.to_vec()).expect("run parent"),
        root_anchor: BytePath::new(b"root".to_vec()).expect("root anchor"),
        control_anchor: BytePath::new(b"control".to_vec()).expect("control anchor"),
        deadline: Deadline { millis: 5_000 },
    }
}

struct Layout {
    run: FileHandle,
    root: FileHandle,
    control: FileHandle,
}

fn server() -> (FakeTransport, Layout) {
    let mut fake = FakeTransport::new();
    let mut current = fake.root();
    for component in EXPORT.split(|byte| *byte == b'/') {
        current = fake.insert_directory(&current, component);
    }
    current = fake.insert_directory(&current, RUN_PARENT);
    let run = fake.insert_directory(&current, RUN_UUID.as_bytes());
    let root = fake.insert_directory(&run, b"root");
    let control = fake.insert_directory(&run, b"control");
    fake.insert_directory(&run, PRIVATE_DIR.as_bytes());
    (fake, Layout { run, root, control })
}

fn deadline() -> Deadline {
    Deadline { millis: 5_000 }
}

#[test]
fn the_filter_removes_protocol_noise_and_private_state_but_not_dotfiles() {
    let protocol = NoiseFilter::protocol_only();
    assert!(protocol.is_noise(b"."));
    assert!(protocol.is_noise(b".."));
    assert!(!protocol.is_noise(PRIVATE_DIR.as_bytes()));
    assert!(!protocol.is_noise(b".gitignore"));
    assert!(!protocol.is_noise(b"ordinary"));

    let run = NoiseFilter::with_private_state();
    assert!(run.is_noise(b"."));
    assert!(run.is_noise(b".."));
    assert!(run.is_noise(PRIVATE_DIR.as_bytes()));
    assert!(!run.is_noise(b".gitignore"));
    assert!(!run.is_noise(b"root"));
}

#[test]
fn a_cursor_round_trips_and_refuses_another_directory() {
    let directory = ObjectIdentity {
        fsid: Fsid { major: 3, minor: 4 },
        fileid: 77,
    };
    let cursor = PageCursor::new(directory, DirCookie(9), DirVerifier([0xAB; 8]));
    let encoded = cursor.encode();
    let decoded = PageCursor::decode(&encoded, directory).expect("our own cursor");
    assert_eq!(decoded, cursor);
    assert_eq!(decoded.cookie(), DirCookie(9));
    assert_eq!(decoded.cookie_verifier(), DirVerifier([0xAB; 8]));
    assert_eq!(decoded.directory(), directory);

    let elsewhere = ObjectIdentity {
        fileid: 78,
        ..directory
    };
    let error = PageCursor::decode(&encoded, elsewhere).unwrap_err();
    assert_eq!(error.kind, ErrorKind::StaleHandle);
    assert!(PageCursor::decode(&ListCursor(b"forged".to_vec()), directory).is_err());
}

#[test]
fn a_page_is_bounded_and_its_cursor_resumes_without_dropping_an_entry() {
    let (mut fake, layout) = server();
    for index in 0..25u8 {
        fake.insert_file(&layout.root, format!("f{index:02}").as_bytes(), vec![index]);
    }
    let root = PinnedObject::pin(&mut fake, layout.root, deadline())
        .expect("pin the root anchor");
    let filter = NoiseFilter::protocol_only();

    let mut seen = Vec::new();
    let mut cursor = None;
    let mut rounds = 0;
    loop {
        let listed = page(&mut fake, &root, cursor.as_ref(), 4, &filter, deadline())
            .expect("a bounded page");
        assert!(
            listed.entries.len() <= 4,
            "a page never exceeds the requested limit"
        );
        seen.extend(listed.entries.iter().map(|e| e.name.as_bytes().to_vec()));
        cursor = listed.next;
        rounds += 1;
        assert!(rounds < 40, "paging must terminate");
        if cursor.is_none() {
            break;
        }
    }
    assert_eq!(seen.len(), 25, "every entry is delivered exactly once");
    let mut unique = seen.clone();
    unique.sort();
    unique.dedup();
    assert_eq!(unique.len(), 25, "no entry is delivered twice");
    let mut expected: Vec<Vec<u8>> = (0..25u8)
        .map(|index| format!("f{index:02}").into_bytes())
        .collect();
    expected.sort();
    assert_eq!(unique, expected);
}

#[test]
fn no_whole_directory_is_materialised_for_one_page() {
    let (mut fake, layout) = server();
    for index in 0..500u32 {
        fake.insert_file(&layout.root, format!("f{index:04}").as_bytes(), Vec::new());
    }
    let root =
        PinnedObject::pin(&mut fake, layout.root, deadline()).expect("pin");
    let listed = page(
        &mut fake,
        &root,
        None,
        3,
        &NoiseFilter::protocol_only(),
        deadline(),
    )
    .expect("a bounded page");
    assert_eq!(listed.entries.len(), 3);
    assert!(
        listed.next.is_some(),
        "an unexhausted directory yields a continuation"
    );
}

#[test]
fn a_rotated_cookie_verifier_invalidates_an_outstanding_cursor() {
    let (mut fake, layout) = server();
    for index in 0..10u8 {
        fake.insert_file(&layout.root, format!("f{index}").as_bytes(), Vec::new());
    }
    let root =
        PinnedObject::pin(&mut fake, layout.root, deadline()).expect("pin");
    let filter = NoiseFilter::protocol_only();
    let first = page(&mut fake, &root, None, 2, &filter, deadline()).expect("first page");
    let cursor = first.next.expect("more entries remain");

    fake.rotate_dir_verifier(DirVerifier([0x5A; 8]));
    let error = page(&mut fake, &root, Some(&cursor), 2, &filter, deadline()).unwrap_err();
    assert_eq!(error.kind, ErrorKind::StaleHandle);

    assert!(page(&mut fake, &root, None, 2, &filter, deadline()).is_ok());
}

#[test]
fn listing_something_that_is_not_a_directory_is_refused() {
    let (mut fake, layout) = server();
    let file = fake.insert_file(&layout.root, b"note", b"x".to_vec());
    let pin = PinnedObject::pin(&mut fake, file, deadline()).expect("pin");
    let error = page(
        &mut fake,
        &pin,
        None,
        4,
        &NoiseFilter::protocol_only(),
        deadline(),
    )
    .unwrap_err();
    assert_eq!(error.kind, ErrorKind::InvalidPath);
}

#[test]
fn the_run_anchor_hides_provider_state_from_its_listing() {
    let (mut fake, layout) = server();
    let run = PinnedObject::pin(&mut fake, layout.run, deadline())
        .expect("pin the run anchor");
    let listed = page(
        &mut fake,
        &run,
        None,
        16,
        &NoiseFilter::with_private_state(),
        deadline(),
    )
    .expect("a page");
    let names: Vec<_> = listed
        .entries
        .iter()
        .map(|entry| entry.name.as_bytes().to_vec())
        .collect();
    assert!(names.contains(&b"root".to_vec()));
    assert!(names.contains(&b"control".to_vec()));
    assert!(
        !names.contains(&PRIVATE_DIR.as_bytes().to_vec()),
        "provider-private state is not run content"
    );
}
