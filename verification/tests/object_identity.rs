//! Object identity and the translation to a stat.
#![allow(dead_code)]
use uuid::Uuid;

use umbra_storage_nfs_userspace::contract::{BytePath, ErrorKind, ObjectKind, RunId};
use umbra_storage_nfs_userspace::error::{AuthorityError, FacadeError};
use umbra_storage_nfs_userspace::fake::FakeTransport;
use umbra_storage_nfs_userspace::handle::{FileHandle, ObjectIdentity};
use umbra_storage_nfs_userspace::identity::{blob_stat, identity_of, object_id, PinnedObject};
use umbra_storage_nfs_userspace::layout::PRIVATE_DIR;
use umbra_storage_nfs_userspace::storage::NfsUserspaceConfig;
use umbra_storage_nfs_userspace::transport::{
    AttrMask, Attributes, Deadline, Fsid, Nfs4Time, Nfs4Type, RawTransport,
};

const EXPORT: &[u8] = b"exports/umbra";
const RUN_PARENT: &[u8] = b"runs";
const RUN_UUID: &str = "0a1b2c3d-4e5f-4a6b-8c7d-9e0f1a2b3c4d";

fn run_id() -> RunId {
    RunId(*Uuid::parse_str(RUN_UUID).expect("pinned run uuid").as_bytes())
}

fn config() -> NfsUserspaceConfig {
    NfsUserspaceConfig {
        host: b"127.0.0.1".to_vec(),
        port: 12108,
        export: BytePath::new(EXPORT.to_vec()).expect("export path"),
        run_parent: BytePath::new(RUN_PARENT.to_vec()).expect("run parent"),
        root_anchor: BytePath::new(b"root".to_vec()).expect("root anchor"),
        control_anchor: BytePath::new(b"control".to_vec()).expect("control anchor"),
        deadline: Deadline { millis: 5_000 },
    }
}

struct Layout {
    run: FileHandle,
    root: FileHandle,
    control: FileHandle,
}

fn server() -> (FakeTransport, Layout) {
    let mut fake = FakeTransport::new();
    let mut current = fake.root();
    for component in EXPORT.split(|byte| *byte == b'/') {
        current = fake.insert_directory(&current, component);
    }
    current = fake.insert_directory(&current, RUN_PARENT);
    let run = fake.insert_directory(&current, RUN_UUID.as_bytes());
    let root = fake.insert_directory(&run, b"root");
    let control = fake.insert_directory(&run, b"control");
    fake.insert_directory(&run, PRIVATE_DIR.as_bytes());
    (fake, Layout { run, root, control })
}

fn identity(fileid: u64) -> ObjectIdentity {
    ObjectIdentity {
        fsid: Fsid { major: 1, minor: 2 },
        fileid,
    }
}

fn full() -> Attributes {
    Attributes {
        returned: AttrMask(AttrMask::STAT),
        file_type: Some(Nfs4Type::Regular),
        change: Some(7),
        size: Some(11),
        fsid: Some(Fsid { major: 1, minor: 2 }),
        fileid: Some(42),
        numlinks: Some(1),
        mode: Some(0o640),
        owner: Some(b"501".to_vec()),
        owner_group: Some(b"20".to_vec()),
        time_modify: Some(Nfs4Time {
            seconds: 3,
            nanoseconds: 5,
        }),
        lease_time: None,
        rdattr_error: None,
    }
}

#[test]
fn an_object_id_is_deterministic_and_distinct_per_object() {
    assert_eq!(object_id(identity(42)), object_id(identity(42)));
    assert_ne!(object_id(identity(42)), object_id(identity(43)));
    let other_fs = ObjectIdentity {
        fsid: Fsid { major: 9, minor: 2 },
        fileid: 42,
    };
    assert_ne!(
        object_id(identity(42)),
        object_id(other_fs),
        "the same fileid on another filesystem is another object"
    );
}

#[test]
fn a_stat_translates_every_field_and_never_invents_one() {
    let stat = blob_stat(identity(42), &full()).expect("a complete answer translates");
    assert_eq!(stat.object_id, object_id(identity(42)));
    assert_eq!(stat.kind, ObjectKind::File);
    assert_eq!(stat.len, 11);
    assert_eq!(stat.link_count, 1);
    assert_eq!(stat.mode, 0o640);
    assert_eq!(stat.uid, 501);
    assert_eq!(stat.gid, 20);
    assert_eq!(stat.modified_nanos, 3_000_000_005);

    for missing in [
        Attributes {
            size: None,
            ..full()
        },
        Attributes {
            mode: None,
            ..full()
        },
        Attributes {
            numlinks: None,
            ..full()
        },
        Attributes {
            time_modify: None,
            ..full()
        },
        Attributes {
            file_type: None,
            ..full()
        },
    ] {
        assert!(
            blob_stat(identity(42), &missing).is_err(),
            "a withheld attribute must not be defaulted to a plausible value"
        );
    }
}

#[test]
fn an_unmappable_owner_is_refused_rather_than_given_a_made_up_uid() {
    let domain_form = Attributes {
        owner: Some(b"alice@example.test".to_vec()),
        ..full()
    };
    let error = blob_stat(identity(42), &domain_form).unwrap_err();
    assert_eq!(error.kind, ErrorKind::UnsupportedCapability);
    assert!(error.context.contains("domain identity mapping"));
}

#[test]
fn a_server_symlink_is_not_reported_as_a_logical_symlink() {
    let symlink = Attributes {
        file_type: Some(Nfs4Type::Symlink),
        ..full()
    };
    let error = blob_stat(identity(42), &symlink).unwrap_err();
    assert_eq!(error.kind, ErrorKind::UnsupportedCapability);

    let exotic = Attributes {
        file_type: Some(Nfs4Type::Other(6)),
        ..full()
    };
    assert!(blob_stat(identity(42), &exotic).is_err());
}

#[test]
fn an_identity_needs_both_halves_of_the_pair() {
    assert!(identity_of(&full()).is_ok());
    assert!(identity_of(&Attributes {
        fsid: None,
        ..full()
    })
    .is_err());
    assert!(identity_of(&Attributes {
        fileid: None,
        ..full()
    })
    .is_err());
}

#[test]
fn a_pin_keeps_its_identity_while_a_replacement_gets_a_new_one() {
    let (mut fake, layout) = server();
    let original = fake.insert_file(&layout.root, b"note", b"first".to_vec());
    let deadline = Deadline { millis: 5_000 };
    let pin = PinnedObject::pin(&mut fake, original.clone(), deadline).expect("pin");
    let before = pin.identity();

    let replacement = fake.insert_file(&layout.root, b"note", b"second".to_vec());
    assert_ne!(original.as_bytes(), replacement.as_bytes());

    let attributes = pin.revalidate(&mut fake, deadline).expect("still valid");
    assert_eq!(identity_of(&attributes).unwrap(), before);
    assert_eq!(pin.identity(), before);

    let fresh = PinnedObject::pin(&mut fake, replacement, deadline).expect("pin");
    assert_ne!(fresh.identity(), before);
    assert_ne!(fresh.object_id(), pin.object_id());
}

#[test]
fn revalidate_refuses_when_a_handle_starts_naming_another_object() {
    let (mut fake, layout) = server();
    let first = fake.insert_file(&layout.root, b"a", b"a".to_vec());
    let second = fake.insert_file(&layout.root, b"b", b"b".to_vec());
    let deadline = Deadline { millis: 5_000 };
    let pin = PinnedObject::pin(&mut fake, first, deadline).expect("pin");

    let forged = PinnedObject::adopt(
        second,
        &fake
            .getattr(pin.handle(), AttrMask(AttrMask::STAT), deadline)
            .expect("attributes"),
    )
    .expect("adopt");
    let error = forged.revalidate(&mut fake, deadline).unwrap_err();
    assert!(matches!(
        error,
        FacadeError::Authority(AuthorityError::IdentityUnproven(_))
    ));
}
