//! The exact words of diagnostics, and the encodings below them.
use umbra_storage_nfs_userspace::bytes::{
    big_endian, comes_before, from_big_endian, from_little_endian, little_endian,
};
use umbra_storage_nfs_userspace::capability::operation_name;
use umbra_storage_nfs_userspace::contract::{
    BytePath, ErrorKind, OperationId, RunId, StorageAnchor, StorageOperation, StoragePath,
};
use umbra_storage_nfs_userspace::error::{
    AuthorityError, ErrorClass, FacadeError, Nfs4Status, ReplayError, RetainedError,
    TransportError,
};
use umbra_storage_nfs_userspace::contract::{IdempotencyKey, LeaseEpoch};
use umbra_storage_nfs_userspace::identity::object_id;
use umbra_storage_nfs_userspace::handle::ObjectIdentity;
use umbra_storage_nfs_userspace::state::verifiers::create_verifier_for;
use umbra_storage_nfs_userspace::text::{
    byte_list_text, decimal_text, hex_text, holds_text, optional_number_text,
    parse_u32, tagged_text,
};
use umbra_storage_nfs_userspace::transport::{ConnectionEpoch, Fsid, OpCode, Verifier};

#[test]
fn numbers_and_bytes_are_rendered_exactly() {
    assert_eq!(decimal_text(0), "0");
    assert_eq!(decimal_text(u64::MAX), "18446744073709551615");
    assert_eq!(hex_text(&[0x00, 0x0f, 0xa5]), "000fa5");
    assert_eq!(byte_list_text(&[1, 20, 255]), "[1, 20, 255]");
    assert_eq!(byte_list_text(&[]), "[]");
    assert_eq!(tagged_text("LeaseEpoch", 4), "LeaseEpoch(4)");
    assert_eq!(optional_number_text(Some(9)), "Some(9)");
    assert_eq!(optional_number_text(None), "None");
    assert_eq!(parse_u32(b"4294967295"), Some(u32::MAX));
    assert_eq!(parse_u32(b"+7"), Some(7));
    assert_eq!(parse_u32(b"4294967296"), None);
    assert_eq!(parse_u32(b""), None);
    assert!(holds_text("a BLOCKED b", "BLOCKED"));
    assert!(!holds_text("BLOCKE", "BLOCKED"));
}

#[test]
fn words_survive_their_byte_order() {
    assert_eq!(big_endian(0x0102, 8), [0, 0, 0, 0, 0, 0, 1, 2]);
    assert_eq!(little_endian(0x0102, 8), [2, 1, 0, 0, 0, 0, 0, 0]);
    assert_eq!(from_big_endian(&[1, 0]), 256);
    assert_eq!(from_little_endian(&[1, 2]), 513);
    assert!(comes_before(b"a", b"ab"));
    assert!(!comes_before(b"b", b"ab"));
    assert!(!comes_before(b"a", b"a"));
}

#[test]
fn every_failure_reads_as_documented() {
    let protocol = FacadeError::protocol(Nfs4Status(Nfs4Status::NOENT), OpCode::Lookup, 1);
    assert_eq!(protocol.text(), "protocol: NFS4ERR 2 at Lookup (compound index 1)");
    assert_eq!(protocol.to_umbra("execute.stat").kind, ErrorKind::NotFound);
    assert_eq!(protocol.class(), ErrorClass::Permanent);
    let lost = FacadeError::Transport(TransportError::Disconnected {
        epoch: ConnectionEpoch(3),
        detail: "reset".into(),
    });
    assert_eq!(lost.text(), "transport: connection lost in epoch ConnectionEpoch(3): reset");
    assert_eq!(lost.to_umbra("op").kind, ErrorKind::StorageUnavailable);
    let full = FacadeError::Transport(TransportError::QueueFull { depth: 3, capacity: 4 });
    assert_eq!(full.text(), "transport: transport queue full (3 of 4)");
    let malformed = FacadeError::Transport(TransportError::Malformed("short".into()));
    assert_eq!(malformed.text(), "transport: malformed reply: short");
    assert_eq!(malformed.to_umbra("op").kind, ErrorKind::ProtocolMismatch);
    let profile = FacadeError::Transport(TransportError::UnsupportedProfile("udp".into()));
    assert_eq!(profile.text(), "transport: unsupported wire profile: udp");
    let stale = FacadeError::Authority(AuthorityError::StaleEpoch {
        held: LeaseEpoch(1),
        current: LeaseEpoch(2),
    });
    assert_eq!(
        stale.text(),
        "authority: stale writer epoch: held LeaseEpoch(1), current LeaseEpoch(2)"
    );
    assert_eq!(stale.to_umbra("op").kind, ErrorKind::LeaseLost);
    assert_eq!(
        FacadeError::Authority(AuthorityError::NoWriterEpoch).text(),
        "authority: mutation requires writer authority"
    );
    let spent = FacadeError::Replay(ReplayError::CapacityExhausted { records: 2, bytes: 30 });
    assert_eq!(spent.text(), "replay: replay buffer exhausted: 2 records, 30 payload bytes");
    let reused = FacadeError::Replay(ReplayError::OperationReused);
    assert_eq!(reused.to_umbra("op").kind, ErrorKind::InvalidInput);
    let changed = FacadeError::Replay(ReplayError::VerifierChanged {
        recorded: [1; 8],
        observed: [2; 8],
    });
    assert_eq!(
        changed.text(),
        "replay: write verifier changed: recorded [1, 1, 1, 1, 1, 1, 1, 1], observed [2, 2, 2, 2, \
         2, 2, 2, 2]"
    );
    assert_eq!(changed.class(), ErrorClass::NeedsRecovery);
    let retained = RetainedError::record(
        OperationId([0; 16]),
        IdempotencyKey("k".into()),
        FacadeError::Replay(ReplayError::KeyConflict),
        true,
    );
    assert!(retained.is_durable());
    assert_eq!(retained.key().0, "k");
    assert!(retained.text().contains("idempotency key reused with a conflicting payload"));
}

#[test]
fn identifiers_are_rendered_and_derived_from_their_bytes() {
    let run = RunId([
        0x0a, 0x1b, 0x2c, 0x3d, 0x4e, 0x5f, 0x4a, 0x6b, 0x8c, 0x7d, 0x9e, 0x0f, 0x1a, 0x2b, 0x3c,
        0x4d,
    ]);
    assert_eq!(run.text(), "0a1b2c3d-4e5f-4a6b-8c7d-9e0f1a2b3c4d");
    assert_eq!(run.diagnostic(), "RunId(0a1b2c3d-4e5f-4a6b-8c7d-9e0f1a2b3c4d)");
    assert_eq!(
        create_verifier_for(OperationId(run.0)),
        Verifier([0x86, 0x66, 0xb2, 0x32, 0x54, 0x74, 0x76, 0x26])
    );
    let one = ObjectIdentity { fsid: Fsid { major: 1, minor: 2 }, fileid: 3 };
    assert_eq!(
        one.text(),
        "ObjectIdentity { fsid: Fsid { major: 1, minor: 2 }, fileid: 3 }"
    );
    assert_eq!(object_id(one), object_id(one));
}

#[test]
fn paths_that_could_escape_are_refused() {
    assert!(BytePath::new(Vec::new()).is_err());
    assert!(BytePath::new(b"a\0".to_vec()).is_err());
    for bytes in [b"/a".as_slice(), b"a//b", b"a/", b"a/../b", b"."] {
        assert_eq!(
            StoragePath::new(StorageAnchor::Root, bytes.to_vec()).unwrap_err().kind,
            ErrorKind::InvalidPath
        );
    }
    let path = StoragePath::new(StorageAnchor::Control, b"a/b".to_vec()).expect("contained");
    assert_eq!(path.anchor(), StorageAnchor::Control);
    assert_eq!(operation_name(&StorageOperation::Stat { path }), "execute.stat");
}

