//! The published capability matrix.
use umbra_storage_nfs_userspace::capability::{
    contract_surface, operation_name, out_of_surface, storage_support, Support,
    CONTRACTS_REVISION, NO_WIRE_OPERATION,
};
use umbra_storage_nfs_userspace::contract::{
    ApprovedBaseObject, BytePath, CreateKind, CreateOptions, ErrorKind, MetadataUpdate, ObjectId,
    RenameMode, StorageAnchor, StorageHandle, StorageOperation, StoragePath,
};

fn path() -> StoragePath {
    StoragePath::new(StorageAnchor::Root, b"a".to_vec()).expect("path")
}

fn every_operation() -> Vec<StorageOperation> {
    let create = |kind| StorageOperation::Create {
        path: path(),
        options: CreateOptions { kind, mode: 0o600 },
    };
    vec![
        StorageOperation::Lookup { path: path() },
        StorageOperation::Stat { path: path() },
        StorageOperation::List {
            path: path(),
            cursor: None,
            limit: 8,
        },
        StorageOperation::ReadAt {
            path: path(),
            offset: 0,
            len: 8,
        },
        StorageOperation::WriteAt {
            path: path(),
            offset: 0,
            bytes: vec![1],
        },
        create(CreateKind::File),
        create(CreateKind::Directory),
        create(CreateKind::LogicalSymlink {
            target: BytePath::new(b"t".to_vec()).expect("target"),
        }),
        StorageOperation::CreateParents {
            path: path(),
            mode: 0o700,
        },
        StorageOperation::CopyUp {
            source: ApprovedBaseObject {
                object_id: ObjectId([0u8; 16]),
                handle: StorageHandle(vec![1]),
            },
            destination: path(),
        },
        StorageOperation::Unlink { path: path() },
        StorageOperation::RemoveDirectory { path: path() },
        StorageOperation::Rename {
            source: path(),
            destination: path(),
            mode: RenameMode::Replace,
        },
        StorageOperation::Link {
            source: path(),
            destination: path(),
        },
        StorageOperation::ReadLink { path: path() },
        StorageOperation::SetMetadata {
            path: path(),
            update: MetadataUpdate {
                mode: Some(0o600),
                uid: None,
                gid: None,
                accessed_nanos: None,
                modified_nanos: None,
            },
        },
        StorageOperation::Truncate {
            path: path(),
            len: 0,
        },
        StorageOperation::GetXattr {
            path: path(),
            name: b"user.x".to_vec(),
            max_bytes: 16,
        },
        StorageOperation::SetXattr {
            path: path(),
            name: b"user.x".to_vec(),
            value: vec![1],
        },
        StorageOperation::RemoveXattr {
            path: path(),
            name: b"user.x".to_vec(),
        },
        StorageOperation::GetWhiteout { path: path() },
        StorageOperation::SetWhiteout {
            path: path(),
            present: true,
        },
        StorageOperation::AtomicSwap {
            left: path(),
            right: path(),
        },
    ]
}

#[test]
fn every_contract_operation_has_exactly_one_row() {
    let operations = every_operation();
    for operation in &operations {
        let _ = storage_support(operation);
        assert!(operation_name(operation).starts_with("execute."));
    }
    assert_eq!(contract_surface().len(), operations.len());
    let mut names: Vec<_> = contract_surface().iter().map(|row| row.operation).collect();
    names.sort_unstable();
    let unique = names.len();
    names.dedup();
    assert_eq!(names.len(), unique, "capability rows must be distinct");
}

#[test]
fn every_row_names_the_syscall_matrix_entries_it_serves() {
    for row in contract_surface() {
        assert!(
            !row.syscalls.is_empty(),
            "{} names no syscall-matrix entry",
            row.operation
        );
    }
    for note in out_of_surface() {
        assert!(!note.syscalls.is_empty());
        assert_ne!(
            note.support,
            Support::Supported,
            "an out-of-surface row cannot be supported: it has no surface"
        );
    }
}

#[test]
fn a_refusal_carries_the_kind_its_verdict_promises() {
    let unsupported = Support::Unsupported { reason: "no" };
    let deferred = Support::Deferred {
        owner: CONTRACTS_REVISION,
        reason: NO_WIRE_OPERATION,
    };
    assert_eq!(
        unsupported.error_kind(),
        Some(ErrorKind::UnsupportedCapability)
    );
    assert_eq!(deferred.error_kind(), Some(ErrorKind::NotImplemented));
    assert_eq!(Support::Supported.error_kind(), None);

    let error = unsupported.refuse::<()>("op").unwrap_err();
    assert_eq!(error.kind, ErrorKind::UnsupportedCapability);
    let error = deferred.refuse::<()>("op").unwrap_err();
    assert_eq!(error.kind, ErrorKind::NotImplemented);
    assert!(error.context.contains(CONTRACTS_REVISION));
    assert!(Support::Supported.admit_operation("op").is_ok());
}

#[test]
fn asking_a_supported_verdict_for_a_refusal_reports_the_drift() {
    let error = Support::Supported.refuse::<()>("op").unwrap_err();
    assert_eq!(error.kind, ErrorKind::ProtocolMismatch);
}

#[test]
fn notifications_are_recorded_as_out_of_scope_not_merely_absent() {
    let row = out_of_surface()
        .into_iter()
        .find(|note| note.syscalls.iter().any(|entry| entry.contains("FSEvents")))
        .expect("the notifications decision has a recorded row");
    assert!(matches!(row.support, Support::Unsupported { .. }));
    assert!(row
        .syscalls
        .iter()
        .any(|entry| entry.contains("EVFILT_VNODE")));
}
