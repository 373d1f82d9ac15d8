//! The namespace seam: what is believed of a dispatcher.
use umbra_storage_nfs_userspace::capability::CONTRACTS_REVISION;
use umbra_storage_nfs_userspace::contract::{ErrorKind, RenameMode};
use umbra_storage_nfs_userspace::error::{FacadeError, FacadeErrorView, FacadeResult, Nfs4Status};
use umbra_storage_nfs_userspace::fake::FakeTransport;
use umbra_storage_nfs_userspace::handle::{FileHandle, ObjectIdentity, Stateid};
use umbra_storage_nfs_userspace::namespace::dispatch::TransportDispatcher;
use umbra_storage_nfs_userspace::namespace::{
    apply, NamespaceDispatcher, NamespaceEffect, NamespaceMutation, NamespaceMutationView,
    NamespaceOutcome, NamespaceOutcomeView, RemoveKind,
};
use umbra_storage_nfs_userspace::transport::{ComponentName, Fsid, OpCode, RawTransport};

fn identity(fileid: u64) -> ObjectIdentity {
    ObjectIdentity {
        fsid: Fsid { major: 1, minor: 2 },
        fileid,
    }
}

fn handle(byte: u8) -> FileHandle {
    FileHandle::from_wire(vec![byte; 8]).expect("a valid filehandle length")
}

fn name(bytes: &[u8]) -> ComponentName {
    ComponentName::new(bytes.to_vec()).expect("component")
}

fn rename_of(source: ObjectIdentity) -> NamespaceMutation {
    NamespaceMutation::Rename {
        source_parent: handle(1),
        source_name: name(b"before"),
        target_parent: handle(1),
        target_name: name(b"after"),
        source,
        mode: RenameMode::Replace,
    }
}

struct Scripted {
    answer: NamespaceOutcome,
    seen: Vec<NamespaceMutation>,
}

impl<T: RawTransport> NamespaceDispatcher<T> for Scripted {
    type State = ();

    fn state(&self) {}

    fn dispatched(
        _: (),
        _: T::World,
        _: NamespaceMutationView,
    ) -> (Result<NamespaceOutcomeView, FacadeErrorView>, T::World, ()) {
        unreachable!("never run")
    }

    fn dispatch(
        &mut self,
        _: &mut T,
        mutation: &NamespaceMutation,
    ) -> FacadeResult<NamespaceOutcome> {
        self.seen.push(mutation.clone());
        Ok(self.answer.clone())
    }
}

#[test]
fn an_unbound_dispatcher_names_the_contracts_gap_rather_than_a_capability() {
    for mutation in [
        NamespaceMutation::Remove {
            parent: handle(1),
            name: name(b"gone"),
            target: identity(9),
            kind: RemoveKind::File,
        },
        NamespaceMutation::Remove {
            parent: handle(1),
            name: name(b"gone"),
            target: identity(9),
            kind: RemoveKind::Directory,
        },
        rename_of(identity(9)),
        NamespaceMutation::CreateDirectory {
            parent: handle(1),
            name: name(b"new"),
            mode: 0o700,
        },
        NamespaceMutation::Truncate {
            object: handle(2),
            target: identity(9),
            len: 0,
            stateid: Stateid::anonymous(),
        },
    ] {
        let error = apply::<FakeTransport, TransportDispatcher>(None, &mut FakeTransport::new(), &mutation).unwrap_err();
        assert_eq!(error.kind, ErrorKind::NotImplemented, "{mutation:?}");
        assert!(error.context.contains("Nfs4Op"));
        assert!(error.context.contains(CONTRACTS_REVISION));
        assert_eq!(error.operation, mutation.operation());
    }
}

#[test]
fn a_rename_must_report_the_object_it_started_with() {
    let moved = identity(9);
    let mut good = Scripted {
        answer: NamespaceOutcome::Renamed(NamespaceEffect {
            identity: moved,
            handle: handle(3),
        }),
        seen: Vec::new(),
    };
    let outcome = apply(
        Some(&mut good),
        &mut FakeTransport::new(),
        &rename_of(moved),
    )
    .expect("identity preserved");
    assert!(matches!(outcome, NamespaceOutcome::Renamed(_)));
    assert_eq!(good.seen.len(), 1);

    let mut copied = Scripted {
        answer: NamespaceOutcome::Renamed(NamespaceEffect {
            identity: identity(10),
            handle: handle(4),
        }),
        seen: Vec::new(),
    };
    let error = apply(
        Some(&mut copied),
        &mut FakeTransport::new(),
        &rename_of(moved),
    )
    .unwrap_err();
    assert_eq!(error.kind, ErrorKind::LeaseLost);
    assert!(error
        .context
        .contains("a rename moves a name, never the object"));
}

#[test]
fn a_setattr_must_report_the_object_the_caller_pinned() {
    let pinned = identity(9);
    let mut wrong = Scripted {
        answer: NamespaceOutcome::AttributesSet(NamespaceEffect {
            identity: identity(11),
            handle: handle(5),
        }),
        seen: Vec::new(),
    };
    let error = apply(
        Some(&mut wrong),
        &mut FakeTransport::new(),
        &NamespaceMutation::Truncate {
            object: handle(2),
            target: pinned,
            len: 4,
            stateid: Stateid::anonymous(),
        },
    )
    .unwrap_err();
    assert!(error.context.contains("SETATTR reported fileid 11"));
}

#[test]
fn an_outcome_of_the_wrong_kind_is_refused_instead_of_absorbed() {
    let mut confused = Scripted {
        answer: NamespaceOutcome::Removed,
        seen: Vec::new(),
    };
    let error = apply(
        Some(&mut confused),
        &mut FakeTransport::new(),
        &rename_of(identity(9)),
    )
    .unwrap_err();
    assert!(error.context.contains("for a RENAME"));

    let mut also_confused = Scripted {
        answer: NamespaceOutcome::Created(NamespaceEffect {
            identity: identity(9),
            handle: handle(3),
        }),
        seen: Vec::new(),
    };
    let error = apply(
        Some(&mut also_confused),
        &mut FakeTransport::new(),
        &NamespaceMutation::Remove {
            parent: handle(1),
            name: name(b"gone"),
            target: identity(9),
            kind: RemoveKind::File,
        },
    )
    .unwrap_err();
    assert!(error.context.contains("for a REMOVE"));
}

struct Failing;

impl<T: RawTransport> NamespaceDispatcher<T> for Failing {
    type State = ();

    fn state(&self) {}

    fn dispatched(
        _: (),
        _: T::World,
        _: NamespaceMutationView,
    ) -> (Result<NamespaceOutcomeView, FacadeErrorView>, T::World, ()) {
        unreachable!("never run")
    }

    fn dispatch(&mut self, _: &mut T, _: &NamespaceMutation) -> FacadeResult<NamespaceOutcome> {
        Err(FacadeError::protocol(
            Nfs4Status(Nfs4Status::NOTEMPTY),
            OpCode::Remove,
            1,
        ))
    }
}

#[test]
fn a_dispatcher_failure_is_reported_verbatim() {
    let mut failing = Failing;
    let error = apply(
        Some(&mut failing),
        &mut FakeTransport::new(),
        &NamespaceMutation::Remove {
            parent: handle(1),
            name: name(b"dir"),
            target: identity(9),
            kind: RemoveKind::Directory,
        },
    )
    .unwrap_err();
    assert_eq!(error.kind, ErrorKind::Io);
    assert!(error.context.contains("66"));
}
