//! Namespace mutations over the in-memory server.
use umbra_storage_nfs_userspace::contract::{MetadataUpdate, RenameMode};
use umbra_storage_nfs_userspace::error::{
    AuthorityError, FacadeError, Nfs4Status, TransportErrorView,
};
use umbra_storage_nfs_userspace::fake::{FakeTransport, ScriptedFault};
use umbra_storage_nfs_userspace::handle::{FileHandle, ObjectIdentity, Stateid};
use umbra_storage_nfs_userspace::identity::identity_of;
use umbra_storage_nfs_userspace::journal::is_blocked;
use umbra_storage_nfs_userspace::namespace::dispatch::{
    nfs_time, remove_evidence, TransportDispatcher,
};
use umbra_storage_nfs_userspace::namespace::{
    NamespaceDispatcher, NamespaceMutation, NamespaceOutcome, RemoveKind,
};
use umbra_storage_nfs_userspace::transport::{
    Answer, AttrMask, CallToken, ChangeInfo, ComponentName, Compound, CompoundReply, CompoundView,
    ConnectionEpoch, ConnectionState, Deadline, Nfs4Time, Nfs4Type, OpReply, PersistenceBoundary,
    RawTransport, Retirement, TransportLimits, TransportResult, WireProfile,
};

fn name(bytes: &[u8]) -> ComponentName {
    ComponentName::new(bytes.to_vec()).expect("valid component")
}

fn deadline<T: RawTransport>(transport: &T) -> Deadline {
    transport.limits().default_deadline
}

fn resolve<T: RawTransport>(
    transport: &mut T,
    parent: &FileHandle,
    component: &[u8],
) -> (FileHandle, ObjectIdentity) {
    let deadline = deadline(transport);
    let (handle, attributes) = transport
        .lookup(parent, &name(component), AttrMask(AttrMask::STAT), deadline)
        .expect("lookup resolves");
    (handle, identity_of(&attributes).expect("identity"))
}

fn present<T: RawTransport>(transport: &mut T, parent: &FileHandle, component: &[u8]) -> bool {
    let deadline = deadline(transport);
    transport
        .lookup(parent, &name(component), AttrMask(AttrMask::IDENTITY), deadline)
        .is_ok()
}

struct NoType(FakeTransport);

impl RawTransport for NoType {
    type World = ();

    fn world(&self) {}

    fn answer(_: (), _: CompoundView, _: Deadline) -> Answer {
        unreachable!("never run")
    }

    fn after(_: (), _: CompoundView, _: Deadline) {}

    fn limits_of(_: ()) -> TransportLimits {
        unreachable!("never run")
    }

    fn connection_of(_: ()) -> ConnectionState {
        unreachable!("never run")
    }

    fn boundary_of(_: ()) -> PersistenceBoundary {
        unreachable!("never run")
    }

    fn reconnect_answer(_: ()) -> Result<ConnectionEpoch, TransportErrorView> {
        unreachable!("never run")
    }

    fn after_reconnect(_: ()) {}

    fn wire_profile(&self) -> WireProfile {
        self.0.wire_profile()
    }

    fn limits(&self) -> TransportLimits {
        self.0.limits()
    }

    fn connection(&self) -> ConnectionState {
        self.0.connection()
    }

    fn persistence_boundary(&self) -> PersistenceBoundary {
        self.0.persistence_boundary()
    }

    fn submit(&mut self, call: Compound, deadline: Deadline) -> TransportResult<CompoundReply> {
        let mut reply = self.0.submit(call, deadline)?;
        for result in &mut reply.results {
            if let OpReply::GetAttr(attributes) = result {
                attributes.file_type = None;
            }
        }
        Ok(reply)
    }

    fn cancel(&mut self, token: CallToken) -> TransportResult<Retirement> {
        self.0.cancel(token)
    }

    fn reconnect(&mut self) -> TransportResult<ConnectionEpoch> {
        self.0.reconnect()
    }

    fn install_faults(&mut self, plan: Box<ScriptedFault>) {
        self.0.install_faults(plan)
    }
}

#[test]
fn f13_a_remove_without_a_reported_type_is_refused_before_any_unlink() {
    let mut fake = FakeTransport::new();
    let root = fake.root();
    fake.insert_file(&root, b"untyped", b"bytes".to_vec());
    let (_, target) = resolve(&mut fake, &root, b"untyped");
    let mut transport = NoType(fake);

    let mut dispatcher = TransportDispatcher::new();
    let refused = dispatcher
        .dispatch(
            &mut transport,
            &NamespaceMutation::Remove {
                parent: root.clone(),
                name: name(b"untyped"),
                target,
                kind: RemoveKind::File,
            },
        )
        .expect_err("an unknown type is not a kind this unlink may remove");
    assert!(
        matches!(
            refused,
            FacadeError::Authority(AuthorityError::IdentityUnproven(_))
        ),
        "{refused:?}"
    );
    assert!(
        present(&mut transport.0, &root, b"untyped"),
        "the refusal must land before anything is unlinked"
    );
}

#[test]
fn f13_a_known_non_directory_is_still_unlinked() {
    let mut fake = FakeTransport::new();
    let root = fake.root();
    fake.insert_file(&root, b"ordinary", b"bytes".to_vec());
    let (_, target) = resolve(&mut fake, &root, b"ordinary");

    let mut dispatcher = TransportDispatcher::new();
    assert_eq!(
        dispatcher
            .dispatch(
                &mut fake,
                &NamespaceMutation::Remove {
                    parent: root.clone(),
                    name: name(b"ordinary"),
                    target,
                    kind: RemoveKind::File,
                },
            )
            .expect("a typed regular file unlinks"),
        NamespaceOutcome::Removed
    );
    assert!(!present(&mut fake, &root, b"ordinary"));
}

#[test]
fn f14_an_unrepresentable_time_refuses_the_whole_metadata_update() {
    let mut fake = FakeTransport::new();
    let root = fake.root();
    fake.insert_file(&root, b"stamped", b"bytes".to_vec());
    let (handle, target) = resolve(&mut fake, &root, b"stamped");
    let before = fake
        .getattr(&handle, AttrMask(AttrMask::STAT), deadline(&fake))
        .expect("attributes");

    let mut dispatcher = TransportDispatcher::new();
    for update in [
        MetadataUpdate {
            mode: Some(0o700),
            uid: None,
            gid: None,
            accessed_nanos: None,
            modified_nanos: Some(i128::MAX),
        },
        MetadataUpdate {
            mode: Some(0o700),
            uid: None,
            gid: None,
            accessed_nanos: Some(i128::MIN),
            modified_nanos: None,
        },
    ] {
        let refused = dispatcher
            .dispatch(
                &mut fake,
                &NamespaceMutation::SetAttributes {
                    object: handle.clone(),
                    target,
                    update,
                },
            )
            .expect_err("an unrepresentable time refuses the update");
        assert_eq!(
            refused.status(),
            Some(Nfs4Status(Nfs4Status::INVAL)),
            "the refusal names the invalid argument: {refused:?}"
        );
    }

    let after = fake
        .getattr(&handle, AttrMask(AttrMask::STAT), deadline(&fake))
        .expect("attributes");
    assert_eq!(
        after.mode, before.mode,
        "nothing may be applied by an update that was refused"
    );
    assert_eq!(after.time_modify, before.time_modify);
}

#[test]
fn f14_representable_times_are_still_applied_including_pre_epoch() {
    assert_eq!(
        nfs_time(0).expect("the epoch is representable"),
        Nfs4Time {
            seconds: 0,
            nanoseconds: 0
        }
    );
    assert_eq!(
        nfs_time(-1).expect("one nanosecond before the epoch"),
        Nfs4Time {
            seconds: -1,
            nanoseconds: 999_999_999
        },
        "a pre-epoch time floors the seconds and carries a positive remainder"
    );
    let max = i128::from(i64::MAX) * 1_000_000_000 + 999_999_999;
    assert_eq!(
        nfs_time(max).expect("the representable ceiling"),
        Nfs4Time {
            seconds: i64::MAX,
            nanoseconds: 999_999_999
        }
    );
    assert!(
        nfs_time(max + 1).is_err(),
        "one past the ceiling is refused"
    );
    let min = i128::from(i64::MIN) * 1_000_000_000;
    assert_eq!(
        nfs_time(min).expect("the representable floor").seconds,
        i64::MIN
    );
    assert!(nfs_time(min - 1).is_err(), "one past the floor is refused");
}

#[test]
fn f15_remove_evidence_accepts_only_an_unmoved_atomic_before() {
    let doomed = name(b"doomed");
    assert!(remove_evidence(
        &doomed,
        Some(7),
        ChangeInfo {
            atomic: true,
            before: 7,
            after: 8
        }
    )
    .is_ok());

    for (captured, info, why) in [
        (
            Some(7),
            ChangeInfo {
                atomic: true,
                before: 9,
                after: 10,
            },
            "the directory moved between the probe and the unlink",
        ),
        (
            Some(7),
            ChangeInfo {
                atomic: false,
                before: 7,
                after: 8,
            },
            "a non-atomic before-state cannot rule out the race",
        ),
        (
            None,
            ChangeInfo {
                atomic: true,
                before: 7,
                after: 8,
            },
            "no captured before-state to compare against",
        ),
    ] {
        let refused = remove_evidence(&doomed, captured, info)
            .expect_err(why)
            .to_umbra("execute.unlink");
        assert!(
            is_blocked(&refused),
            "{why}: the run must stop with the evidence retained, got {refused:?}"
        );
        assert!(
            refused
                .context
                .contains("cannot be shown to be the object the caller pinned"),
            "{why}: the diagnosis must say what could not be proven: {}",
            refused.context
        );
    }
}

#[test]
fn a_remove_unlinks_the_name_and_later_lookups_agree() {
    let mut fake = FakeTransport::new();
    let root = fake.root();
    fake.insert_file(&root, b"doomed", b"bytes".to_vec());
    let (_, target) = resolve(&mut fake, &root, b"doomed");

    let mut dispatcher = TransportDispatcher::new();
    let outcome = dispatcher
        .dispatch(
            &mut fake,
            &NamespaceMutation::Remove {
                parent: root.clone(),
                name: name(b"doomed"),
                target,
                kind: RemoveKind::File,
            },
        )
        .expect("REMOVE dispatches");

    assert_eq!(outcome, NamespaceOutcome::Removed);
    assert!(
        !present(&mut fake, &root, b"doomed"),
        "the namespace mutation must be visible to the next lookup"
    );
}

#[test]
fn unlinking_a_directory_is_refused_before_anything_is_removed() {
    let mut fake = FakeTransport::new();
    let root = fake.root();
    fake.insert_directory(&root, b"adir");
    let (_, target) = resolve(&mut fake, &root, b"adir");

    let mut dispatcher = TransportDispatcher::new();
    let error = dispatcher
        .dispatch(
            &mut fake,
            &NamespaceMutation::Remove {
                parent: root.clone(),
                name: name(b"adir"),
                target,
                kind: RemoveKind::File,
            },
        )
        .unwrap_err();

    assert!(matches!(&error, FacadeError::Protocol(p) if p.status == Nfs4Status(Nfs4Status::ISDIR)));
    assert!(present(&mut fake, &root, b"adir"), "nothing was removed");
}

#[test]
fn a_remove_refuses_a_name_that_now_resolves_to_another_object() {
    let mut fake = FakeTransport::new();
    let root = fake.root();
    fake.insert_file(&root, b"target", b"original".to_vec());
    let (_, pinned) = resolve(&mut fake, &root, b"target");

    let mut replaced = FakeTransport::new();
    let replaced_root = replaced.root();
    replaced.insert_file(&replaced_root, b"filler", b"x".to_vec());
    replaced.insert_file(&replaced_root, b"target", b"replacement".to_vec());
    let (_, other) = resolve(&mut replaced, &replaced_root, b"target");
    assert_ne!(pinned.fileid, other.fileid, "the fixture must differ");

    let mut dispatcher = TransportDispatcher::new();
    let error = dispatcher
        .dispatch(
            &mut replaced,
            &NamespaceMutation::Remove {
                parent: replaced_root.clone(),
                name: name(b"target"),
                target: pinned,
                kind: RemoveKind::File,
            },
        )
        .unwrap_err();

    assert!(matches!(
        error,
        FacadeError::Authority(AuthorityError::IdentityUnproven(_))
    ));
    assert!(
        present(&mut replaced, &replaced_root, b"target"),
        "an unproven identity must not unlink anything"
    );
}

#[test]
fn a_rename_moves_the_name_and_keeps_the_object() {
    let mut fake = FakeTransport::new();
    let root = fake.root();
    let source_dir = fake.insert_directory(&root, b"from");
    let target_dir = fake.insert_directory(&root, b"to");
    fake.insert_file(&source_dir, b"before", b"payload".to_vec());
    let (original_handle, source) = resolve(&mut fake, &source_dir, b"before");

    let mut dispatcher = TransportDispatcher::new();
    let outcome = dispatcher
        .dispatch(
            &mut fake,
            &NamespaceMutation::Rename {
                source_parent: source_dir.clone(),
                source_name: name(b"before"),
                target_parent: target_dir.clone(),
                target_name: name(b"after"),
                source,
                mode: RenameMode::Replace,
            },
        )
        .expect("RENAME dispatches");

    let NamespaceOutcome::Renamed(effect) = outcome else {
        panic!("expected a rename outcome");
    };
    assert_eq!(effect.identity, source);
    assert_eq!(effect.handle.as_bytes(), original_handle.as_bytes());
    assert!(!present(&mut fake, &source_dir, b"before"));
    assert!(present(&mut fake, &target_dir, b"after"));
}

#[test]
fn r1_006_no_replace_rename_is_refused_whether_or_not_the_destination_exists() {
    for (label, seed_destination) in [("occupied", true), ("absent", false)] {
        let mut fake = FakeTransport::new();
        let root = fake.root();
        fake.insert_file(&root, b"before", b"a".to_vec());
        if seed_destination {
            fake.insert_file(&root, b"after", b"b".to_vec());
        }
        let (_, source) = resolve(&mut fake, &root, b"before");

        let mut dispatcher = TransportDispatcher::new();
        let error = dispatcher
            .dispatch(
                &mut fake,
                &NamespaceMutation::Rename {
                    source_parent: root.clone(),
                    source_name: name(b"before"),
                    target_parent: root.clone(),
                    target_name: name(b"after"),
                    source,
                    mode: RenameMode::NoReplace,
                },
            )
            .unwrap_err();

        assert!(
            matches!(&error, FacadeError::Protocol(p) if p.status == Nfs4Status(Nfs4Status::NOTSUPP)),
            "{label}: {error:?}"
        );
        assert!(present(&mut fake, &root, b"before"), "{label}");
        assert_eq!(
            present(&mut fake, &root, b"after"),
            seed_destination,
            "{label}: the destination must be untouched"
        );
    }
}

#[test]
fn r1_006_ordinary_replace_rename_still_replaces() {
    let mut fake = FakeTransport::new();
    let root = fake.root();
    fake.insert_file(&root, b"before", b"a".to_vec());
    fake.insert_file(&root, b"after", b"b".to_vec());
    let (_, source) = resolve(&mut fake, &root, b"before");

    let mut dispatcher = TransportDispatcher::new();
    let outcome = dispatcher
        .dispatch(
            &mut fake,
            &NamespaceMutation::Rename {
                source_parent: root.clone(),
                source_name: name(b"before"),
                target_parent: root.clone(),
                target_name: name(b"after"),
                source,
                mode: RenameMode::Replace,
            },
        )
        .expect("a replacing rename is supported");
    match outcome {
        NamespaceOutcome::Renamed(effect) => assert_eq!(effect.identity, source),
        other => panic!("expected a rename outcome, got {other:?}"),
    }
    assert!(!present(&mut fake, &root, b"before"));
    assert!(present(&mut fake, &root, b"after"));
}

#[test]
fn a_create_makes_a_directory_that_the_next_lookup_finds() {
    let mut fake = FakeTransport::new();
    let root = fake.root();

    let mut dispatcher = TransportDispatcher::new();
    let outcome = dispatcher
        .dispatch(
            &mut fake,
            &NamespaceMutation::CreateDirectory {
                parent: root.clone(),
                name: name(b"made"),
                mode: 0o750,
            },
        )
        .expect("CREATE dispatches");

    let NamespaceOutcome::Created(effect) = outcome else {
        panic!("expected a created outcome");
    };
    let (handle, identity) = resolve(&mut fake, &root, b"made");
    assert_eq!(identity, effect.identity);
    assert_eq!(handle.as_bytes(), effect.handle.as_bytes());

    let deadline = deadline(&fake);
    let (_, attributes) = fake
        .lookup(&root, &name(b"made"), AttrMask(AttrMask::STAT), deadline)
        .expect("stat the new directory");
    assert_eq!(attributes.file_type, Some(Nfs4Type::Directory));
    assert_eq!(attributes.mode, Some(0o750));
}

#[test]
fn a_setattr_changes_the_attribute_map_the_next_stat_reads() {
    let mut fake = FakeTransport::new();
    let root = fake.root();
    fake.insert_file(&root, b"file", b"data".to_vec());
    let (handle, target) = resolve(&mut fake, &root, b"file");

    let mut dispatcher = TransportDispatcher::new();
    let outcome = dispatcher
        .dispatch(
            &mut fake,
            &NamespaceMutation::SetAttributes {
                object: handle,
                target,
                update: MetadataUpdate {
                    mode: Some(0o640),
                    uid: Some(501),
                    gid: Some(20),
                    accessed_nanos: None,
                    modified_nanos: Some(1_700_000_000_123_456_789),
                },
            },
        )
        .expect("SETATTR dispatches");

    assert!(matches!(outcome, NamespaceOutcome::AttributesSet(_)));

    let deadline = deadline(&fake);
    let (_, attributes) = fake
        .lookup(&root, &name(b"file"), AttrMask(AttrMask::STAT), deadline)
        .expect("stat after SETATTR");
    assert_eq!(attributes.mode, Some(0o640));
    assert_eq!(attributes.owner.as_deref(), Some(b"501".as_slice()));
    assert_eq!(attributes.owner_group.as_deref(), Some(b"20".as_slice()));
    assert_eq!(
        attributes.time_modify,
        Some(Nfs4Time {
            seconds: 1_700_000_000,
            nanoseconds: 123_456_789
        })
    );
}

#[test]
fn a_truncate_without_a_write_stateid_is_refused_rather_than_sent_anonymously() {
    let mut fake = FakeTransport::new();
    let root = fake.root();
    fake.insert_file(&root, b"file", b"0123456789".to_vec());
    let (handle, target) = resolve(&mut fake, &root, b"file");

    let mut dispatcher = TransportDispatcher::new();
    let error = dispatcher
        .dispatch(
            &mut fake,
            &NamespaceMutation::Truncate {
                object: handle,
                target,
                len: 4,
                stateid: Stateid::anonymous(),
            },
        )
        .unwrap_err();

    assert!(matches!(
        error,
        FacadeError::Authority(AuthorityError::IdentityUnproven(_))
    ));
    let deadline = deadline(&fake);
    let (_, attributes) = fake
        .lookup(&root, &name(b"file"), AttrMask(AttrMask::STAT), deadline)
        .expect("stat");
    assert_eq!(attributes.size, Some(10), "nothing was truncated");
}

#[test]
fn a_truncate_with_a_write_stateid_resizes_the_object() {
    let mut fake = FakeTransport::new();
    let root = fake.root();
    fake.insert_file(&root, b"file", b"0123456789".to_vec());
    let (handle, target) = resolve(&mut fake, &root, b"file");

    let stateid = Stateid {
        seqid: 1,
        other: [7u8; 12],
    };
    let mut dispatcher = TransportDispatcher::new();
    dispatcher
        .dispatch(
            &mut fake,
            &NamespaceMutation::Truncate {
                object: handle,
                target,
                len: 4,
                stateid,
            },
        )
        .expect("truncate dispatches");

    let deadline = deadline(&fake);
    let (_, attributes) = fake
        .lookup(&root, &name(b"file"), AttrMask(AttrMask::STAT), deadline)
        .expect("stat");
    assert_eq!(attributes.size, Some(4));
}

#[test]
fn an_empty_metadata_update_is_refused_instead_of_reporting_a_change() {
    let mut fake = FakeTransport::new();
    let root = fake.root();
    fake.insert_file(&root, b"file", b"data".to_vec());
    let (handle, target) = resolve(&mut fake, &root, b"file");

    let mut dispatcher = TransportDispatcher::new();
    let error = dispatcher
        .dispatch(
            &mut fake,
            &NamespaceMutation::SetAttributes {
                object: handle,
                target,
                update: MetadataUpdate {
                    mode: None,
                    uid: None,
                    gid: None,
                    accessed_nanos: None,
                    modified_nanos: None,
                },
            },
        )
        .unwrap_err();

    assert!(matches!(&error, FacadeError::Protocol(p) if p.status == Nfs4Status(Nfs4Status::INVAL)));
}

#[test]
fn the_dispatcher_uses_the_transport_it_is_handed_not_one_it_owns() {
    let mut first = FakeTransport::new();
    let mut second = FakeTransport::new();
    let first_root = first.root();
    let second_root = second.root();

    let mut dispatcher = TransportDispatcher::new();
    dispatcher
        .dispatch(
            &mut first,
            &NamespaceMutation::CreateDirectory {
                parent: first_root.clone(),
                name: name(b"only-here"),
                mode: 0o700,
            },
        )
        .expect("create on the first server");

    assert!(present(&mut first, &first_root, b"only-here"));
    assert!(
        !present(&mut second, &second_root, b"only-here"),
        "the mutation must not reach a transport it was never given"
    );
}

#[test]
fn the_limits_the_dispatcher_reads_come_from_the_bound_transport() {
    let fake = FakeTransport::new();
    let limits: TransportLimits = fake.limits();
    assert_eq!(limits.default_deadline.millis, 5_000);
}
