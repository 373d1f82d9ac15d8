//! Single calls of the in-memory server, and what is printed of replies.
use umbra_storage_nfs_userspace::authority::{
    AdmissionControl, AdmissionRequest, MemoryMarkerStore, WriterToken,
};
use umbra_storage_nfs_userspace::contract::{RunId, WriterId};
use umbra_storage_nfs_userspace::error::Nfs4Status;
use umbra_storage_nfs_userspace::fake::FakeTransport;
use umbra_storage_nfs_userspace::handle::{ClientId, FileHandle, Session, SessionId, Stateid};
use umbra_storage_nfs_userspace::integration::{identity_for, Backend, StateSession};
use umbra_storage_nfs_userspace::transport::{
    AttrMask, Attributes, ChangeInfo, ComponentName, ConnectionEpoch, ConnectionState, Deadline,
    DelegationType, DirCookie, DirEntry, DirPage, DirVerifier, Fsid, Nfs4Time, Nfs4Type, OpReply,
    OpenArgs, OpenClaim, OpenHow, OpenReply, RawTransport, ReadReply, ShareAccess, ShareDeny,
    Stability, Verifier, WriteReply, WriteVerifier,
};

fn deadline() -> Deadline {
    Deadline { millis: 5_000 }
}

fn stateid() -> Stateid {
    Stateid { seqid: 1, other: [9; 12] }
}

fn stored(fake: &mut FakeTransport, file: &FileHandle) -> Vec<u8> {
    fake.read(file, stateid(), 0, 64, deadline()).expect("reads").data
}

#[test]
fn a_capped_write_stores_the_prefix_it_reports() {
    for (cap, count) in [(None, 4), (Some(0), 0), (Some(2), 2), (Some(4), 4), (Some(9), 4)] {
        let mut fake = FakeTransport::new();
        let root = fake.root();
        let file = fake.insert_file(&root, b"f", vec![7; 6]);
        fake.set_write_cap(cap);
        let data = vec![1, 2, 3, 4];
        let reply = fake
            .write(&file, stateid(), 1, Stability::DataSync, data, deadline())
            .expect("written");
        assert_eq!(reply.count, count);
        assert_eq!(reply.committed, Stability::DataSync);
        let mut expected = vec![7; 6];
        expected[1..1 + count as usize].copy_from_slice(&[1, 2, 3, 4][..count as usize]);
        assert_eq!(stored(&mut fake, &file), expected);
    }
}

#[test]
fn a_reclaim_succeeds_exactly_within_grace() {
    let session = Session::establish(SessionId(1), ClientId(7), ConnectionEpoch(1));
    let reclaim = |fake: &mut FakeTransport| {
        let root = fake.root();
        let args = OpenArgs {
            seqid: 0,
            share_access: ShareAccess::READ,
            share_deny: ShareDeny::NONE,
            owner: session.open_owner(b"owner".to_vec()).expect("open"),
            how: OpenHow::NoCreate,
            claim: OpenClaim::Previous { delegate_type: DelegationType::NoDelegation },
        };
        fake.open(&root, args, deadline()).map(|_| ()).map_err(|error| error.status())
    };
    let refused = Err(Some(Nfs4Status(Nfs4Status::NO_GRACE)));
    let mut fake = FakeTransport::new();
    assert_eq!(reclaim(&mut fake), refused);
    fake.set_grace(true);
    assert_eq!(reclaim(&mut fake), Ok(()));
    fake.set_grace(false);
    assert_eq!(reclaim(&mut fake), refused);
}

#[test]
fn reconnect_epochs_rise_one_by_one() {
    let mut session =
        StateSession::over_fake(FakeTransport::new(), identity_for("one", Verifier([1; 8])));
    for epoch in 2..6 {
        assert_eq!(session.reconnect(), Ok(ConnectionEpoch(epoch)));
        assert_eq!(session.epoch(), Some(ConnectionEpoch(epoch)));
        assert_eq!(session.backend(), Backend::Fake);
    }
    assert_eq!(session.transport().live_calls(), 0);
    assert_eq!(session.transport().connection(), ConnectionState::Connected(ConnectionEpoch(5)));
}

#[test]
fn one_admission_excludes_every_other() {
    let mut store = MemoryMarkerStore::empty();
    let asks = |label: &str, token: u8| {
        AdmissionRequest::cooperative(WriterId(label.into()), WriterToken([token; 16]))
    };
    let held = AdmissionControl::new(RunId([1; 16]), &mut store)
        .acquire(&asks("first", 1))
        .admitted()
        .expect("admitted");
    assert_eq!(held.writer().0, "first");
    for token in [1, 2] {
        let mut rival = AdmissionControl::new(RunId([1; 16]), &mut store);
        assert!(rival.acquire(&asks("second", token)).admitted().is_none());
    }
}

#[test]
fn a_reply_is_printed_with_every_field() {
    let attributes = Attributes {
        returned: AttrMask(AttrMask::STAT),
        file_type: Some(Nfs4Type::Other(9)),
        change: Some(4),
        size: None,
        fsid: Some(Fsid { major: 1, minor: 2 }),
        fileid: Some(3),
        numlinks: Some(1),
        mode: Some(0o600),
        owner: Some(b"0".to_vec()),
        owner_group: None,
        time_modify: Some(Nfs4Time { seconds: i64::MIN, nanoseconds: 5 }),
        lease_time: Some(90),
        rdattr_error: Some(Nfs4Status(2)),
    };
    let entry = || DirEntry {
        cookie: DirCookie(1),
        name: ComponentName::new(b"a".to_vec()).expect("component"),
        attributes: Attributes {
            returned: AttrMask(0),
            file_type: None,
            change: None,
            size: None,
            fsid: None,
            fileid: None,
            numlinks: None,
            mode: None,
            owner: None,
            owner_group: None,
            time_modify: None,
            lease_time: None,
            rdattr_error: None,
        },
    };
    let info = ChangeInfo { atomic: true, before: 1, after: 2 };
    let same_as_debug = [
        OpReply::PutRootFh,
        OpReply::PutFh,
        OpReply::Lookup,
        OpReply::LookupParent,
        OpReply::Renew,
        OpReply::SaveFh,
        OpReply::SetClientIdConfirm,
        OpReply::GetFh(FileHandle::from_wire(vec![1, 2]).expect("in range")),
        OpReply::GetAttr(attributes),
        OpReply::ReadDir(DirPage {
            verifier: DirVerifier([3; 8]),
            entries: vec![entry(), entry()],
            eof: false,
        }),
        OpReply::Read(ReadReply { data: vec![], eof: true }),
        OpReply::Write(WriteReply {
            count: 5,
            committed: Stability::Unstable,
            verifier: WriteVerifier([1, 2, 3, 4, 5, 6, 7, 8]),
        }),
        OpReply::Open(OpenReply {
            stateid: stateid(),
            confirm_required: false,
            change_atomic: true,
            change_before: 6,
            change_after: 7,
            delegation: DelegationType::Read,
        }),
        OpReply::OpenConfirm(stateid()),
        OpReply::Locku(stateid()),
        OpReply::Remove(info),
        OpReply::Rename { source: info, target: info },
        OpReply::Create { info, attrset: AttrMask(64) },
        OpReply::SetAttr(AttrMask(4)),
    ];
    for reply in same_as_debug {
        assert_eq!(reply.text(), format!("{reply:?}"));
    }
    assert_eq!(
        OpReply::Close(stateid()).text(),
        "Close(CloseReply { stateid: Stateid { seqid: 1, other: [9, 9, 9, 9, 9, 9, 9, 9, 9, 9, 9, \
         9] } })"
    );
    assert_eq!(
        OpReply::SetClientId { client_id: ClientId(8), confirm: Verifier([0; 8]) }.text(),
        "SetClientId(SetClientIdReply { client_id: ClientId(8), confirm: Verifier([0, 0, 0, 0, 0, \
         0, 0, 0]) })"
    );
}
