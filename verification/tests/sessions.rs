//! Client incarnations over one transport.
use umbra_storage_nfs_userspace::error::Nfs4Status;
use umbra_storage_nfs_userspace::fake::{FakeTransport, ScriptedFault};
use umbra_storage_nfs_userspace::handle::{
    ClientId, ObjectIdentity, OpenGrant, Session, SessionId, Stateid,
};
use umbra_storage_nfs_userspace::integration::{identity_for, Backend, StateSession};
use umbra_storage_nfs_userspace::state::lease::EpochVerdict;
use umbra_storage_nfs_userspace::state::EstablishOutcome;
use umbra_storage_nfs_userspace::transport::{
    ConnectionEpoch, Deadline, FaultAction, FaultPoint, Fsid, OpCode, RawTransport, ShareAccess,
    ShareDeny, Verifier,
};

fn deadline() -> Deadline {
    Deadline { millis: 5_000 }
}

#[test]
fn an_identity_carries_its_label() {
    let identity = identity_for("one", Verifier([3; 8]));
    assert_eq!(identity.id(), b"umbra/nfs-userspace/one");
    assert_eq!(identity.boot_verifier(), Verifier([3; 8]));
    assert!(!Backend::Fake.is_live());
    assert!(Backend::Libnfs.is_live());
}

#[test]
fn no_other_session_stands_in_for_the_one_that_opened() {
    let mut session = Session::establish(SessionId(1), ClientId(7), ConnectionEpoch(1));
    let other = Session::establish(SessionId(2), ClientId(7), ConnectionEpoch(1));
    let grant = OpenGrant {
        handle: session.adopt_filehandle(vec![1]).expect("in range"),
        identity: ObjectIdentity { fsid: Fsid { major: 1, minor: 2 }, fileid: 3 },
        owner: session.open_owner(b"owner".to_vec()).expect("open"),
        stateid: Stateid { seqid: 1, other: [9; 12] },
        next_seqid: u32::MAX,
        confirmed: true,
        share_access: ShareAccess::READ,
        share_deny: ShareDeny::NONE,
    };
    let mut file = session.adopt_open(grant).expect("open");
    assert!(file.session().same(session.shared_core()));
    assert_eq!(file.is_confirmed(&session), Ok(true));
    file.sequence(&session).expect("ready").commit_without_stateid();
    assert_eq!(file.next_seqid(&session), Ok(Some(0)), "owner seqids wrap");
    let refused = file.stateid(&other).unwrap_err();
    assert_eq!(
        refused.text(),
        "authority: object identity unproven: session closed; this open state is no longer usable"
    );
    session.close();
    assert_eq!(file.stateid(&session), Err(refused));
    assert!(file.sequence(&other).is_err());
}

#[test]
fn an_incarnation_belongs_to_its_connection() {
    let mut session =
        StateSession::over_fake(FakeTransport::new(), identity_for("one", Verifier([1; 8])));
    assert_eq!(session.backend(), Backend::Fake);
    assert_eq!(session.observe(), None, "nothing was established");
    let before = session.epoch().expect("connected");
    let root = session.root(deadline()).expect("root");
    assert_eq!(root.as_bytes(), session.transport().root().as_bytes());
    session.establish_and_adopt(&root, 40, deadline()).expect("established");
    let incarnation = session.state().current().expect("adopted");
    assert_eq!(incarnation.epoch, before);
    assert_eq!(incarnation.established_millis, 40);
    assert_eq!(session.observe(), Some(EpochVerdict::Current));

    let after = session.reconnect().expect("reconnects");
    assert_eq!(after, ConnectionEpoch(before.0 + 1));
    assert_eq!(session.observe(), Some(EpochVerdict::Superseded));
    assert_eq!(session.transport_ref().limits().default_deadline.millis, 5_000);
    let (state, transport) = session.split();
    match state.establish(transport, &root, 41, deadline()) {
        EstablishOutcome::Established(next) => {
            assert_ne!(next.client_id, ClientId(0));
            assert_eq!(next.epoch, after);
        }
        other => panic!("a live server confirms, not {other:?}"),
    }
}

#[test]
fn a_refused_client_id_is_not_adopted() {
    let mut session =
        StateSession::over_fake(FakeTransport::new(), identity_for("one", Verifier([1; 8])));
    let root = session.root(deadline()).expect("root");
    session.transport().install_faults(ScriptedFault::once(
        FaultPoint::AfterDispatch,
        Some(OpCode::SetClientIdConfirm),
        FaultAction::Substitute(Nfs4Status(Nfs4Status::CLID_INUSE)),
    ));
    let error = session.establish_and_adopt(&root, 1, deadline()).unwrap_err();
    assert_eq!(error.status(), Some(Nfs4Status(Nfs4Status::CLID_INUSE)));
    assert_eq!(session.state().current(), None);
}


#[test]
fn a_guard_resolves_only_the_open_that_issued_its_seqid() {
    let session = Session::establish(SessionId(1), ClientId(7), ConnectionEpoch(1));
    let grant = |next_seqid| OpenGrant {
        handle: session.adopt_filehandle(vec![1]).expect("in range"),
        identity: ObjectIdentity { fsid: Fsid { major: 1, minor: 2 }, fileid: 3 },
        owner: session.open_owner(b"owner".to_vec()).expect("open"),
        stateid: Stateid { seqid: 1, other: [9; 12] },
        next_seqid,
        confirmed: true,
        share_access: ShareAccess::READ,
        share_deny: ShareDeny::NONE,
    };
    let mut one = session.adopt_open(grant(4)).expect("open");
    let mut other = session.adopt_open(grant(9)).expect("open");
    let mut first = one.sequence(&session).expect("ready");
    let mut second = other.sequence(&session).expect("ready");
    std::mem::swap(&mut first.issued, &mut second.issued);
    first.commit_without_stateid();
    second.commit_without_stateid();
    assert_eq!(one.next_seqid(&session), Ok(None), "its own outcome was never recorded");
    assert_eq!(other.next_seqid(&session), Ok(None));
}
