//! Filehandles, sessions and sequenced open state.
use std::sync::Arc;

use umbra_storage_nfs_userspace::error::{AuthorityError, FacadeError, Nfs4Status};
use umbra_storage_nfs_userspace::handle::{
    ClientId, FileHandle, ObjectIdentity, OpenFile, OpenGrant, Session, SessionId, Stateid,
    MAX_FILEHANDLE_BYTES,
};
use umbra_storage_nfs_userspace::transport::{ConnectionEpoch, Fsid, ShareAccess, ShareDeny};

fn session() -> Session {
    Session::establish(SessionId(1), ClientId(7), ConnectionEpoch(1))
}

fn open_file_in(session: &Session) -> OpenFile {
    session
        .adopt_open(OpenGrant {
            handle: session.adopt_filehandle(vec![1, 2, 3]).unwrap(),
            identity: ObjectIdentity {
                fsid: Fsid { major: 1, minor: 2 },
                fileid: 42,
            },
            owner: session.open_owner(b"umbra-open-owner".to_vec()).unwrap(),
            stateid: Stateid {
                seqid: 1,
                other: [9; 12],
            },
            next_seqid: 0,
            confirmed: true,
            share_access: ShareAccess::BOTH,
            share_deny: ShareDeny::NONE,
        })
        .unwrap()
}

fn open_file() -> (Session, OpenFile) {
    let session = session();
    let file = open_file_in(&session);
    (session, file)
}

#[test]
fn filehandles_own_their_bytes_and_reject_out_of_range_lengths() {
    assert_eq!(
        FileHandle::from_wire(vec![7, 8]).unwrap().as_bytes(),
        &[7, 8]
    );
    assert!(FileHandle::from_wire(Vec::new()).is_err());
    assert!(FileHandle::from_wire(vec![0; MAX_FILEHANDLE_BYTES + 1]).is_err());
}

#[test]
fn commit_advances_the_seqid_and_adopts_the_stateid() {
    let (session, mut file) = open_file();
    let op = file.sequence(&session).unwrap();
    assert_eq!(op.seqid(), 0);
    let next = Stateid {
        seqid: 2,
        other: [4; 12],
    };
    op.commit(next);
    let op = file.sequence(&session).unwrap();
    assert_eq!(op.seqid(), 1);
    assert_eq!(op.stateid(), next);
    op.commit_without_stateid();
    assert_eq!(file.stateid(&session).unwrap(), next);
}

#[test]
fn abort_follows_the_rfc_seqid_rule_in_both_directions() {
    let (session, mut file) = open_file();
    file.sequence(&session).unwrap().abort(Nfs4Status(Nfs4Status::BAD_SEQID));
    let held = file.sequence(&session).unwrap();
    assert_eq!(held.seqid(), 0, "a held status does not advance the seqid");
    held.abort(Nfs4Status(Nfs4Status::ACCESS));
    let advanced = file.sequence(&session).unwrap();
    assert_eq!(advanced.seqid(), 1, "any other status advances it");
    advanced.commit_without_stateid();
}

#[test]
fn an_unresolved_guard_poisons_the_owner_instead_of_desynchronising() {
    let (session, mut file) = open_file();
    drop(file.sequence(&session).unwrap());
    let error = file.sequence(&session).unwrap_err();
    assert!(matches!(
        error,
        FacadeError::Authority(AuthorityError::IdentityUnproven(_))
    ));
}

#[test]
fn a_lost_reply_is_recorded_as_unknown_not_guessed() {
    let (session, mut file) = open_file();
    file.sequence(&session).unwrap().abandon();
    assert!(file.sequence(&session).is_err());
    assert_eq!(file.next_seqid(&session).unwrap(), None);
}

#[test]
fn next_seqid_inspects_the_owner_without_risking_a_poisoning_drop() {
    let (session, mut file) = open_file();
    assert_eq!(file.next_seqid(&session).unwrap(), Some(0));
    assert_eq!(file.next_seqid(&session).unwrap(), Some(0));
    file.sequence(&session).unwrap().commit_without_stateid();
    assert_eq!(file.next_seqid(&session).unwrap(), Some(1));
}

#[test]
fn a_closed_session_makes_open_state_unusable_deterministically() {
    let mut session = session();
    let mut file = open_file_in(&session);
    session.close();
    assert!(file.stateid(&session).is_err());
    assert!(file.sequence(&session).is_err());
    assert!(session.adopt_filehandle(vec![1]).is_err());
    assert!(session.open_owner(b"another".to_vec()).is_err());
}

#[test]
fn open_state_keeps_its_session_core_alive() {
    let session = session();
    let file = open_file_in(&session);
    let core = Arc::clone(session.shared_core());
    assert!(file.stateid(&session).is_ok());
    drop(session);
    assert_eq!(Arc::strong_count(&core), 2);
    assert!(Arc::ptr_eq(file.session(), &core));
}

#[test]
fn an_owner_from_another_client_is_refused() {
    let session = session();
    let other = Session::establish(SessionId(2), ClientId(8), ConnectionEpoch(1));
    let grant = OpenGrant {
        handle: session.adopt_filehandle(vec![1]).unwrap(),
        identity: ObjectIdentity {
            fsid: Fsid { major: 1, minor: 2 },
            fileid: 1,
        },
        owner: other.open_owner(b"owner".to_vec()).unwrap(),
        stateid: Stateid::anonymous(),
        next_seqid: 0,
        confirmed: true,
        share_access: ShareAccess::READ,
        share_deny: ShareDeny::NONE,
    };
    assert!(session.adopt_open(grant).is_err());
}

#[test]
fn a_downgrade_narrows_the_recorded_share_bits_and_advances_the_seqid() {
    let (session, mut file) = open_file();
    assert_eq!(file.share(&session).unwrap(), (ShareAccess::BOTH, ShareDeny::NONE));
    let op = file.sequence(&session).unwrap();
    assert_eq!(op.seqid(), 0);
    let downgraded = Stateid {
        seqid: 3,
        other: [5; 12],
    };
    op.commit_downgraded(downgraded, ShareAccess::READ, ShareDeny::NONE);
    assert_eq!(file.share(&session).unwrap(), (ShareAccess::READ, ShareDeny::NONE));
    assert_eq!(file.stateid(&session).unwrap(), downgraded);
    let next = file.sequence(&session).unwrap();
    assert_eq!(next.seqid(), 1);
    next.commit_without_stateid();
}

#[test]
fn identity_is_the_fsid_fileid_pair_not_the_filehandle_bytes() {
    let renamed = FileHandle::from_wire(vec![9, 9, 9]).unwrap();
    let (session, mut file) = open_file();
    assert_ne!(file.handle().as_bytes(), renamed.as_bytes());
    assert_eq!(file.identity().fileid, 42);
}
