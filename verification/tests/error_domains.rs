//! The error domains: statuses, classes and the seqid rule.
use umbra_storage_nfs_userspace::contract::ErrorKind;
use umbra_storage_nfs_userspace::error::{
    AuthorityError, ErrorClass, FacadeError, Nfs4Status, ReplayError, TransportError,
};
use umbra_storage_nfs_userspace::transport::OpCode;

#[test]
fn unknown_status_is_preserved_and_never_successful() {
    let unknown = Nfs4Status(65_535);
    assert!(!unknown.is_ok());
    let error = FacadeError::protocol(unknown, OpCode::Write, 3);
    assert_eq!(error.status(), Some(unknown));
    assert!(error.to_umbra("write").context.contains("65535"));
    assert_eq!(error.to_umbra("write").kind, ErrorKind::Io);
}

#[test]
fn seqid_hold_set_matches_rfc_7530_section_9_1_7() {
    for held in [
        Nfs4Status(Nfs4Status::STALE_CLIENTID),
        Nfs4Status(Nfs4Status::STALE_STATEID),
        Nfs4Status(Nfs4Status::BAD_STATEID),
        Nfs4Status(Nfs4Status::BAD_SEQID),
        Nfs4Status(Nfs4Status::BADXDR),
        Nfs4Status(Nfs4Status::RESOURCE),
        Nfs4Status(Nfs4Status::NOFILEHANDLE),
        Nfs4Status(Nfs4Status::MOVED),
    ] {
        assert!(held.holds_seqid(), "{held:?} must not advance the seqid");
    }
    for advanced in [Nfs4Status(Nfs4Status::OK), Nfs4Status(Nfs4Status::DENIED), Nfs4Status(Nfs4Status::ACCESS)] {
        assert!(!advanced.holds_seqid());
    }
}

#[test]
fn domains_classify_independently() {
    assert_eq!(
        FacadeError::protocol(Nfs4Status(Nfs4Status::GRACE), OpCode::Open, 0).class(),
        ErrorClass::Retriable
    );
    assert_eq!(
        FacadeError::Authority(AuthorityError::TakeoverRefused).class(),
        ErrorClass::SafeStop
    );
    assert_eq!(
        FacadeError::Replay(ReplayError::PayloadMissing).class(),
        ErrorClass::SafeStop
    );
    assert_eq!(
        FacadeError::Transport(TransportError::QueueFull {
            depth: 8,
            capacity: 8
        })
        .class(),
        ErrorClass::Retriable
    );
}
