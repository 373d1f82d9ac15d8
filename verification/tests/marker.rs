//! The durable admission marker.
use umbra_storage_nfs_userspace::authority::marker::{
    EXTENDED_MARKER_BYTES, LEGACY_MARKER_BYTES, MAX_WRITER_ID_BYTES,
};
use umbra_storage_nfs_userspace::authority::{
    AdmissionMarker, AdmissionPhase, ExclusiveCreate, MarkerError, MarkerStore,
    MemoryMarkerStore, WriterToken,
};
use umbra_storage_nfs_userspace::contract::{LeaseEpoch, WriterId};
use umbra_storage_nfs_userspace::error::{AuthorityError, FacadeError};

fn token() -> WriterToken {
    WriterToken([7; LEGACY_MARKER_BYTES])
}

fn held(writer: &str, epoch: u64) -> AdmissionMarker {
    AdmissionMarker::new(
        token(),
        WriterId(writer.into()),
        LeaseEpoch(epoch),
        AdmissionPhase::Held,
    )
}

#[test]
fn the_extended_encoding_round_trips() {
    let marker = held("umbra/session-a", 9);
    let bytes = marker.encode().expect("encode");
    assert_eq!(bytes.len(), EXTENDED_MARKER_BYTES);
    let decoded = AdmissionMarker::decode(&bytes).expect("round trip");
    assert_eq!(decoded, marker);
    assert!(!decoded.is_legacy());
    assert_eq!(
        decoded.writer().map(|id| id.0.as_str()),
        Some("umbra/session-a")
    );
}

#[test]
fn a_legacy_lock_reads_as_held_and_never_as_released() {
    let decoded = AdmissionMarker::decode(&[3u8; LEGACY_MARKER_BYTES]).expect("legacy lock");
    assert!(decoded.is_legacy());
    assert_eq!(decoded.phase(), AdmissionPhase::Held);
    assert_eq!(decoded.epoch(), LeaseEpoch(0));
    assert_eq!(decoded.writer(), None);
    assert!(decoded.is_held_by(WriterToken([3; LEGACY_MARKER_BYTES])));
}

#[test]
fn every_record_is_the_same_width_so_an_overwrite_is_total() {
    let short = held("a", 1).encode().expect("encode");
    let long = held(&"w".repeat(MAX_WRITER_ID_BYTES), 1)
        .encode()
        .expect("encode");
    assert_eq!(short.len(), long.len());
    assert_eq!(short.len(), EXTENDED_MARKER_BYTES);

    let mut store = MemoryMarkerStore::empty();
    store.create_exclusive(&long).expect("create");
    store.overwrite(&short).expect("overwrite");
    let read = store.read().expect("read").expect("present");
    let decoded = AdmissionMarker::decode(&read).expect("decode");
    assert_eq!(decoded.writer().map(|id| id.0.as_str()), Some("a"));
}

#[test]
fn a_writer_id_that_does_not_fit_is_refused_rather_than_truncated() {
    let error = held(&"w".repeat(MAX_WRITER_ID_BYTES + 1), 1)
        .encode()
        .expect_err("must refuse");
    assert!(
        matches!(error, MarkerError::WriterIdTooLong { .. }),
        "{error:?}"
    );
}

#[test]
fn malformed_evidence_is_refused_rather_than_repaired() {
    let mut wrong_phase = held("w", 1).encode().expect("encode");
    wrong_phase[9] = 42;
    let mut wrong_magic = held("w", 1).encode().expect("encode");
    wrong_magic[0] = b'X';
    let truncated = held("w", 1).encode().expect("encode")[..128].to_vec();

    for bytes in [
        b"not a marker".to_vec(),
        b"UMBRAWRL".to_vec(),
        wrong_phase,
        wrong_magic,
        truncated,
    ] {
        let error = AdmissionMarker::decode(&bytes).expect_err("must refuse");
        assert!(matches!(error, MarkerError::Malformed(_)), "{error:?}");
        assert!(matches!(
            error.to_facade(),
            FacadeError::Authority(AuthorityError::IdentityUnproven(_))
        ));
    }
}

#[test]
fn releasing_keeps_the_epoch_and_the_token() {
    let marker = held("w", 4);
    let released = marker.released();
    assert_eq!(released.epoch(), LeaseEpoch(4));
    assert_eq!(released.token(), marker.token());
    assert_eq!(released.phase(), AdmissionPhase::Released);
}

#[test]
fn the_store_trait_has_no_way_to_delete_a_marker() {
    let mut store = MemoryMarkerStore::empty();
    assert_eq!(
        store.create_exclusive(b"first").expect("create"),
        ExclusiveCreate::Created
    );
    assert_eq!(
        store.create_exclusive(b"second").expect("create"),
        ExclusiveCreate::Exists
    );
    assert_eq!(store.read().expect("read").as_deref(), Some(&b"first"[..]));
}
