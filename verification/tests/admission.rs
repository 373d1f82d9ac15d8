//! Acquiring and releasing writer authority.
use uuid::Uuid;

use umbra_storage_nfs_userspace::authority::{
    AdmissionControl, AdmissionMarker, AdmissionOutcome, AdmissionPhase, AdmissionRequest,
    MarkerStore, MemoryMarkerStore, OutstandingIo, ReleaseOutcome, WriterToken,
};
use umbra_storage_nfs_userspace::contract::{LeaseEpoch, RunId, TakeoverPolicy, WriterId};
use umbra_storage_nfs_userspace::error::{AuthorityError, ErrorClass, FacadeError, TransportError};

fn run() -> RunId {
    RunId(*Uuid::from_u128(0x5150).as_bytes())
}

fn request(label: &str, token: u8) -> AdmissionRequest {
    AdmissionRequest::cooperative(WriterId(label.into()), WriterToken([token; 16]))
}

#[test]
fn the_first_acquirer_is_admitted_at_epoch_one() {
    let mut control = AdmissionControl::new(run(), MemoryMarkerStore::empty());
    let admitted = control
        .acquire(&request("a", 1))
        .admitted()
        .expect("first acquirer wins");
    assert_eq!(admitted.epoch(), LeaseEpoch(1));
    assert_eq!(admitted.run(), run());
}

#[test]
fn a_held_marker_denies_even_the_same_token() {
    let mut control = AdmissionControl::new(run(), MemoryMarkerStore::empty());
    control.acquire(&request("a", 1)).admitted().expect("first");
    let outcome = control.acquire(&request("a", 1));
    let AdmissionOutcome::Denied { holder_epoch, .. } = &outcome else {
        panic!("expected denial, got {outcome:?}");
    };
    assert_eq!(*holder_epoch, LeaseEpoch(1));
    assert_eq!(
        outcome.error().expect("denial carries an error").class(),
        ErrorClass::SafeStop
    );
}

#[test]
fn a_cooperative_release_lets_the_next_session_in_at_the_next_epoch() {
    let mut store = MemoryMarkerStore::empty();
    {
        let mut first = AdmissionControl::new(run(), &mut store);
        let admitted = first.acquire(&request("a", 1)).admitted().expect("first");
        assert!(matches!(
            first.release(admitted, OutstandingIo::Excluded),
            ReleaseOutcome::Released {
                epoch: LeaseEpoch(1)
            }
        ));
    }

    let mut second = AdmissionControl::new(run(), &mut store);
    let next = second
        .acquire(&request("b", 2))
        .admitted()
        .expect("released marker admits the follow-on session");
    assert_eq!(next.epoch(), LeaseEpoch(2), "epoch advances by exactly one");
}

#[test]
fn release_is_withheld_while_old_io_cannot_be_excluded() {
    let mut control = AdmissionControl::new(run(), MemoryMarkerStore::empty());
    let admitted = control.acquire(&request("a", 1)).admitted().expect("first");
    let outcome = control.release(
        admitted,
        OutstandingIo::Unknown {
            detail: "one WRITE reply never arrived".into(),
        },
    );
    let ReleaseOutcome::Retained { admitted, .. } = outcome else {
        panic!("expected the release to be withheld");
    };
    assert_eq!(admitted.epoch(), LeaseEpoch(1));
    assert_eq!(
        control
            .inspect()
            .expect("read")
            .expect("marker present")
            .phase(),
        AdmissionPhase::Held,
        "the marker must still read as held"
    );
}

#[test]
fn every_takeover_policy_other_than_refuse_is_refused() {
    for policy in [
        TakeoverPolicy::ConfirmedTermination {
            evidence: b"pid 4242 exited".to_vec(),
        },
        TakeoverPolicy::FencePreviousWriter,
    ] {
        let mut control = AdmissionControl::new(run(), MemoryMarkerStore::empty());
        let outcome = control.acquire(&AdmissionRequest {
            takeover: policy.clone(),
            ..request("a", 1)
        });
        assert!(
            matches!(
                outcome,
                AdmissionOutcome::Refused(FacadeError::Authority(
                    AuthorityError::TakeoverRefused
                ))
            ),
            "{policy:?} must be refused, got {outcome:?}"
        );
        assert_eq!(
            control.inspect().expect("read"),
            None,
            "a refused takeover must not create a marker"
        );
    }
}

#[test]
fn a_regressed_epoch_is_a_safe_stop_not_a_retry() {
    let mut store = MemoryMarkerStore::empty();
    let mut control = AdmissionControl::new(run(), &mut store);
    for (index, (label, token)) in [("a", 1u8), ("b", 2), ("c", 3)].into_iter().enumerate() {
        let admitted = control
            .acquire(&request(label, token))
            .admitted()
            .unwrap_or_else(|| panic!("acquire {label}"));
        assert_eq!(admitted.epoch(), LeaseEpoch(index as u64 + 1));
        control.release(admitted, OutstandingIo::Excluded);
    }
    assert_eq!(control.highest_epoch_seen(), LeaseEpoch(3));

    let stale = AdmissionMarker::new(
        WriterToken([9; 16]),
        WriterId("stale".into()),
        LeaseEpoch(1),
        AdmissionPhase::Released,
    );
    control
        .store_mut()
        .overwrite(&stale.encode().expect("encode"))
        .expect("rewrite the durable evidence");

    let outcome = control.acquire(&request("d", 4));
    assert!(
        matches!(
            outcome,
            AdmissionOutcome::Refused(FacadeError::Authority(
                AuthorityError::IdentityUnproven(_)
            ))
        ),
        "a marker that went backwards must stop, not admit: {outcome:?}"
    );
}

#[test]
fn a_store_failure_refuses_rather_than_admitting() {
    let mut store = MemoryMarkerStore::empty();
    store.fail_next(FacadeError::Transport(
        TransportError::Connect("no route".into()),
    ));
    let mut control = AdmissionControl::new(run(), store);
    let outcome = control.acquire(&request("a", 1));
    assert!(
        matches!(outcome, AdmissionOutcome::Refused(_)),
        "{outcome:?}"
    );
}
