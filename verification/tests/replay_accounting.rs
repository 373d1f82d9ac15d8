//! Payload retention, verifier comparison and backpressure.
use umbra_storage_nfs_userspace::replay::{Backpressure, Payload, ReplayBudget, VerifierMatch};
use umbra_storage_nfs_userspace::transport::WriteVerifier;

#[test]
fn a_digest_only_payload_retains_no_bytes_and_no_budget() {
    let payload = Payload::Digest {
        digest: [0; 32],
        len: 4096,
        source: "journal record 12".into(),
    };
    assert_eq!(payload.bytes(), None);
    assert_eq!(payload.retained_len(), 0);
    assert_eq!(Payload::Inline(vec![1, 2, 3]).retained_len(), 3);
}

#[test]
fn verifier_comparison_never_guesses() {
    let a = WriteVerifier([1; 8]);
    let b = WriteVerifier([2; 8]);
    assert_eq!(VerifierMatch::compare(Some(a), a), VerifierMatch::Match);
    assert_eq!(
        VerifierMatch::compare(Some(a), b),
        VerifierMatch::Changed {
            recorded: a,
            observed: b
        }
    );
    assert_eq!(VerifierMatch::compare(None, a), VerifierMatch::Unknown);
    assert!(VerifierMatch::compare(None, a).into_result().is_err());
}

#[test]
fn backpressure_trips_on_either_bound() {
    let pressure = Backpressure {
        records: 3,
        payload_bytes: 900,
        budget: ReplayBudget {
            max_records: 4,
            max_payload_bytes: 1000,
        },
    };
    assert!(!pressure.would_exceed(100));
    assert!(pressure.would_exceed(101));
    let full = Backpressure {
        records: 4,
        ..pressure
    };
    assert!(full.would_exceed(0));
}
