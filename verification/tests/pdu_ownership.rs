//! Who owns a queued PDU.
use umbra_storage_nfs_userspace::pdu::{ownership, DisposalGeneration, Ownership};

#[test]
fn r1_009_a_connection_wide_disposal_makes_every_queued_pdu_unfreeable() {
    let queued_in = DisposalGeneration::start();
    assert_eq!(
        ownership(queued_in, DisposalGeneration::start(), false),
        Ownership::Cancellable
    );

    let after = DisposalGeneration::start().disposed();
    assert_eq!(
        ownership(queued_in, after, false),
        Ownership::Freed,
        "a PDU outstanding across a connection loss has already been freed"
    );
}

#[test]
fn r1_009_an_observed_completion_retires_the_pdu_pointer() {
    assert_eq!(
        ownership(DisposalGeneration::start(), DisposalGeneration::start(), true),
        Ownership::Freed
    );
    assert_eq!(
        ownership(
            DisposalGeneration::start(),
            DisposalGeneration::start().disposed(),
            true
        ),
        Ownership::Freed
    );
}

#[test]
fn r1_009_one_disposal_covers_every_call_outstanding_at_the_time() {
    let generation = DisposalGeneration::start();
    let queued: Vec<DisposalGeneration> = (0..4).map(|_| generation).collect();
    let after = generation.disposed();
    for (index, queued_in) in queued.iter().enumerate() {
        assert_eq!(
            ownership(*queued_in, after, false),
            Ownership::Freed,
            "call {index} was outstanding across the disposal"
        );
    }
    assert_eq!(ownership(after, after, false), Ownership::Cancellable);
}

#[test]
fn r1_009_generations_only_move_forward() {
    let first = DisposalGeneration::start().disposed();
    let second = first.disposed();
    assert!(second > first);
    assert_eq!(ownership(first, second, false), Ownership::Freed);
    assert_eq!(second.get(), 2);
}
