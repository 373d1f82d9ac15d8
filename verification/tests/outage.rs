//! The outage state machine.
use uuid::Uuid;

use umbra_storage_nfs_userspace::authority::outage::disconnected;
use umbra_storage_nfs_userspace::authority::{
    AdmissionStanding, CrashWindow, Deferral, Evidence, OutageBudget, OutageMachine,
    RecoveryState,
};
use umbra_storage_nfs_userspace::contract::{IdempotencyKey, LeaseEpoch, OperationId};
use umbra_storage_nfs_userspace::error::{
    AuthorityError, ErrorClass, FacadeError, Nfs4Status, ReplayError, TransportError,
};
use umbra_storage_nfs_userspace::transport::{ConnectionEpoch, OpCode};

fn evidence() -> Evidence {
    Evidence::for_operation(
        OperationId(*Uuid::from_u128(0x1234).as_bytes()),
        IdempotencyKey("outage-test".into()),
    )
}

fn machine() -> OutageMachine {
    OutageMachine::running(OutageBudget::design_defaults(), false)
}

#[test]
fn the_design_budgets_are_the_documented_numbers() {
    let budget = OutageBudget::design_defaults();
    assert_eq!(budget.rpc_deadline.millis, 5_000);
    assert_eq!(budget.ordinary_outage_millis, 30_000);
    assert_eq!(
        budget.grace_budget_millis(90),
        120_000,
        "a 90-second grace gets a 120-second budget"
    );
    assert_eq!(budget.backoff_millis(0), 250);
    assert_eq!(budget.backoff_millis(1), 500);
    assert_eq!(
        budget.backoff_millis(20),
        5_000,
        "backoff saturates at the ceiling"
    );
}

#[test]
fn the_first_error_is_latched_and_later_attempts_never_replace_it() {
    let mut machine = machine();
    let original = FacadeError::protocol(Nfs4Status(Nfs4Status::NOSPC), OpCode::Write, 1);
    assert_eq!(
        machine.enter(
            CrashWindow::TransientPartition,
            &evidence().with_error(original.clone()),
        ),
        RecoveryState::Recovering
    );
    for generic in [
        FacadeError::Transport(TransportError::Connect("later attempt".into())),
        FacadeError::Replay(ReplayError::Indeterminate),
        FacadeError::protocol(Nfs4Status(Nfs4Status::SERVERFAULT), OpCode::Write, 1),
    ] {
        assert_eq!(
            machine.enter(
                CrashWindow::TransientPartition,
                &evidence().with_error(generic)
            ),
            RecoveryState::Recovering
        );
    }
    assert_eq!(machine.attempts(), 4);
    assert_eq!(
        machine.status(),
        Some(Nfs4Status(Nfs4Status::NOSPC)),
        "the original NFS4ERR_NOSPC must survive every later attempt"
    );
    assert_eq!(machine.retained().expect("latched").error(), &original);
}

#[test]
fn f06_a_terminal_state_never_returns_to_running() {
    for (window, expected) in [
        (CrashWindow::ServerEio, RecoveryState::Corrupted),
        (CrashWindow::ServerEnospc, RecoveryState::BlockedRecoverable),
        (CrashWindow::TraceeCrash, RecoveryState::FailedTracee),
    ] {
        let mut machine = machine();
        machine.enter(window, &evidence().proven_loss());
        assert_eq!(machine.state(), expected);
        assert!(machine.state().is_terminal());
        let attempts = machine.attempts();
        let retained = machine.retained().cloned();

        assert_eq!(
            machine.enter(CrashWindow::StaleFilehandle, &evidence().identity(true),),
            expected,
            "a proven identity must not reopen a {expected:?} run"
        );
        assert_eq!(
            machine.enter(
                CrashWindow::GaneshaGracefulRestart,
                &evidence().reclaim(true, 90),
            ),
            expected,
            "a complete reclaim must not reopen a {expected:?} run either"
        );
        assert!(
            !machine.state().admits_mutation(),
            "a stopped run admits no mutation"
        );

        assert_eq!(
            machine.attempts(),
            attempts,
            "a stopped machine counts no further attempts"
        );
        assert_eq!(machine.retained().cloned(), retained);
        assert!(machine.marker_retained());
    }
}

#[test]
fn f06_a_stopped_run_records_no_later_deferral_or_error() {
    let mut machine = machine();
    let original = FacadeError::protocol(Nfs4Status(Nfs4Status::IO), OpCode::Write, 1);
    machine.enter(
        CrashWindow::ServerEio,
        &evidence().proven_loss().with_error(original.clone()),
    );
    assert_eq!(machine.state(), RecoveryState::Corrupted);
    assert_eq!(machine.deferral(), None);

    machine.enter(
        CrashWindow::SplitBrain,
        &evidence().with_error(FacadeError::Replay(ReplayError::Indeterminate)),
    );
    assert_eq!(machine.state(), RecoveryState::Corrupted);
    assert_eq!(
        machine.deferral(),
        None,
        "a stopped run is not being driven, so no window's deferral applies to it"
    );
    assert_eq!(machine.retained().expect("latched").error(), &original);
}

#[test]
fn f06_a_recovering_run_is_still_driven() {
    let mut machine = machine();
    assert_eq!(
        machine.enter(CrashWindow::TransientPartition, &evidence()),
        RecoveryState::Recovering
    );
    assert_eq!(
        machine.enter(CrashWindow::StaleFilehandle, &evidence().identity(true),),
        RecoveryState::Running,
        "recovery may still conclude the run is healthy"
    );
    assert_eq!(machine.attempts(), 2);
}

#[test]
fn a_tracee_exit_never_implies_storage_corruption() {
    let mut machine = machine();
    let state = machine.enter(CrashWindow::TraceeCrash, &evidence());
    assert_eq!(state, RecoveryState::FailedTracee);
    assert_ne!(state, RecoveryState::Corrupted);
    assert!(machine.marker_retained());
}

#[test]
fn a_partition_recovers_inside_the_budget_and_blocks_past_it() {
    let mut machine = machine();
    let error = disconnected(ConnectionEpoch(3), "peer reset");
    assert_eq!(
        machine.enter(
            CrashWindow::TransientPartition,
            &evidence().with_error(error.clone()).elapsed(20_000)
        ),
        RecoveryState::Recovering
    );
    assert_eq!(
        machine.enter(
            CrashWindow::TransientPartition,
            &evidence().with_error(error).elapsed(30_001)
        ),
        RecoveryState::BlockedRecoverable
    );
    assert!(
        machine.marker_retained(),
        "a prolonged partition holds the marker rather than deleting it"
    );
}

#[test]
fn eio_blocks_unless_loss_was_actually_proven() {
    let eio = FacadeError::protocol(Nfs4Status(Nfs4Status::IO), OpCode::Commit, 1);
    let mut blocked = machine();
    assert_eq!(
        blocked.enter(CrashWindow::ServerEio, &evidence().with_error(eio.clone())),
        RecoveryState::BlockedRecoverable
    );
    assert_eq!(blocked.status(), Some(Nfs4Status(Nfs4Status::IO)));

    let mut corrupted = machine();
    assert_eq!(
        corrupted.enter(
            CrashWindow::ServerEio,
            &evidence().with_error(eio).proven_loss()
        ),
        RecoveryState::Corrupted
    );
}

#[test]
fn a_stale_handle_is_only_re_resolved_on_proven_identity() {
    let stale = FacadeError::protocol(Nfs4Status(Nfs4Status::STALE), OpCode::Read, 1);
    assert_eq!(stale.class(), ErrorClass::SafeStop);
    let mut proven = machine();
    assert_eq!(
        proven.enter(
            CrashWindow::StaleFilehandle,
            &evidence().with_error(stale.clone()).identity(true)
        ),
        RecoveryState::Running
    );
    assert_eq!(
        proven.status(),
        Some(Nfs4Status(Nfs4Status::STALE)),
        "recovering does not erase the error that caused it"
    );

    let mut unproven = machine();
    assert_eq!(
        unproven.enter(
            CrashWindow::StaleFilehandle,
            &evidence().with_error(stale).identity(false)
        ),
        RecoveryState::BlockedRecoverable
    );
}

#[test]
fn split_brain_stops_and_records_the_m3_deferral() {
    for window in [CrashWindow::SplitBrain, CrashWindow::HardPartition] {
        let mut machine = machine();
        let state = machine.enter(
            window,
            &evidence().with_admission(AdmissionStanding::Held(LeaseEpoch(4))),
        );
        assert_eq!(state, RecoveryState::BlockedRecoverable);
        assert_eq!(machine.deferral(), Some(Deferral::M3Fencing));
        assert!(machine
            .deferral()
            .expect("deferral")
            .note()
            .contains("fence"));
    }
}

#[test]
fn giving_up_consumes_the_machine_and_keeps_the_marker() {
    let stopped = machine().give_up_unproven_authority(AuthorityError::TakeoverRefused);
    assert_eq!(stopped.state(), RecoveryState::BlockedRecoverable);
    assert!(stopped.marker_retained());
    assert!(stopped
        .diagnostic()
        .contains("authority could not be proven"));
    assert!(matches!(
        stopped.retained().expect("latched").error(),
        FacadeError::Authority(AuthorityError::TakeoverRefused)
    ));
}

#[test]
fn every_window_is_answered() {
    assert_eq!(CrashWindow::all().len(), 14);
    for window in CrashWindow::all() {
        let mut machine = machine();
        let state = machine.enter(window, &evidence());
        assert_ne!(
            state,
            RecoveryState::Running,
            "{window:?} ran on no evidence"
        );
    }
}
