//! When a run goes on after a crash window, and when it stops.
use vstd::prelude::*;

use super::{entered, terminal, CrashWindow, EvidenceView, OutageMachineView, RecoveryState};

verus! {

/// Whether a window is a crash of the run's own process.
pub open spec fn own_crash(window: CrashWindow) -> bool {
    window is UmbraCrashBeforeWrite || window is UmbraCrashMidWrite
        || window is UmbraCrashAfterWrite
}

/// Whether reclaim still has time: the server's grace, and what is granted on top of it.
pub open spec fn within_grace(machine: OutageMachineView, evidence: EvidenceView) -> bool {
    evidence.elapsed_millis <= evidence.grace_seconds * 1000 + machine.budget.grace_extra_millis
}

/// A run is running again at once exactly when every lock was reclaimed within grace, or
/// a stale handle was proven to name the same object.
pub proof fn a_run_is_running_again_exactly_when(
    machine: OutageMachineView,
    window: CrashWindow,
    evidence: EvidenceView,
)
    requires
        !terminal(machine.state),
    ensures
        entered(machine, window, evidence).state == RecoveryState::Running <==> {
            ||| window is GaneshaGracefulRestart && within_grace(machine, evidence)
                && evidence.reclaim_recovered_all == Some(true)
            ||| window is StaleFilehandle && evidence.identity_proven == Some(true)
        },
{
}

/// A run goes on recovering exactly when it still holds its admission with no old I/O
/// left, after a crash of its own or a short enough suspension, or while the budget of a
/// partition or of a reclaim lasts.
pub proof fn a_run_goes_on_recovering_exactly_when(
    machine: OutageMachineView,
    window: CrashWindow,
    evidence: EvidenceView,
)
    requires
        !terminal(machine.state),
    ensures
        entered(machine, window, evidence).state == RecoveryState::Recovering <==> {
            ||| own_crash(window) && evidence.admission is Held
                && evidence.outstanding_io_excluded
            ||| window is UmbraSigstopResume && evidence.admission is Held
                && evidence.outstanding_io_excluded && evidence.suspend_gap_millis
                <= machine.budget.ordinary_outage_millis
            ||| window is TransientPartition && evidence.elapsed_millis
                <= machine.budget.ordinary_outage_millis
            ||| window is GaneshaGracefulRestart && within_grace(machine, evidence)
                && evidence.reclaim_recovered_all is None
        },
{
}

/// A run ends as corrupted exactly when the server lost data and the loss was proven, and
/// as a failed tracee exactly when the tracee crashed.
pub proof fn a_run_ends_exactly_when(
    machine: OutageMachineView,
    window: CrashWindow,
    evidence: EvidenceView,
)
    requires
        !terminal(machine.state),
    ensures
        ({
            let state = entered(machine, window, evidence).state;
            &&& state == RecoveryState::Corrupted <==> (window is ServerEio
                || window is ServerPowerLoss) && evidence.proven_loss
            &&& state == RecoveryState::FailedTracee <==> window is TraceeCrash
            &&& window is ServerEnospc || window is ClientPowerLossInFlight
                || window is SplitBrain || window is HardPartition ==> state
                == RecoveryState::BlockedRecoverable
        }),
{
}

/// What a machine says of the windows it met: one more attempt, the budget it had, who
/// owns what it could not resolve, and of its first failure exactly what the evidence
/// said.
pub proof fn a_window_is_accounted_for(
    machine: OutageMachineView,
    window: CrashWindow,
    evidence: EvidenceView,
)
    requires
        !terminal(machine.state),
    ensures
        ({
            let after = entered(machine, window, evidence);
            &&& machine.attempts < u32::MAX ==> after.attempts == machine.attempts + 1
            &&& after.budget == machine.budget
            &&& after.durable_evidence == machine.durable_evidence
            &&& window is SplitBrain || window is HardPartition ==> (after.deferral matches Some(
                owner,
            ) && owner is M3Fencing)
            &&& window is ServerPowerLoss ==> (after.deferral matches Some(owner)
                && owner is M3Qualification)
            &&& !(window is SplitBrain || window is HardPartition || window is ServerPowerLoss)
                ==> after.deferral == machine.deferral
            &&& machine.retained is None && evidence.error is None ==> after.retained is None
            &&& machine.retained is None ==> (evidence.error matches Some(error) ==> (
            after.retained matches Some(kept) && kept.error == error && kept.key == evidence.key
                && kept.operation == evidence.operation && kept.durable
                == machine.durable_evidence))
        }),
{
}

/// The more time has passed, the less is granted: a run that would stop still stops when
/// everything else is the same and more time has passed.
pub proof fn waiting_longer_never_helps(
    machine: OutageMachineView,
    window: CrashWindow,
    evidence: EvidenceView,
    later: EvidenceView,
)
    requires
        !terminal(machine.state),
        later.elapsed_millis >= evidence.elapsed_millis,
        later.suspend_gap_millis >= evidence.suspend_gap_millis,
        later == (EvidenceView {
            elapsed_millis: later.elapsed_millis,
            suspend_gap_millis: later.suspend_gap_millis,
            ..evidence
        }),
    ensures
        terminal(entered(machine, window, evidence).state) ==> terminal(
            entered(machine, window, later).state,
        ),
{
}

} // verus!
