//! Which failures are retried, recovered from, or stopped on, and how callers see them.
use vstd::prelude::*;

use crate::contract::ErrorKind;

use super::{class_of, seqid_is_held, to_umbra, ErrorClass, FacadeErrorView};

verus! {

/// Whether a failure is a server status among `codes`.
pub open spec fn is_among(error: FacadeErrorView, codes: Seq<u32>) -> bool {
    error matches FacadeErrorView::Protocol(failure) && codes.contains(failure.status.0)
}

proof fn codes_are_tested(code: u32)
    ensures
        retriable_codes().contains(code) <==> code == 10008 || code == 10012 || code == 10013
            || code == 10018,
        recoverable_codes().contains(code) <==> code == 10011 || code == 10014 || code == 10022
            || code == 10023 || code == 10024 || code == 10025 || code == 10026 || code == 10031
            || code == 10047,
        stopping_codes().contains(code) <==> code == 70 || code == 10001 || code == 10006 || code
            == 10019 || code == 10021 || code == 10033 || code == 10034 || code == 10035,
        stale_codes().contains(code) <==> code == 70 || code == 10001 || code == 10014 || code
            == 10023 || code == 10024 || code == 10025 || code == 10047,
{
    let a = retriable_codes();
    assert(a[0] == 10008 && a[1] == 10012 && a[2] == 10013 && a[3] == 10018);
    let b = recoverable_codes();
    assert(b[0] == 10011 && b[1] == 10014 && b[2] == 10022 && b[3] == 10023 && b[4] == 10024
        && b[5] == 10025 && b[6] == 10026 && b[7] == 10031 && b[8] == 10047);
    let c = stopping_codes();
    assert(c[0] == 70 && c[1] == 10001 && c[2] == 10006 && c[3] == 10019 && c[4] == 10021 && c[5]
        == 10033 && c[6] == 10034 && c[7] == 10035);
    let d = stale_codes();
    assert(d[0] == 70 && d[1] == 10001 && d[2] == 10014 && d[3] == 10023 && d[4] == 10024 && d[5]
        == 10025 && d[6] == 10047);
}

/// The words a server answers while it is busy: delay, locked, grace, resource.
pub open spec fn retriable_codes() -> Seq<u32> {
    seq![10008u32, 10012u32, 10013u32, 10018u32]
}

/// The words that say client or open state is gone: expired, expired handle, stale client
/// id, stale, old and bad stateids, a bad seqid, a moved lease, revoked state.
pub open spec fn recoverable_codes() -> Seq<u32> {
    seq![
        10011u32,
        10014u32,
        10022u32,
        10023u32,
        10024u32,
        10025u32,
        10026u32,
        10031u32,
        10047u32,
    ]
}

/// The words that leave nothing to recover: a stale or bad handle, a server fault, a
/// moved file system, a foreign minor version, and a reclaim refused.
pub open spec fn stopping_codes() -> Seq<u32> {
    seq![70u32, 10001u32, 10006u32, 10019u32, 10021u32, 10033u32, 10034u32, 10035u32]
}

/// The words that say what was held is no longer valid.
pub open spec fn stale_codes() -> Seq<u32> {
    seq![70u32, 10001u32, 10014u32, 10023u32, 10024u32, 10025u32, 10047u32]
}

/// A failure may simply be tried again exactly when the server is busy, the queue is
/// full, a deadline passed, or the ledger has no room yet.
pub proof fn a_failure_is_retriable_exactly_when(error: FacadeErrorView)
    ensures
        class_of(error) == ErrorClass::Retriable <==> {
            ||| is_among(error, retriable_codes())
            ||| error matches FacadeErrorView::Transport(failure) && (failure is QueueFull
                || failure is DeadlineExpired)
            ||| error matches FacadeErrorView::Replay(failure) && failure is CapacityExhausted
        },
{
    if let FacadeErrorView::Protocol(failure) = error {
        codes_are_tested(failure.status.0);
    }
}

/// A failure calls for recovery exactly when client or open state is gone, the connection
/// is, or the server's write verifier changed.
pub proof fn a_failure_needs_recovery_exactly_when(error: FacadeErrorView)
    ensures
        class_of(error) == ErrorClass::NeedsRecovery <==> {
            ||| is_among(error, recoverable_codes())
            ||| error matches FacadeErrorView::Transport(failure) && (failure is Connect
                || failure is Disconnected)
            ||| error matches FacadeErrorView::Replay(failure) && failure is VerifierChanged
        },
{
    if let FacadeErrorView::Protocol(failure) = error {
        codes_are_tested(failure.status.0);
    }
}

/// A failure stops the run exactly when its server can no longer be relied on, the peer
/// does not speak the protocol, authority cannot be proven, or what became of a request
/// cannot be known.
pub proof fn a_failure_stops_the_run_exactly_when(error: FacadeErrorView)
    ensures
        class_of(error) == ErrorClass::SafeStop <==> {
            ||| is_among(error, stopping_codes())
            ||| error matches FacadeErrorView::Transport(failure) && (failure is Malformed
                || failure is UnsupportedProfile)
            ||| error matches FacadeErrorView::Authority(failure) && (failure is AdmissionRefused
                || failure is TakeoverRefused || failure is IdentityUnproven)
            ||| error matches FacadeErrorView::Replay(failure) && (failure is PayloadMissing
                || failure is Indeterminate)
        },
{
    if let FacadeErrorView::Protocol(failure) = error {
        codes_are_tested(failure.status.0);
    }
}

/// What callers are told of a server status: each kind exactly for its words.
pub proof fn a_server_failure_is_told_as(error: FacadeErrorView, operation: Seq<char>)
    requires
        error is Protocol,
    ensures
        ({
            let code = error->Protocol_0.status.0;
            let told = to_umbra(error, operation).kind;
            &&& told == ErrorKind::NotFound <==> code == 2
            &&& told == ErrorKind::AlreadyExists <==> code == 17
            &&& told == ErrorKind::UnsupportedCapability <==> code == 10004
            &&& told == ErrorKind::Denied <==> code == 1 || code == 13 || code == 30
            &&& told == ErrorKind::InvalidInput <==> code == 22 || code == 63 || code == 10005
            &&& told == ErrorKind::StaleHandle <==> stale_codes().contains(code)
            &&& told == ErrorKind::LeaseLost <==> code == 10011 || code == 10022 || code == 10038
            &&& told == ErrorKind::InvalidPath <==> code == 10029
            &&& told == ErrorKind::ProtocolMismatch <==> code == 10021 || code == 10036
            &&& told == ErrorKind::StorageUnavailable || told == ErrorKind::NotImplemented
                ==> false
        }),
{
    codes_are_tested(error->Protocol_0.status.0);
}

/// What callers are told of every other failure: a peer that does not speak the protocol
/// is a mismatch, lost authority is a lost lease, a key used twice is bad input, and
/// everything else is storage that cannot be reached now.
pub proof fn any_other_failure_is_told_as(error: FacadeErrorView, operation: Seq<char>)
    requires
        !(error is Protocol),
    ensures
        ({
            let told = to_umbra(error, operation);
            &&& told.kind == ErrorKind::LeaseLost <==> error is Authority
            &&& told.kind == ErrorKind::ProtocolMismatch <==> (error
                matches FacadeErrorView::Transport(failure) && (failure is Malformed
                || failure is UnsupportedProfile))
            &&& told.kind == ErrorKind::InvalidInput <==> (error matches FacadeErrorView::Replay(
                failure,
            ) && (failure is KeyConflict || failure is OperationReused))
            &&& told.kind == ErrorKind::LeaseLost || told.kind == ErrorKind::ProtocolMismatch
                || told.kind == ErrorKind::InvalidInput || told.kind
                == ErrorKind::StorageUnavailable
            &&& told.operation == operation
        }),
{
}

/// An owner's seqid stays where it was exactly after the words RFC 7530 lists for it:
/// a resource shortage, a moved file system, no filehandle, a stale client id, a stale
/// or bad stateid, a bad seqid, and arguments that do not decode.
pub proof fn a_seqid_is_held_exactly_when(code: u32)
    ensures
        seqid_is_held(code) <==> code == 10018 || code == 10019 || code == 10020 || code == 10022
            || code == 10023 || code == 10025 || code == 10026 || code == 10036,
{
}

} // verus!
