//! Four disjoint failure domains, preserved without lossy mapping.
//!
//! A consumer must be able to tell a server-returned `NFS4ERR_*` from a lost
//! connection, from missing writer authority, from a replay-ledger refusal,
//! because each demands a different recovery. Conversion into [`UmbraError`] is
//! additive: the kind is chosen conservatively and the full rendering travels in
//! the context.
use vstd::prelude::*;

pub mod classes;

use crate::contract::{
    umbra, ErrorKind, IdempotencyKey, LeaseEpoch, OperationId, UmbraError, UmbraErrorView,
};
use crate::text::{
    byte_list, byte_list_text, decimal, decimal_text, join, join3, tagged, tagged_text,
};
use crate::transport::{CallToken, ConnectionEpoch, OpCode, Retirement};

verus! {

/// Raw NFSv4.0 status word, exactly as the server sent it.
///
/// An unrecognised code is kept as its number. No unknown status is ever treated
/// as success.
#[derive(Clone, Copy, Debug, PartialEq, Eq, Hash, PartialOrd, Ord, Structural)]
pub struct Nfs4Status(pub u32);

/// Whether RFC 7530 section 9.1.7 forbids advancing an owner seqid after `code`.
pub open spec fn seqid_is_held(code: u32) -> bool {
    code == Nfs4Status::STALE_CLIENTID || code == Nfs4Status::STALE_STATEID || code
        == Nfs4Status::BAD_STATEID || code == Nfs4Status::BAD_SEQID || code == Nfs4Status::BADXDR
        || code == Nfs4Status::RESOURCE || code == Nfs4Status::NOFILEHANDLE || code
        == Nfs4Status::MOVED
}

impl Nfs4Status {
    /// `NFS4_OK`.
    pub const OK: u32 = 0;

    /// `NFS4ERR_PERM`.
    pub const PERM: u32 = 1;

    /// `NFS4ERR_NOENT`.
    pub const NOENT: u32 = 2;

    /// `NFS4ERR_IO`.
    pub const IO: u32 = 5;

    /// `NFS4ERR_ACCESS`.
    pub const ACCESS: u32 = 13;

    /// `NFS4ERR_EXIST`.
    pub const EXIST: u32 = 17;

    /// `NFS4ERR_NOTDIR`.
    pub const NOTDIR: u32 = 20;

    /// `NFS4ERR_ISDIR`.
    pub const ISDIR: u32 = 21;

    /// `NFS4ERR_INVAL`.
    pub const INVAL: u32 = 22;

    /// `NFS4ERR_FBIG`.
    pub const FBIG: u32 = 27;

    /// `NFS4ERR_NOSPC`.
    pub const NOSPC: u32 = 28;

    /// `NFS4ERR_ROFS`.
    pub const ROFS: u32 = 30;

    /// `NFS4ERR_NAMETOOLONG`.
    pub const NAMETOOLONG: u32 = 63;

    /// `NFS4ERR_NOTEMPTY`.
    pub const NOTEMPTY: u32 = 66;

    /// `NFS4ERR_DQUOT`.
    pub const DQUOT: u32 = 69;

    /// `NFS4ERR_STALE`.
    pub const STALE: u32 = 70;

    /// `NFS4ERR_BADHANDLE`.
    pub const BADHANDLE: u32 = 10001;

    /// `NFS4ERR_BAD_COOKIE`.
    pub const BAD_COOKIE: u32 = 10003;

    /// `NFS4ERR_NOTSUPP`.
    pub const NOTSUPP: u32 = 10004;

    /// `NFS4ERR_TOOSMALL`.
    pub const TOOSMALL: u32 = 10005;

    /// `NFS4ERR_SERVERFAULT`.
    pub const SERVERFAULT: u32 = 10006;

    /// `NFS4ERR_DELAY`.
    pub const DELAY: u32 = 10008;

    /// `NFS4ERR_DENIED`.
    pub const DENIED: u32 = 10010;

    /// `NFS4ERR_EXPIRED`.
    pub const EXPIRED: u32 = 10011;

    /// `NFS4ERR_LOCKED`.
    pub const LOCKED: u32 = 10012;

    /// `NFS4ERR_GRACE`.
    pub const GRACE: u32 = 10013;

    /// `NFS4ERR_FHEXPIRED`.
    pub const FHEXPIRED: u32 = 10014;

    /// `NFS4ERR_SHARE_DENIED`.
    pub const SHARE_DENIED: u32 = 10015;

    /// `NFS4ERR_CLID_INUSE`.
    pub const CLID_INUSE: u32 = 10017;

    /// `NFS4ERR_RESOURCE`.
    pub const RESOURCE: u32 = 10018;

    /// `NFS4ERR_MOVED`.
    pub const MOVED: u32 = 10019;

    /// `NFS4ERR_NOFILEHANDLE`.
    pub const NOFILEHANDLE: u32 = 10020;

    /// `NFS4ERR_MINOR_VERS_MISMATCH`.
    pub const MINOR_VERS_MISMATCH: u32 = 10021;

    /// `NFS4ERR_STALE_CLIENTID`.
    pub const STALE_CLIENTID: u32 = 10022;

    /// `NFS4ERR_STALE_STATEID`.
    pub const STALE_STATEID: u32 = 10023;

    /// `NFS4ERR_OLD_STATEID`.
    pub const OLD_STATEID: u32 = 10024;

    /// `NFS4ERR_BAD_STATEID`.
    pub const BAD_STATEID: u32 = 10025;

    /// `NFS4ERR_BAD_SEQID`.
    pub const BAD_SEQID: u32 = 10026;

    /// `NFS4ERR_NOT_SAME`.
    pub const NOT_SAME: u32 = 10027;

    /// `NFS4ERR_LOCK_RANGE`.
    pub const LOCK_RANGE: u32 = 10028;

    /// `NFS4ERR_SYMLINK`.
    pub const SYMLINK: u32 = 10029;

    /// `NFS4ERR_LEASE_MOVED`.
    pub const LEASE_MOVED: u32 = 10031;

    /// `NFS4ERR_NO_GRACE`.
    pub const NO_GRACE: u32 = 10033;

    /// `NFS4ERR_RECLAIM_BAD`.
    pub const RECLAIM_BAD: u32 = 10034;

    /// `NFS4ERR_RECLAIM_CONFLICT`.
    pub const RECLAIM_CONFLICT: u32 = 10035;

    /// `NFS4ERR_BADXDR`.
    pub const BADXDR: u32 = 10036;

    /// `NFS4ERR_LOCKS_HELD`.
    pub const LOCKS_HELD: u32 = 10037;

    /// `NFS4ERR_OPENMODE`.
    pub const OPENMODE: u32 = 10038;

    /// `NFS4ERR_BADOWNER`.
    pub const BADOWNER: u32 = 10039;

    /// `NFS4ERR_FILE_OPEN`.
    pub const FILE_OPEN: u32 = 10046;

    /// `NFS4ERR_ADMIN_REVOKED`.
    pub const ADMIN_REVOKED: u32 = 10047;

    /// True only for `NFS4_OK`. Any other word, known or not, is a failure.
    pub fn is_ok(self) -> (r: bool)
        ensures
            r == (self.0 == 0),
    {
        self.0 == Nfs4Status::OK
    }

    /// Whether this status leaves an open or lock owner's seqid where it was.
    /// Every other status advances it, even on failure.
    pub fn holds_seqid(self) -> (r: bool)
        ensures
            r == seqid_is_held(self.0),
    {
        self.0 == Nfs4Status::STALE_CLIENTID || self.0 == Nfs4Status::STALE_STATEID || self.0
            == Nfs4Status::BAD_STATEID || self.0 == Nfs4Status::BAD_SEQID || self.0
            == Nfs4Status::BADXDR || self.0 == Nfs4Status::RESOURCE || self.0
            == Nfs4Status::NOFILEHANDLE || self.0 == Nfs4Status::MOVED
    }
}

/// What a caller may do next. Classification never discards the failure itself.
#[derive(Clone, Copy, Debug, PartialEq, Eq, Structural)]
pub enum ErrorClass {
    /// Retry the same identity after a bounded delay; no state was lost.
    Retriable,
    /// State or authority must be re-established before any further mutation.
    NeedsRecovery,
    /// Object identity or writer authority cannot be proven. Stop; do not guess.
    SafeStop,
    /// A settled answer. Retrying the same request cannot change it.
    Permanent,
}

/// A server-returned failure, located within its COMPOUND.
#[derive(Clone, Copy, Debug, PartialEq, Eq, Structural)]
pub struct ProtocolError {
    /// Status word exactly as received.
    pub status: Nfs4Status,
    /// Operation that produced it.
    pub op: OpCode,
    /// Zero-based position of that operation within the submitted COMPOUND.
    pub index: u32,
}

/// RPC, connection, framing and scheduling failures. Never an `NFS4ERR_*`.
#[derive(Debug, PartialEq, Eq)]
pub enum TransportError {
    /// The connection could not be established.
    Connect(String),
    /// The connection was lost; calls in flight have unknown outcomes.
    Disconnected {
        /// Connection generation that was lost.
        epoch: ConnectionEpoch,
        /// Verbatim cause.
        detail: String,
    },
    /// The deadline elapsed, and the call is proven withdrawn.
    DeadlineExpired {
        /// Proof the call was withdrawn before this error was built.
        retirement: Retirement,
    },
    /// Submission refused before dispatch because the bounded queue is full.
    QueueFull {
        /// Current depth.
        depth: u32,
        /// Configured bound.
        capacity: u32,
    },
    /// A reply violated the wire profile, framing bounds or reply shape.
    Malformed(String),
    /// The call was cancelled by the caller rather than by a deadline.
    Cancelled(CallToken),
    /// A wire profile outside NFSv4.0 / TCP / AUTH_SYS.
    UnsupportedProfile(String),
}

/// Writer-authority and admission failures. An NFS lease renewal is not evidence
/// of writer authority.
#[derive(Debug, PartialEq, Eq)]
pub enum AuthorityError {
    /// A mutation arrived without a writer epoch.
    NoWriterEpoch,
    /// The supplied epoch is not the current one.
    StaleEpoch {
        /// Epoch presented by the caller.
        held: LeaseEpoch,
        /// Epoch the provider considers current.
        current: LeaseEpoch,
    },
    /// Admission refused this session.
    AdmissionRefused(String),
    /// Takeover was requested. Silence and expiry are never takeover evidence.
    TakeoverRefused,
    /// Object identity could not be proven.
    IdentityUnproven(String),
}

/// Replay-ledger failures: identity, capacity and verifier accounting.
#[derive(Clone, Copy, Debug, PartialEq, Eq)]
pub enum ReplayError {
    /// The bounded replay buffer is full. Raised before dispatch.
    CapacityExhausted {
        /// Records currently retained.
        records: u32,
        /// Payload bytes currently retained.
        bytes: u64,
    },
    /// The same idempotency key was reused with a different payload.
    KeyConflict,
    /// The same operation id was reused for a different key.
    OperationReused,
    /// Recovery needs the original payload and it was not retained durably.
    PayloadMissing,
    /// A WRITE/COMMIT verifier changed, so unstable data must be rewritten.
    VerifierChanged {
        /// Verifier recorded at WRITE time.
        recorded: [u8; 8],
        /// Verifier observed at COMMIT time.
        observed: [u8; 8],
    },
    /// The outcome is genuinely unknown and no durable evidence settles it.
    Indeterminate,
}

/// The four disjoint failure domains of this provider.
#[derive(Debug, PartialEq, Eq)]
pub enum FacadeError {
    /// Server-returned `NFS4ERR_*`.
    Protocol(ProtocolError),
    /// RPC, network, framing or scheduling failure.
    Transport(TransportError),
    /// Writer-authority or admission failure.
    Authority(AuthorityError),
    /// Replay-ledger failure.
    Replay(ReplayError),
}

/// Result of every facade operation in this crate.
pub type FacadeResult<T> = Result<T, FacadeError>;

/// The content of a [`TransportError`].
pub enum TransportErrorView {
    /// See [`TransportError::Connect`].
    Connect(Seq<char>),
    /// See [`TransportError::Disconnected`].
    Disconnected {
        /// Connection generation that was lost.
        epoch: ConnectionEpoch,
        /// Verbatim cause.
        detail: Seq<char>,
    },
    /// See [`TransportError::DeadlineExpired`].
    DeadlineExpired {
        /// Proof the call was withdrawn.
        retirement: Retirement,
    },
    /// See [`TransportError::QueueFull`].
    QueueFull {
        /// Current depth.
        depth: u32,
        /// Configured bound.
        capacity: u32,
    },
    /// See [`TransportError::Malformed`].
    Malformed(Seq<char>),
    /// See [`TransportError::Cancelled`].
    Cancelled(CallToken),
    /// See [`TransportError::UnsupportedProfile`].
    UnsupportedProfile(Seq<char>),
}

/// The content of an [`AuthorityError`].
pub enum AuthorityErrorView {
    /// See [`AuthorityError::NoWriterEpoch`].
    NoWriterEpoch,
    /// See [`AuthorityError::StaleEpoch`].
    StaleEpoch {
        /// Epoch presented by the caller.
        held: LeaseEpoch,
        /// Epoch the provider considers current.
        current: LeaseEpoch,
    },
    /// See [`AuthorityError::AdmissionRefused`].
    AdmissionRefused(Seq<char>),
    /// See [`AuthorityError::TakeoverRefused`].
    TakeoverRefused,
    /// See [`AuthorityError::IdentityUnproven`].
    IdentityUnproven(Seq<char>),
}

/// The content of a [`FacadeError`].
pub enum FacadeErrorView {
    /// See [`FacadeError::Protocol`].
    Protocol(ProtocolError),
    /// See [`FacadeError::Transport`].
    Transport(TransportErrorView),
    /// See [`FacadeError::Authority`].
    Authority(AuthorityErrorView),
    /// See [`FacadeError::Replay`].
    Replay(ReplayError),
}

impl View for TransportError {
    type V = TransportErrorView;

    open spec fn view(&self) -> TransportErrorView {
        match *self {
            TransportError::Connect(detail) => TransportErrorView::Connect(detail@),
            TransportError::Disconnected { epoch, detail } => TransportErrorView::Disconnected {
                epoch,
                detail: detail@,
            },
            TransportError::DeadlineExpired { retirement } => TransportErrorView::DeadlineExpired {
                retirement,
            },
            TransportError::QueueFull { depth, capacity } => TransportErrorView::QueueFull {
                depth,
                capacity,
            },
            TransportError::Malformed(detail) => TransportErrorView::Malformed(detail@),
            TransportError::Cancelled(token) => TransportErrorView::Cancelled(token),
            TransportError::UnsupportedProfile(detail) => TransportErrorView::UnsupportedProfile(
                detail@,
            ),
        }
    }
}

impl View for AuthorityError {
    type V = AuthorityErrorView;

    open spec fn view(&self) -> AuthorityErrorView {
        match *self {
            AuthorityError::NoWriterEpoch => AuthorityErrorView::NoWriterEpoch,
            AuthorityError::StaleEpoch { held, current } => AuthorityErrorView::StaleEpoch {
                held,
                current,
            },
            AuthorityError::AdmissionRefused(detail) => AuthorityErrorView::AdmissionRefused(
                detail@,
            ),
            AuthorityError::TakeoverRefused => AuthorityErrorView::TakeoverRefused,
            AuthorityError::IdentityUnproven(detail) => AuthorityErrorView::IdentityUnproven(
                detail@,
            ),
        }
    }
}

impl View for FacadeError {
    type V = FacadeErrorView;

    open spec fn view(&self) -> FacadeErrorView {
        match *self {
            FacadeError::Protocol(error) => FacadeErrorView::Protocol(error),
            FacadeError::Transport(error) => FacadeErrorView::Transport(error@),
            FacadeError::Authority(error) => FacadeErrorView::Authority(error@),
            FacadeError::Replay(error) => FacadeErrorView::Replay(error),
        }
    }
}

impl View for ReplayError {
    type V = ReplayError;

    open spec fn view(&self) -> ReplayError {
        *self
    }
}

impl Clone for TransportError {
    fn clone(&self) -> (r: Self)
        ensures
            r == *self,
    {
        match self {
            TransportError::Connect(detail) => TransportError::Connect(detail.clone()),
            TransportError::Disconnected { epoch, detail } => TransportError::Disconnected {
                epoch: *epoch,
                detail: detail.clone(),
            },
            TransportError::DeadlineExpired { retirement } => TransportError::DeadlineExpired {
                retirement: *retirement,
            },
            TransportError::QueueFull { depth, capacity } => TransportError::QueueFull {
                depth: *depth,
                capacity: *capacity,
            },
            TransportError::Malformed(detail) => TransportError::Malformed(detail.clone()),
            TransportError::Cancelled(token) => TransportError::Cancelled(*token),
            TransportError::UnsupportedProfile(detail) => TransportError::UnsupportedProfile(
                detail.clone(),
            ),
        }
    }
}

impl Clone for AuthorityError {
    fn clone(&self) -> (r: Self)
        ensures
            r == *self,
    {
        match self {
            AuthorityError::NoWriterEpoch => AuthorityError::NoWriterEpoch,
            AuthorityError::StaleEpoch { held, current } => AuthorityError::StaleEpoch {
                held: *held,
                current: *current,
            },
            AuthorityError::AdmissionRefused(detail) => AuthorityError::AdmissionRefused(
                detail.clone(),
            ),
            AuthorityError::TakeoverRefused => AuthorityError::TakeoverRefused,
            AuthorityError::IdentityUnproven(detail) => AuthorityError::IdentityUnproven(
                detail.clone(),
            ),
        }
    }
}

impl Clone for FacadeError {
    fn clone(&self) -> (r: Self)
        ensures
            r == *self,
    {
        match self {
            FacadeError::Protocol(error) => FacadeError::Protocol(*error),
            FacadeError::Transport(error) => FacadeError::Transport(error.clone()),
            FacadeError::Authority(error) => FacadeError::Authority(error.clone()),
            FacadeError::Replay(error) => FacadeError::Replay(*error),
        }
    }
}

/// The identity failure explained by `detail`.
pub open spec fn unproven(detail: Seq<char>) -> FacadeErrorView {
    FacadeErrorView::Authority(AuthorityErrorView::IdentityUnproven(detail))
}

/// The reply-shape failure explained by `detail`.
pub open spec fn malformed(detail: Seq<char>) -> FacadeErrorView {
    FacadeErrorView::Transport(TransportErrorView::Malformed(detail))
}

/// The server failure with these three parts.
pub open spec fn protocol_failure(status: Nfs4Status, op: OpCode, index: u32) -> FacadeErrorView {
    FacadeErrorView::Protocol(ProtocolError { status, op, index })
}

/// The failure of an object identity that cannot be proven.
pub fn unproven_error(detail: &str) -> (r: FacadeError)
    ensures
        r@ == unproven(detail@),
{
    FacadeError::Authority(AuthorityError::IdentityUnproven(detail.to_owned()))
}

/// The failure of a reply whose shape is wrong.
pub fn malformed_error(detail: &str) -> (r: FacadeError)
    ensures
        r@ == malformed(detail@),
{
    FacadeError::Transport(TransportError::Malformed(detail.to_owned()))
}

/// How a server failure is rendered.
pub open spec fn protocol_text(error: ProtocolError) -> Seq<char> {
    "NFS4ERR "@ + decimal(error.status.0 as nat) + " at "@ + error.op.name() + " (compound index "@
        + decimal(error.index as nat) + ")"@
}

/// How a transport failure is rendered.
pub open spec fn transport_text(error: TransportErrorView) -> Seq<char> {
    match error {
        TransportErrorView::Connect(detail) => "connect failed: "@ + detail,
        TransportErrorView::Disconnected { epoch, detail } => "connection lost in epoch "@
            + tagged("ConnectionEpoch"@, epoch.0 as nat) + ": "@ + detail,
        TransportErrorView::DeadlineExpired { retirement } => "deadline elapsed for call "@
            + tagged("CallToken"@, retirement.spec_token().spec_get() as nat),
        TransportErrorView::QueueFull { depth, capacity } => "transport queue full ("@ + decimal(
            depth as nat,
        ) + " of "@ + decimal(capacity as nat) + ")"@,
        TransportErrorView::Malformed(detail) => "malformed reply: "@ + detail,
        TransportErrorView::Cancelled(token) => "call "@ + tagged(
            "CallToken"@,
            token.spec_get() as nat,
        ) + " cancelled"@,
        TransportErrorView::UnsupportedProfile(detail) => "unsupported wire profile: "@ + detail,
    }
}

/// How an authority failure is rendered.
pub open spec fn authority_text(error: AuthorityErrorView) -> Seq<char> {
    match error {
        AuthorityErrorView::NoWriterEpoch => "mutation requires writer authority"@,
        AuthorityErrorView::StaleEpoch { held, current } => "stale writer epoch: held "@ + tagged(
            "LeaseEpoch"@,
            held.0 as nat,
        ) + ", current "@ + tagged("LeaseEpoch"@, current.0 as nat),
        AuthorityErrorView::AdmissionRefused(detail) => "admission refused: "@ + detail,
        AuthorityErrorView::TakeoverRefused =>
            "takeover refused: expiry is not proof of former-writer termination"@,
        AuthorityErrorView::IdentityUnproven(detail) => "object identity unproven: "@ + detail,
    }
}

/// How a replay failure is rendered.
pub open spec fn replay_text(error: ReplayError) -> Seq<char> {
    match error {
        ReplayError::CapacityExhausted { records, bytes } => "replay buffer exhausted: "@ + decimal(
            records as nat,
        ) + " records, "@ + decimal(bytes as nat) + " payload bytes"@,
        ReplayError::KeyConflict => "idempotency key reused with a conflicting payload"@,
        ReplayError::OperationReused => "operation id reused for a different idempotency key"@,
        ReplayError::PayloadMissing =>
            "durable payload absent; recorded digest alone cannot rebuild the write"@,
        ReplayError::VerifierChanged { recorded, observed } => "write verifier changed: recorded "@
            + byte_list(recorded@) + ", observed "@ + byte_list(observed@),
        ReplayError::Indeterminate => "indeterminate operation requires reconciliation"@,
    }
}

/// How a failure of any domain is rendered.
pub open spec fn facade_text(error: FacadeErrorView) -> Seq<char> {
    match error {
        FacadeErrorView::Protocol(error) => "protocol: "@ + protocol_text(error),
        FacadeErrorView::Transport(error) => "transport: "@ + transport_text(error),
        FacadeErrorView::Authority(error) => "authority: "@ + authority_text(error),
        FacadeErrorView::Replay(error) => "replay: "@ + replay_text(error),
    }
}

/// The class of a server status.
pub open spec fn class_of_status(code: u32) -> ErrorClass {
    if code == Nfs4Status::DELAY || code == Nfs4Status::GRACE || code == Nfs4Status::LOCKED || code
        == Nfs4Status::RESOURCE {
        ErrorClass::Retriable
    } else if code == Nfs4Status::STALE_CLIENTID || code == Nfs4Status::STALE_STATEID || code
        == Nfs4Status::OLD_STATEID || code == Nfs4Status::BAD_STATEID || code
        == Nfs4Status::BAD_SEQID || code == Nfs4Status::EXPIRED || code == Nfs4Status::FHEXPIRED
        || code == Nfs4Status::LEASE_MOVED || code == Nfs4Status::ADMIN_REVOKED {
        ErrorClass::NeedsRecovery
    } else if code == Nfs4Status::STALE || code == Nfs4Status::BADHANDLE || code
        == Nfs4Status::MOVED || code == Nfs4Status::SERVERFAULT || code
        == Nfs4Status::MINOR_VERS_MISMATCH || code == Nfs4Status::NO_GRACE || code
        == Nfs4Status::RECLAIM_BAD || code == Nfs4Status::RECLAIM_CONFLICT {
        ErrorClass::SafeStop
    } else {
        ErrorClass::Permanent
    }
}

/// The contract kind of a server status.
pub open spec fn kind_of_status(code: u32) -> ErrorKind {
    if code == Nfs4Status::NOENT {
        ErrorKind::NotFound
    } else if code == Nfs4Status::EXIST {
        ErrorKind::AlreadyExists
    } else if code == Nfs4Status::NOTSUPP {
        ErrorKind::UnsupportedCapability
    } else if code == Nfs4Status::PERM || code == Nfs4Status::ACCESS || code == Nfs4Status::ROFS {
        ErrorKind::Denied
    } else if code == Nfs4Status::INVAL || code == Nfs4Status::NAMETOOLONG || code
        == Nfs4Status::TOOSMALL {
        ErrorKind::InvalidInput
    } else if code == Nfs4Status::STALE || code == Nfs4Status::BADHANDLE || code
        == Nfs4Status::FHEXPIRED || code == Nfs4Status::BAD_STATEID || code
        == Nfs4Status::STALE_STATEID || code == Nfs4Status::OLD_STATEID || code
        == Nfs4Status::ADMIN_REVOKED {
        ErrorKind::StaleHandle
    } else if code == Nfs4Status::EXPIRED || code == Nfs4Status::STALE_CLIENTID || code
        == Nfs4Status::OPENMODE {
        ErrorKind::LeaseLost
    } else if code == Nfs4Status::SYMLINK {
        ErrorKind::InvalidPath
    } else if code == Nfs4Status::MINOR_VERS_MISMATCH || code == Nfs4Status::BADXDR {
        ErrorKind::ProtocolMismatch
    } else {
        ErrorKind::Io
    }
}

/// The class of a failure of any domain.
pub open spec fn class_of(error: FacadeErrorView) -> ErrorClass {
    match error {
        FacadeErrorView::Protocol(error) => class_of_status(error.status.0),
        FacadeErrorView::Transport(error) => match error {
            TransportErrorView::QueueFull { .. } => ErrorClass::Retriable,
            TransportErrorView::DeadlineExpired { .. } => ErrorClass::Retriable,
            TransportErrorView::Connect(_) => ErrorClass::NeedsRecovery,
            TransportErrorView::Disconnected { .. } => ErrorClass::NeedsRecovery,
            TransportErrorView::Cancelled(_) => ErrorClass::Permanent,
            TransportErrorView::Malformed(_) => ErrorClass::SafeStop,
            TransportErrorView::UnsupportedProfile(_) => ErrorClass::SafeStop,
        },
        FacadeErrorView::Authority(error) => match error {
            AuthorityErrorView::StaleEpoch { .. } => ErrorClass::Permanent,
            AuthorityErrorView::NoWriterEpoch => ErrorClass::Permanent,
            AuthorityErrorView::AdmissionRefused(_) => ErrorClass::SafeStop,
            AuthorityErrorView::TakeoverRefused => ErrorClass::SafeStop,
            AuthorityErrorView::IdentityUnproven(_) => ErrorClass::SafeStop,
        },
        FacadeErrorView::Replay(error) => match error {
            ReplayError::CapacityExhausted { .. } => ErrorClass::Retriable,
            ReplayError::VerifierChanged { .. } => ErrorClass::NeedsRecovery,
            ReplayError::KeyConflict => ErrorClass::Permanent,
            ReplayError::OperationReused => ErrorClass::Permanent,
            ReplayError::PayloadMissing => ErrorClass::SafeStop,
            ReplayError::Indeterminate => ErrorClass::SafeStop,
        },
    }
}

/// The contract kind of a failure of any domain.
pub open spec fn kind_of(error: FacadeErrorView) -> ErrorKind {
    match error {
        FacadeErrorView::Protocol(error) => kind_of_status(error.status.0),
        FacadeErrorView::Transport(TransportErrorView::Malformed(_)) => ErrorKind::ProtocolMismatch,
        FacadeErrorView::Transport(TransportErrorView::UnsupportedProfile(_)) =>
            ErrorKind::ProtocolMismatch,
        FacadeErrorView::Transport(_) => ErrorKind::StorageUnavailable,
        FacadeErrorView::Authority(_) => ErrorKind::LeaseLost,
        FacadeErrorView::Replay(ReplayError::KeyConflict) => ErrorKind::InvalidInput,
        FacadeErrorView::Replay(ReplayError::OperationReused) => ErrorKind::InvalidInput,
        FacadeErrorView::Replay(_) => ErrorKind::StorageUnavailable,
    }
}

/// The server status a failure carries, when the server is what failed.
pub open spec fn status_of(error: FacadeErrorView) -> Option<Nfs4Status> {
    match error {
        FacadeErrorView::Protocol(error) => Some(error.status),
        _ => None,
    }
}

/// A facade failure as the caller of `operation` receives it.
pub open spec fn to_umbra(error: FacadeErrorView, operation: Seq<char>) -> UmbraErrorView {
    umbra(kind_of(error), operation, facade_text(error))
}

impl ProtocolError {
    /// The rendering of this failure.
    pub fn text(&self) -> (r: String)
        ensures
            r@ == protocol_text(*self),
    {
        join3(
            join3(
                "NFS4ERR ",
                decimal_text(self.status.0 as u64).as_str(),
                " at ",
            ).as_str(),
            self.op.label(),
            " (compound index ",
        ).concat(decimal_text(self.index as u64).as_str()).concat(")")
    }
}

impl TransportError {
    /// The rendering of this failure.
    pub fn text(&self) -> (r: String)
        ensures
            r@ == transport_text(self@),
    {
        match self {
            TransportError::Connect(detail) => join("connect failed: ", detail.as_str()),
            TransportError::Disconnected { epoch, detail } => join3(
                "connection lost in epoch ",
                tagged_text("ConnectionEpoch", epoch.0).as_str(),
                ": ",
            ).concat(detail.as_str()),
            TransportError::DeadlineExpired { retirement } => join(
                "deadline elapsed for call ",
                tagged_text("CallToken", retirement.token().get()).as_str(),
            ),
            TransportError::QueueFull { depth, capacity } => join3(
                "transport queue full (",
                decimal_text(*depth as u64).as_str(),
                " of ",
            ).concat(decimal_text(*capacity as u64).as_str()).concat(")"),
            TransportError::Malformed(detail) => join("malformed reply: ", detail.as_str()),
            TransportError::Cancelled(token) => join3(
                "call ",
                tagged_text("CallToken", token.get()).as_str(),
                " cancelled",
            ),
            TransportError::UnsupportedProfile(detail) => join(
                "unsupported wire profile: ",
                detail.as_str(),
            ),
        }
    }
}

impl AuthorityError {
    /// The rendering of this failure.
    pub fn text(&self) -> (r: String)
        ensures
            r@ == authority_text(self@),
    {
        match self {
            AuthorityError::NoWriterEpoch => "mutation requires writer authority".to_owned(),
            AuthorityError::StaleEpoch { held, current } => join3(
                "stale writer epoch: held ",
                tagged_text("LeaseEpoch", held.0).as_str(),
                ", current ",
            ).concat(tagged_text("LeaseEpoch", current.0).as_str()),
            AuthorityError::AdmissionRefused(detail) => join(
                "admission refused: ",
                detail.as_str(),
            ),
            AuthorityError::TakeoverRefused =>
                "takeover refused: expiry is not proof of former-writer termination".to_owned(),
            AuthorityError::IdentityUnproven(detail) => join(
                "object identity unproven: ",
                detail.as_str(),
            ),
        }
    }
}

impl ReplayError {
    /// The rendering of this failure.
    pub fn text(&self) -> (r: String)
        ensures
            r@ == replay_text(*self),
    {
        match self {
            ReplayError::CapacityExhausted { records, bytes } => join3(
                "replay buffer exhausted: ",
                decimal_text(*records as u64).as_str(),
                " records, ",
            ).concat(decimal_text(*bytes).as_str()).concat(" payload bytes"),
            ReplayError::KeyConflict =>
                "idempotency key reused with a conflicting payload".to_owned(),
            ReplayError::OperationReused =>
                "operation id reused for a different idempotency key".to_owned(),
            ReplayError::PayloadMissing =>
                "durable payload absent; recorded digest alone cannot rebuild the write".to_owned(),
            ReplayError::VerifierChanged { recorded, observed } => join3(
                "write verifier changed: recorded ",
                byte_list_text(recorded).as_str(),
                ", observed ",
            ).concat(byte_list_text(observed).as_str()),
            ReplayError::Indeterminate =>
                "indeterminate operation requires reconciliation".to_owned(),
        }
    }
}

impl FacadeError {
    /// A server status at a known COMPOUND position.
    pub fn protocol(status: Nfs4Status, op: OpCode, index: u32) -> (r: Self)
        ensures
            r@ == protocol_failure(status, op, index),
    {
        FacadeError::Protocol(ProtocolError { status, op, index })
    }

    /// The server status word, when this failure came from the server.
    pub fn status(&self) -> (r: Option<Nfs4Status>)
        ensures
            r == status_of(self@),
    {
        match self {
            FacadeError::Protocol(error) => Some(error.status),
            _ => None,
        }
    }

    /// Whether this is the server status `code`.
    pub fn is_status(&self, code: u32) -> (r: bool)
        ensures
            r == (status_of(self@) == Some(Nfs4Status(code))),
    {
        match self {
            FacadeError::Protocol(error) => error.status.0 == code,
            _ => false,
        }
    }

    /// What the caller may do next.
    pub fn class(&self) -> (r: ErrorClass)
        ensures
            r == class_of(self@),
    {
        match self {
            FacadeError::Protocol(error) => protocol_class(error.status),
            FacadeError::Transport(error) => match error {
                TransportError::QueueFull { .. }
                | TransportError::DeadlineExpired { .. } => ErrorClass::Retriable,
                TransportError::Connect(_)
                | TransportError::Disconnected { .. } => ErrorClass::NeedsRecovery,
                TransportError::Cancelled(_) => ErrorClass::Permanent,
                TransportError::Malformed(_)
                | TransportError::UnsupportedProfile(_) => ErrorClass::SafeStop,
            },
            FacadeError::Authority(error) => match error {
                AuthorityError::StaleEpoch { .. }
                | AuthorityError::NoWriterEpoch => ErrorClass::Permanent,
                AuthorityError::AdmissionRefused(_)
                | AuthorityError::TakeoverRefused
                | AuthorityError::IdentityUnproven(_) => ErrorClass::SafeStop,
            },
            FacadeError::Replay(error) => match error {
                ReplayError::CapacityExhausted { .. } => ErrorClass::Retriable,
                ReplayError::VerifierChanged { .. } => ErrorClass::NeedsRecovery,
                ReplayError::KeyConflict | ReplayError::OperationReused => ErrorClass::Permanent,
                ReplayError::PayloadMissing | ReplayError::Indeterminate => ErrorClass::SafeStop,
            },
        }
    }

    /// The rendering of this failure.
    pub fn text(&self) -> (r: String)
        ensures
            r@ == facade_text(self@),
    {
        match self {
            FacadeError::Protocol(error) => join("protocol: ", error.text().as_str()),
            FacadeError::Transport(error) => join("transport: ", error.text().as_str()),
            FacadeError::Authority(error) => join("authority: ", error.text().as_str()),
            FacadeError::Replay(error) => join("replay: ", error.text().as_str()),
        }
    }

    /// Render into the contract's error without discarding this value: the
    /// context carries the full rendering, raw status number included.
    pub fn to_umbra(&self, operation: &str) -> (r: UmbraError)
        ensures
            r@ == to_umbra(self@, operation@),
    {
        UmbraError::new(self.umbra_kind(), operation, self.text().as_str())
    }

    fn umbra_kind(&self) -> (r: ErrorKind)
        ensures
            r == kind_of(self@),
    {
        match self {
            FacadeError::Protocol(error) => protocol_kind(error.status),
            FacadeError::Transport(TransportError::Malformed(_))
            | FacadeError::Transport(
                TransportError::UnsupportedProfile(_),
            ) => ErrorKind::ProtocolMismatch,
            FacadeError::Transport(_) => ErrorKind::StorageUnavailable,
            FacadeError::Authority(_) => ErrorKind::LeaseLost,
            FacadeError::Replay(ReplayError::KeyConflict)
            | FacadeError::Replay(ReplayError::OperationReused) => ErrorKind::InvalidInput,
            FacadeError::Replay(_) => ErrorKind::StorageUnavailable,
        }
    }
}

fn protocol_class(status: Nfs4Status) -> (r: ErrorClass)
    ensures
        r == class_of_status(status.0),
{
    let code: u32 = status.0;
    if code == Nfs4Status::DELAY || code == Nfs4Status::GRACE || code == Nfs4Status::LOCKED || code
        == Nfs4Status::RESOURCE {
        return ErrorClass::Retriable;
    }
    if code == Nfs4Status::STALE_CLIENTID || code == Nfs4Status::STALE_STATEID || code
        == Nfs4Status::OLD_STATEID || code == Nfs4Status::BAD_STATEID || code
        == Nfs4Status::BAD_SEQID || code == Nfs4Status::EXPIRED || code == Nfs4Status::FHEXPIRED
        || code == Nfs4Status::LEASE_MOVED || code == Nfs4Status::ADMIN_REVOKED {
        return ErrorClass::NeedsRecovery;
    }
    if code == Nfs4Status::STALE || code == Nfs4Status::BADHANDLE || code == Nfs4Status::MOVED
        || code == Nfs4Status::SERVERFAULT || code == Nfs4Status::MINOR_VERS_MISMATCH || code
        == Nfs4Status::NO_GRACE || code == Nfs4Status::RECLAIM_BAD || code
        == Nfs4Status::RECLAIM_CONFLICT {
        return ErrorClass::SafeStop;
    }
    ErrorClass::Permanent
}

fn protocol_kind(status: Nfs4Status) -> (r: ErrorKind)
    ensures
        r == kind_of_status(status.0),
{
    let code: u32 = status.0;
    if code == Nfs4Status::NOENT {
        ErrorKind::NotFound
    } else if code == Nfs4Status::EXIST {
        ErrorKind::AlreadyExists
    } else if code == Nfs4Status::NOTSUPP {
        ErrorKind::UnsupportedCapability
    } else if code == Nfs4Status::PERM || code == Nfs4Status::ACCESS || code == Nfs4Status::ROFS {
        ErrorKind::Denied
    } else if code == Nfs4Status::INVAL || code == Nfs4Status::NAMETOOLONG || code
        == Nfs4Status::TOOSMALL {
        ErrorKind::InvalidInput
    } else if code == Nfs4Status::STALE || code == Nfs4Status::BADHANDLE || code
        == Nfs4Status::FHEXPIRED || code == Nfs4Status::BAD_STATEID || code
        == Nfs4Status::STALE_STATEID || code == Nfs4Status::OLD_STATEID || code
        == Nfs4Status::ADMIN_REVOKED {
        ErrorKind::StaleHandle
    } else if code == Nfs4Status::EXPIRED || code == Nfs4Status::STALE_CLIENTID || code
        == Nfs4Status::OPENMODE {
        ErrorKind::LeaseLost
    } else if code == Nfs4Status::SYMLINK {
        ErrorKind::InvalidPath
    } else if code == Nfs4Status::MINOR_VERS_MISMATCH || code == Nfs4Status::BADXDR {
        ErrorKind::ProtocolMismatch
    } else {
        // Every other code stays a plain I/O failure carrying its number.
        ErrorKind::Io
    }
}

/// An error recorded against one operation identity.
///
/// A retained error is replayed verbatim for its key; new work must use a new
/// operation identity rather than reinterpreting the retained answer.
#[derive(Debug, PartialEq, Eq)]
pub struct RetainedError {
    operation: OperationId,
    key: IdempotencyKey,
    error: FacadeError,
    durable: bool,
}

/// The content of a [`RetainedError`].
pub struct RetainedErrorView {
    /// Operation identity the error is bound to.
    pub operation: OperationId,
    /// Key the error is the settled answer for.
    pub key: Seq<char>,
    /// The preserved failure.
    pub error: FacadeErrorView,
    /// Whether the record reached the promised persistence boundary.
    pub durable: bool,
}

impl View for RetainedError {
    type V = RetainedErrorView;

    closed spec fn view(&self) -> RetainedErrorView {
        RetainedErrorView {
            operation: self.operation,
            key: self.key@,
            error: self.error@,
            durable: self.durable,
        }
    }
}

impl Clone for RetainedError {
    fn clone(&self) -> (r: Self)
        ensures
            r == *self,
    {
        RetainedError {
            operation: self.operation,
            key: self.key.clone(),
            error: self.error.clone(),
            durable: self.durable,
        }
    }
}

/// How a retained error is rendered.
pub open spec fn retained_text(error: RetainedErrorView) -> Seq<char> {
    "retained ("@ + (if error.durable {
        "durable"@
    } else {
        "volatile"@
    }) + ") for key "@ + error.key + ": "@ + facade_text(error.error)
}

impl RetainedError {
    /// Record an error against an operation identity.
    ///
    /// `durable` is true only when the record reached the persistence boundary the
    /// replay log promises.
    pub fn record(
        operation: OperationId,
        key: IdempotencyKey,
        error: FacadeError,
        durable: bool,
    ) -> (r: Self)
        ensures
            r@ == (RetainedErrorView { operation, key: key@, error: error@, durable }),
    {
        RetainedError { operation, key, error, durable }
    }

    /// Operation identity this error is bound to.
    pub fn operation(&self) -> (r: OperationId)
        ensures
            r == self@.operation,
    {
        self.operation
    }

    /// Idempotency key this error is the settled answer for.
    pub fn key(&self) -> (r: &IdempotencyKey)
        ensures
            r@ == self@.key,
    {
        &self.key
    }

    /// The preserved failure.
    pub fn error(&self) -> (r: &FacadeError)
        ensures
            r@ == self@.error,
    {
        &self.error
    }

    /// Whether the record reached the promised persistence boundary.
    pub fn is_durable(&self) -> (r: bool)
        ensures
            r == self@.durable,
    {
        self.durable
    }

    /// The rendering of this record.
    pub fn text(&self) -> (r: String)
        ensures
            r@ == retained_text(self@),
    {
        let standing = if self.durable {
            "durable"
        } else {
            "volatile"
        };
        join3("retained (", standing, ") for key ").concat(self.key.0.as_str()).concat(
            ": ",
        ).concat(self.error.text().as_str())
    }
}

/// No status other than `NFS4_OK` is a success, and every status keeps its own
/// number through the conversion a caller sees.
pub proof fn unknown_status_is_preserved(status: Nfs4Status, op: OpCode, index: u32)
    ensures
        status_of(protocol_failure(status, op, index)) == Some(status),
        to_umbra(protocol_failure(status, op, index), op.name()).context == "protocol: "@ + (
        "NFS4ERR "@ + decimal(status.0 as nat) + " at "@ + op.name() + " (compound index "@
            + decimal(index as nat) + ")"@),
{
}

/// The four domains stay apart: only a server failure has a status, and every
/// authority failure is a lost lease to a caller, whatever its detail.
pub proof fn domains_stay_apart(error: FacadeErrorView)
    ensures
        status_of(error) is Some <==> error is Protocol,
        error is Authority ==> kind_of(error) == ErrorKind::LeaseLost,
        error is Authority ==> class_of(error) is SafeStop || class_of(error) is Permanent,
{
}

} // verus!
