//! The wire vocabulary and the transport seam.
//!
//! A transport is whatever implements [`RawTransport`]. Its *world* is everything
//! that decides what it answers: the server it reaches and what the network is
//! about to do. Submitting a COMPOUND yields the answer the world has for it and
//! leaves the world that comes after. The contracts in this crate are stated over
//! worlds, so each of them fixes which calls are made, in which order, with which
//! arguments, and what is concluded from each reply.
use vstd::prelude::*;

pub mod rendering;

use crate::bytes::copy_bytes;
use crate::contract::{
    holds_byte, is_plain_component, opt_view, plain_component, res_view, seq_view,
};
use crate::error::{
    malformed, malformed_error, FacadeError, FacadeErrorView, FacadeResult, Nfs4Status,
    ProtocolError, TransportError, TransportErrorView,
};
use crate::fake::ScriptedFault;
use crate::handle::{ClientId, FileHandle, OpenOwner, OpenOwnerView, Stateid};
use crate::text::{decimal, decimal_text, join, join3};

verus! {

/// The only minor version this provider speaks.
pub const MINOR_VERSION: u32 = 0;

/// The COMPOUND tag every READ carries. A reply echoes it.
pub const READ_TAG: &'static str = "read";

/// Bytes of [`READ_TAG`].
pub const READ_TAG_BYTES: usize = 4;

/// How RPC messages are carried.
#[derive(Clone, Copy, Debug, PartialEq, Eq, Structural)]
pub enum Carrier {
    /// TCP.
    Tcp,
    /// UDP.
    Udp,
}

/// How RPC calls are authenticated.
#[derive(Clone, Copy, Debug, PartialEq, Eq, Structural)]
pub enum AuthFlavor {
    /// AUTH_SYS.
    Sys,
    /// RPCSEC_GSS.
    Gss,
}

/// A protocol version, carrier and authentication flavour.
#[derive(Clone, Copy, Debug, PartialEq, Eq, Structural)]
pub struct WireProfile {
    /// NFSv4 minor version.
    pub minor_version: u32,
    /// How messages are carried.
    pub carrier: Carrier,
    /// How calls are authenticated.
    pub auth: AuthFlavor,
}

/// NFSv4.0 over TCP with AUTH_SYS.
pub open spec fn v40_tcp_sys() -> WireProfile {
    WireProfile { minor_version: 0, carrier: Carrier::Tcp, auth: AuthFlavor::Sys }
}

impl WireProfile {
    /// NFSv4.0 over TCP with AUTH_SYS, the one profile this provider speaks.
    pub fn v40_tcp_sys() -> (r: Self)
        ensures
            r == v40_tcp_sys(),
    {
        WireProfile { minor_version: MINOR_VERSION, carrier: Carrier::Tcp, auth: AuthFlavor::Sys }
    }

    /// Refuse every other profile.
    pub fn check(&self) -> (r: TransportResult<()>)
        ensures
            res_view(r) == (if *self == v40_tcp_sys() {
                Ok::<(), TransportErrorView>(())
            } else {
                Err(
                    TransportErrorView::UnsupportedProfile(
                        "only NFSv4.0 over TCP with AUTH_SYS is spoken"@,
                    ),
                )
            }),
    {
        if *self == Self::v40_tcp_sys() {
            Ok(())
        } else {
            Err(
                TransportError::UnsupportedProfile(
                    "only NFSv4.0 over TCP with AUTH_SYS is spoken".to_owned(),
                ),
            )
        }
    }
}

/// Result of a transport call.
pub type TransportResult<T> = Result<T, TransportError>;

/// How long one call may take.
#[derive(Clone, Copy, Debug, PartialEq, Eq, Structural)]
pub struct Deadline {
    /// Milliseconds.
    pub millis: u64,
}

/// One connection generation.
#[derive(Clone, Copy, Debug, PartialEq, Eq, PartialOrd, Ord, Hash, Structural)]
pub struct ConnectionEpoch(pub u64);

/// Whether and on which generation a transport is connected.
#[derive(Clone, Copy, Debug, PartialEq, Eq, Structural)]
pub enum ConnectionState {
    /// Never connected.
    Idle,
    /// Connected on this generation.
    Connected(ConnectionEpoch),
    /// This generation was lost.
    Broken(ConnectionEpoch),
}

/// Bounds a transport honours.
#[derive(Clone, Copy, Debug, PartialEq, Eq, Structural)]
pub struct TransportLimits {
    /// Calls that may be outstanding at once.
    pub max_inflight: u32,
    /// Calls that may wait.
    pub max_queue_depth: u32,
    /// Bytes of reply that will be decoded.
    pub max_reply_bytes: usize,
    /// Deadline for a call that names none.
    pub default_deadline: Deadline,
}

/// Bytes of READ data that fit in a reply beside the echoed tag.
pub open spec fn read_payload(limits: TransportLimits) -> nat {
    if limits.max_reply_bytes <= READ_TAG_BYTES {
        0
    } else {
        (limits.max_reply_bytes - READ_TAG_BYTES) as nat
    }
}

impl TransportLimits {
    /// Bytes of READ data a reply can carry: the reply budget less the tag it is
    /// also charged for.
    pub fn max_read_payload(&self) -> (r: usize)
        ensures
            r == read_payload(*self),
    {
        if self.max_reply_bytes <= READ_TAG_BYTES {
            0
        } else {
            self.max_reply_bytes - READ_TAG_BYTES
        }
    }
}

/// Whether a transport's COMMIT acknowledgements come from a remote server.
#[derive(Clone, Copy, Debug, PartialEq, Eq, Structural)]
pub enum PersistenceBoundary {
    /// Nothing is claimed.
    Unqualified,
    /// A remote server answers.
    RemoteServer,
}

/// Identity of one submitted call.
#[derive(Clone, Copy, Debug, PartialEq, Eq, PartialOrd, Ord, Hash, Structural)]
pub struct CallToken {
    value: u64,
}

/// The token numbered `value`.
pub closed spec fn call_token(value: u64) -> CallToken {
    CallToken { value }
}

impl CallToken {
    /// The token's number.
    pub closed spec fn spec_get(&self) -> u64 {
        self.value
    }

    /// The token numbered `value`.
    pub(crate) fn new(value: u64) -> (r: Self)
        ensures
            r == call_token(value),
            r.spec_get() == value,
    {
        CallToken { value }
    }

    /// The token's number.
    pub fn get(&self) -> (r: u64)
        ensures
            r == self.spec_get(),
    {
        self.value
    }
}

/// Proof that a call was withdrawn from the transport.
///
/// Only this crate can make one, so a deadline failure cannot be reported for a
/// call that was not cancelled.
#[derive(Clone, Copy, Debug, PartialEq, Eq, Structural)]
pub struct Retirement {
    token: CallToken,
    drained: bool,
}

/// The retirement of `token`.
pub closed spec fn retired(token: CallToken, drained: bool) -> Retirement {
    Retirement { token, drained }
}

impl Retirement {
    /// The call that was withdrawn.
    pub closed spec fn spec_token(&self) -> CallToken {
        self.token
    }

    /// Whether the call is proven quiesced.
    pub closed spec fn spec_drained(&self) -> bool {
        self.drained
    }

    /// Record that `token` was withdrawn.
    pub(crate) fn new(token: CallToken, drained: bool) -> (r: Self)
        ensures
            r == retired(token, drained),
            r.spec_token() == token,
            r.spec_drained() == drained,
    {
        Retirement { token, drained }
    }

    /// The call that was withdrawn.
    pub fn token(&self) -> (r: CallToken)
        ensures
            r == self.spec_token(),
    {
        self.token
    }

    /// Whether the call is proven quiesced.
    pub fn drained(&self) -> (r: bool)
        ensures
            r == self.spec_drained(),
    {
        self.drained
    }
}

/// Where in a call's life a fault is injected.
#[derive(Clone, Copy, Debug, PartialEq, Eq, Structural)]
pub enum FaultPoint {
    /// Before the call is registered.
    BeforeDispatch,
    /// Before one operation of the COMPOUND is applied.
    AfterDispatch,
    /// When the deadline is checked.
    OnDeadline,
    /// Before the reply is handed back.
    BeforeReturn,
}

/// What an injected fault does.
#[derive(Debug, PartialEq, Eq)]
pub enum FaultAction {
    /// Nothing.
    Proceed,
    /// Answer this operation with a status instead of applying it.
    Substitute(Nfs4Status),
    /// Fail the call.
    Fail(TransportError),
    /// Lose the reply.
    DropReply,
    /// Change the write verifier, as a server restart would.
    RotateVerifier(WriteVerifier),
}

/// What a fault plan is asked about.
#[derive(Clone, Copy, Debug, PartialEq, Eq, Structural)]
pub struct FaultContext {
    /// The operation.
    pub op: OpCode,
    /// Its position in the COMPOUND.
    pub index: u32,
    /// The call, once it has a token.
    pub token: Option<CallToken>,
}

/// Server file system identity.
#[derive(Clone, Copy, Debug, PartialEq, Eq, Hash, PartialOrd, Ord, Structural)]
pub struct Fsid {
    /// Major part.
    pub major: u64,
    /// Minor part.
    pub minor: u64,
}

/// Server object type.
#[derive(Clone, Copy, Debug, PartialEq, Eq, Structural)]
pub enum Nfs4Type {
    /// A regular file.
    Regular,
    /// A directory.
    Directory,
    /// A symbolic link.
    Symlink,
    /// Any other type, by its wire code.
    Other(u32),
}

impl Nfs4Type {
    /// The type as a diagnostic names it.
    pub open spec fn name(self) -> Seq<char> {
        match self {
            Nfs4Type::Regular => "Regular"@,
            Nfs4Type::Directory => "Directory"@,
            Nfs4Type::Symlink => "Symlink"@,
            Nfs4Type::Other(code) => "Other("@ + decimal(code as nat) + ")"@,
        }
    }

    /// The type as a diagnostic names it.
    pub fn text(self) -> (r: String)
        ensures
            r@ == self.name(),
    {
        match self {
            Nfs4Type::Regular => "Regular".to_owned(),
            Nfs4Type::Directory => "Directory".to_owned(),
            Nfs4Type::Symlink => "Symlink".to_owned(),
            Nfs4Type::Other(code) => join3("Other(", decimal_text(code as u64).as_str(), ")"),
        }
    }
}

/// NFSv4 time: seconds and a non-negative nanosecond remainder.
#[derive(Clone, Copy, Debug, PartialEq, Eq, Structural)]
pub struct Nfs4Time {
    /// Seconds since the epoch.
    pub seconds: i64,
    /// Nanoseconds within the second.
    pub nanoseconds: u32,
}

impl View for Nfs4Time {
    type V = Nfs4Time;

    open spec fn view(&self) -> Nfs4Time {
        *self
    }
}

/// A set of attributes, one bit each.
#[derive(Clone, Copy, Debug, PartialEq, Eq, Structural)]
pub struct AttrMask(pub u64);

/// Whether every bit of `part` is in `whole`.
pub open spec fn mask_contains(whole: u64, part: u64) -> bool {
    whole & part == part
}

impl AttrMask {
    /// No attribute.
    pub const EMPTY: u64 = 0;

    /// `FATTR4_TYPE`.
    pub const TYPE: u64 = 1;

    /// `FATTR4_CHANGE`.
    pub const CHANGE: u64 = 2;

    /// `FATTR4_SIZE`.
    pub const SIZE: u64 = 4;

    /// `FATTR4_FSID`.
    pub const FSID: u64 = 8;

    /// `FATTR4_FILEID`.
    pub const FILEID: u64 = 16;

    /// `FATTR4_NUMLINKS`.
    pub const NUMLINKS: u64 = 32;

    /// `FATTR4_MODE`.
    pub const MODE: u64 = 64;

    /// `FATTR4_OWNER`.
    pub const OWNER: u64 = 128;

    /// `FATTR4_OWNER_GROUP`.
    pub const OWNER_GROUP: u64 = 256;

    /// `FATTR4_TIME_MODIFY`.
    pub const TIME_MODIFY: u64 = 512;

    /// `FATTR4_LEASE_TIME`.
    pub const LEASE_TIME: u64 = 1024;

    /// `FATTR4_RDATTR_ERROR`.
    pub const RDATTR_ERROR: u64 = 2048;

    /// `FATTR4_TIME_ACCESS_SET`.
    pub const TIME_ACCESS_SET: u64 = 4096;

    /// `FATTR4_TIME_MODIFY_SET`.
    pub const TIME_MODIFY_SET: u64 = 8192;

    /// Both halves of the object identity.
    pub const IDENTITY: u64 = 24;

    /// Identity and type.
    pub const IDENTITY_AND_TYPE: u64 = 25;

    /// Everything a stat needs, the change attribute included.
    pub const STAT: u64 = 1023;

    /// A stat, and per-entry attribute errors.
    pub const STAT_OR_ERROR: u64 = 3071;

    /// Whether every attribute of `part` is in this set.
    pub fn contains(self, part: AttrMask) -> (r: bool)
        ensures
            r == mask_contains(self.0, part.0),
    {
        self.0 & part.0 == part.0
    }

    /// The attributes in either set.
    pub fn union(self, other: AttrMask) -> (r: AttrMask)
        ensures
            r == AttrMask(self.0 | other.0),
    {
        AttrMask(self.0 | other.0)
    }
}

/// An eight-byte verifier a client chooses.
#[derive(Clone, Copy, Debug, PartialEq, Eq, Hash)]
pub struct Verifier(pub [u8; 8]);

/// The verifier a server returns with WRITE and COMMIT.
#[derive(Clone, Copy, Debug, PartialEq, Eq, Hash)]
pub struct WriteVerifier(pub [u8; 8]);

/// The verifier a READDIR cookie is only meaningful under.
#[derive(Clone, Copy, Debug, PartialEq, Eq, Hash)]
pub struct DirVerifier(pub [u8; 8]);

/// Whether two verifiers are the same eight bytes.
pub fn same_verifier(a: &[u8; 8], b: &[u8; 8]) -> (r: bool)
    ensures
        r == (a == b),
{
    let mut i: usize = 0;
    while i < 8
        invariant
            i <= 8,
            forall|j: int| 0 <= j < i ==> a@[j] == b@[j],
        decreases 8 - i,
    {
        if a[i] != b[i] {
            return false;
        }
        i += 1;
    }
    proof {
        assert(a@ =~= b@);
        assert(a =~= b);
    }
    true
}

/// A READDIR resume position.
#[derive(Clone, Copy, Debug, PartialEq, Eq, Structural)]
pub struct DirCookie(pub u64);

/// Whether a name is valid on the wire: a plain component without a slash or a
/// NUL.
pub open spec fn valid_component(name: Seq<u8>) -> bool {
    plain_component(name) && !name.contains(crate::contract::SLASH) && !name.contains(0u8)
}

/// One validated, byte-exact name.
#[derive(Debug, PartialEq, Eq, PartialOrd, Ord, Hash)]
pub struct ComponentName {
    bytes: Vec<u8>,
}

impl View for ComponentName {
    type V = Seq<u8>;

    closed spec fn view(&self) -> Seq<u8> {
        self.bytes@
    }
}

impl Clone for ComponentName {
    fn clone(&self) -> (r: Self)
        ensures
            r@ == self@,
    {
        proof {
            use_type_invariant(self);
        }
        ComponentName { bytes: copy_bytes(self.bytes.as_slice()) }
    }
}

/// What validating `bytes` as a name yields.
pub open spec fn adopt_name(bytes: Seq<u8>) -> Result<Seq<u8>, TransportErrorView> {
    if valid_component(bytes) {
        Ok(bytes)
    } else {
        Err(
            TransportErrorView::Malformed(
                "a name is not empty, not . or .. and holds neither a slash nor a NUL"@,
            ),
        )
    }
}

impl ComponentName {
    /// No name that could leave its directory can be held.
    #[verifier::type_invariant]
    closed spec fn valid(&self) -> bool {
        valid_component(self.bytes@)
    }

    /// Validate one name.
    pub fn new(bytes: Vec<u8>) -> (r: TransportResult<Self>)
        ensures
            res_view(r) == adopt_name(bytes@),
    {
        if !is_plain_component(bytes.as_slice()) || holds_byte(
            bytes.as_slice(),
            crate::contract::SLASH,
        ) || holds_byte(bytes.as_slice(), 0) {
            return Err(
                TransportError::Malformed(
                    "a name is not empty, not . or .. and holds neither a slash nor a NUL".to_owned(),
                ),
            );
        }
        Ok(ComponentName { bytes })
    }

    /// The exact bytes.
    pub fn as_bytes(&self) -> (r: &[u8])
        ensures
            r@ == self@,
            valid_component(r@),
    {
        proof {
            use_type_invariant(self);
        }
        self.bytes.as_slice()
    }
}

/// The attributes a server returned. Absent means not returned.
#[derive(Debug, PartialEq, Eq)]
pub struct Attributes {
    /// Which attributes the reply covers.
    pub returned: AttrMask,
    /// `FATTR4_TYPE`.
    pub file_type: Option<Nfs4Type>,
    /// `FATTR4_CHANGE`.
    pub change: Option<u64>,
    /// `FATTR4_SIZE`.
    pub size: Option<u64>,
    /// `FATTR4_FSID`.
    pub fsid: Option<Fsid>,
    /// `FATTR4_FILEID`.
    pub fileid: Option<u64>,
    /// `FATTR4_NUMLINKS`.
    pub numlinks: Option<u32>,
    /// `FATTR4_MODE`.
    pub mode: Option<u32>,
    /// `FATTR4_OWNER`.
    pub owner: Option<Vec<u8>>,
    /// `FATTR4_OWNER_GROUP`.
    pub owner_group: Option<Vec<u8>>,
    /// `FATTR4_TIME_MODIFY`.
    pub time_modify: Option<Nfs4Time>,
    /// `FATTR4_LEASE_TIME`.
    pub lease_time: Option<u32>,
    /// `FATTR4_RDATTR_ERROR`.
    pub rdattr_error: Option<Nfs4Status>,
}

/// The content of [`Attributes`].
pub struct AttributesView {
    /// Which attributes the reply covers.
    pub returned: AttrMask,
    /// `FATTR4_TYPE`.
    pub file_type: Option<Nfs4Type>,
    /// `FATTR4_CHANGE`.
    pub change: Option<u64>,
    /// `FATTR4_SIZE`.
    pub size: Option<u64>,
    /// `FATTR4_FSID`.
    pub fsid: Option<Fsid>,
    /// `FATTR4_FILEID`.
    pub fileid: Option<u64>,
    /// `FATTR4_NUMLINKS`.
    pub numlinks: Option<u32>,
    /// `FATTR4_MODE`.
    pub mode: Option<u32>,
    /// `FATTR4_OWNER`.
    pub owner: Option<Seq<u8>>,
    /// `FATTR4_OWNER_GROUP`.
    pub owner_group: Option<Seq<u8>>,
    /// `FATTR4_TIME_MODIFY`.
    pub time_modify: Option<Nfs4Time>,
    /// `FATTR4_LEASE_TIME`.
    pub lease_time: Option<u32>,
    /// `FATTR4_RDATTR_ERROR`.
    pub rdattr_error: Option<Nfs4Status>,
}

impl View for Attributes {
    type V = AttributesView;

    open spec fn view(&self) -> AttributesView {
        AttributesView {
            returned: self.returned,
            file_type: self.file_type,
            change: self.change,
            size: self.size,
            fsid: self.fsid,
            fileid: self.fileid,
            numlinks: self.numlinks,
            mode: self.mode,
            owner: opt_view(self.owner),
            owner_group: opt_view(self.owner_group),
            time_modify: self.time_modify,
            lease_time: self.lease_time,
            rdattr_error: self.rdattr_error,
        }
    }
}

/// A copy of optional bytes.
pub fn copy_optional(value: &Option<Vec<u8>>) -> (r: Option<Vec<u8>>)
    ensures
        opt_view(r) == opt_view(*value),
{
    match value {
        Some(bytes) => Some(copy_bytes(bytes.as_slice())),
        None => None,
    }
}

impl Clone for Attributes {
    fn clone(&self) -> (r: Self)
        ensures
            r@ == self@,
    {
        Attributes {
            returned: self.returned,
            file_type: self.file_type,
            change: self.change,
            size: self.size,
            fsid: self.fsid,
            fileid: self.fileid,
            numlinks: self.numlinks,
            mode: self.mode,
            owner: copy_optional(&self.owner),
            owner_group: copy_optional(&self.owner_group),
            time_modify: self.time_modify,
            lease_time: self.lease_time,
            rdattr_error: self.rdattr_error,
        }
    }
}

/// Attributes to set. Absent means leave alone.
#[derive(Debug, PartialEq, Eq)]
pub struct AttrValues {
    /// `FATTR4_SIZE`.
    pub size: Option<u64>,
    /// `FATTR4_MODE`.
    pub mode: Option<u32>,
    /// `FATTR4_OWNER`.
    pub owner: Option<Vec<u8>>,
    /// `FATTR4_OWNER_GROUP`.
    pub owner_group: Option<Vec<u8>>,
    /// `FATTR4_TIME_ACCESS_SET`.
    pub time_access: Option<Nfs4Time>,
    /// `FATTR4_TIME_MODIFY_SET`.
    pub time_modify: Option<Nfs4Time>,
}

/// The content of [`AttrValues`].
pub struct AttrValuesView {
    /// `FATTR4_SIZE`.
    pub size: Option<u64>,
    /// `FATTR4_MODE`.
    pub mode: Option<u32>,
    /// `FATTR4_OWNER`.
    pub owner: Option<Seq<u8>>,
    /// `FATTR4_OWNER_GROUP`.
    pub owner_group: Option<Seq<u8>>,
    /// `FATTR4_TIME_ACCESS_SET`.
    pub time_access: Option<Nfs4Time>,
    /// `FATTR4_TIME_MODIFY_SET`.
    pub time_modify: Option<Nfs4Time>,
}

impl View for AttrValues {
    type V = AttrValuesView;

    open spec fn view(&self) -> AttrValuesView {
        AttrValuesView {
            size: self.size,
            mode: self.mode,
            owner: opt_view(self.owner),
            owner_group: opt_view(self.owner_group),
            time_access: self.time_access,
            time_modify: self.time_modify,
        }
    }
}

/// No attribute at all.
pub open spec fn no_values() -> AttrValuesView {
    AttrValuesView {
        size: None,
        mode: None,
        owner: None,
        owner_group: None,
        time_access: None,
        time_modify: None,
    }
}

/// A mask that holds `bit` when `present`.
pub open spec fn bit_if(present: bool, bit: u64) -> u64 {
    if present {
        bit
    } else {
        0
    }
}

/// The attributes `values` names.
pub open spec fn values_mask(values: AttrValuesView) -> u64 {
    bit_if(values.size is Some, AttrMask::SIZE) | bit_if(values.mode is Some, AttrMask::MODE)
        | bit_if(values.owner is Some, AttrMask::OWNER) | bit_if(
        values.owner_group is Some,
        AttrMask::OWNER_GROUP,
    ) | bit_if(values.time_access is Some, AttrMask::TIME_ACCESS_SET) | bit_if(
        values.time_modify is Some,
        AttrMask::TIME_MODIFY_SET,
    )
}

fn bit_when(present: bool, bit: u64) -> (r: u64)
    ensures
        r == bit_if(present, bit),
{
    if present {
        bit
    } else {
        0
    }
}

impl AttrValues {
    /// No attribute at all.
    pub fn none() -> (r: Self)
        ensures
            r@ == no_values(),
    {
        AttrValues {
            size: None,
            mode: None,
            owner: None,
            owner_group: None,
            time_access: None,
            time_modify: None,
        }
    }

    /// The attributes named here.
    pub fn mask(&self) -> (r: AttrMask)
        ensures
            r == AttrMask(values_mask(self@)),
    {
        AttrMask(
            bit_when(self.size.is_some(), AttrMask::SIZE) | bit_when(
                self.mode.is_some(),
                AttrMask::MODE,
            ) | bit_when(self.owner.is_some(), AttrMask::OWNER) | bit_when(
                self.owner_group.is_some(),
                AttrMask::OWNER_GROUP,
            ) | bit_when(self.time_access.is_some(), AttrMask::TIME_ACCESS_SET) | bit_when(
                self.time_modify.is_some(),
                AttrMask::TIME_MODIFY_SET,
            ),
        )
    }

    /// Whether nothing is named.
    pub fn is_empty(&self) -> (r: bool)
        ensures
            r == (self@ == no_values()),
    {
        self.size.is_none() && self.mode.is_none() && self.owner.is_none()
            && self.owner_group.is_none() && self.time_access.is_none()
            && self.time_modify.is_none()
    }
}

impl Clone for AttrValues {
    fn clone(&self) -> (r: Self)
        ensures
            r@ == self@,
    {
        AttrValues {
            size: self.size,
            mode: self.mode,
            owner: copy_optional(&self.owner),
            owner_group: copy_optional(&self.owner_group),
            time_access: self.time_access,
            time_modify: self.time_modify,
        }
    }
}

/// How a namespace operation moved its directory's change attribute.
#[derive(Clone, Copy, Debug, PartialEq, Eq, Structural)]
pub struct ChangeInfo {
    /// Whether the two values were read atomically with the operation.
    pub atomic: bool,
    /// The value before.
    pub before: u64,
    /// The value after.
    pub after: u64,
}

/// What a CREATE makes.
#[derive(Clone, Copy, Debug, PartialEq, Eq, Structural)]
pub enum CreateType {
    /// A directory.
    Directory,
}

/// How stable a write is asked to be, or is.
#[derive(Clone, Copy, Debug, PartialEq, Eq, Structural)]
pub enum Stability {
    /// In the server's memory; a COMMIT is owed.
    Unstable,
    /// Data on stable storage.
    DataSync,
    /// Data and metadata on stable storage.
    FileSync,
}

/// Share access bits.
#[allow(non_camel_case_types)]
#[derive(Clone, Copy, Debug, PartialEq, Eq, Structural)]
pub enum ShareAccess {
    /// Read.
    READ,
    /// Write.
    WRITE,
    /// Read and write.
    BOTH,
}

/// Share deny bits.
#[allow(non_camel_case_types)]
#[derive(Clone, Copy, Debug, PartialEq, Eq, Structural)]
pub enum ShareDeny {
    /// Deny nothing.
    NONE,
    /// Deny readers.
    READ,
    /// Deny writers.
    WRITE,
    /// Deny both.
    BOTH,
}

/// How an OPEN treats an existing or absent name.
#[derive(Clone, Copy, Debug, PartialEq, Eq)]
pub enum OpenHow {
    /// `OPEN4_NOCREATE`.
    NoCreate,
    /// `UNCHECKED4`.
    Unchecked {
        /// Mode of a created object.
        mode: u32,
    },
    /// `GUARDED4`.
    Guarded {
        /// Mode of the created object.
        mode: u32,
    },
    /// `EXCLUSIVE4`.
    Exclusive {
        /// Verifier that identifies this create.
        verifier: Verifier,
    },
}

/// The delegation a claim asks for or a reply grants.
#[derive(Clone, Copy, Debug, PartialEq, Eq, Structural)]
pub enum DelegationType {
    /// No delegation.
    NoDelegation,
    /// Read.
    Read,
    /// Write.
    Write,
}

/// What an OPEN claims.
#[derive(Debug, PartialEq, Eq)]
pub enum OpenClaim {
    /// A name in the current directory.
    Null {
        /// The name.
        name: ComponentName,
    },
    /// State held before a server restart.
    Previous {
        /// Delegation held.
        delegate_type: DelegationType,
    },
}

/// The content of an [`OpenClaim`].
pub enum OpenClaimView {
    /// A name in the current directory.
    Null {
        /// The name.
        name: Seq<u8>,
    },
    /// State held before a server restart.
    Previous {
        /// Delegation held.
        delegate_type: DelegationType,
    },
}

impl View for OpenClaim {
    type V = OpenClaimView;

    open spec fn view(&self) -> OpenClaimView {
        match *self {
            OpenClaim::Null { name } => OpenClaimView::Null { name: name@ },
            OpenClaim::Previous { delegate_type } => OpenClaimView::Previous { delegate_type },
        }
    }
}

impl Clone for OpenClaim {
    fn clone(&self) -> (r: Self)
        ensures
            r@ == self@,
    {
        match self {
            OpenClaim::Null { name } => OpenClaim::Null { name: name.clone() },
            OpenClaim::Previous { delegate_type } => OpenClaim::Previous {
                delegate_type: *delegate_type,
            },
        }
    }
}

/// OPEN arguments.
#[derive(Debug, PartialEq, Eq)]
pub struct OpenArgs {
    /// Open-owner seqid.
    pub seqid: u32,
    /// Share access asked for.
    pub share_access: ShareAccess,
    /// Share deny asked for.
    pub share_deny: ShareDeny,
    /// The open owner.
    pub owner: OpenOwner,
    /// How the name is treated.
    pub how: OpenHow,
    /// What is claimed.
    pub claim: OpenClaim,
}

/// The content of [`OpenArgs`].
pub struct OpenArgsView {
    /// Open-owner seqid.
    pub seqid: u32,
    /// Share access asked for.
    pub share_access: ShareAccess,
    /// Share deny asked for.
    pub share_deny: ShareDeny,
    /// The open owner.
    pub owner: OpenOwnerView,
    /// How the name is treated.
    pub how: OpenHow,
    /// What is claimed.
    pub claim: OpenClaimView,
}

impl View for OpenArgs {
    type V = OpenArgsView;

    open spec fn view(&self) -> OpenArgsView {
        OpenArgsView {
            seqid: self.seqid,
            share_access: self.share_access,
            share_deny: self.share_deny,
            owner: self.owner@,
            how: self.how,
            claim: self.claim@,
        }
    }
}

impl Clone for OpenArgs {
    fn clone(&self) -> (r: Self)
        ensures
            r@ == self@,
    {
        OpenArgs {
            seqid: self.seqid,
            share_access: self.share_access,
            share_deny: self.share_deny,
            owner: self.owner.clone(),
            how: self.how,
            claim: self.claim.clone(),
        }
    }
}

/// LOCK arguments.
#[derive(Clone, Copy, Debug, PartialEq, Eq)]
pub struct LockArgs {
    /// Lock-owner seqid.
    pub seqid: u32,
    /// Open stateid the lock is taken under.
    pub stateid: Stateid,
    /// First byte.
    pub offset: u64,
    /// Byte count.
    pub length: u64,
}

/// LOCKU arguments.
#[derive(Clone, Copy, Debug, PartialEq, Eq)]
pub struct LockuArgs {
    /// Lock-owner seqid.
    pub seqid: u32,
    /// Lock stateid to release under.
    pub lock_stateid: Stateid,
    /// First byte.
    pub offset: u64,
    /// Byte count.
    pub length: u64,
}

/// One READDIR, grouped so its parameters travel together.
#[derive(Clone, Copy, Debug, PartialEq, Eq)]
pub struct ReadDirRequest {
    /// Resume position.
    pub cookie: DirCookie,
    /// Verifier the position is meaningful under.
    pub verifier: DirVerifier,
    /// Bytes of names asked for.
    pub dir_count: u32,
    /// Bytes of reply asked for.
    pub max_count: u32,
    /// Attributes asked for.
    pub attrs: AttrMask,
}

/// One operation of a COMPOUND.
#[derive(Debug, PartialEq, Eq)]
pub enum Nfs4Op {
    /// PUTROOTFH.
    PutRootFh,
    /// PUTFH.
    PutFh(FileHandle),
    /// GETFH.
    GetFh,
    /// GETATTR.
    GetAttr(AttrMask),
    /// LOOKUP.
    Lookup(ComponentName),
    /// LOOKUPP.
    LookupParent,
    /// READDIR.
    ReadDir(ReadDirRequest),
    /// READ.
    Read {
        /// Stateid the read is under.
        stateid: Stateid,
        /// First byte.
        offset: u64,
        /// Byte count.
        count: u32,
    },
    /// WRITE.
    Write {
        /// Stateid the write is under.
        stateid: Stateid,
        /// First byte.
        offset: u64,
        /// Stability asked for.
        stability: Stability,
        /// The bytes.
        data: Vec<u8>,
    },
    /// COMMIT.
    Commit {
        /// First byte.
        offset: u64,
        /// Byte count.
        count: u32,
    },
    /// OPEN.
    Open(OpenArgs),
    /// OPEN_CONFIRM.
    OpenConfirm {
        /// Stateid to confirm.
        stateid: Stateid,
        /// Open-owner seqid.
        seqid: u32,
    },
    /// CLOSE.
    Close {
        /// Open-owner seqid.
        seqid: u32,
        /// Stateid to close.
        stateid: Stateid,
    },
    /// LOCK.
    Lock(LockArgs),
    /// LOCKU.
    Locku(LockuArgs),
    /// RENEW.
    Renew(ClientId),
    /// SETCLIENTID.
    SetClientId {
        /// Boot verifier.
        verifier: Verifier,
        /// Client identity string.
        id: Vec<u8>,
    },
    /// SETCLIENTID_CONFIRM.
    SetClientIdConfirm {
        /// Client id to confirm.
        client_id: ClientId,
        /// Confirm verifier.
        confirm: Verifier,
    },
    /// SAVEFH.
    SaveFh,
    /// REMOVE.
    Remove {
        /// Name to unlink.
        name: ComponentName,
    },
    /// RENAME.
    Rename {
        /// Name in the saved directory.
        old_name: ComponentName,
        /// Name in the current directory.
        new_name: ComponentName,
    },
    /// CREATE.
    Create {
        /// What to make.
        object_type: CreateType,
        /// Its name.
        name: ComponentName,
        /// Its initial attributes.
        attributes: AttrValues,
    },
    /// SETATTR.
    SetAttr {
        /// Stateid the change is under.
        stateid: Stateid,
        /// What to set.
        attributes: AttrValues,
    },
}

/// The content of an [`Nfs4Op`].
pub enum OpView {
    /// PUTROOTFH.
    PutRootFh,
    /// PUTFH.
    PutFh(Seq<u8>),
    /// GETFH.
    GetFh,
    /// GETATTR.
    GetAttr(AttrMask),
    /// LOOKUP.
    Lookup(Seq<u8>),
    /// LOOKUPP.
    LookupParent,
    /// READDIR.
    ReadDir(ReadDirRequest),
    /// READ.
    Read {
        /// Stateid the read is under.
        stateid: Stateid,
        /// First byte.
        offset: u64,
        /// Byte count.
        count: u32,
    },
    /// WRITE.
    Write {
        /// Stateid the write is under.
        stateid: Stateid,
        /// First byte.
        offset: u64,
        /// Stability asked for.
        stability: Stability,
        /// The bytes.
        data: Seq<u8>,
    },
    /// COMMIT.
    Commit {
        /// First byte.
        offset: u64,
        /// Byte count.
        count: u32,
    },
    /// OPEN.
    Open(OpenArgsView),
    /// OPEN_CONFIRM.
    OpenConfirm {
        /// Stateid to confirm.
        stateid: Stateid,
        /// Open-owner seqid.
        seqid: u32,
    },
    /// CLOSE.
    Close {
        /// Open-owner seqid.
        seqid: u32,
        /// Stateid to close.
        stateid: Stateid,
    },
    /// LOCK.
    Lock(LockArgs),
    /// LOCKU.
    Locku(LockuArgs),
    /// RENEW.
    Renew(ClientId),
    /// SETCLIENTID.
    SetClientId {
        /// Boot verifier.
        verifier: Verifier,
        /// Client identity string.
        id: Seq<u8>,
    },
    /// SETCLIENTID_CONFIRM.
    SetClientIdConfirm {
        /// Client id to confirm.
        client_id: ClientId,
        /// Confirm verifier.
        confirm: Verifier,
    },
    /// SAVEFH.
    SaveFh,
    /// REMOVE.
    Remove {
        /// Name to unlink.
        name: Seq<u8>,
    },
    /// RENAME.
    Rename {
        /// Name in the saved directory.
        old_name: Seq<u8>,
        /// Name in the current directory.
        new_name: Seq<u8>,
    },
    /// CREATE.
    Create {
        /// What to make.
        object_type: CreateType,
        /// Its name.
        name: Seq<u8>,
        /// Its initial attributes.
        attributes: AttrValuesView,
    },
    /// SETATTR.
    SetAttr {
        /// Stateid the change is under.
        stateid: Stateid,
        /// What to set.
        attributes: AttrValuesView,
    },
}

impl View for Nfs4Op {
    type V = OpView;

    open spec fn view(&self) -> OpView {
        match *self {
            Nfs4Op::PutRootFh => OpView::PutRootFh,
            Nfs4Op::PutFh(handle) => OpView::PutFh(handle@),
            Nfs4Op::GetFh => OpView::GetFh,
            Nfs4Op::GetAttr(mask) => OpView::GetAttr(mask),
            Nfs4Op::Lookup(name) => OpView::Lookup(name@),
            Nfs4Op::LookupParent => OpView::LookupParent,
            Nfs4Op::ReadDir(request) => OpView::ReadDir(request),
            Nfs4Op::Read { stateid, offset, count } => OpView::Read { stateid, offset, count },
            Nfs4Op::Write { stateid, offset, stability, data } => OpView::Write {
                stateid,
                offset,
                stability,
                data: data@,
            },
            Nfs4Op::Commit { offset, count } => OpView::Commit { offset, count },
            Nfs4Op::Open(args) => OpView::Open(args@),
            Nfs4Op::OpenConfirm { stateid, seqid } => OpView::OpenConfirm { stateid, seqid },
            Nfs4Op::Close { seqid, stateid } => OpView::Close { seqid, stateid },
            Nfs4Op::Lock(args) => OpView::Lock(args),
            Nfs4Op::Locku(args) => OpView::Locku(args),
            Nfs4Op::Renew(client_id) => OpView::Renew(client_id),
            Nfs4Op::SetClientId { verifier, id } => OpView::SetClientId { verifier, id: id@ },
            Nfs4Op::SetClientIdConfirm { client_id, confirm } => OpView::SetClientIdConfirm {
                client_id,
                confirm,
            },
            Nfs4Op::SaveFh => OpView::SaveFh,
            Nfs4Op::Remove { name } => OpView::Remove { name: name@ },
            Nfs4Op::Rename { old_name, new_name } => OpView::Rename {
                old_name: old_name@,
                new_name: new_name@,
            },
            Nfs4Op::Create { object_type, name, attributes } => OpView::Create {
                object_type,
                name: name@,
                attributes: attributes@,
            },
            Nfs4Op::SetAttr { stateid, attributes } => OpView::SetAttr {
                stateid,
                attributes: attributes@,
            },
        }
    }
}

/// The operation of a request or a reply.
#[derive(Clone, Copy, Debug, PartialEq, Eq, Structural)]
pub enum OpCode {
    /// PUTROOTFH.
    PutRootFh,
    /// PUTFH.
    PutFh,
    /// GETFH.
    GetFh,
    /// GETATTR.
    GetAttr,
    /// LOOKUP.
    Lookup,
    /// LOOKUPP.
    LookupParent,
    /// READDIR.
    ReadDir,
    /// READ.
    Read,
    /// WRITE.
    Write,
    /// COMMIT.
    Commit,
    /// OPEN.
    Open,
    /// OPEN_CONFIRM.
    OpenConfirm,
    /// CLOSE.
    Close,
    /// LOCK.
    Lock,
    /// LOCKU.
    Locku,
    /// RENEW.
    Renew,
    /// SETCLIENTID.
    SetClientId,
    /// SETCLIENTID_CONFIRM.
    SetClientIdConfirm,
    /// SAVEFH.
    SaveFh,
    /// REMOVE.
    Remove,
    /// RENAME.
    Rename,
    /// CREATE.
    Create,
    /// SETATTR.
    SetAttr,
}

impl OpCode {
    /// The operation as a diagnostic names it.
    pub open spec fn name(self) -> Seq<char> {
        match self {
            OpCode::PutRootFh => "PutRootFh"@,
            OpCode::PutFh => "PutFh"@,
            OpCode::GetFh => "GetFh"@,
            OpCode::GetAttr => "GetAttr"@,
            OpCode::Lookup => "Lookup"@,
            OpCode::LookupParent => "LookupParent"@,
            OpCode::ReadDir => "ReadDir"@,
            OpCode::Read => "Read"@,
            OpCode::Write => "Write"@,
            OpCode::Commit => "Commit"@,
            OpCode::Open => "Open"@,
            OpCode::OpenConfirm => "OpenConfirm"@,
            OpCode::Close => "Close"@,
            OpCode::Lock => "Lock"@,
            OpCode::Locku => "Locku"@,
            OpCode::Renew => "Renew"@,
            OpCode::SetClientId => "SetClientId"@,
            OpCode::SetClientIdConfirm => "SetClientIdConfirm"@,
            OpCode::SaveFh => "SaveFh"@,
            OpCode::Remove => "Remove"@,
            OpCode::Rename => "Rename"@,
            OpCode::Create => "Create"@,
            OpCode::SetAttr => "SetAttr"@,
        }
    }

    /// The operation as a diagnostic names it.
    pub fn label(self) -> (r: &'static str)
        ensures
            r@ == self.name(),
    {
        match self {
            OpCode::PutRootFh => "PutRootFh",
            OpCode::PutFh => "PutFh",
            OpCode::GetFh => "GetFh",
            OpCode::GetAttr => "GetAttr",
            OpCode::Lookup => "Lookup",
            OpCode::LookupParent => "LookupParent",
            OpCode::ReadDir => "ReadDir",
            OpCode::Read => "Read",
            OpCode::Write => "Write",
            OpCode::Commit => "Commit",
            OpCode::Open => "Open",
            OpCode::OpenConfirm => "OpenConfirm",
            OpCode::Close => "Close",
            OpCode::Lock => "Lock",
            OpCode::Locku => "Locku",
            OpCode::Renew => "Renew",
            OpCode::SetClientId => "SetClientId",
            OpCode::SetClientIdConfirm => "SetClientIdConfirm",
            OpCode::SaveFh => "SaveFh",
            OpCode::Remove => "Remove",
            OpCode::Rename => "Rename",
            OpCode::Create => "Create",
            OpCode::SetAttr => "SetAttr",
        }
    }
}

/// The operation a request asks for.
pub open spec fn op_code(op: OpView) -> OpCode {
    match op {
        OpView::PutRootFh => OpCode::PutRootFh,
        OpView::PutFh(_) => OpCode::PutFh,
        OpView::GetFh => OpCode::GetFh,
        OpView::GetAttr(_) => OpCode::GetAttr,
        OpView::Lookup(_) => OpCode::Lookup,
        OpView::LookupParent => OpCode::LookupParent,
        OpView::ReadDir(_) => OpCode::ReadDir,
        OpView::Read { .. } => OpCode::Read,
        OpView::Write { .. } => OpCode::Write,
        OpView::Commit { .. } => OpCode::Commit,
        OpView::Open(_) => OpCode::Open,
        OpView::OpenConfirm { .. } => OpCode::OpenConfirm,
        OpView::Close { .. } => OpCode::Close,
        OpView::Lock(_) => OpCode::Lock,
        OpView::Locku(_) => OpCode::Locku,
        OpView::Renew(_) => OpCode::Renew,
        OpView::SetClientId { .. } => OpCode::SetClientId,
        OpView::SetClientIdConfirm { .. } => OpCode::SetClientIdConfirm,
        OpView::SaveFh => OpCode::SaveFh,
        OpView::Remove { .. } => OpCode::Remove,
        OpView::Rename { .. } => OpCode::Rename,
        OpView::Create { .. } => OpCode::Create,
        OpView::SetAttr { .. } => OpCode::SetAttr,
    }
}

/// The operation a reply answers.
pub open spec fn reply_code(reply: ReplyView) -> OpCode {
    match reply {
        ReplyView::PutRootFh => OpCode::PutRootFh,
        ReplyView::PutFh => OpCode::PutFh,
        ReplyView::GetFh(_) => OpCode::GetFh,
        ReplyView::GetAttr(_) => OpCode::GetAttr,
        ReplyView::Lookup => OpCode::Lookup,
        ReplyView::LookupParent => OpCode::LookupParent,
        ReplyView::ReadDir(_) => OpCode::ReadDir,
        ReplyView::Read(_) => OpCode::Read,
        ReplyView::Write(_) => OpCode::Write,
        ReplyView::Commit(_) => OpCode::Commit,
        ReplyView::Open(_) => OpCode::Open,
        ReplyView::OpenConfirm(_) => OpCode::OpenConfirm,
        ReplyView::Close(_) => OpCode::Close,
        ReplyView::Lock(_) => OpCode::Lock,
        ReplyView::Locku(_) => OpCode::Locku,
        ReplyView::Renew => OpCode::Renew,
        ReplyView::SetClientId { .. } => OpCode::SetClientId,
        ReplyView::SetClientIdConfirm => OpCode::SetClientIdConfirm,
        ReplyView::SaveFh => OpCode::SaveFh,
        ReplyView::Remove(_) => OpCode::Remove,
        ReplyView::Rename { .. } => OpCode::Rename,
        ReplyView::Create { .. } => OpCode::Create,
        ReplyView::SetAttr(_) => OpCode::SetAttr,
    }
}

impl Nfs4Op {
    /// The operation this asks for.
    pub fn opcode(&self) -> (r: OpCode)
        ensures
            r == op_code(self@),
    {
        match self {
            Nfs4Op::PutRootFh => OpCode::PutRootFh,
            Nfs4Op::PutFh(_) => OpCode::PutFh,
            Nfs4Op::GetFh => OpCode::GetFh,
            Nfs4Op::GetAttr(_) => OpCode::GetAttr,
            Nfs4Op::Lookup(_) => OpCode::Lookup,
            Nfs4Op::LookupParent => OpCode::LookupParent,
            Nfs4Op::ReadDir(_) => OpCode::ReadDir,
            Nfs4Op::Read { .. } => OpCode::Read,
            Nfs4Op::Write { .. } => OpCode::Write,
            Nfs4Op::Commit { .. } => OpCode::Commit,
            Nfs4Op::Open(_) => OpCode::Open,
            Nfs4Op::OpenConfirm { .. } => OpCode::OpenConfirm,
            Nfs4Op::Close { .. } => OpCode::Close,
            Nfs4Op::Lock(_) => OpCode::Lock,
            Nfs4Op::Locku(_) => OpCode::Locku,
            Nfs4Op::Renew(_) => OpCode::Renew,
            Nfs4Op::SetClientId { .. } => OpCode::SetClientId,
            Nfs4Op::SetClientIdConfirm { .. } => OpCode::SetClientIdConfirm,
            Nfs4Op::SaveFh => OpCode::SaveFh,
            Nfs4Op::Remove { .. } => OpCode::Remove,
            Nfs4Op::Rename { .. } => OpCode::Rename,
            Nfs4Op::Create { .. } => OpCode::Create,
            Nfs4Op::SetAttr { .. } => OpCode::SetAttr,
        }
    }
}

impl OpReply {
    /// The operation this answers.
    pub fn opcode(&self) -> (r: OpCode)
        ensures
            r == reply_code(self@),
    {
        match self {
            OpReply::PutRootFh => OpCode::PutRootFh,
            OpReply::PutFh => OpCode::PutFh,
            OpReply::GetFh(_) => OpCode::GetFh,
            OpReply::GetAttr(_) => OpCode::GetAttr,
            OpReply::Lookup => OpCode::Lookup,
            OpReply::LookupParent => OpCode::LookupParent,
            OpReply::ReadDir(_) => OpCode::ReadDir,
            OpReply::Read(_) => OpCode::Read,
            OpReply::Write(_) => OpCode::Write,
            OpReply::Commit(_) => OpCode::Commit,
            OpReply::Open(_) => OpCode::Open,
            OpReply::OpenConfirm(_) => OpCode::OpenConfirm,
            OpReply::Close(_) => OpCode::Close,
            OpReply::Lock(_) => OpCode::Lock,
            OpReply::Locku(_) => OpCode::Locku,
            OpReply::Renew => OpCode::Renew,
            OpReply::SetClientId { .. } => OpCode::SetClientId,
            OpReply::SetClientIdConfirm => OpCode::SetClientIdConfirm,
            OpReply::SaveFh => OpCode::SaveFh,
            OpReply::Remove(_) => OpCode::Remove,
            OpReply::Rename { .. } => OpCode::Rename,
            OpReply::Create { .. } => OpCode::Create,
            OpReply::SetAttr(_) => OpCode::SetAttr,
        }
    }
}

/// READ reply.
#[derive(Debug, PartialEq, Eq)]
pub struct ReadReply {
    /// The bytes read.
    pub data: Vec<u8>,
    /// Whether the read reached end of file.
    pub eof: bool,
}

/// The content of a [`ReadReply`].
pub struct ReadReplyView {
    /// The bytes read.
    pub data: Seq<u8>,
    /// Whether the read reached end of file.
    pub eof: bool,
}

impl View for ReadReply {
    type V = ReadReplyView;

    open spec fn view(&self) -> ReadReplyView {
        ReadReplyView { data: self.data@, eof: self.eof }
    }
}

/// WRITE reply.
#[derive(Clone, Copy, Debug, PartialEq, Eq)]
pub struct WriteReply {
    /// Bytes the server accepted.
    pub count: u32,
    /// Stability the server reached.
    pub committed: Stability,
    /// Write verifier.
    pub verifier: WriteVerifier,
}

impl View for WriteReply {
    type V = WriteReply;

    open spec fn view(&self) -> WriteReply {
        *self
    }
}

/// COMMIT reply.
#[derive(Clone, Copy, Debug, PartialEq, Eq)]
pub struct CommitReply {
    /// Write verifier.
    pub verifier: WriteVerifier,
}

impl View for CommitReply {
    type V = CommitReply;

    open spec fn view(&self) -> CommitReply {
        *self
    }
}

/// OPEN reply.
#[derive(Clone, Copy, Debug, PartialEq, Eq)]
pub struct OpenReply {
    /// Stateid granted.
    pub stateid: Stateid,
    /// Whether OPEN_CONFIRM is owed.
    pub confirm_required: bool,
    /// Whether the change values are atomic.
    pub change_atomic: bool,
    /// Directory change value before.
    pub change_before: u64,
    /// Directory change value after.
    pub change_after: u64,
    /// Delegation granted.
    pub delegation: DelegationType,
}

impl View for OpenReply {
    type V = OpenReply;

    open spec fn view(&self) -> OpenReply {
        *self
    }
}

/// One directory entry.
#[derive(Debug, PartialEq, Eq)]
pub struct DirEntry {
    /// Position after this entry.
    pub cookie: DirCookie,
    /// Byte-exact name.
    pub name: ComponentName,
    /// Attributes returned with it.
    pub attributes: Attributes,
}

/// The content of a [`DirEntry`].
pub struct DirEntryView {
    /// Position after this entry.
    pub cookie: DirCookie,
    /// Byte-exact name.
    pub name: Seq<u8>,
    /// Attributes returned with it.
    pub attributes: AttributesView,
}

impl View for DirEntry {
    type V = DirEntryView;

    open spec fn view(&self) -> DirEntryView {
        DirEntryView { cookie: self.cookie, name: self.name@, attributes: self.attributes@ }
    }
}

/// READDIR reply.
#[derive(Debug, PartialEq, Eq)]
pub struct DirPage {
    /// Verifier its cookies are meaningful under.
    pub verifier: DirVerifier,
    /// Entries, in order.
    pub entries: Vec<DirEntry>,
    /// Whether the last entry was returned.
    pub eof: bool,
}

/// The content of a [`DirPage`].
pub struct DirPageView {
    /// Verifier its cookies are meaningful under.
    pub verifier: DirVerifier,
    /// Entries, in order.
    pub entries: Seq<DirEntryView>,
    /// Whether the last entry was returned.
    pub eof: bool,
}

impl View for DirPage {
    type V = DirPageView;

    open spec fn view(&self) -> DirPageView {
        DirPageView { verifier: self.verifier, entries: seq_view(self.entries@), eof: self.eof }
    }
}

/// One operation's reply.
#[derive(Debug, PartialEq, Eq)]
pub enum OpReply {
    /// PUTROOTFH.
    PutRootFh,
    /// PUTFH.
    PutFh,
    /// GETFH.
    GetFh(FileHandle),
    /// GETATTR.
    GetAttr(Attributes),
    /// LOOKUP.
    Lookup,
    /// LOOKUPP.
    LookupParent,
    /// READDIR.
    ReadDir(DirPage),
    /// READ.
    Read(ReadReply),
    /// WRITE.
    Write(WriteReply),
    /// COMMIT.
    Commit(CommitReply),
    /// OPEN.
    Open(OpenReply),
    /// OPEN_CONFIRM: the confirmed stateid.
    OpenConfirm(Stateid),
    /// CLOSE: the closed stateid.
    Close(Stateid),
    /// LOCK: the lock stateid.
    Lock(Stateid),
    /// LOCKU: the lock stateid.
    Locku(Stateid),
    /// RENEW.
    Renew,
    /// SETCLIENTID.
    SetClientId {
        /// Client id assigned.
        client_id: ClientId,
        /// Verifier to confirm with.
        confirm: Verifier,
    },
    /// SETCLIENTID_CONFIRM.
    SetClientIdConfirm,
    /// SAVEFH.
    SaveFh,
    /// REMOVE.
    Remove(ChangeInfo),
    /// RENAME.
    Rename {
        /// The source directory's change.
        source: ChangeInfo,
        /// The target directory's change.
        target: ChangeInfo,
    },
    /// CREATE.
    Create {
        /// The directory's change.
        info: ChangeInfo,
        /// The attributes that were set.
        attrset: AttrMask,
    },
    /// SETATTR: the attributes that were set.
    SetAttr(AttrMask),
}

/// The content of an [`OpReply`].
pub enum ReplyView {
    /// PUTROOTFH.
    PutRootFh,
    /// PUTFH.
    PutFh,
    /// GETFH.
    GetFh(Seq<u8>),
    /// GETATTR.
    GetAttr(AttributesView),
    /// LOOKUP.
    Lookup,
    /// LOOKUPP.
    LookupParent,
    /// READDIR.
    ReadDir(DirPageView),
    /// READ.
    Read(ReadReplyView),
    /// WRITE.
    Write(WriteReply),
    /// COMMIT.
    Commit(CommitReply),
    /// OPEN.
    Open(OpenReply),
    /// OPEN_CONFIRM.
    OpenConfirm(Stateid),
    /// CLOSE.
    Close(Stateid),
    /// LOCK.
    Lock(Stateid),
    /// LOCKU.
    Locku(Stateid),
    /// RENEW.
    Renew,
    /// SETCLIENTID.
    SetClientId {
        /// Client id assigned.
        client_id: ClientId,
        /// Verifier to confirm with.
        confirm: Verifier,
    },
    /// SETCLIENTID_CONFIRM.
    SetClientIdConfirm,
    /// SAVEFH.
    SaveFh,
    /// REMOVE.
    Remove(ChangeInfo),
    /// RENAME.
    Rename {
        /// The source directory's change.
        source: ChangeInfo,
        /// The target directory's change.
        target: ChangeInfo,
    },
    /// CREATE.
    Create {
        /// The directory's change.
        info: ChangeInfo,
        /// The attributes that were set.
        attrset: AttrMask,
    },
    /// SETATTR.
    SetAttr(AttrMask),
}

impl View for OpReply {
    type V = ReplyView;

    open spec fn view(&self) -> ReplyView {
        match *self {
            OpReply::PutRootFh => ReplyView::PutRootFh,
            OpReply::PutFh => ReplyView::PutFh,
            OpReply::GetFh(handle) => ReplyView::GetFh(handle@),
            OpReply::GetAttr(attributes) => ReplyView::GetAttr(attributes@),
            OpReply::Lookup => ReplyView::Lookup,
            OpReply::LookupParent => ReplyView::LookupParent,
            OpReply::ReadDir(page) => ReplyView::ReadDir(page@),
            OpReply::Read(reply) => ReplyView::Read(reply@),
            OpReply::Write(reply) => ReplyView::Write(reply),
            OpReply::Commit(reply) => ReplyView::Commit(reply),
            OpReply::Open(reply) => ReplyView::Open(reply),
            OpReply::OpenConfirm(stateid) => ReplyView::OpenConfirm(stateid),
            OpReply::Close(stateid) => ReplyView::Close(stateid),
            OpReply::Lock(stateid) => ReplyView::Lock(stateid),
            OpReply::Locku(stateid) => ReplyView::Locku(stateid),
            OpReply::Renew => ReplyView::Renew,
            OpReply::SetClientId { client_id, confirm } => ReplyView::SetClientId {
                client_id,
                confirm,
            },
            OpReply::SetClientIdConfirm => ReplyView::SetClientIdConfirm,
            OpReply::SaveFh => ReplyView::SaveFh,
            OpReply::Remove(info) => ReplyView::Remove(info),
            OpReply::Rename { source, target } => ReplyView::Rename { source, target },
            OpReply::Create { info, attrset } => ReplyView::Create { info, attrset },
            OpReply::SetAttr(attrset) => ReplyView::SetAttr(attrset),
        }
    }
}

/// A COMPOUND: a tag and operations applied in order.
#[derive(Debug, PartialEq, Eq)]
pub struct Compound {
    /// Tag the reply echoes.
    pub tag: String,
    /// The operations.
    pub ops: Vec<Nfs4Op>,
}

/// The content of a [`Compound`].
#[verifier::ext_equal]
pub struct CompoundView {
    /// Tag the reply echoes.
    pub tag: Seq<char>,
    /// The operations.
    pub ops: Seq<OpView>,
}

impl View for Compound {
    type V = CompoundView;

    open spec fn view(&self) -> CompoundView {
        CompoundView { tag: self.tag@, ops: seq_view(self.ops@) }
    }
}

impl Compound {
    /// A COMPOUND of `ops` under `tag`.
    pub fn new(tag: &str, ops: Vec<Nfs4Op>) -> (r: Self)
        ensures
            r@ == (CompoundView { tag: tag@, ops: seq_view(ops@) }),
    {
        Compound { tag: tag.to_owned(), ops }
    }
}

/// A COMPOUND's reply: one result for each operation that succeeded, and the
/// failure that stopped it, if one did.
#[derive(Debug, PartialEq, Eq)]
pub struct CompoundReply {
    /// Echoed tag.
    pub tag: String,
    /// Results of the operations that succeeded, in order.
    pub results: Vec<OpReply>,
    /// The failure of the operation after those.
    pub failure: Option<ProtocolError>,
}

/// The content of a [`CompoundReply`].
#[verifier::ext_equal]
pub struct CompoundReplyView {
    /// Echoed tag.
    pub tag: Seq<char>,
    /// Results of the operations that succeeded, in order.
    pub results: Seq<ReplyView>,
    /// The failure of the operation after those.
    pub failure: Option<ProtocolError>,
}

impl View for CompoundReply {
    type V = CompoundReplyView;

    open spec fn view(&self) -> CompoundReplyView {
        CompoundReplyView {
            tag: self.tag@,
            results: seq_view(self.results@),
            failure: self.failure,
        }
    }
}

/// The reply of operation `index`: its result when it succeeded, the failure that
/// stopped the COMPOUND otherwise.
pub open spec fn reply_at(reply: CompoundReplyView, index: nat) -> Result<
    ReplyView,
    FacadeErrorView,
> {
    if index < reply.results.len() {
        Ok(reply.results[index as int])
    } else {
        match reply.failure {
            Some(failure) => Err(FacadeErrorView::Protocol(failure)),
            None => Err(malformed("the reply holds no result at position "@ + decimal(index))),
        }
    }
}

impl CompoundReply {
    /// The reply of operation `index`, or the failure that stopped the COMPOUND.
    pub fn expect(&self, index: usize) -> (r: FacadeResult<&OpReply>)
        ensures
            match reply_at(self@, index as nat) {
                Ok(reply) => r matches Ok(found) && found@ == reply,
                Err(error) => r matches Err(e) && e@ == error,
            },
    {
        if index < self.results.len() {
            proof {
                assert(seq_view(self.results@)[index as int] == self.results@[index as int]@);
            }
            return Ok(&self.results[index]);
        }
        match self.failure {
            Some(failure) => Err(FacadeError::Protocol(failure)),
            None => Err(
                malformed_error(
                    join(
                        "the reply holds no result at position ",
                        decimal_text(index as u64).as_str(),
                    ).as_str(),
                ),
            ),
        }
    }
}

/// The failure of a reply that answers another operation.
pub open spec fn wrong_shape(expected: OpCode, actual: OpCode) -> FacadeErrorView {
    malformed("expected a "@ + expected.name() + " reply, got "@ + actual.name())
}

/// The failure of a reply that answers another operation.
pub fn shape(expected: OpCode, actual: OpCode) -> (r: FacadeError)
    ensures
        r@ == wrong_shape(expected, actual),
{
    malformed_error(
        join3("expected a ", expected.label(), " reply, got ").concat(actual.label()).as_str(),
    )
}

impl CompoundReply {
    /// The reply of operation `index`, taken out of this one.
    pub fn take(self, index: usize) -> (r: FacadeResult<OpReply>)
        ensures
            res_view(r) == reply_at(self@, index as nat),
    {
        let mut results = self.results;
        if index < results.len() {
            proof {
                assert(seq_view(self.results@)[index as int] == self.results@[index as int]@);
            }
            return Ok(results.remove(index));
        }
        match self.failure {
            Some(failure) => Err(FacadeError::Protocol(failure)),
            None => Err(
                malformed_error(
                    join(
                        "the reply holds no result at position ",
                        decimal_text(index as u64).as_str(),
                    ).as_str(),
                ),
            ),
        }
    }

    /// The filehandle GETFH returned at `index`.
    pub fn handle_at(&self, index: usize) -> (r: FacadeResult<FileHandle>)
        ensures
            res_view(r) == handle_at(self@, index as nat),
    {
        match self.expect(index) {
            Err(error) => Err(error),
            Ok(OpReply::GetFh(handle)) => Ok(handle.clone()),
            Ok(other) => Err(shape(OpCode::GetFh, other.opcode())),
        }
    }

    /// The attributes GETATTR returned at `index`.
    pub fn attributes_at(&self, index: usize) -> (r: FacadeResult<Attributes>)
        ensures
            res_view(r) == attributes_at(self@, index as nat),
    {
        match self.expect(index) {
            Err(error) => Err(error),
            Ok(OpReply::GetAttr(attributes)) => Ok(attributes.clone()),
            Ok(other) => Err(shape(OpCode::GetAttr, other.opcode())),
        }
    }
}

/// The filehandle GETFH returned at `index`.
pub open spec fn handle_at(reply: CompoundReplyView, index: nat) -> Result<
    Seq<u8>,
    FacadeErrorView,
> {
    match reply_at(reply, index) {
        Err(error) => Err(error),
        Ok(ReplyView::GetFh(handle)) => Ok(handle),
        Ok(other) => Err(wrong_shape(OpCode::GetFh, reply_code(other))),
    }
}

/// The attributes GETATTR returned at `index`.
pub open spec fn attributes_at(reply: CompoundReplyView, index: nat) -> Result<
    AttributesView,
    FacadeErrorView,
> {
    match reply_at(reply, index) {
        Err(error) => Err(error),
        Ok(ReplyView::GetAttr(attributes)) => Ok(attributes),
        Ok(other) => Err(wrong_shape(OpCode::GetAttr, reply_code(other))),
    }
}

/// What a transport answers to one COMPOUND.
pub type Answer = Result<CompoundReplyView, TransportErrorView>;

/// `PUTROOTFH; GETFH`.
pub open spec fn root_call() -> CompoundView {
    CompoundView { tag: "root"@, ops: seq![OpView::PutRootFh, OpView::GetFh] }
}

/// What the answer to [`root_call`] says.
pub open spec fn root_answer(answer: Answer) -> Result<Seq<u8>, FacadeErrorView> {
    match answer {
        Err(error) => Err(FacadeErrorView::Transport(error)),
        Ok(reply) => handle_at(reply, 1),
    }
}

/// `PUTFH; LOOKUP; GETFH; GETATTR`.
pub open spec fn lookup_call(parent: Seq<u8>, name: Seq<u8>, attrs: AttrMask) -> CompoundView {
    CompoundView {
        tag: "lookup"@,
        ops: seq![OpView::PutFh(parent), OpView::Lookup(name), OpView::GetFh, OpView::GetAttr(
            attrs,
        )],
    }
}

/// What the answer to [`lookup_call`] says: the child and its attributes.
pub open spec fn lookup_answer(answer: Answer) -> Result<
    (Seq<u8>, AttributesView),
    FacadeErrorView,
> {
    match answer {
        Err(error) => Err(FacadeErrorView::Transport(error)),
        Ok(reply) => match handle_at(reply, 2) {
            Err(error) => Err(error),
            Ok(handle) => match attributes_at(reply, 3) {
                Err(error) => Err(error),
                Ok(attributes) => Ok((handle, attributes)),
            },
        },
    }
}

/// `PUTFH; GETATTR`.
pub open spec fn getattr_call(handle: Seq<u8>, attrs: AttrMask) -> CompoundView {
    CompoundView { tag: "getattr"@, ops: seq![OpView::PutFh(handle), OpView::GetAttr(attrs)] }
}

/// What the answer to [`getattr_call`] says.
pub open spec fn getattr_answer(answer: Answer) -> Result<AttributesView, FacadeErrorView> {
    match answer {
        Err(error) => Err(FacadeErrorView::Transport(error)),
        Ok(reply) => attributes_at(reply, 1),
    }
}

/// `PUTFH; READ`.
pub open spec fn read_call(
    handle: Seq<u8>,
    stateid: Stateid,
    offset: u64,
    count: u32,
) -> CompoundView {
    CompoundView {
        tag: READ_TAG@,
        ops: seq![OpView::PutFh(handle), OpView::Read { stateid, offset, count }],
    }
}

/// What the answer to [`read_call`] says.
pub open spec fn read_answer(answer: Answer) -> Result<ReadReplyView, FacadeErrorView> {
    match answer {
        Err(error) => Err(FacadeErrorView::Transport(error)),
        Ok(reply) => match reply_at(reply, 1) {
            Err(error) => Err(error),
            Ok(ReplyView::Read(read)) => Ok(read),
            Ok(other) => Err(wrong_shape(OpCode::Read, reply_code(other))),
        },
    }
}

/// `PUTFH; WRITE`.
pub open spec fn write_call(
    handle: Seq<u8>,
    stateid: Stateid,
    offset: u64,
    stability: Stability,
    data: Seq<u8>,
) -> CompoundView {
    CompoundView {
        tag: "write"@,
        ops: seq![
            OpView::PutFh(handle),
            OpView::Write { stateid, offset, stability, data },
        ],
    }
}

/// What the answer to [`write_call`] says.
pub open spec fn write_answer(answer: Answer) -> Result<WriteReply, FacadeErrorView> {
    match answer {
        Err(error) => Err(FacadeErrorView::Transport(error)),
        Ok(reply) => match reply_at(reply, 1) {
            Err(error) => Err(error),
            Ok(ReplyView::Write(write)) => Ok(write),
            Ok(other) => Err(wrong_shape(OpCode::Write, reply_code(other))),
        },
    }
}

/// `PUTFH; COMMIT`.
pub open spec fn commit_call(handle: Seq<u8>, offset: u64, count: u32) -> CompoundView {
    CompoundView {
        tag: "commit"@,
        ops: seq![OpView::PutFh(handle), OpView::Commit { offset, count }],
    }
}

/// What the answer to [`commit_call`] says.
pub open spec fn commit_answer(answer: Answer) -> Result<CommitReply, FacadeErrorView> {
    match answer {
        Err(error) => Err(FacadeErrorView::Transport(error)),
        Ok(reply) => match reply_at(reply, 1) {
            Err(error) => Err(error),
            Ok(ReplyView::Commit(commit)) => Ok(commit),
            Ok(other) => Err(wrong_shape(OpCode::Commit, reply_code(other))),
        },
    }
}

/// `PUTFH; READDIR`.
pub open spec fn readdir_call(handle: Seq<u8>, request: ReadDirRequest) -> CompoundView {
    CompoundView { tag: "readdir"@, ops: seq![OpView::PutFh(handle), OpView::ReadDir(request)] }
}

/// What the answer to [`readdir_call`] says.
pub open spec fn readdir_answer(answer: Answer) -> Result<DirPageView, FacadeErrorView> {
    match answer {
        Err(error) => Err(FacadeErrorView::Transport(error)),
        Ok(reply) => match reply_at(reply, 1) {
            Err(error) => Err(error),
            Ok(ReplyView::ReadDir(page)) => Ok(page),
            Ok(other) => Err(wrong_shape(OpCode::ReadDir, reply_code(other))),
        },
    }
}

/// `PUTFH; OPEN; GETFH`.
pub open spec fn open_call(parent: Seq<u8>, args: OpenArgsView) -> CompoundView {
    CompoundView {
        tag: "open"@,
        ops: seq![OpView::PutFh(parent), OpView::Open(args), OpView::GetFh],
    }
}

/// What the answer to [`open_call`] says: the open and its filehandle.
pub open spec fn open_answer(answer: Answer) -> Result<(OpenReply, Seq<u8>), FacadeErrorView> {
    match answer {
        Err(error) => Err(FacadeErrorView::Transport(error)),
        Ok(reply) => match reply_at(reply, 1) {
            Err(error) => Err(error),
            Ok(ReplyView::Open(open)) => match handle_at(reply, 2) {
                Err(error) => Err(error),
                Ok(handle) => Ok((open, handle)),
            },
            Ok(other) => Err(wrong_shape(OpCode::Open, reply_code(other))),
        },
    }
}

/// A connection that carries COMPOUNDs.
///
/// `world` stands for everything that decides an answer. `answer` and `after` say
/// what one COMPOUND is answered and which world follows it. An implementation
/// over a network leaves both abstract; the in-memory one defines them.
pub trait RawTransport: Sized {
    /// Everything that decides what this transport answers.
    type World;

    /// The present world.
    spec fn world(&self) -> Self::World;

    /// What `world` answers to `call`.
    spec fn answer(world: Self::World, call: CompoundView, deadline: Deadline) -> Answer;

    /// The world after `call` was answered.
    spec fn after(world: Self::World, call: CompoundView, deadline: Deadline) -> Self::World;

    /// The bounds in force.
    spec fn limits_of(world: Self::World) -> TransportLimits;

    /// The connection's state.
    spec fn connection_of(world: Self::World) -> ConnectionState;

    /// What the implementation claims of its acknowledgements.
    spec fn boundary_of(world: Self::World) -> PersistenceBoundary;

    /// What reconnecting yields.
    spec fn reconnect_answer(world: Self::World) -> Result<ConnectionEpoch, TransportErrorView>;

    /// The world after reconnecting.
    spec fn after_reconnect(world: Self::World) -> Self::World;

    /// The profile spoken.
    fn wire_profile(&self) -> WireProfile;

    /// The bounds in force.
    fn limits(&self) -> (r: TransportLimits)
        ensures
            r == Self::limits_of(self.world()),
    ;

    /// The connection's state.
    fn connection(&self) -> (r: ConnectionState)
        ensures
            r == Self::connection_of(self.world()),
    ;

    /// Whether acknowledgements come from a remote server.
    fn persistence_boundary(&self) -> (r: PersistenceBoundary)
        ensures
            r == Self::boundary_of(self.world()),
    ;

    /// Carry one COMPOUND and hand back its reply.
    fn submit(&mut self, call: Compound, deadline: Deadline) -> (r: TransportResult<CompoundReply>)
        ensures
            res_view(r) == Self::answer(old(self).world(), call@, deadline),
            final(self).world() == Self::after(old(self).world(), call@, deadline),
    ;

    /// Withdraw one call.
    fn cancel(&mut self, token: CallToken) -> (r: TransportResult<Retirement>);

    /// Force a fresh connection generation.
    fn reconnect(&mut self) -> (r: TransportResult<ConnectionEpoch>)
        ensures
            match Self::reconnect_answer(old(self).world()) {
                Ok(epoch) => r == Ok::<ConnectionEpoch, TransportError>(epoch),
                Err(error) => r matches Err(e) && e@ == error,
            },
            final(self).world() == Self::after_reconnect(old(self).world()),
    ;

    /// Install a fault plan.
    fn install_faults(&mut self, plan: Box<ScriptedFault>);

    /// Read the export root filehandle.
    fn root_filehandle(&mut self, deadline: Deadline) -> (r: FacadeResult<FileHandle>)
        ensures
            res_view(r) == root_answer(Self::answer(old(self).world(), root_call(), deadline)),
            final(self).world() == Self::after(old(self).world(), root_call(), deadline),
    {
        let call = Compound::new("root", vec![Nfs4Op::PutRootFh, Nfs4Op::GetFh]);
        proof {
            assert(call@ =~= root_call());
        }
        match self.submit(call, deadline) {
            Err(error) => Err(FacadeError::Transport(error)),
            Ok(reply) => reply.handle_at(1),
        }
    }

    /// Resolve one name.
    fn lookup(
        &mut self,
        parent: &FileHandle,
        name: &ComponentName,
        attrs: AttrMask,
        deadline: Deadline,
    ) -> (r: FacadeResult<(FileHandle, Attributes)>)
        ensures
            res_view(r) == lookup_answer(
                Self::answer(old(self).world(), lookup_call(parent@, name@, attrs), deadline),
            ),
            final(self).world() == Self::after(
                old(self).world(),
                lookup_call(parent@, name@, attrs),
                deadline,
            ),
    {
        let call = Compound::new(
            "lookup",
            vec![
                Nfs4Op::PutFh(parent.clone()),
                Nfs4Op::Lookup(name.clone()),
                Nfs4Op::GetFh,
                Nfs4Op::GetAttr(attrs),
            ],
        );
        proof {
            assert(call@ =~= lookup_call(parent@, name@, attrs));
        }
        match self.submit(call, deadline) {
            Err(error) => Err(FacadeError::Transport(error)),
            Ok(reply) => match reply.handle_at(2) {
                Err(error) => Err(error),
                Ok(handle) => match reply.attributes_at(3) {
                    Err(error) => Err(error),
                    Ok(attributes) => Ok((handle, attributes)),
                },
            },
        }
    }

    /// Read one object's attributes.
    fn getattr(&mut self, handle: &FileHandle, attrs: AttrMask, deadline: Deadline) -> (r:
        FacadeResult<Attributes>)
        ensures
            res_view(r) == getattr_answer(
                Self::answer(old(self).world(), getattr_call(handle@, attrs), deadline),
            ),
            final(self).world() == Self::after(
                old(self).world(),
                getattr_call(handle@, attrs),
                deadline,
            ),
    {
        let call = Compound::new(
            "getattr",
            vec![Nfs4Op::PutFh(handle.clone()), Nfs4Op::GetAttr(attrs)],
        );
        proof {
            assert(call@ =~= getattr_call(handle@, attrs));
        }
        match self.submit(call, deadline) {
            Err(error) => Err(FacadeError::Transport(error)),
            Ok(reply) => reply.attributes_at(1),
        }
    }

    /// Read from one object.
    fn read(
        &mut self,
        handle: &FileHandle,
        stateid: Stateid,
        offset: u64,
        count: u32,
        deadline: Deadline,
    ) -> (r: FacadeResult<ReadReply>)
        ensures
            res_view(r) == read_answer(
                Self::answer(
                    old(self).world(),
                    read_call(handle@, stateid, offset, count),
                    deadline,
                ),
            ),
            final(self).world() == Self::after(
                old(self).world(),
                read_call(handle@, stateid, offset, count),
                deadline,
            ),
    {
        let call = Compound::new(
            READ_TAG,
            vec![Nfs4Op::PutFh(handle.clone()), Nfs4Op::Read { stateid, offset, count }],
        );
        proof {
            assert(call@ =~= read_call(handle@, stateid, offset, count));
        }
        match self.submit(call, deadline) {
            Err(error) => Err(FacadeError::Transport(error)),
            Ok(reply) => match reply.take(1) {
                Err(error) => Err(error),
                Ok(OpReply::Read(read)) => Ok(read),
                Ok(other) => Err(shape(OpCode::Read, other.opcode())),
            },
        }
    }

    /// Write to one object.
    fn write(
        &mut self,
        handle: &FileHandle,
        stateid: Stateid,
        offset: u64,
        stability: Stability,
        data: Vec<u8>,
        deadline: Deadline,
    ) -> (r: FacadeResult<WriteReply>)
        ensures
            res_view(r) == write_answer(
                Self::answer(
                    old(self).world(),
                    write_call(handle@, stateid, offset, stability, data@),
                    deadline,
                ),
            ),
            final(self).world() == Self::after(
                old(self).world(),
                write_call(handle@, stateid, offset, stability, data@),
                deadline,
            ),
    {
        let ghost bytes = data@;
        let call = Compound::new(
            "write",
            vec![
                Nfs4Op::PutFh(handle.clone()),
                Nfs4Op::Write { stateid, offset, stability, data },
            ],
        );
        proof {
            assert(call@ =~= write_call(handle@, stateid, offset, stability, bytes));
        }
        match self.submit(call, deadline) {
            Err(error) => Err(FacadeError::Transport(error)),
            Ok(reply) => match reply.take(1) {
                Err(error) => Err(error),
                Ok(OpReply::Write(write)) => Ok(write),
                Ok(other) => Err(shape(OpCode::Write, other.opcode())),
            },
        }
    }

    /// Commit a range of one object.
    fn commit(&mut self, handle: &FileHandle, offset: u64, count: u32, deadline: Deadline) -> (r:
        FacadeResult<CommitReply>)
        ensures
            res_view(r) == commit_answer(
                Self::answer(old(self).world(), commit_call(handle@, offset, count), deadline),
            ),
            final(self).world() == Self::after(
                old(self).world(),
                commit_call(handle@, offset, count),
                deadline,
            ),
    {
        let call = Compound::new(
            "commit",
            vec![Nfs4Op::PutFh(handle.clone()), Nfs4Op::Commit { offset, count }],
        );
        proof {
            assert(call@ =~= commit_call(handle@, offset, count));
        }
        match self.submit(call, deadline) {
            Err(error) => Err(FacadeError::Transport(error)),
            Ok(reply) => match reply.take(1) {
                Err(error) => Err(error),
                Ok(OpReply::Commit(commit)) => Ok(commit),
                Ok(other) => Err(shape(OpCode::Commit, other.opcode())),
            },
        }
    }

    /// Read one server page of a directory.
    fn readdir(&mut self, handle: &FileHandle, request: ReadDirRequest, deadline: Deadline) -> (r:
        FacadeResult<DirPage>)
        ensures
            res_view(r) == readdir_answer(
                Self::answer(old(self).world(), readdir_call(handle@, request), deadline),
            ),
            final(self).world() == Self::after(
                old(self).world(),
                readdir_call(handle@, request),
                deadline,
            ),
    {
        let call = Compound::new(
            "readdir",
            vec![Nfs4Op::PutFh(handle.clone()), Nfs4Op::ReadDir(request)],
        );
        proof {
            assert(call@ =~= readdir_call(handle@, request));
        }
        match self.submit(call, deadline) {
            Err(error) => Err(FacadeError::Transport(error)),
            Ok(reply) => match reply.take(1) {
                Err(error) => Err(error),
                Ok(OpReply::ReadDir(page)) => Ok(page),
                Ok(other) => Err(shape(OpCode::ReadDir, other.opcode())),
            },
        }
    }

    /// Open one name.
    fn open(&mut self, parent: &FileHandle, args: OpenArgs, deadline: Deadline) -> (r: FacadeResult<
        (OpenReply, FileHandle),
    >)
        ensures
            res_view(r) == open_answer(
                Self::answer(old(self).world(), open_call(parent@, args@), deadline),
            ),
            final(self).world() == Self::after(
                old(self).world(),
                open_call(parent@, args@),
                deadline,
            ),
    {
        let ghost asked = args@;
        let call = Compound::new(
            "open",
            vec![Nfs4Op::PutFh(parent.clone()), Nfs4Op::Open(args), Nfs4Op::GetFh],
        );
        proof {
            assert(call@ =~= open_call(parent@, asked));
        }
        match self.submit(call, deadline) {
            Err(error) => Err(FacadeError::Transport(error)),
            Ok(reply) => match reply.expect(1) {
                Err(error) => Err(error),
                Ok(OpReply::Open(open)) => match reply.handle_at(2) {
                    Err(error) => Err(error),
                    Ok(handle) => Ok((*open, handle)),
                },
                Ok(other) => Err(shape(OpCode::Open, other.opcode())),
            },
        }
    }
}

} // verus!
