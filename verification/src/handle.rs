//! Byte-owned filehandles, sessions and encapsulated open state.
//!
//! A [`FileHandle`] owns its bytes. An [`OpenFile`] holds an `Arc` of the session
//! core it was minted under, so the core outlives all open state. Whether a
//! session is still open is a property of the [`Session`] value: every use of
//! open state presents the session, and a closed one makes that use fail.
//!
//! NFSv4.0 owner sequence numbers admit exactly one outstanding sequenced
//! operation per owner, and RFC 7530 section 9.1.7 decides whether a failure
//! advances the seqid. [`OpenFile::sequence`] hands out a [`SequencedOp`] that
//! borrows the open file exclusively and leaves its sequence unusable until the
//! operation is resolved, so abandoning the guard cannot silently desynchronise
//! the owner.
use std::sync::Arc;
use vstd::prelude::*;

use crate::bytes::{copy_bytes, same_bytes};
use crate::contract::res_view;
use crate::error::{
    seqid_is_held, unproven, unproven_error, FacadeErrorView, FacadeResult, Nfs4Status,
};
use crate::text::{decimal, decimal_text, join3};
use crate::transport::{ConnectionEpoch, Fsid, ShareAccess, ShareDeny};

verus! {

/// Server-assigned client id from SETCLIENTID.
#[derive(Clone, Copy, Debug, PartialEq, Eq, Hash, PartialOrd, Ord, Structural)]
pub struct ClientId(pub u64);

/// NFSv4 `stateid4`: a sequence number plus twelve opaque bytes.
#[derive(Clone, Copy, Debug, PartialEq, Eq, Hash)]
pub struct Stateid {
    /// Stateid sequence number, advanced by the server.
    pub seqid: u32,
    /// Opaque server-owned identity. Never interpreted.
    pub other: [u8; 12],
}

/// The all-zero special stateid.
pub open spec fn anonymous() -> Stateid {
    Stateid { seqid: 0, other: [0u8, 0u8, 0u8, 0u8, 0u8, 0u8, 0u8, 0u8, 0u8, 0u8, 0u8, 0u8] }
}

impl Stateid {
    /// The all-zero special stateid, valid for anonymous reads.
    pub fn anonymous() -> (r: Self)
        ensures
            r == anonymous(),
    {
        Stateid { seqid: 0, other: [0u8, 0u8, 0u8, 0u8, 0u8, 0u8, 0u8, 0u8, 0u8, 0u8, 0u8, 0u8] }
    }

    /// Whether this is the all-zero special stateid.
    pub fn is_anonymous(&self) -> (r: bool)
        ensures
            r == (*self == anonymous()),
    {
        if self.seqid != 0 {
            return false;
        }
        let mut i: usize = 0;
        while i < 12
            invariant
                i <= 12,
                forall|j: int| 0 <= j < i ==> self.other@[j] == 0,
            decreases 12 - i,
        {
            if self.other[i] != 0 {
                proof {
                    assert(anonymous().other@[i as int] == 0);
                }
                return false;
            }
            i += 1;
        }
        proof {
            assert(self.other@ =~= [0u8, 0u8, 0u8, 0u8, 0u8, 0u8, 0u8, 0u8, 0u8, 0u8, 0u8, 0u8]@);
            assert(self.other =~= [0u8, 0u8, 0u8, 0u8, 0u8, 0u8, 0u8, 0u8, 0u8, 0u8, 0u8, 0u8]);
        }
        true
    }
}

/// NFSv4.0 caps a filehandle at this many bytes.
pub const MAX_FILEHANDLE_BYTES: usize = 128;

/// A byte-owned NFSv4 filehandle.
#[derive(Debug, PartialEq, Eq, Hash, PartialOrd, Ord)]
pub struct FileHandle {
    bytes: Vec<u8>,
}

impl View for FileHandle {
    type V = Seq<u8>;

    closed spec fn view(&self) -> Seq<u8> {
        self.bytes@
    }
}

impl Clone for FileHandle {
    fn clone(&self) -> (r: Self)
        ensures
            r@ == self@,
    {
        proof {
            use_type_invariant(self);
        }
        FileHandle { bytes: copy_bytes(self.bytes.as_slice()) }
    }
}

/// What adopting `bytes` as a filehandle yields.
pub open spec fn adopt_handle(bytes: Seq<u8>) -> Result<Seq<u8>, FacadeErrorView> {
    if 0 < bytes.len() <= MAX_FILEHANDLE_BYTES {
        Ok(bytes)
    } else {
        Err(unproven("filehandle of "@ + decimal(bytes.len()) + " bytes is out of range"@))
    }
}

impl FileHandle {
    /// No filehandle is empty, and none is longer than the protocol carries.
    #[verifier::type_invariant]
    closed spec fn in_range(&self) -> bool {
        1 <= self.bytes@.len() <= MAX_FILEHANDLE_BYTES
    }

    /// Adopt filehandle bytes returned by a server.
    pub fn from_wire(bytes: Vec<u8>) -> (r: FacadeResult<Self>)
        ensures
            res_view(r) == adopt_handle(bytes@),
    {
        if bytes.len() == 0 || bytes.len() > MAX_FILEHANDLE_BYTES {
            return Err(
                unproven_error(
                    join3(
                        "filehandle of ",
                        decimal_text(bytes.len() as u64).as_str(),
                        " bytes is out of range",
                    ).as_str(),
                ),
            );
        }
        Ok(FileHandle { bytes })
    }

    /// Adopt filehandle bytes whose length is already known to be in range.
    pub(crate) fn adopt(bytes: Vec<u8>) -> (r: Self)
        requires
            0 < bytes@.len() <= MAX_FILEHANDLE_BYTES,
        ensures
            r@ == bytes@,
    {
        FileHandle { bytes }
    }

    /// Borrow the exact bytes.
    pub fn as_bytes(&self) -> (r: &[u8])
        ensures
            r@ == self@,
            1 <= r@.len() <= MAX_FILEHANDLE_BYTES,
    {
        proof {
            use_type_invariant(self);
        }
        self.bytes.as_slice()
    }

    /// Length in bytes.
    pub fn len(&self) -> (r: usize)
        ensures
            r == self@.len(),
            1 <= r <= MAX_FILEHANDLE_BYTES,
    {
        proof {
            use_type_invariant(self);
        }
        self.bytes.len()
    }

    /// Whether the filehandle has no bytes, which none has.
    pub fn is_empty(&self) -> (r: bool)
        ensures
            r == (self@.len() == 0),
            !r,
    {
        proof {
            use_type_invariant(self);
        }
        self.bytes.len() == 0
    }

    /// Whether two filehandles hold the same bytes.
    pub fn same(&self, other: &FileHandle) -> (r: bool)
        ensures
            r == (self@ == other@),
    {
        same_bytes(self.bytes.as_slice(), other.bytes.as_slice())
    }
}

/// Stable object identity: `(fsid, fileid)`, never the filehandle bytes.
///
/// Rename keeps an object's identity; replacing a name produces a different one,
/// which is how a replaced object is detected instead of assumed.
#[derive(Clone, Copy, Debug, PartialEq, Eq, Hash, PartialOrd, Ord, Structural)]
pub struct ObjectIdentity {
    /// Server file system identity.
    pub fsid: Fsid,
    /// Server file identity within that file system.
    pub fileid: u64,
}

impl View for ObjectIdentity {
    type V = ObjectIdentity;

    open spec fn view(&self) -> ObjectIdentity {
        *self
    }
}

/// How a diagnostic renders an identity.
pub open spec fn identity_text(identity: ObjectIdentity) -> Seq<char> {
    "ObjectIdentity { fsid: Fsid { major: "@ + decimal(identity.fsid.major as nat) + ", minor: "@
        + decimal(identity.fsid.minor as nat) + " }, fileid: "@ + decimal(
        identity.fileid as nat,
    ) + " }"@
}

impl ObjectIdentity {
    /// How a diagnostic renders this identity.
    pub fn text(&self) -> (r: String)
        ensures
            r@ == identity_text(*self),
    {
        join3(
            "ObjectIdentity { fsid: Fsid { major: ",
            decimal_text(self.fsid.major).as_str(),
            ", minor: ",
        ).concat(decimal_text(self.fsid.minor).as_str()).concat(" }, fileid: ").concat(
            decimal_text(self.fileid).as_str(),
        ).concat(" }")
    }
}

/// Open-owner: the client id it is scoped to plus its opaque owner bytes.
#[derive(Debug, PartialEq, Eq, Hash)]
pub struct OpenOwner {
    client_id: ClientId,
    owner: Vec<u8>,
}

/// The content of an [`OpenOwner`].
pub struct OpenOwnerView {
    /// Client id the owner is scoped to.
    pub client_id: ClientId,
    /// Opaque owner bytes.
    pub owner: Seq<u8>,
}

impl View for OpenOwner {
    type V = OpenOwnerView;

    closed spec fn view(&self) -> OpenOwnerView {
        OpenOwnerView { client_id: self.client_id, owner: self.owner@ }
    }
}

impl Clone for OpenOwner {
    fn clone(&self) -> (r: Self)
        ensures
            r@ == self@,
    {
        OpenOwner { client_id: self.client_id, owner: copy_bytes(self.owner.as_slice()) }
    }
}

impl OpenOwner {
    /// Mint an open owner. Crate-private, so owners come from a session.
    pub(crate) fn new(client_id: ClientId, owner: Vec<u8>) -> (r: Self)
        ensures
            r@ == (OpenOwnerView { client_id, owner: owner@ }),
    {
        OpenOwner { client_id, owner }
    }

    /// Client id this owner belongs to.
    pub fn client_id(&self) -> (r: ClientId)
        ensures
            r == self@.client_id,
    {
        self.client_id
    }

    /// Opaque owner bytes.
    pub fn as_bytes(&self) -> (r: &[u8])
        ensures
            r@ == self@.owner,
    {
        self.owner.as_slice()
    }
}

/// Identity of one facade session, distinguishing successive incarnations.
#[derive(Clone, Copy, Debug, PartialEq, Eq, Hash, PartialOrd, Ord, Structural)]
pub struct SessionId(pub u64);

/// The shared core of a facade session.
///
/// Every [`OpenFile`] holds an `Arc` of this, so the core outlives all open state
/// by construction.
#[derive(Debug, PartialEq, Eq, Structural)]
pub struct SessionCore {
    id: SessionId,
    client_id: ClientId,
    epoch: ConnectionEpoch,
}

/// The content of a [`SessionCore`].
pub struct SessionCoreView {
    /// Session identity.
    pub id: SessionId,
    /// Client id the session established.
    pub client_id: ClientId,
    /// Connection generation the session was established on.
    pub epoch: ConnectionEpoch,
}

impl View for SessionCore {
    type V = SessionCoreView;

    closed spec fn view(&self) -> SessionCoreView {
        SessionCoreView { id: self.id, client_id: self.client_id, epoch: self.epoch }
    }
}

impl SessionCore {
    /// Build a session core.
    pub(crate) fn new(id: SessionId, client_id: ClientId, epoch: ConnectionEpoch) -> (r: Arc<Self>)
        ensures
            r@ == (SessionCoreView { id, client_id, epoch }),
    {
        Arc::new(SessionCore { id, client_id, epoch })
    }

    /// Whether two cores name the same session.
    pub fn same(&self, other: &SessionCore) -> (r: bool)
        ensures
            r == (self@ == other@),
    {
        self.id == other.id && self.client_id == other.client_id && self.epoch == other.epoch
    }

    /// Session identity.
    pub fn id(&self) -> (r: SessionId)
        ensures
            r == self@.id,
    {
        self.id
    }

    /// Client id this session established.
    pub fn client_id(&self) -> (r: ClientId)
        ensures
            r == self@.client_id,
    {
        self.client_id
    }

    /// Connection generation this session was established on.
    pub fn epoch(&self) -> (r: ConnectionEpoch)
        ensures
            r == self@.epoch,
    {
        self.epoch
    }
}

/// A live facade session: the only place owners and open state are minted.
#[derive(Debug)]
pub struct Session {
    core: Arc<SessionCore>,
    closed: bool,
}

/// The content of a [`Session`].
pub struct SessionView {
    /// The shared core.
    pub core: SessionCoreView,
    /// Whether the session has been closed.
    pub closed: bool,
}

impl View for Session {
    type V = SessionView;

    closed spec fn view(&self) -> SessionView {
        SessionView { core: self.core@, closed: self.closed }
    }
}

/// What a closed session answers to a request for something new.
pub open spec fn session_closed() -> FacadeErrorView {
    unproven("session closed"@)
}

/// What open state answers once its session is closed.
pub open spec fn state_unusable() -> FacadeErrorView {
    unproven("session closed; this open state is no longer usable"@)
}

impl Session {
    /// Establish a session for a confirmed client id on a connection generation.
    pub fn establish(id: SessionId, client_id: ClientId, epoch: ConnectionEpoch) -> (r: Self)
        ensures
            r@ == (SessionView { core: SessionCoreView { id, client_id, epoch }, closed: false }),
    {
        Session { core: SessionCore::new(id, client_id, epoch), closed: false }
    }

    /// The shared core every handle derived from this session holds.
    pub fn shared_core(&self) -> (r: &Arc<SessionCore>)
        ensures
            r@ == self@.core,
    {
        &self.core
    }

    /// Whether the session has been closed.
    pub fn is_closed(&self) -> (r: bool)
        ensures
            r == self@.closed,
    {
        self.closed
    }

    /// Adopt filehandle bytes returned by the server, validating their length.
    pub fn adopt_filehandle(&self, bytes: Vec<u8>) -> (r: FacadeResult<FileHandle>)
        ensures
            res_view(r) == (if self@.closed {
                Err::<Seq<u8>, FacadeErrorView>(session_closed())
            } else {
                adopt_handle(bytes@)
            }),
    {
        if self.closed {
            return Err(unproven_error("session closed"));
        }
        FileHandle::from_wire(bytes)
    }

    /// Mint an open owner scoped to this session's client id.
    pub fn open_owner(&self, owner: Vec<u8>) -> (r: FacadeResult<OpenOwner>)
        ensures
            res_view(r) == (if self@.closed {
                Err::<OpenOwnerView, FacadeErrorView>(session_closed())
            } else {
                Ok(OpenOwnerView { client_id: self@.core.client_id, owner: owner@ })
            }),
    {
        if self.closed {
            return Err(unproven_error("session closed"));
        }
        Ok(OpenOwner::new(self.core.client_id(), owner))
    }

    /// Adopt the result of a successful OPEN.
    pub fn adopt_open(&self, grant: OpenGrant) -> (r: FacadeResult<OpenFile>)
        ensures
            res_view(r) == (if self@.closed {
                Err::<OpenFileView, FacadeErrorView>(session_closed())
            } else if grant.owner@.client_id != self@.core.client_id {
                Err(unproven("open owner belongs to a different client id"@))
            } else {
                Ok(granted(grant@, self@.core))
            }),
    {
        if self.closed {
            return Err(unproven_error("session closed"));
        }
        if grant.owner.client_id() != self.core.client_id() {
            return Err(unproven_error("open owner belongs to a different client id"));
        }
        Ok(OpenFile::new(Arc::clone(&self.core), grant))
    }

    /// Close the session. Surviving open state becomes unusable and says so.
    pub fn close(&mut self)
        ensures
            final(self)@ == (SessionView { closed: true, ..old(self)@ }),
    {
        self.closed = true;
    }
}

/// Everything a successful OPEN establishes about one open file.
#[derive(Debug, PartialEq, Eq)]
pub struct OpenGrant {
    /// Filehandle the OPEN resolved to.
    pub handle: FileHandle,
    /// Stable identity of that object.
    pub identity: ObjectIdentity,
    /// Open owner the state belongs to.
    pub owner: OpenOwner,
    /// Stateid the server returned.
    pub stateid: Stateid,
    /// Next open-owner seqid to send.
    pub next_seqid: u32,
    /// Whether OPEN_CONFIRM has already completed.
    pub confirmed: bool,
    /// Share access granted.
    pub share_access: ShareAccess,
    /// Share deny granted.
    pub share_deny: ShareDeny,
}

/// The content of an [`OpenGrant`].
pub struct OpenGrantView {
    /// Filehandle the OPEN resolved to.
    pub handle: Seq<u8>,
    /// Stable identity of that object.
    pub identity: ObjectIdentity,
    /// Open owner the state belongs to.
    pub owner: OpenOwnerView,
    /// Stateid the server returned.
    pub stateid: Stateid,
    /// Next open-owner seqid to send.
    pub next_seqid: u32,
    /// Whether OPEN_CONFIRM has already completed.
    pub confirmed: bool,
    /// Share access granted.
    pub share_access: ShareAccess,
    /// Share deny granted.
    pub share_deny: ShareDeny,
}

impl View for OpenGrant {
    type V = OpenGrantView;

    open spec fn view(&self) -> OpenGrantView {
        OpenGrantView {
            handle: self.handle@,
            identity: self.identity,
            owner: self.owner@,
            stateid: self.stateid,
            next_seqid: self.next_seqid,
            confirmed: self.confirmed,
            share_access: self.share_access,
            share_deny: self.share_deny,
        }
    }
}

/// State of an open-owner's sequence.
#[derive(Clone, Copy, Debug, PartialEq, Eq, Structural)]
pub enum SequenceState {
    /// Next seqid to send.
    Ready(u32),
    /// The seqid of an operation that has no recorded outcome yet. Until it has one,
    /// and for good if its guard was dropped, no other operation can begin.
    Issued(u32),
    /// The outcome of an operation is unknown. The true server-side seqid is unknown
    /// with it, so the owner must be re-established.
    Poisoned,
}

#[derive(Clone, Copy, Debug, PartialEq, Eq)]
struct OpenState {
    sequence: SequenceState,
    stateid: Stateid,
    confirmed: bool,
    share_access: ShareAccess,
    share_deny: ShareDeny,
}

/// One open file: its handle, identity, owner and mutable open state.
#[derive(Debug)]
pub struct OpenFile {
    handle: FileHandle,
    identity: ObjectIdentity,
    owner: OpenOwner,
    state: OpenState,
    session: Arc<SessionCore>,
}

/// The content of an [`OpenFile`].
pub struct OpenFileView {
    /// The filehandle of the open.
    pub handle: Seq<u8>,
    /// Stable identity of the object.
    pub identity: ObjectIdentity,
    /// The open owner.
    pub owner: OpenOwnerView,
    /// The owner's sequence.
    pub sequence: SequenceState,
    /// The current stateid.
    pub stateid: Stateid,
    /// Whether OPEN_CONFIRM has completed.
    pub confirmed: bool,
    /// Share access held.
    pub share_access: ShareAccess,
    /// Share deny held.
    pub share_deny: ShareDeny,
    /// The session core the open was minted under.
    pub session: SessionCoreView,
}

impl View for OpenFile {
    type V = OpenFileView;

    closed spec fn view(&self) -> OpenFileView {
        OpenFileView {
            handle: self.handle@,
            identity: self.identity,
            owner: self.owner@,
            sequence: self.state.sequence,
            stateid: self.state.stateid,
            confirmed: self.state.confirmed,
            share_access: self.state.share_access,
            share_deny: self.state.share_deny,
            session: self.session@,
        }
    }
}

/// The open file a grant becomes.
pub open spec fn granted(grant: OpenGrantView, session: SessionCoreView) -> OpenFileView {
    OpenFileView {
        handle: grant.handle,
        identity: grant.identity,
        owner: grant.owner,
        sequence: SequenceState::Ready(grant.next_seqid),
        stateid: grant.stateid,
        confirmed: grant.confirmed,
        share_access: grant.share_access,
        share_deny: grant.share_deny,
        session,
    }
}

/// The seqid after `issued`. Owner seqids wrap, which is the protocol's rule.
pub open spec fn next_seqid(issued: u32) -> u32 {
    if issued == u32::MAX {
        0
    } else {
        (issued + 1) as u32
    }
}

/// Whether open state may be used under `session`: it was minted there, and the
/// session is still open. A [`SessionId`] names one session; which session a core
/// belongs to is decided by its id, client id and epoch.
pub open spec fn usable(file: OpenFileView, session: SessionView) -> bool {
    file.session == session.core && !session.closed
}

/// Whether the operation that was issued `seqid` is the one an open file waits for.
pub open spec fn is_outstanding(file: OpenFileView, seqid: u32) -> bool {
    file.sequence == SequenceState::Issued(seqid)
}

/// What an open file in this state answers for its stateid.
pub open spec fn stateid_answer(file: OpenFileView, session: SessionView) -> Result<
    Stateid,
    FacadeErrorView,
> {
    if !usable(file, session) {
        Err(state_unusable())
    } else if !file.confirmed {
        Err(unproven("stateid is unconfirmed; OPEN_CONFIRM has not completed"@))
    } else {
        Ok(file.stateid)
    }
}

/// What beginning a sequenced operation answers: the seqid to send.
pub open spec fn sequence_answer(file: OpenFileView, session: SessionView) -> Result<
    u32,
    FacadeErrorView,
> {
    if !usable(file, session) {
        Err(state_unusable())
    } else {
        match file.sequence {
            SequenceState::Ready(seqid) => Ok(seqid),
            _ => Err(
                unproven("open-owner sequence poisoned by an unresolved operation"@),
            ),
        }
    }
}

impl View for Stateid {
    type V = Stateid;

    open spec fn view(&self) -> Stateid {
        *self
    }
}

impl OpenFile {
    /// Adopt the result of a successful OPEN.
    pub(crate) fn new(session: Arc<SessionCore>, grant: OpenGrant) -> (r: Self)
        ensures
            r@ == granted(grant@, session@),
    {
        OpenFile {
            handle: grant.handle,
            identity: grant.identity,
            owner: grant.owner,
            state: OpenState {
                sequence: SequenceState::Ready(grant.next_seqid),
                stateid: grant.stateid,
                confirmed: grant.confirmed,
                share_access: grant.share_access,
                share_deny: grant.share_deny,
            },
            session,
        }
    }

    /// Whether this open was minted under `session` and `session` is still open.
    fn is_usable(&self, session: &Session) -> (r: bool)
        ensures
            r == usable(self@, session@),
    {
        !session.closed && self.session.same(&session.core)
    }

    /// Whether the operation that was issued `seqid` is the one this open waits for.
    fn is_outstanding(&self, seqid: u32) -> (r: bool)
        ensures
            r == is_outstanding(self@, seqid),
    {
        match self.state.sequence {
            SequenceState::Issued(issued) => issued == seqid,
            _ => false,
        }
    }

    /// The current filehandle for this open.
    pub fn handle(&self) -> (r: &FileHandle)
        ensures
            r@ == self@.handle,
    {
        &self.handle
    }

    /// Stable object identity. Unchanged by rename.
    pub fn identity(&self) -> (r: ObjectIdentity)
        ensures
            r == self@.identity,
    {
        self.identity
    }

    /// The open owner.
    pub fn owner(&self) -> (r: &OpenOwner)
        ensures
            r@ == self@.owner,
    {
        &self.owner
    }

    /// The session core this open belongs to.
    pub fn session(&self) -> (r: &Arc<SessionCore>)
        ensures
            r@ == self@.session,
    {
        &self.session
    }

    /// Current stateid, or an authority error when the state is unusable.
    pub fn stateid(&self, session: &Session) -> (r: FacadeResult<Stateid>)
        ensures
            res_view(r) == stateid_answer(self@, session@),
    {
        if !self.is_usable(session) {
            return Err(unproven_error("session closed; this open state is no longer usable"));
        }
        if !self.state.confirmed {
            return Err(
                unproven_error("stateid is unconfirmed; OPEN_CONFIRM has not completed"),
            );
        }
        Ok(self.state.stateid)
    }

    /// Share access and deny bits this open holds.
    pub fn share(&self, session: &Session) -> (r: FacadeResult<(ShareAccess, ShareDeny)>)
        ensures
            !usable(self@, session@) ==> r is Err && r->Err_0@ == state_unusable(),
            usable(self@, session@) ==> r == Ok::<(ShareAccess, ShareDeny), crate::error::FacadeError>(
                (self@.share_access, self@.share_deny),
            ),
    {
        if !self.is_usable(session) {
            return Err(unproven_error("session closed; this open state is no longer usable"));
        }
        Ok((self.state.share_access, self.state.share_deny))
    }

    /// Whether OPEN_CONFIRM has completed for this open.
    pub fn is_confirmed(&self, session: &Session) -> (r: FacadeResult<bool>)
        ensures
            res_view(r) == (if !usable(self@, session@) {
                Err::<bool, FacadeErrorView>(state_unusable())
            } else {
                Ok(self@.confirmed)
            }),
    {
        if !self.is_usable(session) {
            return Err(unproven_error("session closed; this open state is no longer usable"));
        }
        Ok(self.state.confirmed)
    }

    /// The seqid the next sequenced operation would carry, or `None` when the
    /// owner's sequence is poisoned. Reading this begins nothing.
    pub fn next_seqid(&self, session: &Session) -> (r: FacadeResult<Option<u32>>)
        ensures
            !usable(self@, session@) ==> r is Err && r->Err_0@ == state_unusable(),
            usable(self@, session@) ==> r == Ok::<Option<u32>, crate::error::FacadeError>(
                match self@.sequence {
                    SequenceState::Ready(seqid) => Some(seqid),
                    _ => None,
                },
            ),
    {
        if !self.is_usable(session) {
            return Err(unproven_error("session closed; this open state is no longer usable"));
        }
        Ok(
            match self.state.sequence {
                SequenceState::Ready(seqid) => Some(seqid),
                _ => None,
            },
        )
    }

    /// Begin one sequenced operation for this open owner.
    ///
    /// The guard borrows the open exclusively, so a second sequenced operation
    /// cannot start until this one is resolved. Until it is, the sequence reads
    /// as poisoned to everyone else, and a guard that is dropped unresolved leaves
    /// it so.
    pub fn sequence<'a>(&'a mut self, session: &Session) -> (r: FacadeResult<SequencedOp<'a>>)
        ensures
            match sequence_answer(old(self)@, session@) {
                Ok(seqid) => r matches Ok(op) && op.issued@ == seqid && op.file@ == (
                OpenFileView { sequence: SequenceState::Issued(seqid), ..old(self)@ }) && *final(self)
                    == *final(op.file),
                Err(error) => r matches Err(e) && e@ == error && *final(self) == *old(self),
            },
    {
        if !self.is_usable(session) {
            return Err(unproven_error("session closed; this open state is no longer usable"));
        }
        match self.state.sequence {
            SequenceState::Ready(seqid) => {
                self.state.sequence = SequenceState::Issued(seqid);
                Ok(SequencedOp { file: self, issued: IssuedSeqid { value: seqid } })
            },
            _ => Err(
                unproven_error("open-owner sequence poisoned by an unresolved operation"),
            ),
        }
    }
}

/// A borrowed, in-progress sequenced operation for one open owner.
///
/// Resolve it with [`SequencedOp::commit`] or one of its siblings; dropping it
/// leaves the owner's sequence unusable. An outcome is recorded only where the open
/// waits for the very seqid this operation was issued.
#[must_use]
#[derive(Debug)]
pub struct SequencedOp<'a> {
    /// The open file whose sequence this operation consumes.
    pub file: &'a mut OpenFile,
    /// The seqid issued for it.
    pub issued: IssuedSeqid,
}

/// A seqid taken from an owner's sequence. Only [`OpenFile::sequence`] takes one.
#[derive(Debug)]
pub struct IssuedSeqid {
    value: u32,
}

impl View for IssuedSeqid {
    type V = u32;

    closed spec fn view(&self) -> u32 {
        self.value
    }
}

impl<'a> SequencedOp<'a> {
    /// The seqid to put on the wire for this operation.
    pub fn seqid(&self) -> (r: u32)
        ensures
            r == self.issued@,
    {
        self.issued.value
    }

    /// The stateid this operation should carry, confirmed or not.
    pub fn stateid(&self) -> (r: Stateid)
        ensures
            r == old(self.file)@.stateid,
    {
        self.file.state.stateid
    }

    /// Record a successful outcome: advance the seqid and adopt the new stateid.
    pub fn commit(self, stateid: Stateid)
        ensures
            final(self.file)@ == (if is_outstanding(old(self.file)@, self.issued@) {
                (OpenFileView {
                    stateid,
                    sequence: SequenceState::Ready(next_seqid(self.issued@)),
                    ..old(self.file)@
                })
            } else {
                old(self.file)@
            }),
    {
        if !self.file.is_outstanding(self.issued.value) {
            return;
        }
        self.file.state.stateid = stateid;
        self.file.state.sequence = SequenceState::Ready(advance(self.issued.value));
    }

    /// Record a successful outcome that returns no new stateid.
    pub fn commit_without_stateid(self)
        ensures
            final(self.file)@ == (if is_outstanding(old(self.file)@, self.issued@) {
                (OpenFileView {
                    sequence: SequenceState::Ready(next_seqid(self.issued@)),
                    ..old(self.file)@
                })
            } else {
                old(self.file)@
            }),
    {
        if !self.file.is_outstanding(self.issued.value) {
            return;
        }
        self.file.state.sequence = SequenceState::Ready(advance(self.issued.value));
    }

    /// Record a successful OPEN_CONFIRM: adopt the stateid and mark it usable.
    pub fn commit_confirmed(self, stateid: Stateid)
        ensures
            final(self.file)@ == (if is_outstanding(old(self.file)@, self.issued@) {
                (OpenFileView {
                    stateid,
                    confirmed: true,
                    sequence: SequenceState::Ready(next_seqid(self.issued@)),
                    ..old(self.file)@
                })
            } else {
                old(self.file)@
            }),
    {
        if !self.file.is_outstanding(self.issued.value) {
            return;
        }
        self.file.state.stateid = stateid;
        self.file.state.confirmed = true;
        self.file.state.sequence = SequenceState::Ready(advance(self.issued.value));
    }

    /// Record a successful OPEN_DOWNGRADE: adopt the stateid and the narrower
    /// share bits the server granted.
    pub fn commit_downgraded(
        self,
        stateid: Stateid,
        share_access: ShareAccess,
        share_deny: ShareDeny,
    )
        ensures
            final(self.file)@ == (if is_outstanding(old(self.file)@, self.issued@) {
                (OpenFileView {
                    stateid,
                    share_access,
                    share_deny,
                    sequence: SequenceState::Ready(next_seqid(self.issued@)),
                    ..old(self.file)@
                })
            } else {
                old(self.file)@
            }),
    {
        if !self.file.is_outstanding(self.issued.value) {
            return;
        }
        self.file.state.stateid = stateid;
        self.file.state.share_access = share_access;
        self.file.state.share_deny = share_deny;
        self.file.state.sequence = SequenceState::Ready(advance(self.issued.value));
    }

    /// Record a server failure.
    ///
    /// Most failures still advance the owner seqid; only the statuses that
    /// [`Nfs4Status::holds_seqid`] names leave it where it was.
    pub fn abort(self, status: Nfs4Status)
        ensures
            final(self.file)@ == (if is_outstanding(old(self.file)@, self.issued@) {
                (OpenFileView {
                    sequence: SequenceState::Ready(
                        if seqid_is_held(status.0) {
                            self.issued@
                        } else {
                            next_seqid(self.issued@)
                        },
                    ),
                    ..old(self.file)@
                })
            } else {
                old(self.file)@
            }),
    {
        if !self.file.is_outstanding(self.issued.value) {
            return;
        }
        if status.holds_seqid() {
            self.file.state.sequence = SequenceState::Ready(self.issued.value);
        } else {
            self.file.state.sequence = SequenceState::Ready(advance(self.issued.value));
        }
    }

    /// Record an outcome that is genuinely unknown, such as a lost reply. The
    /// owner stays poisoned and must be re-established.
    pub fn abandon(self)
        ensures
            final(self.file)@ == (if is_outstanding(old(self.file)@, self.issued@) {
                (OpenFileView {
                    sequence: SequenceState::Poisoned,
                    ..old(self.file)@
                })
            } else {
                old(self.file)@
            }),
    {
        if !self.file.is_outstanding(self.issued.value) {
            return;
        }
        self.file.state.sequence = SequenceState::Poisoned;
    }
}

fn advance(issued: u32) -> (r: u32)
    ensures
        r == next_seqid(issued),
{
    issued.wrapping_add(1)
}

/// A closed session makes every use of its open state fail, whatever that state
/// is, and no other session stands in for it.
pub proof fn a_closed_session_refuses_everything(file: OpenFileView, session: SessionView)
    requires
        session.closed || session.core != file.session,
    ensures
        stateid_answer(file, session) is Err,
        sequence_answer(file, session) is Err,
{
}

/// A sequence that is poisoned, or whose last operation has no recorded outcome,
/// admits no further operation.
pub proof fn a_poisoned_owner_admits_nothing(file: OpenFileView, session: SessionView)
    requires
        file.sequence is Poisoned || file.sequence is Issued,
    ensures
        sequence_answer(file, session) is Err,
{
}

} // verus!
