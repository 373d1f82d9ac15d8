//! Create, read, write and commit against a pinned open object.
//!
//! An [`OpenObject`] is an open file plus the byte name it was opened under. The
//! name is recorded for diagnostics and is never re-resolved: every READ, WRITE
//! and COMMIT addresses the open's own filehandle. That is why a rename or a
//! pathname replacement does not retarget an open, and an in-place edit by another
//! writer is visible through it.
//!
//! [`OpenObject::write`] records a durable intent before dispatch and returns the
//! count and stability the server reached. An unstable write is durable only once
//! [`OpenObject::commit`] observes the verifier the WRITE returned.
use vstd::prelude::*;

pub mod opening;

use crate::bytes::{append_bytes, copy_bytes};
use crate::contract::{
    res_view, IdempotencyKey, LeaseEpoch, OperationId, RequestContext, RequestContextView, RunId,
};
use crate::error::{
    malformed, malformed_error, unproven, unproven_error, AuthorityError, AuthorityErrorView,
    FacadeError, FacadeErrorView, FacadeResult, ReplayError, RetainedError, RetainedErrorView,
};
use crate::handle::{
    anonymous, stateid_answer, FileHandle, ObjectIdentity, OpenFile, OpenFileView, Session,
    SessionView, Stateid,
};
use crate::identity::{PinnedObject, PinnedObjectView};
use crate::replay::{
    admit_answer, after_admit, after_record, match_result, noted_verifier, record_answer,
    verifier_match, Admission, AdmissionView, CompletedWrite, IntentKind, IntentKindView, Ledger,
    Payload, PayloadView, ReplayIntent, ReplayIntentView, ReplayLog, ReplayOutcome,
    ReplayOutcomeView, VerifierMatch,
};
use crate::state::open_owner::{
    after_allocation, allocation, close, close_run, open_run, CloseOutcome, OpenOutcome,
    OpenOutcomeView, OpenOwnerRegistry, OpenRequest, OpenRequestView, RegistryView,
};
use crate::state::verifiers::{
    after_note, check_commit, note_write, owes_commit, record_of, WriteRecord,
};
use crate::text::{decimal, decimal_text, join3};
use crate::transport::{
    commit_answer, commit_call, read_answer, read_call, read_payload, write_answer, write_call,
    ComponentName, Deadline, Nfs4Type, OpenHow, RawTransport, ReadReply, ShareAccess, ShareDeny,
    Stability, TransportLimits, Verifier, WriteVerifier, READ_TAG_BYTES,
};

verus! {

/// How an OPEN should treat an existing or absent name.
#[derive(Clone, Copy, Debug, PartialEq, Eq)]
pub enum CreateDisposition {
    /// `OPEN4_NOCREATE`. An absent name is `NFS4ERR_NOENT`.
    OpenExisting,
    /// `UNCHECKED4`: open the name, creating it if absent.
    OpenOrCreate {
        /// Mode applied when the object is created.
        mode: u32,
    },
    /// `GUARDED4`: create the name, and fail if it already exists.
    CreateNew {
        /// Mode applied to the new object.
        mode: u32,
    },
    /// `EXCLUSIVE4`: create with a verifier that identifies this create.
    CreateExclusive {
        /// The create verifier this attempt presents.
        verifier: Verifier,
    },
}

/// Whether a disposition can bring a new object into existence.
pub open spec fn creating(disposition: CreateDisposition) -> bool {
    !(disposition is OpenExisting)
}

/// The OPEN form of a disposition.
pub open spec fn open_how(disposition: CreateDisposition) -> OpenHow {
    match disposition {
        CreateDisposition::OpenExisting => OpenHow::NoCreate,
        CreateDisposition::OpenOrCreate { mode } => OpenHow::Unchecked { mode },
        CreateDisposition::CreateNew { mode } => OpenHow::Guarded { mode },
        CreateDisposition::CreateExclusive { verifier } => OpenHow::Exclusive { verifier },
    }
}

impl CreateDisposition {
    fn how(self) -> (r: OpenHow)
        ensures
            r == open_how(self),
    {
        match self {
            CreateDisposition::OpenExisting => OpenHow::NoCreate,
            CreateDisposition::OpenOrCreate { mode } => OpenHow::Unchecked { mode },
            CreateDisposition::CreateNew { mode } => OpenHow::Guarded { mode },
            CreateDisposition::CreateExclusive { verifier } => OpenHow::Exclusive { verifier },
        }
    }

    /// Whether this disposition can bring a new object into existence.
    pub fn creates(self) -> (r: bool)
        ensures
            r == creating(self),
    {
        match self {
            CreateDisposition::OpenExisting => false,
            _ => true,
        }
    }
}

/// The four identities every mutation carries.
#[derive(Debug, PartialEq, Eq)]
pub struct MutationIdentity {
    /// Run the mutation belongs to.
    pub run_id: RunId,
    /// Operation identity, unique per request.
    pub operation: OperationId,
    /// Idempotency key a retry is matched on.
    pub key: IdempotencyKey,
    /// Writer epoch that authorised the mutation.
    pub epoch: LeaseEpoch,
}

/// The content of a [`MutationIdentity`].
pub struct MutationIdentityView {
    /// Run the mutation belongs to.
    pub run_id: RunId,
    /// Operation identity, unique per request.
    pub operation: OperationId,
    /// Idempotency key a retry is matched on.
    pub key: Seq<char>,
    /// Writer epoch that authorised the mutation.
    pub epoch: LeaseEpoch,
}

impl View for MutationIdentity {
    type V = MutationIdentityView;

    open spec fn view(&self) -> MutationIdentityView {
        MutationIdentityView {
            run_id: self.run_id,
            operation: self.operation,
            key: self.key@,
            epoch: self.epoch,
        }
    }
}

impl Clone for MutationIdentity {
    fn clone(&self) -> (r: Self)
        ensures
            r@ == self@,
    {
        MutationIdentity {
            run_id: self.run_id,
            operation: self.operation,
            key: self.key.clone(),
            epoch: self.epoch,
        }
    }
}

/// The identities a request context carries; none without a writer epoch.
pub open spec fn identities_in(context: RequestContextView) -> Result<
    MutationIdentityView,
    FacadeErrorView,
> {
    match context.writer_epoch {
        None => Err(FacadeErrorView::Authority(AuthorityErrorView::NoWriterEpoch)),
        Some(epoch) => Ok(
            MutationIdentityView {
                run_id: context.run_id,
                operation: context.operation_id,
                key: context.idempotency_key,
                epoch,
            },
        ),
    }
}

impl MutationIdentity {
    /// Read the identities out of a request context.
    ///
    /// A context with no writer epoch is refused: this provider never mutates on
    /// unproven authority, and an NFS lease is not evidence of it.
    pub fn from_context(context: &RequestContext) -> (r: FacadeResult<Self>)
        ensures
            res_view(r) == identities_in(context@),
    {
        match context.writer_epoch {
            None => Err(FacadeError::Authority(AuthorityError::NoWriterEpoch)),
            Some(epoch) => Ok(
                MutationIdentity {
                    run_id: context.run_id,
                    operation: context.operation_id,
                    key: context.idempotency_key.clone(),
                    epoch,
                },
            ),
        }
    }
}

/// One open file, pinned to the object it proved at OPEN time.
#[derive(Debug)]
pub struct OpenObject {
    file: OpenFile,
    opened_as: ComponentName,
}

/// The content of an [`OpenObject`].
pub struct OpenObjectView {
    /// The open file.
    pub file: OpenFileView,
    /// The name it was opened under.
    pub opened_as: Seq<u8>,
}

impl View for OpenObject {
    type V = OpenObjectView;

    closed spec fn view(&self) -> OpenObjectView {
        OpenObjectView { file: self.file@, opened_as: self.opened_as@ }
    }
}

/// The OPEN a caller of [`OpenObject::open`] asks for.
pub open spec fn open_request(
    parent: PinnedObjectView,
    name: Seq<u8>,
    disposition: CreateDisposition,
    share_access: ShareAccess,
) -> OpenRequestView {
    OpenRequestView {
        parent: parent.handle,
        name,
        how: open_how(disposition),
        share_access,
        share_deny: ShareDeny::NONE,
    }
}

/// Drive one OPEN and adopt the result.
pub open spec fn open_object_run<T: RawTransport>(
    owners: RegistryView,
    world: T::World,
    parent: PinnedObjectView,
    name: Seq<u8>,
    disposition: CreateDisposition,
    share_access: ShareAccess,
    deadline: Deadline,
) -> (Result<OpenObjectView, FacadeErrorView>, RegistryView, T::World) {
    if parent.kind != Nfs4Type::Directory {
        (
            Err(unproven("an OPEN was addressed to a parent that is not a directory"@)),
            owners,
            world,
        )
    } else {
        let minted = after_allocation(owners);
        match allocation(owners) {
            Err(error) => (Err(error), minted, world),
            Ok(lease) => {
                let (outcome, after) = open_run::<T>(
                    owners.session,
                    lease,
                    world,
                    open_request(parent, name, disposition, share_access),
                    deadline,
                );
                (
                    match outcome {
                        OpenOutcomeView::Opened(file) => Ok(
                            OpenObjectView { file, opened_as: name },
                        ),
                        OpenOutcomeView::Unconfirmed { error, .. } => Err(error),
                        OpenOutcomeView::Rejected { error, .. } => Err(error),
                        OpenOutcomeView::Abandoned { error } => Err(error),
                    },
                    minted,
                    after,
                )
            },
        }
    }
}

/// The intent a write records before it is dispatched.
pub open spec fn write_intent(
    object: ObjectIdentity,
    identity: MutationIdentityView,
    write: WriteAtView,
) -> ReplayIntentView {
    ReplayIntentView {
        run_id: identity.run_id,
        operation: identity.operation,
        key: identity.key,
        epoch: identity.epoch,
        kind: IntentKindView::Write { object, offset: write.offset, stability: write.stability },
        payload: PayloadView::Inline(write.data),
    }
}

/// The ticket of a write answered from the ledger.
pub open spec fn replayed_ticket(
    key: Seq<char>,
    write: WriteAtView,
    completed: CompletedWrite,
) -> WriteTicketView {
    WriteTicketView {
        key,
        offset: write.offset,
        requested: write.data.len() as usize,
        record: WriteRecord {
            count: completed.count,
            committed: completed.committed,
            verifier: match completed.verifier {
                Some(verifier) => verifier,
                None => WriteVerifier([0u8, 0u8, 0u8, 0u8, 0u8, 0u8, 0u8, 0u8]),
            },
        },
        replayed: true,
    }
}

/// Write to an open object, recording the intent first and the outcome after.
#[verifier::opaque]
pub open spec fn write_run<T: RawTransport>(
    open: OpenObjectView,
    session: SessionView,
    world: T::World,
    ledger: Ledger,
    identity: MutationIdentityView,
    write: WriteAtView,
    deadline: Deadline,
) -> (Result<WriteTicketView, FacadeErrorView>, T::World, Ledger) {
    let intent = write_intent(open.file.identity, identity, write);
    let admitted = after_admit(ledger, intent);
    match admit_answer(ledger, intent) {
        Err(error) => (Err(FacadeErrorView::Replay(error)), world, admitted),
        Ok(AdmissionView::Recorded(ReplayOutcomeView::Completed(completed))) => (
            Ok(replayed_ticket(identity.key, write, completed)),
            world,
            admitted,
        ),
        Ok(AdmissionView::Recorded(ReplayOutcomeView::Failed(retained))) => (
            Err(retained.error),
            world,
            admitted,
        ),
        Ok(AdmissionView::Indeterminate) => (
            Err(FacadeErrorView::Replay(ReplayError::Indeterminate)),
            world,
            admitted,
        ),
        Ok(AdmissionView::Fresh) => match stateid_answer(open.file, session) {
            Err(error) => (Err(error), world, admitted),
            Ok(stateid) => {
                let call = write_call(
                    open.file.handle,
                    stateid,
                    write.offset,
                    write.stability,
                    write.data,
                );
                let after = T::after(world, call, deadline);
                match write_answer(T::answer(world, call, deadline)) {
                    Err(error) => (
                        Err(error),
                        after,
                        after_record(
                            admitted,
                            identity.key,
                            ReplayOutcomeView::Failed(
                                RetainedErrorView {
                                    operation: identity.operation,
                                    key: identity.key,
                                    error,
                                    durable: false,
                                },
                            ),
                        ),
                    ),
                    Ok(reply) => {
                        let record = record_of(reply);
                        let noted = after_note(admitted, identity.key, record);
                        let outcome = ReplayOutcomeView::Completed(
                            CompletedWrite {
                                count: record.count,
                                committed: record.committed,
                                verifier: if owes_commit(record) {
                                    Some(record.verifier)
                                } else {
                                    None
                                },
                            },
                        );
                        (
                            match record_answer(noted, identity.key) {
                                Err(error) => Err(FacadeErrorView::Replay(error)),
                                Ok(()) => Ok(
                                    WriteTicketView {
                                        key: identity.key,
                                        offset: write.offset,
                                        requested: write.data.len() as usize,
                                        record,
                                        replayed: false,
                                    },
                                ),
                            },
                            after,
                            after_record(noted, identity.key, outcome),
                        )
                    },
                }
            },
        },
    }
}

/// Commit a write and prove the server did not lose it.
pub open spec fn commit_run<T: RawTransport>(
    open: OpenObjectView,
    world: T::World,
    ledger: Ledger,
    ticket: WriteTicketView,
    deadline: Deadline,
) -> (Result<VerifierMatch, FacadeErrorView>, T::World) {
    if !owes_commit(ticket.record) {
        (Ok(VerifierMatch::Match), world)
    } else {
        let call = commit_call(open.file.handle, ticket.offset, ticket.record.count);
        (
            match commit_answer(T::answer(world, call, deadline)) {
                Err(error) => Err(error),
                Ok(reply) => {
                    let verdict = verifier_match(
                        noted_verifier(ledger, ticket.key),
                        reply.verifier,
                    );
                    match match_result(verdict) {
                        Err(error) => Err(error),
                        Ok(()) => Ok(verdict),
                    }
                },
            },
            T::after(world, call, deadline),
        )
    }
}

impl OpenObject {
    /// Drive one OPEN and adopt the result.
    ///
    /// NFSv4 opens by parent filehandle plus name, never by path, so a caller
    /// cannot open something the anchor walk did not reach.
    pub fn open<T: RawTransport>(
        owners: &mut OpenOwnerRegistry,
        transport: &mut T,
        parent: &PinnedObject,
        name: &ComponentName,
        disposition: CreateDisposition,
        share_access: ShareAccess,
        deadline: Deadline,
    ) -> (r: FacadeResult<Self>)
        ensures
            (res_view(r), final(owners)@, final(transport).world()) == open_object_run::<T>(
                old(owners)@,
                old(transport).world(),
                parent@,
                name@,
                disposition,
                share_access,
                deadline,
            ),
    {
        if !parent.is_directory() {
            return Err(
                unproven_error("an OPEN was addressed to a parent that is not a directory"),
            );
        }
        let lease = match owners.allocate() {
            Ok(lease) => lease,
            Err(error) => {
                return Err(error);
            },
        };
        let request = OpenRequest {
            parent: parent.handle().clone(),
            name: name.clone(),
            how: disposition.how(),
            share_access,
            // Writers are arbitrated by admission, so the NFS share reservation is
            // never used as the admission mechanism.
            share_deny: ShareDeny::NONE,
        };
        match owners.open(lease, transport, &request, deadline) {
            OpenOutcome::Opened(file) => Ok(OpenObject { file, opened_as: name.clone() }),
            OpenOutcome::Unconfirmed { error, .. } => Err(error),
            OpenOutcome::Rejected { error, .. } => Err(error),
            OpenOutcome::Abandoned { error } => Err(error),
        }
    }

    /// The stable identity this open proved. Unchanged by rename or replacement.
    pub fn identity(&self) -> (r: ObjectIdentity)
        ensures
            r == self@.file.identity,
    {
        self.file.identity()
    }

    /// The filehandle every operation on this open addresses.
    pub fn handle(&self) -> (r: &FileHandle)
        ensures
            r@ == self@.file.handle,
    {
        self.file.handle()
    }

    /// The name this object was opened under. Nothing re-resolves it.
    pub fn opened_as(&self) -> (r: &ComponentName)
        ensures
            r@ == self@.opened_as,
    {
        &self.opened_as
    }

    /// The open state, for callers that need its sequencer.
    pub fn file(&self) -> (r: &OpenFile)
        ensures
            r@ == self@.file,
    {
        &self.file
    }

    /// The stateid this open's I/O carries.
    pub fn stateid(&self, session: &Session) -> (r: FacadeResult<Stateid>)
        ensures
            res_view(r) == stateid_answer(self@.file, session@),
    {
        self.file.stateid(session)
    }

    /// Read from the opened object. A short reply is a real answer, not an error.
    pub fn read<T: RawTransport>(
        &self,
        session: &Session,
        transport: &mut T,
        offset: u64,
        count: u32,
        deadline: Deadline,
    ) -> (r: FacadeResult<ReadReply>)
        ensures
            match stateid_answer(self@.file, session@) {
                Err(error) => r is Err && r->Err_0@ == error && final(transport).world() == old(
                    transport,
                ).world(),
                Ok(stateid) => {
                    let call = read_call(self@.file.handle, stateid, offset, count);
                    res_view(r) == read_answer(T::answer(old(transport).world(), call, deadline))
                        && final(transport).world() == T::after(
                        old(transport).world(),
                        call,
                        deadline,
                    )
                },
            },
    {
        match self.stateid(session) {
            Err(error) => Err(error),
            Ok(stateid) => transport.read(self.file.handle(), stateid, offset, count, deadline),
        }
    }

    /// Write to the opened object, recording a durable intent first.
    ///
    /// A recorded outcome for the same key is returned verbatim without
    /// dispatching again, which is what makes a retry safe.
    pub fn write<T: RawTransport, L: ReplayLog>(
        &self,
        session: &Session,
        transport: &mut T,
        replay: &mut L,
        identity: &MutationIdentity,
        write: WriteAt,
        deadline: Deadline,
    ) -> (r: FacadeResult<WriteTicket>)
        ensures
            (res_view(r), final(transport).world(), final(replay).ledger()) == write_run::<T>(
                self@,
                session@,
                old(transport).world(),
                old(replay).ledger(),
                identity@,
                write@,
                deadline,
            ),
    {
        proof {
            reveal(write_run);
        }
        let requested: usize = write.data.len();
        let offset: u64 = write.offset;
        let intent = ReplayIntent {
            run_id: identity.run_id,
            operation: identity.operation,
            key: identity.key.clone(),
            epoch: identity.epoch,
            kind: IntentKind::Write {
                object: self.identity(),
                offset,
                stability: write.stability,
            },
            payload: Payload::Inline(copy_bytes(write.data.as_slice())),
        };
        proof {
            assert(intent@ == write_intent(self@.file.identity, identity@, write@));
        }
        // Backpressure and replay identity are both settled before dispatch.
        match replay.admit_intent(&intent) {
            Err(error) => {
                return Err(FacadeError::Replay(error));
            },
            Ok(Admission::Fresh) => {},
            Ok(Admission::Recorded(ReplayOutcome::Completed(completed))) => {
                return Ok(
                    WriteTicket {
                        key: identity.key.clone(),
                        offset,
                        requested,
                        record: WriteRecord {
                            count: completed.count,
                            committed: completed.committed,
                            // A completed record without a verifier was stable on
                            // arrival, so the placeholder is never compared.
                            verifier: match completed.verifier {
                                Some(verifier) => verifier,
                                None => WriteVerifier(
                                    [0u8, 0u8, 0u8, 0u8, 0u8, 0u8, 0u8, 0u8],
                                ),
                            },
                        },
                        replayed: true,
                    },
                );
            },
            Ok(Admission::Recorded(ReplayOutcome::Failed(retained))) => {
                return Err(retained.error().clone());
            },
            Ok(Admission::Indeterminate) => {
                return Err(FacadeError::Replay(ReplayError::Indeterminate));
            },
        }
        let stateid = match self.stateid(session) {
            Ok(stateid) => stateid,
            Err(error) => {
                return Err(error);
            },
        };
        let reply = match transport.write(
            self.file.handle(),
            stateid,
            offset,
            write.stability,
            write.data,
            deadline,
        ) {
            Ok(reply) => reply,
            Err(error) => {
                // The failure becomes the settled answer for this key.
                let _settled = replay.record(
                    &identity.key,
                    ReplayOutcome::Failed(
                        RetainedError::record(
                            identity.operation,
                            identity.key.clone(),
                            error.clone(),
                            false,
                        ),
                    ),
                );
                return Err(error);
            },
        };
        let record = WriteRecord::from_reply(&reply);
        let noted = note_write(replay, &identity.key, &record);
        let completed = CompletedWrite {
            count: record.count,
            committed: record.committed,
            verifier: if noted {
                Some(record.verifier)
            } else {
                None
            },
        };
        match replay.record(&identity.key, ReplayOutcome::Completed(completed)) {
            Err(error) => Err(FacadeError::Replay(error)),
            Ok(()) => Ok(
                WriteTicket {
                    key: identity.key.clone(),
                    offset,
                    requested,
                    record,
                    replayed: false,
                },
            ),
        }
    }

    /// Commit an unstable write and prove the server did not lose it.
    ///
    /// A write the server already committed owes no COMMIT and returns immediately.
    pub fn commit<T: RawTransport, L: ReplayLog>(
        &self,
        transport: &mut T,
        replay: &L,
        ticket: &WriteTicket,
        deadline: Deadline,
    ) -> (r: FacadeResult<VerifierMatch>)
        ensures
            (res_view(r), final(transport).world()) == commit_run::<T>(
                self@,
                old(transport).world(),
                replay.ledger(),
                ticket@,
                deadline,
            ),
    {
        if !ticket.record.needs_commit() {
            return Ok(VerifierMatch::Match);
        }
        let reply = match transport.commit(
            self.file.handle(),
            ticket.offset,
            ticket.record.count,
            deadline,
        ) {
            Ok(reply) => reply,
            Err(error) => {
                return Err(error);
            },
        };
        let verdict = check_commit(replay, &ticket.key, &reply);
        match verdict.into_result() {
            Err(error) => Err(error),
            Ok(()) => Ok(verdict),
        }
    }

    /// Close the open, consuming it so a closed stateid cannot be reused.
    pub fn close<T: RawTransport>(
        self,
        session: &Session,
        transport: &mut T,
        deadline: Deadline,
    ) -> (r: CloseOutcome)
        ensures
            (r@, final(transport).world()) == close_run::<T>(
                self@.file,
                session@,
                old(transport).world(),
                deadline,
            ),
    {
        close(self.file, session, transport, deadline)
    }
}

/// One positional write, grouped so its three parameters travel together.
#[derive(Debug, PartialEq, Eq)]
pub struct WriteAt {
    /// Absolute byte offset.
    pub offset: u64,
    /// Stability to request. An unstable write owes a later COMMIT.
    pub stability: Stability,
    /// Owned payload.
    pub data: Vec<u8>,
}

/// The content of a [`WriteAt`].
pub struct WriteAtView {
    /// Absolute byte offset.
    pub offset: u64,
    /// Stability to request. An unstable write owes a later COMMIT.
    pub stability: Stability,
    /// Owned payload.
    pub data: Seq<u8>,
}

impl View for WriteAt {
    type V = WriteAtView;

    open spec fn view(&self) -> WriteAtView {
        WriteAtView {
            offset: self.offset,
            stability: self.stability,
            data: self.data@,
        }
    }
}

impl Clone for WriteAt {
    fn clone(&self) -> (r: Self)
        ensures
            r@ == self@,
    {
        WriteAt {
            offset: self.offset,
            stability: self.stability,
            data: copy_bytes(self.data.as_slice()),
        }
    }
}

/// What one WRITE achieved, and what a COMMIT for it must prove.
#[derive(Debug, PartialEq, Eq)]
pub struct WriteTicket {
    key: IdempotencyKey,
    offset: u64,
    requested: usize,
    record: WriteRecord,
    replayed: bool,
}

/// The content of a [`WriteTicket`].
pub struct WriteTicketView {
    /// The key this write is the settled answer for.
    pub key: Seq<char>,
    /// Absolute offset the write targeted.
    pub offset: u64,
    /// Bytes offered.
    pub requested: usize,
    /// What the server reported.
    pub record: WriteRecord,
    /// Whether the answer came from the ledger rather than the wire.
    pub replayed: bool,
}

impl View for WriteTicket {
    type V = WriteTicketView;

    closed spec fn view(&self) -> WriteTicketView {
        WriteTicketView {
            key: self.key@,
            offset: self.offset,
            requested: self.requested,
            record: self.record,
            replayed: self.replayed,
        }
    }
}

impl Clone for WriteTicket {
    fn clone(&self) -> (r: Self)
        ensures
            r@ == self@,
    {
        WriteTicket {
            key: self.key.clone(),
            offset: self.offset,
            requested: self.requested,
            record: self.record,
            replayed: self.replayed,
        }
    }
}

impl WriteTicket {
    /// Bytes the server accepted. Never rounded up to the request.
    pub fn count(&self) -> (r: u32)
        ensures
            r == self@.record.count,
    {
        self.record.count
    }

    /// Whether the server accepted fewer bytes than were offered.
    pub fn is_short(&self) -> (r: bool)
        ensures
            r == (self@.record.count < self@.requested),
    {
        self.record.is_short(self.requested)
    }

    /// Stability the server actually reached.
    pub fn committed(&self) -> (r: Stability)
        ensures
            r == self@.record.committed,
    {
        self.record.committed
    }

    /// Whether this write still owes a COMMIT before it is durable.
    pub fn needs_commit(&self) -> (r: bool)
        ensures
            r == owes_commit(self@.record),
    {
        self.record.needs_commit()
    }

    /// Whether the answer came from the replay ledger rather than the wire.
    pub fn is_replayed(&self) -> (r: bool)
        ensures
            r == self@.replayed,
    {
        self.replayed
    }

    /// Absolute offset the write targeted.
    pub fn offset(&self) -> (r: u64)
        ensures
            r == self@.offset,
    {
        self.offset
    }

    /// The idempotency key this write is the settled answer for.
    pub fn key(&self) -> (r: &IdempotencyKey)
        ensures
            r@ == self@.key,
    {
        &self.key
    }
}

/// Read an object without holding an open state.
///
/// The all-zero special stateid authorises an anonymous read: no open-owner is
/// minted, no seqid is consumed, and nothing has to be closed.
pub fn read_anonymous<T: RawTransport>(
    transport: &mut T,
    object: &PinnedObject,
    offset: u64,
    count: u32,
    deadline: Deadline,
) -> (r: FacadeResult<ReadReply>)
    ensures
        res_view(r) == read_answer(
            T::answer(
                old(transport).world(),
                read_call(object@.handle, anonymous(), offset, count),
                deadline,
            ),
        ),
        final(transport).world() == T::after(
            old(transport).world(),
            read_call(object@.handle, anonymous(), offset, count),
            deadline,
        ),
{
    transport.read(object.handle(), Stateid::anonymous(), offset, count, deadline)
}

/// What [`read_whole`] recovered, and whether that is the whole object.
#[derive(Debug, PartialEq, Eq)]
pub struct WholeRead {
    /// Bytes accumulated, never more than the caller's limit.
    pub data: Vec<u8>,
    /// Whether end of file was reached inside the limit.
    pub complete: bool,
}

/// The content of a [`WholeRead`].
pub struct WholeReadView {
    /// Bytes accumulated, never more than the caller's limit.
    pub data: Seq<u8>,
    /// Whether end of file was reached inside the limit.
    pub complete: bool,
}

impl View for WholeRead {
    type V = WholeReadView;

    open spec fn view(&self) -> WholeReadView {
        WholeReadView {
            data: self.data@,
            complete: self.complete,
        }
    }
}

impl Clone for WholeRead {
    fn clone(&self) -> (r: Self)
        ensures
            r@ == self@,
    {
        WholeRead {
            data: copy_bytes(self.data.as_slice()),
            complete: self.complete,
        }
    }
}

/// Follow short replies from `data` on, to end of file or to `limit` bytes.
pub open spec fn whole_from<T: RawTransport>(
    world: T::World,
    handle: Seq<u8>,
    stateid: Stateid,
    limit: u32,
    chunk: u32,
    data: Seq<u8>,
    deadline: Deadline,
) -> (Result<WholeReadView, FacadeErrorView>, T::World)
    decreases limit - data.len(),
{
    if data.len() >= limit {
        (Ok(WholeReadView { data, complete: false }), world)
    } else {
        let want = if chunk <= limit - data.len() {
            chunk as int
        } else {
            limit - data.len()
        };
        let call = read_call(handle, stateid, data.len() as u64, want as u32);
        let after = T::after(world, call, deadline);
        match read_answer(T::answer(world, call, deadline)) {
            Err(error) => (Err(error), after),
            Ok(reply) => if reply.data.len() > want {
                (
                    Err(
                        malformed(
                            "READ returned "@ + decimal(reply.data.len()) + " bytes for a "@
                                + decimal(want as nat) + "-byte request at offset "@ + decimal(
                                data.len(),
                            ),
                        ),
                    ),
                    after,
                )
            } else if reply.eof {
                (Ok(WholeReadView { data: data + reply.data, complete: true }), after)
            } else if reply.data.len() == 0 {
                (
                    Err(
                        malformed(
                            "READ returned no bytes and no end of file at offset "@ + decimal(
                                data.len(),
                            ) + "; the object could not be read whole"@,
                        ),
                    ),
                    after,
                )
            } else {
                whole_from::<T>(
                    after,
                    handle,
                    stateid,
                    limit,
                    chunk,
                    data + reply.data,
                    deadline,
                )
            },
        }
    }
}

/// The largest chunk one READ asks for: what a reply can carry, within `limit`.
pub open spec fn read_chunk(limits: TransportLimits, limit: u32) -> u32 {
    if read_payload(limits) <= limit {
        read_payload(limits) as u32
    } else {
        limit
    }
}

/// Read one whole small object.
pub open spec fn whole_run<T: RawTransport>(
    world: T::World,
    handle: Seq<u8>,
    stateid: Stateid,
    limit: u32,
    deadline: Deadline,
) -> (Result<WholeReadView, FacadeErrorView>, T::World) {
    let limits = T::limits_of(world);
    if read_payload(limits) == 0 {
        (
            Err(
                malformed(
                    "the transport's "@ + decimal(limits.max_reply_bytes as nat)
                        + "-byte reply budget leaves no room for READ data beside the "@ + decimal(
                        READ_TAG_BYTES as nat,
                    ) + "-byte COMPOUND tag it charges against the same bound"@,
                ),
            ),
            world,
        )
    } else {
        whole_from::<T>(
            world,
            handle,
            stateid,
            limit,
            read_chunk(limits, limit),
            Seq::empty(),
            deadline,
        )
    }
}

/// Read one whole small object into memory, following short replies to EOF.
///
/// A single READ is not a whole file: a server may return fewer bytes than asked
/// for without setting `eof`. The loop advances by what arrived and asks only for
/// the capacity that remains. A reply that carries no bytes and no end of file is
/// refused rather than looped on.
pub fn read_whole<T: RawTransport>(
    transport: &mut T,
    handle: &FileHandle,
    stateid: Stateid,
    limit: u32,
    deadline: Deadline,
) -> (r: FacadeResult<WholeRead>)
    ensures
        (res_view(r), final(transport).world()) == whole_run::<T>(
            old(transport).world(),
            handle@,
            stateid,
            limit,
            deadline,
        ),
{
    let limits = transport.limits();
    let available: usize = limits.max_read_payload();
    if available == 0 {
        return Err(
            malformed_error(
                join3(
                    "the transport's ",
                    decimal_text(limits.max_reply_bytes as u64).as_str(),
                    "-byte reply budget leaves no room for READ data beside the ",
                ).concat(decimal_text(READ_TAG_BYTES as u64).as_str()).concat(
                    "-byte COMPOUND tag it charges against the same bound",
                ).as_str(),
            ),
        );
    }
    let chunk: u32 = if available as u64 <= limit as u64 {
        available as u32
    } else {
        limit
    };
    let mut data: Vec<u8> = Vec::new();
    let ghost whole = whole_run::<T>(transport.world(), handle@, stateid, limit, deadline);
    proof {
        assert(data@ =~= Seq::<u8>::empty());
    }
    loop
        invariant
            data@.len() <= limit,
            chunk > 0 || limit == 0,
            whole == whole_run::<T>(
                old(transport).world(),
                handle@,
                stateid,
                limit,
                deadline,
            ),
            whole == whole_from::<T>(
                transport.world(),
                handle@,
                stateid,
                limit,
                chunk,
                data@,
                deadline,
            ),
        decreases limit - data@.len(),
    {
        let read: u32 = data.len() as u32;
        if read >= limit {
            // At the bound with no end of file yet. Whether that is acceptable is
            // the caller's format question.
            return Ok(WholeRead { data, complete: false });
        }
        let remaining: u32 = limit - read;
        let want: u32 = if chunk <= remaining {
            chunk
        } else {
            remaining
        };
        let reply = match transport.read(handle, stateid, read as u64, want, deadline) {
            Ok(reply) => reply,
            Err(error) => {
                return Err(error);
            },
        };
        if reply.data.len() as u64 > want as u64 {
            return Err(
                malformed_error(
                    join3(
                        "READ returned ",
                        decimal_text(reply.data.len() as u64).as_str(),
                        " bytes for a ",
                    ).concat(decimal_text(want as u64).as_str()).concat(
                        "-byte request at offset ",
                    ).concat(decimal_text(read as u64).as_str()).as_str(),
                ),
            );
        }
        append_bytes(&mut data, reply.data.as_slice());
        if reply.eof {
            return Ok(WholeRead { data, complete: true });
        }
        if reply.data.len() == 0 {
            return Err(
                malformed_error(
                    join3(
                        "READ returned no bytes and no end of file at offset ",
                        decimal_text(read as u64).as_str(),
                        "; the object could not be read whole",
                    ).as_str(),
                ),
            );
        }
    }
}

/// A whole read never exceeds the caller's limit, whatever the server answers.
pub proof fn a_whole_read_stays_within_its_limit<T: RawTransport>(
    world: T::World,
    handle: Seq<u8>,
    stateid: Stateid,
    limit: u32,
    chunk: u32,
    data: Seq<u8>,
    deadline: Deadline,
)
    requires
        data.len() <= limit,
    ensures
        whole_from::<T>(world, handle, stateid, limit, chunk, data, deadline).0 matches Ok(whole)
            ==> whole.data.len() <= limit && data.is_prefix_of(whole.data),
    decreases limit - data.len(),
{
    if data.len() < limit {
        let want = if chunk <= limit - data.len() {
            chunk as int
        } else {
            limit - data.len()
        };
        let call = read_call(handle, stateid, data.len() as u64, want as u32);
        if let Ok(reply) = read_answer(T::answer(world, call, deadline)) {
            if reply.data.len() <= want && !reply.eof && reply.data.len() > 0 {
                a_whole_read_stays_within_its_limit::<T>(
                    T::after(world, call, deadline),
                    handle,
                    stateid,
                    limit,
                    chunk,
                    data + reply.data,
                    deadline,
                );
            }
        }
    }
}

/// A settled write is answered from the ledger: nothing is sent and nothing is
/// recorded again.
pub proof fn a_settled_write_is_not_dispatched_again<T: RawTransport>(
    open: OpenObjectView,
    session: SessionView,
    world: T::World,
    ledger: Ledger,
    identity: MutationIdentityView,
    write: WriteAtView,
    outcome: ReplayOutcomeView,
    deadline: Deadline,
)
    requires
        admit_answer(ledger, write_intent(open.file.identity, identity, write)) == Ok::<
            AdmissionView,
            ReplayError,
        >(AdmissionView::Recorded(outcome)),
    ensures
        write_run::<T>(open, session, world, ledger, identity, write, deadline).1 == world,
        write_run::<T>(open, session, world, ledger, identity, write, deadline).2 == ledger,
{
    reveal(write_run);
}

/// An unstable write is proven durable only by the verifier it returned.
pub proof fn a_commit_succeeds_only_on_the_written_verifier<T: RawTransport>(
    open: OpenObjectView,
    world: T::World,
    ledger: Ledger,
    ticket: WriteTicketView,
    deadline: Deadline,
)
    requires
        owes_commit(ticket.record),
    ensures
        commit_run::<T>(open, world, ledger, ticket, deadline).0 is Ok ==> {
            let call = commit_call(open.file.handle, ticket.offset, ticket.record.count);
            commit_answer(T::answer(world, call, deadline)) matches Ok(reply) && noted_verifier(
                ledger,
                ticket.key,
            ) == Some(reply.verifier)
        },
{
}

/// A write that was sent is settled by its answer: the same write again, whatever
/// the transport has become, sends nothing and answers what the first one did.
pub proof fn a_retried_write_answers_as_the_first_did<T: RawTransport>(
    open: OpenObjectView,
    session: SessionView,
    world: T::World,
    ledger: Ledger,
    identity: MutationIdentityView,
    write: WriteAtView,
    later: T::World,
    deadline: Deadline,
)
    requires
        admit_answer(ledger, write_intent(open.file.identity, identity, write)) == Ok::<
            AdmissionView,
            ReplayError,
        >(AdmissionView::Fresh),
        stateid_answer(open.file, session) is Ok,
    ensures
        ({
            let (first, _, settled) = write_run::<T>(
                open,
                session,
                world,
                ledger,
                identity,
                write,
                deadline,
            );
            let (again, untouched, kept) = write_run::<T>(
                open,
                session,
                later,
                settled,
                identity,
                write,
                deadline,
            );
            &&& untouched == later
            &&& kept == settled
            &&& match first {
                Ok(ticket) => again matches Ok(replay) && replay.replayed && replay.key
                    == ticket.key && replay.offset == ticket.offset && replay.requested
                    == ticket.requested && replay.record.count == ticket.record.count
                    && replay.record.committed == ticket.record.committed && (owes_commit(
                    ticket.record,
                ) ==> replay.record == ticket.record),
                Err(error) => again == Err::<WriteTicketView, FacadeErrorView>(error),
            }
        }),
{
    reveal(write_run);
}

/// The name an object was opened under is never consulted: no read, write or commit
/// depends on it, so neither a rename nor a replacement retargets an open.
pub proof fn the_opened_name_is_never_consulted<T: RawTransport>(
    open: OpenObjectView,
    name: Seq<u8>,
    session: SessionView,
    world: T::World,
    ledger: Ledger,
    identity: MutationIdentityView,
    write: WriteAtView,
    ticket: WriteTicketView,
    deadline: Deadline,
)
    ensures
        ({
            let renamed = OpenObjectView { opened_as: name, ..open };
            &&& write_run::<T>(renamed, session, world, ledger, identity, write, deadline)
                == write_run::<T>(open, session, world, ledger, identity, write, deadline)
            &&& commit_run::<T>(renamed, world, ledger, ticket, deadline) == commit_run::<T>(
                open,
                world,
                ledger,
                ticket,
                deadline,
            )
            &&& stateid_answer(renamed.file, session) == stateid_answer(open.file, session)
            &&& renamed.file.handle == open.file.handle
        }),
{
    reveal(write_run);
}

} // verus!
