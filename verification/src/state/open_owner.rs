//! Open owners, and the OPEN and CLOSE they sequence.
use vstd::prelude::*;

use crate::bytes::{
    append_bytes, be_bytes, big_endian, big_endian_round_trip, copy_bytes, radix_of_eight,
};
use crate::contract::{opt_view, res_view};
use crate::error::{
    seqid_is_held, unproven, unproven_error, FacadeError, FacadeErrorView, FacadeResult, Nfs4Status,
};
use crate::handle::{
    granted, next_seqid, sequence_answer, session_closed, FileHandle, OpenFile, OpenFileView,
    OpenGrant, OpenGrantView, OpenOwner, OpenOwnerView, SequenceState, Session, SessionView, usable,
    Stateid,
};
use crate::identity::{identity_in, identity_of};
use crate::transport::{
    getattr_answer, getattr_call, open_answer, open_call, reply_at, reply_code, shape, wrong_shape,
    Answer, AttrMask, ComponentName, Compound, CompoundView, Deadline, Nfs4Op, OpCode, OpReply,
    OpView, OpenArgs, OpenArgsView, OpenClaim, OpenClaimView, OpenHow, RawTransport, ReplyView,
    ShareAccess, ShareDeny,
};

verus! {

/// What one OPEN asks for.
#[derive(Debug, PartialEq, Eq)]
pub struct OpenRequest {
    /// Directory holding the name.
    pub parent: FileHandle,
    /// The name.
    pub name: ComponentName,
    /// How an existing or absent name is treated.
    pub how: OpenHow,
    /// Share access asked for.
    pub share_access: ShareAccess,
    /// Share deny asked for.
    pub share_deny: ShareDeny,
}

/// The content of a [`OpenRequest`].
pub struct OpenRequestView {
    /// Directory holding the name.
    pub parent: Seq<u8>,
    /// The name.
    pub name: Seq<u8>,
    /// How an existing or absent name is treated.
    pub how: OpenHow,
    /// Share access asked for.
    pub share_access: ShareAccess,
    /// Share deny asked for.
    pub share_deny: ShareDeny,
}

impl View for OpenRequest {
    type V = OpenRequestView;

    open spec fn view(&self) -> OpenRequestView {
        OpenRequestView {
            parent: self.parent@,
            name: self.name@,
            how: self.how,
            share_access: self.share_access,
            share_deny: self.share_deny,
        }
    }
}

/// One minted open owner and the seqid its next operation carries.
#[derive(Debug)]
pub struct OwnerLease {
    owner: OpenOwner,
    seqid: u32,
}

/// The content of an [`OwnerLease`].
pub struct OwnerLeaseView {
    /// The owner.
    pub owner: OpenOwnerView,
    /// The seqid its next operation carries.
    pub seqid: u32,
}

impl View for OwnerLease {
    type V = OwnerLeaseView;

    closed spec fn view(&self) -> OwnerLeaseView {
        OwnerLeaseView { owner: self.owner@, seqid: self.seqid }
    }
}

/// Mints open owners for one session.
#[derive(Debug)]
pub struct OpenOwnerRegistry {
    session: Session,
    label: Vec<u8>,
    next: u64,
}

/// The content of an [`OpenOwnerRegistry`].
pub struct RegistryView {
    /// The session owners are minted under.
    pub session: SessionView,
    /// What every owner begins with.
    pub label: Seq<u8>,
    /// The serial of the next owner.
    pub next: u64,
}

impl View for OpenOwnerRegistry {
    type V = RegistryView;

    closed spec fn view(&self) -> RegistryView {
        RegistryView { session: self.session@, label: self.label@, next: self.next }
    }
}

/// What asking for an owner answers: a fresh owner per call, until the session is
/// closed or its serials run out.
pub open spec fn allocation(owners: RegistryView) -> Result<OwnerLeaseView, FacadeErrorView> {
    if owners.session.closed {
        Err(session_closed())
    } else if owners.next == u64::MAX {
        Err(unproven("open-owner serials are exhausted"@))
    } else {
        Ok(
            OwnerLeaseView {
                owner: OpenOwnerView {
                    client_id: owners.session.core.client_id,
                    owner: owners.label + be_bytes(owners.next as nat, 8),
                },
                seqid: 0,
            },
        )
    }
}

/// The registry after asking for an owner.
pub open spec fn after_allocation(owners: RegistryView) -> RegistryView {
    if allocation(owners) is Ok {
        RegistryView { next: (owners.next + 1) as u64, ..owners }
    } else {
        owners
    }
}

/// What an OPEN led to.
#[derive(Debug)]
pub enum OpenOutcome {
    /// The file is open and its state is usable.
    Opened(OpenFile),
    /// OPEN succeeded but the server refused OPEN_CONFIRM.
    Unconfirmed {
        /// The owner, with its sequence as the refusal left it.
        lease: OwnerLease,
        /// The refusal.
        error: FacadeError,
    },
    /// The server refused the OPEN.
    Rejected {
        /// The owner, with its sequence as the refusal left it.
        lease: OwnerLease,
        /// The refusal.
        error: FacadeError,
    },
    /// What the server did is unknown or cannot be used; the owner is given up.
    Abandoned {
        /// Why.
        error: FacadeError,
    },
}

/// The content of an [`OpenOutcome`].
pub enum OpenOutcomeView {
    /// See [`OpenOutcome::Opened`].
    Opened(OpenFileView),
    /// See [`OpenOutcome::Unconfirmed`].
    Unconfirmed {
        /// The owner, with its sequence as the refusal left it.
        lease: OwnerLeaseView,
        /// The refusal.
        error: FacadeErrorView,
    },
    /// See [`OpenOutcome::Rejected`].
    Rejected {
        /// The owner, with its sequence as the refusal left it.
        lease: OwnerLeaseView,
        /// The refusal.
        error: FacadeErrorView,
    },
    /// See [`OpenOutcome::Abandoned`].
    Abandoned {
        /// Why.
        error: FacadeErrorView,
    },
}

impl View for OpenOutcome {
    type V = OpenOutcomeView;

    open spec fn view(&self) -> OpenOutcomeView {
        match *self {
            OpenOutcome::Opened(file) => OpenOutcomeView::Opened(file@),
            OpenOutcome::Unconfirmed { lease, error } => OpenOutcomeView::Unconfirmed {
                lease: lease@,
                error: error@,
            },
            OpenOutcome::Rejected { lease, error } => OpenOutcomeView::Rejected {
                lease: lease@,
                error: error@,
            },
            OpenOutcome::Abandoned { error } => OpenOutcomeView::Abandoned { error: error@ },
        }
    }
}

/// The lease after an operation was refused with `status`.
pub open spec fn lease_after(lease: OwnerLeaseView, status: Nfs4Status) -> OwnerLeaseView {
    if seqid_is_held(status.0) {
        lease
    } else {
        OwnerLeaseView { seqid: next_seqid(lease.seqid), ..lease }
    }
}

/// The OPEN arguments a request and a lease make.
pub open spec fn args_of(lease: OwnerLeaseView, request: OpenRequestView) -> OpenArgsView {
    OpenArgsView {
        seqid: lease.seqid,
        share_access: request.share_access,
        share_deny: request.share_deny,
        owner: lease.owner,
        how: request.how,
        claim: OpenClaimView::Null { name: request.name },
    }
}

/// `PUTFH; OPEN_CONFIRM`.
pub open spec fn confirm_call(handle: Seq<u8>, stateid: Stateid, seqid: u32) -> CompoundView {
    CompoundView {
        tag: "confirm"@,
        ops: seq![OpView::PutFh(handle), OpView::OpenConfirm { stateid, seqid }],
    }
}

/// What the answer to [`confirm_call`] says.
pub open spec fn confirm_answer(answer: Answer) -> Result<Stateid, FacadeErrorView> {
    match answer {
        Err(error) => Err(FacadeErrorView::Transport(error)),
        Ok(reply) => match reply_at(reply, 1) {
            Err(error) => Err(error),
            Ok(ReplyView::OpenConfirm(stateid)) => Ok(stateid),
            Ok(other) => Err(wrong_shape(OpCode::OpenConfirm, reply_code(other))),
        },
    }
}

/// Drive one OPEN: OPEN, OPEN_CONFIRM where the server asks for it, and GETATTR to
/// prove which object was opened.
#[verifier::opaque]
pub open spec fn open_run<T: RawTransport>(
    session: SessionView,
    lease: OwnerLeaseView,
    world: T::World,
    request: OpenRequestView,
    deadline: Deadline,
) -> (OpenOutcomeView, T::World) {
    let call = open_call(request.parent, args_of(lease, request));
    let after = T::after(world, call, deadline);
    match open_answer(T::answer(world, call, deadline)) {
        Err(error) => match error {
            FacadeErrorView::Protocol(failure) => if failure.op == OpCode::Open {
                (
                    OpenOutcomeView::Rejected {
                        lease: lease_after(lease, failure.status),
                        error,
                    },
                    after,
                )
            } else if failure.op == OpCode::PutFh {
                (OpenOutcomeView::Rejected { lease, error }, after)
            } else {
                (OpenOutcomeView::Abandoned { error }, after)
            },
            _ => (OpenOutcomeView::Abandoned { error }, after),
        },
        Ok((open, handle)) => {
            let used = OwnerLeaseView { seqid: next_seqid(lease.seqid), ..lease };
            if open.confirm_required {
                let confirm = confirm_call(handle, open.stateid, used.seqid);
                let confirmed = T::after(after, confirm, deadline);
                match confirm_answer(T::answer(after, confirm, deadline)) {
                    Err(error) => match error {
                        FacadeErrorView::Protocol(failure) => (
                            OpenOutcomeView::Unconfirmed {
                                lease: lease_after(used, failure.status),
                                error,
                            },
                            confirmed,
                        ),
                        _ => (OpenOutcomeView::Abandoned { error }, confirmed),
                    },
                    Ok(stateid) => prove_run::<T>(
                        session,
                        OwnerLeaseView { seqid: next_seqid(used.seqid), ..used },
                        confirmed,
                        request,
                        handle,
                        stateid,
                        deadline,
                    ),
                }
            } else {
                prove_run::<T>(session, used, after, request, handle, open.stateid, deadline)
            }
        },
    }
}

/// Prove which object an OPEN resolved to, and adopt it.
#[verifier::opaque]
pub open spec fn prove_run<T: RawTransport>(
    session: SessionView,
    lease: OwnerLeaseView,
    world: T::World,
    request: OpenRequestView,
    handle: Seq<u8>,
    stateid: Stateid,
    deadline: Deadline,
) -> (OpenOutcomeView, T::World) {
    let call = getattr_call(handle, AttrMask(AttrMask::IDENTITY));
    let after = T::after(world, call, deadline);
    (
        match getattr_answer(T::answer(world, call, deadline)) {
            Err(error) => OpenOutcomeView::Abandoned { error },
            Ok(attributes) => match identity_in(attributes) {
                Err(error) => OpenOutcomeView::Abandoned { error },
                Ok(identity) => if session.closed {
                    OpenOutcomeView::Abandoned { error: session_closed() }
                } else if lease.owner.client_id != session.core.client_id {
                    OpenOutcomeView::Abandoned {
                        error: unproven("open owner belongs to a different client id"@),
                    }
                } else {
                    OpenOutcomeView::Opened(
                        granted(
                            OpenGrantView {
                                handle,
                                identity,
                                owner: lease.owner,
                                stateid,
                                next_seqid: lease.seqid,
                                confirmed: true,
                                share_access: request.share_access,
                                share_deny: request.share_deny,
                            },
                            session.core,
                        ),
                    )
                },
            },
        },
        after,
    )
}

impl OpenOutcome {
    /// The failure, when the outcome carries one.
    pub fn error(&self) -> (r: Option<&FacadeError>)
        ensures
            match self@ {
                OpenOutcomeView::Opened(_) => r is None,
                OpenOutcomeView::Unconfirmed { error, .. } => r is Some && r->0@ == error,
                OpenOutcomeView::Rejected { error, .. } => r is Some && r->0@ == error,
                OpenOutcomeView::Abandoned { error } => r is Some && r->0@ == error,
            },
    {
        match self {
            OpenOutcome::Opened(_) => None,
            OpenOutcome::Unconfirmed { error, .. } => Some(error),
            OpenOutcome::Rejected { error, .. } => Some(error),
            OpenOutcome::Abandoned { error } => Some(error),
        }
    }
}

impl OwnerLease {
    fn refused(self, status: Nfs4Status) -> (r: Self)
        ensures
            r@ == lease_after(self@, status),
    {
        if status.holds_seqid() {
            self
        } else {
            self.used()
        }
    }

    fn used(self) -> (r: Self)
        ensures
            r@ == (OwnerLeaseView { seqid: next_seqid(self@.seqid), ..self@ }),
    {
        OwnerLease { owner: self.owner, seqid: self.seqid.wrapping_add(1) }
    }
}

impl OpenOwnerRegistry {
    /// A registry that mints owners beginning with `label` under `session`.
    pub fn new(session: Session, label: Vec<u8>) -> (r: Self)
        ensures
            r@ == (RegistryView { session: session@, label: label@, next: 0 }),
    {
        OpenOwnerRegistry { session, label, next: 0 }
    }

    /// The session owners are minted under.
    pub fn session(&self) -> (r: &Session)
        ensures
            r@ == self@.session,
    {
        &self.session
    }

    /// Close the session owners are minted under.
    pub fn close_session(&mut self)
        ensures
            final(self)@ == (RegistryView {
                session: SessionView { closed: true, ..old(self)@.session },
                ..old(self)@
            }),
    {
        self.session.close();
    }

    /// Mint one owner.
    pub fn allocate(&mut self) -> (r: FacadeResult<OwnerLease>)
        ensures
            res_view(r) == allocation(old(self)@),
            final(self)@ == after_allocation(old(self)@),
    {
        if self.session.is_closed() {
            return Err(unproven_error("session closed"));
        }
        if self.next == u64::MAX {
            return Err(unproven_error("open-owner serials are exhausted"));
        }
        let mut bytes = copy_bytes(self.label.as_slice());
        let serial = big_endian(self.next, 8);
        append_bytes(&mut bytes, serial.as_slice());
        let owner = match self.session.open_owner(bytes) {
            Ok(owner) => owner,
            Err(error) => {
                return Err(error);
            },
        };
        self.next = self.next + 1;
        Ok(OwnerLease { owner, seqid: 0 })
    }

    /// Drive one OPEN with a minted owner.
    pub fn open<T: RawTransport>(
        &self,
        lease: OwnerLease,
        transport: &mut T,
        request: &OpenRequest,
        deadline: Deadline,
    ) -> (r: OpenOutcome)
        ensures
            (r@, final(transport).world()) == open_run::<T>(
                self@.session,
                lease@,
                old(transport).world(),
                request@,
                deadline,
            ),
    {
        proof {
            reveal(open_run);
        }
        let args = OpenArgs {
            seqid: lease.seqid,
            share_access: request.share_access,
            share_deny: request.share_deny,
            owner: lease.owner.clone(),
            how: request.how,
            claim: OpenClaim::Null { name: request.name.clone() },
        };
        proof {
            assert(args@ == args_of(lease@, request@));
        }
        let (open, handle) = match transport.open(&request.parent, args, deadline) {
            Ok(opened) => opened,
            Err(error) => {
                if let FacadeError::Protocol(failure) = &error {
                    if failure.op == OpCode::Open {
                        return OpenOutcome::Rejected {
                            lease: lease.refused(failure.status),
                            error,
                        };
                    }
                    if failure.op == OpCode::PutFh {
                        return OpenOutcome::Rejected { lease, error };
                    }
                }
                return OpenOutcome::Abandoned { error };
            },
        };
        let used = lease.used();
        if open.confirm_required {
            match self.confirm(transport, &handle, open.stateid, used.seqid, deadline) {
                Err(error) => {
                    if let FacadeError::Protocol(failure) = &error {
                        return OpenOutcome::Unconfirmed {
                            lease: used.refused(failure.status),
                            error,
                        };
                    }
                    OpenOutcome::Abandoned { error }
                },
                Ok(stateid) => self.prove(
                    used.used(),
                    transport,
                    request,
                    handle,
                    stateid,
                    deadline,
                ),
            }
        } else {
            self.prove(used, transport, request, handle, open.stateid, deadline)
        }
    }

    fn confirm<T: RawTransport>(
        &self,
        transport: &mut T,
        handle: &FileHandle,
        stateid: Stateid,
        seqid: u32,
        deadline: Deadline,
    ) -> (r: FacadeResult<Stateid>)
        ensures
            res_view(r) == confirm_answer(
                T::answer(
                    old(transport).world(),
                    confirm_call(handle@, stateid, seqid),
                    deadline,
                ),
            ),
            final(transport).world() == T::after(
                old(transport).world(),
                confirm_call(handle@, stateid, seqid),
                deadline,
            ),
    {
        let call = Compound::new(
            "confirm",
            vec![Nfs4Op::PutFh(handle.clone()), Nfs4Op::OpenConfirm { stateid, seqid }],
        );
        proof {
            assert(call@ =~= confirm_call(handle@, stateid, seqid));
        }
        match transport.submit(call, deadline) {
            Err(error) => Err(FacadeError::Transport(error)),
            Ok(reply) => match reply.expect(1) {
                Err(error) => Err(error),
                Ok(OpReply::OpenConfirm(confirmed)) => Ok(*confirmed),
                Ok(other) => Err(shape(OpCode::OpenConfirm, other.opcode())),
            },
        }
    }

    fn prove<T: RawTransport>(
        &self,
        lease: OwnerLease,
        transport: &mut T,
        request: &OpenRequest,
        handle: FileHandle,
        stateid: Stateid,
        deadline: Deadline,
    ) -> (r: OpenOutcome)
        ensures
            (r@, final(transport).world()) == prove_run::<T>(
                self@.session,
                lease@,
                old(transport).world(),
                request@,
                handle@,
                stateid,
                deadline,
            ),
    {
        proof {
            reveal(prove_run);
        }
        let attributes = match transport.getattr(
            &handle,
            AttrMask(AttrMask::IDENTITY),
            deadline,
        ) {
            Ok(attributes) => attributes,
            Err(error) => {
                return OpenOutcome::Abandoned { error };
            },
        };
        let identity = match identity_of(&attributes) {
            Ok(identity) => identity,
            Err(error) => {
                return OpenOutcome::Abandoned { error };
            },
        };
        let grant = OpenGrant {
            handle,
            identity,
            owner: lease.owner,
            stateid,
            next_seqid: lease.seqid,
            confirmed: true,
            share_access: request.share_access,
            share_deny: request.share_deny,
        };
        match self.session.adopt_open(grant) {
            Ok(file) => OpenOutcome::Opened(file),
            Err(error) => OpenOutcome::Abandoned { error },
        }
    }
}

/// What a CLOSE led to.
#[derive(Debug)]
pub enum CloseOutcome {
    /// The server released the open.
    Closed(Stateid),
    /// The server refused; the open is still valid.
    Rejected {
        /// The open, with its sequence as the refusal left it.
        file: OpenFile,
        /// The refusal.
        error: FacadeError,
    },
    /// What the server did is unknown; the open is given up.
    Abandoned {
        /// Why.
        error: FacadeError,
    },
}

/// The content of a [`CloseOutcome`].
pub enum CloseOutcomeView {
    /// See [`CloseOutcome::Closed`].
    Closed(Stateid),
    /// See [`CloseOutcome::Rejected`].
    Rejected {
        /// The open, with its sequence as the refusal left it.
        file: OpenFileView,
        /// The refusal.
        error: FacadeErrorView,
    },
    /// See [`CloseOutcome::Abandoned`].
    Abandoned {
        /// Why.
        error: FacadeErrorView,
    },
}

impl View for CloseOutcome {
    type V = CloseOutcomeView;

    open spec fn view(&self) -> CloseOutcomeView {
        match *self {
            CloseOutcome::Closed(stateid) => CloseOutcomeView::Closed(stateid),
            CloseOutcome::Rejected { file, error } => CloseOutcomeView::Rejected {
                file: file@,
                error: error@,
            },
            CloseOutcome::Abandoned { error } => CloseOutcomeView::Abandoned { error: error@ },
        }
    }
}

/// `PUTFH; CLOSE`.
pub open spec fn close_call(handle: Seq<u8>, stateid: Stateid, seqid: u32) -> CompoundView {
    CompoundView {
        tag: "close"@,
        ops: seq![OpView::PutFh(handle), OpView::Close { seqid, stateid }],
    }
}

/// What the answer to [`close_call`] says.
pub open spec fn close_answer(answer: Answer) -> Result<Stateid, FacadeErrorView> {
    match answer {
        Err(error) => Err(FacadeErrorView::Transport(error)),
        Ok(reply) => match reply_at(reply, 1) {
            Err(error) => Err(error),
            Ok(ReplyView::Close(stateid)) => Ok(stateid),
            Ok(other) => Err(wrong_shape(OpCode::Close, reply_code(other))),
        },
    }
}

/// Drive one CLOSE. Nothing is sent where the owner's sequence cannot be used.
#[verifier::opaque]
pub open spec fn close_run<T: RawTransport>(
    file: OpenFileView,
    session: SessionView,
    world: T::World,
    deadline: Deadline,
) -> (CloseOutcomeView, T::World) {
    match sequence_answer(file, session) {
        Err(error) => (CloseOutcomeView::Abandoned { error }, world),
        Ok(seqid) => {
            let call = close_call(file.handle, file.stateid, seqid);
            (
                match close_answer(T::answer(world, call, deadline)) {
                    Ok(stateid) => CloseOutcomeView::Closed(stateid),
                    Err(error) => match error {
                        FacadeErrorView::Protocol(failure) => CloseOutcomeView::Rejected {
                            file: OpenFileView {
                                sequence: SequenceState::Ready(
                                    if seqid_is_held(failure.status.0) {
                                        seqid
                                    } else {
                                        next_seqid(seqid)
                                    },
                                ),
                                ..file
                            },
                            error,
                        },
                        _ => CloseOutcomeView::Abandoned { error },
                    },
                },
                T::after(world, call, deadline),
            )
        },
    }
}

/// The failure a CLOSE amounts to, if it amounts to one.
pub open spec fn close_failure(outcome: CloseOutcomeView) -> Option<FacadeErrorView> {
    match outcome {
        CloseOutcomeView::Closed(_) => None,
        CloseOutcomeView::Rejected { error, .. } => Some(error),
        CloseOutcomeView::Abandoned { error } => Some(error),
    }
}

impl CloseOutcome {
    /// The failure, when the outcome carries one.
    pub fn failure(self) -> (r: Option<FacadeError>)
        ensures
            opt_view(r) == close_failure(self@),
    {
        match self {
            CloseOutcome::Closed(_) => None,
            CloseOutcome::Rejected { error, .. } => Some(error),
            CloseOutcome::Abandoned { error } => Some(error),
        }
    }
}

/// Close an open file, consuming it so a closed stateid cannot be reused.
pub fn close<T: RawTransport>(
    file: OpenFile,
    session: &Session,
    transport: &mut T,
    deadline: Deadline,
) -> (r: CloseOutcome)
    ensures
        (r@, final(transport).world()) == close_run::<T>(
            file@,
            session@,
            old(transport).world(),
            deadline,
        ),
{
    proof {
        reveal(close_run);
    }
    let mut open = file;
    let handle = open.handle().clone();
    let answer = match open.sequence(session) {
        Err(error) => {
            return CloseOutcome::Abandoned { error };
        },
        Ok(op) => {
            let seqid: u32 = op.seqid();
            let stateid = op.stateid();
            let call = Compound::new(
                "close",
                vec![Nfs4Op::PutFh(handle), Nfs4Op::Close { seqid, stateid }],
            );
            proof {
                assert(call@ =~= close_call(file@.handle, file@.stateid, seqid));
            }
            let answer: FacadeResult<Stateid> = match transport.submit(call, deadline) {
                Err(error) => Err(FacadeError::Transport(error)),
                Ok(reply) => match reply.expect(1) {
                    Err(error) => Err(error),
                    Ok(OpReply::Close(closed)) => Ok(*closed),
                    Ok(other) => Err(shape(OpCode::Close, other.opcode())),
                },
            };
            match &answer {
                Ok(stateid) => op.commit(*stateid),
                Err(FacadeError::Protocol(failure)) => op.abort(failure.status),
                Err(_) => op.abandon(),
            }
            answer
        },
    };
    match answer {
        Ok(stateid) => CloseOutcome::Closed(stateid),
        Err(error) => {
            if let FacadeError::Protocol(_) = &error {
                return CloseOutcome::Rejected { file: open, error };
            }
            CloseOutcome::Abandoned { error }
        },
    }
}

/// No two owners a registry mints are the same, however many calls lie between.
pub proof fn every_owner_is_fresh(first: RegistryView, later: RegistryView)
    requires
        allocation(first) is Ok,
        allocation(later) is Ok,
        first.label == later.label,
        first.next < later.next,
    ensures
        allocation(first)->Ok_0.owner.owner != allocation(later)->Ok_0.owner.owner,
{
    radix_of_eight();
    big_endian_round_trip(first.next as nat, 8);
    big_endian_round_trip(later.next as nat, 8);
    let a = allocation(first)->Ok_0.owner.owner;
    let b = allocation(later)->Ok_0.owner.owner;
    let n = first.label.len() as int;
    assert(a.skip(n) =~= be_bytes(first.next as nat, 8));
    assert(b.skip(n) =~= be_bytes(later.next as nat, 8));
}

/// A refused CLOSE leaves an open that can be closed again: its handle, identity
/// and stateid are unchanged and its sequence is usable.
pub proof fn a_refused_close_can_be_retried<T: RawTransport>(
    file: OpenFileView,
    session: SessionView,
    world: T::World,
    deadline: Deadline,
)
    ensures
        close_run::<T>(file, session, world, deadline).0 matches CloseOutcomeView::Rejected {
            file: kept,
            ..
        } ==> {
            &&& kept.handle == file.handle
            &&& kept.identity == file.identity
            &&& kept.stateid == file.stateid
            &&& kept.sequence is Ready
            &&& usable(file, session)
        },
{
    reveal(close_run);
}

} // verus!
