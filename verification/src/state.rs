//! Protocol state: the client incarnation, open owners and verifiers.
//!
//! A client incarnation is what SETCLIENTID and SETCLIENTID_CONFIRM establish. It
//! belongs to one connection generation, and proves nothing about who may write.
use vstd::prelude::*;

use crate::contract::res_view;
use crate::error::{unproven, unproven_error, FacadeError, FacadeErrorView, FacadeResult};
use crate::handle::{ClientId, FileHandle};
use crate::transport::{
    getattr_answer, getattr_call, reply_at, reply_code, shape, wrong_shape, Answer, AttrMask,
    Compound, CompoundView, ConnectionEpoch, ConnectionState, Deadline, Nfs4Op, OpCode, OpReply,
    OpView, RawTransport, ReplyView, Verifier,
};

pub mod client_id;
pub mod lease;
pub mod open_owner;
pub mod verifiers;

use client_id::{ClientIdentity, ClientIdentityView};
use lease::{epoch_verdict, EpochVerdict};

verus! {

/// One confirmed client incarnation.
#[derive(Clone, Copy, Debug, PartialEq, Eq)]
pub struct Incarnation {
    /// The client id the server assigned.
    pub client_id: ClientId,
    /// The connection generation it was established on.
    pub epoch: ConnectionEpoch,
    /// The lease the server grants, in seconds.
    pub lease_seconds: u32,
    /// When it was established, in monotonic milliseconds.
    pub established_millis: u64,
}

/// What establishing an incarnation led to.
#[derive(Debug)]
pub enum EstablishOutcome {
    /// The incarnation is confirmed.
    Established(Box<Incarnation>),
    /// The server refused, the answer could not be used, or its outcome is unknown.
    Refused(FacadeError),
}

/// The content of an [`EstablishOutcome`].
pub open spec fn established(outcome: EstablishOutcome) -> Result<Incarnation, FacadeErrorView> {
    match outcome {
        EstablishOutcome::Established(incarnation) => Ok(*incarnation),
        EstablishOutcome::Refused(error) => Err(error@),
    }
}

impl EstablishOutcome {
    /// The failure, when the outcome carries one.
    pub fn error(&self) -> (r: Option<&FacadeError>)
        ensures
            match established(*self) {
                Ok(_) => r is None,
                Err(error) => r is Some && r->0@ == error,
            },
    {
        match self {
            EstablishOutcome::Established(_) => None,
            EstablishOutcome::Refused(error) => Some(error),
        }
    }
}

/// SETCLIENTID.
pub open spec fn set_client_call(identity: ClientIdentityView) -> CompoundView {
    CompoundView {
        tag: "setclid"@,
        ops: seq![OpView::SetClientId { verifier: identity.boot_verifier, id: identity.id }],
    }
}

/// What the answer to [`set_client_call`] says.
pub open spec fn set_client_answer(answer: Answer) -> Result<
    (ClientId, Verifier),
    FacadeErrorView,
> {
    match answer {
        Err(error) => Err(FacadeErrorView::Transport(error)),
        Ok(reply) => match reply_at(reply, 0) {
            Err(error) => Err(error),
            Ok(ReplyView::SetClientId { client_id, confirm }) => Ok((client_id, confirm)),
            Ok(other) => Err(wrong_shape(OpCode::SetClientId, reply_code(other))),
        },
    }
}

/// SETCLIENTID_CONFIRM.
pub open spec fn confirm_client_call(client_id: ClientId, confirm: Verifier) -> CompoundView {
    CompoundView {
        tag: "clidcnf"@,
        ops: seq![OpView::SetClientIdConfirm { client_id, confirm }],
    }
}

/// What the answer to [`confirm_client_call`] says.
pub open spec fn confirm_client_answer(answer: Answer) -> Result<(), FacadeErrorView> {
    match answer {
        Err(error) => Err(FacadeErrorView::Transport(error)),
        Ok(reply) => match reply_at(reply, 0) {
            Err(error) => Err(error),
            Ok(ReplyView::SetClientIdConfirm) => Ok(()),
            Ok(other) => Err(wrong_shape(OpCode::SetClientIdConfirm, reply_code(other))),
        },
    }
}

/// The incarnation once the server has confirmed the client id and answered for
/// its lease.
pub open spec fn incarnation_of(
    client_id: ClientId,
    connection: ConnectionState,
    lease: Result<Option<u32>, FacadeErrorView>,
    now_millis: u64,
) -> Result<Incarnation, FacadeErrorView> {
    match lease {
        Err(error) => Err(error),
        Ok(None) => Err(
            unproven("the server did not return FATTR4_LEASE_TIME; the lease is unproven"@),
        ),
        Ok(Some(lease_seconds)) => match connection {
            ConnectionState::Connected(epoch) => Ok(
                Incarnation { client_id, epoch, lease_seconds, established_millis: now_millis },
            ),
            _ => Err(unproven("the connection was lost while the client id was confirmed"@)),
        },
    }
}

/// Establish a client incarnation: SETCLIENTID, SETCLIENTID_CONFIRM, and the lease
/// time of the root.
pub open spec fn establish_run<T: RawTransport>(
    identity: ClientIdentityView,
    world: T::World,
    root: Seq<u8>,
    now_millis: u64,
    deadline: Deadline,
) -> (Result<Incarnation, FacadeErrorView>, T::World) {
    let set = set_client_call(identity);
    let named = T::after(world, set, deadline);
    match set_client_answer(T::answer(world, set, deadline)) {
        Err(error) => (Err(error), named),
        Ok((client_id, confirm)) => {
            let confirming = confirm_client_call(client_id, confirm);
            let confirmed = T::after(named, confirming, deadline);
            match confirm_client_answer(T::answer(named, confirming, deadline)) {
                Err(error) => (Err(error), confirmed),
                Ok(()) => {
                    let look = getattr_call(root, AttrMask(AttrMask::LEASE_TIME));
                    let after = T::after(confirmed, look, deadline);
                    (
                        incarnation_of(
                            client_id,
                            T::connection_of(after),
                            match getattr_answer(T::answer(confirmed, look, deadline)) {
                                Err(error) => Err(error),
                                Ok(attributes) => Ok(attributes.lease_time),
                            },
                            now_millis,
                        ),
                        after,
                    )
                },
            }
        },
    }
}

/// The client's protocol state: who it is, and the incarnation it adopted.
#[derive(Debug)]
pub struct ProtocolState {
    identity: ClientIdentity,
    current: Option<Incarnation>,
}

/// The content of a [`ProtocolState`].
pub struct ProtocolStateView {
    /// Who this client is.
    pub identity: ClientIdentityView,
    /// The adopted incarnation, where there is one.
    pub current: Option<Incarnation>,
}

impl View for ProtocolState {
    type V = ProtocolStateView;

    closed spec fn view(&self) -> ProtocolStateView {
        ProtocolStateView { identity: self.identity@, current: self.current }
    }
}

impl ProtocolState {
    /// State of a client that has established nothing.
    pub fn new(identity: ClientIdentity) -> (r: Self)
        ensures
            r@ == (ProtocolStateView { identity: identity@, current: None }),
    {
        ProtocolState { identity, current: None }
    }

    /// The adopted incarnation, where there is one.
    pub fn current(&self) -> (r: Option<Incarnation>)
        ensures
            r == self@.current,
    {
        self.current
    }

    /// Adopt an established incarnation.
    pub fn adopt(&mut self, incarnation: Incarnation)
        ensures
            final(self)@ == (ProtocolStateView { current: Some(incarnation), ..old(self)@ }),
    {
        self.current = Some(incarnation);
    }

    /// Whether the adopted incarnation is still on the connection it was built on.
    pub fn observe<T: RawTransport>(&self, transport: &T) -> (r: Option<EpochVerdict>)
        ensures
            r == (match self@.current {
                None => None,
                Some(incarnation) => Some(
                    epoch_verdict(incarnation.epoch, T::connection_of(transport.world())),
                ),
            }),
    {
        match self.current {
            None => None,
            Some(incarnation) => Some(
                EpochVerdict::of(incarnation.epoch, transport.connection()),
            ),
        }
    }

    /// Establish a client incarnation, without adopting it.
    pub fn establish<T: RawTransport>(
        &self,
        transport: &mut T,
        root: &FileHandle,
        now_millis: u64,
        deadline: Deadline,
    ) -> (r: EstablishOutcome)
        ensures
            (established(r), final(transport).world()) == establish_run::<T>(
                self@.identity,
                old(transport).world(),
                root@,
                now_millis,
                deadline,
            ),
    {
        let (client_id, confirm) = match self.set_client(transport, deadline) {
            Ok(named) => named,
            Err(error) => {
                return EstablishOutcome::Refused(error);
            },
        };
        match self.confirm_client(transport, client_id, confirm, deadline) {
            Ok(()) => {},
            Err(error) => {
                return EstablishOutcome::Refused(error);
            },
        }
        let attributes = match transport.getattr(
            root,
            AttrMask(AttrMask::LEASE_TIME),
            deadline,
        ) {
            Ok(attributes) => attributes,
            Err(error) => {
                return EstablishOutcome::Refused(error);
            },
        };
        let lease_seconds: u32 = match attributes.lease_time {
            Some(seconds) => seconds,
            None => {
                return EstablishOutcome::Refused(
                    unproven_error(
                        "the server did not return FATTR4_LEASE_TIME; the lease is unproven",
                    ),
                );
            },
        };
        match transport.connection() {
            ConnectionState::Connected(epoch) => EstablishOutcome::Established(
                Box::new(
                    Incarnation {
                        client_id,
                        epoch,
                        lease_seconds,
                        established_millis: now_millis,
                    },
                ),
            ),
            _ => EstablishOutcome::Refused(
                unproven_error("the connection was lost while the client id was confirmed"),
            ),
        }
    }

    fn set_client<T: RawTransport>(&self, transport: &mut T, deadline: Deadline) -> (r:
        FacadeResult<(ClientId, Verifier)>)
        ensures
            (match r {
                Ok(named) => Ok(named),
                Err(error) => Err(error@),
            }) == set_client_answer(
                T::answer(
                    old(transport).world(),
                    set_client_call(self@.identity),
                    deadline,
                ),
            ),
            final(transport).world() == T::after(
                old(transport).world(),
                set_client_call(self@.identity),
                deadline,
            ),
    {
        let call = Compound::new(
            "setclid",
            vec![
                Nfs4Op::SetClientId {
                    verifier: self.identity.boot_verifier(),
                    id: self.identity.copied_id(),
                },
            ],
        );
        proof {
            assert(call@ =~= set_client_call(self@.identity));
        }
        match transport.submit(call, deadline) {
            Err(error) => Err(FacadeError::Transport(error)),
            Ok(reply) => match reply.expect(0) {
                Err(error) => Err(error),
                Ok(OpReply::SetClientId { client_id, confirm }) => Ok((*client_id, *confirm)),
                Ok(other) => Err(shape(OpCode::SetClientId, other.opcode())),
            },
        }
    }

    fn confirm_client<T: RawTransport>(
        &self,
        transport: &mut T,
        client_id: ClientId,
        confirm: Verifier,
        deadline: Deadline,
    ) -> (r: FacadeResult<()>)
        ensures
            res_view(r) == confirm_client_answer(
                T::answer(
                    old(transport).world(),
                    confirm_client_call(client_id, confirm),
                    deadline,
                ),
            ),
            final(transport).world() == T::after(
                old(transport).world(),
                confirm_client_call(client_id, confirm),
                deadline,
            ),
    {
        let call = Compound::new(
            "clidcnf",
            vec![Nfs4Op::SetClientIdConfirm { client_id, confirm }],
        );
        proof {
            assert(call@ =~= confirm_client_call(client_id, confirm));
        }
        match transport.submit(call, deadline) {
            Err(error) => Err(FacadeError::Transport(error)),
            Ok(reply) => match reply.expect(0) {
                Err(error) => Err(error),
                Ok(OpReply::SetClientIdConfirm) => Ok(()),
                Ok(other) => Err(shape(OpCode::SetClientIdConfirm, other.opcode())),
            },
        }
    }
}

} // verus!
