//! One transport and the protocol state driven over it.
//!
//! The two are held together because a connection change invalidates the state
//! built on it, and a caller cannot then renew a lease against a transport the
//! state never saw.
use vstd::prelude::*;

use crate::bytes::{append_bytes, copy_bytes};
use crate::contract::res_view;
use crate::error::{FacadeError, FacadeErrorView, FacadeResult, TransportErrorView};
use crate::fake::{FakeTransport, FakeWorld};
use crate::handle::FileHandle;
use crate::state::client_id::{ClientIdentity, ClientIdentityView};
use crate::state::lease::{epoch_verdict, EpochVerdict};
use crate::state::{establish_run, established, EstablishOutcome, ProtocolState, ProtocolStateView};
use crate::transport::{
    root_answer, root_call, ConnectionEpoch, ConnectionState, Deadline, RawTransport,
    TransportResult, Verifier,
};

verus! {

/// Which transport a session is running over.
///
/// Carried so that a caller driving several backends through one code path can
/// prove which one answered.
#[derive(Clone, Copy, Debug, PartialEq, Eq, Structural)]
pub enum Backend {
    /// The in-memory fake. No socket, no I/O.
    Fake,
    /// Real NFSv4.0 over TCP with AUTH_SYS.
    Libnfs,
}

impl Backend {
    /// Whether this backend actually speaks to a server. A criterion met only
    /// under the fake is a shape check, not an acceptance result.
    pub fn is_live(self) -> (r: bool)
        ensures
            r == (self == Backend::Libnfs),
    {
        match self {
            Backend::Libnfs => true,
            Backend::Fake => false,
        }
    }
}

/// One protocol-state session over one transport.
pub struct StateSession<T: RawTransport> {
    backend: Backend,
    transport: T,
    state: ProtocolState,
}

/// The content of a [`StateSession`].
pub struct StateSessionView<W> {
    /// Which implementation is answering.
    pub backend: Backend,
    /// The transport's world.
    pub world: W,
    /// The protocol state.
    pub state: ProtocolStateView,
}

/// The generation a connection state belongs to.
pub open spec fn generation(connection: ConnectionState) -> Option<ConnectionEpoch> {
    match connection {
        ConnectionState::Connected(epoch) => Some(epoch),
        ConnectionState::Broken(epoch) => Some(epoch),
        ConnectionState::Idle => None,
    }
}

impl StateSession<FakeTransport> {
    /// A session over the in-memory fake, which a caller may have scripted first.
    pub fn over_fake(fake: FakeTransport, identity: ClientIdentity) -> (r: Self)
        ensures
            r.content() == (StateSessionView {
                backend: Backend::Fake,
                world: fake.world(),
                state: ProtocolStateView { identity: identity@, current: None },
            }),
    {
        StateSession::new(Backend::Fake, fake, identity)
    }
}

impl<T: RawTransport> StateSession<T> {
    /// What this session holds.
    pub closed spec fn content(&self) -> StateSessionView<T::World> {
        StateSessionView {
            backend: self.backend,
            world: self.transport.world(),
            state: self.state@,
        }
    }

    /// Build a session over a transport.
    pub fn new(backend: Backend, transport: T, identity: ClientIdentity) -> (r: Self)
        ensures
            r.content() == (StateSessionView {
                backend,
                world: transport.world(),
                state: ProtocolStateView { identity: identity@, current: None },
            }),
    {
        StateSession { backend, transport, state: ProtocolState::new(identity) }
    }

    /// Which implementation is answering.
    pub fn backend(&self) -> (r: Backend)
        ensures
            r == self.content().backend,
    {
        self.backend
    }

    /// The transport, for operations the state machine does not own.
    pub fn transport(&mut self) -> (r: &mut T)
        ensures
            r.world() == old(self).content().world,
            final(self).content() == (StateSessionView {
                world: final(r).world(),
                ..old(self).content()
            }),
    {
        &mut self.transport
    }

    /// The protocol state.
    pub fn state(&mut self) -> (r: &mut ProtocolState)
        ensures
            r@ == old(self).content().state,
            final(self).content() == (StateSessionView {
                state: final(r)@,
                ..old(self).content()
            }),
    {
        &mut self.state
    }

    /// The transport, read-only, for the observations that do not drive it.
    pub fn transport_ref(&self) -> (r: &T)
        ensures
            r.world() == self.content().world,
    {
        &self.transport
    }

    /// Whether the adopted incarnation is still on the connection it was built on.
    pub fn observe(&self) -> (r: Option<EpochVerdict>)
        ensures
            r == (match self.content().state.current {
                None => None,
                Some(incarnation) => Some(
                    epoch_verdict(
                        incarnation.epoch,
                        T::connection_of(self.content().world),
                    ),
                ),
            }),
    {
        self.state.observe(&self.transport)
    }

    /// Both halves at once, for a driver that needs them in the same call.
    pub fn split(&mut self) -> (r: (&mut ProtocolState, &mut T))
        ensures
            r.0@ == old(self).content().state,
            r.1.world() == old(self).content().world,
            final(self).content() == (StateSessionView {
                state: final(r.0)@,
                world: final(r.1).world(),
                ..old(self).content()
            }),
    {
        (&mut self.state, &mut self.transport)
    }

    /// The connection generation the transport is currently on.
    pub fn epoch(&self) -> (r: Option<ConnectionEpoch>)
        ensures
            r == generation(T::connection_of(self.content().world)),
    {
        match self.transport.connection() {
            ConnectionState::Connected(epoch) => Some(epoch),
            ConnectionState::Broken(epoch) => Some(epoch),
            ConnectionState::Idle => None,
        }
    }

    /// Read the export root filehandle.
    pub fn root(&mut self, deadline: Deadline) -> (r: FacadeResult<FileHandle>)
        ensures
            res_view(r) == root_answer(
                T::answer(old(self).content().world, root_call(), deadline),
            ),
            final(self).content() == (StateSessionView {
                world: T::after(old(self).content().world, root_call(), deadline),
                ..old(self).content()
            }),
    {
        self.transport.root_filehandle(deadline)
    }

    /// Establish a client incarnation, without adopting it.
    pub fn establish(&mut self, root: &FileHandle, now_millis: u64, deadline: Deadline) -> (r:
        EstablishOutcome)
        ensures
            ({
                let (outcome, world) = establish_run::<T>(
                    old(self).content().state.identity,
                    old(self).content().world,
                    root@,
                    now_millis,
                    deadline,
                );
                &&& established(r) == outcome
                &&& final(self).content() == (StateSessionView { world, ..old(self).content() })
            }),
    {
        self.state.establish(&mut self.transport, root, now_millis, deadline)
    }

    /// Establish and adopt in one step.
    pub fn establish_and_adopt(
        &mut self,
        root: &FileHandle,
        now_millis: u64,
        deadline: Deadline,
    ) -> (r: Result<(), FacadeError>)
        ensures
            ({
                let (outcome, world) = establish_run::<T>(
                    old(self).content().state.identity,
                    old(self).content().world,
                    root@,
                    now_millis,
                    deadline,
                );
                match outcome {
                    Err(error) => {
                        &&& res_view(r) == Err::<(), FacadeErrorView>(error)
                        &&& final(self).content() == (StateSessionView {
                            world,
                            ..old(self).content()
                        })
                    },
                    Ok(incarnation) => {
                        &&& r is Ok
                        &&& final(self).content() == (StateSessionView {
                            world,
                            state: ProtocolStateView {
                                current: Some(incarnation),
                                ..old(self).content().state
                            },
                            ..old(self).content()
                        })
                    },
                }
            }),
    {
        match self.establish(root, now_millis, deadline) {
            EstablishOutcome::Established(incarnation) => {
                self.state.adopt(*incarnation);
                Ok(())
            },
            EstablishOutcome::Refused(error) => Err(error),
        }
    }

    /// Force a fresh connection generation.
    pub fn reconnect(&mut self) -> (r: TransportResult<ConnectionEpoch>)
        ensures
            (
                match r {
                    Ok(epoch) => Ok(epoch),
                    Err(error) => Err(error@),
                },
                final(self).content(),
            ) == reconnecting::<T>(old(self).content()),
    {
        self.transport.reconnect()
    }
}

/// What a session holds after a reconnect.
pub open spec fn reconnecting<T: RawTransport>(session: StateSessionView<T::World>) -> (
    Result<ConnectionEpoch, TransportErrorView>,
    StateSessionView<T::World>,
) {
    (
        T::reconnect_answer(session.world),
        StateSessionView { world: T::after_reconnect(session.world), ..session },
    )
}

/// What a session holds after `count` reconnects.
pub open spec fn reconnected<T: RawTransport>(
    session: StateSessionView<T::World>,
    count: nat,
) -> StateSessionView<T::World>
    decreases count,
{
    if count == 0 {
        session
    } else {
        reconnecting::<T>(reconnected::<T>(session, (count - 1) as nat)).1
    }
}

/// A session over the fake is always on a connection, and however often it was
/// reconnected, the next reconnect is answered with an epoch above all earlier ones,
/// which the connection is then on, until the counter is full. The backend stays what
/// it was.
pub proof fn reconnect_epochs_rise(session: StateSessionView<FakeWorld>, count: nat)
    requires
        session.world.epoch.0 + count < u64::MAX,
    ensures
        ({
            let before = reconnected::<FakeTransport>(session, count);
            let (answer, after) = reconnecting::<FakeTransport>(before);
            let first = generation(FakeTransport::connection_of(session.world))->0;
            let next = ConnectionEpoch((first.0 + count + 1) as u64);
            &&& generation(FakeTransport::connection_of(before.world)) == Some(
                ConnectionEpoch((first.0 + count) as u64),
            )
            &&& answer == Ok::<ConnectionEpoch, TransportErrorView>(next)
            &&& generation(FakeTransport::connection_of(after.world)) == Some(next)
            &&& next.0 > first.0 + count
            &&& after.backend == session.backend
        }),
    decreases count,
{
    if count > 0 {
        reconnect_epochs_rise(session, (count - 1) as nat);
    }
}

/// What every identity string begins with.
pub const IDENTITY_PREFIX: &'static str = "umbra/nfs-userspace/";

/// A client identity whose string carries the caller's label, so two sessions
/// against one server are distinct clients. The boot verifier is supplied, so a
/// caller can model a restart or a reconnect deliberately.
pub fn identity_for(label: &str, boot_verifier: Verifier) -> (r: ClientIdentity)
    ensures
        r@ == (ClientIdentityView {
            id: vstd::utf8::encode_utf8(IDENTITY_PREFIX@) + vstd::utf8::encode_utf8(label@),
            boot_verifier,
        }),
{
    let mut id = copy_bytes(IDENTITY_PREFIX.as_bytes());
    append_bytes(&mut id, label.as_bytes());
    ClientIdentity::new(id, boot_verifier)
}

} // verus!
