//! In-memory implementations of the transport and replay seams.
//!
//! [`FakeTransport`] is a shape fake, not a server: it answers every operation
//! with self-consistent replies and models OPEN_CONFIRM, exclusive-create verifier
//! reuse, short writes, write and commit verifiers, grace and reclaim, and cookie
//! invalidation. Its world is defined in full in [`model`], so what it answers to
//! a COMPOUND is proved rather than described.
use vstd::prelude::*;

use crate::bytes::copy_bytes;
use crate::contract::seq_view;
use crate::error::{
    Nfs4Status, ProtocolError, TransportError, TransportErrorView,
};
use crate::fake::model::{
    allocated, bound, bumped, empty_server, handle_of, index_of_handle, server_ok, step, wrap_next,
    ServerModel,
};
use crate::fake::server::{at, handle_for, index_below, names_an_object, FakeServer};
use crate::handle::FileHandle;
use crate::transport::{
    call_token, op_code, retired, v40_tcp_sys, valid_component, Answer, CallToken, ComponentName,
    Compound, CompoundReply, CompoundReplyView, CompoundView, ConnectionEpoch, ConnectionState,
    Deadline, DirVerifier, FaultAction, FaultPoint, Nfs4Type, OpCode, OpReply, OpView,
    PersistenceBoundary, RawTransport, ReplyView, Retirement, TransportLimits, TransportResult,
    WireProfile, WriteVerifier,
};

pub use crate::fake::log::FakeReplayLog;

pub mod calls;
pub mod described;
pub mod idle;
mod log;
pub mod model;
mod server;

verus! {

/// The content of a [`FaultAction`].
pub enum FaultActionView {
    /// See [`FaultAction::Proceed`].
    Proceed,
    /// See [`FaultAction::Substitute`].
    Substitute(Nfs4Status),
    /// See [`FaultAction::Fail`].
    Fail(TransportErrorView),
    /// See [`FaultAction::DropReply`].
    DropReply,
    /// See [`FaultAction::RotateVerifier`].
    RotateVerifier(WriteVerifier),
}

impl View for FaultAction {
    type V = FaultActionView;

    open spec fn view(&self) -> FaultActionView {
        match *self {
            FaultAction::Proceed => FaultActionView::Proceed,
            FaultAction::Substitute(status) => FaultActionView::Substitute(status),
            FaultAction::Fail(error) => FaultActionView::Fail(error@),
            FaultAction::DropReply => FaultActionView::DropReply,
            FaultAction::RotateVerifier(verifier) => FaultActionView::RotateVerifier(verifier),
        }
    }
}

/// A fault plan that applies one scripted action at one point, then stops.
#[derive(Debug)]
pub struct ScriptedFault {
    point: FaultPoint,
    op: Option<OpCode>,
    action: Option<FaultAction>,
}

/// The content of a [`ScriptedFault`].
pub struct FaultView {
    /// Where the action fires.
    pub point: FaultPoint,
    /// For which operation, when it is for one.
    pub op: Option<OpCode>,
    /// The action, until it has fired.
    pub action: Option<FaultActionView>,
}

impl View for ScriptedFault {
    type V = FaultView;

    closed spec fn view(&self) -> FaultView {
        FaultView {
            point: self.point,
            op: self.op,
            action: match self.action {
                Some(action) => Some(action@),
                None => None,
            },
        }
    }
}

/// Whether a plan applies at `point` of operation `op`.
pub open spec fn fault_applies(plan: FaultView, point: FaultPoint, op: OpCode) -> bool {
    point == plan.point && (plan.op matches Some(wanted) ==> wanted == op)
}

/// What a plan does at `point` of operation `op`. No plan does nothing.
pub open spec fn fault_action(
    plan: Option<FaultView>,
    point: FaultPoint,
    op: OpCode,
) -> FaultActionView {
    match plan {
        None => FaultActionView::Proceed,
        Some(plan) => if fault_applies(plan, point, op) {
            match plan.action {
                Some(action) => action,
                None => FaultActionView::Proceed,
            }
        } else {
            FaultActionView::Proceed
        },
    }
}

/// The plan after it was asked at `point` of operation `op`: an action fires once.
pub open spec fn fault_after(
    plan: Option<FaultView>,
    point: FaultPoint,
    op: OpCode,
) -> Option<FaultView> {
    match plan {
        None => None,
        Some(plan) => if fault_applies(plan, point, op) {
            Some(FaultView { action: None, ..plan })
        } else {
            Some(plan)
        },
    }
}

impl ScriptedFault {
    /// Fire `action` once, at `point`, optionally only for operation `op`.
    pub fn once(point: FaultPoint, op: Option<OpCode>, action: FaultAction) -> (r: Box<Self>)
        ensures
            (*r)@ == (FaultView { point, op, action: Some(action@) }),
    {
        Box::new(ScriptedFault { point, op, action: Some(action) })
    }

    /// What the plan does here.
    pub(crate) fn decide(&mut self, point: FaultPoint, op: OpCode) -> (r: FaultAction)
        ensures
            r@ == fault_action(Some(old(self)@), point, op),
            Some(final(self)@) == fault_after(Some(old(self)@), point, op),
    {
        if point != self.point {
            return FaultAction::Proceed;
        }
        if let Some(wanted) = self.op {
            if wanted != op {
                return FaultAction::Proceed;
            }
        }
        let mut action: Option<FaultAction> = None;
        std::mem::swap(&mut self.action, &mut action);
        match action {
            Some(action) => action,
            None => FaultAction::Proceed,
        }
    }
}

/// Everything that decides what the fake answers.
pub struct FakeWorld {
    /// The server's state.
    pub server: ServerModel,
    /// The generation of the connection, which is always up.
    pub epoch: ConnectionEpoch,
    /// The fault plan, if one is installed.
    pub faults: Option<FaultView>,
    /// Next call token.
    pub next_token: u64,
}

/// The bounds every fake has: one call in flight.
pub open spec fn fake_limits() -> TransportLimits {
    TransportLimits {
        max_inflight: 1,
        max_queue_depth: 8,
        max_reply_bytes: 1048576,
        default_deadline: Deadline { millis: 5_000 },
    }
}

/// A partly evaluated COMPOUND.
pub struct Evaluation {
    /// Results so far.
    pub results: Seq<ReplyView>,
    /// The failure that stopped it, if one did.
    pub failure: Option<ProtocolError>,
    /// The server.
    pub server: ServerModel,
    /// The fault plan.
    pub faults: Option<FaultView>,
}

/// Evaluate `ops` from position `from` on.
pub open spec fn evaluate_from(
    server: ServerModel,
    faults: Option<FaultView>,
    ops: Seq<OpView>,
    from: int,
    current: Option<nat>,
    saved: Option<nat>,
    results: Seq<ReplyView>,
) -> Evaluation
    decreases ops.len() - from,
{
    if from >= ops.len() {
        Evaluation { results, failure: None, server, faults }
    } else {
        let op = ops[from];
        let asked = fault_after(faults, FaultPoint::AfterDispatch, op_code(op));
        match fault_action(faults, FaultPoint::AfterDispatch, op_code(op)) {
            FaultActionView::Substitute(status) => Evaluation {
                results,
                failure: Some(ProtocolError { status, op: op_code(op), index: from as u32 }),
                server,
                faults: asked,
            },
            _ => {
                let done = step(server, current, saved, op, from as u32);
                match done.reply {
                    Err(error) => Evaluation {
                        results,
                        failure: Some(error),
                        server: done.server,
                        faults: asked,
                    },
                    Ok(reply) => evaluate_from(
                        done.server,
                        asked,
                        ops,
                        from + 1,
                        done.current,
                        done.saved,
                        results.push(reply),
                    ),
                }
            },
        }
    }
}

/// The operation a fault plan is asked about for a whole COMPOUND.
pub open spec fn leading_op(call: CompoundView) -> OpCode {
    if call.ops.len() == 0 {
        OpCode::PutRootFh
    } else {
        op_code(call.ops[0])
    }
}

/// The registered calls without `token`.
pub open spec fn withdrawn(live: Seq<u64>, token: u64) -> Seq<u64>
    decreases live.len(),
{
    if live.len() == 0 {
        Seq::empty()
    } else if live.last() == token {
        withdrawn(live.drop_last(), token)
    } else {
        withdrawn(live.drop_last(), token).push(live.last())
    }
}

/// What the fake answers to `call`, and its world afterwards. A call is registered
/// while it runs and withdrawn before its answer is handed back, so none is left when
/// the next one comes.
#[verifier::opaque]
pub open spec fn exchange(world: FakeWorld, call: CompoundView) -> (Answer, FakeWorld) {
    let first = leading_op(call);
    let before = fault_after(world.faults, FaultPoint::BeforeDispatch, first);
    match fault_action(world.faults, FaultPoint::BeforeDispatch, first) {
        FaultActionView::Fail(error) => (Err(error), FakeWorld { faults: before, ..world }),
        _ => {
            let registered = FakeWorld {
                faults: fault_after(before, FaultPoint::OnDeadline, first),
                next_token: wrap_next(world.next_token),
                ..world
            };
            if fault_action(before, FaultPoint::OnDeadline, first) is DropReply {
                (
                    Err(
                        TransportErrorView::DeadlineExpired {
                            retirement: retired(call_token(world.next_token), true),
                        },
                    ),
                    registered,
                )
            } else {
                let done = evaluate_from(
                    registered.server,
                    registered.faults,
                    call.ops,
                    0,
                    None,
                    None,
                    Seq::empty(),
                );
                let reply = CompoundReplyView {
                    tag: call.tag,
                    results: done.results,
                    failure: done.failure,
                };
                let after = FakeWorld {
                    server: done.server,
                    faults: fault_after(done.faults, FaultPoint::BeforeReturn, first),
                    ..registered
                };
                match fault_action(done.faults, FaultPoint::BeforeReturn, first) {
                    FaultActionView::Fail(error) => (Err(error), after),
                    FaultActionView::RotateVerifier(verifier) => (
                        Ok(reply),
                        FakeWorld { server: ServerModel { verifier, ..after.server }, ..after },
                    ),
                    _ => (Ok(reply), after),
                }
            }
        },
    }
}

fn withdraw(live: &mut Vec<u64>, token: u64)
    ensures
        final(live)@ == withdrawn(old(live)@, token),
{
    let mut kept: Vec<u64> = Vec::new();
    let mut i: usize = 0;
    proof {
        assert(live@.take(0) =~= Seq::<u64>::empty());
    }
    while i < live.len()
        invariant
            i <= live@.len(),
            live@ == old(live)@,
            kept@ == withdrawn(live@.take(i as int), token),
        decreases live@.len() - i,
    {
        proof {
            assert(live@.take(i + 1).drop_last() =~= live@.take(i as int));
        }
        if live[i] != token {
            kept.push(live[i]);
        }
        i += 1;
    }
    proof {
        assert(live@.take(i as int) =~= live@);
    }
    *live = kept;
}

/// A call that was registered alone leaves none behind.
proof fn the_only_call_is_withdrawn(live: Seq<u64>, token: u64)
    requires
        live.len() == 0,
    ensures
        withdrawn(live, token).len() == 0,
        withdrawn(live.push(token), token).len() == 0,
{
    assert(live.push(token).drop_last() =~= live);
}

/// A scriptable in-memory transport.
#[derive(Debug)]
pub struct FakeTransport {
    server: FakeServer,
    epoch: ConnectionEpoch,
    limits: TransportLimits,
    faults: Option<Box<ScriptedFault>>,
    next_token: u64,
    live: Vec<u64>,
}

spec fn plan_view(faults: Option<Box<ScriptedFault>>) -> Option<FaultView> {
    match faults {
        Some(plan) => Some((*plan)@),
        None => None,
    }
}

impl View for FakeTransport {
    type V = FakeWorld;

    closed spec fn view(&self) -> FakeWorld {
        FakeWorld {
            server: self.server@,
            epoch: self.epoch,
            faults: plan_view(self.faults),
            next_token: self.next_token,
        }
    }
}

/// The world of a fresh fake.
pub open spec fn fresh_world() -> FakeWorld {
    FakeWorld {
        server: empty_server(),
        epoch: ConnectionEpoch(1),
        faults: None,
        next_token: 1,
    }
}

/// The world with a new object bound to `name` in the directory `parent` names,
/// which has changed by it.
pub open spec fn inserted(
    world: FakeWorld,
    parent: Seq<u8>,
    name: Seq<u8>,
    kind: Nfs4Type,
    data: Seq<u8>,
) -> FakeWorld {
    let holder = index_of_handle(parent)->0;
    FakeWorld {
        server: bumped(
            bound(
                allocated(world.server, kind, data, 0o600, None),
                holder,
                name,
                world.server.objects.len(),
            ),
            holder,
        ),
        ..world
    }
}

/// Whether `handle` names an object of `world`.
pub open spec fn known_handle(world: FakeWorld, handle: Seq<u8>) -> bool {
    index_of_handle(handle) matches Some(index) && index < world.server.objects.len()
}

impl FakeTransport {
    /// The server is well formed, no call is registered, and one may be.
    #[verifier::type_invariant]
    spec fn well_formed(&self) -> bool {
        &&& server_ok(self.server@)
        &&& self.live@.len() == 0
        &&& self.limits == fake_limits()
    }

    /// A connected fake holding only an empty export root.
    pub fn new() -> (r: Self)
        ensures
            r@ == fresh_world(),
    {
        FakeTransport {
            server: FakeServer::new(),
            epoch: ConnectionEpoch(1),
            limits: TransportLimits {
                max_inflight: 1,
                max_queue_depth: 8,
                max_reply_bytes: 1048576,
                default_deadline: Deadline { millis: 5_000 },
            },
            faults: None,
            next_token: 1,
            live: Vec::new(),
        }
    }

    /// The export root filehandle.
    pub fn root(&self) -> (r: FileHandle)
        ensures
            r@ == handle_of(0),
    {
        handle_for(0)
    }

    /// Create a directory under `parent`, returning its filehandle.
    pub fn insert_directory(&mut self, parent: &FileHandle, name: &[u8]) -> (r: FileHandle)
        requires
            known_handle(old(self)@, parent@),
            valid_component(name@),
        ensures
            final(self)@ == inserted(
                old(self)@,
                parent@,
                name@,
                Nfs4Type::Directory,
                Seq::empty(),
            ),
            r@ == handle_of(old(self)@.server.objects.len()),
    {
        let data: Vec<u8> = Vec::new();
        proof {
            assert(data@ =~= Seq::<u8>::empty());
        }
        self.insert(parent, name, Nfs4Type::Directory, data)
    }

    /// Create a regular file under `parent` with `data`.
    pub fn insert_file(&mut self, parent: &FileHandle, name: &[u8], data: Vec<u8>) -> (r:
        FileHandle)
        requires
            known_handle(old(self)@, parent@),
            valid_component(name@),
        ensures
            final(self)@ == inserted(old(self)@, parent@, name@, Nfs4Type::Regular, data@),
            r@ == handle_of(old(self)@.server.objects.len()),
    {
        self.insert(parent, name, Nfs4Type::Regular, data)
    }

    fn insert(&mut self, parent: &FileHandle, name: &[u8], kind: Nfs4Type, data: Vec<u8>) -> (r:
        FileHandle)
        requires
            known_handle(old(self)@, parent@),
            valid_component(name@),
        ensures
            final(self)@ == inserted(old(self)@, parent@, name@, kind, data@),
            r@ == handle_of(old(self)@.server.objects.len()),
    {
        let mut server = self.take_server();
        let parent_index: usize = match index_below(parent, server.objects.len()) {
            Some(index) => index,
            None => 0,
        };
        let index: usize = server.allocate(kind, data, 0o600, None);
        let bytes = copy_bytes(name);
        if let Ok(component) = ComponentName::new(bytes) {
            server.bind(parent_index, component, index);
            server.bump(parent_index);
        }
        proof {
            use_type_invariant(&*self);
        }
        self.server = server;
        handle_for(index)
    }

    fn take_server(&mut self) -> (r: FakeServer)
        ensures
            r@ == old(self)@.server,
            server_ok(r@),
            final(self)@ == (FakeWorld { server: empty_server(), ..old(self)@ }),
    {
        proof {
            use_type_invariant(&*self);
        }
        let mut server = FakeServer::new();
        std::mem::swap(&mut self.server, &mut server);
        server
    }

    /// Put the fake into or out of its grace window.
    pub fn set_grace(&mut self, in_grace: bool)
        ensures
            final(self)@ == (FakeWorld {
                server: ServerModel { in_grace, ..old(self)@.server },
                ..old(self)@
            }),
    {
        let mut server = self.take_server();
        server.in_grace = in_grace;
        proof {
            use_type_invariant(&*self);
        }
        self.server = server;
    }

    /// Cap every WRITE at `cap` bytes, producing short writes.
    pub fn set_write_cap(&mut self, cap: Option<u32>)
        ensures
            final(self)@ == (FakeWorld {
                server: ServerModel { write_cap: cap, ..old(self)@.server },
                ..old(self)@
            }),
    {
        let mut server = self.take_server();
        server.write_cap = cap;
        proof {
            use_type_invariant(&*self);
        }
        self.server = server;
    }

    /// Rotate the write/commit verifier, as a server restart would.
    pub fn rotate_write_verifier(&mut self, verifier: WriteVerifier)
        ensures
            final(self)@ == (FakeWorld {
                server: ServerModel { verifier, ..old(self)@.server },
                ..old(self)@
            }),
    {
        let mut server = self.take_server();
        server.verifier = verifier;
        proof {
            use_type_invariant(&*self);
        }
        self.server = server;
    }

    /// Rotate the READDIR cookie verifier, invalidating outstanding cookies.
    pub fn rotate_dir_verifier(&mut self, verifier: DirVerifier)
        ensures
            final(self)@ == (FakeWorld {
                server: ServerModel { dir_verifier: verifier, ..old(self)@.server },
                ..old(self)@
            }),
    {
        let mut server = self.take_server();
        server.dir_verifier = verifier;
        proof {
            use_type_invariant(&*self);
        }
        self.server = server;
    }

    /// Calls still registered: none, once a call was answered.
    pub fn live_calls(&self) -> (r: usize)
        ensures
            r == 0,
    {
        proof {
            use_type_invariant(self);
        }
        self.live.len()
    }

    fn decide(&mut self, point: FaultPoint, op: OpCode) -> (r: FaultAction)
        ensures
            r@ == fault_action(old(self)@.faults, point, op),
            final(self)@ == (FakeWorld {
                faults: fault_after(old(self)@.faults, point, op),
                ..old(self)@
            }),
    {
        proof {
            use_type_invariant(&*self);
        }
        let mut plan: Option<Box<ScriptedFault>> = None;
        std::mem::swap(&mut self.faults, &mut plan);
        match plan {
            None => FaultAction::Proceed,
            Some(mut fault) => {
                let action = (*fault).decide(point, op);
                self.faults = Some(fault);
                action
            },
        }
    }

    fn evaluate(&mut self, call: &Compound) -> (r: CompoundReply)
        ensures
            ({
                let done = evaluate_from(
                    old(self)@.server,
                    old(self)@.faults,
                    call@.ops,
                    0,
                    None,
                    None,
                    Seq::empty(),
                );
                &&& r@ == (CompoundReplyView {
                    tag: call@.tag,
                    results: done.results,
                    failure: done.failure,
                })
                &&& final(self)@ == (FakeWorld {
                    server: done.server,
                    faults: done.faults,
                    ..old(self)@
                })
            }),
    {
        proof {
            use_type_invariant(&*self);
        }
        let mut results: Vec<OpReply> = Vec::new();
        let mut current: Option<usize> = None;
        // RENAME names its source directory through the saved filehandle.
        let mut saved: Option<usize> = None;
        let mut i: usize = 0;
        let ghost whole = evaluate_from(
            old(self)@.server,
            old(self)@.faults,
            call@.ops,
            0,
            None,
            None,
            Seq::empty(),
        );
        proof {
            assert(seq_view(results@) =~= Seq::<ReplyView>::empty());
        }
        while i < call.ops.len()
            invariant
                i <= call.ops@.len(),
                whole == evaluate_from(
                    old(self)@.server,
                    old(self)@.faults,
                    call@.ops,
                    0,
                    None,
                    None,
                    Seq::empty(),
                ),
                whole == evaluate_from(
                    self@.server,
                    self@.faults,
                    call@.ops,
                    i as int,
                    at(current),
                    at(saved),
                    seq_view(results@),
                ),
                self@ == (FakeWorld {
                    server: self@.server,
                    faults: self@.faults,
                    ..old(self)@
                }),
                server_ok(self@.server),
                names_an_object(self@.server, current),
                names_an_object(self@.server, saved),
            decreases call.ops@.len() - i,
        {
            let op = &call.ops[i];
            let index: u32 = i as u32;
            proof {
                assert(call@.ops[i as int] == op@);
            }
            let ghost before = self@.server;
            let action = self.decide(FaultPoint::AfterDispatch, op.opcode());
            if let FaultAction::Substitute(status) = action {
                return CompoundReply {
                    tag: call.tag.clone(),
                    results,
                    failure: Some(ProtocolError { status, op: op.opcode(), index }),
                };
            }
            let mut server = self.take_server();
            let applied = server.apply(op, current, saved, index);
            proof {
                use_type_invariant(&*self);
            }
            self.server = server;
            let ghost earlier = seq_view(results@);
            match applied.reply {
                Ok(reply) => {
                    let ghost answered = reply@;
                    results.push(reply);
                    proof {
                        assert(seq_view(results@) =~= earlier.push(answered));
                    }
                },
                Err(error) => {
                    return CompoundReply {
                        tag: call.tag.clone(),
                        results,
                        failure: Some(error),
                    };
                },
            }
            current = applied.current;
            saved = applied.saved;
            i += 1;
        }
        CompoundReply { tag: call.tag.clone(), results, failure: None }
    }
}

impl Default for FakeTransport {
    fn default() -> (r: Self)
        ensures
            r@ == fresh_world(),
    {
        FakeTransport::new()
    }
}

impl RawTransport for FakeTransport {
    type World = FakeWorld;

    open spec fn world(&self) -> FakeWorld {
        self@
    }

    open spec fn answer(world: FakeWorld, call: CompoundView, deadline: Deadline) -> Answer {
        exchange(world, call).0
    }

    open spec fn after(world: FakeWorld, call: CompoundView, deadline: Deadline) -> FakeWorld {
        exchange(world, call).1
    }

    open spec fn limits_of(world: FakeWorld) -> TransportLimits {
        fake_limits()
    }

    open spec fn connection_of(world: FakeWorld) -> ConnectionState {
        ConnectionState::Connected(world.epoch)
    }

    open spec fn boundary_of(world: FakeWorld) -> PersistenceBoundary {
        PersistenceBoundary::Unqualified
    }

    open spec fn reconnect_answer(world: FakeWorld) -> Result<ConnectionEpoch, TransportErrorView> {
        Ok(ConnectionEpoch(wrap_next(world.epoch.0)))
    }

    open spec fn after_reconnect(world: FakeWorld) -> FakeWorld {
        FakeWorld {
            epoch: ConnectionEpoch(wrap_next(world.epoch.0)),
            ..world
        }
    }

    fn wire_profile(&self) -> (r: WireProfile)
        ensures
            r == v40_tcp_sys(),
    {
        WireProfile::v40_tcp_sys()
    }

    fn limits(&self) -> TransportLimits {
        proof {
            use_type_invariant(self);
        }
        self.limits
    }

    fn connection(&self) -> ConnectionState {
        ConnectionState::Connected(self.epoch)
    }

    fn persistence_boundary(&self) -> PersistenceBoundary {
        PersistenceBoundary::Unqualified
    }

    fn submit(&mut self, call: Compound, deadline: Deadline) -> TransportResult<CompoundReply> {
        let first = if call.ops.len() == 0 {
            OpCode::PutRootFh
        } else {
            call.ops[0].opcode()
        };
        proof {
            reveal(exchange);
            if call.ops@.len() > 0 {
                assert(call@.ops[0] == call.ops@[0]@);
            }
        }
        proof {
            use_type_invariant(&*self);
        }
        // Backpressure is applied before the call is registered, never after.
        if self.live.len() as u32 >= self.limits.max_inflight {
            return Err(
                TransportError::QueueFull {
                    depth: self.live.len() as u32,
                    capacity: self.limits.max_inflight,
                },
            );
        }
        if let FaultAction::Fail(error) = self.decide(FaultPoint::BeforeDispatch, first) {
            return Err(error);
        }
        let token = CallToken::new(self.next_token);
        proof {
            use_type_invariant(&*self);
        }
        self.next_token = self.next_token.wrapping_add(1);
        let mut live: Vec<u64> = Vec::new();
        std::mem::swap(&mut self.live, &mut live);
        proof {
            the_only_call_is_withdrawn(live@, token.spec_get());
        }
        live.push(token.get());
        if let FaultAction::DropReply = self.decide(FaultPoint::OnDeadline, first) {
            // The call is withdrawn before the error is built, which is the only
            // way to obtain the proof the error requires.
            withdraw(&mut live, token.get());
            proof {
                use_type_invariant(&*self);
            }
            self.live = live;
            return Err(
                TransportError::DeadlineExpired { retirement: Retirement::new(token, true) },
            );
        }
        let reply = self.evaluate(&call);
        let action = self.decide(FaultPoint::BeforeReturn, first);
        withdraw(&mut live, token.get());
        proof {
            use_type_invariant(&*self);
        }
        self.live = live;
        match action {
            FaultAction::Fail(error) => Err(error),
            FaultAction::RotateVerifier(verifier) => {
                self.rotate_write_verifier(verifier);
                Ok(reply)
            },
            _ => Ok(reply),
        }
    }

    fn cancel(&mut self, token: CallToken) -> (r: TransportResult<Retirement>)
        ensures
            r == Ok::<Retirement, TransportError>(retired(token, true)),
            final(self)@ == old(self)@,
    {
        // Withdrawal is synchronous, so the call is always proven quiesced.
        proof {
            use_type_invariant(&*self);
        }
        let mut live: Vec<u64> = Vec::new();
        std::mem::swap(&mut self.live, &mut live);
        proof {
            the_only_call_is_withdrawn(live@, token.spec_get());
        }
        withdraw(&mut live, token.get());
        self.live = live;
        Ok(Retirement::new(token, true))
    }

    fn reconnect(&mut self) -> TransportResult<ConnectionEpoch> {
        proof {
            use_type_invariant(&*self);
        }
        self.epoch = ConnectionEpoch(self.epoch.0.wrapping_add(1));
        self.live = Vec::new();
        Ok(self.epoch)
    }

    fn install_faults(&mut self, plan: Box<ScriptedFault>)
        ensures
            final(self)@ == (FakeWorld { faults: Some((*plan)@), ..old(self)@ }),
    {
        proof {
            use_type_invariant(&*self);
        }
        self.faults = Some(plan);
    }
}

} // verus!
