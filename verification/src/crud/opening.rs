//! What opening a name does to the in-memory server.
use vstd::prelude::*;

use crate::error::{status_of, Nfs4Status, ProtocolError};
use crate::fake::idle::{a_quiet_fake_evaluates, a_quiet_fake_opens, idle, quiet};
use crate::fake::model::{
    binding_a_name_affects_only_it, child_of, index_of_handle, names_ok, server_ok,
    slot_from_bounds, step, step_at, ObjectModel, ServerModel,
};
use crate::fake::{evaluate_from, fault_after, FakeTransport, FakeWorld, FaultView};
use crate::handle::{next_seqid, SessionView, Stateid};
use crate::identity::PinnedObjectView;
use crate::state::open_owner::{
    allocation, args_of, confirm_answer, confirm_call, open_run, prove_run, OpenOutcomeView,
    OpenRequestView, OwnerLeaseView, RegistryView,
};
use crate::transport::{
    getattr_call, op_code, open_answer, open_call, AttrMask, CompoundView, Deadline, FaultPoint,
    Nfs4Type, OpCode, OpView, OpenArgsView, OpenClaimView, RawTransport, ReplyView, ShareAccess,
};

use super::{creating, open_how, open_object_run, open_request, CreateDisposition};

verus! {

/// Whether an operation looks at objects without changing any.
pub(crate) open spec fn only_looks(op: OpView) -> bool {
    op is PutFh || op is GetFh || op is GetAttr || op is OpenConfirm || op is Close
}

proof fn looking_changes_no_object(
    server: ServerModel,
    current: Option<nat>,
    saved: Option<nat>,
    op: OpView,
    index: u32,
)
    requires
        only_looks(op),
    ensures
        step(server, current, saved, op, index).server.objects == server.objects,
{
    reveal(step);
    reveal(step_at);
}

proof fn only_looking_changes_no_object(
    server: ServerModel,
    faults: Option<FaultView>,
    ops: Seq<OpView>,
    from: int,
    current: Option<nat>,
    saved: Option<nat>,
    results: Seq<ReplyView>,
)
    requires
        0 <= from,
        forall|i: int| from <= i < ops.len() ==> only_looks(#[trigger] ops[i]),
    ensures
        evaluate_from(server, faults, ops, from, current, saved, results).server.objects
            == server.objects,
    decreases ops.len() - from,
{
    if from < ops.len() {
        looking_changes_no_object(server, current, saved, ops[from], from as u32);
        let done = step(server, current, saved, ops[from], from as u32);
        if let Ok(reply) = done.reply {
            only_looking_changes_no_object(
                done.server,
                fault_after(
                    faults,
                    FaultPoint::AfterDispatch,
                    op_code(ops[from]),
                ),
                ops,
                from + 1,
                done.current,
                done.saved,
                results.push(reply),
            );
        }
    }
}

/// A call that only looks leaves a quiet fake quiet, with the same objects.
pub(crate) proof fn a_look_leaves_the_fake(world: FakeWorld, call: CompoundView, deadline: Deadline)
    requires
        quiet(world),
        forall|i: int| 0 <= i < call.ops.len() ==> only_looks(#[trigger] call.ops[i]),
    ensures
        quiet(FakeTransport::after(world, call, deadline)),
        FakeTransport::after(world, call, deadline).server.objects == world.server.objects,
{
    a_quiet_fake_evaluates(world, call);
    only_looking_changes_no_object(
        world.server,
        world.faults,
        call.ops,
        0,
        None,
        None,
        Seq::empty(),
    );
}

/// Opening an absent name binds it exactly where the OPEN creates; where it does not,
/// the name is refused as absent.
proof fn an_absent_name_is_opened(
    server: ServerModel,
    parent: nat,
    name: Seq<u8>,
    args: OpenArgsView,
    index: u32,
)
    requires
        server_ok(server),
        parent < server.objects.len(),
        args.claim == (OpenClaimView::Null { name }),
        child_of(server.objects[parent as int].children, name) is None,
    ensures
        ({
            let opened = step(server, Some(parent), None, OpView::Open(args), index);
            let bound = child_of(opened.server.objects[parent as int].children, name) is Some;
            &&& bound == !(args.how is NoCreate)
            &&& args.how is NoCreate ==> opened.reply == Err::<ReplyView, ProtocolError>(
                ProtocolError {
                    status: Nfs4Status(Nfs4Status::NOENT),
                    op: OpCode::Open,
                    index: 0,
                },
            )
        }),
{
    reveal(step);
    reveal(step_at);
    let names = server.objects[parent as int].children;
    assert(names_ok(names, server.objects.len()));
    binding_a_name_affects_only_it(names, name, server.objects.len(), name);
}

/// Proving which object was opened changes no object.
proof fn proving_changes_no_object(
    session: SessionView,
    lease: OwnerLeaseView,
    world: FakeWorld,
    request: OpenRequestView,
    handle: Seq<u8>,
    stateid: Stateid,
    deadline: Deadline,
)
    requires
        quiet(world),
    ensures
        prove_run::<FakeTransport>(
            session,
            lease,
            world,
            request,
            handle,
            stateid,
            deadline,
        ).1.server.objects == world.server.objects,
        quiet(
            prove_run::<FakeTransport>(
                session,
                lease,
                world,
                request,
                handle,
                stateid,
                deadline,
            ).1,
        ),
{
    reveal(prove_run);
    a_look_leaves_the_fake(world, getattr_call(handle, AttrMask(AttrMask::IDENTITY)), deadline);
}

/// Once the OPEN itself is answered, nothing that follows it changes an object.
pub(crate) proof fn what_follows_an_open_changes_no_object(
    session: SessionView,
    lease: OwnerLeaseView,
    world: FakeWorld,
    request: OpenRequestView,
    deadline: Deadline,
)
    requires
        quiet(
            FakeTransport::after(
                world,
                open_call(request.parent, args_of(lease, request)),
                deadline,
            ),
        ),
    ensures
        open_run::<FakeTransport>(session, lease, world, request, deadline).1.server.objects
            == FakeTransport::after(
            world,
            open_call(request.parent, args_of(lease, request)),
            deadline,
        ).server.objects,
        quiet(open_run::<FakeTransport>(session, lease, world, request, deadline).1),
{
    reveal(open_run);
    let call = open_call(request.parent, args_of(lease, request));
    let after = FakeTransport::after(world, call, deadline);
    if let Ok((open, handle)) = open_answer(FakeTransport::answer(world, call, deadline)) {
        let used = OwnerLeaseView { seqid: next_seqid(lease.seqid), ..lease };
        let confirm = confirm_call(handle, open.stateid, used.seqid);
        a_look_leaves_the_fake(after, confirm, deadline);
        let confirmed = FakeTransport::after(after, confirm, deadline);
        proving_changes_no_object(
            session,
            used,
            after,
            request,
            handle,
            open.stateid,
            deadline,
        );
        if let Ok(stateid) = confirm_answer(FakeTransport::answer(after, confirm, deadline)) {
            proving_changes_no_object(
                session,
                OwnerLeaseView { seqid: next_seqid(used.seqid), ..used },
                confirmed,
                request,
                handle,
                stateid,
                deadline,
            );
        }
    }
}

/// Opening a name that a directory of the fake does not hold binds it exactly when
/// the disposition creates. One that does not create is refused with `NFS4ERR_NOENT`.
pub proof fn an_absent_name_is_bound_only_by_a_creating_open(
    owners: RegistryView,
    world: FakeWorld,
    parent: PinnedObjectView,
    name: Seq<u8>,
    disposition: CreateDisposition,
    share_access: ShareAccess,
    deadline: Deadline,
)
    requires
        idle(world),
        parent.kind == Nfs4Type::Directory,
        index_of_handle(parent.handle) matches Some(target) && target
            < world.server.objects.len() && child_of(
            world.server.objects[target as int].children,
            name,
        ) is None,
        allocation(owners) is Ok,
    ensures
        ({
            let (opened, _, after) = open_object_run::<FakeTransport>(
                owners,
                world,
                parent,
                name,
                disposition,
                share_access,
                deadline,
            );
            let directory = after.server.objects[index_of_handle(parent.handle)->0 as int];
            &&& (child_of(directory.children, name) is Some) == creating(disposition)
            &&& !creating(disposition) ==> (opened matches Err(error) && status_of(error)
                == Some(Nfs4Status(Nfs4Status::NOENT)))
        }),
{
    let target = index_of_handle(parent.handle)->0;
    let lease = allocation(owners)->Ok_0;
    let request = open_request(parent, name, disposition, share_access);
    let args = args_of(lease, request);
    a_quiet_fake_opens(world, parent.handle, args);
    an_absent_name_is_opened(world.server, target, name, args, 1);
    what_follows_an_open_changes_no_object(owners.session, lease, world, request, deadline);
    if !creating(disposition) {
        reveal(open_run);
    }
}

/// Whether a disposition refuses a name that is bound to `object`: a guarded create
/// always does, and an exclusive one unless it made the object.
pub open spec fn refuses(disposition: CreateDisposition, object: ObjectModel) -> bool {
    match disposition {
        CreateDisposition::CreateNew { .. } => true,
        CreateDisposition::CreateExclusive { verifier } => object.create_verifier != Some(
            verifier,
        ),
        _ => false,
    }
}

proof fn a_present_name_is_refused(
    server: ServerModel,
    parent: nat,
    name: Seq<u8>,
    args: OpenArgsView,
    disposition: CreateDisposition,
    index: u32,
)
    requires
        args.claim == (OpenClaimView::Null { name }),
        args.how == open_how(disposition),
        child_of(server.objects[parent as int].children, name) matches Some(found) && refuses(
            disposition,
            server.objects[found as int],
        ),
    ensures
        ({
            let opened = step(server, Some(parent), None, OpView::Open(args), index);
            &&& opened.server == server
            &&& opened.reply == Err::<ReplyView, ProtocolError>(
                ProtocolError {
                    status: Nfs4Status(Nfs4Status::EXIST),
                    op: OpCode::Open,
                    index,
                },
            )
        }),
{
    reveal(step);
    reveal(step_at);
}

/// A guarded create of a name that a directory of the fake holds already is refused
/// with `NFS4ERR_EXIST`, and so is an exclusive one whose verifier did not make the
/// object. No object is changed.
pub proof fn a_present_name_is_refused_to_a_create(
    owners: RegistryView,
    world: FakeWorld,
    parent: PinnedObjectView,
    name: Seq<u8>,
    disposition: CreateDisposition,
    share_access: ShareAccess,
    deadline: Deadline,
)
    requires
        quiet(world),
        parent.kind == Nfs4Type::Directory,
        index_of_handle(parent.handle) matches Some(target) && target
            < world.server.objects.len(),
        child_of(
            world.server.objects[index_of_handle(parent.handle)->0 as int].children,
            name,
        ) matches Some(found) && refuses(disposition, world.server.objects[found as int]),
        allocation(owners) is Ok,
    ensures
        ({
            let (opened, _, after) = open_object_run::<FakeTransport>(
                owners,
                world,
                parent,
                name,
                disposition,
                share_access,
                deadline,
            );
            &&& opened matches Err(error) && status_of(error) == Some(
                Nfs4Status(Nfs4Status::EXIST),
            )
            &&& after.server == world.server
        }),
{
    let target = index_of_handle(parent.handle)->0;
    let lease = allocation(owners)->Ok_0;
    let request = open_request(parent, name, disposition, share_access);
    let args = args_of(lease, request);
    a_quiet_fake_opens(world, parent.handle, args);
    a_present_name_is_refused(world.server, target, name, args, disposition, 1);
    reveal(open_run);
}

/// An OPEN of a name that succeeds leaves the name bound to the object it opened.
pub(crate) proof fn an_opened_name_is_bound(
    server: ServerModel,
    parent: nat,
    name: Seq<u8>,
    args: OpenArgsView,
    index: u32,
)
    requires
        server_ok(server),
        parent < server.objects.len(),
        args.claim == (OpenClaimView::Null { name }),
    ensures
        ({
            let opened = step(server, Some(parent), None, OpView::Open(args), index);
            opened.reply is Ok ==> {
                &&& opened.current is Some
                &&& child_of(opened.server.objects[parent as int].children, name)
                    == opened.current
                &&& opened.current->0 < opened.server.objects.len()
                &&& opened.server.objects.len() <= server.objects.len() + 1
                &&& parent < opened.server.objects.len()
                &&& opened.server.objects[parent as int].kind
                    == server.objects[parent as int].kind
                &&& args.how is NoCreate ==> opened.server.objects == server.objects
            }
        }),
{
    reveal(step);
    reveal(step_at);
    let names = server.objects[parent as int].children;
    assert(names_ok(names, server.objects.len()));
    binding_a_name_affects_only_it(names, name, server.objects.len(), name);
    slot_from_bounds(names, name, 0);
}

/// An open that succeeds is of the object its OPEN found.
pub(crate) proof fn an_open_is_of_what_was_found(
    session: SessionView,
    lease: OwnerLeaseView,
    world: FakeWorld,
    request: OpenRequestView,
    deadline: Deadline,
)
    ensures
        open_run::<FakeTransport>(session, lease, world, request, deadline).0
            matches OpenOutcomeView::Opened(file) ==> {
            let call = open_call(request.parent, args_of(lease, request));
            open_answer(FakeTransport::answer(world, call, deadline)) matches Ok(found)
                && file.handle == found.1
        },
{
    reveal(open_run);
    reveal(prove_run);
}

} // verus!
