//! What a quiet fake answers: one with no fault pending.
use vstd::prelude::*;

use crate::error::{ProtocolError, TransportErrorView};
use crate::transport::{
    lookup_call, op_code, open_call, AttrMask, CompoundReplyView, CompoundView, FaultPoint,
    Nfs4Type, OpCode, OpView, OpenArgsView, ReplyView,
};

use super::model::{
    attributes_of, child_of, handle_of, index_of_handle, server_ok, step, step_at, wrap_next,
    ServerModel,
};
use super::{
    evaluate_from, exchange, fault_action, fault_after, fresh_world, leading_op, FakeWorld,
    FaultView,
};

verus! {

/// Whether a fault plan has nothing left to do.
pub open spec fn spent(faults: Option<FaultView>) -> bool {
    faults matches Some(plan) ==> plan.action is None
}

/// Whether nothing stands between a caller and the server: no fault is pending.
pub open spec fn quiet(world: FakeWorld) -> bool {
    spent(world.faults)
}

/// Whether a fake is quiet and, as every fake's is, its server well formed.
pub open spec fn idle(world: FakeWorld) -> bool {
    quiet(world) && server_ok(world.server)
}

/// The world after a call that left `server`.
pub open spec fn called(world: FakeWorld, server: ServerModel) -> FakeWorld {
    FakeWorld { server, next_token: wrap_next(world.next_token), ..world }
}

/// A fresh fake is idle.
pub proof fn a_fresh_fake_is_idle()
    ensures
        idle(fresh_world()),
{
}

proof fn a_spent_plan_does_nothing(
    faults: Option<FaultView>,
    point: FaultPoint,
    op: OpCode,
)
    requires
        spent(faults),
    ensures
        fault_action(faults, point, op) is Proceed,
        fault_after(faults, point, op) == faults,
{
}

proof fn evaluation_leaves_a_spent_plan(
    server: ServerModel,
    faults: Option<FaultView>,
    ops: Seq<OpView>,
    from: int,
    current: Option<nat>,
    saved: Option<nat>,
    results: Seq<ReplyView>,
)
    requires
        spent(faults),
    ensures
        evaluate_from(server, faults, ops, from, current, saved, results).faults == faults,
    decreases ops.len() - from,
{
    if from < ops.len() {
        a_spent_plan_does_nothing(
            faults,
            FaultPoint::AfterDispatch,
            op_code(ops[from]),
        );
        let done = step(server, current, saved, ops[from], from as u32);
        if let Ok(reply) = done.reply {
            evaluation_leaves_a_spent_plan(
                done.server,
                faults,
                ops,
                from + 1,
                done.current,
                done.saved,
                results.push(reply),
            );
        }
    }
}

/// What a quiet fake answers is what evaluating the call on its server gives.
pub(crate) proof fn a_quiet_fake_evaluates(world: FakeWorld, call: CompoundView)
    requires
        quiet(world),
    ensures
        ({
            let done = evaluate_from(
                world.server,
                world.faults,
                call.ops,
                0,
                None,
                None,
                Seq::empty(),
            );
            exchange(world, call) == (
                Ok::<CompoundReplyView, TransportErrorView>(
                    CompoundReplyView {
                        tag: call.tag,
                        results: done.results,
                        failure: done.failure,
                    },
                ),
                called(world, done.server),
            )
        }),
{
    reveal(exchange);
    let first = leading_op(call);
    a_spent_plan_does_nothing(world.faults, FaultPoint::BeforeDispatch, first);
    a_spent_plan_does_nothing(world.faults, FaultPoint::OnDeadline, first);
    a_spent_plan_does_nothing(world.faults, FaultPoint::BeforeReturn, first);
    evaluation_leaves_a_spent_plan(
        world.server,
        world.faults,
        call.ops,
        0,
        None,
        None,
        Seq::empty(),
    );
}

/// What a quiet fake answers to one operation on an object it knows.
pub(crate) proof fn a_quiet_fake_performs(
    world: FakeWorld,
    call: CompoundView,
    handle: Seq<u8>,
    op: OpView,
)
    requires
        quiet(world),
        call.ops == seq![OpView::PutFh(handle), op],
        index_of_handle(handle) matches Some(target) && target < world.server.objects.len(),
    ensures
        ({
            let done = step(world.server, index_of_handle(handle), None, op, 1);
            &&& exchange(world, call).1 == called(world, done.server)
            &&& exchange(world, call).0 matches Ok(reply) && match done.reply {
                Ok(result) => reply.results == seq![ReplyView::PutFh, result]
                    && reply.failure is None,
                Err(error) => reply.results == seq![ReplyView::PutFh] && reply.failure == Some(
                    error,
                ),
            }
        }),
{
    a_quiet_fake_evaluates(world, call);
    a_handle_is_put(world.server, handle);
    a_spent_plan_does_nothing(
        world.faults,
        FaultPoint::AfterDispatch,
        op_code(OpView::PutFh(handle)),
    );
    a_spent_plan_does_nothing(
        world.faults,
        FaultPoint::AfterDispatch,
        op_code(op),
    );
    reveal_with_fuel(evaluate_from, 4);
    let done = step(world.server, index_of_handle(handle), None, op, 1);
    assert(Seq::<ReplyView>::empty().push(ReplyView::PutFh) =~= seq![ReplyView::PutFh]);
    if let Ok(result) = done.reply {
        assert(seq![ReplyView::PutFh].push(result) =~= seq![ReplyView::PutFh, result]);
    }
}

pub(crate) proof fn a_handle_is_put(server: ServerModel, handle: Seq<u8>)
    requires
        index_of_handle(handle) matches Some(target) && target < server.objects.len(),
    ensures
        ({
            let put = step(server, None, None, OpView::PutFh(handle), 0);
            &&& put.reply == Ok::<ReplyView, ProtocolError>(ReplyView::PutFh)
            &&& put.server == server
            &&& put.current == index_of_handle(handle)
            &&& put.saved is None
        }),
{
    reveal(step);
}

/// What a quiet fake answers to an OPEN in an object it knows.
pub(crate) proof fn a_quiet_fake_opens(world: FakeWorld, parent: Seq<u8>, args: OpenArgsView)
    requires
        quiet(world),
        index_of_handle(parent) matches Some(target) && target < world.server.objects.len(),
    ensures
        ({
            let (answer, after) = exchange(world, open_call(parent, args));
            let opened = step(
                world.server,
                index_of_handle(parent),
                None,
                OpView::Open(args),
                1,
            );
            &&& after == called(world, opened.server)
            &&& answer matches Ok(reply) && match opened.reply {
                Err(error) => reply.results == seq![ReplyView::PutFh] && reply.failure == Some(
                    error,
                ),
                Ok(result) => opened.current is Some && reply.results == seq![
                    ReplyView::PutFh,
                    result,
                    ReplyView::GetFh(handle_of(opened.current->0)),
                ] && reply.failure is None,
            }
        }),
{
    let call = open_call(parent, args);
    let op = OpView::Open(args);
    a_quiet_fake_evaluates(world, call);
    a_handle_is_put(world.server, parent);
    a_spent_plan_does_nothing(
        world.faults,
        FaultPoint::AfterDispatch,
        op_code(OpView::PutFh(parent)),
    );
    a_spent_plan_does_nothing(world.faults, FaultPoint::AfterDispatch, op_code(op));
    a_spent_plan_does_nothing(world.faults, FaultPoint::AfterDispatch, op_code(OpView::GetFh));
    let opened = step(world.server, index_of_handle(parent), None, op, 1);
    reveal_with_fuel(evaluate_from, 5);
    let put = seq![ReplyView::PutFh];
    assert(Seq::<ReplyView>::empty().push(ReplyView::PutFh) =~= put);
    an_open_moves_to_an_object(world.server, index_of_handle(parent), args, 1);
    if let Ok(result) = opened.reply {
        let handle = ReplyView::GetFh(handle_of(opened.current->0));
        a_handle_is_told(opened.server, opened.current->0, opened.saved, 2);
        assert(put.push(result).push(handle) =~= seq![ReplyView::PutFh, result, handle]);
    }
}

proof fn an_open_moves_to_an_object(
    server: ServerModel,
    current: Option<nat>,
    args: OpenArgsView,
    index: u32,
)
    ensures
        step(server, current, None, OpView::Open(args), index).reply is Ok ==> step(
            server,
            current,
            None,
            OpView::Open(args),
            index,
        ).current is Some,
{
    reveal(step);
    reveal(step_at);
}

pub(crate) proof fn a_handle_is_told(
    server: ServerModel,
    target: nat,
    saved: Option<nat>,
    index: u32,
)
    ensures
        ({
            let told = step(server, Some(target), saved, OpView::GetFh, index);
            &&& told.reply == Ok::<ReplyView, ProtocolError>(ReplyView::GetFh(handle_of(target)))
            &&& told.server == server
            &&& told.current == Some(target)
            &&& told.saved == saved
        }),
{
    reveal(step);
    reveal(step_at);
}

/// What a quiet fake answers to a LOOKUP in a directory it knows.
pub(crate) proof fn a_quiet_fake_looks_up(
    world: FakeWorld,
    parent: Seq<u8>,
    name: Seq<u8>,
    attrs: AttrMask,
)
    requires
        quiet(world),
        index_of_handle(parent) matches Some(target) && target < world.server.objects.len()
            && world.server.objects[target as int].kind == Nfs4Type::Directory && child_of(
            world.server.objects[target as int].children,
            name,
        ) is Some,
    ensures
        ({
            let names = world.server.objects[index_of_handle(parent)->0 as int].children;
            let child = child_of(names, name)->0;
            let (answer, after) = exchange(world, lookup_call(parent, name, attrs));
            &&& after == called(world, world.server)
            &&& answer matches Ok(reply) && reply.failure is None && reply.results == seq![
                ReplyView::PutFh,
                ReplyView::Lookup,
                ReplyView::GetFh(handle_of(child)),
                ReplyView::GetAttr(attributes_of(world.server.objects[child as int], attrs)),
            ]
        }),
{
    let call = lookup_call(parent, name, attrs);
    let target = index_of_handle(parent)->0;
    let child = child_of(world.server.objects[target as int].children, name)->0;
    a_quiet_fake_evaluates(world, call);
    a_handle_is_put(world.server, parent);
    assert forall|i: int| 0 <= i < 4 implies fault_action(
        world.faults,
        FaultPoint::AfterDispatch,
        op_code(#[trigger] call.ops[i]),
    ) is Proceed && fault_after(
        world.faults,
        FaultPoint::AfterDispatch,
        op_code(call.ops[i]),
    ) == world.faults by {
        a_spent_plan_does_nothing(
            world.faults,
            FaultPoint::AfterDispatch,
            op_code(call.ops[i]),
        );
    }
    a_name_is_followed(world.server, target, name, attrs);
    a_handle_is_told(world.server, child, None, 2);
    reveal_with_fuel(evaluate_from, 6);
    let attributes = attributes_of(world.server.objects[child as int], attrs);
    assert(call.ops[0] == OpView::PutFh(parent) && call.ops[1] == OpView::Lookup(name)
        && call.ops[2] == OpView::GetFh && call.ops[3] == OpView::GetAttr(attrs));
    assert(Seq::<ReplyView>::empty().push(ReplyView::PutFh).push(ReplyView::Lookup).push(
        ReplyView::GetFh(handle_of(child)),
    ).push(ReplyView::GetAttr(attributes)) =~= seq![
        ReplyView::PutFh,
        ReplyView::Lookup,
        ReplyView::GetFh(handle_of(child)),
        ReplyView::GetAttr(attributes),
    ]);
}

proof fn a_name_is_followed(server: ServerModel, target: nat, name: Seq<u8>, attrs: AttrMask)
    requires
        server.objects[target as int].kind == Nfs4Type::Directory,
        child_of(server.objects[target as int].children, name) is Some,
    ensures
        ({
            let child = child_of(server.objects[target as int].children, name)->0;
            let found = step(server, Some(target), None, OpView::Lookup(name), 1);
            let read = step(server, Some(child), None, OpView::GetAttr(attrs), 3);
            &&& found.reply == Ok::<ReplyView, ProtocolError>(ReplyView::Lookup)
            &&& found.server == server
            &&& found.current == Some(child)
            &&& found.saved is None
            &&& read.reply == Ok::<ReplyView, ProtocolError>(
                ReplyView::GetAttr(attributes_of(server.objects[child as int], attrs)),
            )
            &&& read.server == server
        }),
{
    reveal(step);
    reveal(step_at);
}

/// What the operations of a call do one after the other, with no fault pending: the
/// replies, the failure that stopped them, and the server.
pub open spec fn plain_from(
    server: ServerModel,
    ops: Seq<OpView>,
    from: int,
    current: Option<nat>,
    saved: Option<nat>,
    results: Seq<ReplyView>,
) -> (Seq<ReplyView>, Option<ProtocolError>, ServerModel)
    decreases ops.len() - from,
{
    if from >= ops.len() {
        (results, None, server)
    } else {
        let done = step(server, current, saved, ops[from], from as u32);
        match done.reply {
            Err(error) => (results, Some(error), done.server),
            Ok(reply) => plain_from(
                done.server,
                ops,
                from + 1,
                done.current,
                done.saved,
                results.push(reply),
            ),
        }
    }
}

proof fn a_spent_plan_evaluates_plainly(
    server: ServerModel,
    faults: Option<FaultView>,
    ops: Seq<OpView>,
    from: int,
    current: Option<nat>,
    saved: Option<nat>,
    results: Seq<ReplyView>,
)
    requires
        spent(faults),
    ensures
        ({
            let done = evaluate_from(server, faults, ops, from, current, saved, results);
            (done.results, done.failure, done.server) == plain_from(
                server,
                ops,
                from,
                current,
                saved,
                results,
            )
        }),
    decreases ops.len() - from,
{
    if from < ops.len() {
        a_spent_plan_does_nothing(faults, FaultPoint::AfterDispatch, op_code(ops[from]));
        let done = step(server, current, saved, ops[from], from as u32);
        if let Ok(reply) = done.reply {
            a_spent_plan_evaluates_plainly(
                done.server,
                faults,
                ops,
                from + 1,
                done.current,
                done.saved,
                results.push(reply),
            );
        }
    }
}

/// What a quiet fake answers is what its operations do one after the other.
pub(crate) proof fn a_quiet_fake_answers(world: FakeWorld, call: CompoundView)
    requires
        quiet(world),
    ensures
        ({
            let (results, failure, server) = plain_from(
                world.server,
                call.ops,
                0,
                None,
                None,
                Seq::empty(),
            );
            exchange(world, call) == (
                Ok::<CompoundReplyView, TransportErrorView>(
                    CompoundReplyView { tag: call.tag, results, failure },
                ),
                called(world, server),
            )
        }),
{
    a_quiet_fake_evaluates(world, call);
    a_spent_plan_evaluates_plainly(
        world.server,
        world.faults,
        call.ops,
        0,
        None,
        None,
        Seq::empty(),
    );
}

} // verus!
