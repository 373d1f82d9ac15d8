//! What single calls of a quiet fake answer and leave behind.
use vstd::prelude::*;

use crate::error::{status_of, FacadeErrorView, Nfs4Status};
use crate::handle::Stateid;
use crate::transport::{
    open_answer, open_call, write_answer, write_call, Deadline, Nfs4Type, OpView, OpenArgsView,
    RawTransport, Stability, WriteReply,
};

use super::idle::{a_quiet_fake_opens, a_quiet_fake_performs, called, quiet};
use super::model::{
    index_of_handle, step, step_at, wrap_next, write_over, ObjectModel, ServerModel,
};
use super::{fresh_world, FakeTransport, FakeWorld};

verus! {

/// The world once every WRITE is capped at `cap`.
pub open spec fn capped(world: FakeWorld, cap: Option<u32>) -> FakeWorld {
    FakeWorld { server: ServerModel { write_cap: cap, ..world.server }, ..world }
}

/// How many of `offered` bytes a WRITE accepts under `cap`.
pub open spec fn accepted_under(cap: Option<u32>, offered: nat) -> nat {
    match cap {
        None => offered,
        Some(most) => if most < offered {
            most as nat
        } else {
            offered
        },
    }
}

/// A WRITE under a cap answers the smaller of the cap and what was offered, stores
/// exactly that prefix at the offset and nothing else, and reports the stability that
/// was asked for.
pub proof fn a_capped_write_stores_exactly_its_prefix(
    world: FakeWorld,
    cap: Option<u32>,
    handle: Seq<u8>,
    stateid: Stateid,
    offset: u64,
    stability: Stability,
    data: Seq<u8>,
    deadline: Deadline,
)
    requires
        quiet(world),
        index_of_handle(handle) matches Some(target) && target < world.server.objects.len()
            && world.server.objects[target as int].kind != Nfs4Type::Directory,
        data.len() <= u32::MAX,
        offset + data.len() <= usize::MAX,
    ensures
        ({
            let before = capped(world, cap);
            let call = write_call(handle, stateid, offset, stability, data);
            let count = accepted_under(cap, data.len());
            let target = index_of_handle(handle)->0 as int;
            let object = world.server.objects[target];
            &&& write_answer(FakeTransport::answer(before, call, deadline)) == Ok::<
                WriteReply,
                FacadeErrorView,
            >(
                WriteReply {
                    count: count as u32,
                    committed: stability,
                    verifier: world.server.verifier,
                },
            )
            &&& FakeTransport::after(before, call, deadline) == called(
                before,
                ServerModel {
                    objects: world.server.objects.update(
                        target,
                        ObjectModel {
                            data: write_over(object.data, offset as nat, data.take(count as int)),
                            change: wrap_next(object.change),
                            ..object
                        },
                    ),
                    ..before.server
                },
            )
        }),
{
    let before = capped(world, cap);
    let op = OpView::Write { stateid, offset, stability, data };
    let call = write_call(handle, stateid, offset, stability, data);
    a_quiet_fake_performs(before, call, handle, op);
    reveal(step);
    reveal(step_at);
    let done = step(before.server, index_of_handle(handle), None, op, 1);
    let target = index_of_handle(handle)->0 as int;
    let object = world.server.objects[target];
    let written = ObjectModel {
        data: write_over(
            object.data,
            offset as nat,
            data.take(accepted_under(cap, data.len()) as int),
        ),
        change: wrap_next(object.change),
        ..object
    };
    assert(done.server.objects =~= world.server.objects.update(target, written));
}

/// The world inside or outside its grace window.
pub open spec fn graced(world: FakeWorld, in_grace: bool) -> FakeWorld {
    FakeWorld { server: ServerModel { in_grace, ..world.server }, ..world }
}

/// An OPEN that reclaims an earlier one succeeds exactly within the grace window, and
/// outside it is refused with `NFS4ERR_NO_GRACE`. A fresh fake is outside it.
pub proof fn a_reclaim_succeeds_exactly_within_grace(
    world: FakeWorld,
    in_grace: bool,
    handle: Seq<u8>,
    args: OpenArgsView,
    deadline: Deadline,
)
    requires
        quiet(world),
        index_of_handle(handle) matches Some(target) && target < world.server.objects.len(),
        args.claim is Previous,
    ensures
        ({
            let answer = open_answer(
                FakeTransport::answer(graced(world, in_grace), open_call(handle, args), deadline),
            );
            &&& answer is Ok <==> in_grace
            &&& answer matches Err(error) ==> status_of(error) == Some(
                Nfs4Status(Nfs4Status::NO_GRACE),
            )
        }),
        graced(fresh_world(), false) == fresh_world(),
{
    let before = graced(world, in_grace);
    a_quiet_fake_opens(before, handle, args);
    reveal(step);
    reveal(step_at);
}

} // verus!
