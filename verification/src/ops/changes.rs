//! What the attribute changes of an open run do on the in-memory server.
use vstd::prelude::*;

use crate::contract::{
    MetadataUpdate, RequestContextView, StorageOperationView, StoragePathView, StorageRequestView,
    StorageResponseView,
};
use crate::error::{FacadeErrorView, ProtocolError};
use crate::fake::described::{describes, statable};
use crate::fake::idle::{a_handle_is_put, a_handle_is_told, a_quiet_fake_answers, idle, plain_from};
use crate::fake::model::{
    a_handle_names_its_object, attributes_of, handle_of, names_ok, replacing_keeps_the_server_ok,
    step, step_at, values_fit, with_object, with_values, wrap_next, ObjectModel, ServerModel,
};
use crate::fake::{FakeTransport, FakeWorld};
use crate::handle::{anonymous, Stateid};
use crate::namespace::dispatch::{
    set_call, set_run, values_of, TransportDispatcher, NANOS_PER_SECOND,
};
use crate::namespace::{NamespaceEffectView, NamespaceOutcomeView};
use crate::replay::Ledger;
use crate::text::{a_number_survives_its_rendering, parse_number};
use crate::transport::{
    no_values, values_mask, AttrMask, AttrValuesView, Deadline, Nfs4Time, Nfs4Type, OpView,
    RawTransport, ReplyView,
};

use super::ground::{
    a_path_is_resolved, a_stat_is_answered, object_of, pins, sendable, stands_on, start_of,
};
use super::{execute_run, metadata_run, mutate_run, Bench, OperationsView};

verus! {

/// Whether the fake takes an attribute change of `object`.
pub open spec fn settable(object: ObjectModel, values: AttrValuesView, stateid: Stateid) -> bool {
    &&& values.size is Some ==> object.kind != Nfs4Type::Directory
    &&& values.size is Some && object.kind == Nfs4Type::Regular ==> stateid != anonymous()
    &&& values_fit(values)
}

/// The server once object `index` has taken `values`.
pub open spec fn server_with(server: ServerModel, index: nat, values: AttrValuesView) -> ServerModel {
    let object = server.objects[index as int];
    with_object(
        server,
        index,
        ObjectModel { change: wrap_next(object.change), ..with_values(object, values) },
    )
}

proof fn values_are_taken(
    server: ServerModel,
    index: nat,
    values: AttrValuesView,
    stateid: Stateid,
)
    requires
        index < server.objects.len(),
    ensures
        ({
            let done = step(
                server,
                Some(index),
                None,
                OpView::SetAttr { stateid, attributes: values },
                1,
            );
            if settable(server.objects[index as int], values, stateid) {
                &&& done.reply == Ok::<ReplyView, ProtocolError>(
                    ReplyView::SetAttr(AttrMask(values_mask(values))),
                )
                &&& done.server == server_with(server, index, values)
                &&& done.current == Some(index)
                &&& done.saved is None
            } else {
                done.reply is Err && done.server == server
            }
        }),
{
    reveal(step);
    reveal(step_at);
    let object = server.objects[index as int];
    let done = step(
        server,
        Some(index),
        None,
        OpView::SetAttr { stateid, attributes: values },
        1,
    );
    if settable(object, values, stateid) {
        assert(done.server.objects =~= server_with(server, index, values).objects);
        assert(done.server =~= server_with(server, index, values));
    }
}

pub(crate) proof fn attributes_are_told(server: ServerModel, index: nat, mask: AttrMask)
    ensures
        ({
            let done = step(server, Some(index), None, OpView::GetAttr(mask), 3);
            &&& done.reply == Ok::<ReplyView, ProtocolError>(
                ReplyView::GetAttr(attributes_of(server.objects[index as int], mask)),
            )
            &&& done.server == server
        }),
{
    reveal(step);
    reveal(step_at);
}

/// What an attribute change of an object of the fake answers and does.
pub(crate) proof fn a_set_is_answered(
    world: FakeWorld,
    index: nat,
    values: AttrValuesView,
    stateid: Stateid,
    deadline: Deadline,
)
    requires
        idle(world),
        index < world.server.objects.len() < u64::MAX,
    ensures
        ({
            let object = world.server.objects[index as int];
            let (answer, after) = set_run::<FakeTransport>(
                world,
                handle_of(index),
                object.identity,
                values,
                stateid,
                deadline,
            );
            &&& idle(after)
            &&& if settable(object, values, stateid) {
                &&& answer == Ok::<NamespaceOutcomeView, FacadeErrorView>(
                    NamespaceOutcomeView::AttributesSet(
                        NamespaceEffectView { identity: object.identity, handle: handle_of(index) },
                    ),
                )
                &&& after.server == server_with(world.server, index, values)
            } else {
                answer is Err && after.server == world.server
            }
        }),
{
    let call = set_call(handle_of(index), values, stateid);
    let object = world.server.objects[index as int];
    let mask = AttrMask(AttrMask::IDENTITY);
    a_handle_names_its_object(index);
    a_quiet_fake_answers(world, call);
    a_handle_is_put(world.server, handle_of(index));
    values_are_taken(world.server, index, values, stateid);
    let changed = server_with(world.server, index, values);
    a_handle_is_told(changed, index, None, 2);
    attributes_are_told(changed, index, mask);
    assert(call.ops[0] == OpView::PutFh(handle_of(index)) && call.ops[2] == OpView::GetFh
        && call.ops[1] == (OpView::SetAttr { stateid, attributes: values }) && call.ops[3]
        == OpView::GetAttr(mask));
    reveal_with_fuel(plain_from, 6);
    assert(24u64 & 8 == 8 && 24u64 & 16 == 16) by (bit_vector);
    let bits = values_mask(values);
    assert(bits & bits == bits) by (bit_vector);
    assert(names_ok(object.children, world.server.objects.len()));
    replacing_keeps_the_server_ok(
        world.server,
        index,
        ObjectModel { change: wrap_next(object.change), ..with_values(object, values) },
    );
    if settable(object, values, stateid) {
        let results = Seq::<ReplyView>::empty().push(ReplyView::PutFh).push(
            ReplyView::SetAttr(AttrMask(bits)),
        ).push(ReplyView::GetFh(handle_of(index))).push(
            ReplyView::GetAttr(attributes_of(changed.objects[index as int], mask)),
        );
        assert(results.len() == 4);
        assert(FakeTransport::answer(world, call, deadline)->Ok_0.results == results);
    }
}

/// Whether every object but `index` is as it was.
pub open spec fn others_kept(before: ServerModel, after: ServerModel, index: nat) -> bool {
    &&& after.objects.len() == before.objects.len()
    &&& forall|i: int|
        0 <= i < before.objects.len() && i != index ==> #[trigger] after.objects[i]
            == before.objects[i]
}

/// A time as the number of nanoseconds since the epoch.
pub open spec fn in_nanos(time: Nfs4Time) -> int {
    time.seconds * 1_000_000_000 + time.nanoseconds
}

/// Whether `now` is `before` with exactly the fields `update` names changed, each to the
/// value it names.
pub open spec fn took(before: ObjectModel, now: ObjectModel, update: MetadataUpdate) -> bool {
    &&& now.mode == (match update.mode {
        Some(mode) => mode,
        None => before.mode,
    })
    &&& match update.uid {
        Some(uid) => parse_number(now.owner) == Some(uid),
        None => now.owner == before.owner,
    }
    &&& match update.gid {
        Some(gid) => parse_number(now.owner_group) == Some(gid),
        None => now.owner_group == before.owner_group,
    }
    &&& match update.accessed_nanos {
        Some(nanos) => in_nanos(now.time_access) == nanos,
        None => now.time_access == before.time_access,
    }
    &&& match update.modified_nanos {
        Some(nanos) => in_nanos(now.time_modify) == nanos,
        None => now.time_modify == before.time_modify,
    }
    &&& now.identity == before.identity
    &&& now.kind == before.kind
    &&& now.data == before.data
    &&& now.children == before.children
    &&& now.create_verifier == before.create_verifier
}

/// Whether an update names anything.
pub open spec fn names_something(update: MetadataUpdate) -> bool {
    update.mode is Some || update.uid is Some || update.gid is Some || update.accessed_nanos is Some
        || update.modified_nanos is Some
}

/// Whether a time is one the protocol can carry.
pub open spec fn carriable(nanos: Option<i128>) -> bool {
    nanos matches Some(given) ==> i64::MIN * 1_000_000_000 <= given < (i64::MAX + 1)
        * 1_000_000_000
}

/// What a metadata update comes to, in attributes.
pub(crate) proof fn an_update_is_carried(object: ObjectModel, update: MetadataUpdate)
    ensures
        values_of(update) is Ok <==> carriable(update.accessed_nanos) && carriable(
            update.modified_nanos,
        ),
        values_of(update) matches Ok(values) ==> {
            &&& values.size is None
            &&& values != no_values() <==> names_something(update)
            &&& took(object, with_values(object, values), update)
            &&& crate::fake::described::statable(object) ==> statable(with_values(object, values))
        },
{
    if let Some(uid) = update.uid {
        a_number_survives_its_rendering(uid);
    }
    if let Some(gid) = update.gid {
        a_number_survives_its_rendering(gid);
    }
    if let Some(nanos) = update.accessed_nanos {
        a_time_is_carried(nanos);
    }
    if let Some(nanos) = update.modified_nanos {
        a_time_is_carried(nanos);
    }
}

proof fn a_time_is_carried(nanos: i128)
    ensures
        crate::namespace::dispatch::time_of(nanos) is Ok <==> carriable(Some(nanos)),
        crate::namespace::dispatch::time_of(nanos) matches Ok(time) ==> in_nanos(time) == nanos,
{
    let n = nanos as int;
    let second = NANOS_PER_SECOND as int;
    vstd::arithmetic::div_mod::lemma_fundamental_div_mod(n, second);
    vstd::arithmetic::div_mod::lemma_mod_bound(n, second);
    let quotient = n / second;
    let remainder = n % second;
    assert(n == 1_000_000_000 * quotient + remainder);
    assert(0 <= remainder < 1_000_000_000);
}

/// Whether a bench holds authority and a dispatcher for it.
pub open spec fn armed(bench: Bench<FakeWorld, ()>) -> bool {
    bench.mutations matches Some(authority) && authority.namespace is Some
}

/// Whether a mutation may be asked of an open run.
pub open spec fn admitted(ops: OperationsView, context: RequestContextView) -> bool {
    &&& context.run_id == ops.run_id
    &&& context.writer_epoch is Some
    &&& !ops.policy.read_only
}

/// A metadata change that succeeds leaves each field it names with the value it names
/// and everything else as it was, on the object the path names and on no other, and
/// answers the stat of that object as it is then. It succeeds for everything a path
/// leads to that can be reported, where it names something and every time in it can be
/// carried.
pub proof fn a_metadata_change_sets_what_it_names(
    ops: OperationsView,
    bench: Bench<FakeWorld, ()>,
    ledger: Ledger,
    context: RequestContextView,
    path: StoragePathView,
    update: MetadataUpdate,
    start: nat,
    deadline: Deadline,
)
    requires
        stands_on(ops, bench.world),
        pins(bench.world, start_of(ops, path), start),
    ensures
        ({
            let request = StorageRequestView {
                context,
                operation: StorageOperationView::SetMetadata { path, update },
            };
            let (answer, after, _) = execute_run::<FakeTransport, TransportDispatcher>(
                ops,
                bench,
                ledger,
                request,
                deadline,
            );
            let before = bench.world.server;
            let named = object_of(before, start, path);
            let index = named->0;
            &&& answer matches Ok(response) ==> {
                let now = after.world.server;
                &&& named is Some
                &&& others_kept(before, now, index)
                &&& took(before.objects[index as int], now.objects[index as int], update)
                &&& response matches StorageResponseView::MetadataSet(stat) && describes(
                    stat,
                    now.objects[index as int],
                ) && (update.mode matches Some(mode) ==> stat.mode == mode) && (
                update.uid matches Some(uid) ==> stat.uid == uid) && (update.gid matches Some(
                    gid,
                ) ==> stat.gid == gid) && (update.modified_nanos matches Some(nanos)
                    ==> stat.modified_nanos == nanos)
            }
            &&& admitted(ops, context) && armed(bench) && (sendable(path) || path.bytes.len()
                == 0) && named is Some && statable(before.objects[index as int])
                && names_something(update) && carriable(update.accessed_nanos) && carriable(
                update.modified_nanos,
            ) ==> answer is Ok
        }),
{
    reveal(mutate_run);
    reveal(metadata_run);
    a_path_is_resolved(ops, bench.world, start, path, deadline);
    let (found, at_object) = crate::anchor::resolve_run::<FakeTransport>(
        ops.anchors,
        bench.world,
        path,
        deadline,
    );
    if let Ok(pin) = found {
        let index = object_of(bench.world.server, start, path)->0;
        let object = bench.world.server.objects[index as int];
        an_update_is_carried(object, update);
        if let Ok(values) = values_of(update) {
            let limit = FakeTransport::limits_of(at_object).default_deadline;
            a_set_is_answered(at_object, index, values, anonymous(), limit);
            let (set, changed) = set_run::<FakeTransport>(
                at_object,
                handle_of(index),
                object.identity,
                values,
                anonymous(),
                limit,
            );
            if set is Ok {
                assert(pins(changed, pin, index));
                a_stat_is_answered(changed, pin, index, deadline);
            }
        }
    }
}

} // verus!
