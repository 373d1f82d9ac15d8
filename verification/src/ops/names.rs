//! What the namespace changes of an open run do on the in-memory server.
use vstd::prelude::*;

use crate::anchor::component_of;
use crate::contract::{
    split_path, CreateKindView, CreateOptionsView, RenameMode, RequestContextView,
    StorageOperationView, StoragePathView, StorageRequestView, StorageResponseView,
};
use crate::error::ProtocolError;
use crate::fake::described::{describes, statable, the_first_owner_is_numeric};
use crate::fake::idle::{
    a_handle_is_told, a_quiet_fake_answers, a_quiet_fake_performs, called, idle, plain_from,
};
use crate::fake::model::{
    a_handle_names_its_object, allocated, allocating_keeps_the_server_ok, attributes_of,
    binding_a_name_affects_only_it, binding_keeps_the_server_ok, bound, bumped,
    bumping_keeps_the_server_ok, child_of, handle_of, is_full_directory, names_ok, rename_step,
    replacing_keeps_the_server_ok, server_ok, step, step_at, unbinding_a_name_affects_only_it,
    unbinding_keeps_the_server_ok, unbound, with_object, with_values, ServerModel,
};
use crate::fake::{FakeTransport, FakeWorld};
use crate::identity::PinnedObjectView;
use crate::namespace::dispatch::{
    mkdir_answer, mkdir_call, remove_call, remove_run, rename_answer, rename_call, rename_run,
    TransportDispatcher,
};
use crate::namespace::{NamespaceEffectView, NamespaceOutcomeView, RemoveKind};
use crate::replay::Ledger;
use crate::transport::{
    no_values, valid_component, AttrMask, AttrValuesView, CreateType, Deadline, Nfs4Type, OpView,
    RawTransport, ReplyView,
};

use super::changes::{admitted, armed, attributes_are_told};
use super::ground::{
    a_child_exists, a_child_is_found, a_handle_is_pinned, a_lookup_is_answered, a_place_is_found,
    a_stat_is_answered, attributes_are_answered, followed, pins, place_of, sendable, stands_on,
    start_of,
};
use super::{execute_run, move_run, mutate_run, named_run, removal_run, Bench, OperationsView};

verus! {

pub(crate) proof fn a_handle_is_put_again(
    server: ServerModel,
    current: Option<nat>,
    saved: Option<nat>,
    index: nat,
    position: u32,
)
    requires
        index < server.objects.len() < u64::MAX,
    ensures
        ({
            let put = step(server, current, saved, OpView::PutFh(handle_of(index)), position);
            &&& put.reply == Ok::<ReplyView, ProtocolError>(ReplyView::PutFh)
            &&& put.server == server
            &&& put.current == Some(index)
            &&& put.saved == saved
        }),
{
    a_handle_names_its_object(index);
    reveal(step);
}

proof fn a_handle_is_saved(server: ServerModel, index: nat, position: u32)
    ensures
        ({
            let put = step(server, Some(index), None, OpView::SaveFh, position);
            &&& put.reply == Ok::<ReplyView, ProtocolError>(ReplyView::SaveFh)
            &&& put.server == server
            &&& put.current == Some(index)
            &&& put.saved == Some(index)
        }),
{
    reveal(step);
    reveal(step_at);
}

proof fn a_name_is_moved(
    server: ServerModel,
    source: nat,
    target: nat,
    old_name: Seq<u8>,
    new_name: Seq<u8>,
)
    ensures
        ({
            let done = step(
                server,
                Some(target),
                Some(source),
                OpView::Rename { old_name, new_name },
                3,
            );
            done == rename_step(server, source, target, old_name, new_name, 3)
        }),
{
    reveal(step);
    reveal(step_at);
}

/// Whether an object kept everything but the names it holds and its change attribute.
pub open spec fn same_but_names(
    before: crate::fake::model::ObjectModel,
    now: crate::fake::model::ObjectModel,
) -> bool {
    &&& now.identity == before.identity
    &&& now.kind == before.kind
    &&& now.data == before.data
    &&& now.mode == before.mode
    &&& now.owner == before.owner
    &&& now.owner_group == before.owner_group
    &&& now.time_access == before.time_access
    &&& now.time_modify == before.time_modify
    &&& now.create_verifier == before.create_verifier
}

/// Whether every object there was kept everything but its names.
pub open spec fn objects_kept(before: ServerModel, now: ServerModel) -> bool {
    &&& now.objects.len() >= before.objects.len()
    &&& forall|i: int|
        0 <= i < before.objects.len() ==> same_but_names(
            before.objects[i],
            #[trigger] now.objects[i],
        )
}

/// What `name` is bound to in directory `parent`.
pub open spec fn bound_in(server: ServerModel, parent: nat, name: Seq<u8>) -> Option<nat> {
    child_of(server.objects[parent as int].children, name)
}

/// Whether a name was moved from one place to another, and no other name changed.
pub open spec fn moved(
    before: ServerModel,
    now: ServerModel,
    source: (nat, Seq<u8>),
    target: (nat, Seq<u8>),
) -> bool {
    &&& objects_kept(before, now)
    &&& now.objects.len() == before.objects.len()
    &&& bound_in(before, source.0, source.1) is Some
    &&& bound_in(now, target.0, target.1) == bound_in(before, source.0, source.1)
    &&& source != target ==> bound_in(now, source.0, source.1) is None
    &&& forall|parent: nat, name: Seq<u8>|
        parent < before.objects.len() && (parent, name) != source && (parent, name) != target
            ==> #[trigger] bound_in(now, parent, name) == bound_in(before, parent, name)
}

/// A RENAME that the server carries out moves a name and nothing else.
proof fn a_rename_step_moves(
    server: ServerModel,
    source: nat,
    target: nat,
    old_name: Seq<u8>,
    new_name: Seq<u8>,
)
    requires
        server_ok(server),
        source < server.objects.len(),
        target < server.objects.len(),
    ensures
        ({
            let done = rename_step(server, source, target, old_name, new_name, 3);
            let from = server.objects[source as int];
            let to = server.objects[target as int];
            let displaced = child_of(to.children, new_name);
            &&& server_ok(done.server)
            &&& done.server.objects.len() == server.objects.len()
            &&& done.reply is Err ==> done.server == server
            &&& done.reply is Ok <==> from.kind == Nfs4Type::Directory && to.kind
                == Nfs4Type::Directory && child_of(from.children, old_name) is Some && !(
            displaced is Some && is_full_directory(server, displaced->0))
            &&& done.reply matches Ok(reply) ==> reply is Rename && moved(
                server,
                done.server,
                (source, old_name),
                (target, new_name),
            )
        }),
{
    let done = rename_step(server, source, target, old_name, new_name, 3);
    let from = server.objects[source as int].children;
    let to = server.objects[target as int].children;
    assert(names_ok(from, server.objects.len()));
    assert(names_ok(to, server.objects.len()));
    a_child_exists(server, source, old_name);
    if done.reply is Ok {
        let moving = child_of(from, old_name)->0;
        let emptied = unbound(server, source, old_name);
        unbinding_keeps_the_server_ok(server, source, old_name);
        binding_keeps_the_server_ok(emptied, target, new_name, moving);
        let placed = bound(emptied, target, new_name, moving);
        bumping_keeps_the_server_ok(placed, source);
        bumping_keeps_the_server_ok(bumped(placed, source), target);
        unbinding_a_name_affects_only_it(from, old_name, new_name);
        let there = emptied.objects[target as int].children;
        binding_a_name_affects_only_it(there, new_name, moving, old_name);
        let now = done.server;
        assert(now.objects[target as int].children == placed.objects[target as int].children);
        assert(now.objects[source as int].children == placed.objects[source as int].children);
        assert forall|parent: nat, name: Seq<u8>|
            parent < server.objects.len() && (parent, name) != (source, old_name) && (
            parent,
            name,
        ) != (target, new_name) implies #[trigger] bound_in(now, parent, name) == bound_in(
            server,
            parent,
            name,
        ) by {
            unbinding_a_name_affects_only_it(from, old_name, name);
            binding_a_name_affects_only_it(there, new_name, moving, name);
        }
    }
}

/// What a rename on the fake answers and does.
proof fn a_rename_is_answered(
    world: FakeWorld,
    source: nat,
    old_name: Seq<u8>,
    target: nat,
    new_name: Seq<u8>,
    mode: RenameMode,
    deadline: Deadline,
)
    requires
        idle(world),
        world.server.objects.len() < u64::MAX,
        source < world.server.objects.len(),
        target < world.server.objects.len(),
        bound_in(world.server, source, old_name) is Some,
    ensures
        ({
            let before = world.server;
            let object = bound_in(before, source, old_name)->0;
            let identity = before.objects[object as int].identity;
            let (answer, after) = rename_run::<FakeTransport>(
                world,
                handle_of(source),
                old_name,
                handle_of(target),
                new_name,
                identity,
                mode,
                deadline,
            );
            let displaced = bound_in(before, target, new_name);
            &&& idle(after)
            &&& answer is Ok <==> mode != RenameMode::NoReplace
                && before.objects[source as int].kind == Nfs4Type::Directory
                && before.objects[target as int].kind == Nfs4Type::Directory && !(displaced
                is Some && is_full_directory(before, displaced->0))
            &&& answer matches Ok(outcome) ==> {
                &&& moved(before, after.server, (source, old_name), (target, new_name))
                &&& outcome == NamespaceOutcomeView::Renamed(
                    NamespaceEffectView { identity, handle: handle_of(object) },
                )
            }
        }),
{
    let server = world.server;
    if mode != RenameMode::NoReplace {
        let call = rename_call(handle_of(source), old_name, handle_of(target), new_name);
        a_quiet_fake_answers(world, call);
        a_handle_is_put_again(server, None, None, source, 0);
        a_handle_is_saved(server, source, 1);
        a_handle_is_put_again(server, Some(source), Some(source), target, 2);
        a_name_is_moved(server, source, target, old_name, new_name);
        a_rename_step_moves(server, source, target, old_name, new_name);
        assert(call.ops[0] == OpView::PutFh(handle_of(source)) && call.ops[1] == OpView::SaveFh
            && call.ops[2] == OpView::PutFh(handle_of(target)) && call.ops[3] == (
        OpView::Rename { old_name, new_name }));
        reveal_with_fuel(plain_from, 6);
        let done = rename_step(server, source, target, old_name, new_name, 3);
        let after = FakeTransport::after(world, call, deadline);
        assert(after.server == done.server);
        if let Ok(reply) = done.reply {
            let results = Seq::<ReplyView>::empty().push(ReplyView::PutFh).push(
                ReplyView::SaveFh,
            ).push(ReplyView::PutFh).push(reply);
            assert(FakeTransport::answer(world, call, deadline)->Ok_0.results == results);
            assert(rename_answer(FakeTransport::answer(world, call, deadline)) is Ok);
            a_lookup_is_answered(
                after,
                target,
                new_name,
                AttrMask(AttrMask::IDENTITY_AND_TYPE),
                deadline,
            );
            a_child_exists(server, source, old_name);
            assert(25u64 & 8 == 8 && 25u64 & 16 == 16 && 25u64 & 1 == 1) by (bit_vector);
        } else {
            assert(rename_answer(FakeTransport::answer(world, call, deadline)) is Err);
        }
    }
}

/// A rename that succeeds binds the destination's name to the very object the source
/// named, unbinds the source's name where it is another, and touches no other name and
/// nothing an object holds, within one directory as between two. It answers the stat of
/// the object that moved. It succeeds wherever there is a source, both parents are
/// directories, and what it would replace is not a directory that holds names.
pub proof fn a_rename_moves_the_name_it_was_asked_to(
    ops: OperationsView,
    bench: Bench<FakeWorld, ()>,
    ledger: Ledger,
    context: RequestContextView,
    source: StoragePathView,
    destination: StoragePathView,
    mode: RenameMode,
    start: nat,
    deadline: Deadline,
)
    requires
        stands_on(ops, bench.world),
        pins(bench.world, start_of(ops, source), start),
    ensures
        ({
            let request = StorageRequestView {
                context,
                operation: StorageOperationView::Rename { source, destination, mode },
            };
            let (answer, after, kept) = execute_run::<FakeTransport, TransportDispatcher>(
                ops,
                bench,
                ledger,
                request,
                deadline,
            );
            let before = bench.world.server;
            let from = place_of(before, start, source);
            let to = place_of(before, start, destination);
            let object = bound_in(before, (from->0).0, (from->0).1);
            let displaced = bound_in(before, (to->0).0, (to->0).1);
            &&& kept == ledger
            &&& answer matches Ok(response) ==> {
                &&& from is Some
                &&& to is Some
                &&& object is Some
                &&& moved(before, after.world.server, from->0, to->0)
                &&& response matches StorageResponseView::Renamed(result)
                    && result.rewrite_target is None && describes(
                    result.stat,
                    after.world.server.objects[object->0 as int],
                )
            }
            &&& admitted(ops, context) && armed(bench) && source.anchor == destination.anchor
                && mode == RenameMode::Replace && sendable(source) && sendable(destination)
                && from is Some && to is Some && before.objects[(from->0).0 as int].kind
                == Nfs4Type::Directory && before.objects[(to->0).0 as int].kind
                == Nfs4Type::Directory && object is Some && statable(
                before.objects[object->0 as int],
            ) && !(displaced is Some && is_full_directory(before, displaced->0)) ==> answer is Ok
        }),
{
    reveal(mutate_run);
    reveal(move_run);
    let operation = crate::capability::name_of(
        StorageOperationView::Rename { source, destination, mode },
    );
    let before = bench.world.server;
    if source.anchor == destination.anchor {
        a_place_is_found(ops, bench.world, start, source, operation, deadline);
        let (first, at_source) = named_run::<FakeTransport>(
            ops,
            bench.world,
            source,
            operation,
            deadline,
        );
        a_place_is_found(ops, at_source, start, destination, operation, deadline);
        let (second, at_target) = named_run::<FakeTransport>(
            ops,
            at_source,
            destination,
            operation,
            deadline,
        );
        if first is Ok && second is Ok {
            let (source_pin, source_name) = first->Ok_0;
            let (target_pin, target_name) = second->Ok_0;
            let (from, old_name) = place_of(before, start, source)->0;
            let (to, new_name) = place_of(before, start, destination)->0;
            a_child_is_found(ops, at_target, source_pin, from, old_name, operation, deadline);
            let (found, at_child) = super::child_run::<FakeTransport>(
                ops,
                at_target,
                source_pin,
                source_name,
                operation,
                deadline,
            );
            if let Ok(pinned) = found {
                let object = bound_in(before, from, old_name)->0;
                a_child_exists(before, from, old_name);
                let limit = FakeTransport::limits_of(at_child).default_deadline;
                a_rename_is_answered(at_child, from, old_name, to, new_name, mode, limit);
                let (answer, renamed) = rename_run::<FakeTransport>(
                    at_child,
                    source_pin.handle,
                    old_name,
                    target_pin.handle,
                    new_name,
                    pinned.identity,
                    mode,
                    limit,
                );
                if answer is Ok {
                    assert(stands_on(ops, renamed)) by {
                        assert forall|i: int| 0 <= i < renamed.server.objects.len() implies (
                        #[trigger] renamed.server.objects[i]).identity.fsid
                            == ops.anchors.filesystem by {
                            assert(same_but_names(before.objects[i], renamed.server.objects[i]));
                        }
                    }
                    a_handle_is_pinned(ops, renamed, object, new_name, operation, deadline);
                    let (pin, at_pin) = super::produced_run::<FakeTransport>(
                        ops,
                        renamed,
                        handle_of(object),
                        new_name,
                        operation,
                        deadline,
                    );
                    a_stat_is_answered(at_pin, pin->Ok_0, object, deadline);
                    assert(same_but_names(
                        before.objects[object as int],
                        renamed.server.objects[object as int],
                    ));
                }
            }
        }
    }
}

/// Whether a name was taken from a directory, and no other name changed.
pub open spec fn taken_away(
    before: ServerModel,
    now: ServerModel,
    place: (nat, Seq<u8>),
) -> bool {
    &&& objects_kept(before, now)
    &&& now.objects.len() == before.objects.len()
    &&& bound_in(before, place.0, place.1) is Some
    &&& bound_in(now, place.0, place.1) is None
    &&& forall|parent: nat, name: Seq<u8>|
        parent < before.objects.len() && (parent, name) != place ==> #[trigger] bound_in(
            now,
            parent,
            name,
        ) == bound_in(before, parent, name)
}

proof fn a_remove_step_takes(server: ServerModel, parent: nat, name: Seq<u8>)
    requires
        server_ok(server),
        parent < server.objects.len(),
    ensures
        ({
            let done = step(server, Some(parent), None, OpView::Remove { name }, 1);
            let directory = server.objects[parent as int];
            let victim = child_of(directory.children, name);
            &&& server_ok(done.server)
            &&& done.reply is Err ==> done.server == server
            &&& done.reply is Ok <==> directory.kind == Nfs4Type::Directory && victim is Some
                && !is_full_directory(server, victim->0)
            &&& done.reply matches Ok(reply) ==> taken_away(server, done.server, (parent, name))
                && (reply matches ReplyView::Remove(info) && info.atomic && info.before
                == directory.change)
        }),
{
    reveal(step);
    reveal(step_at);
    let done = step(server, Some(parent), None, OpView::Remove { name }, 1);
    let names = server.objects[parent as int].children;
    assert(names_ok(names, server.objects.len()));
    unbinding_keeps_the_server_ok(server, parent, name);
    bumping_keeps_the_server_ok(unbound(server, parent, name), parent);
    unbinding_a_name_affects_only_it(names, name, name);
    if done.reply is Ok {
        assert forall|holder: nat, other: Seq<u8>|
            holder < server.objects.len() && (holder, other) != (parent, name) implies #[trigger] bound_in(
            done.server,
            holder,
            other,
        ) == bound_in(server, holder, other) by {
            unbinding_a_name_affects_only_it(names, name, other);
        }
    }
}

/// What an unlink on the fake answers and does.
proof fn an_unlink_is_answered(
    world: FakeWorld,
    parent: nat,
    name: Seq<u8>,
    kind: RemoveKind,
    deadline: Deadline,
)
    requires
        idle(world),
        parent < world.server.objects.len() < u64::MAX,
        world.server.objects[parent as int].kind == Nfs4Type::Directory,
        bound_in(world.server, parent, name) is Some,
    ensures
        ({
            let before = world.server;
            let victim = bound_in(before, parent, name)->0;
            let (answer, after) = remove_run::<FakeTransport>(
                world,
                handle_of(parent),
                name,
                before.objects[victim as int].identity,
                kind,
                deadline,
            );
            &&& idle(after)
            &&& answer matches Ok(outcome) ==> outcome is Removed && taken_away(
                before,
                after.server,
                (parent, name),
            ) && (before.objects[victim as int].kind == Nfs4Type::Directory) == (kind
                == RemoveKind::Directory)
            &&& (before.objects[victim as int].kind == Nfs4Type::Directory) == (kind
                == RemoveKind::Directory) && !is_full_directory(before, victim) ==> answer is Ok
        }),
{
    let before = world.server;
    let victim = bound_in(before, parent, name)->0;
    let look = AttrMask(AttrMask::CHANGE);
    attributes_are_answered(world, parent, look, deadline);
    assert(2u64 & 2 == 2) by (bit_vector);
    let seen = called(world, world.server);
    a_lookup_is_answered(seen, parent, name, AttrMask(AttrMask::IDENTITY_AND_TYPE), deadline);
    assert(25u64 & 8 == 8 && 25u64 & 16 == 16 && 25u64 & 1 == 1) by (bit_vector);
    let probed = called(seen, seen.server);
    let call = remove_call(handle_of(parent), name);
    a_handle_names_its_object(parent);
    a_quiet_fake_performs(probed, call, handle_of(parent), OpView::Remove { name });
    a_remove_step_takes(before, parent, name);
    a_child_exists(before, parent, name);
}

/// A removal that succeeds takes away exactly the name the path ends with, which named
/// a directory where one was to be removed and something else where a file was, and
/// touches no other name and no object. It succeeds for every name bound to what the
/// caller means to remove, unless that is a directory that holds names.
pub proof fn a_removal_takes_away_the_name_it_was_given(
    ops: OperationsView,
    bench: Bench<FakeWorld, ()>,
    ledger: Ledger,
    context: RequestContextView,
    path: StoragePathView,
    directory: bool,
    start: nat,
    deadline: Deadline,
)
    requires
        stands_on(ops, bench.world),
        pins(bench.world, start_of(ops, path), start),
    ensures
        ({
            let operation = if directory {
                StorageOperationView::RemoveDirectory { path }
            } else {
                StorageOperationView::Unlink { path }
            };
            let (answer, after, kept) = execute_run::<FakeTransport, TransportDispatcher>(
                ops,
                bench,
                ledger,
                StorageRequestView { context, operation },
                deadline,
            );
            let before = bench.world.server;
            let place = place_of(before, start, path);
            let (parent, name) = place->0;
            let victim = bound_in(before, parent, name);
            &&& kept == ledger
            &&& answer matches Ok(response) ==> {
                &&& place is Some
                &&& victim is Some
                &&& (before.objects[victim->0 as int].kind == Nfs4Type::Directory) == directory
                &&& taken_away(before, after.world.server, place->0)
                &&& response == (if directory {
                    StorageResponseView::DirectoryRemoved
                } else {
                    StorageResponseView::Unlinked
                })
            }
            &&& admitted(ops, context) && armed(bench) && sendable(path) && place is Some
                && before.objects[parent as int].kind == Nfs4Type::Directory && victim is Some
                && (before.objects[victim->0 as int].kind == Nfs4Type::Directory) == directory
                && !is_full_directory(before, victim->0) ==> answer is Ok
        }),
{
    reveal(mutate_run);
    reveal(removal_run);
    let request = if directory {
        StorageOperationView::RemoveDirectory { path }
    } else {
        StorageOperationView::Unlink { path }
    };
    let operation = crate::capability::name_of(request);
    let before = bench.world.server;
    a_place_is_found(ops, bench.world, start, path, operation, deadline);
    let (named, at_name) = named_run::<FakeTransport>(
        ops,
        bench.world,
        path,
        operation,
        deadline,
    );
    if let Ok((pin, last)) = named {
        let (parent, name) = place_of(before, start, path)->0;
        a_child_is_found(ops, at_name, pin, parent, name, operation, deadline);
        let (found, at_child) = super::child_run::<FakeTransport>(
            ops,
            at_name,
            pin,
            last,
            operation,
            deadline,
        );
        if found is Ok {
            let kind = if directory {
                RemoveKind::Directory
            } else {
                RemoveKind::File
            };
            let limit = FakeTransport::limits_of(at_child).default_deadline;
            an_unlink_is_answered(at_child, parent, name, kind, limit);
        }
    }
}

/// Whether a new directory with `mode` was made under a name that was free, and no
/// other name changed.
pub open spec fn directory_made(
    before: ServerModel,
    now: ServerModel,
    place: (nat, Seq<u8>),
    mode: u32,
) -> bool {
    let made = before.objects.len();
    &&& objects_kept(before, now)
    &&& now.fsid == before.fsid
    &&& now.objects.len() == made + 1
    &&& bound_in(before, place.0, place.1) is None
    &&& bound_in(now, place.0, place.1) == Some(made)
    &&& now.objects[made as int].kind == Nfs4Type::Directory
    &&& now.objects[made as int].mode == mode
    &&& now.objects[made as int].children.len() == 0
    &&& now.objects[made as int].identity.fsid == before.fsid
    &&& statable(now.objects[made as int])
    &&& forall|parent: nat, name: Seq<u8>|
        parent < before.objects.len() && (parent, name) != place ==> #[trigger] bound_in(
            now,
            parent,
            name,
        ) == bound_in(before, parent, name)
}

pub(crate) proof fn a_create_step_makes(server: ServerModel, parent: nat, name: Seq<u8>, mode: u32)
    requires
        server_ok(server),
        parent < server.objects.len(),
    ensures
        ({
            let op = OpView::Create {
                object_type: CreateType::Directory,
                name,
                attributes: AttrValuesView { mode: Some(mode), ..no_values() },
            };
            let done = step(server, Some(parent), None, op, 1);
            let directory = server.objects[parent as int];
            &&& server_ok(done.server)
            &&& done.server.write_cap == server.write_cap
            &&& done.reply is Err ==> done.server == server
            &&& done.reply is Ok <==> directory.kind == Nfs4Type::Directory && child_of(
                directory.children,
                name,
            ) is None
            &&& done.reply matches Ok(reply) ==> {
                &&& reply is Create
                &&& done.current == Some(server.objects.len())
                &&& done.saved is None
                &&& directory_made(server, done.server, (parent, name), mode)
            }
        }),
{
    reveal(step);
    reveal(step_at);
    let values = AttrValuesView { mode: Some(mode), ..no_values() };
    let op = OpView::Create { object_type: CreateType::Directory, name, attributes: values };
    let done = step(server, Some(parent), None, op, 1);
    let names = server.objects[parent as int].children;
    let child = server.objects.len();
    assert(names_ok(names, server.objects.len()));
    let made = allocated(server, Nfs4Type::Directory, Seq::empty(), mode, None);
    allocating_keeps_the_server_ok(server, Nfs4Type::Directory, Seq::empty(), mode, None);
    let object = with_values(made.objects[child as int], values);
    assert(object.children =~= Seq::empty());
    replacing_keeps_the_server_ok(made, child, object);
    let set = with_object(made, child, object);
    binding_keeps_the_server_ok(set, parent, name, child);
    bumping_keeps_the_server_ok(bound(set, parent, name, child), parent);
    binding_a_name_affects_only_it(names, name, child, name);
    the_first_owner_is_numeric();
    if done.reply is Ok {
        assert forall|holder: nat, other: Seq<u8>|
            holder < server.objects.len() && (holder, other) != (parent, name) implies #[trigger] bound_in(
            done.server,
            holder,
            other,
        ) == bound_in(server, holder, other) by {
            binding_a_name_affects_only_it(names, name, child, other);
        }
    }
}

/// What making a directory on the fake answers and does.
proof fn a_mkdir_is_answered(
    world: FakeWorld,
    parent: nat,
    name: Seq<u8>,
    mode: u32,
    deadline: Deadline,
)
    requires
        idle(world),
        parent < world.server.objects.len() < u64::MAX,
    ensures
        ({
            let before = world.server;
            let call = mkdir_call(handle_of(parent), name, mode);
            let answer = mkdir_answer(FakeTransport::answer(world, call, deadline));
            let after = FakeTransport::after(world, call, deadline);
            &&& idle(after)
            &&& answer is Ok <==> before.objects[parent as int].kind == Nfs4Type::Directory
                && bound_in(before, parent, name) is None
            &&& answer is Err ==> after.server == before
            &&& answer matches Ok(outcome) ==> {
                &&& directory_made(before, after.server, (parent, name), mode)
                &&& outcome matches NamespaceOutcomeView::Created(effect) && effect.handle
                    == handle_of(before.objects.len())
            }
        }),
{
    let before = world.server;
    let call = mkdir_call(handle_of(parent), name, mode);
    let values = AttrValuesView { mode: Some(mode), ..no_values() };
    let op = OpView::Create { object_type: CreateType::Directory, name, attributes: values };
    let mask = AttrMask(AttrMask::IDENTITY);
    let made = before.objects.len();
    a_quiet_fake_answers(world, call);
    a_handle_is_put_again(before, None, None, parent, 0);
    a_create_step_makes(before, parent, name, mode);
    let done = step(before, Some(parent), None, op, 1);
    a_handle_is_told(done.server, made, None, 2);
    attributes_are_told(done.server, made, mask);
    assert(call.ops[0] == OpView::PutFh(handle_of(parent)) && call.ops[1] == op && call.ops[2]
        == OpView::GetFh && call.ops[3] == OpView::GetAttr(mask));
    reveal_with_fuel(plain_from, 6);
    assert(24u64 & 8 == 8 && 24u64 & 16 == 16) by (bit_vector);
    if let Ok(reply) = done.reply {
        let results = Seq::<ReplyView>::empty().push(ReplyView::PutFh).push(reply).push(
            ReplyView::GetFh(handle_of(made)),
        ).push(ReplyView::GetAttr(attributes_of(done.server.objects[made as int], mask)));
        assert(FakeTransport::answer(world, call, deadline)->Ok_0.results == results);
    }
}

/// What making a directory through the run's authority does: the directory is there, and
/// the pin that comes back is of it.
proof fn a_directory_is_made(
    ops: OperationsView,
    bench: Bench<FakeWorld, ()>,
    pin: PinnedObjectView,
    parent: nat,
    name: Seq<u8>,
    mode: u32,
    operation: Seq<char>,
    deadline: Deadline,
)
    requires
        stands_on(ops, bench.world),
        bench.world.server.objects.len() + 1 < u64::MAX,
        bench.world.server.fsid == ops.anchors.filesystem,
        pins(bench.world, pin, parent),
    ensures
        ({
            let before = bench.world.server;
            let (made, after) = super::make_run::<FakeTransport, TransportDispatcher>(
                ops,
                bench,
                pin,
                name,
                mode,
                operation,
                deadline,
            );
            &&& made is Ok <==> armed(bench) && before.objects[parent as int].kind
                == Nfs4Type::Directory && bound_in(before, parent, name) is None
            &&& after.mutations == bench.mutations
            &&& made matches Ok(child) ==> {
                &&& directory_made(before, after.world.server, (parent, name), mode)
                &&& stands_on(ops, after.world)
                &&& after.world.server.fsid == before.fsid
                &&& pins(after.world, child, before.objects.len())
            }
        }),
{
    let before = bench.world.server;
    if armed(bench) {
        let limit = FakeTransport::limits_of(bench.world).default_deadline;
        a_mkdir_is_answered(bench.world, parent, name, mode, limit);
        let call = mkdir_call(handle_of(parent), name, mode);
        let made = FakeTransport::after(bench.world, call, limit);
        if mkdir_answer(FakeTransport::answer(bench.world, call, limit)) is Ok {
            assert(stands_on(ops, made)) by {
                assert forall|i: int| 0 <= i < made.server.objects.len() implies (
                #[trigger] made.server.objects[i]).identity.fsid == ops.anchors.filesystem by {
                    if i < before.objects.len() {
                        assert(same_but_names(before.objects[i], made.server.objects[i]));
                    }
                }
            }
            a_handle_is_pinned(ops, made, before.objects.len(), name, operation, deadline);
        }
    }
}

/// Making a directory succeeds exactly where its name is free in a directory, and then
/// that name is bound to a new, empty directory with the mode asked for, no other name
/// is touched and no object changes. It answers the stat of what it made.
pub proof fn a_directory_is_made_under_its_name(
    ops: OperationsView,
    bench: Bench<FakeWorld, ()>,
    ledger: Ledger,
    context: RequestContextView,
    path: StoragePathView,
    mode: u32,
    start: nat,
    deadline: Deadline,
)
    requires
        stands_on(ops, bench.world),
        bench.world.server.objects.len() + 1 < u64::MAX,
        bench.world.server.fsid == ops.anchors.filesystem,
        pins(bench.world, start_of(ops, path), start),
    ensures
        ({
            let request = StorageRequestView {
                context,
                operation: StorageOperationView::Create {
                    path,
                    options: CreateOptionsView { kind: CreateKindView::Directory, mode },
                },
            };
            let (answer, after, kept) = execute_run::<FakeTransport, TransportDispatcher>(
                ops,
                bench,
                ledger,
                request,
                deadline,
            );
            let before = bench.world.server;
            let now = after.world.server;
            let place = place_of(before, start, path);
            &&& kept == ledger
            &&& answer matches Ok(response) ==> {
                &&& place is Some
                &&& directory_made(before, now, place->0, mode)
                &&& response matches StorageResponseView::Created(result)
                    && result.rewrite_target is None && describes(
                    result.stat,
                    now.objects[before.objects.len() as int],
                )
            }
            &&& admitted(ops, context) && armed(bench) && sendable(path) && place is Some
                && before.objects[(place->0).0 as int].kind == Nfs4Type::Directory && bound_in(
                before,
                (place->0).0,
                (place->0).1,
            ) is None ==> answer is Ok
        }),
{
    reveal(mutate_run);
    reveal(super::create_directory_run);
    let request = StorageOperationView::Create {
        path,
        options: CreateOptionsView { kind: CreateKindView::Directory, mode },
    };
    let operation = crate::capability::name_of(request);
    let before = bench.world.server;
    a_place_is_found(ops, bench.world, start, path, operation, deadline);
    let (named, at_name) = named_run::<FakeTransport>(
        ops,
        bench.world,
        path,
        operation,
        deadline,
    );
    if let Ok((pin, last)) = named {
        let (parent, name) = place_of(before, start, path)->0;
        let placed = Bench { world: at_name, ..bench };
        a_directory_is_made(ops, placed, pin, parent, name, mode, operation, deadline);
        let (made, after) = super::make_run::<FakeTransport, TransportDispatcher>(
            ops,
            placed,
            pin,
            last,
            mode,
            operation,
            deadline,
        );
        if let Ok(child) = made {
            a_stat_is_answered(after.world, child, before.objects.len(), deadline);
        }
    }
}

/// Whether a server only gained directories with `mode`: every object and every name
/// there was is kept, and a name that is new is that of a new object.
#[verifier::opaque]
pub open spec fn grown(before: ServerModel, now: ServerModel, mode: u32) -> bool {
    &&& objects_kept(before, now)
    &&& forall|i: int|
        before.objects.len() <= i < now.objects.len() ==> (#[trigger] now.objects[i]).kind
            == Nfs4Type::Directory && now.objects[i].mode == mode
    &&& forall|parent: nat, name: Seq<u8>|
        parent < before.objects.len() ==> match bound_in(before, parent, name) {
            Some(child) => #[trigger] bound_in(now, parent, name) == Some(child),
            None => bound_in(now, parent, name) matches Some(child) ==> child
                >= before.objects.len(),
        }
}

/// Whether nothing but a directory stands in the way of following `names`: a name that
/// is not there yet is no obstacle.
pub open spec fn clear(server: ServerModel, start: nat, names: Seq<Seq<u8>>, from: int) -> bool
    decreases names.len() - from,
{
    from < names.len() ==> {
        &&& server.objects[start as int].kind == Nfs4Type::Directory
        &&& bound_in(server, start, names[from]) matches Some(child) ==> server.objects[child as int].kind
            == Nfs4Type::Directory && clear(server, child, names, from + 1)
    }
}

pub(crate) proof fn growth_adds_up(first: ServerModel, second: ServerModel, third: ServerModel, mode: u32)
    requires
        grown(first, second, mode),
        grown(second, third, mode),
    ensures
        grown(first, third, mode),
{
    reveal(grown);
    assert forall|i: int| 0 <= i < first.objects.len() implies same_but_names(
        first.objects[i],
        #[trigger] third.objects[i],
    ) by {
        assert(same_but_names(first.objects[i], second.objects[i]));
        assert(same_but_names(second.objects[i], third.objects[i]));
    }
    assert forall|i: int| first.objects.len() <= i < third.objects.len() implies (
    #[trigger] third.objects[i]).kind == Nfs4Type::Directory && third.objects[i].mode == mode by {
        if i < second.objects.len() {
            assert(same_but_names(second.objects[i], third.objects[i]));
            assert(second.objects[i].mode == mode);
        }
    }
    assert forall|parent: nat, name: Seq<u8>| parent < first.objects.len() implies match bound_in(
        first,
        parent,
        name,
    ) {
        Some(child) => #[trigger] bound_in(third, parent, name) == Some(child),
        None => bound_in(third, parent, name) matches Some(child) ==> child
            >= first.objects.len(),
    } by {
        assert(bound_in(second, parent, name) == bound_in(second, parent, name));
        assert(bound_in(third, parent, name) == bound_in(third, parent, name));
    }
}

pub(crate) proof fn a_directory_made_is_growth(
    before: ServerModel,
    now: ServerModel,
    place: (nat, Seq<u8>),
    mode: u32,
)
    requires
        directory_made(before, now, place, mode),
    ensures
        grown(before, now, mode),
{
    reveal(grown);
    assert forall|parent: nat, other: Seq<u8>| parent < before.objects.len() implies match bound_in(
        before,
        parent,
        other,
    ) {
        Some(there) => #[trigger] bound_in(now, parent, other) == Some(there),
        None => bound_in(now, parent, other) matches Some(there) ==> there
            >= before.objects.len(),
    } by {
        if (parent, other) != place {
            assert(bound_in(now, parent, other) == bound_in(before, parent, other));
        }
    }
}

pub(crate) proof fn growth_keeps_a_name(
    before: ServerModel,
    now: ServerModel,
    parent: nat,
    name: Seq<u8>,
    mode: u32,
)
    requires
        grown(before, now, mode),
        server_ok(before),
        parent < before.objects.len(),
        bound_in(before, parent, name) is Some,
    ensures
        ({
            let child = bound_in(before, parent, name)->0;
            &&& bound_in(now, parent, name) == Some(child)
            &&& now.objects[parent as int].kind == before.objects[parent as int].kind
            &&& now.objects[child as int].kind == before.objects[child as int].kind
        }),
{
    reveal(grown);
    a_child_exists(before, parent, name);
    let child = bound_in(before, parent, name)->0;
    assert(bound_in(now, parent, name) == Some(child));
    assert(same_but_names(before.objects[parent as int], now.objects[parent as int]));
    assert(same_but_names(before.objects[child as int], now.objects[child as int]));
}

proof fn an_empty_directory_is_clear(
    server: ServerModel,
    index: nat,
    names: Seq<Seq<u8>>,
    from: int,
)
    requires
        0 <= from,
        server.objects[index as int].kind == Nfs4Type::Directory,
        server.objects[index as int].children.len() == 0,
        statable(server.objects[index as int]),
    ensures
        clear(server, index, names, from),
        followed(server, index, names, from) matches Some(leaf) ==> statable(
            server.objects[leaf as int],
        ),
{
    if from < names.len() {
        assert(bound_in(server, index, names[from]) is None);
    }
}

/// Whether following `names` from `at` on leads to the object a stat describes, on a
/// server that gained nothing but what it took to get there.
#[verifier::opaque]
pub open spec fn leads_there(
    before: ServerModel,
    now: ServerModel,
    at: nat,
    names: Seq<Seq<u8>>,
    from: int,
    mode: u32,
    response: StorageResponseView,
) -> bool {
    let leaf = followed(now, at, names, from);
    &&& grown(before, now, mode)
    &&& followed(before, at, names, from) is Some ==> now.objects == before.objects
    &&& leaf is Some
    &&& response matches StorageResponseView::Created(result) && result.rewrite_target is None
        && describes(result.stat, now.objects[leaf->0 as int])
}

/// Whether nothing stands in the way of making `names` lead somewhere from `at` on.
#[verifier::opaque]
pub open spec fn passable(server: ServerModel, at: nat, names: Seq<Seq<u8>>, from: int) -> bool {
    &&& forall|i: int| from <= i < names.len() ==> valid_component(#[trigger] names[i])
    &&& clear(server, at, names, from)
    &&& followed(server, at, names, from) matches Some(leaf) ==> statable(
        server.objects[leaf as int],
    )
}

proof fn a_found_name_leads_on(
    before: ServerModel,
    now: ServerModel,
    at: nat,
    names: Seq<Seq<u8>>,
    from: int,
    mode: u32,
    response: StorageResponseView,
)
    requires
        server_ok(before),
        at < before.objects.len(),
        0 <= from < names.len(),
        before.objects[at as int].kind == Nfs4Type::Directory,
        bound_in(before, at, names[from]) matches Some(child) && before.objects[child as int].kind
            == Nfs4Type::Directory && leads_there(
            before,
            now,
            child,
            names,
            from + 1,
            mode,
            response,
        ),
    ensures
        leads_there(before, now, at, names, from, mode, response),
{
    reveal(leads_there);
    growth_keeps_a_name(before, now, at, names[from], mode);
}

proof fn a_made_name_leads_on(
    before: ServerModel,
    second: ServerModel,
    now: ServerModel,
    at: nat,
    names: Seq<Seq<u8>>,
    from: int,
    mode: u32,
    response: StorageResponseView,
)
    requires
        server_ok(before),
        server_ok(second),
        at < before.objects.len(),
        0 <= from < names.len(),
        before.objects[at as int].kind == Nfs4Type::Directory,
        directory_made(before, second, (at, names[from]), mode),
        leads_there(second, now, before.objects.len(), names, from + 1, mode, response),
    ensures
        leads_there(before, now, at, names, from, mode, response),
{
    reveal(leads_there);
    a_directory_made_is_growth(before, second, (at, names[from]), mode);
    growth_adds_up(before, second, now, mode);
    growth_keeps_a_name(second, now, at, names[from], mode);
    assert(same_but_names(before.objects[at as int], second.objects[at as int]));
}

proof fn a_passable_path_goes_on(
    server: ServerModel,
    at: nat,
    names: Seq<Seq<u8>>,
    from: int,
)
    requires
        0 <= from < names.len(),
        passable(server, at, names, from),
    ensures
        valid_component(names[from]),
        server.objects[at as int].kind == Nfs4Type::Directory,
        bound_in(server, at, names[from]) matches Some(child) ==> server.objects[child as int].kind
            == Nfs4Type::Directory && passable(server, child, names, from + 1),
        forall|second: ServerModel, made: nat|
            second.objects[made as int].kind == Nfs4Type::Directory
                && second.objects[made as int].children.len() == 0 && statable(
                second.objects[made as int],
            ) ==> #[trigger] passable(second, made, names, from + 1),
{
    reveal(passable);
    assert(valid_component(names[from]));
    assert forall|second: ServerModel, made: nat|
        second.objects[made as int].kind == Nfs4Type::Directory
            && second.objects[made as int].children.len() == 0 && statable(
            second.objects[made as int],
        ) implies #[trigger] passable(second, made, names, from + 1) by {
        an_empty_directory_is_clear(second, made, names, from + 1);
    }
}

proof fn parents_are_made(
    ops: OperationsView,
    bench: Bench<FakeWorld, ()>,
    names: Seq<Seq<u8>>,
    from: int,
    pin: PinnedObjectView,
    at: nat,
    mode: u32,
    operation: Seq<char>,
    deadline: Deadline,
)
    requires
        0 <= from <= names.len(),
        stands_on(ops, bench.world),
        bench.world.server.objects.len() + names.len() - from + 1 < u64::MAX,
        bench.world.server.fsid == ops.anchors.filesystem,
        pins(bench.world, pin, at),
    ensures
        ({
            let (answer, after) = super::parents_from::<FakeTransport, TransportDispatcher>(
                ops,
                bench,
                names,
                from,
                pin,
                mode,
                operation,
                deadline,
            );
            let before = bench.world.server;
            &&& answer matches Ok(response) ==> leads_there(
                before,
                after.world.server,
                at,
                names,
                from,
                mode,
                response,
            )
            &&& armed(bench) && passable(before, at, names, from) ==> answer is Ok
        }),
    decreases names.len() - from,
{
    let before = bench.world.server;
    if from >= names.len() {
        a_stat_is_answered(bench.world, pin, at, deadline);
        reveal(passable);
        reveal(leads_there);
        reveal(grown);
    } else {
        let name = names[from];
        if passable(before, at, names, from) {
            a_passable_path_goes_on(before, at, names, from);
        }
        assert(component_of(name) is Ok <==> valid_component(name));
        assert(component_of(name) matches Ok(same) ==> same == name);
        a_child_is_found(ops, bench.world, pin, at, name, "create_parents"@, deadline);
        a_child_exists(before, at, name);
        let (found, at_child) = super::child_run::<FakeTransport>(
            ops,
            bench.world,
            pin,
            name,
            "create_parents"@,
            deadline,
        );
        let looked = Bench { world: at_child, ..bench };
        if let Ok(existing) = found {
            let child = bound_in(before, at, name)->0;
            if existing.kind == Nfs4Type::Directory {
                parents_are_made(
                    ops,
                    looked,
                    names,
                    from + 1,
                    existing,
                    child,
                    mode,
                    operation,
                    deadline,
                );
                let (answer, after) = super::parents_from::<FakeTransport, TransportDispatcher>(
                    ops,
                    looked,
                    names,
                    from + 1,
                    existing,
                    mode,
                    operation,
                    deadline,
                );
                if let Ok(response) = answer {
                    a_found_name_leads_on(
                        before,
                        after.world.server,
                        at,
                        names,
                        from,
                        mode,
                        response,
                    );
                }
            }
        } else {
            a_directory_is_made(ops, looked, pin, at, name, mode, operation, deadline);
            let (made, after) = super::make_run::<FakeTransport, TransportDispatcher>(
                ops,
                looked,
                pin,
                name,
                mode,
                operation,
                deadline,
            );
            if let Ok(pinned) = made {
                parents_are_made(
                    ops,
                    after,
                    names,
                    from + 1,
                    pinned,
                    before.objects.len(),
                    mode,
                    operation,
                    deadline,
                );
                let (answer, last) = super::parents_from::<FakeTransport, TransportDispatcher>(
                    ops,
                    after,
                    names,
                    from + 1,
                    pinned,
                    mode,
                    operation,
                    deadline,
                );
                if let Ok(response) = answer {
                    a_made_name_leads_on(
                        before,
                        after.world.server,
                        last.world.server,
                        at,
                        names,
                        from,
                        mode,
                        response,
                    );
                }
            }
        }
    }
}

/// Making the parents of a path that succeeds leaves every name of the path leading, from
/// directory to directory, to the one whose stat is answered. It only adds directories
/// with the mode asked for: everything that was there is kept, and where the path led
/// somewhere already, nothing changes. It succeeds wherever no name of the path is bound
/// to something that is not a directory.
pub proof fn a_path_is_made_to_lead_somewhere(
    ops: OperationsView,
    bench: Bench<FakeWorld, ()>,
    ledger: Ledger,
    context: RequestContextView,
    path: StoragePathView,
    mode: u32,
    start: nat,
    deadline: Deadline,
)
    requires
        stands_on(ops, bench.world),
        bench.world.server.objects.len() + split_path(path.bytes).len() + 1 < u64::MAX,
        bench.world.server.fsid == ops.anchors.filesystem,
        pins(bench.world, start_of(ops, path), start),
    ensures
        ({
            let request = StorageRequestView {
                context,
                operation: StorageOperationView::CreateParents { path, mode },
            };
            let (answer, after, kept) = execute_run::<FakeTransport, TransportDispatcher>(
                ops,
                bench,
                ledger,
                request,
                deadline,
            );
            let before = bench.world.server;
            let now = after.world.server;
            let names = split_path(path.bytes);
            &&& kept == ledger
            &&& answer matches Ok(response) ==> leads_there(
                before,
                now,
                start,
                names,
                0,
                mode,
                response,
            )
            &&& admitted(ops, context) && armed(bench) && passable(before, start, names, 0)
                ==> answer is Ok
        }),
{
    reveal(mutate_run);
    let request = StorageOperationView::CreateParents { path, mode };
    let operation = crate::capability::name_of(request);
    parents_are_made(
        ops,
        bench,
        split_path(path.bytes),
        0,
        start_of(ops, path),
        start,
        mode,
        operation,
        deadline,
    );
}

} // verus!
