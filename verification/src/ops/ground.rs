//! Where paths lead on the in-memory server, and what resolving them leaves behind.
use vstd::prelude::*;

use crate::anchor::{
    component_of, descend_any_run, descend_run, refused_component, resolve_parent_run,
    resolve_run, walk_run, TargetView,
};
use crate::contract::{split_path, ErrorKind, StorageAnchor, StoragePathView};
use crate::error::{FacadeErrorView, Nfs4Status};
use crate::fake::idle::{
    a_handle_is_put, a_quiet_fake_answers, a_quiet_fake_looks_up, a_quiet_fake_performs, called,
    idle, plain_from, quiet,
};
use crate::fake::model::{
    a_handle_names_its_object, attributes_of, child_of, handle_of, names_ok, server_ok,
    slot_from_bounds, step, step_at, ServerModel,
};
use crate::fake::{FakeTransport, FakeWorld};
use crate::identity::{adopt_pin, pin_run, revalidate_run, stat_run, PinnedObjectView};
use crate::fake::described::{a_stat_describes_its_object, describes, statable};
use crate::transport::{
    getattr_answer, getattr_call, lookup_answer, lookup_call, valid_component, AttrMask,
    AttributesView, Deadline, Fsid, Nfs4Type, OpView, RawTransport,
};

use super::{child_run, named_run, produced_run, OperationsView};

verus! {

/// Whether `pin` is of object `index` of the fake.
pub open spec fn pins(world: FakeWorld, pin: PinnedObjectView, index: nat) -> bool {
    &&& index < world.server.objects.len()
    &&& pin.handle == handle_of(index)
    &&& pin.identity == world.server.objects[index as int].identity
    &&& pin.kind == world.server.objects[index as int].kind
}

/// The pin of the anchor a path starts at.
pub open spec fn start_of(ops: OperationsView, path: StoragePathView) -> PinnedObjectView {
    match path.anchor {
        StorageAnchor::Root => ops.anchors.root.pin,
        StorageAnchor::Control => ops.anchors.control.pin,
    }
}

/// Whether an open run stands on a fake with no fault pending: everything is on the
/// run's file system, and its objects can be told apart by their handles.
pub open spec fn stands_on(ops: OperationsView, world: FakeWorld) -> bool {
    &&& idle(world)
    &&& world.server.objects.len() < u64::MAX
    &&& forall|i: int|
        0 <= i < world.server.objects.len() ==> (#[trigger] world.server.objects[i]).identity.fsid
            == ops.anchors.filesystem
}

/// The directory that following `names` from `from` on leads to.
pub open spec fn followed(server: ServerModel, start: nat, names: Seq<Seq<u8>>, from: int) -> Option<
    nat,
>
    decreases names.len() - from,
{
    if from >= names.len() {
        Some(start)
    } else if server.objects[start as int].kind != Nfs4Type::Directory {
        None
    } else {
        match child_of(server.objects[start as int].children, names[from]) {
            None => None,
            Some(child) => if server.objects[child as int].kind != Nfs4Type::Directory {
                None
            } else {
                followed(server, child, names, from + 1)
            },
        }
    }
}

/// The directory that holds the name a path ends with, and that name.
pub open spec fn place_of(server: ServerModel, start: nat, path: StoragePathView) -> Option<
    (nat, Seq<u8>),
> {
    let names = split_path(path.bytes);
    if path.bytes.len() == 0 {
        None
    } else {
        match followed(server, start, names.drop_last(), 0) {
            None => None,
            Some(parent) => Some((parent, names.last())),
        }
    }
}

/// The object a path names: its anchor where it is empty, else what its last name is
/// bound to in the directory the others lead to.
pub open spec fn object_of(server: ServerModel, start: nat, path: StoragePathView) -> Option<nat> {
    if path.bytes.len() == 0 {
        Some(start)
    } else {
        match place_of(server, start, path) {
            None => None,
            Some((parent, name)) => if server.objects[parent as int].kind
                != Nfs4Type::Directory {
                None
            } else {
                child_of(server.objects[parent as int].children, name)
            },
        }
    }
}

/// Whether every name of a path can go on the wire.
pub open spec fn sendable(path: StoragePathView) -> bool {
    forall|i: int|
        0 <= i < split_path(path.bytes).len() ==> valid_component(
            #[trigger] split_path(path.bytes)[i],
        )
}

/// A child that exists is below the count of objects.
pub(crate) proof fn a_child_exists(server: ServerModel, parent: nat, name: Seq<u8>)
    requires
        server_ok(server),
        parent < server.objects.len(),
    ensures
        child_of(server.objects[parent as int].children, name) matches Some(child) ==> child
            < server.objects.len(),
{
    let names = server.objects[parent as int].children;
    assert(names_ok(names, server.objects.len()));
    slot_from_bounds(names, name, 0);
}

/// What a LOOKUP in a directory of the fake answers, whether the name is there or not.
pub(crate) proof fn a_lookup_is_answered(
    world: FakeWorld,
    parent: nat,
    name: Seq<u8>,
    mask: AttrMask,
    deadline: Deadline,
)
    requires
        idle(world),
        parent < world.server.objects.len() < u64::MAX,
    ensures
        ({
            let call = lookup_call(handle_of(parent), name, mask);
            let answer = lookup_answer(FakeTransport::answer(world, call, deadline));
            let directory = world.server.objects[parent as int];
            &&& FakeTransport::after(world, call, deadline) == called(world, world.server)
            &&& if directory.kind == Nfs4Type::Directory {
                match child_of(directory.children, name) {
                    Some(child) => answer == Ok::<(Seq<u8>, AttributesView), FacadeErrorView>(
                        (
                            handle_of(child),
                            attributes_of(world.server.objects[child as int], mask),
                        ),
                    ),
                    None => answer matches Err(FacadeErrorView::Protocol(error)) && error.status
                        == Nfs4Status(Nfs4Status::NOENT),
                }
            } else {
                answer matches Err(FacadeErrorView::Protocol(error)) && error.status
                    == Nfs4Status(Nfs4Status::NOTDIR)
            }
        }),
{
    let call = lookup_call(handle_of(parent), name, mask);
    let directory = world.server.objects[parent as int];
    a_handle_names_its_object(parent);
    if directory.kind == Nfs4Type::Directory && child_of(directory.children, name) is Some {
        a_quiet_fake_looks_up(world, handle_of(parent), name, mask);
    } else {
        a_quiet_fake_answers(world, call);
        a_handle_is_put(world.server, handle_of(parent));
        a_name_is_missed(world.server, parent, name);
        reveal_with_fuel(plain_from, 4);
        assert(call.ops[0] == OpView::PutFh(handle_of(parent)));
        assert(call.ops[1] == OpView::Lookup(name));
    }
}

proof fn a_name_is_missed(server: ServerModel, parent: nat, name: Seq<u8>)
    requires
        server.objects[parent as int].kind != Nfs4Type::Directory || child_of(
            server.objects[parent as int].children,
            name,
        ) is None,
    ensures
        ({
            let missed = step(server, Some(parent), None, OpView::Lookup(name), 1);
            &&& missed.server == server
            &&& missed.reply matches Err(error) && error.status.0 == (if server.objects[parent as int].kind
                != Nfs4Type::Directory {
                Nfs4Status::NOTDIR
            } else {
                Nfs4Status::NOENT
            })
        }),
{
    reveal(step);
    reveal(step_at);
}

/// A pin made of what the server answers of an object pins that object.
pub(crate) proof fn a_pin_is_adopted(world: FakeWorld, index: nat, mask: AttrMask)
    requires
        index < world.server.objects.len(),
        mask.0 == AttrMask::STAT,
    ensures
        adopt_pin(
            handle_of(index),
            attributes_of(world.server.objects[index as int], mask),
        ) matches Ok(pin) && pins(world, pin, index),
{
    assert(1023u64 & 1 == 1 && 1023u64 & 8 == 8 && 1023u64 & 16 == 16) by (bit_vector);
}

/// Descending to a name finds what it is bound to, and changes nothing.
pub(crate) proof fn a_descent_finds_the_child(
    world: FakeWorld,
    pin: PinnedObjectView,
    parent: nat,
    name: Seq<u8>,
    deadline: Deadline,
)
    requires
        idle(world),
        world.server.objects.len() < u64::MAX,
        pins(world, pin, parent),
    ensures
        ({
            let (found, after) = descend_any_run::<FakeTransport>(world, pin, name, deadline);
            let directory = world.server.objects[parent as int];
            &&& after.server == world.server
            &&& idle(after)
            &&& match found {
                Ok(child) => directory.kind == Nfs4Type::Directory && child_of(
                    directory.children,
                    name,
                ) is Some && pins(world, child, child_of(directory.children, name)->0),
                Err(_) => directory.kind != Nfs4Type::Directory || child_of(
                    directory.children,
                    name,
                ) is None,
            }
        }),
{
    let directory = world.server.objects[parent as int];
    let mask = AttrMask(AttrMask::STAT);
    a_lookup_is_answered(world, parent, name, mask, deadline);
    a_child_exists(world.server, parent, name);
    if let Some(child) = child_of(directory.children, name) {
        a_pin_is_adopted(world, child, mask);
    }
}

pub(crate) proof fn a_walk_follows(
    world: FakeWorld,
    filesystem: Option<Fsid>,
    pin: PinnedObjectView,
    start: nat,
    names: Seq<Seq<u8>>,
    from: int,
    deadline: Deadline,
)
    requires
        idle(world),
        world.server.objects.len() < u64::MAX,
        pins(world, pin, start),
        0 <= from,
        filesystem matches Some(home) ==> forall|i: int|
            0 <= i < world.server.objects.len() ==> (
            #[trigger] world.server.objects[i]).identity.fsid == home,
    ensures
        ({
            let (found, after) = walk_run::<FakeTransport>(
                world,
                pin,
                names,
                from,
                filesystem,
                deadline,
            );
            &&& after.server == world.server
            &&& idle(after)
            &&& match followed(world.server, start, names, from) {
                Some(end) => found matches Ok(last) && pins(world, last, end),
                None => found is Err,
            }
        }),
    decreases names.len() - from,
{
    if from < names.len() {
        a_descent_finds_the_child(world, pin, start, names[from], deadline);
        let (found, after) = descend_run::<FakeTransport>(
            world,
            pin,
            names[from],
            filesystem,
            deadline,
        );
        if let Ok(next) = found {
            let child = child_of(world.server.objects[start as int].children, names[from])->0;
            a_child_exists(world.server, start, names[from]);
            a_walk_follows(after, filesystem, next, child, names, from + 1, deadline);
        }
    }
}

pub(crate) proof fn nothing_is_refused(parts: Seq<Seq<u8>>, from: int)
    requires
        0 <= from,
        forall|i: int| 0 <= i < parts.len() ==> valid_component(#[trigger] parts[i]),
    ensures
        refused_component(parts, from) is None,
    decreases parts.len() - from,
{
    if from < parts.len() {
        assert(component_of(parts[from]) is Ok);
        nothing_is_refused(parts, from + 1);
    }
}

/// Resolving the directory a path's last name stands in finds it, and changes nothing.
pub(crate) proof fn a_place_is_found(
    ops: OperationsView,
    world: FakeWorld,
    start: nat,
    path: StoragePathView,
    operation: Seq<char>,
    deadline: Deadline,
)
    requires
        stands_on(ops, world),
        pins(world, start_of(ops, path), start),
    ensures
        ({
            let (found, after) = named_run::<FakeTransport>(ops, world, path, operation, deadline);
            &&& after.server == world.server
            &&& idle(after)
            &&& stands_on(ops, after)
            &&& found matches Ok((parent, name)) ==> (place_of(world.server, start, path)
                matches Some((directory, last)) && pins(world, parent, directory) && name == last)
            &&& sendable(path) && place_of(world.server, start, path) is Some ==> found is Ok
        }),
{
    reveal(resolve_parent_run);
    let names = split_path(path.bytes);
    a_walk_follows(
        world,
        Some(ops.anchors.filesystem),
        start_of(ops, path),
        start,
        names.drop_last(),
        0,
        deadline,
    );
    if sendable(path) {
        nothing_is_refused(names, 0);
    }
}

/// Resolving a path finds the object it names, and changes nothing.
pub(crate) proof fn a_path_is_resolved(
    ops: OperationsView,
    world: FakeWorld,
    start: nat,
    path: StoragePathView,
    deadline: Deadline,
)
    requires
        stands_on(ops, world),
        pins(world, start_of(ops, path), start),
    ensures
        ({
            let (found, after) = resolve_run::<FakeTransport>(ops.anchors, world, path, deadline);
            &&& after.server == world.server
            &&& stands_on(ops, after)
            &&& found matches Ok(pin) ==> (object_of(world.server, start, path) matches Some(
                index,
            ) && pins(world, pin, index))
            &&& (sendable(path) || path.bytes.len() == 0) && object_of(
                world.server,
                start,
                path,
            ) is Some ==> found is Ok
        }),
{
    reveal(resolve_run);
    reveal(resolve_parent_run);
    a_place_is_found(ops, world, start, path, Seq::empty(), deadline);
    let (target, at_parent) = resolve_parent_run::<FakeTransport>(
        ops.anchors,
        world,
        path,
        deadline,
    );
    if let Ok(TargetView::Named { parent, name }) = target {
        let directory = (place_of(world.server, start, path)->0).0;
        a_descent_finds_the_child(at_parent, parent, directory, name, deadline);
        a_child_exists(world.server, directory, name);
    }
}

/// Looking a child up finds what the name is bound to, and changes nothing.
pub(crate) proof fn a_child_is_found(
    ops: OperationsView,
    world: FakeWorld,
    pin: PinnedObjectView,
    parent: nat,
    name: Seq<u8>,
    operation: Seq<char>,
    deadline: Deadline,
)
    requires
        stands_on(ops, world),
        pins(world, pin, parent),
    ensures
        ({
            let (found, after) = child_run::<FakeTransport>(
                ops,
                world,
                pin,
                name,
                operation,
                deadline,
            );
            let directory = world.server.objects[parent as int];
            let bound = directory.kind == Nfs4Type::Directory && child_of(
                directory.children,
                name,
            ) is Some;
            &&& after.server == world.server
            &&& stands_on(ops, after)
            &&& found is Ok <==> bound
            &&& found matches Ok(child) ==> pins(
                world,
                child,
                child_of(directory.children, name)->0,
            )
            &&& directory.kind == Nfs4Type::Directory && !bound ==> (found matches Err(error)
                && error.kind == ErrorKind::NotFound)
        }),
{
    let directory = world.server.objects[parent as int];
    let mask = AttrMask(AttrMask::STAT);
    a_lookup_is_answered(world, parent, name, mask, deadline);
    a_child_exists(world.server, parent, name);
    if let Some(child) = child_of(directory.children, name) {
        a_pin_is_adopted(world, child, mask);
    }
}

/// What a GETATTR of an object of the fake answers.
pub(crate) proof fn attributes_are_answered(
    world: FakeWorld,
    index: nat,
    mask: AttrMask,
    deadline: Deadline,
)
    requires
        quiet(world),
        index < world.server.objects.len() < u64::MAX,
    ensures
        ({
            let call = getattr_call(handle_of(index), mask);
            &&& getattr_answer(FakeTransport::answer(world, call, deadline)) == Ok::<
                AttributesView,
                FacadeErrorView,
            >(attributes_of(world.server.objects[index as int], mask))
            &&& FakeTransport::after(world, call, deadline) == called(world, world.server)
        }),
{
    a_handle_names_its_object(index);
    a_quiet_fake_performs(
        world,
        getattr_call(handle_of(index), mask),
        handle_of(index),
        OpView::GetAttr(mask),
    );
    reveal(step);
    reveal(step_at);
}

/// A stat of a pinned object describes it, and changes nothing.
pub(crate) proof fn a_stat_is_answered(
    world: FakeWorld,
    pin: PinnedObjectView,
    index: nat,
    deadline: Deadline,
)
    requires
        idle(world),
        world.server.objects.len() < u64::MAX,
        pins(world, pin, index),
    ensures
        ({
            let (stat, after) = stat_run::<FakeTransport>(world, pin, deadline);
            &&& after.server == world.server
            &&& idle(after)
            &&& stat is Ok <==> statable(world.server.objects[index as int])
            &&& stat matches Ok(found) ==> describes(found, world.server.objects[index as int])
        }),
{
    reveal(stat_run);
    reveal(revalidate_run);
    let mask = AttrMask(AttrMask::STAT);
    attributes_are_answered(world, index, mask, deadline);
    a_stat_describes_its_object(world.server.objects[index as int], mask);
    assert(1023u64 & 8 == 8 && 1023u64 & 16 == 16) by (bit_vector);
}

/// Pinning what a handle names pins that object, and changes nothing.
pub(crate) proof fn a_handle_is_pinned(
    ops: OperationsView,
    world: FakeWorld,
    index: nat,
    name: Seq<u8>,
    operation: Seq<char>,
    deadline: Deadline,
)
    requires
        stands_on(ops, world),
        index < world.server.objects.len(),
    ensures
        ({
            let (found, after) = produced_run::<FakeTransport>(
                ops,
                world,
                handle_of(index),
                name,
                operation,
                deadline,
            );
            let (pinned, later) = pin_run::<FakeTransport>(world, handle_of(index), deadline);
            &&& after.server == world.server
            &&& stands_on(ops, after)
            &&& found matches Ok(pin) && pins(world, pin, index)
            &&& later == after
            &&& pinned matches Ok(pin) && pins(world, pin, index)
        }),
{
    reveal(pin_run);
    let mask = AttrMask(AttrMask::STAT);
    attributes_are_answered(world, index, mask, deadline);
    a_pin_is_adopted(world, index, mask);
}

} // verus!
