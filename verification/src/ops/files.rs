//! What writing, sizing and making files of an open run does on the in-memory server.
use vstd::prelude::*;

use crate::contract::{
    CreateKindView, CreateOptionsView, MetadataUpdate, RequestContextView, StorageOperationView,
    StoragePathView, StorageRequestView, StorageResponseView,
};
use crate::crud::{open_how, open_object_run, open_request, write_run, CreateDisposition};
use crate::fake::described::{describes, statable, the_first_owner_is_numeric};
use crate::fake::idle::{a_quiet_fake_opens, a_quiet_fake_performs, idle};
use crate::fake::model::{
    a_handle_names_its_object, allocated, allocating_keeps_the_server_ok,
    binding_a_name_affects_only_it, binding_keeps_the_server_ok, bound, bumping_keeps_the_server_ok,
    child_of, created_file, handle_of, numbered_stateid, open_target, owner_of_stateid, server_ok,
    step, step_at, ObjectModel, ServerModel,
};
use crate::fake::{FakeTransport, FakeWorld};
use crate::handle::{
    anonymous, next_seqid, sequence_answer, stateid_answer, ObjectIdentity, OpenFileView,
    SessionView, Stateid,
};
use crate::identity::{pin_run, stat_run, PinnedObjectView};
use crate::namespace::dispatch::{set_run, values_of, TransportDispatcher};
use crate::replay::{IntentKindView, Ledger, PayloadView, ReplayOutcomeView};
use crate::state::open_owner::{
    allocation, args_of, close_call, close_failure, close_run, confirm_answer, confirm_call,
    open_run, prove_run, OwnerLeaseView, RegistryView,
};
use crate::transport::{
    no_values, open_answer, open_call, write_answer, write_call, AttrMask, AttrValuesView, Deadline,
    Nfs4Type, OpView, RawTransport, ReplyView, ShareAccess, Stability, Verifier,
};

use super::changes::{a_set_is_answered, admitted, an_update_is_carried, armed, others_kept, took};
use super::ground::{
    a_child_exists, a_handle_is_pinned, a_path_is_resolved, a_place_is_found, a_stat_is_answered,
    attributes_are_answered, followed, object_of, pins, place_of, sendable, stands_on, start_of,
};
use super::reads::{a_read_answers_the_bytes_it_asks_for, covered};
use super::names::{bound_in, objects_kept};
use super::{
    execute_run, finish_create_run, mode_only, mutate_run, named_run, resize_run, truncate_run,
    write_at_run, Bench, OperationsView,
};

verus! {

/// Whether one more open owner can be named under an open session.
pub open spec fn may_open(owners: RegistryView) -> bool {
    !owners.session.closed && owners.next < u64::MAX
}

/// Whether a server holds the objects of another, on the same file system.
pub open spec fn holds_what(before: ServerModel, now: ServerModel) -> bool {
    &&& now.objects == before.objects
    &&& now.fsid == before.fsid
    &&& now.write_cap == before.write_cap
}

proof fn an_open_is_confirmed(
    world: FakeWorld,
    index: nat,
    stateid: Stateid,
    owner: Seq<u8>,
    seqid: u32,
    deadline: Deadline,
)
    requires
        idle(world),
        index < world.server.objects.len() < u64::MAX,
        world.server.stateid_owners.len() > 0,
        world.server.stateid_owners.last() == (stateid, owner),
    ensures
        ({
            let call = confirm_call(handle_of(index), stateid, seqid);
            let after = FakeTransport::after(world, call, deadline);
            &&& confirm_answer(FakeTransport::answer(world, call, deadline)) == Ok::<
                Stateid,
                crate::error::FacadeErrorView,
            >(stateid)
            &&& idle(after)
            &&& holds_what(world.server, after.server)
        }),
{
    let call = confirm_call(handle_of(index), stateid, seqid);
    a_handle_names_its_object(index);
    a_quiet_fake_performs(
        world,
        call,
        handle_of(index),
        OpView::OpenConfirm { stateid, seqid },
    );
    reveal(step);
    reveal(step_at);
    reveal_with_fuel(owner_of_stateid, 2);
}

proof fn an_opened_object_is_proved(
    session: SessionView,
    lease: OwnerLeaseView,
    world: FakeWorld,
    request: crate::state::open_owner::OpenRequestView,
    index: nat,
    stateid: Stateid,
    deadline: Deadline,
)
    requires
        idle(world),
        index < world.server.objects.len() < u64::MAX,
        !session.closed,
        lease.owner.client_id == session.core.client_id,
    ensures
        ({
            let (outcome, after) = prove_run::<FakeTransport>(
                session,
                lease,
                world,
                request,
                handle_of(index),
                stateid,
                deadline,
            );
            &&& after.server == world.server
            &&& idle(after)
            &&& outcome matches crate::state::open_owner::OpenOutcomeView::Opened(file) && {
                &&& file.handle == handle_of(index)
                &&& file.identity == world.server.objects[index as int].identity
                &&& stateid_answer(file, session) == Ok::<Stateid, crate::error::FacadeErrorView>(
                    stateid,
                )
                &&& sequence_answer(file, session) is Ok
            }
        }),
{
    reveal(prove_run);
    attributes_are_answered(world, index, AttrMask(AttrMask::IDENTITY), deadline);
    assert(24u64 & 8 == 8 && 24u64 & 16 == 16) by (bit_vector);
}

proof fn an_open_step_opens(
    server: ServerModel,
    parent: nat,
    name: Seq<u8>,
    args: crate::transport::OpenArgsView,
)
    requires
        server_ok(server),
        parent < server.objects.len(),
        args.claim == (crate::transport::OpenClaimView::Null { name }),
    ensures
        ({
            let opened = step(server, Some(parent), None, OpView::Open(args), 1);
            let target = open_target(server, parent, name, args.how, 1);
            let stateid = numbered_stateid(server.next_stateid);
            &&& opened.reply is Ok <==> target is Ok
            &&& target matches Ok((found, after)) ==> {
                &&& opened.current == Some(found)
                &&& holds_what(after, opened.server)
                &&& after.write_cap == server.write_cap
                &&& after.fsid == server.fsid
                &&& opened.server.stateid_owners.len() > 0
                &&& opened.server.stateid_owners.last() == (stateid, args.owner.owner)
                &&& opened.reply matches Ok(ReplyView::Open(reply)) && reply.stateid == stateid
            }
        }),
{
    reveal(step);
    reveal(step_at);
}

/// Opening a name opens what it is bound to once the OPEN is answered, and the open can
/// be used.
pub(crate) proof fn a_name_is_opened(
    owners: RegistryView,
    world: FakeWorld,
    pin: PinnedObjectView,
    parent: nat,
    name: Seq<u8>,
    disposition: CreateDisposition,
    access: ShareAccess,
    deadline: Deadline,
)
    requires
        idle(world),
        world.server.objects.len() + 1 < u64::MAX,
        pins(world, pin, parent),
        open_target(world.server, parent, name, open_how(disposition), 1) matches Ok(made)
            ==> server_ok(made.1) && made.0 < made.1.objects.len() < u64::MAX,
    ensures
        ({
            let (opened, minted, after) = open_object_run::<FakeTransport>(
                owners,
                world,
                pin,
                name,
                disposition,
                access,
                deadline,
            );
            let target = open_target(world.server, parent, name, open_how(disposition), 1);
            &&& opened is Ok <==> pin.kind == Nfs4Type::Directory && may_open(owners)
                && target is Ok
            &&& minted.session == owners.session
            &&& opened matches Ok(open) ==> {
                let (found, made) = target->Ok_0;
                &&& idle(after)
                &&& after.server.objects == made.objects
                &&& after.server.fsid == world.server.fsid
                &&& after.server.write_cap == world.server.write_cap
                &&& open.file.handle == handle_of(found)
                &&& open.file.identity == made.objects[found as int].identity
                &&& stateid_answer(open.file, minted.session) == Ok::<
                    Stateid,
                    crate::error::FacadeErrorView,
                >(numbered_stateid(world.server.next_stateid))
                &&& sequence_answer(open.file, minted.session) is Ok
            }
        }),
{
    let request = open_request(pin, name, disposition, access);
    let target = open_target(world.server, parent, name, open_how(disposition), 1);
    if let Ok(lease) = allocation(owners) {
        let args = args_of(lease, request);
        let call = open_call(request.parent, args);
        a_handle_names_its_object(parent);
        a_quiet_fake_opens(world, pin.handle, args);
        an_open_step_opens(world.server, parent, name, args);
        reveal(open_run);
        let after = FakeTransport::after(world, call, deadline);
        if let Ok((found, made)) = target {
            let stateid = numbered_stateid(world.server.next_stateid);
            let used = OwnerLeaseView { seqid: next_seqid(lease.seqid), ..lease };
            let confirm = confirm_call(handle_of(found), stateid, used.seqid);
            an_open_is_confirmed(after, found, stateid, args.owner.owner, used.seqid, deadline);
            an_opened_object_is_proved(
                owners.session,
                OwnerLeaseView { seqid: next_seqid(used.seqid), ..used },
                FakeTransport::after(after, confirm, deadline),
                request,
                found,
                stateid,
                deadline,
            );
            an_opened_object_is_proved(
                owners.session,
                used,
                after,
                request,
                found,
                stateid,
                deadline,
            );
            assert(open_answer(FakeTransport::answer(world, call, deadline)) matches Ok((
                reply,
                handle,
            )) && reply.stateid == stateid && handle == handle_of(found));
        }
    }
}

/// Closing a usable open succeeds and changes no object.
pub(crate) proof fn an_open_is_closed(
    file: OpenFileView,
    session: SessionView,
    world: FakeWorld,
    index: nat,
    deadline: Deadline,
)
    requires
        idle(world),
        index < world.server.objects.len() < u64::MAX,
        file.handle == handle_of(index),
        sequence_answer(file, session) is Ok,
    ensures
        ({
            let (outcome, after) = close_run::<FakeTransport>(file, session, world, deadline);
            &&& close_failure(outcome) is None
            &&& idle(after)
            &&& after.server == world.server
        }),
{
    reveal(close_run);
    let seqid = sequence_answer(file, session)->Ok_0;
    a_handle_names_its_object(index);
    a_quiet_fake_performs(
        world,
        close_call(file.handle, file.stateid, seqid),
        file.handle,
        OpView::Close { seqid, stateid: file.stateid },
    );
    reveal(step);
    reveal(step_at);
}

/// Whether `now` is `before` with `bytes` in it from `offset` on. A gap before them is
/// filled with zeros, and everything else is as it was.
pub open spec fn patched(before: Seq<u8>, now: Seq<u8>, offset: u64, bytes: Seq<u8>) -> bool {
    let end = offset + bytes.len();
    &&& now.len() == (if before.len() >= end {
        before.len() as int
    } else {
        end
    })
    &&& now.subrange(offset as int, end) == bytes
    &&& forall|i: int| 0 <= i < before.len() && !(offset <= i < end) ==> #[trigger] now[i]
        == before[i]
    &&& forall|i: int| before.len() <= i < offset ==> #[trigger] now[i] == 0
}

/// Whether `now` is `before` with other bytes in it.
pub open spec fn same_but_data(before: ObjectModel, now: ObjectModel) -> bool {
    &&& now.identity == before.identity
    &&& now.kind == before.kind
    &&& now.children == before.children
    &&& now.mode == before.mode
    &&& now.owner == before.owner
    &&& now.owner_group == before.owner_group
    &&& now.time_access == before.time_access
    &&& now.time_modify == before.time_modify
    &&& now.create_verifier == before.create_verifier
}

/// How many of `offered` bytes the server takes at once.
pub open spec fn taken_of(server: ServerModel, offered: nat) -> nat {
    match server.write_cap {
        Some(cap) => if cap < offered {
            cap as nat
        } else {
            offered
        },
        None => offered,
    }
}

/// What a WRITE to an object of the fake answers and does.
pub(crate) proof fn a_range_is_written(
    world: FakeWorld,
    index: nat,
    stateid: Stateid,
    offset: u64,
    stability: Stability,
    bytes: Seq<u8>,
    deadline: Deadline,
)
    requires
        idle(world),
        index < world.server.objects.len() < u64::MAX,
        bytes.len() <= u32::MAX,
    ensures
        ({
            let call = write_call(handle_of(index), stateid, offset, stability, bytes);
            let answer = write_answer(FakeTransport::answer(world, call, deadline));
            let after = FakeTransport::after(world, call, deadline);
            let object = world.server.objects[index as int];
            let count = taken_of(world.server, bytes.len());
            &&& idle(after)
            &&& after.server.fsid == world.server.fsid
            &&& after.server.write_cap == world.server.write_cap
            &&& answer is Ok <==> object.kind != Nfs4Type::Directory && offset + count
                <= usize::MAX
            &&& answer is Err ==> after.server == world.server
            &&& answer matches Ok(reply) ==> {
                let now = after.server.objects[index as int];
                &&& reply.count == count
                &&& others_kept(world.server, after.server, index)
                &&& same_but_data(object, now)
                &&& patched(object.data, now.data, offset, bytes.take(count as int))
            }
        }),
{
    let call = write_call(handle_of(index), stateid, offset, stability, bytes);
    a_handle_names_its_object(index);
    a_quiet_fake_performs(
        world,
        call,
        handle_of(index),
        OpView::Write { stateid, offset, stability, data: bytes },
    );
    reveal(step);
    reveal(step_at);
    let after = FakeTransport::after(world, call, deadline);
    let count = taken_of(world.server, bytes.len());
    let now = after.server.objects[index as int].data;
    if write_answer(FakeTransport::answer(world, call, deadline)) is Ok {
        assert(now.subrange(offset as int, offset + count) =~= bytes.take(count as int));
        assert forall|i: int| 0 <= i < after.server.objects.len() implies crate::fake::model::names_ok(
            #[trigger] after.server.objects[i].children,
            after.server.objects.len(),
        ) by {
            assert(crate::fake::model::names_ok(
                world.server.objects[i].children,
                world.server.objects.len(),
            ));
        }
    }
}

/// Whether a write under this context would be the first under its key and its
/// operation, with room for it in the ledger.
pub open spec fn is_new(ledger: Ledger, context: RequestContextView, len: nat) -> bool {
    &&& !ledger.records.contains_key(context.idempotency_key)
    &&& !ledger.operations.contains_key(context.operation_id)
    &&& ledger.budget.max_records > ledger.records.len() as u32
    &&& ledger.payload_bytes + len <= ledger.budget.max_payload_bytes
}

/// Whether a bench holds authority under which a file can be opened.
pub open spec fn may_open_files(bench: Bench<FakeWorld, ()>) -> bool {
    bench.mutations matches Some(authority) && may_open(authority.owners)
}

/// Names lead where they led while every directory holds what it held.
proof fn names_lead_where_they_led(
    before: ServerModel,
    now: ServerModel,
    start: nat,
    names: Seq<Seq<u8>>,
    from: int,
)
    requires
        server_ok(before),
        start < before.objects.len(),
        now.objects.len() == before.objects.len(),
        forall|i: int|
            0 <= i < before.objects.len() ==> (#[trigger] now.objects[i]).children
                == before.objects[i].children && now.objects[i].kind == before.objects[i].kind,
    ensures
        followed(now, start, names, from) == followed(before, start, names, from),
        followed(before, start, names, from) matches Some(end) ==> end < before.objects.len(),
    decreases names.len() - from,
{
    if from < names.len() {
        a_child_exists(before, start, names[from]);
        if let Some(child) = child_of(before.objects[start as int].children, names[from]) {
            names_lead_where_they_led(before, now, child, names, from + 1);
        }
    }
}

/// Paths name what they named while every directory holds what it held.
proof fn paths_name_what_they_named(
    before: ServerModel,
    now: ServerModel,
    start: nat,
    path: StoragePathView,
)
    requires
        server_ok(before),
        start < before.objects.len(),
        now.objects.len() == before.objects.len(),
        forall|i: int|
            0 <= i < before.objects.len() ==> (#[trigger] now.objects[i]).children
                == before.objects[i].children && now.objects[i].kind == before.objects[i].kind,
    ensures
        place_of(now, start, path) == place_of(before, start, path),
        object_of(now, start, path) == object_of(before, start, path),
        object_of(before, start, path) matches Some(index) ==> index < before.objects.len(),
{
    let names = crate::contract::split_path(path.bytes);
    names_lead_where_they_led(before, now, start, names.drop_last(), 0);
    if let Some((parent, name)) = place_of(before, start, path) {
        a_child_exists(before, parent, name);
    }
}

/// Whether the ledger holds, under the key of a request, the write it asked for: of these
/// bytes, at this offset, to this object, in its run and operation and under its epoch.
pub open spec fn write_on_record(
    ledger: Ledger,
    context: RequestContextView,
    object: ObjectIdentity,
    offset: u64,
    bytes: Seq<u8>,
) -> bool {
    let intent = ledger.records[context.idempotency_key].intent;
    &&& ledger.records.contains_key(context.idempotency_key)
    &&& intent.key == context.idempotency_key
    &&& intent.run_id == context.run_id
    &&& intent.operation == context.operation_id
    &&& context.writer_epoch == Some(intent.epoch)
    &&& intent.payload == PayloadView::Inline(bytes)
    &&& intent.kind == (IntentKindView::Write {
        object,
        offset,
        stability: Stability::Unstable,
    })
}

/// What a write through an open file of the fake answers, does and records.
proof fn an_open_file_is_written(
    open: crate::crud::OpenObjectView,
    session: SessionView,
    world: FakeWorld,
    ledger: Ledger,
    context: RequestContextView,
    index: nat,
    offset: u64,
    bytes: Seq<u8>,
    deadline: Deadline,
)
    requires
        idle(world),
        index < world.server.objects.len() < u64::MAX,
        open.file.handle == handle_of(index),
        stateid_answer(open.file, session) is Ok,
        bytes.len() <= u32::MAX,
        crate::crud::identities_in(context) is Ok,
    ensures
        ({
            let key = context.idempotency_key;
            let (written, after, recorded) = write_run::<FakeTransport>(
                open,
                session,
                world,
                ledger,
                crate::crud::identities_in(context)->Ok_0,
                crate::crud::WriteAtView { offset, stability: Stability::Unstable, data: bytes },
                deadline,
            );
            let object = world.server.objects[index as int];
            let count = taken_of(world.server, bytes.len());
            &&& idle(after)
            &&& after.server.objects.len() == world.server.objects.len()
            &&& ledger.records.contains_key(key) ==> after.server == world.server && recorded
                == ledger
            &&& ledger.records.contains_key(key) ==> (written is Ok ==> write_on_record(
                ledger,
                context,
                open.file.identity,
                offset,
                bytes,
            ))
            &&& ledger.records.contains_key(key) ==> (written matches Ok(ticket) ==> (
            ledger.records[key].outcome matches Some(ReplayOutcomeView::Completed(done))
                && done.count == ticket.record.count))
            &&& !ledger.records.contains_key(key) ==> (written matches Ok(ticket) ==> {
                let now = after.server.objects[index as int];
                &&& ticket.record.count == count
                &&& object.kind != Nfs4Type::Directory
                &&& others_kept(world.server, after.server, index)
                &&& same_but_data(object, now)
                &&& patched(object.data, now.data, offset, bytes.take(count as int))
                &&& write_on_record(recorded, context, open.file.identity, offset, bytes)
                &&& recorded.records[key].outcome matches Some(
                    ReplayOutcomeView::Completed(done),
                ) && done.count == count
            })
            &&& is_new(ledger, context, bytes.len()) && object.kind != Nfs4Type::Directory
                && offset + bytes.len() <= usize::MAX ==> written is Ok
        }),
{
    reveal(write_run);
    let stateid = stateid_answer(open.file, session)->Ok_0;
    a_range_is_written(world, index, stateid, offset, Stability::Unstable, bytes, deadline);
}

/// A write that succeeds under a new key stores a prefix of its bytes at its offset in
/// the file the path names, all of them where the server takes them all, and answers how
/// many; nothing else changes, and the ledger holds the write. Under a key the ledger holds
/// that same write is on record: it answers the recorded count and changes no object. It succeeds for every file the path leads to.
pub proof fn a_write_stores_its_bytes_at_its_offset(
    ops: OperationsView,
    bench: Bench<FakeWorld, ()>,
    ledger: Ledger,
    context: RequestContextView,
    path: StoragePathView,
    offset: u64,
    bytes: Seq<u8>,
    start: nat,
    deadline: Deadline,
)
    requires
        stands_on(ops, bench.world),
        bench.world.server.objects.len() + 1 < u64::MAX,
        pins(bench.world, start_of(ops, path), start),
    ensures
        ({
            let request = StorageRequestView {
                context,
                operation: StorageOperationView::WriteAt { path, offset, bytes },
            };
            let (answer, after, recorded) = execute_run::<FakeTransport, TransportDispatcher>(
                ops,
                bench,
                ledger,
                request,
                deadline,
            );
            let before = bench.world.server;
            let now = after.world.server;
            let key = context.idempotency_key;
            let named = object_of(before, start, path);
            let index = named->0;
            let count = taken_of(before, bytes.len());
            &&& answer matches Ok(response) ==> {
                &&& named is Some
                &&& stands_on(ops, after.world)
                &&& if ledger.records.contains_key(key) {
                    &&& now.objects == before.objects
                    &&& recorded == ledger
                    &&& write_on_record(
                        ledger,
                        context,
                        before.objects[index as int].identity,
                        offset,
                        bytes,
                    )
                    &&& ledger.records[key].outcome matches Some(
                        ReplayOutcomeView::Completed(done),
                    ) && response == StorageResponseView::WriteAt(done.count)
                } else {
                    &&& response == StorageResponseView::WriteAt(count as u32)
                    &&& before.objects[index as int].kind != Nfs4Type::Directory
                    &&& others_kept(before, now, index)
                    &&& same_but_data(before.objects[index as int], now.objects[index as int])
                    &&& patched(
                        before.objects[index as int].data,
                        now.objects[index as int].data,
                        offset,
                        bytes.take(count as int),
                    )
                    &&& write_on_record(
                        recorded,
                        context,
                        before.objects[index as int].identity,
                        offset,
                        bytes,
                    )
                    &&& recorded.records[key].outcome matches Some(
                        ReplayOutcomeView::Completed(done),
                    ) && done.count == count
                }
            }
            &&& admitted(ops, context) && may_open_files(bench) && sendable(path)
                && path.bytes.len() > 0 && named is Some && before.objects[index as int].kind
                != Nfs4Type::Directory && bytes.len() <= ops.limits.max_io_bytes && offset
                + bytes.len() <= usize::MAX && is_new(ledger, context, bytes.len())
                ==> answer is Ok
        }),
{
    reveal(write_at_run);
    let request = StorageOperationView::WriteAt { path, offset, bytes };
    let operation = crate::capability::name_of(request);
    let before = bench.world.server;
    a_place_is_found(ops, bench.world, start, path, operation, deadline);
    paths_name_what_they_named(before, before, start, path);
    let (named, at_name) = named_run::<FakeTransport>(
        ops,
        bench.world,
        path,
        operation,
        deadline,
    );
    if let Ok((pin, last)) = named {
        let (parent, name) = place_of(before, start, path)->0;
        a_child_exists(before, parent, name);
        if let Some(authority) = bench.mutations {
            a_name_is_opened(
                authority.owners,
                at_name,
                pin,
                parent,
                name,
                CreateDisposition::OpenExisting,
                ShareAccess::WRITE,
                deadline,
            );
            let (opened, minted, at_open) = open_object_run::<FakeTransport>(
                authority.owners,
                at_name,
                pin,
                last,
                CreateDisposition::OpenExisting,
                ShareAccess::WRITE,
                deadline,
            );
            if context.writer_epoch is Some && bytes.len() <= u32::MAX {
                if let Ok(open) = opened {
                    let index = object_of(before, start, path)->0;
                    assert(open.file.identity.fsid == ops.anchors.filesystem);
                    an_open_file_is_written(
                        open,
                        minted.session,
                        at_open,
                        ledger,
                        context,
                        index,
                        offset,
                        bytes,
                        deadline,
                    );
                    let (written, at_write, recorded) = write_run::<FakeTransport>(
                        open,
                        minted.session,
                        at_open,
                        ledger,
                        crate::crud::identities_in(context)->Ok_0,
                        crate::crud::WriteAtView {
                            offset,
                            stability: Stability::Unstable,
                            data: bytes,
                        },
                        deadline,
                    );
                    an_open_is_closed(open.file, minted.session, at_write, index, deadline);
                }
            }
        }
    }
}

/// A read of the range that a write has just stored whole answers the bytes that were
/// written.
pub proof fn a_read_answers_what_a_write_stored(
    ops: OperationsView,
    bench: Bench<FakeWorld, ()>,
    ledger: Ledger,
    write: RequestContextView,
    read: RequestContextView,
    path: StoragePathView,
    offset: u64,
    bytes: Seq<u8>,
    start: nat,
    deadline: Deadline,
)
    requires
        stands_on(ops, bench.world),
        bench.world.server.objects.len() + 1 < u64::MAX,
        pins(bench.world, start_of(ops, path), start),
        sendable(path),
        read.run_id == ops.run_id,
        !ledger.records.contains_key(write.idempotency_key),
    ensures
        ({
            let (written, after, recorded) = execute_run::<FakeTransport, TransportDispatcher>(
                ops,
                bench,
                ledger,
                StorageRequestView {
                    context: write,
                    operation: StorageOperationView::WriteAt { path, offset, bytes },
                },
                deadline,
            );
            let (answer, _, _) = execute_run::<FakeTransport, TransportDispatcher>(
                ops,
                after,
                recorded,
                StorageRequestView {
                    context: read,
                    operation: StorageOperationView::ReadAt {
                        path,
                        offset,
                        len: bytes.len() as u32,
                    },
                },
                deadline,
            );
            written matches Ok(StorageResponseView::WriteAt(count)) && count == bytes.len()
                ==> answer == Ok::<StorageResponseView, crate::contract::UmbraErrorView>(
                StorageResponseView::ReadAt(bytes),
            )
        }),
{
    a_write_stores_its_bytes_at_its_offset(
        ops,
        bench,
        ledger,
        write,
        path,
        offset,
        bytes,
        start,
        deadline,
    );
    let (written, after, recorded) = execute_run::<FakeTransport, TransportDispatcher>(
        ops,
        bench,
        ledger,
        StorageRequestView {
            context: write,
            operation: StorageOperationView::WriteAt { path, offset, bytes },
        },
        deadline,
    );
    if written is Ok && written->Ok_0 == StorageResponseView::WriteAt(bytes.len() as u32) {
        let before = bench.world.server;
        let now = after.world.server;
        let index = object_of(before, start, path)->0;
        paths_name_what_they_named(before, now, start, path);
        a_read_answers_the_bytes_it_asks_for::<TransportDispatcher>(
            ops,
            after,
            recorded,
            read,
            path,
            offset,
            bytes.len() as u32,
            start,
            deadline,
        );
        assert(bytes.take(bytes.len() as int) =~= bytes);
        assert(covered(now.objects[index as int].data, offset, bytes.len() as u32) =~= bytes);
    }
}

/// Whether `now` is `before` cut, or filled with zeros, to `len` bytes.
pub open spec fn cut_or_filled(before: Seq<u8>, now: Seq<u8>, len: u64) -> bool {
    &&& now.len() == len
    &&& forall|i: int| 0 <= i < len && i < before.len() ==> #[trigger] now[i] == before[i]
    &&& forall|i: int| before.len() <= i < len ==> #[trigger] now[i] == 0
}

/// A truncation that succeeds leaves the file the path names with exactly the length
/// asked for, what it held kept up to there and zeros beyond, and nothing else changed;
/// it answers the stat of the file as it is then. It succeeds for every file a path
/// leads to.
pub proof fn a_truncation_sets_the_length(
    ops: OperationsView,
    bench: Bench<FakeWorld, ()>,
    ledger: Ledger,
    context: RequestContextView,
    path: StoragePathView,
    len: u64,
    start: nat,
    deadline: Deadline,
)
    requires
        stands_on(ops, bench.world),
        bench.world.server.objects.len() + 1 < u64::MAX,
        pins(bench.world, start_of(ops, path), start),
    ensures
        ({
            let request = StorageRequestView {
                context,
                operation: StorageOperationView::Truncate { path, len },
            };
            let (answer, after, kept) = execute_run::<FakeTransport, TransportDispatcher>(
                ops,
                bench,
                ledger,
                request,
                deadline,
            );
            let before = bench.world.server;
            let now = after.world.server;
            let named = object_of(before, start, path);
            let index = named->0;
            &&& kept == ledger
            &&& answer matches Ok(response) ==> {
                &&& named is Some
                &&& before.objects[index as int].kind != Nfs4Type::Directory
                &&& others_kept(before, now, index)
                &&& same_but_data(before.objects[index as int], now.objects[index as int])
                &&& cut_or_filled(
                    before.objects[index as int].data,
                    now.objects[index as int].data,
                    len,
                )
                &&& response matches StorageResponseView::Truncated(stat) && stat.len == len
                    && describes(stat, now.objects[index as int])
            }
            &&& admitted(ops, context) && armed(bench) && may_open_files(bench) && sendable(path)
                && path.bytes.len() > 0 && named is Some && statable(
                before.objects[index as int],
            ) && before.objects[index as int].kind != Nfs4Type::Directory && len <= usize::MAX
                && before.next_stateid != 0 ==> answer is Ok
        }),
{
    reveal(mutate_run);
    reveal(resize_run);
    reveal(truncate_run);
    let request = StorageOperationView::Truncate { path, len };
    let operation = crate::capability::name_of(request);
    let before = bench.world.server;
    a_path_is_resolved(ops, bench.world, start, path, deadline);
    paths_name_what_they_named(before, before, start, path);
    let (found, at_object) = crate::anchor::resolve_run::<FakeTransport>(
        ops.anchors,
        bench.world,
        path,
        deadline,
    );
    if let Ok(object) = found {
        let index = object_of(before, start, path)->0;
        a_place_is_found(ops, at_object, start, path, operation, deadline);
        let (named, at_name) = named_run::<FakeTransport>(
            ops,
            at_object,
            path,
            operation,
            deadline,
        );
        if let Ok((pin, last)) = named {
            let (parent, name) = place_of(before, start, path)->0;
            a_child_exists(before, parent, name);
            if let Some(authority) = bench.mutations {
                a_name_is_opened(
                    authority.owners,
                    at_name,
                    pin,
                    parent,
                    name,
                    CreateDisposition::OpenExisting,
                    ShareAccess::WRITE,
                    deadline,
                );
                let (opened, minted, at_open) = open_object_run::<FakeTransport>(
                    authority.owners,
                    at_name,
                    pin,
                    last,
                    CreateDisposition::OpenExisting,
                    ShareAccess::WRITE,
                    deadline,
                );
                if let Ok(open) = opened {
                    let stateid = numbered_stateid(at_name.server.next_stateid);
                    let values = AttrValuesView { size: Some(len), ..no_values() };
                    let limit = FakeTransport::limits_of(at_open).default_deadline;
                    a_set_is_answered(at_open, index, values, stateid, limit);
                    let (set, resized) = set_run::<FakeTransport>(
                        at_open,
                        handle_of(index),
                        before.objects[index as int].identity,
                        values,
                        stateid,
                        limit,
                    );
                    an_open_is_closed(open.file, minted.session, resized, index, deadline);
                    an_open_is_closed(open.file, minted.session, at_open, index, deadline);
                    if authority.namespace is Some && stateid != anonymous() && set is Ok {
                        let closed = close_run::<FakeTransport>(
                            open.file,
                            minted.session,
                            resized,
                            deadline,
                        ).1;
                        assert(pins(closed, object, index));
                        a_stat_is_answered(closed, object, index, deadline);
                    }
                }
            }
        }
    }
}

/// Whether a new, empty file with `mode` was made under a name that was free, and no
/// other name changed.
pub open spec fn file_made(
    before: ServerModel,
    now: ServerModel,
    place: (nat, Seq<u8>),
    mode: u32,
) -> bool {
    let made = before.objects.len();
    &&& objects_kept(before, now)
    &&& now.objects.len() == made + 1
    &&& bound_in(before, place.0, place.1) is None
    &&& bound_in(now, place.0, place.1) == Some(made)
    &&& now.objects[made as int].kind == Nfs4Type::Regular
    &&& now.objects[made as int].mode == mode
    &&& now.objects[made as int].data.len() == 0
    &&& statable(now.objects[made as int])
    &&& forall|parent: nat, name: Seq<u8>|
        parent < before.objects.len() && (parent, name) != place ==> #[trigger] bound_in(
            now,
            parent,
            name,
        ) == bound_in(before, parent, name)
}

pub(crate) proof fn a_created_file_is_new(
    server: ServerModel,
    parent: nat,
    name: Seq<u8>,
    mode: u32,
    verifier: Option<Verifier>,
)
    requires
        server_ok(server),
        parent < server.objects.len(),
        bound_in(server, parent, name) is None,
    ensures
        ({
            let (made, now) = created_file(server, parent, name, mode, verifier);
            &&& made == server.objects.len()
            &&& server_ok(now)
            &&& now.fsid == server.fsid
            &&& file_made(server, now, (parent, name), mode)
            &&& now.objects[made as int].create_verifier == verifier
            &&& now.objects[made as int].identity.fsid == server.fsid
        }),
{
    let names = server.objects[parent as int].children;
    let child = server.objects.len();
    assert(crate::fake::model::names_ok(names, server.objects.len()));
    let set = allocated(server, Nfs4Type::Regular, Seq::empty(), mode, verifier);
    allocating_keeps_the_server_ok(server, Nfs4Type::Regular, Seq::empty(), mode, verifier);
    binding_keeps_the_server_ok(set, parent, name, child);
    bumping_keeps_the_server_ok(bound(set, parent, name, child), parent);
    binding_a_name_affects_only_it(names, name, child, name);
    the_first_owner_is_numeric();
    let now = created_file(server, parent, name, mode, verifier).1;
    assert forall|holder: nat, other: Seq<u8>|
        holder < server.objects.len() && (holder, other) != (parent, name) implies #[trigger] bound_in(
        now,
        holder,
        other,
    ) == bound_in(server, holder, other) by {
        binding_a_name_affects_only_it(names, name, child, other);
    }
}

/// Whether `now` is `before` with `mode`, and nothing else changed.
pub open spec fn took_mode(before: ObjectModel, now: ObjectModel, mode: u32) -> bool {
    took(
        before,
        now,
        MetadataUpdate {
            mode: Some(mode),
            uid: None,
            gid: None,
            accessed_nanos: None,
            modified_nanos: None,
        },
    )
}

/// The verifier file creates of a bench are made under.
pub open spec fn made_under(bench: Bench<FakeWorld, ()>) -> Option<Verifier> {
    match bench.mutations {
        Some(authority) => authority.create_verifier,
        None => None,
    }
}

/// What follows the OPEN of a create gives the object it opened its mode, where the
/// create was exclusive, and reports it.
proof fn a_create_is_finished(
    ops: OperationsView,
    bench: Bench<FakeWorld, ()>,
    file: OpenFileView,
    session: SessionView,
    index: nat,
    name: Seq<u8>,
    mode: u32,
    operation: Seq<char>,
    deadline: Deadline,
)
    requires
        stands_on(ops, bench.world),
        index < bench.world.server.objects.len(),
        file.handle == handle_of(index),
        sequence_answer(file, session) is Ok,
    ensures
        ({
            let (answer, after) = finish_create_run::<FakeTransport, TransportDispatcher>(
                ops,
                bench,
                file,
                session,
                name,
                mode,
                operation,
                deadline,
            );
            let before = bench.world.server;
            let now = after.world.server;
            &&& answer matches Ok(response) ==> {
                &&& others_kept(before, now, index)
                &&& if made_under(bench) is Some {
                    took_mode(
            before.objects[index as int],
            now.objects[index as int],
            mode,
        )
                } else {
                    now.objects == before.objects
                }
                &&& response matches StorageResponseView::Created(result)
                    && result.rewrite_target is None && describes(
                    result.stat,
                    now.objects[index as int],
                )
            }
            &&& statable(before.objects[index as int]) && armed(bench) ==> answer is Ok
        }),
{
    let before = bench.world.server;
    let object = before.objects[index as int];
    a_handle_is_pinned(ops, bench.world, index, name, operation, deadline);
    let (pinned, at_pin) = pin_run::<FakeTransport>(bench.world, file.handle, deadline);
    let pin = pinned->Ok_0;
    let held = Bench { world: at_pin, ..bench };
    let update = mode_only(mode);
    an_update_is_carried(object, update);
    let values = values_of(update)->Ok_0;
    let limit = FakeTransport::limits_of(at_pin).default_deadline;
    a_set_is_answered(at_pin, index, values, anonymous(), limit);
    let (applied, set) = super::mode_run::<FakeTransport, TransportDispatcher>(
        held,
        pin,
        mode,
        operation,
    );
    if applied is Ok {
        assert(idle(set.world) && pins(set.world, pin, index));
        a_stat_is_answered(set.world, pin, index, deadline);
        let at_report = stat_run::<FakeTransport>(set.world, pin, deadline).1;
        an_open_is_closed(file, session, at_report, index, deadline);
    }
}

/// A new file that is given its mode is as one made with it.
proof fn a_made_file_takes_its_mode(
    before: ServerModel,
    made: ServerModel,
    now: ServerModel,
    place: (nat, Seq<u8>),
    first: u32,
    mode: u32,
)
    requires
        file_made(before, made, place, first),
        place.0 < before.objects.len(),
        others_kept(made, now, before.objects.len()),
        took_mode(
            made.objects[before.objects.len() as int],
            now.objects[before.objects.len() as int],
            mode,
        ),
    ensures
        file_made(before, now, place, mode),
{
    assert forall|i: int| 0 <= i < before.objects.len() implies crate::ops::names::same_but_names(
        before.objects[i],
        #[trigger] now.objects[i],
    ) by {
        assert(now.objects[i] == made.objects[i]);
    }
    assert forall|parent: nat, name: Seq<u8>|
        parent < before.objects.len() && (parent, name) != place implies #[trigger] bound_in(
        now,
        parent,
        name,
    ) == bound_in(before, parent, name) by {
        assert(bound_in(made, parent, name) == bound_in(before, parent, name));
        assert(now.objects[parent as int] == made.objects[parent as int]);
    }
    assert(now.objects[place.0 as int] == made.objects[place.0 as int]);
}

/// What a create of a file did, where it succeeded.
pub open spec fn created_as_asked(
    before: ServerModel,
    now: ServerModel,
    place: (nat, Seq<u8>),
    mode: u32,
    verifier: Option<Verifier>,
    response: StorageResponseView,
) -> bool {
    let index = bound_in(now, place.0, place.1)->0;
    &&& match bound_in(before, place.0, place.1) {
        None => file_made(before, now, place, mode) && now.objects[index as int].create_verifier
            == verifier,
        Some(there) => {
            &&& verifier is Some
            &&& before.objects[there as int].create_verifier == verifier
            &&& index == there
            &&& others_kept(before, now, there)
            &&& took_mode(
            before.objects[there as int],
            now.objects[there as int],
            mode,
        )
        },
    }
    &&& response matches StorageResponseView::Created(result) && result.rewrite_target is None
        && result.stat.mode == mode && describes(result.stat, now.objects[index as int])
}

proof fn a_named_file_is_made(
    ops: OperationsView,
    world: FakeWorld,
    authority: super::AuthorityView<()>,
    pin: PinnedObjectView,
    parent: nat,
    name: Seq<u8>,
    mode: u32,
    operation: Seq<char>,
    deadline: Deadline,
)
    requires
        stands_on(ops, world),
        world.server.objects.len() + 1 < u64::MAX,
        world.server.fsid == ops.anchors.filesystem,
        pins(world, pin, parent),
    ensures
        ({
            let before = world.server;
            let verifier = authority.create_verifier;
            let found = bound_in(before, parent, name);
            let (opened, minted, at_open) = open_object_run::<FakeTransport>(
                authority.owners,
                world,
                pin,
                name,
                super::creation(verifier, mode),
                ShareAccess::BOTH,
                deadline,
            );
            let held = Bench {
                world: at_open,
                mutations: Some(super::AuthorityView { owners: minted, ..authority }),
            };
            &&& opened is Ok <==> pin.kind == Nfs4Type::Directory && may_open(authority.owners)
                && (found matches Some(there) ==> verifier is Some
                && before.objects[there as int].create_verifier == verifier)
            &&& opened matches Ok(open) ==> {
                let (answer, after) = finish_create_run::<FakeTransport, TransportDispatcher>(
                    ops,
                    held,
                    open.file,
                    minted.session,
                    name,
                    mode,
                    operation,
                    deadline,
                );
                &&& answer matches Ok(response) ==> created_as_asked(
                    before,
                    after.world.server,
                    (parent, name),
                    mode,
                    verifier,
                    response,
                )
                &&& found is None && authority.namespace is Some ==> answer is Ok
            }
        }),
{
    let before = world.server;
    let verifier = authority.create_verifier;
    let disposition = super::creation(verifier, mode);
    let first = if verifier is Some {
        0o600u32
    } else {
        mode
    };
    a_child_exists(before, parent, name);
    if bound_in(before, parent, name) is None {
        a_created_file_is_new(before, parent, name, first, verifier);
    }
    a_name_is_opened(
        authority.owners,
        world,
        pin,
        parent,
        name,
        disposition,
        ShareAccess::BOTH,
        deadline,
    );
    let (opened, minted, at_open) = open_object_run::<FakeTransport>(
        authority.owners,
        world,
        pin,
        name,
        disposition,
        ShareAccess::BOTH,
        deadline,
    );
    if let Ok(open) = opened {
        let (index, made) = open_target(before, parent, name, open_how(disposition), 1)->Ok_0;
        let held = Bench {
            world: at_open,
            mutations: Some(super::AuthorityView { owners: minted, ..authority }),
        };
        assert(stands_on(ops, at_open)) by {
            assert forall|i: int| 0 <= i < at_open.server.objects.len() implies (
            #[trigger] at_open.server.objects[i]).identity.fsid == ops.anchors.filesystem by {
                if i < before.objects.len() {
                    assert(before.objects[i].identity.fsid == ops.anchors.filesystem);
                }
            }
        }
        a_create_is_finished(
            ops,
            held,
            open.file,
            minted.session,
            index,
            name,
            mode,
            operation,
            deadline,
        );
        let (answer, after) = finish_create_run::<FakeTransport, TransportDispatcher>(
            ops,
            held,
            open.file,
            minted.session,
            name,
            mode,
            operation,
            deadline,
        );
        if answer is Ok {
            let now = after.world.server;
            assert(made_under(held) == verifier);
            if bound_in(before, parent, name) is None {
                a_made_file_takes_its_mode(before, made, now, (parent, name), first, mode);
            } else {
                assert(made.objects == before.objects);
                assert(now.objects[parent as int].children
                    == before.objects[parent as int].children);
            }
        }
    }
}

/// A file create that succeeds makes a new, empty file with the mode asked for under a
/// name that was free, and touches nothing else; or, where the create is exclusive and
/// the name is bound to what the same verifier made, gives that file the mode and leaves
/// the rest. It answers the stat of the file. It succeeds wherever the name is free in a
/// directory.
pub proof fn a_file_is_made_under_its_name(
    ops: OperationsView,
    bench: Bench<FakeWorld, ()>,
    ledger: Ledger,
    context: RequestContextView,
    path: StoragePathView,
    mode: u32,
    start: nat,
    deadline: Deadline,
)
    requires
        stands_on(ops, bench.world),
        bench.world.server.objects.len() + 1 < u64::MAX,
        bench.world.server.fsid == ops.anchors.filesystem,
        pins(bench.world, start_of(ops, path), start),
    ensures
        ({
            let request = StorageRequestView {
                context,
                operation: StorageOperationView::Create {
                    path,
                    options: CreateOptionsView { kind: CreateKindView::File, mode },
                },
            };
            let (answer, after, kept) = execute_run::<FakeTransport, TransportDispatcher>(
                ops,
                bench,
                ledger,
                request,
                deadline,
            );
            let before = bench.world.server;
            let now = after.world.server;
            let place = place_of(before, start, path);
            let found = bound_in(before, (place->0).0, (place->0).1);
            &&& kept == ledger
            &&& answer matches Ok(response) ==> {
                &&& place is Some
                &&& created_as_asked(before, now, place->0, mode, made_under(bench), response)
            }
            &&& admitted(ops, context) && armed(bench) && may_open_files(bench) && sendable(path)
                && place is Some && before.objects[(place->0).0 as int].kind
                == Nfs4Type::Directory && found is None ==> answer is Ok
        }),
{
    reveal(mutate_run);
    reveal(super::create_file_run);
    let request = StorageOperationView::Create {
        path,
        options: CreateOptionsView { kind: CreateKindView::File, mode },
    };
    let operation = crate::capability::name_of(request);
    let before = bench.world.server;
    a_place_is_found(ops, bench.world, start, path, operation, deadline);
    let (named, at_name) = named_run::<FakeTransport>(
        ops,
        bench.world,
        path,
        operation,
        deadline,
    );
    if let Ok((pin, last)) = named {
        let (parent, name) = place_of(before, start, path)->0;
        if let Some(authority) = bench.mutations {
            a_named_file_is_made(
                ops,
                at_name,
                authority,
                pin,
                parent,
                name,
                mode,
                operation,
                deadline,
            );
        }
    }
}

} // verus!
