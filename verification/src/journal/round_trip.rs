//! What is read back of a record that was put on the in-memory server.
use vstd::prelude::*;

use crate::contract::UmbraErrorView;
use crate::crud::opening::{
    a_look_leaves_the_fake, an_open_is_of_what_was_found, an_opened_name_is_bound,
    what_follows_an_open_changes_no_object,
};
use crate::crud::{open_object_run, open_request, CreateDisposition, OpenObjectView};
use crate::error::FacadeErrorView;
use crate::fake::calls::{a_capped_write_stores_exactly_its_prefix, accepted_under, capped};
use crate::fake::idle::{
    a_quiet_fake_looks_up, a_quiet_fake_opens, a_quiet_fake_performs, called, idle, quiet,
};
use crate::fake::model::{
    a_handle_names_its_object, attributes_of, child_of, created_file, handle_of, index_of_handle,
    names_ok, resized, step, step_at, write_over,
};
use crate::fake::{FakeTransport, FakeWorld};
use crate::handle::{anonymous, sequence_answer, stateid_answer, OpenFileView, SessionView, Stateid};
use crate::identity::PinnedObjectView;
use crate::layout;
use crate::state::open_owner::{allocation, args_of, close_call, close_run, RegistryView};
use crate::transport::{
    lookup_answer, lookup_call, no_values, read_answer, read_call, write_answer, write_call,
    AttrMask, AttrValuesView, AttributesView, Deadline, Nfs4Type, OpView, RawTransport,
    ReadReplyView, ShareAccess, Stability,
};

use crate::ops::files::{a_created_file_is_new, a_name_is_opened};
use crate::ops::ground::{a_child_exists, pins};
use crate::ops::names::{bound_in, same_but_names};
use crate::ops::persisted::{a_kept_file_is_held, all_kept, holds_file, keeping_adds_up};

use super::{
    consult_run, intent_run, key_file, new_record_run, put_record_run, read_record_run,
    record_chunk, record_from, resize_answer, resize_call, retries_run, settle_run, text_component,
    write_from, write_whole_run, IntentNames, MAX_RECORD_BYTES, RECORD_MODE,
};

verus! {

/// Whether object `file` of a quiet fake can be named by a handle.
spec fn reachable(world: FakeWorld, file: nat) -> bool {
    &&& quiet(world)
    &&& file < world.server.objects.len() <= u64::MAX
}

/// Whether `after` differs from `before` at most in what object `file` holds.
spec fn only_filled(before: FakeWorld, after: FakeWorld, file: nat) -> bool {
    &&& reachable(after, file)
    &&& after.server.objects.len() == before.server.objects.len()
    &&& forall|i: int|
        0 <= i < before.server.objects.len() ==> (#[trigger] after.server.objects[i]).kind
            == before.server.objects[i].kind && after.server.objects[i].children
            == before.server.objects[i].children && after.server.objects[i].identity
            == before.server.objects[i].identity && (i != file ==> after.server.objects[i]
            == before.server.objects[i])
}

/// Whether the first `count` bytes of object `file` are those of `bytes`.
spec fn begins(world: FakeWorld, file: nat, bytes: Seq<u8>, count: nat) -> bool {
    let data = world.server.objects[file as int].data;
    &&& data.len() >= count
    &&& data.take(count as int) == bytes.take(count as int)
}

proof fn a_directory_takes_no_bytes(
    world: FakeWorld,
    file: nat,
    stateid: Stateid,
    offset: u64,
    data: Seq<u8>,
    deadline: Deadline,
)
    requires
        reachable(world, file),
        world.server.objects[file as int].kind == Nfs4Type::Directory,
    ensures
        write_answer(
            FakeTransport::answer(
                world,
                write_call(handle_of(file), stateid, offset, Stability::FileSync, data),
                deadline,
            ),
        ) is Err,
{
    let handle = handle_of(file);
    a_handle_names_its_object(file);
    let op = OpView::Write { stateid, offset, stability: Stability::FileSync, data };
    a_quiet_fake_performs(
        world,
        write_call(handle, stateid, offset, Stability::FileSync, data),
        handle,
        op,
    );
    reveal(step);
    reveal(step_at);
}

/// Bytes that were all accepted are what the object then begins with.
proof fn bytes_are_written(
    world: FakeWorld,
    file: nat,
    stateid: Stateid,
    bytes: Seq<u8>,
    written: nat,
    operation: Seq<char>,
    deadline: Deadline,
)
    requires
        reachable(world, file),
        bytes.len() <= MAX_RECORD_BYTES,
        written <= bytes.len(),
        begins(world, file, bytes, written),
    ensures
        ({
            let (result, after) = write_from::<FakeTransport>(
                world,
                handle_of(file),
                stateid,
                bytes,
                written,
                operation,
                deadline,
            );
            result is Ok ==> only_filled(world, after, file) && begins(
                after,
                file,
                bytes,
                bytes.len(),
            )
        }),
    decreases bytes.len() - written,
{
    if written < bytes.len() {
        let handle = handle_of(file);
        let rest = bytes.skip(written as int);
        let call = write_call(handle, stateid, written as u64, Stability::FileSync, rest);
        if world.server.objects[file as int].kind == Nfs4Type::Directory {
            a_directory_takes_no_bytes(world, file, stateid, written as u64, rest, deadline);
        } else {
            let cap = world.server.write_cap;
            a_handle_names_its_object(file);
            assert(capped(world, cap) == world);
            a_capped_write_stores_exactly_its_prefix(
                world,
                cap,
                handle,
                stateid,
                written as u64,
                Stability::FileSync,
                rest,
                deadline,
            );
            let count = accepted_under(cap, rest.len());
            let after = FakeTransport::after(world, call, deadline);
            let data = world.server.objects[file as int].data;
            let now = after.server.objects[file as int].data;
            assert(now == write_over(data, written, rest.take(count as int)));
            assert(now.take((written + count) as int) =~= bytes.take((written + count) as int))
                by {
                assert forall|i: int| 0 <= i < written + count implies now[i] == bytes[i] by {
                    if i < written {
                        assert(data.take(written as int)[i] == bytes.take(written as int)[i]);
                    }
                }
            }
            if count > 0 {
                bytes_are_written(
                    after,
                    file,
                    stateid,
                    bytes,
                    written + count,
                    operation,
                    deadline,
                );
            }
        }
    }
}

/// An object whose size was set to that of what it begins with holds exactly that.
proof fn a_size_is_set(
    world: FakeWorld,
    file: nat,
    stateid: Stateid,
    bytes: Seq<u8>,
    operation: Seq<char>,
    deadline: Deadline,
)
    requires
        reachable(world, file),
        bytes.len() <= MAX_RECORD_BYTES,
        begins(world, file, bytes, bytes.len()),
    ensures
        ({
            let call = resize_call(handle_of(file), stateid, bytes.len() as u64);
            let after = FakeTransport::after(world, call, deadline);
            resize_answer(FakeTransport::answer(world, call, deadline), operation) is Ok ==> {
                &&& only_filled(world, after, file)
                &&& after.server.objects[file as int].data == bytes
                &&& after.server.objects[file as int].kind != Nfs4Type::Directory
            }
        }),
{
    let handle = handle_of(file);
    let call = resize_call(handle, stateid, bytes.len() as u64);
    let op = OpView::SetAttr {
        stateid,
        attributes: AttrValuesView { size: Some(bytes.len() as u64), ..no_values() },
    };
    a_handle_names_its_object(file);
    assert(call.ops =~= seq![OpView::PutFh(handle), op]);
    a_quiet_fake_performs(world, call, handle, op);
    reveal(step);
    reveal(step_at);
    let data = world.server.objects[file as int].data;
    assert(resized(data, bytes.len()) =~= bytes) by {
        assert forall|i: int| 0 <= i < bytes.len() implies resized(data, bytes.len())[i]
            == bytes[i] by {
            assert(data.take(bytes.len() as int)[i] == bytes.take(bytes.len() as int)[i]);
        }
    }
}

/// Closing changes no object.
proof fn closing_changes_no_object(
    open: OpenFileView,
    session: SessionView,
    world: FakeWorld,
    deadline: Deadline,
)
    requires
        quiet(world),
    ensures
        ({
            let after = close_run::<FakeTransport>(open, session, world, deadline).1;
            quiet(after) && after.server.objects == world.server.objects
        }),
{
    reveal(close_run);
    if let Ok(seqid) = sequence_answer(open, session) {
        a_look_leaves_the_fake(world, close_call(open.handle, open.stateid, seqid), deadline);
    }
}

/// A record that was written whole is all its file holds.
proof fn a_record_is_written_whole(
    open: OpenObjectView,
    session: SessionView,
    world: FakeWorld,
    file: nat,
    bytes: Seq<u8>,
    operation: Seq<char>,
    deadline: Deadline,
)
    requires
        reachable(world, file),
        open.file.handle == handle_of(file),
        bytes.len() <= MAX_RECORD_BYTES,
    ensures
        ({
            let (result, after) = write_whole_run::<FakeTransport>(
                open,
                session,
                world,
                bytes,
                operation,
                deadline,
            );
            result is Ok ==> {
                &&& only_filled(world, after, file)
                &&& after.server.objects[file as int].data == bytes
                &&& after.server.objects[file as int].kind != Nfs4Type::Directory
            }
        }),
{
    if let Ok(stateid) = stateid_answer(open.file, session) {
        let handle = handle_of(file);
        assert(world.server.objects[file as int].data.take(0) =~= bytes.take(0));
        bytes_are_written(world, file, stateid, bytes, 0, operation, deadline);
        let (written, at_end) = write_from::<FakeTransport>(
            world,
            handle,
            stateid,
            bytes,
            0,
            operation,
            deadline,
        );
        if written is Ok {
            a_size_is_set(at_end, file, stateid, bytes, operation, deadline);
            let filled = FakeTransport::after(
                at_end,
                resize_call(handle, stateid, bytes.len() as u64),
                deadline,
            );
            if resize_answer(
                FakeTransport::answer(
                    at_end,
                    resize_call(handle, stateid, bytes.len() as u64),
                    deadline,
                ),
                operation,
            ) is Ok {
                closing_changes_no_object(open.file, session, filled, deadline);
            }
        }
    }
}

/// A file is read on from `count` bytes to its end.
proof fn a_file_is_read_on(
    world: FakeWorld,
    file: nat,
    bytes: Seq<u8>,
    count: nat,
    deadline: Deadline,
)
    requires
        reachable(world, file),
        world.server.objects[file as int].data == bytes,
        world.server.objects[file as int].kind != Nfs4Type::Directory,
        bytes.len() <= MAX_RECORD_BYTES,
        count < bytes.len() || count == 0 && bytes.len() == 0,
    ensures
        record_from::<FakeTransport>(
            world,
            handle_of(file),
            record_chunk(FakeTransport::limits_of(world)),
            bytes.take(count as int),
            deadline,
        ).0 == Ok::<Seq<u8>, UmbraErrorView>(bytes),
    decreases bytes.len() - count,
{
    let handle = handle_of(file);
    let chunk = record_chunk(FakeTransport::limits_of(world));
    let want = if chunk <= MAX_RECORD_BYTES - count {
        chunk
    } else {
        (MAX_RECORD_BYTES - count) as u32
    };
    let call = read_call(handle, anonymous(), count as u64, want);
    let op = OpView::Read { stateid: anonymous(), offset: count as u64, count: want };
    a_handle_names_its_object(file);
    a_quiet_fake_performs(world, call, handle, op);
    reveal(step);
    reveal(step_at);
    let end = if count + want < bytes.len() {
        (count + want) as int
    } else {
        bytes.len() as int
    };
    let piece = bytes.subrange(count as int, end);
    assert(read_answer(FakeTransport::answer(world, call, deadline)) == Ok::<
        ReadReplyView,
        FacadeErrorView,
    >(ReadReplyView { data: piece, eof: end == bytes.len() }));
    assert(bytes.take(count as int) + piece =~= bytes.take(end));
    if end == bytes.len() {
        assert(bytes.take(end) =~= bytes);
    } else {
        a_file_is_read_on(
            FakeTransport::after(world, call, deadline),
            file,
            bytes,
            end as nat,
            deadline,
        );
    }
}

/// A record that stands in its directory is read whole.
proof fn a_record_is_read_whole(
    world: FakeWorld,
    retries: PinnedObjectView,
    name: Seq<u8>,
    file: nat,
    bytes: Seq<u8>,
    deadline: Deadline,
)
    requires
        retries.kind == Nfs4Type::Directory,
        stands(world, retries, name, file, bytes),
        bytes.len() <= MAX_RECORD_BYTES,
    ensures
        read_record_run::<FakeTransport>(world, retries, name, deadline).0 == Ok::<
            Option<Seq<u8>>,
            UmbraErrorView,
        >(Some(bytes)),
{
    let mask = AttrMask(AttrMask::STAT);
    a_quiet_fake_looks_up(world, retries.handle, name, mask);
    assert(1023u64 & 1 == 1 && 1023u64 & 8 == 8 && 1023u64 & 16 == 16) by (bit_vector);
    let call = lookup_call(retries.handle, name, mask);
    let found = attributes_of(world.server.objects[file as int], mask);
    assert(lookup_answer(FakeTransport::answer(world, call, deadline)) == Ok::<
        (Seq<u8>, AttributesView),
        FacadeErrorView,
    >((handle_of(file), found)));
    let after = FakeTransport::after(world, call, deadline);
    assert(bytes.take(0) =~= Seq::<u8>::empty());
    a_file_is_read_on(after, file, bytes, 0, deadline);
}

/// Whether a fake with no fault pending holds the same objects under the same names as
/// it did in `before`, whatever they hold.
spec fn same_tree(before: FakeWorld, after: FakeWorld) -> bool {
    &&& quiet(after)
    &&& after.server.objects.len() == before.server.objects.len()
    &&& forall|i: int|
        0 <= i < before.server.objects.len() ==> (#[trigger] after.server.objects[i]).kind
            == before.server.objects[i].kind && after.server.objects[i].children
            == before.server.objects[i].children && after.server.objects[i].identity
            == before.server.objects[i].identity
}

/// Whether object `file` stands in `retries` under `name` and holds exactly `bytes`.
spec fn stands(
    world: FakeWorld,
    retries: PinnedObjectView,
    name: Seq<u8>,
    file: nat,
    bytes: Seq<u8>,
) -> bool {
    &&& reachable(world, file)
    &&& index_of_handle(retries.handle) matches Some(target) && target
        < world.server.objects.len() && world.server.objects[target as int].kind
        == Nfs4Type::Directory && child_of(
        world.server.objects[target as int].children,
        name,
    ) == Some(file)
    &&& world.server.objects[file as int].data == bytes
    &&& world.server.objects[file as int].kind != Nfs4Type::Directory
}

/// A record that was put whole stands in its directory and holds what was put.
proof fn a_record_is_put(
    owners: RegistryView,
    world: FakeWorld,
    retries: PinnedObjectView,
    name: Seq<u8>,
    disposition: CreateDisposition,
    bytes: Seq<u8>,
    operation: Seq<char>,
    deadline: Deadline,
) -> (file: nat)
    requires
        idle(world),
        world.server.objects.len() < u64::MAX,
        retries.kind == Nfs4Type::Directory,
        index_of_handle(retries.handle) matches Some(target) && target
            < world.server.objects.len() && world.server.objects[target as int].kind
            == Nfs4Type::Directory,
        bytes.len() <= MAX_RECORD_BYTES,
    ensures
        ({
            let (put, _, after) = put_record_run::<FakeTransport>(
                owners,
                world,
                retries,
                name,
                disposition,
                bytes,
                operation,
                deadline,
            );
            put is Ok ==> {
                &&& stands(after, retries, name, file, bytes)
                &&& disposition is OpenExisting ==> same_tree(world, after)
            }
        }),
{
    reveal(put_record_run);
    let (opened, minted, at_open) = open_object_run::<FakeTransport>(
        owners,
        world,
        retries,
        name,
        disposition,
        ShareAccess::WRITE,
        deadline,
    );
    if let Ok(open) = opened {
        let target = index_of_handle(retries.handle)->0;
        let lease = allocation(owners)->Ok_0;
        let request = open_request(retries, name, disposition, ShareAccess::WRITE);
        let args = args_of(lease, request);
        a_quiet_fake_opens(world, retries.handle, args);
        an_opened_name_is_bound(world.server, target, name, args, 1);
        what_follows_an_open_changes_no_object(owners.session, lease, world, request, deadline);
        an_open_is_of_what_was_found(owners.session, lease, world, request, deadline);
        let found = step(world.server, Some(target), None, OpView::Open(args), 1);
        let file = found.current->0;
        assert(open.file.handle == handle_of(file));
        a_record_is_written_whole(
            open,
            minted.session,
            at_open,
            file,
            bytes,
            operation,
            deadline,
        );
        let (result, after) = write_whole_run::<FakeTransport>(
            open,
            minted.session,
            at_open,
            bytes,
            operation,
            deadline,
        );
        if result is Ok {
            assert(after.server.objects[target as int].children
                == at_open.server.objects[target as int].children);
        }
        file
    } else {
        0
    }
}


/// A record that was put whole on a fake with no fault pending is read back whole,
/// whatever stood there before and however short the server's writes and replies are.
pub proof fn a_record_put_whole_is_read_back_whole(
    owners: RegistryView,
    world: FakeWorld,
    retries: PinnedObjectView,
    name: Seq<u8>,
    disposition: CreateDisposition,
    bytes: Seq<u8>,
    operation: Seq<char>,
    deadline: Deadline,
)
    requires
        idle(world),
        world.server.objects.len() < u64::MAX,
        retries.kind == Nfs4Type::Directory,
        index_of_handle(retries.handle) matches Some(target) && target
            < world.server.objects.len() && world.server.objects[target as int].kind
            == Nfs4Type::Directory,
        bytes.len() <= MAX_RECORD_BYTES,
    ensures
        ({
            let (put, _, after) = put_record_run::<FakeTransport>(
                owners,
                world,
                retries,
                name,
                disposition,
                bytes,
                operation,
                deadline,
            );
            put is Ok ==> read_record_run::<FakeTransport>(after, retries, name, deadline).0
                == Ok::<Option<Seq<u8>>, UmbraErrorView>(Some(bytes))
        }),
{
    let file = a_record_is_put(
        owners,
        world,
        retries,
        name,
        disposition,
        bytes,
        operation,
        deadline,
    );
    let (put, _, after) = put_record_run::<FakeTransport>(
        owners,
        world,
        retries,
        name,
        disposition,
        bytes,
        operation,
        deadline,
    );
    if put is Ok {
        a_record_is_read_whole(after, retries, name, file, bytes, deadline);
    }
}

/// Whether `private` pins a directory of a fake with no fault pending that holds the
/// retry directory.
pub open spec fn provisioned(world: FakeWorld, private: PinnedObjectView) -> bool {
    &&& quiet(world)
    &&& world.server.objects.len() < u64::MAX
    &&& private.kind == Nfs4Type::Directory
    &&& index_of_handle(private.handle) matches Some(target) && target
        < world.server.objects.len() && world.server.objects[target as int].kind
        == Nfs4Type::Directory
    &&& child_of(
        world.server.objects[index_of_handle(private.handle)->0 as int].children,
        vstd::utf8::encode_utf8(layout::RETRIES_DIR@),
    ) matches Some(retries) && retries < world.server.objects.len()
        && world.server.objects[retries as int].kind == Nfs4Type::Directory
}

/// The retry directory of a provisioned run is found, and finding it changes nothing.
proof fn the_retry_directory_is_found(
    world: FakeWorld,
    private: PinnedObjectView,
    deadline: Deadline,
) -> (retries: nat)
    requires
        provisioned(world, private),
    ensures
        retries < world.server.objects.len(),
        world.server.objects[retries as int].kind == Nfs4Type::Directory,
        child_of(
            world.server.objects[index_of_handle(private.handle)->0 as int].children,
            vstd::utf8::encode_utf8(layout::RETRIES_DIR@),
        ) == Some(retries),
        text_component(layout::RETRIES_DIR@) is Ok ==> retries_run::<FakeTransport>(
            world,
            private,
            deadline,
        ) == (
            Ok::<PinnedObjectView, UmbraErrorView>(
                PinnedObjectView {
                    identity: world.server.objects[retries as int].identity,
                    handle: handle_of(retries),
                    kind: Nfs4Type::Directory,
                },
            ),
            called(world, world.server),
        ),
{
    let name = vstd::utf8::encode_utf8(layout::RETRIES_DIR@);
    let target = index_of_handle(private.handle)->0;
    let retries = child_of(world.server.objects[target as int].children, name)->0;
    let mask = AttrMask(AttrMask::STAT);
    a_quiet_fake_looks_up(world, private.handle, name, mask);
    assert(1023u64 & 1 == 1 && 1023u64 & 8 == 8 && 1023u64 & 16 == 16) by (bit_vector);
    let call = lookup_call(private.handle, name, mask);
    let found = attributes_of(world.server.objects[retries as int], mask);
    assert(lookup_answer(FakeTransport::answer(world, call, deadline)) == Ok::<
        (Seq<u8>, AttributesView),
        FacadeErrorView,
    >((handle_of(retries), found)));
    retries
}

/// What was settled is what the next consult reads: a record that replaced another is
/// found whole under its key.
pub proof fn a_settled_record_is_what_is_consulted(
    owners: RegistryView,
    world: FakeWorld,
    private: PinnedObjectView,
    key: Seq<char>,
    bytes: Seq<u8>,
    operation: Seq<char>,
    deadline: Deadline,
)
    requires
        idle(world),
        provisioned(world, private),
    ensures
        ({
            let (settled, _, after) = settle_run::<FakeTransport>(
                owners,
                world,
                private,
                key,
                Ok(bytes),
                operation,
                deadline,
            );
            settled is Ok ==> (consult_run::<FakeTransport>(after, private, key, deadline).0
                matches Ok(consulted) && consulted.record == Some(bytes))
        }),
{
    let retries = the_retry_directory_is_found(world, private, deadline);
    let (settled, _, after) = settle_run::<FakeTransport>(
        owners,
        world,
        private,
        key,
        Ok(bytes),
        operation,
        deadline,
    );
    if settled is Ok {
        let found = called(world, world.server);
        let pin = PinnedObjectView {
            identity: world.server.objects[retries as int].identity,
            handle: handle_of(retries),
            kind: Nfs4Type::Directory,
        };
        let name = text_component(key_file(key))->Ok_0;
        a_handle_names_its_object(retries);
        let file = a_record_is_put(
            owners,
            found,
            pin,
            name,
            CreateDisposition::OpenExisting,
            bytes,
            operation,
            deadline,
        );
        assert(provisioned(after, private));
        let again = the_retry_directory_is_found(after, private, deadline);
        assert(again == retries);
        a_record_is_read_whole(
            called(after, after.server),
            pin,
            name,
            file,
            bytes,
            deadline,
        );
    }
}

/// A new record stands under a name that was free, holds what was put, and leaves
/// everything else where it was.
proof fn a_new_record_is_put(
    owners: RegistryView,
    world: FakeWorld,
    retries: PinnedObjectView,
    at: nat,
    name: Seq<u8>,
    bytes: Seq<u8>,
    operation: Seq<char>,
    deadline: Deadline,
)
    requires
        idle(world),
        world.server.objects.len() + 1 < u64::MAX,
        pins(world, retries, at),
        bytes.len() <= MAX_RECORD_BYTES,
    ensures
        ({
            let (put, _, after) = new_record_run::<FakeTransport>(
                owners,
                world,
                retries,
                name,
                bytes,
                operation,
                deadline,
            );
            put is Ok ==> {
                &&& bound_in(world.server, at, name) is None
                &&& all_kept(world.server, after.server)
                &&& after.server.objects.len() == world.server.objects.len() + 1
                &&& idle(after)
                &&& pins(after, retries, at)
                &&& retries.kind == Nfs4Type::Directory
                &&& holds_file(after.server, at, name, bytes)
            }
        }),
{
    reveal(put_record_run);
    let before = world.server;
    let disposition = CreateDisposition::CreateNew { mode: RECORD_MODE };
    a_child_exists(before, at, name);
    if bound_in(before, at, name) is None {
        a_created_file_is_new(before, at, name, RECORD_MODE, None);
    }
    a_name_is_opened(
        owners,
        world,
        retries,
        at,
        name,
        disposition,
        ShareAccess::WRITE,
        deadline,
    );
    let (opened, minted, at_open) = open_object_run::<FakeTransport>(
        owners,
        world,
        retries,
        name,
        disposition,
        ShareAccess::WRITE,
        deadline,
    );
    if let Ok(open) = opened {
        let (file, made) = created_file(before, at, name, RECORD_MODE, None);
        a_record_is_written_whole(
            open,
            minted.session,
            at_open,
            file,
            bytes,
            operation,
            deadline,
        );
        let (result, after) = write_whole_run::<FakeTransport>(
            open,
            minted.session,
            at_open,
            bytes,
            operation,
            deadline,
        );
        if result is Ok {
            let now = after.server;
            assert forall|i: int| 0 <= i < before.objects.len() implies same_but_names(
                before.objects[i],
                #[trigger] now.objects[i],
            ) by {
                assert(same_but_names(before.objects[i], made.objects[i]));
                assert(now.objects[i] == made.objects[i]);
            }
            assert forall|parent: nat, other: Seq<u8>|
                parent < before.objects.len() && bound_in(before, parent, other)
                    is Some implies #[trigger] bound_in(now, parent, other) == bound_in(
                before,
                parent,
                other,
            ) by {
                assert(bound_in(made, parent, other) == bound_in(before, parent, other));
                assert(now.objects[parent as int] == made.objects[parent as int]);
            }
            assert(now.objects[at as int] == made.objects[at as int]);
            assert(bound_in(now, at, name) == Some(file));
            assert forall|i: int| 0 <= i < now.objects.len() implies names_ok(
                #[trigger] now.objects[i].children,
                now.objects.len(),
            ) by {
                assert(names_ok(made.objects[i].children, made.objects.len()));
                assert(now.objects[i].children == made.objects[i].children);
            }
            assert(now.objects[file as int].kind == made.objects[file as int].kind);
        }
    }
}

/// A fresh intent that was recorded is on the server whole: its preconditions, the index
/// of its operation, which names its key's record, and the record itself, each under its
/// own name in the retry directory, where nothing stood under any of them before.
/// Everything that stood there stands there still.
pub proof fn a_fresh_intent_is_recorded_whole(
    owners: RegistryView,
    world: FakeWorld,
    retries: PinnedObjectView,
    at: nat,
    names: IntentNames,
    key: Seq<char>,
    preconditions: Seq<u8>,
    encoded: Seq<u8>,
    operation: Seq<char>,
    deadline: Deadline,
)
    requires
        idle(world),
        world.server.objects.len() + 3 < u64::MAX,
        pins(world, retries, at),
        preconditions.len() <= MAX_RECORD_BYTES,
        encoded.len() <= MAX_RECORD_BYTES,
        vstd::utf8::encode_utf8(key_file(key)).len() <= MAX_RECORD_BYTES,
    ensures
        ({
            let (recorded, _, after) = intent_run::<FakeTransport>(
                owners,
                world,
                retries,
                names,
                key,
                preconditions,
                encoded,
                operation,
                deadline,
            );
            recorded is Ok ==> {
                &&& all_kept(world.server, after.server)
                &&& bound_in(world.server, at, names.preconditions) is None
                &&& bound_in(world.server, at, names.index) is None
                &&& bound_in(world.server, at, names.record) is None
                &&& holds_file(after.server, at, names.preconditions, preconditions)
                &&& holds_file(
                    after.server,
                    at,
                    names.index,
                    vstd::utf8::encode_utf8(key_file(key)),
                )
                &&& holds_file(after.server, at, names.record, encoded)
                &&& read_record_run::<FakeTransport>(
                    after,
                    retries,
                    names.record,
                    deadline,
                ).0 == Ok::<Option<Seq<u8>>, UmbraErrorView>(Some(encoded))
                &&& read_record_run::<FakeTransport>(
                    after,
                    retries,
                    names.preconditions,
                    deadline,
                ).0 == Ok::<Option<Seq<u8>>, UmbraErrorView>(Some(preconditions))
            }
        }),
{
    let index = vstd::utf8::encode_utf8(key_file(key));
    a_new_record_is_put(
        owners,
        world,
        retries,
        at,
        names.preconditions,
        preconditions,
        operation,
        deadline,
    );
    let (noted, first, at_evidence) = new_record_run::<FakeTransport>(
        owners,
        world,
        retries,
        names.preconditions,
        preconditions,
        operation,
        deadline,
    );
    if noted is Ok {
        a_new_record_is_put(
            first,
            at_evidence,
            retries,
            at,
            names.index,
            index,
            operation,
            deadline,
        );
        let (indexed, second, at_index) = new_record_run::<FakeTransport>(
            first,
            at_evidence,
            retries,
            names.index,
            index,
            operation,
            deadline,
        );
        if indexed is Ok {
            a_new_record_is_put(
                second,
                at_index,
                retries,
                at,
                names.record,
                encoded,
                operation,
                deadline,
            );
            let (recorded, _, after) = new_record_run::<FakeTransport>(
                second,
                at_index,
                retries,
                names.record,
                encoded,
                operation,
                deadline,
            );
            if recorded is Ok {
                keeping_adds_up(world.server, at_evidence.server, at_index.server);
                keeping_adds_up(world.server, at_index.server, after.server);
                keeping_adds_up(at_evidence.server, at_index.server, after.server);
                a_kept_file_is_held(
                    at_evidence.server,
                    after.server,
                    at,
                    names.preconditions,
                    preconditions,
                );
                a_kept_file_is_held(at_index.server, after.server, at, names.index, index);
                a_handle_names_its_object(at);
                a_record_is_read_whole(
                    after,
                    retries,
                    names.record,
                    bound_in(after.server, at, names.record)->0,
                    encoded,
                    deadline,
                );
                a_record_is_read_whole(
                    after,
                    retries,
                    names.preconditions,
                    bound_in(after.server, at, names.preconditions)->0,
                    preconditions,
                    deadline,
                );
            }
        }
    }
}

} // verus!
