//! What the reads of an open run answer on the in-memory server.
use vstd::prelude::*;

use crate::contract::{
    DirectoryPageView, RequestContextView, StorageOperationView, StoragePathView,
    StorageRequestView, StorageResponseView,
};
use crate::fake::described::{describes, statable};
use crate::fake::idle::{a_quiet_fake_performs, called, idle};
use crate::fake::model::{
    a_handle_names_its_object, child_of, handle_of, step, step_at, ServerModel,
};
use crate::fake::{FakeTransport, FakeWorld};
use crate::handle::anonymous;
use crate::identity::PinnedObjectView;
use crate::layout;
use crate::namespace::NamespaceDispatcher;
use crate::pages::faithful::{a_page_describes_the_objects_it_names, all_faithful};
use crate::pages::listing::{
    carried, cursor_at, delivered, delivered_in_front, entries_adjoin, entries_count, entries_in,
    listable, names_in, names_of, shown_in_parts, shown_names, the_fake_reads_a_page, within_limit,
};
use crate::pages::{a_page_is_bounded_and_filtered, is_noise, shown};
use crate::replay::Ledger;
use crate::transport::{read_answer, read_call, Deadline, Nfs4Type, OpView, RawTransport};

use super::ground::{
    a_path_is_resolved, a_stat_is_answered, object_of, pins, sendable, stands_on, start_of,
};
use super::{execute_run, read_run, Bench, OperationsView};

verus! {

/// The bytes of `content` that `len` bytes from `offset` on cover.
pub open spec fn covered(content: Seq<u8>, offset: u64, len: u32) -> Seq<u8> {
    if offset >= content.len() {
        Seq::empty()
    } else if offset + len <= content.len() {
        content.subrange(offset as int, offset + len)
    } else {
        content.subrange(offset as int, content.len() as int)
    }
}

/// Whether a read leaves everything as it was.
pub open spec fn untouched<S>(
    before: Bench<FakeWorld, S>,
    after: Bench<FakeWorld, S>,
) -> bool {
    after.world.server == before.world.server && after.mutations == before.mutations
}

/// A READ of an object of the fake answers the bytes the range covers.
pub(crate) proof fn a_range_is_read(
    world: FakeWorld,
    index: nat,
    offset: u64,
    len: u32,
    deadline: Deadline,
)
    requires
        idle(world),
        index < world.server.objects.len() < u64::MAX,
    ensures
        ({
            let call = read_call(handle_of(index), anonymous(), offset, len);
            let answer = read_answer(FakeTransport::answer(world, call, deadline));
            let object = world.server.objects[index as int];
            &&& FakeTransport::after(world, call, deadline) == called(world, world.server)
            &&& answer is Ok <==> object.kind != Nfs4Type::Directory
            &&& answer matches Ok(reply) ==> reply.data == covered(object.data, offset, len)
        }),
{
    let handle = handle_of(index);
    let op = OpView::Read { stateid: anonymous(), offset, count: len };
    a_handle_names_its_object(index);
    a_quiet_fake_performs(world, read_call(handle, anonymous(), offset, len), handle, op);
    reveal(step);
    reveal(step_at);
    let object = world.server.objects[index as int];
    let call = read_call(handle, anonymous(), offset, len);
    if let Ok(reply) = read_answer(FakeTransport::answer(world, call, deadline)) {
        assert(reply.data =~= covered(object.data, offset, len));
    }
}

/// A read of bytes answers exactly those the requested range covers in the file the
/// path names: from the offset on, as many as were asked for, or up to the end. It
/// succeeds for every file the path leads to within the run's limit, and for nothing
/// else, and it changes nothing.
pub proof fn a_read_answers_the_bytes_it_asks_for<D: NamespaceDispatcher<FakeTransport>>(
    ops: OperationsView,
    bench: Bench<FakeWorld, D::State>,
    ledger: Ledger,
    context: RequestContextView,
    path: StoragePathView,
    offset: u64,
    len: u32,
    start: nat,
    deadline: Deadline,
)
    requires
        stands_on(ops, bench.world),
        pins(bench.world, start_of(ops, path), start),
    ensures
        ({
            let request = StorageRequestView {
                context,
                operation: StorageOperationView::ReadAt { path, offset, len },
            };
            let (answer, after, kept) = execute_run::<FakeTransport, D>(
                ops,
                bench,
                ledger,
                request,
                deadline,
            );
            let server = bench.world.server;
            let named = object_of(server, start, path);
            &&& untouched(bench, after)
            &&& kept == ledger
            &&& answer matches Ok(response) ==> {
                &&& named is Some
                &&& server.objects[named->0 as int].kind != Nfs4Type::Directory
                &&& response == StorageResponseView::ReadAt(
                    covered(server.objects[named->0 as int].data, offset, len),
                )
            }
            &&& context.run_id == ops.run_id && len <= ops.limits.max_io_bytes && sendable(path)
                && named is Some && server.objects[named->0 as int].kind != Nfs4Type::Directory
                ==> answer is Ok
        }),
{
    reveal(read_run);
    a_path_is_resolved(ops, bench.world, start, path, deadline);
    let (found, at_object) = crate::anchor::resolve_run::<FakeTransport>(
        ops.anchors,
        bench.world,
        path,
        deadline,
    );
    if let Ok(pin) = found {
        let index = object_of(bench.world.server, start, path)->0;
        a_range_is_read(at_object, index, offset, len, deadline);
    }
}

/// A stat answers the stat of the object the path names, and so does a lookup, which
/// names no rewrite target. Both succeed for everything a path leads to that can be
/// reported, and for nothing else, and change nothing.
pub proof fn a_stat_or_lookup_describes_what_its_path_names<
    D: NamespaceDispatcher<FakeTransport>,
>(
    ops: OperationsView,
    bench: Bench<FakeWorld, D::State>,
    ledger: Ledger,
    context: RequestContextView,
    path: StoragePathView,
    start: nat,
    deadline: Deadline,
)
    requires
        stands_on(ops, bench.world),
        pins(bench.world, start_of(ops, path), start),
    ensures
        ({
            let server = bench.world.server;
            let named = object_of(server, start, path);
            let (stat, seen, one) = execute_run::<FakeTransport, D>(
                ops,
                bench,
                ledger,
                StorageRequestView { context, operation: StorageOperationView::Stat { path } },
                deadline,
            );
            let (lookup, found, other) = execute_run::<FakeTransport, D>(
                ops,
                bench,
                ledger,
                StorageRequestView { context, operation: StorageOperationView::Lookup { path } },
                deadline,
            );
            let owed = context.run_id == ops.run_id && (sendable(path) || path.bytes.len() == 0)
                && named is Some && statable(server.objects[named->0 as int]);
            &&& untouched(bench, seen) && one == ledger
            &&& untouched(bench, found) && other == ledger
            &&& owed ==> stat is Ok && lookup is Ok
            &&& stat matches Ok(response) ==> {
                &&& named is Some
                &&& response matches StorageResponseView::Stat(told) && describes(
                    told,
                    server.objects[named->0 as int],
                )
            }
            &&& lookup matches Ok(response) ==> {
                &&& named is Some
                &&& response matches StorageResponseView::Lookup(result)
                    && result.rewrite_target is None && describes(
                    result.stat,
                    server.objects[named->0 as int],
                )
            }
        }),
{
    reveal(read_run);
    a_path_is_resolved(ops, bench.world, start, path, deadline);
    let (found, at_object) = crate::anchor::resolve_run::<FakeTransport>(
        ops.anchors,
        bench.world,
        path,
        deadline,
    );
    if let Ok(pin) = found {
        let index = object_of(bench.world.server, start, path)->0;
        a_stat_is_answered(at_object, pin, index, deadline);
    }
}

/// The names that do not show in a listing of object `index`: only the run's own
/// directory hides one.
pub open spec fn concealed(ops: OperationsView, server: ServerModel, index: nat) -> Seq<Seq<u8>> {
    if server.objects[index as int].identity == ops.anchors.run.pin.identity {
        seq![vstd::utf8::encode_utf8(layout::PRIVATE_DIR@)]
    } else {
        Seq::empty()
    }
}

/// A page that a listing answers is of the directory the path names: never more entries
/// than asked for, each of a name it holds and does not conceal, each with the stat of
/// the object that name is bound to. A listing changes nothing.
pub proof fn a_listed_page_is_of_the_named_directory<D: NamespaceDispatcher<FakeTransport>>(
    ops: OperationsView,
    bench: Bench<FakeWorld, D::State>,
    ledger: Ledger,
    context: RequestContextView,
    path: StoragePathView,
    cursor: Option<Seq<u8>>,
    limit: u32,
    start: nat,
    deadline: Deadline,
)
    requires
        stands_on(ops, bench.world),
        pins(bench.world, start_of(ops, path), start),
    ensures
        ({
            let request = StorageRequestView {
                context,
                operation: StorageOperationView::List { path, cursor, limit },
            };
            let (answer, after, kept) = execute_run::<FakeTransport, D>(
                ops,
                bench,
                ledger,
                request,
                deadline,
            );
            let server = bench.world.server;
            let named = object_of(server, start, path);
            &&& untouched(bench, after)
            &&& kept == ledger
            &&& answer matches Ok(response) ==> {
                &&& named is Some
                &&& server.objects[named->0 as int].kind == Nfs4Type::Directory
                &&& response matches StorageResponseView::List(page) && page.entries.len() <= limit
                    && forall|i: int|
                    0 <= i < page.entries.len() ==> {
                        let entry = #[trigger] page.entries[i];
                        &&& !is_noise(concealed(ops, server, named->0), entry.name)
                        &&& child_of(server.objects[named->0 as int].children, entry.name)
                            matches Some(child) && describes(
                            entry.stat,
                            server.objects[child as int],
                        )
                    }
            }
        }),
{
    reveal(read_run);
    a_path_is_resolved(ops, bench.world, start, path, deadline);
    let (found, at_object) = crate::anchor::resolve_run::<FakeTransport>(
        ops.anchors,
        bench.world,
        path,
        deadline,
    );
    if let Ok(pin) = found {
        let index = object_of(bench.world.server, start, path)->0;
        let private = concealed(ops, bench.world.server, index);
        a_handle_names_its_object(index);
        assert(super::hidden_names(ops, pin) == private);
        if pin.kind == Nfs4Type::Directory {
            a_page_describes_the_objects_it_names(
                at_object,
                pin,
                cursor,
                limit,
                private,
                deadline,
            );
            a_page_is_bounded_and_filtered::<FakeTransport>(
                at_object,
                pin,
                cursor,
                limit,
                private,
                deadline,
            );
            let (read, _) = crate::pages::page_run::<FakeTransport>(
                at_object,
                pin,
                cursor,
                limit,
                private,
                deadline,
            );
            if let Ok(page) = read {
                assert forall|i: int| 0 <= i < page.entries.len() implies {
                    let entry = #[trigger] page.entries[i];
                    &&& !is_noise(private, entry.name)
                    &&& child_of(
                        bench.world.server.objects[index as int].children,
                        entry.name,
                    ) matches Some(child) && describes(
                        entry.stat,
                        bench.world.server.objects[child as int],
                    )
                } by {
                    assert(crate::pages::faithful::faithful(
                        at_object,
                        pin,
                        private,
                        page.entries[i],
                    ));
                }
            }
        } else {
            reveal(crate::pages::page_run);
        }
    }
}

/// Every page of a directory, asked for one after the other with the cursor the one
/// before handed out; nothing where a request fails or `most` pages do not reach the
/// end.
pub open spec fn listed_through<D: NamespaceDispatcher<FakeTransport>>(
    ops: OperationsView,
    bench: Bench<FakeWorld, D::State>,
    ledger: Ledger,
    context: RequestContextView,
    path: StoragePathView,
    cursor: Option<Seq<u8>>,
    limit: u32,
    deadline: Deadline,
    most: nat,
) -> Option<Seq<DirectoryPageView>>
    decreases most,
{
    if most == 0 {
        None
    } else {
        let (answer, after, kept) = execute_run::<FakeTransport, D>(
            ops,
            bench,
            ledger,
            StorageRequestView {
                context,
                operation: StorageOperationView::List { path, cursor, limit },
            },
            deadline,
        );
        match answer {
            Ok(StorageResponseView::List(page)) => match page.next {
                None => Some(seq![page]),
                Some(next) => match listed_through::<D>(
                    ops,
                    after,
                    kept,
                    context,
                    path,
                    Some(next),
                    limit,
                    deadline,
                    (most - 1) as nat,
                ) {
                    None => None,
                    Some(rest) => Some(seq![page] + rest),
                },
            },
            _ => None,
        }
    }
}

/// One page of a listing, from position `at` of the directory on.
proof fn a_page_is_listed<D: NamespaceDispatcher<FakeTransport>>(
    ops: OperationsView,
    bench: Bench<FakeWorld, D::State>,
    ledger: Ledger,
    context: RequestContextView,
    path: StoragePathView,
    limit: u32,
    start: nat,
    index: nat,
    directory: PinnedObjectView,
    at: nat,
    deadline: Deadline,
) -> (stop: nat)
    requires
        stands_on(ops, bench.world),
        pins(bench.world, start_of(ops, path), start),
        context.run_id == ops.run_id,
        sendable(path) || path.bytes.len() == 0,
        object_of(bench.world.server, start, path) == Some(index),
        pins(bench.world, directory, index),
        0 < limit <= ops.limits.max_directory_entries,
        listable(bench.world, directory, concealed(ops, bench.world.server, index)),
        at <= names_in(bench.world, directory).len(),
    ensures
        ({
            let private = concealed(ops, bench.world.server, index);
            let (answer, after, _) = execute_run::<FakeTransport, D>(
                ops,
                bench,
                ledger,
                StorageRequestView {
                    context,
                    operation: StorageOperationView::List {
                        path,
                        cursor: cursor_at(bench.world, directory, at),
                        limit,
                    },
                },
                deadline,
            );
            &&& at <= stop <= names_in(bench.world, directory).len()
            &&& after.world.server == bench.world.server
            &&& stands_on(ops, after.world)
            &&& listable(after.world, directory, private)
            &&& answer matches Ok(StorageResponseView::List(page)) && page.entries == shown(
                entries_in(bench.world, directory, at as int, stop as int),
                private,
            ) && page.entries.len() <= limit && match page.next {
                None => stop == names_in(bench.world, directory).len(),
                Some(next) => at < stop && Some(next) == cursor_at(bench.world, directory, stop),
            }
        }),
{
    reveal(read_run);
    a_path_is_resolved(ops, bench.world, start, path, deadline);
    let (found, at_object) = crate::anchor::resolve_run::<FakeTransport>(
        ops.anchors,
        bench.world,
        path,
        deadline,
    );
    let private = concealed(ops, bench.world.server, index);
    assert(found->Ok_0 == directory);
    assert(super::hidden_names(ops, directory) == private);
    carried(bench.world, at_object, directory, private);
    let stop = the_fake_reads_a_page(at_object, directory, limit, private, at, deadline);
    let (_, after) = crate::pages::page_run::<FakeTransport>(
        at_object,
        directory,
        cursor_at(at_object, directory, at),
        limit,
        private,
        deadline,
    );
    carried(at_object, after, directory, private);
    stop
}

proof fn a_directory_is_listed_from<D: NamespaceDispatcher<FakeTransport>>(
    ops: OperationsView,
    bench: Bench<FakeWorld, D::State>,
    ledger: Ledger,
    context: RequestContextView,
    path: StoragePathView,
    limit: u32,
    start: nat,
    index: nat,
    directory: PinnedObjectView,
    at: nat,
    deadline: Deadline,
    most: nat,
)
    requires
        stands_on(ops, bench.world),
        pins(bench.world, start_of(ops, path), start),
        context.run_id == ops.run_id,
        sendable(path) || path.bytes.len() == 0,
        object_of(bench.world.server, start, path) == Some(index),
        pins(bench.world, directory, index),
        0 < limit <= ops.limits.max_directory_entries,
        listable(bench.world, directory, concealed(ops, bench.world.server, index)),
        at <= names_in(bench.world, directory).len(),
        names_in(bench.world, directory).len() - at < most,
    ensures
        listed_through::<D>(
            ops,
            bench,
            ledger,
            context,
            path,
            cursor_at(bench.world, directory, at),
            limit,
            deadline,
            most,
        ) matches Some(pages) && within_limit(pages, limit) && delivered(pages) == shown(
            entries_in(
                bench.world,
                directory,
                at as int,
                names_in(bench.world, directory).len() as int,
            ),
            concealed(ops, bench.world.server, index),
        ),
    decreases most,
{
    let length = names_in(bench.world, directory).len();
    let private = concealed(ops, bench.world.server, index);
    let cursor = cursor_at(bench.world, directory, at);
    let stop = a_page_is_listed::<D>(
        ops,
        bench,
        ledger,
        context,
        path,
        limit,
        start,
        index,
        directory,
        at,
        deadline,
    );
    let (answer, after, kept) = execute_run::<FakeTransport, D>(
        ops,
        bench,
        ledger,
        StorageRequestView {
            context,
            operation: StorageOperationView::List { path, cursor, limit },
        },
        deadline,
    );
    carried(bench.world, after.world, directory, private);
    let page = answer->Ok_0->List_0;
    let here = entries_in(bench.world, directory, at as int, stop as int);
    let there = entries_in(bench.world, directory, stop as int, length as int);
    entries_adjoin(bench.world, directory, at as int, stop as int, length as int);
    shown_in_parts(here, there, private);
    match page.next {
        None => {
            entries_count(bench.world, directory, stop as int, length as int);
            assert(there =~= Seq::empty());
            assert(shown(here, private) + shown(there, private) =~= page.entries);
            delivered_in_front(page, Seq::empty(), limit);
        },
        Some(next) => {
            a_directory_is_listed_from::<D>(
                ops,
                after,
                kept,
                context,
                path,
                limit,
                start,
                index,
                directory,
                stop,
                deadline,
                (most - 1) as nat,
            );
            let rest = listed_through::<D>(
                ops,
                after,
                kept,
                context,
                path,
                Some(next),
                limit,
                deadline,
                (most - 1) as nat,
            )->0;
            delivered_in_front(page, rest, limit);
        },
    }
}

/// Listing the directory a path names, page by page, ends; no page is longer than was
/// asked for; and the pages together deliver every name the directory holds and does not
/// conceal, each exactly once, and each with the stat of the object it is bound to.
pub proof fn a_directory_is_listed_whole<D: NamespaceDispatcher<FakeTransport>>(
    ops: OperationsView,
    bench: Bench<FakeWorld, D::State>,
    ledger: Ledger,
    context: RequestContextView,
    path: StoragePathView,
    limit: u32,
    start: nat,
    index: nat,
    directory: PinnedObjectView,
    deadline: Deadline,
)
    requires
        stands_on(ops, bench.world),
        pins(bench.world, start_of(ops, path), start),
        context.run_id == ops.run_id,
        sendable(path) || path.bytes.len() == 0,
        object_of(bench.world.server, start, path) == Some(index),
        pins(bench.world, directory, index),
        0 < limit <= ops.limits.max_directory_entries,
        listable(bench.world, directory, concealed(ops, bench.world.server, index)),
    ensures
        ({
            let server = bench.world.server;
            let names = server.objects[index as int].children;
            let private = concealed(ops, server, index);
            &&& listed_through::<D>(
                ops,
                bench,
                ledger,
                context,
                path,
                None,
                limit,
                deadline,
                names.len() + 1,
            ) matches Some(pages) && {
                let entries = delivered(pages);
                &&& within_limit(pages, limit)
                &&& names_of(entries).no_duplicates()
                &&& forall|i: int|
                    0 <= i < names.len() && !is_noise(private, names[i].0) ==> names_of(
                        entries,
                    ).contains(#[trigger] names[i].0)
                &&& all_faithful(bench.world, directory, private, entries)
            }
        }),
{
    a_handle_names_its_object(index);
    let names = names_in(bench.world, directory);
    a_directory_is_listed_from::<D>(
        ops,
        bench,
        ledger,
        context,
        path,
        limit,
        start,
        index,
        directory,
        0,
        deadline,
        names.len() + 1,
    );
    shown_names(
        bench.world,
        directory,
        concealed(ops, bench.world.server, index),
        names.len(),
    );
}

} // verus!
