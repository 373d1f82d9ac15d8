//! Whole listings of a directory of the in-memory server, page by page.
use vstd::prelude::*;

use crate::bytes::{precedes, precedes_irreflexive};
use crate::contract::{byte_path, DirectoryEntryView, DirectoryPageView, UmbraErrorView};
use crate::error::FacadeErrorView;
use crate::fake::described::{is_numeric, the_first_owner_is_numeric};
use crate::fake::idle::{a_quiet_fake_performs, called, idle};
use crate::fake::model::{
    allocated, attributes_of, child_of, entries_between, in_order, index_of_handle, lesser,
    names_ok, present_is_found, readdir_room, slot_from_bounds, slot_of, step, step_at, Names,
    ObjectModel, ServerModel,
};
use crate::fake::{FakeTransport, FakeWorld};
use crate::identity::PinnedObjectView;
use crate::transport::{
    readdir_answer, readdir_call, valid_component, AttrMask, Deadline, DirCookie, DirEntryView,
    DirPageView, DirVerifier, Nfs4Type, OpView, RawTransport, Verifier,
};

use super::faithful::{a_translated_entry_describes, all_faithful, faithful};
use super::{
    a_cursor_round_trips_in_its_own_directory_only, counting_stays_within, cursor_bytes,
    drain_from, draining_passes_over_nothing, is_noise, page_bytes, page_from, page_request,
    page_run, position_after, shown, taken_of, translated, unfinished, PageCursorView, PageProgress,
    MAX_SERVER_PAGES,
};

verus! {

/// Every page of a listing, from `cursor` on, each continued from the one before
/// it; nothing where a page fails or `most` pages do not reach the end.
pub open spec fn listing<T: RawTransport>(
    world: T::World,
    directory: PinnedObjectView,
    cursor: Option<Seq<u8>>,
    limit: u32,
    private: Seq<Seq<u8>>,
    deadline: Deadline,
    most: nat,
) -> Option<Seq<DirectoryPageView>>
    decreases most,
{
    if most == 0 {
        None
    } else {
        let (read, after) = page_run::<T>(world, directory, cursor, limit, private, deadline);
        match read {
            Err(_) => None,
            Ok(page) => match page.next {
                None => Some(seq![page]),
                Some(next) => match listing::<T>(
                    after,
                    directory,
                    Some(next),
                    limit,
                    private,
                    deadline,
                    (most - 1) as nat,
                ) {
                    None => None,
                    Some(rest) => Some(seq![page] + rest),
                },
            },
        }
    }
}

/// The entries of all pages, in order.
pub open spec fn delivered(pages: Seq<DirectoryPageView>) -> Seq<DirectoryEntryView>
    decreases pages.len(),
{
    if pages.len() == 0 {
        Seq::empty()
    } else {
        pages[0].entries + delivered(pages.skip(1))
    }
}

/// The names a directory of the fake holds.
pub open spec fn names_in(world: FakeWorld, directory: PinnedObjectView) -> Names {
    world.server.objects[index_of_handle(directory.handle)->0 as int].children
}

/// The server entries of a fake directory from `from` up to `to`.
#[verifier::opaque]
pub open spec fn entries_in(
    world: FakeWorld,
    directory: PinnedObjectView,
    from: int,
    to: int,
) -> Seq<DirEntryView> {
    entries_between(
        world.server,
        names_in(world, directory),
        from,
        to,
        AttrMask(AttrMask::STAT_OR_ERROR),
    )
}

/// Entries that adjoin are the entries of the whole.
pub(crate) proof fn entries_adjoin(
    world: FakeWorld,
    directory: PinnedObjectView,
    from: int,
    mid: int,
    to: int,
)
    requires
        0 <= from <= mid <= to,
    ensures
        entries_in(world, directory, from, mid) + entries_in(world, directory, mid, to)
            == entries_in(world, directory, from, to),
{
    reveal(entries_in);
    assert(entries_in(world, directory, from, mid) + entries_in(world, directory, mid, to)
        =~= entries_in(world, directory, from, to));
}

/// The first entries of a range are those of a shorter range.
proof fn entries_begin(world: FakeWorld, directory: PinnedObjectView, from: int, to: int, count: int)
    requires
        0 <= from <= to,
        0 <= count <= to - from,
    ensures
        entries_in(world, directory, from, to).take(count) == entries_in(
            world,
            directory,
            from,
            from + count,
        ),
{
    reveal(entries_in);
    assert(entries_in(world, directory, from, to).take(count) =~= entries_in(
        world,
        directory,
        from,
        from + count,
    ));
}

/// What stands at one position of a range.
proof fn entry_at(
    world: FakeWorld,
    directory: PinnedObjectView,
    from: int,
    to: int,
    k: int,
)
    requires
        0 <= from,
        0 <= k < to - from,
    ensures
        ({
            let entry = entries_in(world, directory, from, to)[k];
            let (name, index) = names_in(world, directory)[from + k];
            &&& entry.name == name
            &&& entry.cookie == DirCookie((from + k + 1) as u64)
            &&& entry.attributes == attributes_of(
                world.server.objects[index as int],
                AttrMask(AttrMask::STAT_OR_ERROR),
            )
        }),
{
    reveal(entries_in);
}

pub(crate) proof fn entries_count(world: FakeWorld, directory: PinnedObjectView, from: int, to: int)
    requires
        from <= to,
    ensures
        entries_in(world, directory, from, to).len() == to - from,
{
    reveal(entries_in);
}

/// Where a listing stands after a range.
proof fn position_after_range(world: FakeWorld, directory: PinnedObjectView, from: nat, to: nat)
    requires
        from <= to,
    ensures
        position_after(
            DirCookie(from as u64),
            entries_in(world, directory, from as int, to as int),
        ) == DirCookie(to as u64),
{
    entries_count(world, directory, from as int, to as int);
    if from < to {
        entry_at(world, directory, from as int, to as int, to - from - 1);
    }
}

/// Whether an entry can be reported: it has a name, and is a file or a directory
/// whose owners are numeric ids.
pub open spec fn reportable(name: Seq<u8>, object: ObjectModel) -> bool {
    &&& byte_path(name) is Ok
    &&& object.kind == Nfs4Type::Regular || object.kind == Nfs4Type::Directory
    &&& is_numeric(object.owner)
    &&& is_numeric(object.owner_group)
}

/// Whether `directory` pins a directory of an idle fake whose unfiltered entries can
/// all be reported, and whose cookies fit their type.
#[verifier::opaque]
pub open spec fn listable(
    world: FakeWorld,
    directory: PinnedObjectView,
    private: Seq<Seq<u8>>,
) -> bool {
    let names = names_in(world, directory);
    &&& idle(world)
    &&& index_of_handle(directory.handle) matches Some(target) && target
        < world.server.objects.len() && world.server.objects[target as int].kind
        == Nfs4Type::Directory
    &&& directory.kind == Nfs4Type::Directory
    &&& names.len() <= u64::MAX
    &&& forall|i: int|
        0 <= i < names.len() && !is_noise(private, #[trigger] names[i].0) ==> reportable(
            names[i].0,
            world.server.objects[names[i].1 as int],
        )
}

/// What the fake makes of its own accord can be reported.
pub proof fn a_new_object_is_reportable(
    server: ServerModel,
    name: Seq<u8>,
    kind: Nfs4Type,
    data: Seq<u8>,
    mode: u32,
    create_verifier: Option<Verifier>,
)
    requires
        valid_component(name),
        kind == Nfs4Type::Regular || kind == Nfs4Type::Directory,
    ensures
        reportable(name, allocated(server, kind, data, mode, create_verifier).objects.last()),
{
    the_first_owner_is_numeric();
}

proof fn a_reportable_entry_translates(entry: DirEntryView, name: Seq<u8>, object: ObjectModel)
    requires
        reportable(name, object),
        entry.name == name,
        entry.attributes == attributes_of(object, AttrMask(AttrMask::STAT_OR_ERROR)),
    ensures
        translated(entry) is Ok,
{
    assert(3071u64 & 1 == 1 && 3071u64 & 4 == 4 && 3071u64 & 8 == 8 && 3071u64 & 16 == 16
        && 3071u64 & 32 == 32 && 3071u64 & 64 == 64 && 3071u64 & 128 == 128
        && 3071u64 & 256 == 256 && 3071u64 & 512 == 512) by (bit_vector);
}

proof fn the_fake_lists(
    world: FakeWorld,
    directory: PinnedObjectView,
    private: Seq<Seq<u8>>,
    max_count: u32,
    at: nat,
    expected: Option<DirVerifier>,
    deadline: Deadline,
)
    requires
        listable(world, directory, private),
        at <= names_in(world, directory).len(),
        expected is None ==> at == 0,
        expected matches Some(verifier) ==> at == 0 || verifier == world.server.dir_verifier,
    ensures
        ({
            let call = readdir_call(
                directory.handle,
                page_request(DirCookie(at as u64), expected, max_count),
            );
            let names = names_in(world, directory);
            let end = lesser(names.len() as int, at + readdir_room(max_count));
            &&& readdir_answer(FakeTransport::answer(world, call, deadline)) == Ok::<
                DirPageView,
                FacadeErrorView,
            >(
                DirPageView {
                    verifier: world.server.dir_verifier,
                    entries: entries_in(world, directory, at as int, end),
                    eof: end == names.len(),
                },
            )
            &&& FakeTransport::after(world, call, deadline) == called(world, world.server)
        }),
{
    reveal(listable);
    reveal(entries_in);
    let request = page_request(DirCookie(at as u64), expected, max_count);
    let call = readdir_call(directory.handle, request);
    a_quiet_fake_performs(world, call, directory.handle, OpView::ReadDir(request));
    reveal(step);
    reveal(step_at);
}

proof fn draining_succeeds(
    server: Seq<DirEntryView>,
    from: int,
    private: Seq<Seq<u8>>,
    limit: u32,
    position: DirCookie,
    entries: Seq<DirectoryEntryView>,
)
    requires
        0 <= from,
        forall|i: int|
            0 <= i < server.len() && !is_noise(private, #[trigger] server[i].name) ==> translated(
                server[i],
            ) is Ok,
    ensures
        drain_from(server, from, private, limit, position, entries) is Ok,
    decreases server.len() - from,
{
    if from < server.len() && entries.len() != limit {
        let entry = server[from];
        if is_noise(private, entry.name) {
            draining_succeeds(server, from + 1, private, limit, entry.cookie, entries);
        } else {
            draining_succeeds(
                server,
                from + 1,
                private,
                limit,
                entry.cookie,
                entries.push(translated(entry)->Ok_0),
            );
        }
    }
}

/// What one server page makes of a page.
proof fn a_page_step<T: RawTransport>(
    world: T::World,
    directory: PinnedObjectView,
    private: Seq<Seq<u8>>,
    limit: u32,
    max_count: u32,
    position: DirCookie,
    expected: Option<DirVerifier>,
    entries: Seq<DirectoryEntryView>,
    budget: nat,
    deadline: Deadline,
    server: DirPageView,
    progress: PageProgress,
)
    requires
        budget > 0,
        readdir_answer(
            T::answer(
                world,
                readdir_call(directory.handle, page_request(position, expected, max_count)),
                deadline,
            ),
        ) == Ok::<DirPageView, FacadeErrorView>(server),
        expected matches Some(verifier) ==> verifier == server.verifier,
        server.entries.len() > 0 || server.eof,
        drain_from(server.entries, 0, private, limit, position, entries) == Ok::<
            PageProgress,
            UmbraErrorView,
        >(progress),
    ensures
        ({
            let after = T::after(
                world,
                readdir_call(directory.handle, page_request(position, expected, max_count)),
                deadline,
            );
            page_from::<T>(
                world,
                directory,
                private,
                limit,
                max_count,
                position,
                expected,
                entries,
                budget,
                deadline,
            ) == if progress.drained && server.eof {
                (
                    Ok::<DirectoryPageView, UmbraErrorView>(
                        DirectoryPageView { entries: progress.entries, next: None },
                    ),
                    after,
                )
            } else if !progress.drained || progress.entries.len() == limit {
                (
                    Ok(
                        unfinished(
                            directory.identity,
                            progress.position,
                            Some(server.verifier),
                            progress.entries,
                        ),
                    ),
                    after,
                )
            } else {
                page_from::<T>(
                    after,
                    directory,
                    private,
                    limit,
                    max_count,
                    progress.position,
                    Some(server.verifier),
                    progress.entries,
                    (budget - 1) as nat,
                    deadline,
                )
            }
        }),
{
}

/// Draining the server page from `at` up to `end` takes everything up to the position
/// that is returned.
proof fn the_fake_is_drained(
    world: FakeWorld,
    directory: PinnedObjectView,
    private: Seq<Seq<u8>>,
    limit: u32,
    start: nat,
    at: nat,
    end: nat,
) -> (stop: nat)
    requires
        listable(world, directory, private),
        start <= at <= end <= names_in(world, directory).len(),
        shown(entries_in(world, directory, start as int, at as int), private).len() < limit,
    ensures
        at <= stop <= end,
        at < end ==> at < stop,
        drain_from(
            entries_in(world, directory, at as int, end as int),
            0,
            private,
            limit,
            DirCookie(at as u64),
            shown(entries_in(world, directory, start as int, at as int), private),
        ) matches Ok(progress) && {
            &&& progress.entries == shown(
                entries_in(world, directory, start as int, stop as int),
                private,
            )
            &&& progress.position == DirCookie(stop as u64)
            &&& progress.drained == (stop == end)
            &&& progress.entries.len() <= limit
            &&& !progress.drained ==> progress.entries.len() == limit
        },
{
    let names = names_in(world, directory);
    let earlier = entries_in(world, directory, start as int, at as int);
    let have = shown(earlier, private);
    let server = entries_in(world, directory, at as int, end as int);
    entries_count(world, directory, at as int, end as int);
    assert forall|i: int|
        0 <= i < server.len() && !is_noise(private, #[trigger] server[i].name) implies translated(
        server[i],
    ) is Ok by {
        reveal(listable);
        entry_at(world, directory, at as int, end as int, i);
        a_reportable_entry_translates(
            server[i],
            names[at + i].0,
            world.server.objects[names[at + i].1 as int],
        );
    }
    draining_succeeds(server, 0, private, limit, DirCookie(at as u64), have);
    let first = DirCookie(start as u64);
    assert(earlier + server.take(0) =~= earlier);
    position_after_range(world, directory, start, at);
    draining_passes_over_nothing(server, 0, private, limit, first, earlier);
    let taken = taken_of(server, 0, private, limit, have.len());
    if server.len() > 0 {
        if is_noise(private, server[0].name) {
            counting_stays_within(server, 1, private, limit, have.len());
        } else {
            counting_stays_within(server, 1, private, limit, have.len() + 1);
        }
    }
    let stop = (at + taken) as nat;
    entries_begin(world, directory, at as int, end as int, taken);
    entries_adjoin(world, directory, start as int, at as int, stop as int);
    position_after_range(world, directory, start, stop);
    stop
}

/// Whether reading a page, having taken everything from `start` up to `at`, stops at
/// `stop`.
pub(crate) open spec fn stops_at(
    world: FakeWorld,
    directory: PinnedObjectView,
    private: Seq<Seq<u8>>,
    limit: u32,
    start: nat,
    at: nat,
    stop: nat,
    outcome: (Result<DirectoryPageView, UmbraErrorView>, FakeWorld),
) -> bool {
    &&& at <= stop <= names_in(world, directory).len()
    &&& outcome.1.server == world.server
    &&& idle(outcome.1)
    &&& outcome.0 matches Ok(page) && page.entries == shown(
        entries_in(world, directory, start as int, stop as int),
        private,
    ) && page.entries.len() <= limit && match page.next {
        None => stop == names_in(world, directory).len(),
        Some(next) => next == cursor_bytes(
            PageCursorView {
                directory: directory.identity,
                cookie: DirCookie(stop as u64),
                verifier: world.server.dir_verifier,
            },
        ),
    }
}

/// Reading a page of the fake from position `at` on, having taken everything from
/// `start` up to there, stops at the position that is returned.
#[verifier::spinoff_prover]
proof fn the_fake_pages(
    world: FakeWorld,
    directory: PinnedObjectView,
    private: Seq<Seq<u8>>,
    limit: u32,
    max_count: u32,
    start: nat,
    at: nat,
    expected: Option<DirVerifier>,
    budget: nat,
    deadline: Deadline,
) -> (stop: nat)
    requires
        listable(world, directory, private),
        start <= at <= names_in(world, directory).len(),
        shown(entries_in(world, directory, start as int, at as int), private).len() < limit,
        expected is None ==> at == 0 && budget > 0,
        expected matches Some(verifier) ==> verifier == world.server.dir_verifier,
    ensures
        stops_at(
            world,
            directory,
            private,
            limit,
            start,
            at,
            stop,
            page_from::<FakeTransport>(
                world,
                directory,
                private,
                limit,
                max_count,
                DirCookie(at as u64),
                expected,
                shown(entries_in(world, directory, start as int, at as int), private),
                budget,
                deadline,
            ),
        ),
        budget > 0 && page_from::<FakeTransport>(
            world,
            directory,
            private,
            limit,
            max_count,
            DirCookie(at as u64),
            expected,
            shown(entries_in(world, directory, start as int, at as int), private),
            budget,
            deadline,
        ).0->Ok_0.next is Some ==> at < stop,
    decreases budget,
{
    if budget == 0 {
        assert(idle(world)) by {
            reveal(listable);
        }
        at
    } else {
        let names = names_in(world, directory);
        let have = shown(entries_in(world, directory, start as int, at as int), private);
        let end = lesser(names.len() as int, at + readdir_room(max_count));
        let call = readdir_call(
            directory.handle,
            page_request(DirCookie(at as u64), expected, max_count),
        );
        let after = FakeTransport::after(world, call, deadline);
        the_fake_lists(world, directory, private, max_count, at, expected, deadline);
        carried(world, after, directory, private);
        let server = entries_in(world, directory, at as int, end);
        entries_count(world, directory, at as int, end);
        let stop = the_fake_is_drained(world, directory, private, limit, start, at, end as nat);
        let progress = drain_from(
            server,
            0,
            private,
            limit,
            DirCookie(at as u64),
            have,
        )->Ok_0;
        a_page_step::<FakeTransport>(
            world,
            directory,
            private,
            limit,
            max_count,
            DirCookie(at as u64),
            expected,
            have,
            budget,
            deadline,
            DirPageView {
                verifier: world.server.dir_verifier,
                entries: server,
                eof: end == names.len(),
            },
            progress,
        );
        if progress.drained && end != names.len() && progress.entries.len() != limit {
            the_fake_pages(
                after,
                directory,
                private,
                limit,
                max_count,
                start,
                stop,
                Some(world.server.dir_verifier),
                (budget - 1) as nat,
                deadline,
            )
        } else {
            stop
        }
    }
}

/// What can be listed can still be listed after a call that left the server as it was.
pub(crate) proof fn carried(
    world: FakeWorld,
    after: FakeWorld,
    directory: PinnedObjectView,
    private: Seq<Seq<u8>>,
)
    requires
        listable(world, directory, private),
        after == called(world, world.server) || idle(after) && after.server == world.server,
    ensures
        listable(after, directory, private),
        idle(after),
        names_in(after, directory) == names_in(world, directory),
        forall|from: int, to: int| #[trigger]
            entries_in(after, directory, from, to) == entries_in(world, directory, from, to),
{
    reveal(listable);
    reveal(entries_in);
}

/// The cursor of position `at` of a fake directory, under its present verifier.
pub open spec fn cursor_at(world: FakeWorld, directory: PinnedObjectView, at: nat) -> Option<
    Seq<u8>,
> {
    if at == 0 {
        None
    } else {
        Some(
            cursor_bytes(
                PageCursorView {
                    directory: directory.identity,
                    cookie: DirCookie(at as u64),
                    verifier: world.server.dir_verifier,
                },
            ),
        )
    }
}

/// One page of a fake directory, from position `at` on, stops at the position that
/// is returned.
pub(crate) proof fn the_fake_reads_a_page(
    world: FakeWorld,
    directory: PinnedObjectView,
    limit: u32,
    private: Seq<Seq<u8>>,
    at: nat,
    deadline: Deadline,
) -> (stop: nat)
    requires
        listable(world, directory, private),
        limit > 0,
        at <= names_in(world, directory).len(),
    ensures
        stops_at(
            world,
            directory,
            private,
            limit,
            at,
            at,
            stop,
            page_run::<FakeTransport>(
                world,
                directory,
                cursor_at(world, directory, at),
                limit,
                private,
                deadline,
            ),
        ),
        page_run::<FakeTransport>(
            world,
            directory,
            cursor_at(world, directory, at),
            limit,
            private,
            deadline,
        ).0->Ok_0.next is Some ==> at < stop,
{
    reveal(page_run);
    assert(directory.kind == Nfs4Type::Directory && names_in(world, directory).len() <= u64::MAX) by {
        reveal(listable);
    }
    let max_count = page_bytes(limit, FakeTransport::limits_of(world));
    entries_count(world, directory, at as int, at as int);
    assert(entries_in(world, directory, at as int, at as int) =~= Seq::<DirEntryView>::empty());
    let expected = if at == 0 {
        None
    } else {
        let cursor = PageCursorView {
            directory: directory.identity,
            cookie: DirCookie(at as u64),
            verifier: world.server.dir_verifier,
        };
        a_cursor_round_trips_in_its_own_directory_only(cursor, directory.identity);
        Some(world.server.dir_verifier)
    };
    the_fake_pages(
        world,
        directory,
        private,
        limit,
        max_count,
        at,
        at,
        expected,
        MAX_SERVER_PAGES as nat,
        deadline,
    )
}

pub(crate) proof fn shown_in_parts(one: Seq<DirEntryView>, other: Seq<DirEntryView>, private: Seq<Seq<u8>>)
    ensures
        shown(one + other, private) == shown(one, private) + shown(other, private),
    decreases other.len(),
{
    if other.len() == 0 {
        assert(one + other =~= one);
        assert(shown(one, private) + shown(other, private) =~= shown(one, private));
    } else {
        assert((one + other).drop_last() =~= one + other.drop_last());
        shown_in_parts(one, other.drop_last(), private);
        assert(shown(one + other, private) =~= shown(one, private) + shown(other, private));
    }
}

/// One page in front of others is delivered in front of what they deliver.
pub(crate) proof fn delivered_in_front(page: DirectoryPageView, rest: Seq<DirectoryPageView>, limit: u32)
    requires
        page.entries.len() <= limit,
        within_limit(rest, limit),
    ensures
        delivered(seq![page] + rest) == page.entries + delivered(rest),
        within_limit(seq![page] + rest, limit),
        delivered(seq![page]) == page.entries,
        within_limit(seq![page], limit),
{
    let all = seq![page] + rest;
    assert(all.skip(1) =~= rest);
    assert(seq![page].skip(1) =~= Seq::<DirectoryPageView>::empty());
    assert(delivered(seq![page].skip(1)) =~= Seq::<DirectoryEntryView>::empty());
    assert(delivered(seq![page]) =~= page.entries);
    assert forall|k: int| 0 <= k < all.len() implies (#[trigger] all[k]).entries.len()
        <= limit by {
        if k > 0 {
            assert(all[k] == rest[k - 1]);
        }
    }
}

/// Whether no page is longer than `limit`.
pub open spec fn within_limit(pages: Seq<DirectoryPageView>, limit: u32) -> bool {
    forall|k: int| 0 <= k < pages.len() ==> (#[trigger] pages[k]).entries.len() <= limit
}

/// Whether a listing reached the end and delivered `entries`.
pub(crate) open spec fn lists(
    outcome: Option<Seq<DirectoryPageView>>,
    entries: Seq<DirectoryEntryView>,
    limit: u32,
) -> bool {
    outcome matches Some(pages) && delivered(pages) == entries && within_limit(pages, limit)
}

/// A listing is its first page and the listing from there on.
proof fn a_listing_step<T: RawTransport>(
    world: T::World,
    directory: PinnedObjectView,
    cursor: Option<Seq<u8>>,
    limit: u32,
    private: Seq<Seq<u8>>,
    deadline: Deadline,
    most: nat,
    page: DirectoryPageView,
    rest: Seq<DirectoryEntryView>,
)
    requires
        most > 0,
        page_run::<T>(world, directory, cursor, limit, private, deadline).0 == Ok::<
            DirectoryPageView,
            UmbraErrorView,
        >(page),
        page.entries.len() <= limit,
        match page.next {
            None => rest.len() == 0,
            Some(next) => lists(
                listing::<T>(
                    page_run::<T>(world, directory, cursor, limit, private, deadline).1,
                    directory,
                    Some(next),
                    limit,
                    private,
                    deadline,
                    (most - 1) as nat,
                ),
                rest,
                limit,
            ),
        },
    ensures
        lists(
            listing::<T>(world, directory, cursor, limit, private, deadline, most),
            page.entries + rest,
            limit,
        ),
{
    match page.next {
        None => {
            delivered_in_front(page, Seq::empty(), limit);
            assert(page.entries + rest =~= page.entries);
        },
        Some(next) => {
            let pages = listing::<T>(
                page_run::<T>(world, directory, cursor, limit, private, deadline).1,
                directory,
                Some(next),
                limit,
                private,
                deadline,
                (most - 1) as nat,
            )->0;
            delivered_in_front(page, pages, limit);
        },
    }
}

#[verifier::spinoff_prover]
proof fn the_fake_lists_from(
    world: FakeWorld,
    directory: PinnedObjectView,
    limit: u32,
    private: Seq<Seq<u8>>,
    at: nat,
    deadline: Deadline,
    most: nat,
)
    requires
        listable(world, directory, private),
        limit > 0,
        at <= names_in(world, directory).len(),
        names_in(world, directory).len() - at < most,
    ensures
        lists(
            listing::<FakeTransport>(
                world,
                directory,
                cursor_at(world, directory, at),
                limit,
                private,
                deadline,
                most,
            ),
            shown(
                entries_in(world, directory, at as int, names_in(world, directory).len() as int),
                private,
            ),
            limit,
        ),
    decreases most,
{
    let length = names_in(world, directory).len();
    let cursor = cursor_at(world, directory, at);
    let stop = the_fake_reads_a_page(world, directory, limit, private, at, deadline);
    let (read, after) = page_run::<FakeTransport>(
        world,
        directory,
        cursor,
        limit,
        private,
        deadline,
    );
    carried(world, after, directory, private);
    let page = read->Ok_0;
    let here = entries_in(world, directory, at as int, stop as int);
    let there = entries_in(world, directory, stop as int, length as int);
    if page.next is Some {
        the_fake_lists_from(
            after,
            directory,
            limit,
            private,
            stop,
            deadline,
            (most - 1) as nat,
        );
        assert(page.next == cursor_at(after, directory, stop));
    } else {
        entries_count(world, directory, stop as int, length as int);
    }
    a_listing_step::<FakeTransport>(
        world,
        directory,
        cursor,
        limit,
        private,
        deadline,
        most,
        page,
        shown(there, private),
    );
    entries_adjoin(world, directory, at as int, stop as int, length as int);
    shown_in_parts(here, there, private);
}

/// The names of `entries`, in order.
pub open spec fn names_of(entries: Seq<DirectoryEntryView>) -> Seq<Seq<u8>> {
    Seq::new(entries.len(), |i: int| entries[i].name)
}

pub(crate) proof fn shown_names(
    world: FakeWorld,
    directory: PinnedObjectView,
    private: Seq<Seq<u8>>,
    to: nat,
)
    requires
        listable(world, directory, private),
        to <= names_in(world, directory).len(),
    ensures
        ({
            let names = names_in(world, directory);
            let listed = names_of(shown(entries_in(world, directory, 0, to as int), private));
            &&& forall|i: int|
                0 <= i < to && !is_noise(private, names[i].0) ==> listed.contains(
                    #[trigger] names[i].0,
                )
            &&& forall|k: int|
                0 <= k < listed.len() ==> !is_noise(private, #[trigger] listed[k]) && exists|i: int|
                    0 <= i < to && names[i].0 == listed[k]
            &&& listed.no_duplicates()
            &&& all_faithful(
                world,
                directory,
                private,
                shown(entries_in(world, directory, 0, to as int), private),
            )
        }),
    decreases to,
{
    let names = names_in(world, directory);
    let entries = entries_in(world, directory, 0, to as int);
    let listed = names_of(shown(entries, private));
    entries_count(world, directory, 0, to as int);
    if to == 0 {
        assert(entries =~= Seq::<DirEntryView>::empty());
    } else {
        let last = to - 1;
        let earlier = entries_in(world, directory, 0, last);
        shown_names(world, directory, private, last as nat);
        entries_begin(world, directory, 0, to as int, last);
        assert(entries.drop_last() =~= entries.take(last));
        entry_at(world, directory, 0, to as int, last);
        let before = names_of(shown(earlier, private));
        let name = names[last].0;
        if is_noise(private, name) {
            assert(listed == before);
        } else {
            assert(translated(entries.last()) is Ok) by {
                reveal(listable);
                assert(!is_noise(private, names[last].0));
                a_reportable_entry_translates(
                    entries.last(),
                    name,
                    world.server.objects[names[last].1 as int],
                );
            }
            let object = world.server.objects[names[last].1 as int];
            let item = translated(entries.last())->Ok_0;
            a_translated_entry_describes(entries.last(), object);
            assert(in_order(names)) by {
                reveal(listable);
                assert(names_ok(names, world.server.objects.len()));
            }
            present_is_found(names, name, last);
            assert(faithful(world, directory, private, item));
            assert(shown(entries, private) == shown(earlier, private).push(item));
            assert(listed =~= before.push(name));
            assert(listed[before.len() as int] == name);
            assert forall|i: int| 0 <= i < to && !is_noise(private, names[i].0) implies listed.contains(
                #[trigger] names[i].0,
            ) by {
                if i < last {
                    let k = choose|k: int| 0 <= k < before.len() && before[k] == names[i].0;
                    assert(listed[k] == names[i].0);
                }
            }
            assert(in_order(names)) by {
                reveal(listable);
                assert(names_ok(names, world.server.objects.len()));
            }
            assert forall|k: int| 0 <= k < before.len() implies #[trigger] before[k] != name by {
                let i = choose|i: int| 0 <= i < last && names[i].0 == before[k];
                assert(precedes(names[i].0, names[last].0));
                precedes_irreflexive(name);
            }
            assert forall|k: int| 0 <= k < listed.len() implies !is_noise(
                private,
                #[trigger] listed[k],
            ) && exists|i: int| 0 <= i < to && names[i].0 == listed[k] by {
                if k < before.len() {
                    assert(listed[k] == before[k]);
                    let i = choose|i: int| 0 <= i < last && names[i].0 == before[k];
                    assert(names[i].0 == listed[k]);
                } else {
                    assert(names[last].0 == listed[k]);
                }
            }
        }
    }
}

/// Listing a directory of the fake that nothing changes, page by page, ends; no page
/// is longer than its limit; and the pages together deliver every name the directory
/// holds that is not filtered, each exactly once, and each with the stat of the object
/// it is bound to.
pub proof fn a_listing_delivers_every_name_once(
    world: FakeWorld,
    directory: PinnedObjectView,
    limit: u32,
    private: Seq<Seq<u8>>,
    deadline: Deadline,
)
    requires
        listable(world, directory, private),
        limit > 0,
    ensures
        ({
            let names = names_in(world, directory);
            &&& listing::<FakeTransport>(
                world,
                directory,
                None,
                limit,
                private,
                deadline,
                names.len() + 1,
            ) matches Some(pages) && {
                let listed = names_of(delivered(pages));
                &&& within_limit(pages, limit)
                &&& listed.no_duplicates()
                &&& all_faithful(world, directory, private, delivered(pages))
                &&& forall|name: Seq<u8>|
                    #[trigger] listed.contains(name) <==> child_of(names, name) is Some
                        && !is_noise(private, name)
            }
        }),
{
    reveal(listable);
    let names = names_in(world, directory);
    the_fake_lists_from(world, directory, limit, private, 0, deadline, names.len() + 1);
    shown_names(world, directory, private, names.len());
    let listed = names_of(
        shown(entries_in(world, directory, 0, names.len() as int), private),
    );
    assert(names_ok(names, world.server.objects.len()));
    assert forall|name: Seq<u8>| #[trigger] listed.contains(name) <==> child_of(names, name) is Some
        && !is_noise(private, name) by {
        slot_from_bounds(names, name, 0);
        if listed.contains(name) {
            let k = choose|k: int| 0 <= k < listed.len() && listed[k] == name;
            let i = choose|i: int| 0 <= i < names.len() && names[i].0 == listed[k];
            present_is_found(names, name, i);
        }
        if child_of(names, name) is Some && !is_noise(private, name) {
            assert(names[slot_of(names, name)].0 == name);
        }
    }
}

} // verus!
