//! What a rotated cookie verifier does to listings of the in-memory server.
use vstd::prelude::*;

use crate::contract::{DirectoryEntryView, ErrorKind};
use crate::error::{status_of, FacadeErrorView, Nfs4Status};
use crate::fake::idle::{a_quiet_fake_performs, called, quiet};
use crate::fake::model::{
    entries_between, index_of_handle, lesser, readdir_room, step, step_at, ServerModel,
};
use crate::fake::{FakeTransport, FakeWorld};
use crate::identity::PinnedObjectView;
use crate::transport::{
    readdir_answer, readdir_call, Deadline, DirCookie, DirPageView, DirVerifier, Nfs4Type, OpView,
    RawTransport, ReadDirRequest,
};

use super::listing::names_in;
use super::{
    a_cursor_round_trips_in_its_own_directory_only, cursor_bytes, drain_from, page_bytes,
    page_from, page_request, page_run, unfinished, PageCursorView, MAX_SERVER_PAGES,
};

verus! {

/// Whether `directory` pins a directory of a fake with no fault pending.
pub open spec fn pinned(world: FakeWorld, directory: PinnedObjectView) -> bool {
    &&& quiet(world)
    &&& directory.kind == Nfs4Type::Directory
    &&& index_of_handle(directory.handle) matches Some(target) && target
        < world.server.objects.len() && world.server.objects[target as int].kind
        == Nfs4Type::Directory
}

/// The world once the cookie verifier is `verifier`.
pub open spec fn rotated(world: FakeWorld, verifier: DirVerifier) -> FakeWorld {
    FakeWorld { server: ServerModel { dir_verifier: verifier, ..world.server }, ..world }
}

/// Whether the fake takes a cookie: it knows the position, and the verifier is its own
/// where the position is not the start.
pub(crate) open spec fn taken(world: FakeWorld, directory: PinnedObjectView, request: ReadDirRequest) -> bool {
    &&& request.cookie.0 != 0 ==> request.verifier == world.server.dir_verifier
    &&& request.cookie.0 <= names_in(world, directory).len()
}

/// The page the fake answers with.
pub(crate) open spec fn listed(
    world: FakeWorld,
    directory: PinnedObjectView,
    request: ReadDirRequest,
) -> DirPageView {
    let names = names_in(world, directory);
    let start = request.cookie.0 as int;
    let end = lesser(names.len() as int, start + readdir_room(request.max_count));
    DirPageView {
        verifier: world.server.dir_verifier,
        entries: entries_between(world.server, names, start, end, request.attrs),
        eof: end == names.len(),
    }
}

pub(crate) proof fn the_fake_answers(
    world: FakeWorld,
    directory: PinnedObjectView,
    request: ReadDirRequest,
    deadline: Deadline,
)
    requires
        pinned(world, directory),
    ensures
        ({
            let call = readdir_call(directory.handle, request);
            let answer = readdir_answer(FakeTransport::answer(world, call, deadline));
            &&& FakeTransport::after(world, call, deadline) == called(world, world.server)
            &&& if taken(world, directory, request) {
                answer == Ok::<DirPageView, FacadeErrorView>(listed(world, directory, request))
            } else {
                answer matches Err(error) && status_of(error) == Some(
                    Nfs4Status(Nfs4Status::BAD_COOKIE),
                )
            }
        }),
{
    let call = readdir_call(directory.handle, request);
    a_quiet_fake_performs(world, call, directory.handle, OpView::ReadDir(request));
    reveal(step);
    reveal(step_at);
}

/// Whether two fakes hold the same and differ at most in their cookie verifiers.
spec fn alike(one: FakeWorld, other: FakeWorld) -> bool {
    other.server == (ServerModel { dir_verifier: other.server.dir_verifier, ..one.server })
}

/// Whether a listing is at its start, or expects the verifier the fake has.
pub(crate) open spec fn in_step(world: FakeWorld, position: DirCookie, expected: Option<DirVerifier>) -> bool {
    match expected {
        None => position.0 == 0,
        Some(verifier) => verifier == world.server.dir_verifier,
    }
}

/// Whether a cursor was issued by this directory under the fake's verifier.
spec fn issued(world: FakeWorld, directory: PinnedObjectView, bytes: Seq<u8>) -> bool {
    exists|cookie: DirCookie|
        bytes == cursor_bytes(
            PageCursorView {
                directory: directory.identity,
                cookie,
                verifier: world.server.dir_verifier,
            },
        )
}

/// Reading a page leaves the fake as it is, issues cursors under its verifier, and
/// succeeds on every fake that holds the same.
proof fn a_page_is_read_alike(
    one: FakeWorld,
    other: FakeWorld,
    directory: PinnedObjectView,
    private: Seq<Seq<u8>>,
    limit: u32,
    max_count: u32,
    position: DirCookie,
    expected: Option<DirVerifier>,
    elsewhere: Option<DirVerifier>,
    entries: Seq<DirectoryEntryView>,
    budget: nat,
    deadline: Deadline,
)
    requires
        pinned(one, directory),
        pinned(other, directory),
        alike(one, other),
        in_step(one, position, expected),
        in_step(other, position, elsewhere),
        expected is None <==> elsewhere is None,
        expected is None ==> budget > 0,
    ensures
        ({
            let (read, after) = page_from::<FakeTransport>(
                one,
                directory,
                private,
                limit,
                max_count,
                position,
                expected,
                entries,
                budget,
                deadline,
            );
            &&& after.server == one.server
            &&& quiet(after)
            &&& read matches Ok(page) ==> {
                &&& page.next matches Some(bytes) ==> issued(one, directory, bytes)
                &&& page_from::<FakeTransport>(
                    other,
                    directory,
                    private,
                    limit,
                    max_count,
                    position,
                    elsewhere,
                    entries,
                    budget,
                    deadline,
                ).0 is Ok
            }
        }),
    decreases budget,
{
    if budget == 0 {
        a_cursor_is_issued(one, directory, position);
    } else {
        let here = page_request(position, expected, max_count);
        let there = page_request(position, elsewhere, max_count);
        the_fake_answers(one, directory, here, deadline);
        the_fake_answers(other, directory, there, deadline);
        if taken(one, directory, here) {
            let page = listed(one, directory, here);
            assert(listed(other, directory, there) == (DirPageView {
                verifier: other.server.dir_verifier,
                ..page
            })) by {
                assert(listed(other, directory, there).entries =~= page.entries);
            }
            a_cursor_is_issued(one, directory, position);
            if let Ok(progress) = drain_from(page.entries, 0, private, limit, position, entries) {
                a_cursor_is_issued(one, directory, progress.position);
                if progress.drained && !page.eof && progress.entries.len() != limit {
                    a_page_is_read_alike(
                        called(one, one.server),
                        called(other, other.server),
                        directory,
                        private,
                        limit,
                        max_count,
                        progress.position,
                        Some(one.server.dir_verifier),
                        Some(other.server.dir_verifier),
                        progress.entries,
                        (budget - 1) as nat,
                        deadline,
                    );
                }
            }
        }
    }
}

proof fn a_cursor_is_issued(world: FakeWorld, directory: PinnedObjectView, position: DirCookie)
    ensures
        issued(
            world,
            directory,
            unfinished(
                directory.identity,
                position,
                Some(world.server.dir_verifier),
                Seq::empty(),
            ).next->0,
        ),
{
}

/// A cursor that was issued under another verifier than the fake's is void: the page it
/// asks for is refused as stale, never restarted silently.
pub proof fn a_rotated_verifier_voids_every_cursor(
    world: FakeWorld,
    directory: PinnedObjectView,
    limit: u32,
    private: Seq<Seq<u8>>,
    cursor: PageCursorView,
    deadline: Deadline,
)
    requires
        pinned(world, directory),
        limit > 0,
        cursor.directory == directory.identity,
        cursor.verifier != world.server.dir_verifier,
    ensures
        page_run::<FakeTransport>(
            world,
            directory,
            Some(cursor_bytes(cursor)),
            limit,
            private,
            deadline,
        ).0 matches Err(error) && error.kind == ErrorKind::StaleHandle,
{
    reveal(page_run);
    a_cursor_round_trips_in_its_own_directory_only(cursor, directory.identity);
    let max_count = page_bytes(limit, FakeTransport::limits_of(world));
    let request = page_request(cursor.cookie, Some(cursor.verifier), max_count);
    the_fake_answers(world, directory, request, deadline);
}

/// A page is read, the cookie verifier is rotated, and the cursor that page handed out
/// is refused as stale, while a listing from the start still succeeds.
pub proof fn a_rotation_voids_the_cursor_in_hand(
    world: FakeWorld,
    directory: PinnedObjectView,
    limit: u32,
    private: Seq<Seq<u8>>,
    verifier: DirVerifier,
    deadline: Deadline,
)
    requires
        pinned(world, directory),
        verifier != world.server.dir_verifier,
    ensures
        ({
            let (read, after) = page_run::<FakeTransport>(
                world,
                directory,
                None,
                limit,
                private,
                deadline,
            );
            read matches Ok(page) ==> {
                &&& page.next matches Some(cursor) ==> page_run::<FakeTransport>(
                    rotated(after, verifier),
                    directory,
                    Some(cursor),
                    limit,
                    private,
                    deadline,
                ).0 matches Err(error) && error.kind == ErrorKind::StaleHandle
                &&& page_run::<FakeTransport>(
                    rotated(after, verifier),
                    directory,
                    None,
                    limit,
                    private,
                    deadline,
                ).0 is Ok
            }
        }),
{
    reveal(page_run);
    if limit > 0 {
        let max_count = page_bytes(limit, FakeTransport::limits_of(world));
        let (read, after) = page_from::<FakeTransport>(
            world,
            directory,
            private,
            limit,
            max_count,
            DirCookie(0),
            None,
            Seq::empty(),
            MAX_SERVER_PAGES as nat,
            deadline,
        );
        a_page_is_read_alike(
            world,
            world,
            directory,
            private,
            limit,
            max_count,
            DirCookie(0),
            None,
            None,
            Seq::empty(),
            MAX_SERVER_PAGES as nat,
            deadline,
        );
        let turned = rotated(after, verifier);
        a_page_is_read_alike(
            world,
            turned,
            directory,
            private,
            limit,
            max_count,
            DirCookie(0),
            None,
            None,
            Seq::empty(),
            MAX_SERVER_PAGES as nat,
            deadline,
        );
        if let Ok(page) = read {
            if let Some(bytes) = page.next {
                let cookie = choose|cookie: DirCookie|
                    bytes == cursor_bytes(
                        PageCursorView {
                            directory: directory.identity,
                            cookie,
                            verifier: world.server.dir_verifier,
                        },
                    );
                let cursor = PageCursorView {
                    directory: directory.identity,
                    cookie,
                    verifier: world.server.dir_verifier,
                };
                a_rotated_verifier_voids_every_cursor(
                    turned,
                    directory,
                    limit,
                    private,
                    cursor,
                    deadline,
                );
            }
        }
    }
}

} // verus!
