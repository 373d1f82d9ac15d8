//! What the entries of a listing of the in-memory server say of its objects.
use vstd::prelude::*;

use crate::contract::DirectoryEntryView;
use crate::fake::described::{a_stat_describes_its_object, describes};
use crate::fake::idle::{called, idle};
use crate::fake::model::{
    attributes_of, child_of, entries_between, names_ok, present_is_found, ObjectModel,
};
use crate::fake::{FakeTransport, FakeWorld};
use crate::identity::PinnedObjectView;
use crate::transport::{
    AttrMask, Deadline, DirCookie, DirEntryView, DirVerifier, RawTransport,
};

use super::listing::names_in;
use super::rotation::{listed, pinned, taken, the_fake_answers};
use super::{
    decode_cursor, drain_from, is_noise, page_bytes, page_from, page_request, page_run, translated,
    MAX_SERVER_PAGES,
};

verus! {

/// Whether an entry is of a name the directory holds and that is not hidden, and its
/// stat is that of the object the name is bound to.
pub open spec fn faithful(
    world: FakeWorld,
    directory: PinnedObjectView,
    private: Seq<Seq<u8>>,
    entry: DirectoryEntryView,
) -> bool {
    &&& !is_noise(private, entry.name)
    &&& child_of(names_in(world, directory), entry.name) matches Some(child) && describes(
        entry.stat,
        world.server.objects[child as int],
    )
}

/// Whether every entry is faithful.
pub open spec fn all_faithful(
    world: FakeWorld,
    directory: PinnedObjectView,
    private: Seq<Seq<u8>>,
    entries: Seq<DirectoryEntryView>,
) -> bool {
    forall|i: int|
        0 <= i < entries.len() ==> faithful(world, directory, private, #[trigger] entries[i])
}

/// An entry that was translated has the name and the stat of its object.
pub(crate) proof fn a_translated_entry_describes(entry: DirEntryView, object: ObjectModel)
    requires
        entry.attributes == attributes_of(object, AttrMask(AttrMask::STAT_OR_ERROR)),
    ensures
        translated(entry) matches Ok(item) ==> item.name == entry.name && describes(
            item.stat,
            object,
        ),
{
    a_stat_describes_its_object(object, AttrMask(AttrMask::STAT_OR_ERROR));
    assert(3071u64 & 8 == 8 && 3071u64 & 16 == 16) by (bit_vector);
}

proof fn draining_is_faithful(
    world: FakeWorld,
    directory: PinnedObjectView,
    start: int,
    end: int,
    from: int,
    private: Seq<Seq<u8>>,
    limit: u32,
    position: DirCookie,
    entries: Seq<DirectoryEntryView>,
)
    requires
        names_ok(names_in(world, directory), world.server.objects.len()),
        0 <= start <= end <= names_in(world, directory).len(),
        0 <= from,
        all_faithful(world, directory, private, entries),
    ensures
        drain_from(
            entries_between(
                world.server,
                names_in(world, directory),
                start,
                end,
                AttrMask(AttrMask::STAT_OR_ERROR),
            ),
            from,
            private,
            limit,
            position,
            entries,
        ) matches Ok(progress) ==> all_faithful(world, directory, private, progress.entries),
    decreases end - start - from,
{
    let names = names_in(world, directory);
    let server = entries_between(
        world.server,
        names,
        start,
        end,
        AttrMask(AttrMask::STAT_OR_ERROR),
    );
    if from < server.len() && entries.len() != limit {
        let entry = server[from];
        if is_noise(private, entry.name) {
            draining_is_faithful(
                world,
                directory,
                start,
                end,
                from + 1,
                private,
                limit,
                entry.cookie,
                entries,
            );
        } else if let Ok(item) = translated(entry) {
            let (name, child) = names[start + from];
            a_translated_entry_describes(entry, world.server.objects[child as int]);
            present_is_found(names, name, start + from);
            let more = entries.push(item);
            assert forall|i: int| 0 <= i < more.len() implies faithful(
                world,
                directory,
                private,
                #[trigger] more[i],
            ) by {
                if i < entries.len() {
                    assert(more[i] == entries[i]);
                }
            }
            draining_is_faithful(
                world,
                directory,
                start,
                end,
                from + 1,
                private,
                limit,
                entry.cookie,
                more,
            );
        }
    }
}

proof fn paging_is_faithful(
    world: FakeWorld,
    directory: PinnedObjectView,
    private: Seq<Seq<u8>>,
    limit: u32,
    max_count: u32,
    position: DirCookie,
    expected: Option<DirVerifier>,
    entries: Seq<DirectoryEntryView>,
    budget: nat,
    deadline: Deadline,
)
    requires
        idle(world),
        pinned(world, directory),
        all_faithful(world, directory, private, entries),
    ensures
        ({
            let (read, after) = page_from::<FakeTransport>(
                world,
                directory,
                private,
                limit,
                max_count,
                position,
                expected,
                entries,
                budget,
                deadline,
            );
            &&& read matches Ok(page) ==> all_faithful(world, directory, private, page.entries)
            &&& after.server == world.server
            &&& idle(after)
        }),
    decreases budget,
{
    if budget > 0 {
        let request = page_request(position, expected, max_count);
        the_fake_answers(world, directory, request, deadline);
        let names = names_in(world, directory);
        assert(names_ok(names, world.server.objects.len()));
        if taken(world, directory, request) {
            let page = listed(world, directory, request);
            let start = position.0 as int;
            let end = start + page.entries.len();
            assert(page.entries == entries_between(
                world.server,
                names,
                start,
                end,
                AttrMask(AttrMask::STAT_OR_ERROR),
            ));
            draining_is_faithful(
                world,
                directory,
                start,
                end,
                0,
                private,
                limit,
                position,
                entries,
            );
            if let Ok(progress) = drain_from(page.entries, 0, private, limit, position, entries) {
                let after = called(world, world.server);
                assert(all_faithful(after, directory, private, progress.entries)) by {
                    assert forall|i: int| 0 <= i < progress.entries.len() implies faithful(
                        after,
                        directory,
                        private,
                        #[trigger] progress.entries[i],
                    ) by {
                        assert(faithful(world, directory, private, progress.entries[i]));
                    }
                }
                paging_is_faithful(
                    after,
                    directory,
                    private,
                    limit,
                    max_count,
                    progress.position,
                    Some(world.server.dir_verifier),
                    progress.entries,
                    (budget - 1) as nat,
                    deadline,
                );
                let (read, _) = page_from::<FakeTransport>(
                    after,
                    directory,
                    private,
                    limit,
                    max_count,
                    progress.position,
                    Some(world.server.dir_verifier),
                    progress.entries,
                    (budget - 1) as nat,
                    deadline,
                );
                if let Ok(rest) = read {
                    assert forall|i: int| 0 <= i < rest.entries.len() implies faithful(
                        world,
                        directory,
                        private,
                        #[trigger] rest.entries[i],
                    ) by {
                        assert(faithful(after, directory, private, rest.entries[i]));
                    }
                }
            }
        }
    }
}

/// Every entry of a page of a fake directory is of a name the directory holds and that
/// is not hidden, and carries the stat of the object that name is bound to: its kind,
/// length, mode, owner, group, links, modification time and object id. Reading a page
/// changes nothing on the server.
pub proof fn a_page_describes_the_objects_it_names(
    world: FakeWorld,
    directory: PinnedObjectView,
    cursor: Option<Seq<u8>>,
    limit: u32,
    private: Seq<Seq<u8>>,
    deadline: Deadline,
)
    requires
        idle(world),
        pinned(world, directory),
    ensures
        ({
            let (read, after) = page_run::<FakeTransport>(
                world,
                directory,
                cursor,
                limit,
                private,
                deadline,
            );
            &&& read matches Ok(page) ==> all_faithful(world, directory, private, page.entries)
            &&& after.server == world.server
            &&& idle(after)
        }),
{
    reveal(page_run);
    let max_count = page_bytes(limit, FakeTransport::limits_of(world));
    let (position, expected) = match cursor {
        None => (DirCookie(0), None),
        Some(bytes) => match decode_cursor(bytes, directory.identity) {
            Err(_) => (DirCookie(0), None),
            Ok(resume) => (resume.cookie, Some(resume.verifier)),
        },
    };
    paging_is_faithful(
        world,
        directory,
        private,
        limit,
        max_count,
        position,
        expected,
        Seq::empty(),
        MAX_SERVER_PAGES as nat,
        deadline,
    );
}

} // verus!
