//! What is read back of the private state a new run is given on the in-memory server.
use vstd::prelude::*;

use crate::anchor::{
    component_of, create_file_run, make_directory_run, persisted_state_run, provision_run,
    read_manifest_run, read_private_run, RunManifestView,
};
use crate::bytes::{be_bytes, le_bytes, little_endian_round_trip, radix_of_eight};
use crate::contract::{LeaseEpoch, UmbraErrorView};
use crate::crud::{
    open_object_run, read_chunk, whole_from, whole_run, CreateDisposition, WholeReadView,
};
use crate::error::FacadeErrorView;
use crate::fake::idle::{a_quiet_fake_performs, called, idle};
use crate::fake::model::{
    a_handle_names_its_object, created_file, handle_of, step, step_at, ServerModel,
};
use crate::fake::{FakeTransport, FakeWorld};
use crate::handle::{anonymous, stateid_answer, Stateid};
use crate::identity::PinnedObjectView;
use crate::state::open_owner::{close_run, RegistryView};
use crate::transport::{
    read_answer, read_call, valid_component, write_call, AttrMask, Deadline, Fsid, Nfs4Type, OpView,
    RawTransport, ReadReplyView, ShareAccess, Stability,
};

use super::files::{
    a_created_file_is_new, a_name_is_opened, a_range_is_written, an_open_is_closed, may_open,
};
use super::ground::{a_child_exists, a_lookup_is_answered, a_pin_is_adopted, pins};
use super::names::{bound_in, directory_made, objects_kept, same_but_names};
use super::openings::{a_run_directory_is_made, stands_alone};

verus! {

/// What reading an object whole up to `limit` bytes yields: all of it where it is no
/// longer, and that is then known; else its first `limit` bytes.
pub open spec fn whole_up_to(content: Seq<u8>, limit: u32) -> WholeReadView {
    if content.len() <= limit && limit > 0 {
        WholeReadView { data: content, complete: true }
    } else {
        WholeReadView { data: content.take(limit as int), complete: false }
    }
}

proof fn a_file_is_read_on(
    world: FakeWorld,
    index: nat,
    stateid: Stateid,
    limit: u32,
    chunk: u32,
    count: nat,
    deadline: Deadline,
)
    requires
        idle(world),
        index < world.server.objects.len() < u64::MAX,
        world.server.objects[index as int].kind != Nfs4Type::Directory,
        chunk > 0 || limit == 0,
        count <= limit,
        count < world.server.objects[index as int].data.len() || count == 0,
    ensures
        ({
            let content = world.server.objects[index as int].data;
            let (read, after) = whole_from::<FakeTransport>(
                world,
                handle_of(index),
                stateid,
                limit,
                chunk,
                content.take(count as int),
                deadline,
            );
            &&& read == Ok::<WholeReadView, FacadeErrorView>(whole_up_to(content, limit))
            &&& after.server == world.server
            &&& idle(after)
        }),
    decreases limit - count,
{
    let content = world.server.objects[index as int].data;
    let data = content.take(count as int);
    if count < limit {
        let want = if chunk <= limit - count {
            chunk
        } else {
            (limit - count) as u32
        };
        let handle = handle_of(index);
        let call = read_call(handle, stateid, count as u64, want);
        let op = OpView::Read { stateid, offset: count as u64, count: want };
        a_handle_names_its_object(index);
        a_quiet_fake_performs(world, call, handle, op);
        reveal(step);
        reveal(step_at);
        let end = if count + want < content.len() {
            (count + want) as int
        } else {
            content.len() as int
        };
        let piece = content.subrange(count as int, end);
        assert(read_answer(FakeTransport::answer(world, call, deadline)) == Ok::<
            ReadReplyView,
            FacadeErrorView,
        >(ReadReplyView { data: piece, eof: end == content.len() }));
        assert(data + piece =~= content.take(end));
        if end == content.len() {
            assert(content.take(end) =~= content);
        } else {
            a_file_is_read_on(
                FakeTransport::after(world, call, deadline),
                index,
                stateid,
                limit,
                chunk,
                end as nat,
                deadline,
            );
        }
    } else {
        assert(data =~= content.take(limit as int));
    }
}

/// Reading a file whole yields exactly what it holds, up to the limit, says whether that
/// is all of it, and changes nothing.
pub proof fn a_file_is_read_whole(
    world: FakeWorld,
    index: nat,
    stateid: Stateid,
    limit: u32,
    deadline: Deadline,
)
    requires
        idle(world),
        index < world.server.objects.len() < u64::MAX,
        world.server.objects[index as int].kind != Nfs4Type::Directory,
    ensures
        ({
            let (read, after) = whole_run::<FakeTransport>(
                world,
                handle_of(index),
                stateid,
                limit,
                deadline,
            );
            &&& read == Ok::<WholeReadView, FacadeErrorView>(
                whole_up_to(world.server.objects[index as int].data, limit),
            )
            &&& after.server == world.server
            &&& idle(after)
        }),
{
    let content = world.server.objects[index as int].data;
    let limits = FakeTransport::limits_of(world);
    assert(content.take(0) =~= Seq::<u8>::empty());
    a_file_is_read_on(world, index, stateid, limit, read_chunk(limits, limit), 0, deadline);
}

/// What a private file that is there, or is not, reads as.
proof fn a_private_file_is_read(
    world: FakeWorld,
    private: PinnedObjectView,
    at: nat,
    name: Seq<char>,
    deadline: Deadline,
)
    requires
        idle(world),
        world.server.objects.len() < u64::MAX,
        pins(world, private, at),
        private.kind == Nfs4Type::Directory,
        valid_component(vstd::utf8::encode_utf8(name)),
    ensures
        ({
            let (read, after) = read_private_run::<FakeTransport>(world, private, name, deadline);
            let bound = bound_in(world.server, at, vstd::utf8::encode_utf8(name));
            let file = world.server.objects[bound->0 as int];
            &&& idle(after)
            &&& after.server == world.server
            &&& bound is None ==> read == Ok::<Option<Seq<u8>>, UmbraErrorView>(None)
            &&& bound is Some && file.kind != Nfs4Type::Directory ==> if file.data.len()
                <= 65536 {
                read == Ok::<Option<Seq<u8>>, UmbraErrorView>(Some(file.data))
            } else {
                read is Err
            }
            &&& bound is Some && file.kind == Nfs4Type::Directory ==> read is Err
        }),
{
    let checked = vstd::utf8::encode_utf8(name);
    let mask = AttrMask(AttrMask::STAT);
    assert(component_of(checked) == Ok::<Seq<u8>, UmbraErrorView>(checked));
    a_lookup_is_answered(world, at, checked, mask, deadline);
    a_child_exists(world.server, at, checked);
    if let Some(child) = bound_in(world.server, at, checked) {
        a_pin_is_adopted(world, child, mask);
        let at_file = called(world, world.server);
        if world.server.objects[child as int].kind != Nfs4Type::Directory {
            a_file_is_read_whole(at_file, child, anonymous(), 65536, deadline);
        } else {
            a_directory_is_not_read(at_file, child, deadline);
        }
    }
}

proof fn a_directory_is_not_read(world: FakeWorld, index: nat, deadline: Deadline)
    requires
        idle(world),
        index < world.server.objects.len() < u64::MAX,
        world.server.objects[index as int].kind == Nfs4Type::Directory,
    ensures
        ({
            let (read, after) = whole_run::<FakeTransport>(
                world,
                handle_of(index),
                anonymous(),
                65536,
                deadline,
            );
            &&& read is Err
            &&& after.server == world.server
            &&& idle(after)
        }),
{
    let chunk = read_chunk(FakeTransport::limits_of(world), 65536);
    let handle = handle_of(index);
    let call = read_call(handle, anonymous(), 0, chunk);
    a_handle_names_its_object(index);
    a_quiet_fake_performs(
        world,
        call,
        handle,
        OpView::Read { stateid: anonymous(), offset: 0, count: chunk },
    );
    reveal(step);
    reveal(step_at);
}

/// Whether everything there was is there still: every object, and every name where it
/// was bound.
pub open spec fn all_kept(before: ServerModel, now: ServerModel) -> bool {
    &&& objects_kept(before, now)
    &&& forall|parent: nat, name: Seq<u8>|
        parent < before.objects.len() && bound_in(before, parent, name) is Some
            ==> #[trigger] bound_in(now, parent, name) == bound_in(before, parent, name)
}

/// Whether `name` is bound in `parent` to a file that holds exactly `bytes`.
pub open spec fn holds_file(
    server: ServerModel,
    parent: nat,
    name: Seq<u8>,
    bytes: Seq<u8>,
) -> bool {
    bound_in(server, parent, name) matches Some(file) && file < server.objects.len()
        && server.objects[file as int].kind == Nfs4Type::Regular
        && server.objects[file as int].data == bytes
}

pub(crate) proof fn keeping_adds_up(first: ServerModel, second: ServerModel, third: ServerModel)
    requires
        all_kept(first, second),
        all_kept(second, third),
    ensures
        all_kept(first, third),
{
    assert forall|i: int| 0 <= i < first.objects.len() implies same_but_names(
        first.objects[i],
        #[trigger] third.objects[i],
    ) by {
        assert(same_but_names(first.objects[i], second.objects[i]));
        assert(same_but_names(second.objects[i], third.objects[i]));
    }
    assert forall|parent: nat, name: Seq<u8>|
        parent < first.objects.len() && bound_in(first, parent, name)
            is Some implies #[trigger] bound_in(third, parent, name) == bound_in(
        first,
        parent,
        name,
    ) by {
        assert(bound_in(second, parent, name) == bound_in(first, parent, name));
    }
}

pub(crate) proof fn a_kept_file_is_held(
    before: ServerModel,
    now: ServerModel,
    parent: nat,
    name: Seq<u8>,
    bytes: Seq<u8>,
)
    requires
        all_kept(before, now),
        parent < before.objects.len(),
        holds_file(before, parent, name, bytes),
    ensures
        holds_file(now, parent, name, bytes),
{
    let file = bound_in(before, parent, name)->0;
    assert(bound_in(now, parent, name) == Some(file));
    assert(same_but_names(before.objects[file as int], now.objects[file as int]));
}

/// What making a private file with its whole content does.
proof fn a_private_file_is_made(
    owners: RegistryView,
    world: FakeWorld,
    private: PinnedObjectView,
    at: nat,
    name: Seq<u8>,
    bytes: Seq<u8>,
    home: Fsid,
    more: nat,
    deadline: Deadline,
)
    requires
        stands_alone(world, home, more + 1),
        pins(world, private, at),
        private.kind == Nfs4Type::Directory,
        bytes.len() <= u32::MAX,
    ensures
        ({
            let (made, minted, after) = create_file_run::<FakeTransport>(
                owners,
                world,
                private,
                name,
                bytes,
                deadline,
            );
            let before = world.server;
            let now = after.server;
            &&& made is Ok ==> {
                &&& bound_in(before, at, name) is None
                &&& all_kept(before, now)
                &&& holds_file(now, at, name, bytes)
                &&& stands_alone(after, home, more)
                &&& pins(after, private, at)
                &&& now.write_cap == before.write_cap
                &&& minted.session == owners.session
                &&& minted.next == owners.next + 1
                &&& forall|other: Seq<u8>|
                    other != name ==> #[trigger] bound_in(now, at, other) == bound_in(
                        before,
                        at,
                        other,
                    )
            }
            &&& bound_in(before, at, name) is None && may_open(owners) && before.write_cap is None
                ==> made is Ok
        }),
{
    let before = world.server;
    let disposition = CreateDisposition::CreateNew { mode: 0o600 };
    a_child_exists(before, at, name);
    if bound_in(before, at, name) is None {
        a_created_file_is_new(before, at, name, 0o600, None);
    }
    a_name_is_opened(
        owners,
        world,
        private,
        at,
        name,
        disposition,
        ShareAccess::WRITE,
        deadline,
    );
    let (opened, minted, at_open) = open_object_run::<FakeTransport>(
        owners,
        world,
        private,
        name,
        disposition,
        ShareAccess::WRITE,
        deadline,
    );
    if let Ok(open) = opened {
        let (file, made) = created_file(before, at, name, 0o600, None);
        let stateid = stateid_answer(open.file, minted.session)->Ok_0;
        a_range_is_written(at_open, file, stateid, 0, Stability::FileSync, bytes, deadline);
        let call = write_call(open.file.handle, stateid, 0, Stability::FileSync, bytes);
        let written = FakeTransport::after(at_open, call, deadline);
        an_open_is_closed(open.file, minted.session, written, file, deadline);
        let (outcome, after) = close_run::<FakeTransport>(
            open.file,
            minted.session,
            written,
            deadline,
        );
        let now = after.server;
        if create_file_run::<FakeTransport>(owners, world, private, name, bytes, deadline).0
            is Ok {
            let data = now.objects[file as int].data;
            assert(bytes.take(bytes.len() as int) =~= bytes);
            assert(data.subrange(0, data.len() as int) =~= data);
            assert(data == bytes);
            assert forall|i: int| 0 <= i < before.objects.len() implies same_but_names(
                before.objects[i],
                #[trigger] now.objects[i],
            ) by {
                assert(same_but_names(before.objects[i], made.objects[i]));
                assert(now.objects[i] == made.objects[i]);
            }
            assert forall|parent: nat, other: Seq<u8>|
                parent < before.objects.len() && (parent, other) != (
                    at,
                    name,
                ) implies #[trigger] bound_in(now, parent, other) == bound_in(
                before,
                parent,
                other,
            ) by {
                assert(bound_in(made, parent, other) == bound_in(before, parent, other));
                assert(now.objects[parent as int] == made.objects[parent as int]);
            }
            assert(now.objects[at as int] == made.objects[at as int]);
            assert(bound_in(now, at, name) == Some(file));
            assert forall|i: int| 0 <= i < now.objects.len() implies (
            #[trigger] now.objects[i]).identity.fsid == home by {
                if i < before.objects.len() {
                    assert(same_but_names(before.objects[i], now.objects[i]));
                    assert(before.objects[i].identity.fsid == home);
                }
            }
        }
    }
}

proof fn a_made_directory_keeps_all(
    before: ServerModel,
    now: ServerModel,
    place: (nat, Seq<u8>),
    mode: u32,
)
    requires
        directory_made(before, now, place, mode),
    ensures
        all_kept(before, now),
{
    assert forall|parent: nat, name: Seq<u8>|
        parent < before.objects.len() && bound_in(before, parent, name)
            is Some implies #[trigger] bound_in(now, parent, name) == bound_in(
        before,
        parent,
        name,
    ) by {
        assert((parent, name) != place);
    }
}

/// The names of the private files and of the retry directory.
pub open spec fn private_names() -> (Seq<u8>, Seq<u8>, Seq<u8>) {
    (
        vstd::utf8::encode_utf8("retries"@),
        vstd::utf8::encode_utf8("epoch"@),
        vstd::utf8::encode_utf8("manifest"@),
    )
}

proof fn the_private_names_are_valid()
    ensures
        valid_component(private_names().0),
        valid_component(private_names().1),
        valid_component(private_names().2),
        private_names().0.len() == 7,
        private_names().1.len() == 5,
        private_names().2.len() == 8,
{
    reveal_strlit("retries");
    reveal_strlit("epoch");
    reveal_strlit("manifest");
    a_plain_word_is_valid("retries"@);
    a_plain_word_is_valid("epoch"@);
    a_plain_word_is_valid("manifest"@);
}

proof fn a_plain_word_is_valid(text: Seq<char>)
    requires
        2 < text.len() < 100,
        forall|i: int| 0 <= i < text.len() ==> 'a' <= #[trigger] text[i] <= 'z',
    ensures
        valid_component(vstd::utf8::encode_utf8(text)),
        vstd::utf8::encode_utf8(text).len() == text.len(),
{
    assert(vstd::utf8::is_ascii_chars(text));
    vstd::utf8::is_ascii_chars_encode_utf8(text);
    let name = vstd::utf8::encode_utf8(text);
    assert forall|i: int| 0 <= i < name.len() implies name[i] != 47u8 && name[i] != 0u8 by {
        assert(text[i] as u8 == name[i]);
    }
    assert(text[0] as u8 == name[0]);
}

proof fn zero_is_eight_zeros()
    ensures
        le_bytes(0, 8) == seq![0u8, 0u8, 0u8, 0u8, 0u8, 0u8, 0u8, 0u8],
{
    reveal_with_fuel(be_bytes, 9);
    assert(le_bytes(0, 8) =~= seq![0u8, 0u8, 0u8, 0u8, 0u8, 0u8, 0u8, 0u8]);
}

proof fn a_new_run_is_given_its_private_state(
    owners: RegistryView,
    world: FakeWorld,
    private: PinnedObjectView,
    at: nat,
    manifest: Result<Seq<u8>, Seq<char>>,
    home: Fsid,
    deadline: Deadline,
)
    requires
        stands_alone(world, home, 3),
        pins(world, private, at),
        private.kind == Nfs4Type::Directory,
        manifest matches Ok(bytes) ==> bytes.len() <= 65536,
    ensures
        ({
            let (made, _, after) = provision_run::<FakeTransport>(
                owners,
                world,
                private,
                manifest,
                deadline,
            );
            let before = world.server;
            let now = after.server;
            let (retries, epoch, name) = private_names();
            &&& made is Ok ==> {
                &&& manifest is Ok
                &&& all_kept(before, now)
                &&& bound_in(now, at, retries) matches Some(directory)
                    && now.objects[directory as int].kind == Nfs4Type::Directory
                    && now.objects[directory as int].mode == 0o700
                &&& holds_file(now, at, epoch, seq![0u8, 0u8, 0u8, 0u8, 0u8, 0u8, 0u8, 0u8])
                &&& holds_file(now, at, name, manifest->Ok_0)
                &&& stands_alone(after, home, 0)
                &&& pins(after, private, at)
            }
            &&& manifest is Ok && bound_in(before, at, retries) is None && bound_in(
                before,
                at,
                epoch,
            ) is None && bound_in(before, at, name) is None && owners.next < u64::MAX - 1
                && !owners.session.closed && before.write_cap is None ==> made is Ok
        }),
{
    let before = world.server;
    let (retries, epoch, name) = private_names();
    the_private_names_are_valid();
    let zero = le_bytes(0, 8);
    zero_is_eight_zeros();
    assert(component_of(retries) == Ok::<Seq<u8>, UmbraErrorView>(retries));
    assert(component_of(epoch) == Ok::<Seq<u8>, UmbraErrorView>(epoch));
    assert(component_of(name) == Ok::<Seq<u8>, UmbraErrorView>(name));
    a_run_directory_is_made(world, private, at, retries, home, deadline);
    let (made, at_retries) = make_directory_run::<FakeTransport>(
        world,
        private.handle,
        retries,
        deadline,
    );
    if made is Ok {
        let directory = bound_in(at_retries.server, at, retries)->0;
        a_made_directory_keeps_all(before, at_retries.server, (at, retries), 0o700);
        assert(same_but_names(before.objects[at as int], at_retries.server.objects[at as int]));
        assert(pins(at_retries, private, at));
        assert(bound_in(at_retries.server, at, epoch) == bound_in(before, at, epoch));
        assert(bound_in(at_retries.server, at, name) == bound_in(before, at, name));
        a_private_file_is_made(
            owners,
            at_retries,
            private,
            at,
            epoch,
            zero,
            home,
            1,
            deadline,
        );
        let (counted, minted, at_epoch) = create_file_run::<FakeTransport>(
            owners,
            at_retries,
            private,
            epoch,
            zero,
            deadline,
        );
        if counted is Ok && manifest is Ok {
            let bytes = manifest->Ok_0;
            a_private_file_is_made(
                minted,
                at_epoch,
                private,
                at,
                name,
                bytes,
                home,
                0,
                deadline,
            );
            let (done, _, after) = create_file_run::<FakeTransport>(
                minted,
                at_epoch,
                private,
                name,
                bytes,
                deadline,
            );
            if done is Ok {
                keeping_adds_up(before, at_retries.server, at_epoch.server);
                keeping_adds_up(before, at_epoch.server, after.server);
                a_kept_file_is_held(at_epoch.server, after.server, at, epoch, zero);
                keeping_adds_up(at_retries.server, at_epoch.server, after.server);
                assert(bound_in(after.server, at, retries) == Some(directory));
                assert(same_but_names(
                    at_retries.server.objects[directory as int],
                    after.server.objects[directory as int],
                ));
            }
        }
    }
}

/// Giving a new run its private state puts an empty retry directory, a zero writer epoch
/// and the manifest into its private directory, and touches nothing else. What is read
/// back afterwards is that manifest, and, for a manifest that identifies the run asked
/// for, that run at writer epoch zero. It succeeds wherever the three names are free and
/// the server takes whole writes.
pub proof fn a_new_run_reads_back_its_private_state(
    owners: RegistryView,
    world: FakeWorld,
    private: PinnedObjectView,
    at: nat,
    manifest: Result<Seq<u8>, Seq<char>>,
    expected: RunManifestView,
    home: Fsid,
    deadline: Deadline,
)
    requires
        stands_alone(world, home, 3),
        pins(world, private, at),
        private.kind == Nfs4Type::Directory,
        manifest matches Ok(bytes) ==> bytes.len() <= 65536,
    ensures
        ({
            let (made, _, after) = provision_run::<FakeTransport>(
                owners,
                world,
                private,
                manifest,
                deadline,
            );
            let before = world.server;
            let now = after.server;
            let (retries, epoch, name) = private_names();
            let (read, seen) = read_manifest_run::<FakeTransport>(after, private, deadline);
            let (state, _) = persisted_state_run::<FakeTransport>(
                after,
                private,
                Ok(expected),
                expected,
                deadline,
            );
            &&& made is Ok ==> {
                &&& manifest is Ok
                &&& all_kept(before, now)
                &&& bound_in(now, at, retries) matches Some(directory)
                    && now.objects[directory as int].kind == Nfs4Type::Directory
                    && now.objects[directory as int].mode == 0o700
                &&& holds_file(now, at, epoch, seq![0u8, 0u8, 0u8, 0u8, 0u8, 0u8, 0u8, 0u8])
                &&& holds_file(now, at, name, manifest->Ok_0)
                &&& read == Ok::<Seq<u8>, UmbraErrorView>(manifest->Ok_0)
                &&& state matches Ok(found) && found.epoch == LeaseEpoch(0) && found.run_id
                    == expected.run_id && found.immutable_base == expected.immutable_base
                    && found.format_version == expected.format_version
            }
            &&& manifest is Ok && bound_in(before, at, retries) is None && bound_in(
                before,
                at,
                epoch,
            ) is None && bound_in(before, at, name) is None && owners.next < u64::MAX - 1
                && !owners.session.closed && before.write_cap is None ==> made is Ok
        }),
{
    a_new_run_is_given_its_private_state(owners, world, private, at, manifest, home, deadline);
    the_private_names_are_valid();
    zero_is_eight_zeros();
    let (made, _, after) = provision_run::<FakeTransport>(
        owners,
        world,
        private,
        manifest,
        deadline,
    );
    if made is Ok {
        a_private_file_is_read(after, private, at, "manifest"@, deadline);
        a_private_file_is_read(after, private, at, "epoch"@, deadline);
        radix_of_eight();
        little_endian_round_trip(0, 8);
    }
}

} // verus!
