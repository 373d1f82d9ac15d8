//! What the fake server does: its state, and what each operation does to it.
use vstd::prelude::*;

use crate::bytes::{
    be_bytes, be_value, big_endian_round_trip, precedes, precedes_irreflexive, precedes_total,
    precedes_transitive, radix_of_eight,
};
use crate::error::{Nfs4Status, ProtocolError};
use crate::handle::{anonymous, ClientId, ObjectIdentity, Stateid};
use crate::transport::{
    mask_contains, op_code, AttrMask, AttrValuesView, AttributesView, ChangeInfo, CommitReply,
    DelegationType, DirCookie, DirEntryView, DirPageView, DirVerifier, Fsid, Nfs4Time, Nfs4Type,
    OpCode, OpView, OpenClaimView, OpenHow, OpenReply, ReadReplyView, ReplyView, Stability,
    Verifier,
    WriteReply, WriteVerifier,
};

verus! {

/// A directory's names, in byte order, each with the object it names.
pub type Names = Seq<(Seq<u8>, nat)>;

/// Where `name` stands or would stand in a directory, from position `from` on.
pub open spec fn slot_from(names: Names, name: Seq<u8>, from: int) -> int
    decreases names.len() - from,
{
    if from >= names.len() || !precedes(names[from].0, name) {
        from
    } else {
        slot_from(names, name, from + 1)
    }
}

/// Where `name` stands or would stand in a directory.
pub open spec fn slot_of(names: Names, name: Seq<u8>) -> int {
    slot_from(names, name, 0)
}

/// The object `name` names, if any.
pub open spec fn child_of(names: Names, name: Seq<u8>) -> Option<nat> {
    let slot = slot_of(names, name);
    if slot < names.len() && names[slot].0 == name {
        Some(names[slot].1)
    } else {
        None
    }
}

/// The directory with `name` bound to `index`.
pub open spec fn with_child(names: Names, name: Seq<u8>, index: nat) -> Names {
    let slot = slot_of(names, name);
    if child_of(names, name) is Some {
        names.update(slot, (name, index))
    } else {
        names.insert(slot, (name, index))
    }
}

/// The directory with `name` unbound.
pub open spec fn without_child(names: Names, name: Seq<u8>) -> Names {
    if child_of(names, name) is Some {
        names.remove(slot_of(names, name))
    } else {
        names
    }
}

/// Whether a directory's names are in strict byte order.
pub open spec fn in_order(names: Names) -> bool {
    forall|i: int, j: int|
        0 <= i < j < names.len() ==> precedes(#[trigger] names[i].0, #[trigger] names[j].0)
}

pub(crate) proof fn slot_from_bounds(names: Names, name: Seq<u8>, from: int)
    requires
        0 <= from <= names.len(),
    ensures
        from <= slot_from(names, name, from) <= names.len(),
        forall|i: int|
            from <= i < slot_from(names, name, from) ==> precedes(#[trigger] names[i].0, name),
        slot_from(names, name, from) < names.len() ==> !precedes(
            names[slot_from(names, name, from)].0,
            name,
        ),
    decreases names.len() - from,
{
    if from < names.len() && precedes(names[from].0, name) {
        slot_from_bounds(names, name, from + 1);
    }
}

/// In an ordered directory a name that is present is found at its slot.
pub(crate) proof fn present_is_found(names: Names, name: Seq<u8>, at: int)
    requires
        in_order(names),
        0 <= at < names.len(),
        names[at].0 == name,
    ensures
        slot_of(names, name) == at,
        child_of(names, name) == Some(names[at].1),
{
    slot_from_bounds(names, name, 0);
    let slot = slot_of(names, name);
    precedes_irreflexive(name);
    if slot < at {
        assert(precedes(names[slot].0, names[at].0));
    }
    if slot > at {
        assert(precedes(names[at].0, name));
    }
}

/// In an ordered directory everything from a name's slot on comes after it or is
/// it.
proof fn slot_splits(names: Names, name: Seq<u8>)
    requires
        in_order(names),
    ensures
        0 <= slot_of(names, name) <= names.len(),
        forall|i: int| 0 <= i < slot_of(names, name) ==> precedes(#[trigger] names[i].0, name),
        forall|i: int|
            slot_of(names, name) <= i < names.len() && names[i].0 != name ==> precedes(
                name,
                #[trigger] names[i].0,
            ),
{
    slot_from_bounds(names, name, 0);
    let slot = slot_of(names, name);
    assert forall|i: int| slot <= i < names.len() && names[i].0 != name implies precedes(
        name,
        #[trigger] names[i].0,
    ) by {
        precedes_total(names[slot].0, name);
        if i > slot {
            assert(precedes(names[slot].0, names[i].0));
            if names[slot].0 != name {
                precedes_transitive(name, names[slot].0, names[i].0);
            }
        }
    }
}

/// Binding a name keeps a directory ordered, the name then names its object, and
/// no other name is affected.
pub proof fn binding_a_name_affects_only_it(
    names: Names,
    name: Seq<u8>,
    index: nat,
    other: Seq<u8>,
)
    requires
        in_order(names),
    ensures
        in_order(with_child(names, name, index)),
        child_of(with_child(names, name, index), name) == Some(index),
        other != name ==> child_of(with_child(names, name, index), other) == child_of(names, other),
{
    let after = with_child(names, name, index);
    let slot = slot_of(names, name);
    slot_splits(names, name);
    if child_of(names, name) is Some {
        assert forall|i: int, j: int| 0 <= i < j < after.len() implies precedes(
            #[trigger] after[i].0,
            #[trigger] after[j].0,
        ) by {
            assert(precedes(names[i].0, names[j].0));
        }
    } else {
        assert forall|i: int, j: int| 0 <= i < j < after.len() implies precedes(
            #[trigger] after[i].0,
            #[trigger] after[j].0,
        ) by {
            if j < slot {
                assert(precedes(names[i].0, names[j].0));
            } else if j == slot {
                assert(after[i] == names[i]);
            } else if i < slot {
                assert(precedes(names[i].0, names[j - 1].0));
            } else if i == slot {
                assert(after[j] == names[j - 1]);
                if names[j - 1].0 == name {
                    present_is_found(names, name, j - 1);
                }
            } else {
                assert(precedes(names[i - 1].0, names[j - 1].0));
            }
        }
    }
    assert(after[slot] == (name, index));
    present_is_found(after, name, slot);
    if other != name {
        let shift: int = if child_of(names, name) is Some {
            0
        } else {
            1
        };
        assert forall|i: int| 0 <= i < names.len() && names[i].0 != name implies after.contains(
            #[trigger] names[i],
        ) by {
            let there = if i < slot {
                i
            } else {
                i + shift
            };
            assert(after[there] == names[i]);
        }
        assert forall|i: int| 0 <= i < after.len() && after[i].0 != name implies names.contains(
            #[trigger] after[i],
        ) by {
            let there = if i < slot {
                i
            } else {
                i - shift
            };
            assert(names[there] == after[i]);
        }
        same_children_elsewhere(names, after, name, other);
    }
}

/// Unbinding a name keeps a directory ordered, the name then names nothing, and no
/// other name is affected.
pub proof fn unbinding_a_name_affects_only_it(names: Names, name: Seq<u8>, other: Seq<u8>)
    requires
        in_order(names),
    ensures
        in_order(without_child(names, name)),
        child_of(without_child(names, name), name) is None,
        other != name ==> child_of(without_child(names, name), other) == child_of(names, other),
{
    let after = without_child(names, name);
    let slot = slot_of(names, name);
    slot_splits(names, name);
    if child_of(names, name) is Some {
        assert forall|i: int, j: int| 0 <= i < j < after.len() implies precedes(
            #[trigger] after[i].0,
            #[trigger] after[j].0,
        ) by {
            let a = if i < slot { i } else { i + 1 };
            let b = if j < slot { j } else { j + 1 };
            assert(after[i] == names[a]);
            assert(after[j] == names[b]);
            assert(precedes(names[a].0, names[b].0));
        }
        if child_of(after, name) is Some {
            let at = slot_of(after, name);
            slot_from_bounds(after, name, 0);
            let back = if at < slot { at } else { at + 1 };
            assert(after[at] == names[back]);
            present_is_found(names, name, back);
        }
        if other != name {
            assert forall|i: int|
                0 <= i < names.len() && names[i].0 != name implies after.contains(
                #[trigger] names[i],
            ) by {
                let there = if i < slot {
                    i
                } else {
                    i - 1
                };
                assert(after[there] == names[i]);
            }
            assert forall|i: int|
                0 <= i < after.len() && after[i].0 != name implies names.contains(
                #[trigger] after[i],
            ) by {
                let there = if i < slot {
                    i
                } else {
                    i + 1
                };
                assert(names[there] == after[i]);
            }
            same_children_elsewhere(names, after, name, other);
        }
    }
}

/// Two ordered directories that agree on every entry but those named `name` agree
/// on what every other name names.
proof fn same_children_elsewhere(before: Names, after: Names, name: Seq<u8>, other: Seq<u8>)
    requires
        in_order(before),
        in_order(after),
        other != name,
        forall|i: int|
            0 <= i < before.len() && before[i].0 != name ==> after.contains(#[trigger] before[i]),
        forall|i: int|
            0 <= i < after.len() && after[i].0 != name ==> before.contains(#[trigger] after[i]),
    ensures
        child_of(after, other) == child_of(before, other),
{
    slot_from_bounds(before, other, 0);
    slot_from_bounds(after, other, 0);
    if child_of(before, other) is Some {
        let at = slot_of(before, other);
        let there = choose|k: int| 0 <= k < after.len() && after[k] == before[at];
        present_is_found(after, other, there);
    } else if child_of(after, other) is Some {
        let at = slot_of(after, other);
        let there = choose|k: int| 0 <= k < before.len() && before[k] == after[at];
        present_is_found(before, other, there);
    }
}

/// `value` plus one, wrapping.
pub open spec fn wrap_next(value: u64) -> u64 {
    if value == u64::MAX {
        0
    } else {
        (value + 1) as u64
    }
}

/// One object of the fake server.
#[verifier::ext_equal]
pub struct ObjectModel {
    /// Its identity.
    pub identity: ObjectIdentity,
    /// Its type.
    pub kind: Nfs4Type,
    /// Its bytes.
    pub data: Seq<u8>,
    /// Its mode bits.
    pub mode: u32,
    /// The names it holds.
    pub children: Names,
    /// Verifier of the exclusive create that made it, if any.
    pub create_verifier: Option<Verifier>,
    /// Its change attribute.
    pub change: u64,
    /// Its owner.
    pub owner: Seq<u8>,
    /// Its owning group.
    pub owner_group: Seq<u8>,
    /// Its access time.
    pub time_access: Nfs4Time,
    /// Its modification time.
    pub time_modify: Nfs4Time,
}

/// The fake server's state.
#[verifier::ext_equal]
pub struct ServerModel {
    /// Every object ever made. The first is the export root.
    pub objects: Seq<ObjectModel>,
    /// Next file identity to assign.
    pub next_fileid: u64,
    /// The file system.
    pub fsid: Fsid,
    /// Write verifier.
    pub verifier: WriteVerifier,
    /// Directory cookie verifier.
    pub dir_verifier: DirVerifier,
    /// Next client id to assign.
    pub next_client_id: u64,
    /// Confirmed client ids.
    pub confirmed_clients: Seq<u64>,
    /// Confirmed open owners.
    pub confirmed_owners: Seq<Seq<u8>>,
    /// Which owner each granted stateid belongs to, oldest first.
    pub stateid_owners: Seq<(Stateid, Seq<u8>)>,
    /// Next stateid to assign.
    pub next_stateid: u32,
    /// Whether the grace window is open.
    pub in_grace: bool,
    /// Cap on every WRITE, if any.
    pub write_cap: Option<u32>,
}

/// Whether a server is well formed: it has a root, and every directory is ordered
/// and names only objects that exist.
pub open spec fn server_ok(server: ServerModel) -> bool {
    &&& server.objects.len() >= 1
    &&& forall|i: int|
        0 <= i < server.objects.len() ==> names_ok(
            #[trigger] server.objects[i].children,
            server.objects.len(),
        )
}

/// Whether a directory is ordered and names only objects below `count`.
pub open spec fn names_ok(names: Names, count: nat) -> bool {
    &&& in_order(names)
    &&& forall|i: int| 0 <= i < names.len() ==> (#[trigger] names[i]).1 < count
}

/// The filehandle of object `index`.
pub open spec fn handle_of(index: nat) -> Seq<u8> {
    be_bytes(index, 8)
}

/// The object a filehandle names, where it has the shape of one.
pub open spec fn index_of_handle(handle: Seq<u8>) -> Option<nat> {
    if handle.len() == 8 {
        Some(be_value(handle))
    } else {
        None
    }
}

/// A filehandle names the object it was made for.
pub proof fn a_handle_names_its_object(index: nat)
    requires
        index <= u64::MAX,
    ensures
        index_of_handle(handle_of(index)) == Some(index),
        handle_of(index).len() == 8,
{
    radix_of_eight();
    big_endian_round_trip(index, 8);
}

/// `data` with `bytes` laid over it from `start`, zero-filled up to there.
pub open spec fn write_over(data: Seq<u8>, start: nat, bytes: Seq<u8>) -> Seq<u8> {
    Seq::new(
        if data.len() >= start + bytes.len() {
            data.len()
        } else {
            start + bytes.len()
        },
        |i: int|
            if start <= i < start + bytes.len() {
                bytes[i - start]
            } else if i < data.len() {
                data[i]
            } else {
                0u8
            },
    )
}

/// `data` cut or zero-filled to `size`.
pub open spec fn resized(data: Seq<u8>, size: nat) -> Seq<u8> {
    Seq::new(
        size,
        |i: int|
            if i < data.len() {
                data[i]
            } else {
                0u8
            },
    )
}

/// The stateid numbered `n`.
pub open spec fn numbered_stateid(n: u32) -> Stateid {
    Stateid {
        seqid: n,
        other: [
            (n / 16777216) as u8,
            (n / 65536 % 256) as u8,
            (n / 256 % 256) as u8,
            (n % 256) as u8,
            0u8,
            0u8,
            0u8,
            0u8,
            0u8,
            0u8,
            0u8,
            0u8,
        ],
    }
}

/// The time zero.
pub open spec fn time_zero() -> Nfs4Time {
    Nfs4Time { seconds: 0, nanoseconds: 0 }
}

/// The owner every new object has.
pub open spec fn first_owner() -> Seq<u8> {
    seq![48u8]
}

/// The empty server: only an export root.
pub open spec fn empty_server() -> ServerModel {
    let fsid = Fsid { major: 0x756d_6272, minor: 1 };
    ServerModel {
        objects: seq![
            ObjectModel {
                identity: ObjectIdentity { fsid, fileid: 1 },
                kind: Nfs4Type::Directory,
                data: Seq::empty(),
                mode: 0o700,
                children: Seq::empty(),
                create_verifier: None,
                change: 1,
                owner: first_owner(),
                owner_group: first_owner(),
                time_access: time_zero(),
                time_modify: time_zero(),
            },
        ],
        next_fileid: 2,
        fsid,
        verifier: WriteVerifier([0xA1u8, 0xA1u8, 0xA1u8, 0xA1u8, 0xA1u8, 0xA1u8, 0xA1u8, 0xA1u8]),
        dir_verifier: DirVerifier([0xD1u8, 0xD1u8, 0xD1u8, 0xD1u8, 0xD1u8, 0xD1u8, 0xD1u8, 0xD1u8]),
        next_client_id: 100,
        confirmed_clients: Seq::empty(),
        confirmed_owners: Seq::empty(),
        stateid_owners: Seq::empty(),
        next_stateid: 1,
        in_grace: false,
        write_cap: None,
    }
}

/// The server with one more object, which no name names yet.
pub open spec fn allocated(
    server: ServerModel,
    kind: Nfs4Type,
    data: Seq<u8>,
    mode: u32,
    create_verifier: Option<Verifier>,
) -> ServerModel {
    ServerModel {
        objects: server.objects.push(
            ObjectModel {
                identity: ObjectIdentity { fsid: server.fsid, fileid: server.next_fileid },
                kind,
                data,
                mode,
                children: Seq::empty(),
                create_verifier,
                change: 1,
                owner: first_owner(),
                owner_group: first_owner(),
                time_access: time_zero(),
                time_modify: time_zero(),
            },
        ),
        next_fileid: wrap_next(server.next_fileid),
        ..server
    }
}

/// The server with object `index` replaced.
pub open spec fn with_object(server: ServerModel, index: nat, object: ObjectModel) -> ServerModel {
    ServerModel { objects: server.objects.update(index as int, object), ..server }
}

/// The server with `name` bound in directory `parent`.
pub open spec fn bound(server: ServerModel, parent: nat, name: Seq<u8>, index: nat) -> ServerModel {
    let object = server.objects[parent as int];
    with_object(
        server,
        parent,
        ObjectModel { children: with_child(object.children, name, index), ..object },
    )
}

/// The server with `name` unbound in directory `parent`.
pub open spec fn unbound(server: ServerModel, parent: nat, name: Seq<u8>) -> ServerModel {
    let object = server.objects[parent as int];
    with_object(
        server,
        parent,
        ObjectModel { children: without_child(object.children, name), ..object },
    )
}

/// The server with object `index`'s change attribute moved on.
pub open spec fn bumped(server: ServerModel, index: nat) -> ServerModel {
    let object = server.objects[index as int];
    with_object(server, index, ObjectModel { change: wrap_next(object.change), ..object })
}

/// The attributes of `object` that `mask` asks for.
pub open spec fn attributes_of(object: ObjectModel, mask: AttrMask) -> AttributesView {
    AttributesView {
        returned: mask,
        file_type: if mask_contains(mask.0, AttrMask::TYPE) {
            Some(object.kind)
        } else {
            None
        },
        change: if mask_contains(mask.0, AttrMask::CHANGE) {
            Some(object.change)
        } else {
            None
        },
        size: if mask_contains(mask.0, AttrMask::SIZE) {
            Some(object.data.len() as u64)
        } else {
            None
        },
        fsid: if mask_contains(mask.0, AttrMask::FSID) {
            Some(object.identity.fsid)
        } else {
            None
        },
        fileid: if mask_contains(mask.0, AttrMask::FILEID) {
            Some(object.identity.fileid)
        } else {
            None
        },
        numlinks: if mask_contains(mask.0, AttrMask::NUMLINKS) {
            Some(1u32)
        } else {
            None
        },
        mode: if mask_contains(mask.0, AttrMask::MODE) {
            Some(object.mode)
        } else {
            None
        },
        owner: if mask_contains(mask.0, AttrMask::OWNER) {
            Some(object.owner)
        } else {
            None
        },
        owner_group: if mask_contains(mask.0, AttrMask::OWNER_GROUP) {
            Some(object.owner_group)
        } else {
            None
        },
        time_modify: if mask_contains(mask.0, AttrMask::TIME_MODIFY) {
            Some(object.time_modify)
        } else {
            None
        },
        lease_time: if mask_contains(mask.0, AttrMask::LEASE_TIME) {
            Some(90u32)
        } else {
            None
        },
        rdattr_error: None,
    }
}

/// Whether every attribute in `values` can be set.
pub open spec fn values_fit(values: AttrValuesView) -> bool {
    values.size matches Some(size) ==> size <= usize::MAX
}

/// `object` with `values` applied.
pub open spec fn with_values(object: ObjectModel, values: AttrValuesView) -> ObjectModel {
    ObjectModel {
        data: match values.size {
            Some(size) => resized(object.data, size as nat),
            None => object.data,
        },
        mode: match values.mode {
            Some(mode) => mode,
            None => object.mode,
        },
        owner: match values.owner {
            Some(owner) => owner,
            None => object.owner,
        },
        owner_group: match values.owner_group {
            Some(group) => group,
            None => object.owner_group,
        },
        time_access: match values.time_access {
            Some(time) => time,
            None => object.time_access,
        },
        time_modify: match values.time_modify {
            Some(time) => time,
            None => object.time_modify,
        },
        ..object
    }
}

/// The first object that names `target`, from `from` on; the root if none does.
pub open spec fn parent_from(objects: Seq<ObjectModel>, target: nat, from: int) -> nat
    decreases objects.len() - from,
{
    if from >= objects.len() {
        0
    } else if names_object(objects[from].children, target) {
        from as nat
    } else {
        parent_from(objects, target, from + 1)
    }
}

/// Whether a directory names object `target`.
pub open spec fn names_object(names: Names, target: nat) -> bool {
    exists|i: int| 0 <= i < names.len() && (#[trigger] names[i]).1 == target
}

/// The owner a stateid was granted to, newest grant first.
pub open spec fn owner_of_stateid(grants: Seq<(Stateid, Seq<u8>)>, stateid: Stateid) -> Option<
    Seq<u8>,
>
    decreases grants.len(),
{
    if grants.len() == 0 {
        None
    } else if grants.last().0.other == stateid.other {
        Some(grants.last().1)
    } else {
        owner_of_stateid(grants.drop_last(), stateid)
    }
}

/// One operation's outcome on the fake server.
#[verifier::ext_equal]
pub struct Step {
    /// The reply, or the failure that stops the COMPOUND.
    pub reply: Result<ReplyView, ProtocolError>,
    /// The server afterwards.
    pub server: ServerModel,
    /// The current filehandle afterwards.
    pub current: Option<nat>,
    /// The saved filehandle afterwards.
    pub saved: Option<nat>,
}

/// The directory entries from `start` up to `end`.
pub open spec fn entries_between(
    server: ServerModel,
    names: Names,
    start: int,
    end: int,
    attrs: AttrMask,
) -> Seq<DirEntryView> {
    Seq::new(
        (end - start) as nat,
        |k: int|
            DirEntryView {
                cookie: DirCookie((start + k + 1) as u64),
                name: names[start + k].0,
                attributes: attributes_of(server.objects[names[start + k].1 as int], attrs),
            },
    )
}

/// The smaller of two numbers.
pub open spec fn lesser(a: int, b: int) -> int {
    if a <= b {
        a
    } else {
        b
    }
}

/// How many entries a READDIR of `max_count` bytes returns at most.
pub open spec fn readdir_room(max_count: u32) -> int {
    if max_count / 128 >= 1 {
        (max_count / 128) as int
    } else {
        1
    }
}

/// What opening `name` in `parent` yields: the object, or a failure. A failure to
/// find the name is reported at position zero.
pub open spec fn open_target(
    server: ServerModel,
    parent: nat,
    name: Seq<u8>,
    how: OpenHow,
    index: u32,
) -> Result<(nat, ServerModel), ProtocolError> {
    let exists = ProtocolError {
        status: Nfs4Status(Nfs4Status::EXIST),
        op: OpCode::Open,
        index,
    };
    match child_of(server.objects[parent as int].children, name) {
        Some(found) => match how {
            OpenHow::NoCreate => Ok((found, server)),
            OpenHow::Unchecked { .. } => Ok((found, server)),
            OpenHow::Guarded { .. } => Err(exists),
            OpenHow::Exclusive { verifier } => if server.objects[found as int].create_verifier
                == Some(verifier) {
                Ok((found, server))
            } else {
                Err(exists)
            },
        },
        None => match how {
            OpenHow::NoCreate => Err(
                ProtocolError {
                    status: Nfs4Status(Nfs4Status::NOENT),
                    op: OpCode::Open,
                    index: 0,
                },
            ),
            OpenHow::Unchecked { mode } => Ok(created_file(server, parent, name, mode, None)),
            OpenHow::Guarded { mode } => Ok(created_file(server, parent, name, mode, None)),
            OpenHow::Exclusive { verifier } => Ok(
                created_file(server, parent, name, 0o600, Some(verifier)),
            ),
        },
    }
}

/// A new regular file bound to `name` in `parent`, which has changed by it.
pub open spec fn created_file(
    server: ServerModel,
    parent: nat,
    name: Seq<u8>,
    mode: u32,
    verifier: Option<Verifier>,
) -> (nat, ServerModel) {
    let made = allocated(server, Nfs4Type::Regular, Seq::empty(), mode, verifier);
    (server.objects.len(), bumped(bound(made, parent, name, server.objects.len()), parent))
}

/// What one operation does to the fake server.
#[verifier::opaque]
pub open spec fn step(
    server: ServerModel,
    current: Option<nat>,
    saved: Option<nat>,
    op: OpView,
    index: u32,
) -> Step {
    let failed = |code: u32|
        Step {
            reply: Err(ProtocolError { status: Nfs4Status(code), op: op_code(op), index }),
            server,
            current,
            saved,
        };
    let done = |reply: ReplyView| Step { reply: Ok(reply), server, current, saved };
    match op {
        OpView::PutRootFh => Step { current: Some(0), ..done(ReplyView::PutRootFh) },
        OpView::PutFh(handle) => match index_of_handle(handle) {
            Some(target) if target < server.objects.len() => Step {
                current: Some(target),
                ..done(ReplyView::PutFh)
            },
            _ => failed(Nfs4Status::BADHANDLE),
        },
        OpView::Renew(client_id) => if server.confirmed_clients.contains(client_id.0) {
            done(ReplyView::Renew)
        } else {
            failed(Nfs4Status::STALE_CLIENTID)
        },
        OpView::SetClientId { .. } => Step {
            server: ServerModel {
                next_client_id: wrap_next(server.next_client_id),
                ..server
            },
            ..done(
                ReplyView::SetClientId {
                    client_id: ClientId(server.next_client_id),
                    confirm: Verifier(
                        [0xC0u8, 0xC0u8, 0xC0u8, 0xC0u8, 0xC0u8, 0xC0u8, 0xC0u8, 0xC0u8],
                    ),
                },
            )
        },
        OpView::SetClientIdConfirm { client_id, .. } => Step {
            server: ServerModel {
                confirmed_clients: server.confirmed_clients.push(client_id.0),
                ..server
            },
            ..done(ReplyView::SetClientIdConfirm)
        },
        _ => match current {
            None => failed(Nfs4Status::NOFILEHANDLE),
            Some(target) => step_at(server, target, saved, op, index),
        },
    }
}

/// What one operation does where the current filehandle names object `target`.
#[verifier::opaque]
pub open spec fn step_at(
    server: ServerModel,
    target: nat,
    saved: Option<nat>,
    op: OpView,
    index: u32,
) -> Step {
    let object = server.objects[target as int];
    let failed = |code: u32|
        Step {
            reply: Err(ProtocolError { status: Nfs4Status(code), op: op_code(op), index }),
            server,
            current: Some(target),
            saved,
        };
    let done = |reply: ReplyView| Step { reply: Ok(reply), server, current: Some(target), saved };
    match op {
        OpView::GetFh => done(ReplyView::GetFh(handle_of(target))),
        OpView::GetAttr(mask) => done(ReplyView::GetAttr(attributes_of(object, mask))),
        OpView::Lookup(name) => if object.kind != Nfs4Type::Directory {
            failed(Nfs4Status::NOTDIR)
        } else {
            match child_of(object.children, name) {
                None => failed(Nfs4Status::NOENT),
                Some(child) => Step { current: Some(child), ..done(ReplyView::Lookup) },
            }
        },
        OpView::LookupParent => Step {
            current: Some(parent_from(server.objects, target, 0)),
            ..done(ReplyView::LookupParent)
        },
        OpView::ReadDir(request) => if object.kind != Nfs4Type::Directory {
            failed(Nfs4Status::NOTDIR)
        } else if request.cookie.0 != 0 && request.verifier != server.dir_verifier {
            failed(Nfs4Status::BAD_COOKIE)
        } else if request.cookie.0 > object.children.len() {
            failed(Nfs4Status::BAD_COOKIE)
        } else {
            let start = request.cookie.0 as int;
            let end = lesser(
                object.children.len() as int,
                start + readdir_room(request.max_count),
            );
            done(
                ReplyView::ReadDir(
                    DirPageView {
                        verifier: server.dir_verifier,
                        entries: entries_between(
                            server,
                            object.children,
                            start,
                            end,
                            request.attrs,
                        ),
                        eof: end == object.children.len(),
                    },
                ),
            )
        },
        OpView::Read { offset, count, .. } => if object.kind == Nfs4Type::Directory {
            failed(Nfs4Status::ISDIR)
        } else {
            let start = lesser(offset as int, object.data.len() as int);
            let end = lesser(object.data.len() as int, start + count);
            done(
                ReplyView::Read(
                    ReadReplyView {
                        data: object.data.subrange(start, end),
                        eof: end == object.data.len(),
                    },
                ),
            )
        },
        OpView::Write { offset, stability, data, .. } => {
            let accepted = match server.write_cap {
                None => data.len() as int,
                Some(cap) => lesser(data.len() as int, cap as int),
            };
            if object.kind == Nfs4Type::Directory {
                failed(Nfs4Status::ISDIR)
            } else if offset + accepted > usize::MAX {
                failed(Nfs4Status::INVAL)
            } else {
                Step {
                    server: bumped(
                        with_object(
                            server,
                            target,
                            ObjectModel {
                                data: write_over(object.data, offset as nat, data.take(accepted)),
                                ..object
                            },
                        ),
                        target,
                    ),
                    ..done(
                        ReplyView::Write(
                            WriteReply {
                                count: accepted as u32,
                                committed: stability,
                                verifier: server.verifier,
                            },
                        ),
                    )
                }
            }
        },
        OpView::Commit { .. } => done(
            ReplyView::Commit(CommitReply { verifier: server.verifier }),
        ),
        OpView::Open(args) => {
            let opened = match args.claim {
                OpenClaimView::Previous { .. } => if server.in_grace {
                    Ok((target, server))
                } else {
                    Err(
                        ProtocolError {
                            status: Nfs4Status(Nfs4Status::NO_GRACE),
                            op: OpCode::Open,
                            index,
                        },
                    )
                },
                OpenClaimView::Null { name } => open_target(server, target, name, args.how, index),
            };
            match opened {
                Err(error) => Step { reply: Err(error), ..done(ReplyView::Lookup) },
                Ok((found, after)) => {
                    let stateid = numbered_stateid(after.next_stateid);
                    Step {
                        reply: Ok(
                            ReplyView::Open(
                                OpenReply {
                                    stateid,
                                    confirm_required: !after.confirmed_owners.contains(
                                        args.owner.owner,
                                    ),
                                    change_atomic: true,
                                    change_before: 0,
                                    change_after: 1,
                                    delegation: DelegationType::NoDelegation,
                                },
                            ),
                        ),
                        server: ServerModel {
                            next_stateid: crate::handle::next_seqid(after.next_stateid),
                            stateid_owners: after.stateid_owners.push(
                                (stateid, args.owner.owner),
                            ),
                            ..after
                        },
                        current: Some(found),
                        saved,
                    }
                },
            }
        },
        OpView::OpenConfirm { stateid, .. } => match owner_of_stateid(
            server.stateid_owners,
            stateid,
        ) {
            None => failed(Nfs4Status::BAD_STATEID),
            Some(owner) => Step {
                server: ServerModel {
                    confirmed_owners: server.confirmed_owners.push(owner),
                    ..server
                },
                ..done(ReplyView::OpenConfirm(stateid))
            },
        },
        OpView::Close { stateid, .. } => done(ReplyView::Close(stateid)),
        OpView::Lock(_) => Step {
            server: ServerModel {
                next_stateid: crate::handle::next_seqid(server.next_stateid),
                ..server
            },
            ..done(ReplyView::Lock(numbered_stateid(server.next_stateid)))
        },
        OpView::Locku(args) => done(ReplyView::Locku(args.lock_stateid)),
        OpView::SaveFh => Step { saved: Some(target), ..done(ReplyView::SaveFh) },
        OpView::Remove { name } => if object.kind != Nfs4Type::Directory {
            failed(Nfs4Status::NOTDIR)
        } else {
            match child_of(object.children, name) {
                None => failed(Nfs4Status::NOENT),
                Some(victim) => if is_full_directory(server, victim) {
                    failed(Nfs4Status::NOTEMPTY)
                } else {
                    Step {
                        server: bumped(unbound(server, target, name), target),
                        ..done(
                            ReplyView::Remove(
                                ChangeInfo {
                                    atomic: true,
                                    before: object.change,
                                    after: wrap_next(object.change),
                                },
                            ),
                        )
                    }
                },
            }
        },
        OpView::Rename { old_name, new_name } => match saved {
            None => failed(Nfs4Status::NOFILEHANDLE),
            Some(source) => rename_step(server, source, target, old_name, new_name, index),
        },
        OpView::Create { object_type, name, attributes } => if object.kind
            != Nfs4Type::Directory {
            failed(Nfs4Status::NOTDIR)
        } else if child_of(object.children, name) is Some {
            failed(Nfs4Status::EXIST)
        } else {
            let child = server.objects.len();
            let made = allocated(
                server,
                Nfs4Type::Directory,
                Seq::empty(),
                match attributes.mode {
                    Some(mode) => mode,
                    None => 0o700,
                },
                None,
            );
            if !values_fit(attributes) {
                Step {
                    reply: Err(size_refused()),
                    server: made,
                    current: Some(target),
                    saved,
                }
            } else {
                let set = with_object(
                    made,
                    child,
                    with_values(made.objects[child as int], attributes),
                );
                Step {
                    reply: Ok(
                        ReplyView::Create {
                            info: ChangeInfo {
                                atomic: true,
                                before: object.change,
                                after: wrap_next(object.change),
                            },
                            attrset: AttrMask(crate::transport::values_mask(attributes)),
                        },
                    ),
                    server: bumped(bound(set, target, name, child), target),
                    current: Some(child),
                    saved,
                }
            }
        },
        OpView::SetAttr { stateid, attributes } => if attributes.size is Some && stateid
            == anonymous() && object.kind == Nfs4Type::Regular {
            failed(Nfs4Status::BAD_STATEID)
        } else if object.kind == Nfs4Type::Directory && attributes.size is Some {
            failed(Nfs4Status::ISDIR)
        } else if !values_fit(attributes) {
            Step { reply: Err(size_refused()), ..done(ReplyView::Lookup) }
        } else {
            Step {
                server: bumped(
                    with_object(server, target, with_values(object, attributes)),
                    target,
                ),
                ..done(ReplyView::SetAttr(AttrMask(crate::transport::values_mask(attributes))))
            }
        },
        _ => failed(Nfs4Status::NOTSUPP),
    }
}

/// Whether object `index` is a directory that holds a name.
pub open spec fn is_full_directory(server: ServerModel, index: nat) -> bool {
    server.objects[index as int].kind == Nfs4Type::Directory
        && server.objects[index as int].children.len() > 0
}

/// The refusal of a size that does not fit in memory.
pub open spec fn size_refused() -> ProtocolError {
    ProtocolError { status: Nfs4Status(Nfs4Status::INVAL), op: OpCode::SetAttr, index: 0 }
}

/// What a RENAME from `source` to `target` does.
pub open spec fn rename_step(
    server: ServerModel,
    source: nat,
    target: nat,
    old_name: Seq<u8>,
    new_name: Seq<u8>,
    index: u32,
) -> Step {
    let from = server.objects[source as int];
    let to = server.objects[target as int];
    let failed = |code: u32|
        Step {
            reply: Err(
                ProtocolError { status: Nfs4Status(code), op: OpCode::Rename, index },
            ),
            server,
            current: Some(target),
            saved: Some(source),
        };
    if from.kind != Nfs4Type::Directory || to.kind != Nfs4Type::Directory {
        failed(Nfs4Status::NOTDIR)
    } else {
        match child_of(from.children, old_name) {
            None => failed(Nfs4Status::NOENT),
            Some(moving) => if child_of(to.children, new_name) matches Some(existing)
                && is_full_directory(server, existing) {
                failed(Nfs4Status::NOTEMPTY)
            } else {
                let moved = bumped(
                    bound(unbound(server, source, old_name), target, new_name, moving),
                    source,
                );
                Step {
                    reply: Ok(
                        ReplyView::Rename {
                            source: ChangeInfo {
                                atomic: true,
                                before: from.change,
                                after: wrap_next(from.change),
                            },
                            target: ChangeInfo {
                                atomic: true,
                                before: to.change,
                                after: wrap_next(to.change),
                            },
                        },
                    ),
                    server: if source == target {
                        moved
                    } else {
                        bumped(moved, target)
                    },
                    current: Some(target),
                    saved: Some(source),
                }
            },
        }
    }
}

/// Replacing an object by one whose names are well formed keeps a server well
/// formed.
pub proof fn replacing_keeps_the_server_ok(server: ServerModel, index: nat, object: ObjectModel)
    requires
        server_ok(server),
        index < server.objects.len(),
        names_ok(object.children, server.objects.len()),
    ensures
        server_ok(with_object(server, index, object)),
{
    let after = with_object(server, index, object);
    assert forall|i: int| 0 <= i < after.objects.len() implies names_ok(
        #[trigger] after.objects[i].children,
        after.objects.len(),
    ) by {
        if i != index {
            assert(after.objects[i] == server.objects[i]);
        }
    }
}

/// Making an object keeps a server well formed.
pub proof fn allocating_keeps_the_server_ok(
    server: ServerModel,
    kind: Nfs4Type,
    data: Seq<u8>,
    mode: u32,
    create_verifier: Option<Verifier>,
)
    requires
        server_ok(server),
    ensures
        server_ok(allocated(server, kind, data, mode, create_verifier)),
{
    let after = allocated(server, kind, data, mode, create_verifier);
    assert forall|i: int| 0 <= i < after.objects.len() implies names_ok(
        #[trigger] after.objects[i].children,
        after.objects.len(),
    ) by {
        if i < server.objects.len() {
            assert(after.objects[i] == server.objects[i]);
            assert(names_ok(server.objects[i].children, server.objects.len()));
        }
    }
}

/// Binding a name to an object that exists keeps a server well formed.
pub proof fn binding_keeps_the_server_ok(
    server: ServerModel,
    parent: nat,
    name: Seq<u8>,
    index: nat,
)
    requires
        server_ok(server),
        parent < server.objects.len(),
        index < server.objects.len(),
    ensures
        server_ok(bound(server, parent, name, index)),
{
    let object = server.objects[parent as int];
    assert(names_ok(object.children, server.objects.len()));
    binding_a_name_affects_only_it(object.children, name, index, name);
    slot_from_bounds(object.children, name, 0);
    let after = with_child(object.children, name, index);
    let slot = slot_of(object.children, name);
    assert forall|i: int| 0 <= i < after.len() implies (#[trigger] after[i]).1
        < server.objects.len() by {
        if child_of(object.children, name) is None && i > slot {
            assert(after[i] == object.children[i - 1]);
        } else if i != slot {
            assert(after[i] == object.children[i]);
        }
    }
    replacing_keeps_the_server_ok(
        server,
        parent,
        ObjectModel { children: after, ..object },
    );
}

/// Unbinding a name keeps a server well formed.
pub proof fn unbinding_keeps_the_server_ok(server: ServerModel, parent: nat, name: Seq<u8>)
    requires
        server_ok(server),
        parent < server.objects.len(),
    ensures
        server_ok(unbound(server, parent, name)),
{
    let object = server.objects[parent as int];
    assert(names_ok(object.children, server.objects.len()));
    unbinding_a_name_affects_only_it(object.children, name, name);
    slot_from_bounds(object.children, name, 0);
    let after = without_child(object.children, name);
    let slot = slot_of(object.children, name);
    assert forall|i: int| 0 <= i < after.len() implies (#[trigger] after[i]).1
        < server.objects.len() by {
        if child_of(object.children, name) is Some && i >= slot {
            assert(after[i] == object.children[i + 1]);
        } else {
            assert(after[i] == object.children[i]);
        }
    }
    replacing_keeps_the_server_ok(
        server,
        parent,
        ObjectModel { children: after, ..object },
    );
}

/// Moving a change attribute on keeps a server well formed.
pub proof fn bumping_keeps_the_server_ok(server: ServerModel, index: nat)
    requires
        server_ok(server),
        index < server.objects.len(),
    ensures
        server_ok(bumped(server, index)),
{
    let object = server.objects[index as int];
    assert(names_ok(object.children, server.objects.len()));
    replacing_keeps_the_server_ok(
        server,
        index,
        ObjectModel { change: wrap_next(object.change), ..object },
    );
}

/// A READ of the range a WRITE accepted gives back the bytes that were written,
/// and nothing outside that object changed.
pub proof fn a_read_gives_back_what_was_written(
    server: ServerModel,
    target: nat,
    saved: Option<nat>,
    stateid: Stateid,
    offset: u64,
    stability: Stability,
    data: Seq<u8>,
    index: u32,
)
    requires
        target < server.objects.len(),
        data.len() <= u32::MAX,
    ensures
        ({
            let written = step_at(
                server,
                target,
                saved,
                OpView::Write { stateid, offset, stability, data },
                index,
            );
            written.reply matches Ok(ReplyView::Write(reply)) ==> {
                let read = step_at(
                    written.server,
                    target,
                    saved,
                    OpView::Read { stateid, offset, count: reply.count },
                    index,
                );
                &&& reply.count <= data.len()
                &&& read.reply matches Ok(ReplyView::Read(found)) && found.data == data.take(
                    reply.count as int,
                )
                &&& forall|other: int|
                    0 <= other < server.objects.len() && other != target
                        ==> #[trigger] written.server.objects[other] == server.objects[other]
            }
        }),
{
    reveal(step_at);
    let written = step_at(
        server,
        target,
        saved,
        OpView::Write { stateid, offset, stability, data },
        index,
    );
    if let Ok(ReplyView::Write(reply)) = written.reply {
        let read = step_at(
            written.server,
            target,
            saved,
            OpView::Read { stateid, offset, count: reply.count },
            index,
        );
        if let Ok(ReplyView::Read(found)) = read.reply {
            assert(found.data =~= data.take(reply.count as int));
        }
    }
}

/// A RENAME that succeeds binds the new name to the very object the old name
/// named, and leaves every object's data and identity as they were.
pub proof fn a_rename_moves_a_name_not_an_object(
    server: ServerModel,
    source: nat,
    target: nat,
    old_name: Seq<u8>,
    new_name: Seq<u8>,
    index: u32,
)
    requires
        server_ok(server),
        source < server.objects.len(),
        target < server.objects.len(),
    ensures
        ({
            let step = rename_step(server, source, target, old_name, new_name, index);
            step.reply is Ok ==> {
                &&& child_of(step.server.objects[target as int].children, new_name) == child_of(
                    server.objects[source as int].children,
                    old_name,
                )
                &&& source != target || old_name != new_name ==> child_of(
                    step.server.objects[source as int].children,
                    old_name,
                ) is None
                &&& forall|i: int|
                    0 <= i < server.objects.len() ==> (#[trigger] step.server.objects[i]).data
                        == server.objects[i].data && step.server.objects[i].identity
                        == server.objects[i].identity
            }
        }),
{
    let from = server.objects[source as int].children;
    let to = server.objects[target as int].children;
    if let Some(moving) = child_of(from, old_name) {
        assert(names_ok(from, server.objects.len()));
        assert(names_ok(to, server.objects.len()));
        unbinding_a_name_affects_only_it(from, old_name, new_name);
        let emptied = without_child(from, old_name);
        if source == target {
            binding_a_name_affects_only_it(emptied, new_name, moving, old_name);
        } else {
            binding_a_name_affects_only_it(to, new_name, moving, old_name);
        }
    }
}

/// A REMOVE that succeeds takes away one name and no object: every object keeps its
/// data and identity, and every other name of the directory is as it was.
pub proof fn a_remove_takes_a_name_not_an_object(
    server: ServerModel,
    target: nat,
    saved: Option<nat>,
    name: Seq<u8>,
    other: Seq<u8>,
    index: u32,
)
    requires
        server_ok(server),
        target < server.objects.len(),
    ensures
        ({
            let step = step_at(server, target, saved, OpView::Remove { name }, index);
            step.reply is Ok ==> {
                let before = server.objects[target as int].children;
                let after = step.server.objects[target as int].children;
                &&& child_of(before, name) is Some
                &&& child_of(after, name) is None
                &&& other != name ==> child_of(after, other) == child_of(before, other)
                &&& step.server.objects.len() == server.objects.len()
                &&& forall|i: int|
                    0 <= i < server.objects.len() ==> (#[trigger] step.server.objects[i]).data
                        == server.objects[i].data && step.server.objects[i].identity
                        == server.objects[i].identity
            }
        }),
{
    reveal(step_at);
    let names = server.objects[target as int].children;
    assert(names_ok(names, server.objects.len()));
    unbinding_a_name_affects_only_it(names, name, other);
}

/// Whether `after` keeps every object of `server`, with its identity, and moved the
/// change attribute of each one that differs.
pub open spec fn accounted(server: ServerModel, after: ServerModel) -> bool {
    &&& after.objects.len() >= server.objects.len()
    &&& forall|i: int|
        0 <= i < server.objects.len() ==> succeeds(
            server.objects[i],
            #[trigger] after.objects[i],
        )
}

/// Whether `now` is `before`, or the same object with its change attribute moved on.
pub open spec fn succeeds(before: ObjectModel, now: ObjectModel) -> bool {
    &&& now != before ==> now.change == wrap_next(before.change)
    &&& now.identity == before.identity
    &&& now.kind == before.kind
    &&& now.create_verifier == before.create_verifier
}

proof fn replaced_and_bumped(server: ServerModel, index: nat, object: ObjectModel)
    requires
        index < server.objects.len(),
        object.change == server.objects[index as int].change,
        object.identity == server.objects[index as int].identity,
        object.kind == server.objects[index as int].kind,
        object.create_verifier == server.objects[index as int].create_verifier,
    ensures
        accounted(server, bumped(with_object(server, index, object), index)),
{
}

proof fn created_and_bumped(
    server: ServerModel,
    parent: nat,
    name: Seq<u8>,
    made: ServerModel,
    index: nat,
)
    requires
        parent < server.objects.len() < made.objects.len(),
        forall|i: int| 0 <= i < server.objects.len() ==> #[trigger] made.objects[i]
            == server.objects[i],
    ensures
        accounted(server, bumped(bound(made, parent, name, index), parent)),
{
}

proof fn rename_is_accounted(
    server: ServerModel,
    source: nat,
    target: nat,
    old_name: Seq<u8>,
    new_name: Seq<u8>,
    index: u32,
)
    requires
        source < server.objects.len(),
        target < server.objects.len(),
    ensures
        accounted(server, rename_step(server, source, target, old_name, new_name, index).server),
{
}

proof fn open_is_accounted(
    server: ServerModel,
    parent: nat,
    name: Seq<u8>,
    how: OpenHow,
    index: u32,
)
    requires
        parent < server.objects.len(),
    ensures
        open_target(server, parent, name, how, index) matches Ok((found, after)) ==> accounted(
            server,
            after,
        ),
{
    if child_of(server.objects[parent as int].children, name) is None {
        match how {
            OpenHow::NoCreate => {},
            OpenHow::Unchecked { mode } => {
                let made = allocated(server, Nfs4Type::Regular, Seq::empty(), mode, None);
                created_and_bumped(server, parent, name, made, server.objects.len());
            },
            OpenHow::Guarded { mode } => {
                let made = allocated(server, Nfs4Type::Regular, Seq::empty(), mode, None);
                created_and_bumped(server, parent, name, made, server.objects.len());
            },
            OpenHow::Exclusive { verifier } => {
                let made = allocated(
                    server,
                    Nfs4Type::Regular,
                    Seq::empty(),
                    0o600,
                    Some(verifier),
                );
                created_and_bumped(server, parent, name, made, server.objects.len());
            },
        }
    }
}

/// Whatever an operation does to an object moves that object's change attribute,
/// and no operation destroys an object or gives it another identity: one whose
/// last name is gone is still there for an open handle.
pub proof fn every_change_moves_the_change_attribute(
    server: ServerModel,
    current: Option<nat>,
    saved: Option<nat>,
    op: OpView,
    index: u32,
)
    requires
        current matches Some(i) ==> i < server.objects.len(),
        saved matches Some(i) ==> i < server.objects.len(),
    ensures
        accounted(server, step(server, current, saved, op, index).server),
{
    reveal(step);
    if let Some(target) = current {
        reveal(step_at);
        let object = server.objects[target as int];
        match op {
            OpView::Write { offset, stability, data, .. } => {
                let accepted = match server.write_cap {
                    None => data.len() as int,
                    Some(cap) => lesser(data.len() as int, cap as int),
                };
                replaced_and_bumped(
                    server,
                    target,
                    ObjectModel {
                        data: write_over(object.data, offset as nat, data.take(accepted)),
                        ..object
                    },
                );
            },
            OpView::SetAttr { attributes, .. } => {
                replaced_and_bumped(server, target, with_values(object, attributes));
            },
            OpView::Remove { name } => {
                replaced_and_bumped(
                    server,
                    target,
                    ObjectModel { children: without_child(object.children, name), ..object },
                );
            },
            OpView::Rename { old_name, new_name } => {
                if let Some(source) = saved {
                    rename_is_accounted(server, source, target, old_name, new_name, index);
                }
            },
            OpView::Create { name, attributes, .. } => {
                let child = server.objects.len();
                let mode = match attributes.mode {
                    Some(mode) => mode,
                    None => 0o700u32,
                };
                let made = allocated(server, Nfs4Type::Directory, Seq::empty(), mode, None);
                let set = with_object(
                    made,
                    child,
                    with_values(made.objects[child as int], attributes),
                );
                created_and_bumped(server, target, name, set, child);
            },
            OpView::Open(args) => {
                if let OpenClaimView::Null { name } = args.claim {
                    open_is_accounted(server, target, name, args.how, index);
                }
            },
            _ => {},
        }
    }
}

/// An exclusive create is recognised when it is replayed: the same verifier opens
/// the same object and changes nothing, and another verifier is refused.
pub proof fn an_exclusive_create_is_replayed_by_its_verifier_only(
    server: ServerModel,
    parent: nat,
    name: Seq<u8>,
    verifier: Verifier,
    other: Verifier,
    index: u32,
)
    requires
        server_ok(server),
        parent < server.objects.len(),
    ensures
        open_target(server, parent, name, OpenHow::Exclusive { verifier }, index) matches Ok((
            found,
            after,
        )) ==> {
            &&& open_target(after, parent, name, OpenHow::Exclusive { verifier }, index) == Ok::<
                (nat, ServerModel),
                ProtocolError,
            >((found, after))
            &&& other != verifier ==> open_target(
                after,
                parent,
                name,
                OpenHow::Exclusive { verifier: other },
                index,
            ) == Err::<(nat, ServerModel), ProtocolError>(
                ProtocolError {
                    status: Nfs4Status(Nfs4Status::EXIST),
                    op: OpCode::Open,
                    index,
                },
            )
        },
{
    let names = server.objects[parent as int].children;
    assert(names_ok(names, server.objects.len()));
    if child_of(names, name) is None {
        binding_a_name_affects_only_it(names, name, server.objects.len(), name);
    }
}

} // verus!
