//! The fake server: objects in memory, and one operation at a time.
use vstd::prelude::*;

use crate::bytes::{
    big_endian, big_endian_round_trip, comes_before, copy_bytes, copy_range, from_big_endian,
    same_bytes,
};
use crate::contract::{opt_view, seq_view};
use crate::error::{Nfs4Status, ProtocolError};
use crate::fake::model::{
    allocated, allocating_keeps_the_server_ok, attributes_of, binding_keeps_the_server_ok, bound,
    bumped, bumping_keeps_the_server_ok, child_of, empty_server, entries_between, first_owner,
    handle_of, index_of_handle, is_full_directory, names_object, names_ok, numbered_stateid,
    open_target, owner_of_stateid, parent_from, rename_step, replacing_keeps_the_server_ok, resized,
    server_ok, size_refused, slot_from, slot_of, step, step_at, time_zero,
    unbinding_keeps_the_server_ok, unbound, values_fit, with_child, with_object, with_values,
    without_child, wrap_next, write_over, Names, ObjectModel, ServerModel, Step,
};
use crate::handle::{next_seqid, ClientId, FileHandle, ObjectIdentity, Stateid};
use crate::transport::{
    same_verifier, values_mask, AttrMask, AttrValues, Attributes, ChangeInfo, CommitReply,
    ComponentName, CreateType, DelegationType, DirCookie, DirEntry, DirPage, DirVerifier, Fsid,
    Nfs4Op, Nfs4Time, Nfs4Type, OpCode, OpReply, OpView, OpenArgs, OpenClaim, OpenHow, OpenReply,
    ReadDirRequest, ReadReply, Stability, Verifier, WriteReply, WriteVerifier,
};

verus! {

/// One name in a directory.
#[derive(Debug)]
pub struct FakeChild {
    pub name: ComponentName,
    pub index: usize,
}

/// The names of a directory.
pub open spec fn names_view(children: Seq<FakeChild>) -> Names {
    Seq::new(children.len(), |i: int| (children[i].name@, children[i].index as nat))
}

/// One in-memory object.
#[derive(Debug)]
pub struct FakeObject {
    pub identity: ObjectIdentity,
    pub kind: Nfs4Type,
    pub data: Vec<u8>,
    pub mode: u32,
    pub children: Vec<FakeChild>,
    pub create_verifier: Option<Verifier>,
    pub change: u64,
    pub owner: Vec<u8>,
    pub owner_group: Vec<u8>,
    pub time_access: Nfs4Time,
    pub time_modify: Nfs4Time,
}

impl View for FakeObject {
    type V = ObjectModel;

    open spec fn view(&self) -> ObjectModel {
        ObjectModel {
            identity: self.identity,
            kind: self.kind,
            data: self.data@,
            mode: self.mode,
            children: names_view(self.children@),
            create_verifier: self.create_verifier,
            change: self.change,
            owner: self.owner@,
            owner_group: self.owner_group@,
            time_access: self.time_access,
            time_modify: self.time_modify,
        }
    }
}

/// Which owner one stateid was granted to.
#[derive(Debug)]
pub struct Grant {
    pub stateid: Stateid,
    pub owner: Vec<u8>,
}

/// The grants in order.
pub open spec fn grants_view(grants: Seq<Grant>) -> Seq<(Stateid, Seq<u8>)> {
    Seq::new(grants.len(), |i: int| (grants[i].stateid, grants[i].owner@))
}

/// The fake server.
#[derive(Debug)]
pub struct FakeServer {
    pub objects: Vec<FakeObject>,
    pub next_fileid: u64,
    pub fsid: Fsid,
    pub verifier: WriteVerifier,
    pub dir_verifier: DirVerifier,
    pub next_client_id: u64,
    pub confirmed_clients: Vec<u64>,
    pub confirmed_owners: Vec<Vec<u8>>,
    pub stateid_owners: Vec<Grant>,
    pub next_stateid: u32,
    pub in_grace: bool,
    pub write_cap: Option<u32>,
}

impl View for FakeServer {
    type V = ServerModel;

    open spec fn view(&self) -> ServerModel {
        ServerModel {
            objects: seq_view(self.objects@),
            next_fileid: self.next_fileid,
            fsid: self.fsid,
            verifier: self.verifier,
            dir_verifier: self.dir_verifier,
            next_client_id: self.next_client_id,
            confirmed_clients: self.confirmed_clients@,
            confirmed_owners: seq_view(self.confirmed_owners@),
            stateid_owners: grants_view(self.stateid_owners@),
            next_stateid: self.next_stateid,
            in_grace: self.in_grace,
            write_cap: self.write_cap,
        }
    }
}

/// An optional object index as a number.
pub open spec fn at(index: Option<usize>) -> Option<nat> {
    match index {
        Some(i) => Some(i as nat),
        None => None,
    }
}

/// Whether an optional object index names an object of `server`.
pub open spec fn names_an_object(server: ServerModel, index: Option<usize>) -> bool {
    index matches Some(i) ==> i < server.objects.len()
}

fn slot(children: &Vec<FakeChild>, name: &[u8]) -> (r: usize)
    ensures
        r == slot_of(names_view(children@), name@),
        r <= children@.len(),
{
    let mut i: usize = 0;
    while i < children.len() && comes_before(children[i].name.as_bytes(), name)
        invariant
            i <= children@.len(),
            slot_of(names_view(children@), name@) == slot_from(
                names_view(children@),
                name@,
                i as int,
            ),
        decreases children@.len() - i,
    {
        i += 1;
    }
    i
}

fn zero_owner() -> (r: Vec<u8>)
    ensures
        r@ == first_owner(),
{
    let r: Vec<u8> = vec![48u8];
    proof {
        assert(r@ =~= first_owner());
    }
    r
}

fn epoch_time() -> (r: Nfs4Time)
    ensures
        r == time_zero(),
{
    Nfs4Time { seconds: 0, nanoseconds: 0 }
}

/// The filehandle of object `index`.
pub(crate) fn handle_for(index: usize) -> (r: FileHandle)
    ensures
        r@ == handle_of(index as nat),
{
    proof {
        big_endian_round_trip(index as nat, 8);
    }
    FileHandle::adopt(big_endian(index as u64, 8))
}

/// The object a filehandle names, where it names one below `count`.
pub(crate) fn index_below(handle: &FileHandle, count: usize) -> (r: Option<usize>)
    ensures
        r == (match index_of_handle(handle@) {
            Some(index) => if index < count {
                Some(index as usize)
            } else {
                None
            },
            None => None,
        }),
{
    if handle.len() != 8 {
        return None;
    }
    let value: u64 = from_big_endian(handle.as_bytes());
    if value < count as u64 {
        Some(value as usize)
    } else {
        None
    }
}

/// `data` with `bytes` laid over it from `start`.
fn overlay(data: &Vec<u8>, start: usize, bytes: &[u8]) -> (r: Vec<u8>)
    requires
        start + bytes@.len() <= usize::MAX,
    ensures
        r@ == write_over(data@, start as nat, bytes@),
{
    let end: usize = start + bytes.len();
    let total: usize = if data.len() >= end {
        data.len()
    } else {
        end
    };
    let mut r: Vec<u8> = Vec::new();
    let mut i: usize = 0;
    while i < total
        invariant
            i <= total,
            end == start + bytes@.len(),
            total == write_over(data@, start as nat, bytes@).len(),
            r@ == write_over(data@, start as nat, bytes@).take(i as int),
        decreases total - i,
    {
        let b: u8 = if start <= i && i < end {
            bytes[i - start]
        } else if i < data.len() {
            data[i]
        } else {
            0
        };
        r.push(b);
        proof {
            assert(write_over(data@, start as nat, bytes@).take(i + 1) =~= write_over(
                data@,
                start as nat,
                bytes@,
            ).take(i as int).push(b));
        }
        i += 1;
    }
    proof {
        assert(write_over(data@, start as nat, bytes@).take(total as int) =~= write_over(
            data@,
            start as nat,
            bytes@,
        ));
    }
    r
}

/// `data` cut or zero-filled to `size`.
fn resize_to(data: &Vec<u8>, size: usize) -> (r: Vec<u8>)
    ensures
        r@ == resized(data@, size as nat),
{
    let mut r: Vec<u8> = Vec::new();
    let mut i: usize = 0;
    while i < size
        invariant
            i <= size,
            r@ == resized(data@, size as nat).take(i as int),
        decreases size - i,
    {
        let b: u8 = if i < data.len() {
            data[i]
        } else {
            0
        };
        r.push(b);
        proof {
            assert(resized(data@, size as nat).take(i + 1) =~= resized(data@, size as nat).take(
                i as int,
            ).push(b));
        }
        i += 1;
    }
    proof {
        assert(resized(data@, size as nat).take(size as int) =~= resized(data@, size as nat));
    }
    r
}

fn refusal(status: u32, op: OpCode, index: u32) -> (r: ProtocolError)
    ensures
        r == (ProtocolError { status: Nfs4Status(status), op, index }),
{
    ProtocolError { status: Nfs4Status(status), op, index }
}

impl FakeServer {
    /// The empty server.
    pub(crate) fn new() -> (r: Self)
        ensures
            r@ == empty_server(),
            server_ok(r@),
    {
        let fsid = Fsid { major: 0x756d_6272, minor: 1 };
        let root = FakeObject {
            identity: ObjectIdentity { fsid, fileid: 1 },
            kind: Nfs4Type::Directory,
            data: Vec::new(),
            mode: 0o700,
            children: Vec::new(),
            create_verifier: None,
            change: 1,
            owner: zero_owner(),
            owner_group: zero_owner(),
            time_access: epoch_time(),
            time_modify: epoch_time(),
        };
        let r = FakeServer {
            objects: vec![root],
            next_fileid: 2,
            fsid,
            verifier: WriteVerifier(
                [0xA1u8, 0xA1u8, 0xA1u8, 0xA1u8, 0xA1u8, 0xA1u8, 0xA1u8, 0xA1u8],
            ),
            dir_verifier: DirVerifier(
                [0xD1u8, 0xD1u8, 0xD1u8, 0xD1u8, 0xD1u8, 0xD1u8, 0xD1u8, 0xD1u8],
            ),
            next_client_id: 100,
            confirmed_clients: Vec::new(),
            confirmed_owners: Vec::new(),
            stateid_owners: Vec::new(),
            next_stateid: 1,
            in_grace: false,
            write_cap: None,
        };
        proof {
            let first = empty_server().objects[0];
            assert(r.objects@[0]@ =~= first);
            assert(r@ =~= empty_server());
        }
        r
    }

    pub(crate) proof fn object_at(&self, index: int)
        requires
            0 <= index < self.objects@.len(),
        ensures
            self@.objects.len() == self.objects@.len(),
            self@.objects[index] == self.objects@[index]@,
    {
    }

    /// The object `name` names in `parent`.
    pub(crate) fn child(&self, parent: usize, name: &[u8]) -> (r: Option<usize>)
        requires
            server_ok(self@),
            parent < self@.objects.len(),
        ensures
            at(r) == child_of(self@.objects[parent as int].children, name@),
            names_an_object(self@, r),
    {
        proof {
            assert(names_ok(self@.objects[parent as int].children, self@.objects.len()));
        }
        let children = &self.objects[parent].children;
        let slot: usize = slot(children, name);
        proof {
            if slot < children@.len() {
                assert(names_view(children@)[slot as int] == (
                    children@[slot as int].name@,
                    children@[slot as int].index as nat,
                ));
            }
        }
        if slot < children.len() && same_bytes(children[slot].name.as_bytes(), name) {
            Some(children[slot].index)
        } else {
            None
        }
    }

    /// Bind `name` in `parent`.
    pub(crate) fn bind(&mut self, parent: usize, name: ComponentName, index: usize)
        requires
            server_ok(old(self)@),
            parent < old(self)@.objects.len(),
            index < old(self)@.objects.len(),
        ensures
            final(self)@ == bound(old(self)@, parent as nat, name@, index as nat),
            server_ok(final(self)@),
    {
        proof {
            binding_keeps_the_server_ok(self@, parent as nat, name@, index as nat);
        }
        let ghost before = self.objects@[parent as int]@;
        let ghost bytes = name@;
        let found = self.child(parent, name.as_bytes());
        let slot: usize = slot(&self.objects[parent].children, name.as_bytes());
        let object = &mut self.objects[parent];
        if found.is_some() {
            object.children[slot] = FakeChild { name, index };
        } else {
            object.children.insert(slot, FakeChild { name, index });
        }
        proof {
            let after = self.objects@[parent as int]@;
            assert(after.children =~= with_child(before.children, bytes, index as nat));
            assert(after =~= ObjectModel {
                children: with_child(before.children, bytes, index as nat),
                ..before
            });
            assert(self@.objects =~= old(self)@.objects.update(parent as int, after));
            assert(self@ =~= bound(old(self)@, parent as nat, bytes, index as nat));
        }
    }

    /// Unbind `name` in `parent`.
    pub(crate) fn unbind(&mut self, parent: usize, name: &[u8])
        requires
            server_ok(old(self)@),
            parent < old(self)@.objects.len(),
        ensures
            final(self)@ == unbound(old(self)@, parent as nat, name@),
            server_ok(final(self)@),
    {
        proof {
            unbinding_keeps_the_server_ok(self@, parent as nat, name@);
        }
        let ghost before = self.objects@[parent as int]@;
        let found = self.child(parent, name);
        let slot: usize = slot(&self.objects[parent].children, name);
        if found.is_some() {
            let object = &mut self.objects[parent];
            let _gone = object.children.remove(slot);
        }
        proof {
            let after = self.objects@[parent as int]@;
            assert(after.children =~= without_child(before.children, name@));
            assert(after =~= ObjectModel {
                children: without_child(before.children, name@),
                ..before
            });
            assert(self@.objects =~= old(self)@.objects.update(parent as int, after));
            assert(self@ =~= unbound(old(self)@, parent as nat, name@));
        }
    }

    /// Move an object's change attribute on and report the new value.
    pub(crate) fn bump(&mut self, index: usize) -> (r: u64)
        requires
            server_ok(old(self)@),
            index < old(self)@.objects.len(),
        ensures
            final(self)@ == bumped(old(self)@, index as nat),
            server_ok(final(self)@),
            r == wrap_next(old(self)@.objects[index as int].change),
    {
        proof {
            bumping_keeps_the_server_ok(self@, index as nat);
        }
        let ghost before = self.objects@[index as int]@;
        let next: u64 = self.objects[index].change.wrapping_add(1);
        let object = &mut self.objects[index];
        object.change = next;
        proof {
            let after = self.objects@[index as int]@;
            assert(after =~= ObjectModel { change: next, ..before });
            assert(self@.objects =~= old(self)@.objects.update(index as int, after));
            assert(self@ =~= bumped(old(self)@, index as nat));
        }
        next
    }

    /// Make an object that no name names yet.
    pub(crate) fn allocate(
        &mut self,
        kind: Nfs4Type,
        data: Vec<u8>,
        mode: u32,
        create_verifier: Option<Verifier>,
    ) -> (r: usize)
        requires
            server_ok(old(self)@),
        ensures
            final(self)@ == allocated(old(self)@, kind, data@, mode, create_verifier),
            server_ok(final(self)@),
            r == old(self)@.objects.len(),
    {
        proof {
            allocating_keeps_the_server_ok(self@, kind, data@, mode, create_verifier);
        }
        let ghost bytes = data@;
        let fileid: u64 = self.next_fileid;
        self.next_fileid = fileid.wrapping_add(1);
        let index: usize = self.objects.len();
        self.objects.push(
            FakeObject {
                identity: ObjectIdentity { fsid: self.fsid, fileid },
                kind,
                data,
                mode,
                children: Vec::new(),
                create_verifier,
                change: 1,
                owner: zero_owner(),
                owner_group: zero_owner(),
                time_access: epoch_time(),
                time_modify: epoch_time(),
            },
        );
        proof {
            let expected = allocated(old(self)@, kind, bytes, mode, create_verifier);
            assert(self.objects@[index as int]@ =~= expected.objects[index as int]);
            assert(self@.objects =~= expected.objects);
            assert(self@ =~= expected);
        }
        index
    }

    /// The attributes of one object that `mask` asks for.
    pub(crate) fn attributes(&self, index: usize, mask: AttrMask) -> (r: Attributes)
        requires
            index < self@.objects.len(),
        ensures
            r@ == attributes_of(self@.objects[index as int], mask),
    {
        let object = &self.objects[index];
        Attributes {
            returned: mask,
            file_type: if mask.contains(AttrMask(AttrMask::TYPE)) {
                Some(object.kind)
            } else {
                None
            },
            change: if mask.contains(AttrMask(AttrMask::CHANGE)) {
                Some(object.change)
            } else {
                None
            },
            size: if mask.contains(AttrMask(AttrMask::SIZE)) {
                Some(object.data.len() as u64)
            } else {
                None
            },
            fsid: if mask.contains(AttrMask(AttrMask::FSID)) {
                Some(object.identity.fsid)
            } else {
                None
            },
            fileid: if mask.contains(AttrMask(AttrMask::FILEID)) {
                Some(object.identity.fileid)
            } else {
                None
            },
            numlinks: if mask.contains(AttrMask(AttrMask::NUMLINKS)) {
                Some(1)
            } else {
                None
            },
            mode: if mask.contains(AttrMask(AttrMask::MODE)) {
                Some(object.mode)
            } else {
                None
            },
            owner: if mask.contains(AttrMask(AttrMask::OWNER)) {
                Some(copy_bytes(object.owner.as_slice()))
            } else {
                None
            },
            owner_group: if mask.contains(AttrMask(AttrMask::OWNER_GROUP)) {
                Some(copy_bytes(object.owner_group.as_slice()))
            } else {
                None
            },
            time_modify: if mask.contains(AttrMask(AttrMask::TIME_MODIFY)) {
                Some(object.time_modify)
            } else {
                None
            },
            lease_time: if mask.contains(AttrMask(AttrMask::LEASE_TIME)) {
                Some(90)
            } else {
                None
            },
            rdattr_error: None,
        }
    }

    /// Apply attribute values to one object, reporting the bits that were set.
    pub(crate) fn set_attributes(&mut self, index: usize, values: &AttrValues) -> (r: Result<
        AttrMask,
        ProtocolError,
    >)
        requires
            server_ok(old(self)@),
            index < old(self)@.objects.len(),
        ensures
            server_ok(final(self)@),
            if values_fit(values@) {
                r == Ok::<AttrMask, ProtocolError>(AttrMask(values_mask(values@))) && final(self)@
                    == with_object(
                    old(self)@,
                    index as nat,
                    with_values(old(self)@.objects[index as int], values@),
                )
            } else {
                r == Err::<AttrMask, ProtocolError>(size_refused()) && final(self)@ == old(self)@
            },
    {
        let ghost before = self.objects@[index as int]@;
        proof {
            assert(names_ok(self@.objects[index as int].children, self@.objects.len()));
            replacing_keeps_the_server_ok(
                self@,
                index as nat,
                with_values(self@.objects[index as int], values@),
            );
        }
        if let Some(size) = values.size {
            if size > usize::MAX as u64 {
                return Err(refusal(Nfs4Status::INVAL, OpCode::SetAttr, 0));
            }
            let data = resize_to(&self.objects[index].data, size as usize);
            let object = &mut self.objects[index];
            object.data = data;
        }
        let object = &mut self.objects[index];
        if let Some(mode) = values.mode {
            object.mode = mode;
        }
        if let Some(owner) = &values.owner {
            object.owner = copy_bytes(owner.as_slice());
        }
        if let Some(group) = &values.owner_group {
            object.owner_group = copy_bytes(group.as_slice());
        }
        if let Some(time) = values.time_access {
            object.time_access = time;
        }
        if let Some(time) = values.time_modify {
            object.time_modify = time;
        }
        proof {
            let after = self.objects@[index as int]@;
            assert(after =~= with_values(before, values@));
            assert(self@.objects =~= old(self)@.objects.update(index as int, after));
            assert(self@ =~= with_object(old(self)@, index as nat, after));
        }
        Ok(values.mask())
    }

    /// Open `name` in `parent`, creating it where `how` says so.
    pub(crate) fn open_by_name(
        &mut self,
        parent: usize,
        name: &ComponentName,
        how: &OpenHow,
        index: u32,
    ) -> (r: Result<usize, ProtocolError>)
        requires
            server_ok(old(self)@),
            parent < old(self)@.objects.len(),
        ensures
            server_ok(final(self)@),
            match open_target(old(self)@, parent as nat, name@, *how, index) {
                Ok((found, after)) => r matches Ok(i) && i == found && final(self)@ == after && i
                    < after.objects.len(),
                Err(error) => r == Err::<usize, ProtocolError>(error) && final(self)@ == old(
                    self,
                )@,
            },
    {
        let existing = self.child(parent, name.as_bytes());
        let exists = refusal(Nfs4Status::EXIST, OpCode::Open, index);
        match existing {
            Some(found) => match how {
                OpenHow::NoCreate | OpenHow::Unchecked { .. } => Ok(found),
                OpenHow::Guarded { .. } => Err(exists),
                OpenHow::Exclusive { verifier } => {
                    // Verifier reuse is a recognised replay of the same create.
                    let mine = match &self.objects[found].create_verifier {
                        Some(made) => same_verifier(&made.0, &verifier.0),
                        None => false,
                    };
                    proof {
                        self.object_at(found as int);
                    }
                    if mine {
                        Ok(found)
                    } else {
                        Err(exists)
                    }
                },
            },
            None => {
                let (mode, verifier): (u32, Option<Verifier>) = match how {
                    OpenHow::NoCreate => {
                        return Err(refusal(Nfs4Status::NOENT, OpCode::Open, 0));
                    },
                    OpenHow::Unchecked { mode } => (*mode, None),
                    OpenHow::Guarded { mode } => (*mode, None),
                    OpenHow::Exclusive { verifier } => (0o600, Some(*verifier)),
                };
                let data: Vec<u8> = Vec::new();
                proof {
                    assert(data@ =~= Seq::<u8>::empty());
                }
                let made: usize = self.allocate(Nfs4Type::Regular, data, mode, verifier);
                self.bind(parent, name.clone(), made);
                self.bump(parent);
                Ok(made)
            },
        }
    }

    fn is_full(&self, index: usize) -> (r: bool)
        requires
            index < self@.objects.len(),
        ensures
            r == is_full_directory(self@, index as nat),
    {
        self.objects[index].kind == Nfs4Type::Directory && self.objects[index].children.len() > 0
    }

    fn parent_of(&self, target: usize) -> (r: usize)
        requires
            server_ok(self@),
        ensures
            r == parent_from(self@.objects, target as nat, 0),
            r < self@.objects.len(),
    {
        let mut i: usize = 0;
        while i < self.objects.len()
            invariant
                i <= self.objects@.len(),
                self@.objects.len() >= 1,
                parent_from(self@.objects, target as nat, 0) == parent_from(
                    self@.objects,
                    target as nat,
                    i as int,
                ),
            decreases self.objects@.len() - i,
        {
            let children = &self.objects[i].children;
            let ghost names = self@.objects[i as int].children;
            let mut k: usize = 0;
            while k < children.len()
                invariant
                    k <= children@.len(),
                    i < self@.objects.len(),
                    children@ == self.objects@[i as int].children@,
                    names == names_view(children@),
                    names == self@.objects[i as int].children,
                    parent_from(self@.objects, target as nat, 0) == parent_from(
                        self@.objects,
                        target as nat,
                        i as int,
                    ),
                    forall|j: int| 0 <= j < k ==> (#[trigger] names[j]).1 != target as nat,
                decreases children@.len() - k,
            {
                if children[k].index == target {
                    proof {
                        assert(names[k as int].1 == target as nat);
                        assert(names_object(names, target as nat));
                    }
                    return i;
                }
                k += 1;
            }
            i += 1;
        }
        0
    }

    fn knows_client(&self, client: u64) -> (r: bool)
        ensures
            r == self@.confirmed_clients.contains(client),
    {
        let mut i: usize = 0;
        while i < self.confirmed_clients.len()
            invariant
                i <= self.confirmed_clients@.len(),
                forall|j: int| 0 <= j < i ==> self.confirmed_clients@[j] != client,
            decreases self.confirmed_clients@.len() - i,
        {
            if self.confirmed_clients[i] == client {
                return true;
            }
            i += 1;
        }
        false
    }

    fn knows_owner(&self, owner: &[u8]) -> (r: bool)
        ensures
            r == self@.confirmed_owners.contains(owner@),
    {
        let mut i: usize = 0;
        while i < self.confirmed_owners.len()
            invariant
                i <= self.confirmed_owners@.len(),
                forall|j: int| 0 <= j < i ==> #[trigger] self@.confirmed_owners[j] != owner@,
            decreases self.confirmed_owners@.len() - i,
        {
            if same_bytes(self.confirmed_owners[i].as_slice(), owner) {
                proof {
                    assert(self@.confirmed_owners[i as int] == owner@);
                }
                return true;
            }
            proof {
                assert(self@.confirmed_owners[i as int] == self.confirmed_owners@[i as int]@);
            }
            i += 1;
        }
        false
    }

    fn granted_owner(&self, stateid: &Stateid) -> (r: Option<Vec<u8>>)
        ensures
            opt_view(r) == owner_of_stateid(self@.stateid_owners, *stateid),
    {
        let mut i: usize = self.stateid_owners.len();
        proof {
            assert(self@.stateid_owners.take(i as int) =~= self@.stateid_owners);
        }
        while i > 0
            invariant
                i <= self.stateid_owners@.len(),
                owner_of_stateid(self@.stateid_owners, *stateid) == owner_of_stateid(
                    self@.stateid_owners.take(i as int),
                    *stateid,
                ),
            decreases i,
        {
            let grant = &self.stateid_owners[i - 1];
            proof {
                let taken = self@.stateid_owners.take(i as int);
                assert(taken.drop_last() =~= self@.stateid_owners.take(i - 1));
                assert(taken.last() == (grant.stateid, grant.owner@));
            }
            if same_other(&grant.stateid.other, &stateid.other) {
                return Some(copy_bytes(grant.owner.as_slice()));
            }
            i -= 1;
        }
        None
    }
}

fn same_other(a: &[u8; 12], b: &[u8; 12]) -> (r: bool)
    ensures
        r == (a == b),
{
    let same = same_bytes(a, b);
    proof {
        if same {
            assert(a =~= b);
        }
    }
    same
}

fn stateid_numbered(n: u32) -> (r: Stateid)
    ensures
        r == numbered_stateid(n),
{
    Stateid {
        seqid: n,
        other: [
            (n / 16777216) as u8,
            (n / 65536 % 256) as u8,
            (n / 256 % 256) as u8,
            (n % 256) as u8,
            0u8,
            0u8,
            0u8,
            0u8,
            0u8,
            0u8,
            0u8,
            0u8,
        ],
    }
}

/// What one operation yields, and the filehandles it leaves.
#[derive(Debug)]
pub struct Applied {
    pub reply: Result<OpReply, ProtocolError>,
    pub current: Option<usize>,
    pub saved: Option<usize>,
}

/// Whether an executed operation matches its model.
pub open spec fn matches_step(applied: Applied, server: ServerModel, expected: Step) -> bool {
    &&& (match expected.reply {
        Ok(reply) => applied.reply is Ok && applied.reply->Ok_0@ == reply,
        Err(error) => applied.reply == Err::<OpReply, ProtocolError>(error),
    })
    &&& server == expected.server
    &&& at(applied.current) == expected.current
    &&& at(applied.saved) == expected.saved
    &&& server_ok(server)
    &&& names_an_object(server, applied.current)
    &&& names_an_object(server, applied.saved)
}

fn stopped(
    status: u32,
    op: OpCode,
    index: u32,
    current: Option<usize>,
    saved: Option<usize>,
) -> (r: Applied)
    ensures
        r == (Applied {
            reply: Err(ProtocolError { status: Nfs4Status(status), op, index }),
            current,
            saved,
        }),
{
    Applied { reply: Err(refusal(status, op, index)), current, saved }
}

fn answered(reply: OpReply, current: Option<usize>, saved: Option<usize>) -> (r: Applied)
    ensures
        r == (Applied { reply: Ok(reply), current, saved }),
{
    Applied { reply: Ok(reply), current, saved }
}

impl FakeServer {
    /// Apply one operation.
    pub(crate) fn apply(
        &mut self,
        op: &Nfs4Op,
        current: Option<usize>,
        saved: Option<usize>,
        index: u32,
    ) -> (r: Applied)
        requires
            server_ok(old(self)@),
            names_an_object(old(self)@, current),
            names_an_object(old(self)@, saved),
        ensures
            matches_step(r, final(self)@, step(old(self)@, at(current), at(saved), op@, index)),
    {
        proof {
            reveal(step);
        }
        match op {
            Nfs4Op::PutRootFh => answered(OpReply::PutRootFh, Some(0), saved),
            Nfs4Op::PutFh(handle) => match index_below(handle, self.objects.len()) {
                Some(target) => answered(OpReply::PutFh, Some(target), saved),
                None => stopped(Nfs4Status::BADHANDLE, OpCode::PutFh, index, current, saved),
            },
            Nfs4Op::Renew(client_id) => if self.knows_client(client_id.0) {
                answered(OpReply::Renew, current, saved)
            } else {
                stopped(Nfs4Status::STALE_CLIENTID, OpCode::Renew, index, current, saved)
            },
            Nfs4Op::SetClientId { .. } => {
                let client_id = ClientId(self.next_client_id);
                self.next_client_id = self.next_client_id.wrapping_add(1);
                answered(
                    OpReply::SetClientId {
                        client_id,
                        confirm: Verifier(
                            [0xC0u8, 0xC0u8, 0xC0u8, 0xC0u8, 0xC0u8, 0xC0u8, 0xC0u8, 0xC0u8],
                        ),
                    },
                    current,
                    saved,
                )
            },
            Nfs4Op::SetClientIdConfirm { client_id, .. } => {
                self.confirmed_clients.push(client_id.0);
                answered(OpReply::SetClientIdConfirm, current, saved)
            },
            other => match current {
                None => stopped(
                    Nfs4Status::NOFILEHANDLE,
                    other.opcode(),
                    index,
                    current,
                    saved,
                ),
                Some(target) => self.apply_at(other, target, saved, index),
            },
        }
    }

    /// Apply one operation where the current filehandle names object `target`.
    fn apply_at(&mut self, op: &Nfs4Op, target: usize, saved: Option<usize>, index: u32) -> (r:
        Applied)
        requires
            server_ok(old(self)@),
            target < old(self)@.objects.len(),
            names_an_object(old(self)@, saved),
        ensures
            matches_step(r, final(self)@, step_at(old(self)@, target as nat, at(saved), op@, index)),
    {
        proof {
            reveal(step_at);
        }
        let here = Some(target);
        proof {
            self.object_at(target as int);
        }
        match op {
            Nfs4Op::GetFh => answered(OpReply::GetFh(handle_for(target)), here, saved),
            Nfs4Op::GetAttr(mask) => answered(
                OpReply::GetAttr(self.attributes(target, *mask)),
                here,
                saved,
            ),
            Nfs4Op::Lookup(name) => {
                if self.objects[target].kind != Nfs4Type::Directory {
                    return stopped(Nfs4Status::NOTDIR, OpCode::Lookup, index, here, saved);
                }
                match self.child(target, name.as_bytes()) {
                    None => stopped(Nfs4Status::NOENT, OpCode::Lookup, index, here, saved),
                    Some(child) => answered(OpReply::Lookup, Some(child), saved),
                }
            },
            Nfs4Op::LookupParent => {
                let parent: usize = self.parent_of(target);
                answered(OpReply::LookupParent, Some(parent), saved)
            },
            Nfs4Op::ReadDir(request) => self.apply_readdir(request, target, saved, index),
            Nfs4Op::Read { stateid, offset, count } => {
                if self.objects[target].kind == Nfs4Type::Directory {
                    return stopped(Nfs4Status::ISDIR, OpCode::Read, index, here, saved);
                }
                let data = &self.objects[target].data;
                let start: usize = if *offset <= data.len() as u64 {
                    *offset as usize
                } else {
                    data.len()
                };
                let end: usize = if data.len() - start <= *count as usize {
                    data.len()
                } else {
                    start + *count as usize
                };
                let read = ReadReply {
                    data: copy_range(data.as_slice(), start, end),
                    eof: end == data.len(),
                };
                answered(OpReply::Read(read), here, saved)
            },
            Nfs4Op::Write { stateid, offset, stability, data } => self.apply_write(
                *stateid,
                *offset,
                *stability,
                data,
                target,
                saved,
                index,
            ),
            Nfs4Op::Commit { .. } => answered(
                OpReply::Commit(CommitReply { verifier: self.verifier }),
                here,
                saved,
            ),
            Nfs4Op::Open(args) => self.apply_open(args, target, saved, index),
            Nfs4Op::OpenConfirm { stateid, .. } => match self.granted_owner(stateid) {
                None => stopped(Nfs4Status::BAD_STATEID, OpCode::OpenConfirm, index, here, saved),
                Some(owner) => {
                    let ghost bytes = owner@;
                    self.confirmed_owners.push(owner);
                    proof {
                        assert(self@.confirmed_owners =~= old(self)@.confirmed_owners.push(bytes));
                    }
                    answered(OpReply::OpenConfirm(*stateid), here, saved)
                },
            },
            Nfs4Op::Close { stateid, .. } => answered(OpReply::Close(*stateid), here, saved),
            Nfs4Op::Lock(_) => {
                let stateid = stateid_numbered(self.next_stateid);
                self.next_stateid = self.next_stateid.wrapping_add(1);
                answered(OpReply::Lock(stateid), here, saved)
            },
            Nfs4Op::Locku(args) => answered(OpReply::Locku(args.lock_stateid), here, saved),
            Nfs4Op::SaveFh => answered(OpReply::SaveFh, here, here),
            Nfs4Op::Remove { name } => {
                if self.objects[target].kind != Nfs4Type::Directory {
                    return stopped(Nfs4Status::NOTDIR, OpCode::Remove, index, here, saved);
                }
                match self.child(target, name.as_bytes()) {
                    None => stopped(Nfs4Status::NOENT, OpCode::Remove, index, here, saved),
                    Some(victim) => {
                        // A non-empty directory is never a silent recursive delete.
                        if self.is_full(victim) {
                            return stopped(
                                Nfs4Status::NOTEMPTY,
                                OpCode::Remove,
                                index,
                                here,
                                saved,
                            );
                        }
                        // The object itself stays: an open handle keeps addressing
                        // it after its last name is gone.
                        let before: u64 = self.objects[target].change;
                        self.unbind(target, name.as_bytes());
                        let after: u64 = self.bump(target);
                        answered(
                            OpReply::Remove(ChangeInfo { atomic: true, before, after }),
                            here,
                            saved,
                        )
                    },
                }
            },
            Nfs4Op::Rename { old_name, new_name } => match saved {
                None => stopped(Nfs4Status::NOFILEHANDLE, OpCode::Rename, index, here, saved),
                Some(source) => self.apply_rename(source, target, old_name, new_name, index),
            },
            Nfs4Op::Create { object_type, name, attributes } => self.apply_create(
                name,
                attributes,
                target,
                saved,
                index,
                *object_type,
            ),
            Nfs4Op::SetAttr { stateid, attributes } => {
                // Setting a size needs an open stateid, which the anonymous one is
                // not.
                if attributes.size.is_some() && stateid.is_anonymous() && self.objects[target].kind
                    == Nfs4Type::Regular {
                    return stopped(Nfs4Status::BAD_STATEID, OpCode::SetAttr, index, here, saved);
                }
                if self.objects[target].kind == Nfs4Type::Directory && attributes.size.is_some() {
                    return stopped(Nfs4Status::ISDIR, OpCode::SetAttr, index, here, saved);
                }
                match self.set_attributes(target, attributes) {
                    Err(error) => Applied { reply: Err(error), current: here, saved },
                    Ok(attrset) => {
                        let _after: u64 = self.bump(target);
                        answered(OpReply::SetAttr(attrset), here, saved)
                    },
                }
            },
            other => stopped(Nfs4Status::NOTSUPP, other.opcode(), index, here, saved),
        }
    }

    fn apply_readdir(
        &mut self,
        request: &ReadDirRequest,
        target: usize,
        saved: Option<usize>,
        index: u32,
    ) -> (r: Applied)
        requires
            server_ok(old(self)@),
            target < old(self)@.objects.len(),
            names_an_object(old(self)@, saved),
        ensures
            matches_step(
                r,
                final(self)@,
                step_at(old(self)@, target as nat, at(saved), OpView::ReadDir(*request), index),
            ),
    {
        proof {
            reveal(step_at);
        }
        let here = Some(target);
        proof {
            self.object_at(target as int);
            assert(names_ok(self@.objects[target as int].children, self@.objects.len()));
        }
        if self.objects[target].kind != Nfs4Type::Directory {
            return stopped(Nfs4Status::NOTDIR, OpCode::ReadDir, index, here, saved);
        }
        if request.cookie.0 != 0 && !same_verifier(&request.verifier.0, &self.dir_verifier.0) {
            return stopped(Nfs4Status::BAD_COOKIE, OpCode::ReadDir, index, here, saved);
        }
        let children = &self.objects[target].children;
        let ghost names = self@.objects[target as int].children;
        if request.cookie.0 > children.len() as u64 {
            return stopped(Nfs4Status::BAD_COOKIE, OpCode::ReadDir, index, here, saved);
        }
        let start: usize = request.cookie.0 as usize;
        let room: usize = if request.max_count / 128 >= 1 {
            (request.max_count / 128) as usize
        } else {
            1
        };
        let end: usize = if children.len() - start <= room {
            children.len()
        } else {
            start + room
        };
        let mut entries: Vec<DirEntry> = Vec::new();
        let mut i: usize = start;
        while i < end
            invariant
                start <= i <= end <= children@.len(),
                target < self@.objects.len(),
                children@ == self.objects@[target as int].children@,
                names == names_view(children@),
                names_ok(names, self@.objects.len()),
                seq_view(entries@) == entries_between(
                    self@,
                    names,
                    start as int,
                    i as int,
                    request.attrs,
                ),
            decreases end - i,
        {
            let child = &children[i];
            proof {
                assert(names[i as int] == (child.name@, child.index as nat));
            }
            let entry = DirEntry {
                cookie: DirCookie(i as u64 + 1),
                name: child.name.clone(),
                attributes: self.attributes(child.index, request.attrs),
            };
            let ghost last = entry@;
            let ghost earlier = entries_between(
                self@,
                names,
                start as int,
                i as int,
                request.attrs,
            );
            entries.push(entry);
            proof {
                let whole = entries_between(self@, names, start as int, i + 1, request.attrs);
                assert(whole[i - start] == last);
                assert(whole =~= earlier.push(last));
                assert(seq_view(entries@) =~= earlier.push(last));
            }
            i += 1;
        }
        let page = DirPage {
            verifier: self.dir_verifier,
            entries,
            eof: end == children.len(),
        };
        answered(OpReply::ReadDir(page), here, saved)
    }

    fn apply_write(
        &mut self,
        stateid: Stateid,
        offset: u64,
        stability: Stability,
        data: &Vec<u8>,
        target: usize,
        saved: Option<usize>,
        index: u32,
    ) -> (r: Applied)
        requires
            server_ok(old(self)@),
            target < old(self)@.objects.len(),
            names_an_object(old(self)@, saved),
        ensures
            matches_step(
                r,
                final(self)@,
                step_at(
                    old(self)@,
                    target as nat,
                    at(saved),
                    OpView::Write { stateid, offset, stability, data: data@ },
                    index,
                ),
            ),
    {
        proof {
            reveal(step_at);
        }
        let here = Some(target);
        proof {
            self.object_at(target as int);
            assert(names_ok(self@.objects[target as int].children, self@.objects.len()));
        }
        if self.objects[target].kind == Nfs4Type::Directory {
            return stopped(Nfs4Status::ISDIR, OpCode::Write, index, here, saved);
        }
        let accepted: usize = match self.write_cap {
            None => data.len(),
            Some(cap) => if data.len() <= cap as usize {
                data.len()
            } else {
                cap as usize
            },
        };
        if offset > (usize::MAX - accepted) as u64 {
            return stopped(Nfs4Status::INVAL, OpCode::Write, index, here, saved);
        }
        let start: usize = offset as usize;
        let ghost before = self.objects@[target as int]@;
        let taken = copy_range(data.as_slice(), 0, accepted);
        let written = overlay(&self.objects[target].data, start, taken.as_slice());
        let ghost bytes = written@;
        let object = &mut self.objects[target];
        object.data = written;
        proof {
            assert(taken@ =~= data@.take(accepted as int));
            let after = self.objects@[target as int]@;
            assert(after =~= ObjectModel { data: bytes, ..before });
            assert(self@.objects =~= old(self)@.objects.update(target as int, after));
            assert(self@ =~= with_object(old(self)@, target as nat, after));
            replacing_keeps_the_server_ok(old(self)@, target as nat, after);
        }
        let _after: u64 = self.bump(target);
        let write = WriteReply {
            count: accepted as u32,
            committed: stability,
            verifier: self.verifier,
        };
        answered(OpReply::Write(write), here, saved)
    }

    fn apply_open(
        &mut self,
        args: &OpenArgs,
        target: usize,
        saved: Option<usize>,
        index: u32,
    ) -> (r: Applied)
        requires
            server_ok(old(self)@),
            target < old(self)@.objects.len(),
            names_an_object(old(self)@, saved),
        ensures
            matches_step(
                r,
                final(self)@,
                step_at(old(self)@, target as nat, at(saved), OpView::Open(args@), index),
            ),
    {
        proof {
            reveal(step_at);
        }
        let here = Some(target);
        let opened = match &args.claim {
            OpenClaim::Previous { .. } => {
                if !self.in_grace {
                    return stopped(Nfs4Status::NO_GRACE, OpCode::Open, index, here, saved);
                }
                target
            },
            OpenClaim::Null { name } => match self.open_by_name(target, name, &args.how, index) {
                Ok(found) => found,
                Err(error) => {
                    return Applied { reply: Err(error), current: here, saved };
                },
            },
        };
        let ghost after = self@;
        let owner = copy_bytes(args.owner.as_bytes());
        let ghost bytes = owner@;
        let confirm_required = !self.knows_owner(owner.as_slice());
        let stateid = stateid_numbered(self.next_stateid);
        self.next_stateid = self.next_stateid.wrapping_add(1);
        self.stateid_owners.push(Grant { stateid, owner });
        proof {
            assert(self@.stateid_owners =~= after.stateid_owners.push((stateid, bytes)));
            assert(self@ =~= ServerModel {
                next_stateid: next_seqid(after.next_stateid),
                stateid_owners: after.stateid_owners.push((stateid, bytes)),
                ..after
            });
        }
        let open = OpenReply {
            stateid,
            confirm_required,
            change_atomic: true,
            change_before: 0,
            change_after: 1,
            // No callback channel is offered, so no delegation is granted.
            delegation: DelegationType::NoDelegation,
        };
        answered(OpReply::Open(open), Some(opened), saved)
    }

    fn apply_rename(
        &mut self,
        source: usize,
        target: usize,
        old_name: &ComponentName,
        new_name: &ComponentName,
        index: u32,
    ) -> (r: Applied)
        requires
            server_ok(old(self)@),
            source < old(self)@.objects.len(),
            target < old(self)@.objects.len(),
        ensures
            matches_step(
                r,
                final(self)@,
                rename_step(
                    old(self)@,
                    source as nat,
                    target as nat,
                    old_name@,
                    new_name@,
                    index,
                ),
            ),
    {
        let here = Some(target);
        let saved = Some(source);
        proof {
            self.object_at(target as int);
            self.object_at(source as int);
        }
        if self.objects[source].kind != Nfs4Type::Directory || self.objects[target].kind
            != Nfs4Type::Directory {
            return stopped(Nfs4Status::NOTDIR, OpCode::Rename, index, here, saved);
        }
        let moving: usize = match self.child(source, old_name.as_bytes()) {
            Some(moving) => moving,
            None => {
                return stopped(Nfs4Status::NOENT, OpCode::Rename, index, here, saved);
            },
        };
        // A rename never replaces a non-empty directory.
        if let Some(existing) = self.child(target, new_name.as_bytes()) {
            if self.is_full(existing) {
                return stopped(Nfs4Status::NOTEMPTY, OpCode::Rename, index, here, saved);
            }
        }
        let source_before: u64 = self.objects[source].change;
        let target_before: u64 = self.objects[target].change;
        self.unbind(source, old_name.as_bytes());
        self.bind(target, new_name.clone(), moving);
        // The moved object keeps its identity: a rename moves a name.
        let source_after: u64 = self.bump(source);
        let target_after: u64 = if source == target {
            source_after
        } else {
            self.bump(target)
        };
        answered(
            OpReply::Rename {
                source: ChangeInfo { atomic: true, before: source_before, after: source_after },
                target: ChangeInfo { atomic: true, before: target_before, after: target_after },
            },
            here,
            saved,
        )
    }

    fn apply_create(
        &mut self,
        name: &ComponentName,
        attributes: &AttrValues,
        target: usize,
        saved: Option<usize>,
        index: u32,
        object_type: CreateType,
    ) -> (r: Applied)
        requires
            server_ok(old(self)@),
            target < old(self)@.objects.len(),
            names_an_object(old(self)@, saved),
        ensures
            matches_step(
                r,
                final(self)@,
                step_at(
                    old(self)@,
                    target as nat,
                    at(saved),
                    OpView::Create { object_type, name: name@, attributes: attributes@ },
                    index,
                ),
            ),
    {
        proof {
            reveal(step_at);
        }
        let here = Some(target);
        proof {
            self.object_at(target as int);
        }
        if self.objects[target].kind != Nfs4Type::Directory {
            return stopped(Nfs4Status::NOTDIR, OpCode::Create, index, here, saved);
        }
        if self.child(target, name.as_bytes()).is_some() {
            return stopped(Nfs4Status::EXIST, OpCode::Create, index, here, saved);
        }
        let before: u64 = self.objects[target].change;
        let mode: u32 = match attributes.mode {
            Some(mode) => mode,
            None => 0o700,
        };
        let data: Vec<u8> = Vec::new();
        proof {
            assert(data@ =~= Seq::<u8>::empty());
        }
        let child: usize = self.allocate(Nfs4Type::Directory, data, mode, None);
        match self.set_attributes(child, attributes) {
            Err(error) => Applied { reply: Err(error), current: here, saved },
            Ok(attrset) => {
                self.bind(target, name.clone(), child);
                let after: u64 = self.bump(target);
                answered(
                    OpReply::Create { info: ChangeInfo { atomic: true, before, after }, attrset },
                    Some(child),
                    saved,
                )
            },
        }
    }
}

} // verus!
