//! [`TransportDispatcher`]: namespace mutations as COMPOUNDs.
//!
//! Nothing here holds protocol state: seqids, open owners and stateids belong to
//! the callers, and the write stateid a truncation needs arrives with it.
//!
//! REMOVE is addressed by name within the current filehandle, so a COMPOUND that
//! looks the name up first can no longer remove it. A REMOVE that must first prove
//! the target's type and identity does that in its own COMPOUND.
use vstd::prelude::*;

use crate::bytes::copy_bytes;
use crate::contract::{opt_view, res_view, MetadataUpdate, RenameMode};
use crate::error::{
    protocol_failure, to_umbra, unproven, unproven_error, FacadeError, FacadeErrorView,
    FacadeResult, Nfs4Status,
};
use crate::handle::{anonymous, FileHandle, ObjectIdentity, Stateid};
use crate::journal::BLOCKED_RECOVERABLE;
use crate::text::{decimal, decimal_text, holds, join3, lossy_text, stands_at, utf8_lossy};
use crate::transport::{
    getattr_answer, getattr_call, lookup_answer, lookup_call, mask_contains, no_values, reply_at,
    reply_code, shape, values_mask, wrong_shape, Answer, AttrMask, AttrValues, AttrValuesView,
    Attributes, AttributesView, ChangeInfo, ComponentName, Compound, CompoundReply,
    CompoundReplyView, CompoundView, CreateType, Deadline, Nfs4Op, Nfs4Time, Nfs4Type, OpCode,
    OpReply, OpView, RawTransport, ReplyView,
};

use super::{
    NamespaceDispatcher, NamespaceEffect, NamespaceEffectView, NamespaceMutation,
    NamespaceMutationView, NamespaceOutcome, NamespaceOutcomeView, RemoveKind,
};

verus! {

/// Puts namespace mutations on the wire over whichever transport the request is
/// running on. It holds no transport and no stateid.
#[derive(Clone, Copy, Debug)]
pub struct TransportDispatcher {}

/// The identity a reply's attributes carry, or a refusal naming what was missing.
pub open spec fn acted_on(attributes: AttributesView) -> Result<ObjectIdentity, FacadeErrorView> {
    match (attributes.fsid, attributes.fileid) {
        (Some(fsid), Some(fileid)) => Ok(ObjectIdentity { fsid, fileid }),
        _ => Err(
            unproven(
                "the server answered without FATTR4_FSID and FATTR4_FILEID, so the object it acted on cannot be identified"@,
            ),
        ),
    }
}

fn identity_of(attributes: &Attributes) -> (r: FacadeResult<ObjectIdentity>)
    ensures
        res_view(r) == acted_on(attributes@),
{
    match (attributes.fsid, attributes.fileid) {
        (Some(fsid), Some(fileid)) => Ok(ObjectIdentity { fsid, fileid }),
        _ => Err(
            unproven_error(
                "the server answered without FATTR4_FSID and FATTR4_FILEID, so the object it acted on cannot be identified",
            ),
        ),
    }
}

/// What a probed name resolves to.
pub struct ProbedView {
    /// Its filehandle.
    pub handle: Seq<u8>,
    /// Its identity.
    pub identity: ObjectIdentity,
    /// Its type, where the server reported one.
    pub file_type: Option<Nfs4Type>,
}

/// Resolve one name and report its identity, filehandle and type.
pub open spec fn probe_run<T: RawTransport>(
    world: T::World,
    parent: Seq<u8>,
    name: Seq<u8>,
    deadline: Deadline,
) -> (Result<ProbedView, FacadeErrorView>, T::World) {
    let call = lookup_call(parent, name, AttrMask(AttrMask::IDENTITY_AND_TYPE));
    (
        match lookup_answer(T::answer(world, call, deadline)) {
            Err(error) => Err(error),
            Ok((handle, attributes)) => match acted_on(attributes) {
                Err(error) => Err(error),
                Ok(identity) => Ok(
                    ProbedView { handle, identity, file_type: attributes.file_type },
                ),
            },
        },
        T::after(world, call, deadline),
    )
}

/// Why a probed name may not be unlinked as `kind`, if it may not.
pub open spec fn unlink_fault(
    probed: ProbedView,
    name: Seq<u8>,
    target: ObjectIdentity,
    kind: RemoveKind,
) -> Option<FacadeErrorView> {
    if probed.identity != target {
        Some(
            unproven(
                utf8_lossy(name) + " now names fileid "@ + decimal(probed.identity.fileid as nat)
                    + ", but the caller pinned fileid "@ + decimal(target.fileid as nat),
            ),
        )
    } else {
        match kind {
            RemoveKind::File => match probed.file_type {
                Some(Nfs4Type::Directory) => Some(
                    protocol_failure(Nfs4Status(Nfs4Status::ISDIR), OpCode::Remove, 0),
                ),
                Some(_) => None,
                None => Some(
                    unproven(
                        "the server answered without FATTR4_TYPE for "@ + utf8_lossy(name)
                            + ", so it cannot be shown to be a kind this unlink may remove"@,
                    ),
                ),
            },
            RemoveKind::Directory => match probed.file_type {
                Some(Nfs4Type::Directory) => None,
                _ => Some(protocol_failure(Nfs4Status(Nfs4Status::NOTDIR), OpCode::Remove, 0)),
            },
        }
    }
}

/// `PUTFH; REMOVE`.
pub open spec fn remove_call(parent: Seq<u8>, name: Seq<u8>) -> CompoundView {
    CompoundView { tag: "remove"@, ops: seq![OpView::PutFh(parent), OpView::Remove { name }] }
}

/// What the answer to [`remove_call`] says.
pub open spec fn remove_answer(answer: Answer) -> Result<ChangeInfo, FacadeErrorView> {
    match answer {
        Err(error) => Err(FacadeErrorView::Transport(error)),
        Ok(reply) => match reply_at(reply, 1) {
            Err(error) => Err(error),
            Ok(ReplyView::Remove(info)) => Ok(info),
            Ok(other) => Err(wrong_shape(OpCode::Remove, reply_code(other))),
        },
    }
}

/// Whether a REMOVE's change info shows that nothing happened in the directory
/// between the captured change and the unlink.
pub open spec fn undisturbed(captured: Option<u64>, info: ChangeInfo) -> bool {
    captured == Some(info.before) && info.atomic
}

/// What leaves a successful REMOVE unproven.
pub open spec fn removal_doubt(
    name: Seq<char>,
    captured: Option<u64>,
    info: ChangeInfo,
) -> Seq<char> {
    match captured {
        Some(change) => if info.atomic {
            "the directory holding "@ + name + " changed from "@ + decimal(change as nat) + " to "@
                + decimal(info.before as nat) + " between the probe and the REMOVE"@
        } else {
            "the server did not report atomic change info for the REMOVE of "@ + name
                + ", so its before-state cannot rule out a replacement between the probe and the unlink"@
        },
        None => "the server answered without FATTR4_CHANGE for the directory holding "@ + name
            + ", so there is no before-state to compare the REMOVE against"@,
    }
}

/// Whether a REMOVE is proven to have unlinked the name that was probed.
pub open spec fn removal_evidence(
    name: Seq<u8>,
    captured: Option<u64>,
    info: ChangeInfo,
) -> Result<(), FacadeErrorView> {
    if undisturbed(captured, info) {
        Ok(())
    } else {
        Err(
            unproven(
                BLOCKED_RECOVERABLE@ + " the REMOVE of "@ + utf8_lossy(name)
                    + " succeeded, but "@ + removal_doubt(utf8_lossy(name), captured, info)
                    + "; the name that was unlinked cannot be shown to be the object the caller pinned. Re-running it would unlink whatever holds the name next, so the run stops with the evidence retained rather than reporting a removal it cannot prove."@,
            ),
        )
    }
}

/// Unlink one name, having proven what it names, and proven afterwards that
/// nothing came between.
pub open spec fn remove_run<T: RawTransport>(
    world: T::World,
    parent: Seq<u8>,
    name: Seq<u8>,
    target: ObjectIdentity,
    kind: RemoveKind,
    deadline: Deadline,
) -> (Result<NamespaceOutcomeView, FacadeErrorView>, T::World) {
    let look = getattr_call(parent, AttrMask(AttrMask::CHANGE));
    let seen = T::after(world, look, deadline);
    match getattr_answer(T::answer(world, look, deadline)) {
        Err(error) => (Err(error), seen),
        Ok(directory) => {
            let (found, probed) = probe_run::<T>(seen, parent, name, deadline);
            match found {
                Err(error) => (Err(error), probed),
                Ok(object) => match unlink_fault(object, name, target, kind) {
                    Some(error) => (Err(error), probed),
                    None => {
                        let call = remove_call(parent, name);
                        (
                            match remove_answer(T::answer(probed, call, deadline)) {
                                Err(error) => Err(error),
                                Ok(info) => match removal_evidence(
                                    name,
                                    directory.change,
                                    info,
                                ) {
                                    Err(error) => Err(error),
                                    Ok(()) => Ok(NamespaceOutcomeView::Removed),
                                },
                            },
                            T::after(probed, call, deadline),
                        )
                    },
                },
            }
        },
    }
}

/// `PUTFH; SAVEFH; PUTFH; RENAME`: SAVEFH names the source directory.
pub open spec fn rename_call(
    source_parent: Seq<u8>,
    source_name: Seq<u8>,
    target_parent: Seq<u8>,
    target_name: Seq<u8>,
) -> CompoundView {
    CompoundView {
        tag: "rename"@,
        ops: seq![
            OpView::PutFh(source_parent),
            OpView::SaveFh,
            OpView::PutFh(target_parent),
            OpView::Rename { old_name: source_name, new_name: target_name },
        ],
    }
}

/// What the answer to [`rename_call`] says.
pub open spec fn rename_answer(answer: Answer) -> Result<(), FacadeErrorView> {
    match answer {
        Err(error) => Err(FacadeErrorView::Transport(error)),
        Ok(reply) => match reply_at(reply, 3) {
            Err(error) => Err(error),
            Ok(ReplyView::Rename { .. }) => Ok(()),
            Ok(other) => Err(wrong_shape(OpCode::Rename, reply_code(other))),
        },
    }
}

/// Move a name and prove which object it now names. An atomic no-replace rename
/// does not exist in this protocol version and is refused before anything is sent.
pub open spec fn rename_run<T: RawTransport>(
    world: T::World,
    source_parent: Seq<u8>,
    source_name: Seq<u8>,
    target_parent: Seq<u8>,
    target_name: Seq<u8>,
    source: ObjectIdentity,
    mode: RenameMode,
    deadline: Deadline,
) -> (Result<NamespaceOutcomeView, FacadeErrorView>, T::World) {
    if mode == RenameMode::NoReplace {
        (Err(protocol_failure(Nfs4Status(Nfs4Status::NOTSUPP), OpCode::Rename, 0)), world)
    } else {
        let call = rename_call(source_parent, source_name, target_parent, target_name);
        let moved = T::after(world, call, deadline);
        match rename_answer(T::answer(world, call, deadline)) {
            Err(error) => (Err(error), moved),
            Ok(()) => {
                let (found, after) = probe_run::<T>(moved, target_parent, target_name, deadline);
                (
                    match found {
                        Err(error) => Err(error),
                        Ok(object) => if object.identity != source {
                            Err(
                                unproven(
                                    "RENAME left fileid "@ + decimal(
                                        object.identity.fileid as nat,
                                    ) + " at the destination; the source was fileid "@ + decimal(
                                        source.fileid as nat,
                                    ),
                                ),
                            )
                        } else {
                            Ok(
                                NamespaceOutcomeView::Renamed(
                                    NamespaceEffectView {
                                        identity: object.identity,
                                        handle: object.handle,
                                    },
                                ),
                            )
                        },
                    },
                    after,
                )
            },
        }
    }
}

/// `PUTFH; CREATE; GETFH; GETATTR`.
pub open spec fn mkdir_call(parent: Seq<u8>, name: Seq<u8>, mode: u32) -> CompoundView {
    CompoundView {
        tag: "mkdir"@,
        ops: seq![
            OpView::PutFh(parent),
            OpView::Create {
                object_type: CreateType::Directory,
                name,
                attributes: AttrValuesView { mode: Some(mode), ..no_values() },
            },
            OpView::GetFh,
            OpView::GetAttr(AttrMask(AttrMask::IDENTITY)),
        ],
    }
}

/// The object a reply's GETFH and GETATTR, at the third and fourth place, describe.
pub open spec fn described(reply: CompoundReplyView) -> Result<
    NamespaceEffectView,
    FacadeErrorView,
> {
    match reply_at(reply, 2) {
        Err(error) => Err(error),
        Ok(ReplyView::GetFh(handle)) => match reply_at(reply, 3) {
            Err(error) => Err(error),
            Ok(ReplyView::GetAttr(attributes)) => match acted_on(attributes) {
                Err(error) => Err(error),
                Ok(identity) => Ok(NamespaceEffectView { identity, handle }),
            },
            Ok(other) => Err(wrong_shape(OpCode::GetAttr, reply_code(other))),
        },
        Ok(other) => Err(wrong_shape(OpCode::GetFh, reply_code(other))),
    }
}

/// What the answer to [`mkdir_call`] says.
pub open spec fn mkdir_answer(answer: Answer) -> Result<NamespaceOutcomeView, FacadeErrorView> {
    match answer {
        Err(error) => Err(FacadeErrorView::Transport(error)),
        Ok(reply) => match reply_at(reply, 1) {
            Err(error) => Err(error),
            Ok(ReplyView::Create { .. }) => match described(reply) {
                Err(error) => Err(error),
                Ok(effect) => Ok(NamespaceOutcomeView::Created(effect)),
            },
            Ok(other) => Err(wrong_shape(OpCode::Create, reply_code(other))),
        },
    }
}

/// `PUTFH; SETATTR; GETFH; GETATTR`.
pub open spec fn set_call(object: Seq<u8>, values: AttrValuesView, stateid: Stateid) -> CompoundView {
    CompoundView {
        tag: "setattr"@,
        ops: seq![
            OpView::PutFh(object),
            OpView::SetAttr { stateid, attributes: values },
            OpView::GetFh,
            OpView::GetAttr(AttrMask(AttrMask::IDENTITY)),
        ],
    }
}

/// What the answer to [`set_call`] says. A server that set fewer attributes than
/// asked for, or that changed another object, is a failure.
pub open spec fn set_answer(answer: Answer, target: ObjectIdentity, requested: u64) -> Result<
    NamespaceOutcomeView,
    FacadeErrorView,
> {
    match answer {
        Err(error) => Err(FacadeErrorView::Transport(error)),
        Ok(reply) => match reply_at(reply, 1) {
            Err(error) => Err(error),
            Ok(ReplyView::SetAttr(done)) => if !mask_contains(done.0, requested) {
                Err(
                    unproven(
                        "SETATTR set AttrMask("@ + decimal(done.0 as nat) + ") but AttrMask("@
                            + decimal(requested as nat) + ") was requested"@,
                    ),
                )
            } else {
                match described(reply) {
                    Err(error) => Err(error),
                    Ok(effect) => if effect.identity != target {
                        Err(
                            unproven(
                                "SETATTR landed on fileid "@ + decimal(
                                    effect.identity.fileid as nat,
                                ) + " but the caller pinned fileid "@ + decimal(
                                    target.fileid as nat,
                                ),
                            ),
                        )
                    } else {
                        Ok(NamespaceOutcomeView::AttributesSet(effect))
                    },
                }
            },
            Ok(other) => Err(wrong_shape(OpCode::SetAttr, reply_code(other))),
        },
    }
}

/// One attribute change, then proof of which object took it.
pub open spec fn set_run<T: RawTransport>(
    world: T::World,
    object: Seq<u8>,
    target: ObjectIdentity,
    values: AttrValuesView,
    stateid: Stateid,
    deadline: Deadline,
) -> (Result<NamespaceOutcomeView, FacadeErrorView>, T::World) {
    let call = set_call(object, values, stateid);
    (
        set_answer(T::answer(world, call, deadline), target, values_mask(values)),
        T::after(world, call, deadline),
    )
}

/// Nanoseconds in a second.
pub const NANOS_PER_SECOND: i128 = 1_000_000_000;

/// The time `nanos` nanoseconds after the epoch. Seconds are floored, so the
/// remainder is never negative; a time that does not fit is an invalid argument.
pub open spec fn time_of(nanos: i128) -> Result<Nfs4Time, FacadeErrorView> {
    let seconds = nanos as int / NANOS_PER_SECOND as int;
    if i64::MIN <= seconds <= i64::MAX {
        Ok(
            Nfs4Time {
                seconds: seconds as i64,
                nanoseconds: (nanos as int % NANOS_PER_SECOND as int) as u32,
            },
        )
    } else {
        Err(protocol_failure(Nfs4Status(Nfs4Status::INVAL), OpCode::SetAttr, 0))
    }
}

/// A requested time, where there is one.
pub open spec fn requested_time(nanos: Option<i128>) -> Result<Option<Nfs4Time>, FacadeErrorView> {
    match nanos {
        None => Ok(None),
        Some(given) => match time_of(given) {
            Err(error) => Err(error),
            Ok(time) => Ok(Some(time)),
        },
    }
}

/// A numeric owner as the identity string a server accepts.
pub open spec fn owner_text(id: Option<u32>) -> Option<Seq<u8>> {
    match id {
        None => None,
        Some(number) => Some(vstd::utf8::encode_utf8(decimal(number as nat))),
    }
}

/// The settable attributes a metadata update names. A time that cannot be
/// represented stops the whole update.
pub open spec fn values_of(update: MetadataUpdate) -> Result<AttrValuesView, FacadeErrorView> {
    match requested_time(update.accessed_nanos) {
        Err(error) => Err(error),
        Ok(time_access) => match requested_time(update.modified_nanos) {
            Err(error) => Err(error),
            Ok(time_modify) => Ok(
                AttrValuesView {
                    size: None,
                    mode: update.mode,
                    owner: owner_text(update.uid),
                    owner_group: owner_text(update.gid),
                    time_access,
                    time_modify,
                },
            ),
        },
    }
}

/// What dispatching a mutation as COMPOUNDs yields.
pub open spec fn dispatch_run<T: RawTransport>(
    world: T::World,
    mutation: NamespaceMutationView,
) -> (Result<NamespaceOutcomeView, FacadeErrorView>, T::World) {
    let deadline = T::limits_of(world).default_deadline;
    match mutation {
        NamespaceMutationView::Remove { parent, name, target, kind } => remove_run::<T>(
            world,
            parent,
            name,
            target,
            kind,
            deadline,
        ),
        NamespaceMutationView::Rename {
            source_parent,
            source_name,
            target_parent,
            target_name,
            source,
            mode,
        } => rename_run::<T>(
            world,
            source_parent,
            source_name,
            target_parent,
            target_name,
            source,
            mode,
            deadline,
        ),
        NamespaceMutationView::CreateDirectory { parent, name, mode } => (
            mkdir_answer(T::answer(world, mkdir_call(parent, name, mode), deadline)),
            T::after(world, mkdir_call(parent, name, mode), deadline),
        ),
        NamespaceMutationView::SetAttributes { object, target, update } => match values_of(
            update,
        ) {
            Err(error) => (Err(error), world),
            Ok(values) => if values == no_values() {
                (
                    Err(protocol_failure(Nfs4Status(Nfs4Status::INVAL), OpCode::SetAttr, 0)),
                    world,
                )
            } else {
                set_run::<T>(world, object, target, values, anonymous(), deadline)
            },
        },
        NamespaceMutationView::Truncate { object, target, len, stateid } => if stateid
            == anonymous() {
            (Err(anonymous_truncation()), world)
        } else {
            set_run::<T>(
                world,
                object,
                target,
                AttrValuesView { size: Some(len), ..no_values() },
                stateid,
                deadline,
            )
        },
    }
}

/// The refusal of a truncation without an open stateid.
pub open spec fn anonymous_truncation() -> FacadeErrorView {
    unproven(
        "truncation sets FATTR4_SIZE, which RFC 7530 §16.32 requires an open stateid with WRITE access for; the anonymous stateid is not one"@,
    )
}

/// Split nanoseconds since the epoch into seconds and nanoseconds.
///
/// An unrepresentable value is refused, not dropped, so that an update is never
/// applied in part.
pub fn nfs_time(nanos: i128) -> (r: FacadeResult<Nfs4Time>)
    ensures
        res_view(r) == time_of(nanos),
{
    let refused = FacadeError::protocol(Nfs4Status(Nfs4Status::INVAL), OpCode::SetAttr, 0);
    proof {
        let n = nanos as int;
        vstd::arithmetic::div_mod::lemma_fundamental_div_mod(n, NANOS_PER_SECOND as int);
        vstd::arithmetic::div_mod::lemma_mod_bound(n, NANOS_PER_SECOND as int);
    }
    match (nanos.checked_div_euclid(NANOS_PER_SECOND), nanos.checked_rem_euclid(
        NANOS_PER_SECOND,
    )) {
        (Some(seconds), Some(remainder)) => {
            if seconds < i64::MIN as i128 || seconds > i64::MAX as i128 {
                return Err(refused);
            }
            Ok(Nfs4Time { seconds: seconds as i64, nanoseconds: remainder as u32 })
        },
        _ => Err(refused),
    }
}

fn optional_time(nanos: Option<i128>) -> (r: FacadeResult<Option<Nfs4Time>>)
    ensures
        match r {
            Ok(time) => requested_time(nanos) == Ok::<Option<Nfs4Time>, FacadeErrorView>(time),
            Err(error) => requested_time(nanos) == Err::<Option<Nfs4Time>, FacadeErrorView>(
                error@,
            ),
        },
{
    match nanos {
        None => Ok(None),
        Some(given) => match nfs_time(given) {
            Ok(time) => Ok(Some(time)),
            Err(error) => Err(error),
        },
    }
}

fn owner_bytes(id: Option<u32>) -> (r: Option<Vec<u8>>)
    ensures
        opt_view(r) == owner_text(id),
{
    match id {
        None => None,
        Some(number) => Some(
            copy_bytes(decimal_text(number as u64).as_str().as_bytes()),
        ),
    }
}

fn attr_values(update: &MetadataUpdate) -> (r: FacadeResult<AttrValues>)
    ensures
        res_view(r) == values_of(*update),
{
    let time_access = match optional_time(update.accessed_nanos) {
        Ok(time) => time,
        Err(error) => {
            return Err(error);
        },
    };
    let time_modify = match optional_time(update.modified_nanos) {
        Ok(time) => time,
        Err(error) => {
            return Err(error);
        },
    };
    Ok(
        AttrValues {
            size: None,
            mode: update.mode,
            owner: owner_bytes(update.uid),
            owner_group: owner_bytes(update.gid),
            time_access,
            time_modify,
        },
    )
}

/// Whether a REMOVE's own change info proves it unlinked the name that was probed.
///
/// `captured` is the directory's change attribute read before the probe. When the
/// server reports that same value as the change it saw immediately before the
/// REMOVE, nothing happened in that directory in between. Everything else is
/// reported as uncertain: the name really is gone, so neither a success nor a
/// retriable failure would be true.
pub fn remove_evidence(name: &ComponentName, captured: Option<u64>, info: ChangeInfo) -> (r:
    FacadeResult<()>)
    ensures
        res_view(r) == removal_evidence(name@, captured, info),
{
    let label = lossy_text(name.as_bytes());
    let why: String = match captured {
        Some(change) => {
            if info.atomic {
                if info.before == change {
                    return Ok(());
                }
                join3("the directory holding ", label.as_str(), " changed from ").concat(
                    decimal_text(change).as_str(),
                ).concat(" to ").concat(decimal_text(info.before).as_str()).concat(
                    " between the probe and the REMOVE",
                )
            } else {
                join3(
                    "the server did not report atomic change info for the REMOVE of ",
                    label.as_str(),
                    ", so its before-state cannot rule out a replacement between the probe and the unlink",
                )
            }
        },
        None => join3(
            "the server answered without FATTR4_CHANGE for the directory holding ",
            label.as_str(),
            ", so there is no before-state to compare the REMOVE against",
        ),
    };
    Err(
        unproven_error(
            join3(BLOCKED_RECOVERABLE, " the REMOVE of ", label.as_str()).concat(
                " succeeded, but ",
            ).concat(why.as_str()).concat(
                "; the name that was unlinked cannot be shown to be the object the caller pinned. Re-running it would unlink whatever holds the name next, so the run stops with the evidence retained rather than reporting a removal it cannot prove.",
            ).as_str(),
        ),
    )
}

struct Probed {
    handle: FileHandle,
    identity: ObjectIdentity,
    file_type: Option<Nfs4Type>,
}

impl TransportDispatcher {
    /// A dispatcher.
    pub fn new() -> (r: Self)
        ensures
            r == (TransportDispatcher {  }),
    {
        TransportDispatcher {  }
    }

    fn probe<T: RawTransport>(
        transport: &mut T,
        parent: &FileHandle,
        name: &ComponentName,
        deadline: Deadline,
    ) -> (r: FacadeResult<Probed>)
        ensures
            (
                match r {
                    Ok(found) => Ok(
                        ProbedView {
                            handle: found.handle@,
                            identity: found.identity,
                            file_type: found.file_type,
                        },
                    ),
                    Err(error) => Err(error@),
                },
                final(transport).world(),
            ) == probe_run::<T>(old(transport).world(), parent@, name@, deadline),
    {
        match transport.lookup(parent, name, AttrMask(AttrMask::IDENTITY_AND_TYPE), deadline) {
            Err(error) => Err(error),
            Ok((handle, attributes)) => match identity_of(&attributes) {
                Err(error) => Err(error),
                Ok(identity) => Ok(
                    Probed { handle, identity, file_type: attributes.file_type },
                ),
            },
        }
    }

    fn unlinkable(
        probed: &Probed,
        name: &ComponentName,
        target: &ObjectIdentity,
        kind: RemoveKind,
    ) -> (r: FacadeResult<()>)
        ensures
            match unlink_fault(
                ProbedView {
                    handle: probed.handle@,
                    identity: probed.identity,
                    file_type: probed.file_type,
                },
                name@,
                *target,
                kind,
            ) {
                Some(error) => r is Err && r->Err_0@ == error,
                None => r is Ok,
            },
    {
        if probed.identity != *target {
            return Err(
                unproven_error(
                    join3(
                        lossy_text(name.as_bytes()).as_str(),
                        " now names fileid ",
                        decimal_text(probed.identity.fileid).as_str(),
                    ).concat(", but the caller pinned fileid ").concat(
                        decimal_text(target.fileid).as_str(),
                    ).as_str(),
                ),
            );
        }
        match kind {
            RemoveKind::File => match probed.file_type {
                Some(Nfs4Type::Directory) => Err(
                    FacadeError::protocol(Nfs4Status(Nfs4Status::ISDIR), OpCode::Remove, 0),
                ),
                // A regular file or a logical-symlink name.
                Some(_) => Ok(()),
                None => Err(
                    unproven_error(
                        join3(
                            "the server answered without FATTR4_TYPE for ",
                            lossy_text(name.as_bytes()).as_str(),
                            ", so it cannot be shown to be a kind this unlink may remove",
                        ).as_str(),
                    ),
                ),
            },
            RemoveKind::Directory => match probed.file_type {
                Some(Nfs4Type::Directory) => Ok(()),
                _ => Err(
                    FacadeError::protocol(Nfs4Status(Nfs4Status::NOTDIR), OpCode::Remove, 0),
                ),
            },
        }
    }

    fn remove<T: RawTransport>(
        transport: &mut T,
        parent: &FileHandle,
        name: &ComponentName,
        target: &ObjectIdentity,
        kind: RemoveKind,
        deadline: Deadline,
    ) -> (r: FacadeResult<NamespaceOutcome>)
        ensures
            (res_view(r), final(transport).world()) == remove_run::<T>(
                old(transport).world(),
                parent@,
                name@,
                *target,
                kind,
                deadline,
            ),
    {
        // The directory's change attribute before anything is probed: between the
        // probe and the REMOVE another client can put a different object under
        // this name, and the REMOVE's own change info is what would show it.
        let before = match transport.getattr(parent, AttrMask(AttrMask::CHANGE), deadline) {
            Ok(attributes) => attributes.change,
            Err(error) => {
                return Err(error);
            },
        };
        let probed = match TransportDispatcher::probe(transport, parent, name, deadline) {
            Ok(probed) => probed,
            Err(error) => {
                return Err(error);
            },
        };
        match TransportDispatcher::unlinkable(&probed, name, target, kind) {
            Ok(()) => {},
            Err(error) => {
                return Err(error);
            },
        }
        let call = Compound::new(
            "remove",
            vec![Nfs4Op::PutFh(parent.clone()), Nfs4Op::Remove { name: name.clone() }],
        );
        proof {
            assert(call@ =~= remove_call(parent@, name@));
        }
        let reply = match transport.submit(call, deadline) {
            Ok(reply) => reply,
            Err(error) => {
                return Err(FacadeError::Transport(error));
            },
        };
        let info = match reply.expect(1) {
            Err(error) => {
                return Err(error);
            },
            Ok(OpReply::Remove(info)) => *info,
            Ok(other) => {
                return Err(shape(OpCode::Remove, other.opcode()));
            },
        };
        match remove_evidence(name, before, info) {
            Ok(()) => Ok(NamespaceOutcome::Removed),
            Err(error) => Err(error),
        }
    }

    fn rename<T: RawTransport>(
        transport: &mut T,
        source_parent: &FileHandle,
        source_name: &ComponentName,
        target_parent: &FileHandle,
        target_name: &ComponentName,
        source: &ObjectIdentity,
        mode: RenameMode,
        deadline: Deadline,
    ) -> (r: FacadeResult<NamespaceOutcome>)
        ensures
            (res_view(r), final(transport).world()) == rename_run::<T>(
                old(transport).world(),
                source_parent@,
                source_name@,
                target_parent@,
                target_name@,
                *source,
                mode,
                deadline,
            ),
    {
        if mode == RenameMode::NoReplace {
            // Probing the destination and then renaming would overwrite whatever
            // appeared in between, so the guarantee is refused, not emulated.
            return Err(
                FacadeError::protocol(Nfs4Status(Nfs4Status::NOTSUPP), OpCode::Rename, 0),
            );
        }
        let call = Compound::new(
            "rename",
            vec![
                Nfs4Op::PutFh(source_parent.clone()),
                Nfs4Op::SaveFh,
                Nfs4Op::PutFh(target_parent.clone()),
                Nfs4Op::Rename { old_name: source_name.clone(), new_name: target_name.clone() },
            ],
        );
        proof {
            assert(call@ =~= rename_call(
                source_parent@,
                source_name@,
                target_parent@,
                target_name@,
            ));
        }
        let reply = match transport.submit(call, deadline) {
            Ok(reply) => reply,
            Err(error) => {
                return Err(FacadeError::Transport(error));
            },
        };
        match reply.expect(3) {
            Err(error) => {
                return Err(error);
            },
            Ok(OpReply::Rename { .. }) => {},
            Ok(other) => {
                return Err(shape(OpCode::Rename, other.opcode()));
            },
        }
        let probed = match TransportDispatcher::probe(
            transport,
            target_parent,
            target_name,
            deadline,
        ) {
            Ok(probed) => probed,
            Err(error) => {
                return Err(error);
            },
        };
        if probed.identity != *source {
            return Err(
                unproven_error(
                    join3(
                        "RENAME left fileid ",
                        decimal_text(probed.identity.fileid).as_str(),
                        " at the destination; the source was fileid ",
                    ).concat(decimal_text(source.fileid).as_str()).as_str(),
                ),
            );
        }
        Ok(
            NamespaceOutcome::Renamed(
                NamespaceEffect { identity: probed.identity, handle: probed.handle },
            ),
        )
    }

    fn describe(reply: &CompoundReply) -> (r: FacadeResult<NamespaceEffect>)
        ensures
            res_view(r) == described(reply@),
    {
        let handle = match reply.expect(2) {
            Err(error) => {
                return Err(error);
            },
            Ok(OpReply::GetFh(handle)) => handle.clone(),
            Ok(other) => {
                return Err(shape(OpCode::GetFh, other.opcode()));
            },
        };
        match reply.expect(3) {
            Err(error) => Err(error),
            Ok(OpReply::GetAttr(attributes)) => match identity_of(attributes) {
                Err(error) => Err(error),
                Ok(identity) => Ok(NamespaceEffect { identity, handle }),
            },
            Ok(other) => Err(shape(OpCode::GetAttr, other.opcode())),
        }
    }

    fn create_directory<T: RawTransport>(
        transport: &mut T,
        parent: &FileHandle,
        name: &ComponentName,
        mode: u32,
        deadline: Deadline,
    ) -> (r: FacadeResult<NamespaceOutcome>)
        ensures
            res_view(r) == mkdir_answer(
                T::answer(old(transport).world(), mkdir_call(parent@, name@, mode), deadline),
            ),
            final(transport).world() == T::after(
                old(transport).world(),
                mkdir_call(parent@, name@, mode),
                deadline,
            ),
    {
        let mut attributes = AttrValues::none();
        attributes.mode = Some(mode);
        let call = Compound::new(
            "mkdir",
            vec![
                Nfs4Op::PutFh(parent.clone()),
                Nfs4Op::Create {
                    object_type: CreateType::Directory,
                    name: name.clone(),
                    attributes,
                },
                Nfs4Op::GetFh,
                Nfs4Op::GetAttr(AttrMask(AttrMask::IDENTITY)),
            ],
        );
        proof {
            assert(call@ =~= mkdir_call(parent@, name@, mode));
        }
        let reply = match transport.submit(call, deadline) {
            Ok(reply) => reply,
            Err(error) => {
                return Err(FacadeError::Transport(error));
            },
        };
        match reply.expect(1) {
            Err(error) => {
                return Err(error);
            },
            Ok(OpReply::Create { .. }) => {},
            Ok(other) => {
                return Err(shape(OpCode::Create, other.opcode()));
            },
        }
        match TransportDispatcher::describe(&reply) {
            Ok(effect) => Ok(NamespaceOutcome::Created(effect)),
            Err(error) => Err(error),
        }
    }

    fn set<T: RawTransport>(
        transport: &mut T,
        object: &FileHandle,
        target: &ObjectIdentity,
        values: AttrValues,
        stateid: Stateid,
        deadline: Deadline,
    ) -> (r: FacadeResult<NamespaceOutcome>)
        ensures
            (res_view(r), final(transport).world()) == set_run::<T>(
                old(transport).world(),
                object@,
                *target,
                values@,
                stateid,
                deadline,
            ),
    {
        let requested = values.mask();
        let call = Compound::new(
            "setattr",
            vec![
                Nfs4Op::PutFh(object.clone()),
                Nfs4Op::SetAttr { stateid, attributes: values },
                Nfs4Op::GetFh,
                Nfs4Op::GetAttr(AttrMask(AttrMask::IDENTITY)),
            ],
        );
        proof {
            assert(call@ =~= set_call(object@, values@, stateid));
        }
        let reply = match transport.submit(call, deadline) {
            Ok(reply) => reply,
            Err(error) => {
                return Err(FacadeError::Transport(error));
            },
        };
        match reply.expect(1) {
            Err(error) => {
                return Err(error);
            },
            Ok(OpReply::SetAttr(done)) => {
                if !done.contains(requested) {
                    return Err(
                        unproven_error(
                            join3(
                                "SETATTR set AttrMask(",
                                decimal_text(done.0).as_str(),
                                ") but AttrMask(",
                            ).concat(decimal_text(requested.0).as_str()).concat(
                                ") was requested",
                            ).as_str(),
                        ),
                    );
                }
            },
            Ok(other) => {
                return Err(shape(OpCode::SetAttr, other.opcode()));
            },
        }
        let effect = match TransportDispatcher::describe(&reply) {
            Ok(effect) => effect,
            Err(error) => {
                return Err(error);
            },
        };
        if effect.identity != *target {
            return Err(
                unproven_error(
                    join3(
                        "SETATTR landed on fileid ",
                        decimal_text(effect.identity.fileid).as_str(),
                        " but the caller pinned fileid ",
                    ).concat(decimal_text(target.fileid).as_str()).as_str(),
                ),
            );
        }
        Ok(NamespaceOutcome::AttributesSet(effect))
    }
}

impl<T: RawTransport> NamespaceDispatcher<T> for TransportDispatcher {
    type State = ();

    open spec fn state(&self) -> () {
        ()
    }

    open spec fn dispatched(
        state: (),
        world: T::World,
        mutation: NamespaceMutationView,
    ) -> (Result<NamespaceOutcomeView, FacadeErrorView>, T::World, ()) {
        let (answer, after) = dispatch_run::<T>(world, mutation);
        (answer, after, ())
    }

    fn dispatch(&mut self, transport: &mut T, mutation: &NamespaceMutation) -> (r: FacadeResult<
        NamespaceOutcome,
    >) {
        let deadline = transport.limits().default_deadline;
        match mutation {
            NamespaceMutation::Remove { parent, name, target, kind } => {
                TransportDispatcher::remove(transport, parent, name, target, *kind, deadline)
            },
            NamespaceMutation::Rename {
                source_parent,
                source_name,
                target_parent,
                target_name,
                source,
                mode,
            } => TransportDispatcher::rename(
                transport,
                source_parent,
                source_name,
                target_parent,
                target_name,
                source,
                *mode,
                deadline,
            ),
            NamespaceMutation::CreateDirectory { parent, name, mode } => {
                TransportDispatcher::create_directory(transport, parent, name, *mode, deadline)
            },
            NamespaceMutation::SetAttributes { object, target, update } => {
                let values = match attr_values(update) {
                    Ok(values) => values,
                    Err(error) => {
                        return Err(error);
                    },
                };
                if values.is_empty() {
                    // An update that names nothing would report a metadata change
                    // that never happened.
                    return Err(
                        FacadeError::protocol(Nfs4Status(Nfs4Status::INVAL), OpCode::SetAttr, 0),
                    );
                }
                TransportDispatcher::set(
                    transport,
                    object,
                    target,
                    values,
                    Stateid::anonymous(),
                    deadline,
                )
            },
            NamespaceMutation::Truncate { object, target, len, stateid } => {
                if stateid.is_anonymous() {
                    // A server may accept or refuse an anonymous change of size,
                    // and a truncation that depends on which is none to report.
                    return Err(
                        unproven_error(
                            "truncation sets FATTR4_SIZE, which RFC 7530 §16.32 requires an open stateid with WRITE access for; the anonymous stateid is not one",
                        ),
                    );
                }
                let mut values = AttrValues::none();
                values.size = Some(*len);
                TransportDispatcher::set(transport, object, target, values, *stateid, deadline)
            },
        }
    }
}

/// A rename that must not replace is refused before anything is sent.
pub proof fn no_replace_sends_nothing<T: RawTransport>(
    world: T::World,
    mutation: NamespaceMutationView,
)
    requires
        mutation matches NamespaceMutationView::Rename { mode, .. } && mode
            == RenameMode::NoReplace,
    ensures
        dispatch_run::<T>(world, mutation).0 is Err,
        dispatch_run::<T>(world, mutation).1 == world,
{
}

/// A metadata update that names a time out of range is refused whole, before
/// anything is sent.
pub proof fn an_unrepresentable_time_sends_nothing<T: RawTransport>(
    world: T::World,
    mutation: NamespaceMutationView,
)
    requires
        mutation matches NamespaceMutationView::SetAttributes { update, .. } && (requested_time(
            update.accessed_nanos,
        ) is Err || requested_time(update.modified_nanos) is Err),
    ensures
        dispatch_run::<T>(world, mutation) == (
            Err::<NamespaceOutcomeView, FacadeErrorView>(
                protocol_failure(Nfs4Status(Nfs4Status::INVAL), OpCode::SetAttr, 0),
            ),
            world,
        ),
{
}

/// A REMOVE that cannot be proven stops the run: its failure is recognised as a
/// blocked-recoverable stop whichever operation reports it.
pub proof fn an_unproven_removal_is_a_stop(
    name: Seq<u8>,
    captured: Option<u64>,
    info: ChangeInfo,
    operation: Seq<char>,
)
    requires
        !undisturbed(captured, info),
    ensures
        removal_evidence(name, captured, info) matches Err(error) && holds(
            to_umbra(error, operation).context,
            BLOCKED_RECOVERABLE@,
        ),
{
    let context = to_umbra(removal_evidence(name, captured, info)->Err_0, operation).context;
    let at: int = ("authority: "@.len() + "object identity unproven: "@.len()) as int;
    let mark = BLOCKED_RECOVERABLE@;
    assert(context.subrange(at, at + mark.len()) =~= mark);
    assert(stands_at(context, mark, at));
}

/// A time that was split is the time it was split from, and its nanoseconds are
/// less than a second.
pub proof fn a_split_time_is_exact(nanos: i128)
    ensures
        time_of(nanos) matches Ok(time) ==> time.nanoseconds < NANOS_PER_SECOND
            && time.seconds * NANOS_PER_SECOND + time.nanoseconds == nanos,
{
    vstd::arithmetic::div_mod::lemma_fundamental_div_mod(nanos as int, NANOS_PER_SECOND as int);
    vstd::arithmetic::div_mod::lemma_mod_bound(nanos as int, NANOS_PER_SECOND as int);
}

/// An unlink is only ever reported for the object the caller pinned, in a
/// directory that nothing changed between the probe and the REMOVE.
pub proof fn a_reported_unlink_is_proven<T: RawTransport>(
    world: T::World,
    parent: Seq<u8>,
    name: Seq<u8>,
    target: ObjectIdentity,
    kind: RemoveKind,
    deadline: Deadline,
)
    ensures
        remove_run::<T>(world, parent, name, target, kind, deadline).0 is Ok ==> {
            let look = getattr_call(parent, AttrMask(AttrMask::CHANGE));
            let seen = T::after(world, look, deadline);
            let (found, probed) = probe_run::<T>(seen, parent, name, deadline);
            let answer = remove_answer(T::answer(probed, remove_call(parent, name), deadline));
            &&& getattr_answer(T::answer(world, look, deadline)) matches Ok(directory)
                && answer matches Ok(info) && undisturbed(directory.change, info)
            &&& found matches Ok(object) && object.identity == target
        },
{
}

} // verus!
