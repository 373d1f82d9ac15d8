//! The per-run boundary probe: what ties a durability claim to evidence.
//!
//! [`qualify`] drives one synthetic cycle in the run's private directory: OPEN,
//! unstable WRITE, COMMIT, verifier comparison, CLOSE, REMOVE. A matched verifier
//! is the server's acknowledgement that the bytes are on stable storage. It proves
//! nothing about which server answered, so it only counts on a transport that
//! declares [`PersistenceBoundary::RemoteServer`].
//!
//! A failed probe means that the run may not claim a remote boundary and nothing
//! more: every error it meets is consumed, and nothing goes through the replay log.
//! The artifact is removed on every way out.
use vstd::prelude::*;

use crate::anchor::Anchor;
use crate::bytes::copy_bytes;
use crate::crud::{open_object_run, CreateDisposition, OpenObject, OpenObjectView};
use crate::handle::{stateid_answer, Session, SessionView};
use crate::identity::PinnedObjectView;
use crate::state::open_owner::{
    close, close_run, CloseOutcome, CloseOutcomeView, OpenOwnerRegistry, RegistryView,
};
use crate::transport::{
    adopt_name, commit_answer, commit_call, reply_at, same_verifier, write_answer, write_call,
    Answer, ComponentName, Compound, CompoundView, Deadline, Nfs4Op, OpReply, OpView,
    PersistenceBoundary, RawTransport, ShareAccess, Stability,
};

verus! {

/// Name of the probe artifact inside the run's private directory.
///
/// Deterministic, so a process that died before removing it leaves one name that
/// the next probe adopts and removes.
pub const PROBE_FILE: &'static str = "boundary-probe";

/// What the probe writes. The verifier is the evidence, not the content.
pub const PROBE_PAYLOAD: &'static str = "umbra-boundary-probe";

/// The bytes the probe writes.
pub open spec fn probe_payload() -> Seq<u8> {
    vstd::utf8::encode_utf8(PROBE_PAYLOAD@)
}

/// An unstable WRITE and a COMMIT, and whether the verifiers matched.
pub open spec fn cycle_run<T: RawTransport>(
    open: OpenObjectView,
    session: SessionView,
    world: T::World,
    deadline: Deadline,
) -> (bool, T::World) {
    match stateid_answer(open.file, session) {
        Err(_) => (false, world),
        Ok(stateid) => {
            let write = write_call(
                open.file.handle,
                stateid,
                0,
                Stability::Unstable,
                probe_payload(),
            );
            let written = T::after(world, write, deadline);
            match write_answer(T::answer(world, write, deadline)) {
                Err(_) => (false, written),
                Ok(reply) => if reply.count != probe_payload().len() {
                    (false, written)
                } else {
                    let commit = commit_call(open.file.handle, 0, reply.count);
                    (
                        match commit_answer(T::answer(written, commit, deadline)) {
                            Err(_) => false,
                            Ok(committed) => committed.verifier == reply.verifier,
                        },
                        T::after(written, commit, deadline),
                    )
                },
            }
        },
    }
}

/// CLOSE the probe's open, with one retry of a refused CLOSE.
pub open spec fn release_run<T: RawTransport>(
    open: OpenObjectView,
    session: SessionView,
    world: T::World,
    deadline: Deadline,
) -> (bool, T::World) {
    let (outcome, after) = close_run::<T>(open.file, session, world, deadline);
    match outcome {
        CloseOutcomeView::Closed(_) => (true, after),
        CloseOutcomeView::Rejected { file, .. } => {
            let (again, last) = close_run::<T>(file, session, after, deadline);
            (again is Closed, last)
        },
        CloseOutcomeView::Abandoned { .. } => (false, after),
    }
}

/// `PUTFH; REMOVE` of the probe artifact.
pub open spec fn discard_call(parent: Seq<u8>, name: Seq<u8>) -> CompoundView {
    CompoundView { tag: "probe"@, ops: seq![OpView::PutFh(parent), OpView::Remove { name }] }
}

/// Whether the answer to [`discard_call`] says that the name is gone.
pub open spec fn discarded(answer: Answer) -> bool {
    answer matches Ok(reply) && reply_at(reply, 1) matches Ok(result) && result is Remove
}

/// The whole probe.
pub open spec fn qualify_run<T: RawTransport>(
    owners: RegistryView,
    world: T::World,
    private: PinnedObjectView,
    deadline: Deadline,
) -> (bool, RegistryView, T::World) {
    if T::boundary_of(world) != PersistenceBoundary::RemoteServer {
        (false, owners, world)
    } else {
        match adopt_name(vstd::utf8::encode_utf8(PROBE_FILE@)) {
            Err(_) => (false, owners, world),
            Ok(name) => {
                let discard = discard_call(private.handle, name);
                let (opened, minted, at_open) = open_object_run::<T>(
                    owners,
                    world,
                    private,
                    name,
                    CreateDisposition::OpenOrCreate { mode: 0o600 },
                    ShareAccess::WRITE,
                    deadline,
                );
                match opened {
                    Err(_) => (false, minted, T::after(at_open, discard, deadline)),
                    Ok(open) => {
                        let session = minted.session;
                        let (matched, cycled) = cycle_run::<T>(open, session, at_open, deadline);
                        let (released, left) = release_run::<T>(open, session, cycled, deadline);
                        (
                            matched && released && discarded(
                                T::answer(left, discard, deadline),
                            ),
                            minted,
                            T::after(left, discard, deadline),
                        )
                    },
                }
            },
        }
    }
}

/// Whether this run may advertise a qualified durability.
///
/// The transport has to declare [`PersistenceBoundary::RemoteServer`], and the
/// whole cycle has to complete against the run's private directory, leaving
/// nothing behind. A transport that declares nothing has no synthetic write put
/// through it at all.
pub fn qualify<T: RawTransport>(
    transport: &mut T,
    owners: &mut OpenOwnerRegistry,
    private: &Anchor,
    deadline: Deadline,
) -> (r: bool)
    ensures
        (r, final(owners)@, final(transport).world()) == qualify_run::<T>(
            old(owners)@,
            old(transport).world(),
            private@.pin,
            deadline,
        ),
{
    match transport.persistence_boundary() {
        PersistenceBoundary::RemoteServer => {},
        _ => {
            return false;
        },
    }
    let name = match ComponentName::new(copy_bytes(PROBE_FILE.as_bytes())) {
        Ok(name) => name,
        Err(_) => {
            return false;
        },
    };
    // Create it, or adopt the one a crashed predecessor left.
    let open = match OpenObject::open(
        owners,
        transport,
        private.pin(),
        &name,
        CreateDisposition::OpenOrCreate { mode: 0o600 },
        ShareAccess::WRITE,
        deadline,
    ) {
        Ok(open) => open,
        Err(_) => {
            // An OPEN that failed may still have created the name, and this is the
            // only chance to take it back.
            let _ = unlink(transport, private, &name, deadline);
            return false;
        },
    };
    let matched = cycle(transport, &open, owners.session(), deadline);
    let released = release(open, owners.session(), transport, deadline);
    let removed = unlink(transport, private, &name, deadline);
    matched && released && removed
}

/// CLOSE the probe's open, and report whether the server really released it.
///
/// A refused CLOSE hands the open back because it is still valid, so it is closed
/// once more. One retry, not a loop.
fn release<T: RawTransport>(
    open: OpenObject,
    session: &Session,
    transport: &mut T,
    deadline: Deadline,
) -> (r: bool)
    ensures
        (r, final(transport).world()) == release_run::<T>(
            open@,
            session@,
            old(transport).world(),
            deadline,
        ),
{
    match open.close(session, transport, deadline) {
        CloseOutcome::Closed(_) => true,
        CloseOutcome::Rejected { file, .. } => match close(file, session, transport, deadline) {
            CloseOutcome::Closed(_) => true,
            _ => false,
        },
        CloseOutcome::Abandoned { .. } => false,
    }
}

/// An unstable WRITE and a COMMIT, and whether the verifiers matched.
///
/// The transport's own helpers are used, because the logged ones would record an
/// intent and an outcome for a key no caller ever issued.
fn cycle<T: RawTransport>(
    transport: &mut T,
    open: &OpenObject,
    session: &Session,
    deadline: Deadline,
) -> (r: bool)
    ensures
        (r, final(transport).world()) == cycle_run::<T>(
            open@,
            session@,
            old(transport).world(),
            deadline,
        ),
{
    let stateid = match open.stateid(session) {
        Ok(stateid) => stateid,
        Err(_) => {
            return false;
        },
    };
    let payload = copy_bytes(PROBE_PAYLOAD.as_bytes());
    let length: u64 = payload.len() as u64;
    let written = match transport.write(
        open.handle(),
        stateid,
        0,
        Stability::Unstable,
        payload,
        deadline,
    ) {
        Ok(written) => written,
        Err(_) => {
            return false;
        },
    };
    // A short write is a legal reply, but the COMMIT would then cover a range that
    // was not filled.
    if written.count as u64 != length {
        return false;
    }
    match transport.commit(open.handle(), 0, written.count, deadline) {
        Ok(committed) => same_verifier(&committed.verifier.0, &written.verifier.0),
        Err(_) => false,
    }
}

/// `PUTFH; REMOVE`, reporting only whether the name is gone.
fn unlink<T: RawTransport>(
    transport: &mut T,
    private: &Anchor,
    name: &ComponentName,
    deadline: Deadline,
) -> (r: bool)
    ensures
        r == discarded(
            T::answer(
                old(transport).world(),
                discard_call(private@.pin.handle, name@),
                deadline,
            ),
        ),
        final(transport).world() == T::after(
            old(transport).world(),
            discard_call(private@.pin.handle, name@),
            deadline,
        ),
{
    let call = Compound::new(
        "probe",
        vec![
            Nfs4Op::PutFh(private.pin().handle().clone()),
            Nfs4Op::Remove { name: name.clone() },
        ],
    );
    proof {
        assert(call@ =~= discard_call(private@.pin.handle, name@));
    }
    match transport.submit(call, deadline) {
        Err(_) => false,
        Ok(reply) => match reply.expect(1) {
            Ok(OpReply::Remove(_)) => true,
            _ => false,
        },
    }
}

/// A transport that declares no boundary never qualifies, and nothing is sent on
/// it.
pub proof fn an_undeclared_boundary_is_not_probed<T: RawTransport>(
    owners: RegistryView,
    world: T::World,
    private: PinnedObjectView,
    deadline: Deadline,
)
    requires
        T::boundary_of(world) != PersistenceBoundary::RemoteServer,
    ensures
        qualify_run::<T>(owners, world, private, deadline) == (false, owners, world),
{
}

/// The probe's artifact has a name that is valid on the wire.
proof fn the_artifact_has_a_valid_name()
    ensures
        adopt_name(vstd::utf8::encode_utf8(PROBE_FILE@)) == Ok::<
            Seq<u8>,
            crate::error::TransportErrorView,
        >(vstd::utf8::encode_utf8(PROBE_FILE@)),
{
    let name = vstd::utf8::encode_utf8(PROBE_FILE@);
    reveal_strlit("boundary-probe");
    assert(vstd::utf8::is_ascii_chars(PROBE_FILE@));
    vstd::utf8::is_ascii_chars_encode_utf8(PROBE_FILE@);
    assert(name.len() == 14);
    assert forall|i: int| 0 <= i < name.len() implies name[i] != 47u8 && name[i] != 0u8 by {
        assert(PROBE_FILE@[i] as u8 == name[i]);
    }
}

/// On a transport that declares a boundary the last thing the probe sends is the
/// REMOVE of its artifact, whatever came of the rest.
pub proof fn the_artifact_is_always_removed<T: RawTransport>(
    owners: RegistryView,
    world: T::World,
    private: PinnedObjectView,
    deadline: Deadline,
)
    requires
        T::boundary_of(world) == PersistenceBoundary::RemoteServer,
    ensures
        exists|before: T::World|
            #![trigger T::after(
                before,
                discard_call(private.handle, vstd::utf8::encode_utf8(PROBE_FILE@)),
                deadline,
            )]
            qualify_run::<T>(owners, world, private, deadline).2 == T::after(
                before,
                discard_call(private.handle, vstd::utf8::encode_utf8(PROBE_FILE@)),
                deadline,
            ),
{
    the_artifact_has_a_valid_name();
    let name = vstd::utf8::encode_utf8(PROBE_FILE@);
    let discard = discard_call(private.handle, name);
    let (opened, minted, at_open) = open_object_run::<T>(
        owners,
        world,
        private,
        name,
        CreateDisposition::OpenOrCreate { mode: 0o600 },
        ShareAccess::WRITE,
        deadline,
    );
    if let Ok(open) = opened {
        let session = minted.session;
        let cycled = cycle_run::<T>(open, session, at_open, deadline).1;
        let left = release_run::<T>(open, session, cycled, deadline).1;
        assert(qualify_run::<T>(owners, world, private, deadline).2 == T::after(
            left,
            discard,
            deadline,
        ));
    } else {
        assert(qualify_run::<T>(owners, world, private, deadline).2 == T::after(
            at_open,
            discard,
            deadline,
        ));
    }
}

} // verus!
