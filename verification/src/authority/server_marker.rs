//! A [`MarkerStore`] that lives on the server.
//!
//! The contender must be denied by the server, not by a read followed by a write
//! that two hosts can interleave. The one operation that rests on is OPEN with
//! `GUARDED4`, which answers `NFS4ERR_EXIST` when the name is already there. An
//! exclusive create is not used: it is designed to let a replay with the same
//! verifier succeed a second time, which is wrong for admission.
use vstd::prelude::*;

use crate::bytes::{append_bytes, copy_bytes};
use crate::contract::{res_view, LeaseEpoch};
use crate::crud::{read_whole, whole_run, WholeReadView};
use crate::error::{
    status_of, unproven, unproven_error, FacadeError, FacadeErrorView, FacadeResult, Nfs4Status,
};
use crate::handle::{stateid_answer, FileHandle, OpenFile, OpenFileView, Stateid};
use crate::state::open_owner::{
    after_allocation, allocation, close, close_failure, close_run, open_run, OpenOutcome,
    OpenOutcomeView, OpenOwnerRegistry, OpenRequest, OpenRequestView, RegistryView,
};
use crate::text::{decimal, decimal_text, join3};
use crate::transport::{
    adopt_name, write_answer, write_call, ComponentName, Deadline,
    OpenHow, RawTransport, ShareAccess, ShareDeny, Stability,
};

use super::marker::{
    marker_error_text, ExclusiveCreate, MarkerError, MarkerErrorView, MarkerStore,
    EXTENDED_MARKER_BYTES,
};

verus! {

/// Mode the marker is created with.
pub const MARKER_MODE: u32 = 0o600;

/// What stands between a marker's name and the epoch in the name of a claim.
pub const CLAIM_INFIX: &'static str = ".epoch-";

/// The admission marker as a file on the export, driven over a [`RawTransport`].
pub struct ServerMarkerStore<'a, T: RawTransport> {
    transport: &'a mut T,
    owners: &'a mut OpenOwnerRegistry,
    parent: FileHandle,
    name: ComponentName,
    deadline: Deadline,
}

/// The content of a [`ServerMarkerStore`].
pub struct ServerMarkerView<W> {
    /// The transport's world.
    pub world: W,
    /// The open owners.
    pub owners: RegistryView,
    /// The directory holding the marker.
    pub parent: Seq<u8>,
    /// The marker's name.
    pub name: Seq<u8>,
    /// Deadline of every call.
    pub deadline: Deadline,
}

/// Open a name beside the marker.
pub open spec fn open_beside_run<T: RawTransport>(
    store: ServerMarkerView<T::World>,
    name: Seq<u8>,
    how: OpenHow,
    share_access: ShareAccess,
) -> (Result<(OpenFileView, Stateid), FacadeErrorView>, ServerMarkerView<T::World>) {
    let minted = after_allocation(store.owners);
    match allocation(store.owners) {
        Err(error) => (Err(error), ServerMarkerView { owners: minted, ..store }),
        Ok(lease) => {
            let (outcome, world) = open_run::<T>(
                minted.session,
                lease,
                store.world,
                OpenRequestView {
                    parent: store.parent,
                    name,
                    how,
                    share_access,
                    share_deny: ShareDeny::NONE,
                },
                store.deadline,
            );
            (
                match outcome {
                    OpenOutcomeView::Opened(file) => match stateid_answer(
                        file,
                        minted.session,
                    ) {
                        Err(error) => Err(error),
                        Ok(stateid) => Ok((file, stateid)),
                    },
                    OpenOutcomeView::Unconfirmed { error, .. } => Err(error),
                    OpenOutcomeView::Rejected { error, .. } => Err(error),
                    OpenOutcomeView::Abandoned { error } => Err(error),
                },
                ServerMarkerView { world, owners: minted, ..store },
            )
        },
    }
}

/// The failure an operation on an open amounts to once the open is closed: its own,
/// or else that of the CLOSE.
pub open spec fn after_close<R>(
    result: Result<R, FacadeErrorView>,
    failure: Option<FacadeErrorView>,
) -> Result<R, FacadeErrorView> {
    match (result, failure) {
        (Ok(_), Some(error)) => Err(error),
        _ => result,
    }
}

/// What a stable write of a whole marker amounts to: a short write is a failure.
pub open spec fn whole_marker(
    answer: crate::transport::Answer,
    wanted: nat,
) -> Result<(), FacadeErrorView> {
    match write_answer(answer) {
        Err(error) => Err(error),
        Ok(reply) => if reply.count == wanted {
            Ok(())
        } else {
            Err(
                unproven(
                    "admission marker write was short: "@ + decimal(reply.count as nat) + " of "@
                        + decimal(wanted)
                        + " bytes, so the record on the server is not a complete marker"@,
                ),
            )
        },
    }
}

/// Open the marker, write it whole, and close it either way.
pub open spec fn put_run<T: RawTransport>(
    store: ServerMarkerView<T::World>,
    how: OpenHow,
    bytes: Seq<u8>,
) -> (Result<(), FacadeErrorView>, ServerMarkerView<T::World>) {
    let (opened, held) = open_beside_run::<T>(store, store.name, how, ShareAccess::WRITE);
    match opened {
        Err(error) => (Err(error), held),
        Ok((file, stateid)) => {
            let call = write_call(file.handle, stateid, 0, Stability::FileSync, bytes);
            let result = whole_marker(
                T::answer(held.world, call, held.deadline),
                bytes.len(),
            );
            let (outcome, world) = close_run::<T>(
                file,
                held.owners.session,
                T::after(held.world, call, held.deadline),
                held.deadline,
            );
            (
                after_close(result, close_failure(outcome)),
                ServerMarkerView { world, ..held },
            )
        },
    }
}

/// What reading a marker amounts to. One longer than any record is refused rather
/// than read as a truncated one.
pub open spec fn marker_read(read: Result<WholeReadView, FacadeErrorView>) -> Result<
    Seq<u8>,
    FacadeErrorView,
> {
    match read {
        Err(error) => Err(error),
        Ok(whole) => if whole.complete {
            Ok(whole.data)
        } else {
            Err(
                unproven(
                    marker_error_text(
                        MarkerErrorView::Malformed("more bytes than a record holds"@),
                    ),
                ),
            )
        },
    }
}

/// Open the marker, read it whole, and close it either way.
pub open spec fn fetch_run<T: RawTransport>(store: ServerMarkerView<T::World>) -> (
    Result<Seq<u8>, FacadeErrorView>,
    ServerMarkerView<T::World>,
) {
    let (opened, held) = open_beside_run::<T>(
        store,
        store.name,
        OpenHow::NoCreate,
        ShareAccess::READ,
    );
    match opened {
        Err(error) => (Err(error), held),
        Ok((file, stateid)) => {
            let (read, at_read) = whole_run::<T>(
                held.world,
                file.handle,
                stateid,
                EXTENDED_MARKER_BYTES as u32,
                held.deadline,
            );
            let (outcome, world) = close_run::<T>(
                file,
                held.owners.session,
                at_read,
                held.deadline,
            );
            (
                after_close(marker_read(read), close_failure(outcome)),
                ServerMarkerView { world, ..held },
            )
        },
    }
}

/// The name of the claim on one epoch.
pub open spec fn claim_name(name: Seq<u8>, epoch: LeaseEpoch) -> Seq<u8> {
    name + vstd::utf8::encode_utf8(CLAIM_INFIX@) + vstd::utf8::encode_utf8(decimal(epoch.0 as nat))
}

/// Create the name of a claim, and close it.
pub open spec fn stake_run<T: RawTransport>(
    store: ServerMarkerView<T::World>,
    epoch: LeaseEpoch,
) -> (Result<(), FacadeErrorView>, ServerMarkerView<T::World>) {
    match adopt_name(claim_name(store.name, epoch)) {
        Err(error) => (Err(FacadeErrorView::Transport(error)), store),
        Ok(name) => {
            let (opened, held) = open_beside_run::<T>(
                store,
                name,
                OpenHow::Guarded { mode: MARKER_MODE },
                ShareAccess::WRITE,
            );
            match opened {
                Err(error) => (Err(error), held),
                Ok((file, _)) => {
                    let (outcome, world) = close_run::<T>(
                        file,
                        held.owners.session,
                        held.world,
                        held.deadline,
                    );
                    (
                        after_close(Ok(()), close_failure(outcome)),
                        ServerMarkerView { world, ..held },
                    )
                },
            }
        },
    }
}

/// What a guarded create amounts to. `NFS4ERR_EXIST` is the server's denial, and
/// the one status that is not a failure.
pub open spec fn guarded(result: Result<(), FacadeErrorView>) -> Result<
    ExclusiveCreate,
    FacadeErrorView,
> {
    match result {
        Ok(()) => Ok(ExclusiveCreate::Created),
        Err(error) => if status_of(error) == Some(Nfs4Status(Nfs4Status::EXIST)) {
            Ok(ExclusiveCreate::Exists)
        } else {
            Err(error)
        },
    }
}

/// What a read of the marker amounts to. No marker is an answer, not a failure.
pub open spec fn present(result: Result<Seq<u8>, FacadeErrorView>) -> Result<
    Option<Seq<u8>>,
    FacadeErrorView,
> {
    match result {
        Ok(bytes) => Ok(Some(bytes)),
        Err(error) => if status_of(error) == Some(Nfs4Status(Nfs4Status::NOENT)) {
            Ok(None)
        } else {
            Err(error)
        },
    }
}

impl<'a, T: RawTransport> ServerMarkerStore<'a, T> {
    /// A store for `name` inside the directory `parent`.
    ///
    /// `owners` is borrowed, so the marker's opens share the session's client id
    /// and seqid discipline.
    pub fn new(
        transport: &'a mut T,
        owners: &'a mut OpenOwnerRegistry,
        parent: FileHandle,
        name: ComponentName,
        deadline: Deadline,
    ) -> (r: Self)
        ensures
            r.state() == (ServerMarkerView {
                world: old(transport).world(),
                owners: old(owners)@,
                parent: parent@,
                name: name@,
                deadline,
            }),
    {
        ServerMarkerStore { transport, owners, parent, name, deadline }
    }

    fn open_beside(&mut self, name: ComponentName, how: OpenHow, share_access: ShareAccess) -> (r:
        FacadeResult<(OpenFile, Stateid)>)
        ensures
            (
                match r {
                    Ok((file, stateid)) => Ok((file@, stateid)),
                    Err(error) => Err(error@),
                },
                (*final(self)).state(),
            ) == open_beside_run::<T>((*old(self)).state(), name@, how, share_access),
    {
        let lease = match self.owners.allocate() {
            Ok(lease) => lease,
            Err(error) => {
                return Err(error);
            },
        };
        let request = OpenRequest {
            parent: self.parent.clone(),
            name,
            how,
            share_access,
            // Writers are arbitrated by the marker's contents, and a share
            // reservation must not be mistaken for that.
            share_deny: ShareDeny::NONE,
        };
        let deadline = self.deadline;
        let file = match self.owners.open(lease, &mut *self.transport, &request, deadline) {
            OpenOutcome::Opened(file) => file,
            OpenOutcome::Unconfirmed { error, .. } => {
                return Err(error);
            },
            OpenOutcome::Rejected { error, .. } => {
                return Err(error);
            },
            OpenOutcome::Abandoned { error } => {
                return Err(error);
            },
        };
        match file.stateid(self.owners.session()) {
            Ok(stateid) => Ok((file, stateid)),
            Err(error) => Err(error),
        }
    }

    fn put(&mut self, how: OpenHow, bytes: &[u8]) -> (r: FacadeResult<()>)
        ensures
            (res_view(r), (*final(self)).state()) == put_run::<T>(
                (*old(self)).state(),
                how,
                bytes@,
            ),
    {
        let (file, stateid) = match self.open_beside(self.name.clone(), how, ShareAccess::WRITE) {
            Ok(opened) => opened,
            Err(error) => {
                return Err(error);
            },
        };
        let deadline = self.deadline;
        // Stable: the marker is ownership evidence, durable before this returns.
        let result: FacadeResult<()> = match self.transport.write(
            file.handle(),
            stateid,
            0,
            Stability::FileSync,
            copy_bytes(bytes),
            deadline,
        ) {
            Err(error) => Err(error),
            Ok(reply) => {
                if reply.count as u64 == bytes.len() as u64 {
                    Ok(())
                } else {
                    Err(
                        unproven_error(
                            join3(
                                "admission marker write was short: ",
                                decimal_text(reply.count as u64).as_str(),
                                " of ",
                            ).concat(decimal_text(bytes.len() as u64).as_str()).concat(
                                " bytes, so the record on the server is not a complete marker",
                            ).as_str(),
                        ),
                    )
                }
            },
        };
        let failure = close(
            file,
            self.owners.session(),
            &mut *self.transport,
            deadline,
        ).failure();
        match (result, failure) {
            (Ok(()), Some(error)) => Err(error),
            (settled, _) => settled,
        }
    }
}

impl<'a, T: RawTransport> MarkerStore for ServerMarkerStore<'a, T> {
    type State = ServerMarkerView<T::World>;

    closed spec fn state(&self) -> ServerMarkerView<T::World> {
        ServerMarkerView {
            world: self.transport.world(),
            owners: self.owners@,
            parent: self.parent@,
            name: self.name@,
            deadline: self.deadline,
        }
    }

    open spec fn creating(state: ServerMarkerView<T::World>, bytes: Seq<u8>) -> (
        Result<ExclusiveCreate, FacadeErrorView>,
        ServerMarkerView<T::World>,
    ) {
        let (result, after) = put_run::<T>(state, OpenHow::Guarded { mode: MARKER_MODE }, bytes);
        (guarded(result), after)
    }

    open spec fn reading(state: ServerMarkerView<T::World>) -> (
        Result<Option<Seq<u8>>, FacadeErrorView>,
        ServerMarkerView<T::World>,
    ) {
        let (result, after) = fetch_run::<T>(state);
        (present(result), after)
    }

    open spec fn overwriting(state: ServerMarkerView<T::World>, bytes: Seq<u8>) -> (
        Result<(), FacadeErrorView>,
        ServerMarkerView<T::World>,
    ) {
        put_run::<T>(state, OpenHow::NoCreate, bytes)
    }

    open spec fn claiming(state: ServerMarkerView<T::World>, epoch: LeaseEpoch) -> (
        Result<ExclusiveCreate, FacadeErrorView>,
        ServerMarkerView<T::World>,
    ) {
        let (result, after) = stake_run::<T>(state, epoch);
        (guarded(result), after)
    }

    fn create_exclusive(&mut self, bytes: &[u8]) -> (r: FacadeResult<ExclusiveCreate>) {
        match self.put(OpenHow::Guarded { mode: MARKER_MODE }, bytes) {
            Ok(()) => Ok(ExclusiveCreate::Created),
            Err(error) => {
                if error.is_status(Nfs4Status::EXIST) {
                    return Ok(ExclusiveCreate::Exists);
                }
                Err(error)
            },
        }
    }

    fn read(&mut self) -> (r: FacadeResult<Option<Vec<u8>>>) {
        let (file, stateid) = match self.open_beside(
            self.name.clone(),
            OpenHow::NoCreate,
            ShareAccess::READ,
        ) {
            Ok(opened) => opened,
            Err(error) => {
                if error.is_status(Nfs4Status::NOENT) {
                    return Ok(None);
                }
                return Err(error);
            },
        };
        let deadline = self.deadline;
        let result: FacadeResult<Vec<u8>> = match read_whole(
            &mut *self.transport,
            file.handle(),
            stateid,
            EXTENDED_MARKER_BYTES as u32,
            deadline,
        ) {
            Err(error) => Err(error),
            Ok(whole) => {
                if whole.complete {
                    Ok(whole.data)
                } else {
                    Err(
                        MarkerError::Malformed(
                            "more bytes than a record holds".to_owned(),
                        ).to_facade(),
                    )
                }
            },
        };
        let failure = close(
            file,
            self.owners.session(),
            &mut *self.transport,
            deadline,
        ).failure();
        let settled: FacadeResult<Vec<u8>> = match (result, failure) {
            (Ok(_), Some(error)) => Err(error),
            (settled, _) => settled,
        };
        match settled {
            Ok(bytes) => Ok(Some(bytes)),
            Err(error) => {
                if error.is_status(Nfs4Status::NOENT) {
                    return Ok(None);
                }
                Err(error)
            },
        }
    }

    fn overwrite(&mut self, bytes: &[u8]) -> (r: FacadeResult<()>) {
        self.put(OpenHow::NoCreate, bytes)
    }

    fn claim_succession(&mut self, epoch: LeaseEpoch) -> (r: FacadeResult<ExclusiveCreate>) {
        let mut bytes = copy_bytes(self.name.as_bytes());
        append_bytes(&mut bytes, CLAIM_INFIX.as_bytes());
        append_bytes(&mut bytes, decimal_text(epoch.0).as_str().as_bytes());
        let name = match ComponentName::new(bytes) {
            Ok(name) => name,
            Err(error) => {
                let refused = FacadeError::Transport(error);
                return Err(refused);
            },
        };
        let (file, _) = match self.open_beside(
            name,
            OpenHow::Guarded { mode: MARKER_MODE },
            ShareAccess::WRITE,
        ) {
            Ok(opened) => opened,
            Err(error) => {
                if error.is_status(Nfs4Status::EXIST) {
                    return Ok(ExclusiveCreate::Exists);
                }
                return Err(error);
            },
        };
        let deadline = self.deadline;
        match close(file, self.owners.session(), &mut *self.transport, deadline).failure() {
            None => Ok(ExclusiveCreate::Created),
            Some(error) => {
                if error.is_status(Nfs4Status::EXIST) {
                    return Ok(ExclusiveCreate::Exists);
                }
                Err(error)
            },
        }
    }
}

} // verus!
