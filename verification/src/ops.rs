//! The operations surface: one typed primitive in, one typed response out.
//!
//! Every request ends in exactly one of: the typed response, a refusal naming a
//! capability this provider will not offer, or a refusal naming what owes the
//! wiring. Nothing returns a success it did not perform, and nothing substitutes a
//! weaker operation for a stronger one that is unavailable.
//!
//! A mutation needs a [`MutationContext`]: an open-owner registry from a confirmed
//! client incarnation, and a writer epoch on the request. Reads need neither, and
//! take the anonymous-stateid path, so they mint no open owner and consume no
//! seqid. Every object an operation adopts has to be on the run's file system.
use vstd::prelude::*;

pub mod changes;
pub mod gates;
pub mod ground;
pub mod files;
pub mod names;
pub mod openings;
pub mod persisted;
pub mod reads;

use crate::anchor::{
    component, component_of, contract_anchor_of, foreign_filesystem, on_filesystem,
    open_anchors_run, resolve_parent_run, resolve_run, session_serial, token_bytes,
    within_labelled, Anchor, HandleMint, RunAnchors, RunAnchorsView, Target, TargetView,
};
use crate::bytes::copy_bytes;
use crate::capability::{
    name_of, operation_name, refusal, storage_support, support_of, Support,
};
use crate::contract::{
    hyphenated, mutates, opt_view, request_fault, res_view, seq_view, split_components, split_path,
    umbra, validate_request, CreateKind, CreateKindView, DirectoryPage, Durability, ErrorKind,
    Fencing, ListCursor, MAX_DIRECTORY_ENTRIES, MAX_IO_BYTES, MetadataUpdate, ObjectResult,
    ObjectResultView, OpenRunIntent, OpenRunRequest, OpenRunRequestView, RenameMode,
    RequestContextView, RunBinding, RunBindingView, RunId, RuntimeDirectoryBindingView,
    StorageAnchor, StorageCapabilities, StorageCapabilitiesView, StorageOperation,
    StorageOperationView, StoragePath, StoragePathView, StoragePolicy, StorageRequest,
    StorageRequestView, StorageResponse, StorageResponseView, StorageResult, UmbraError,
    UmbraErrorView,
};
use crate::crud::{
    identities_in, open_object_run, read_anonymous, write_run, CreateDisposition,
    MutationIdentity, OpenObject, WriteAt, WriteAtView,
};
use crate::error::to_umbra;
use crate::handle::{anonymous, stateid_answer, FileHandle, Session, SessionView};
use crate::identity::{adopt_pin, pin_run, stat_run, PinnedObject, PinnedObjectView};
use crate::journal::Preconditions;
use crate::namespace::{
    apply, apply_run, unbound, NamespaceDispatcher, NamespaceMutation, NamespaceMutationView,
    NamespaceOutcome, NamespaceOutcomeView, RemoveKind,
};
use crate::pages::{page, page_run, private_name, NoiseFilter, BYTES_PER_ENTRY};
use crate::replay::{Ledger, ReplayLog};
use crate::state::open_owner::{
    close_failure, close_run, OpenOwnerRegistry, RegistryView,
};
use crate::storage::{NfsUserspaceConfig, NfsUserspaceConfigView, FORMAT_VERSION};
use crate::text::{
    decimal, decimal_text, join, join3, lossy_text, quoted, quoted_text, utf8_lossy,
};
use crate::transport::{
    lookup_answer, lookup_call, read_answer, read_call, AttrMask, ComponentName, Deadline, Nfs4Type,
    RawTransport, ShareAccess, Stability, TransportLimits, Verifier,
};

verus! {

/// What the server holds now, as a recovery reads it.
#[derive(Debug, PartialEq, Eq)]
pub struct Observation {
    /// The current state of the objects a request addresses.
    pub evidence: Preconditions,
    /// The object at a rename's destination, where it could be read.
    pub destination_result: Option<ObjectResult>,
}

/// The content of an [`Observation`].
pub struct ObservationView {
    /// The current state of the objects a request addresses.
    pub evidence: Preconditions,
    /// The object at a rename's destination, where it could be read.
    pub destination_result: Option<ObjectResultView>,
}

impl View for Observation {
    type V = ObservationView;

    open spec fn view(&self) -> ObservationView {
        ObservationView {
            evidence: self.evidence,
            destination_result: opt_view(self.destination_result),
        }
    }
}

/// Everything one request needs that the run binding does not own.
pub struct OpsContext<'a, T: RawTransport, L: ReplayLog, D: NamespaceDispatcher<T>> {
    /// The transport to dispatch on.
    pub transport: &'a mut T,
    /// The replay ledger every write records its intent in.
    pub replay: &'a mut L,
    /// Present only when the caller holds proven writer authority.
    pub mutations: Option<MutationContext<'a, D>>,
    /// Deadline applied to every COMPOUND this request submits.
    pub deadline: Deadline,
}

/// The extra state a mutation needs, and a read does not.
pub struct MutationContext<'a, D> {
    /// Open owners minted from a confirmed client incarnation.
    pub owners: &'a mut OpenOwnerRegistry,
    /// Create verifier for this request's idempotency key, when the caller
    /// retained one.
    pub create_verifier: Option<Verifier>,
    /// Puts a namespace mutation on the wire, when one is bound.
    pub namespace: Option<&'a mut D>,
}

/// The content of a [`MutationContext`].
pub struct AuthorityView<S> {
    /// The open owners.
    pub owners: RegistryView,
    /// The retained create verifier.
    pub create_verifier: Option<Verifier>,
    /// The state of the bound dispatcher.
    pub namespace: Option<S>,
}

/// What a mutation reads and changes: the transport's world and the authority.
pub struct Bench<W, S> {
    /// The transport's world.
    pub world: W,
    /// The authority, where there is one.
    pub mutations: Option<AuthorityView<S>>,
}

/// The content of an optional [`MutationContext`].
pub open spec fn authority_of<T: RawTransport, D: NamespaceDispatcher<T>>(
    mutations: Option<MutationContext<'_, D>>,
) -> Option<AuthorityView<D::State>> {
    match mutations {
        None => None,
        Some(bound) => Some(
            AuthorityView {
                owners: bound.owners@,
                create_verifier: bound.create_verifier,
                namespace: match bound.namespace {
                    None => None,
                    Some(dispatcher) => Some(dispatcher.state()),
                },
            },
        ),
    }
}

/// Finite limits this provider will honour, derived from the bound transport.
#[derive(Clone, Copy, Debug, PartialEq, Eq, Structural)]
pub struct OperationLimits {
    /// Largest single read or write.
    pub max_io_bytes: u32,
    /// Largest directory page.
    pub max_directory_entries: u32,
}

/// The limits a transport's own bounds allow: the least of what the contract
/// permits and what the transport carries.
pub open spec fn limits_from(limits: TransportLimits) -> OperationLimits {
    let reply: int = if limits.max_reply_bytes > u32::MAX {
        u32::MAX as int
    } else {
        limits.max_reply_bytes as int
    };
    let entries = reply / BYTES_PER_ENTRY as int;
    OperationLimits {
        max_io_bytes: if reply > MAX_IO_BYTES {
            MAX_IO_BYTES
        } else {
            reply as u32
        },
        max_directory_entries: if entries < 1 {
            1
        } else if entries > MAX_DIRECTORY_ENTRIES {
            MAX_DIRECTORY_ENTRIES
        } else {
            entries as u32
        },
    }
}

impl OperationLimits {
    /// Derive limits from a transport's own bounds.
    pub fn from_transport<T: RawTransport>(transport: &T) -> (r: Self)
        ensures
            r == limits_from(T::limits_of(transport.world())),
    {
        let bytes: usize = transport.limits().max_reply_bytes;
        let reply: u32 = if bytes as u64 > u32::MAX as u64 {
            u32::MAX
        } else {
            bytes as u32
        };
        let entries: u32 = reply / BYTES_PER_ENTRY;
        OperationLimits {
            max_io_bytes: if reply > MAX_IO_BYTES {
                MAX_IO_BYTES
            } else {
                reply
            },
            max_directory_entries: if entries < 1 {
                1
            } else if entries > MAX_DIRECTORY_ENTRIES {
                MAX_DIRECTORY_ENTRIES
            } else {
                entries
            },
        }
    }
}

/// One opened run's operations surface.
#[derive(Debug)]
pub struct Operations {
    run_id: RunId,
    anchors: RunAnchors,
    mint: HandleMint,
    limits: OperationLimits,
    policy: StoragePolicy,
}

/// The content of [`Operations`].
pub struct OperationsView {
    /// The run this surface is bound to.
    pub run_id: RunId,
    /// The resolved anchors.
    pub anchors: RunAnchorsView,
    /// The serial tokens of this session carry.
    pub serial: u64,
    /// The limits honoured.
    pub limits: OperationLimits,
    /// The policy the run was opened under.
    pub policy: StoragePolicy,
}

impl View for Operations {
    type V = OperationsView;

    closed spec fn view(&self) -> OperationsView {
        OperationsView {
            run_id: self.run_id,
            anchors: self.anchors@,
            serial: self.mint.serial(),
            limits: self.limits,
            policy: self.policy,
        }
    }
}

/// Why a request to open a run is refused before the run is touched, if it is.
pub open spec fn open_refusal(request: OpenRunRequestView) -> Option<UmbraErrorView> {
    if request.policy.require_kernel_shadow {
        Some(
            umbra(
                ErrorKind::UnsupportedCapability,
                "open_run"@,
                "this provider has no kernel-visible shadow: it speaks NFSv4 itself and                  publishes no physical path"@,
            ),
        )
    } else if request.policy.require_strict_remote_persistence {
        Some(
            umbra(
                ErrorKind::UnsupportedCapability,
                "open_run"@,
                "strict remote persistence is not qualified by this provider; it advertises                  Durability::None and must not accept a run that requires more"@,
            ),
        )
    } else if request.policy.format_version != FORMAT_VERSION {
        Some(
            umbra(
                ErrorKind::ProtocolMismatch,
                "open_run"@,
                "run format version "@ + decimal(request.policy.format_version as nat)
                    + " is not the "@ + decimal(FORMAT_VERSION as nat) + " this provider reads"@,
            ),
        )
    } else if request.policy.read_only && request.intent == OpenRunIntent::CreateNew {
        Some(
            umbra(
                ErrorKind::Denied,
                "open_run"@,
                "a read-only run cannot be created: creation is itself a mutation"@,
            ),
        )
    } else {
        None
    }
}

/// Open a run and resolve its anchors.
pub open spec fn open_operations_run<T: RawTransport>(
    world: T::World,
    config: NfsUserspaceConfigView,
    request: OpenRunRequestView,
    serial: u64,
    deadline: Deadline,
) -> (Result<OperationsView, UmbraErrorView>, T::World) {
    match open_refusal(request) {
        Some(error) => (Err(error), world),
        None => {
            let (opened, after) = open_anchors_run::<T>(
                world,
                config,
                request.run_id,
                request.intent,
                deadline,
            );
            (
                match opened {
                    Err(error) => Err(error),
                    Ok(anchors) => Ok(
                        OperationsView {
                            run_id: request.run_id,
                            anchors,
                            serial: session_serial(request.run_id.0@, serial),
                            limits: limits_from(T::limits_of(after)),
                            policy: request.policy,
                        },
                    ),
                },
                after,
            )
        },
    }
}

/// What an opened run offers: finite limits that are met, and nothing else.
pub open spec fn offered(limits: OperationLimits) -> StorageCapabilitiesView {
    StorageCapabilitiesView {
        features: Seq::empty(),
        durability: Durability::NoClaim,
        strict_remote_persistence: false,
        fencing: Fencing::ReadOnly,
        kernel_shadow: false,
        complete_emulation: false,
        hard_links: false,
        logical_symlinks: false,
        xattrs: false,
        atomic_replace: false,
        atomic_swap: false,
        max_io_bytes: limits.max_io_bytes,
        max_directory_entries: limits.max_directory_entries,
    }
}

/// Why a request may not have any effect on this surface, if it may not.
pub open spec fn preflight_fault(ops: OperationsView, request: StorageRequestView) -> Option<
    UmbraErrorView,
> {
    let operation = name_of(request.operation);
    match request_fault(
        ops.limits.max_io_bytes,
        ops.limits.max_directory_entries,
        request,
        operation,
    ) {
        Some(error) => Some(error),
        None => if ops.policy.read_only && mutates(request.operation) {
            Some(
                umbra(
                    ErrorKind::Denied,
                    operation,
                    "this run was opened read-only; it does not accept mutations"@,
                ),
            )
        } else if request.context.run_id != ops.run_id {
            Some(
                umbra(
                    ErrorKind::InvalidInput,
                    operation,
                    "the request names run "@ + hyphenated(request.context.run_id.0@)
                        + ", but this surface is bound to run "@ + hyphenated(ops.run_id.0@),
                ),
            )
        } else if support_of(request.operation) is Unsupported {
            Some(refusal(support_of(request.operation), operation))
        } else {
            None
        },
    }
}

/// The refusal of a mutation without bound authority.
pub open spec fn unauthorised(operation: Seq<char>) -> UmbraErrorView {
    umbra(
        ErrorKind::LeaseLost,
        operation,
        "a mutation needs open owners from a confirmed client incarnation; authority_recovery binds them"@,
    )
}

fn no_authority(operation: &str) -> (r: UmbraError)
    ensures
        r@ == unauthorised(operation@),
{
    UmbraError::new(
        ErrorKind::LeaseLost,
        operation,
        "a mutation needs open owners from a confirmed client incarnation; authority_recovery binds them",
    )
}

/// Resolve a path to the directory and name a mutation acts on.
pub open spec fn named_run<T: RawTransport>(
    ops: OperationsView,
    world: T::World,
    path: StoragePathView,
    operation: Seq<char>,
    deadline: Deadline,
) -> (Result<(PinnedObjectView, Seq<u8>), UmbraErrorView>, T::World) {
    let (target, after) = resolve_parent_run::<T>(ops.anchors, world, path, deadline);
    (
        match target {
            Err(error) => Err(error),
            Ok(TargetView::Named { parent, name }) => Ok((parent, name)),
            Ok(TargetView::Anchor(_)) => Err(
                umbra(
                    ErrorKind::InvalidPath,
                    operation,
                    "an anchor is not a name this operation can act on"@,
                ),
            ),
        },
        after,
    )
}

/// Look one child up and adopt it.
pub open spec fn child_run<T: RawTransport>(
    ops: OperationsView,
    world: T::World,
    parent: PinnedObjectView,
    name: Seq<u8>,
    operation: Seq<char>,
    deadline: Deadline,
) -> (Result<PinnedObjectView, UmbraErrorView>, T::World) {
    let call = lookup_call(parent.handle, name, AttrMask(AttrMask::STAT));
    (
        match lookup_answer(T::answer(world, call, deadline)) {
            Err(error) => Err(to_umbra(error, operation)),
            Ok((handle, attributes)) => match adopt_pin(handle, attributes) {
                Err(error) => Err(to_umbra(error, operation)),
                Ok(pin) => on_filesystem(
                    pin,
                    ops.anchors.filesystem,
                    utf8_lossy(name),
                    operation,
                ),
            },
        },
        T::after(world, call, deadline),
    )
}

/// Pin the object a mutation produced.
pub open spec fn produced_run<T: RawTransport>(
    ops: OperationsView,
    world: T::World,
    handle: Seq<u8>,
    name: Seq<u8>,
    operation: Seq<char>,
    deadline: Deadline,
) -> (Result<PinnedObjectView, UmbraErrorView>, T::World) {
    let (pinned, after) = pin_run::<T>(world, handle, deadline);
    (
        match pinned {
            Err(error) => Err(to_umbra(error, operation)),
            Ok(pin) => on_filesystem(pin, ops.anchors.filesystem, utf8_lossy(name), operation),
        },
        after,
    )
}

/// Report one object. No kernel-visible path exists, so no rewrite target is named.
pub open spec fn report_run<T: RawTransport>(
    world: T::World,
    object: PinnedObjectView,
    deadline: Deadline,
) -> (Result<ObjectResultView, UmbraErrorView>, T::World) {
    let (found, after) = stat_run::<T>(world, object, deadline);
    (
        match found {
            Err(error) => Err(error),
            Ok(stat) => Ok(ObjectResultView { stat, rewrite_target: None }),
        },
        after,
    )
}

/// Put one namespace mutation on the wire through the bound authority.
pub open spec fn dispatch_run<T: RawTransport, D: NamespaceDispatcher<T>>(
    bench: Bench<T::World, D::State>,
    operation: Seq<char>,
    mutation: NamespaceMutationView,
) -> (Result<NamespaceOutcomeView, UmbraErrorView>, Bench<T::World, D::State>) {
    match bench.mutations {
        None => (Err(unauthorised(operation)), bench),
        Some(authority) => match authority.namespace {
            None => (Err(unbound(mutation)), bench),
            Some(state) => {
                let (outcome, world, kept) = apply_run::<T, D>(state, bench.world, mutation);
                (
                    outcome,
                    Bench {
                        world,
                        mutations: Some(AuthorityView { namespace: Some(kept), ..authority }),
                    },
                )
            },
        },
    }
}

/// Write bytes to an existing file: open, write through the ledger, close.
#[verifier::opaque]
pub open spec fn write_at_run<T: RawTransport, S>(
    ops: OperationsView,
    bench: Bench<T::World, S>,
    ledger: Ledger,
    context: RequestContextView,
    path: StoragePathView,
    offset: u64,
    bytes: Seq<u8>,
    operation: Seq<char>,
    deadline: Deadline,
) -> (Result<StorageResponseView, UmbraErrorView>, Bench<T::World, S>, Ledger) {
    match identities_in(context) {
        Err(error) => (Err(to_umbra(error, operation)), bench, ledger),
        Ok(identity) => {
            let (named, at_name) = named_run::<T>(ops, bench.world, path, operation, deadline);
            let placed = Bench { world: at_name, ..bench };
            match named {
                Err(error) => (Err(error), placed, ledger),
                Ok((parent, name)) => match bench.mutations {
                    None => (Err(unauthorised(operation)), placed, ledger),
                    Some(authority) => {
                        let (opened, minted, at_open) = open_object_run::<T>(
                            authority.owners,
                            at_name,
                            parent,
                            name,
                            CreateDisposition::OpenExisting,
                            ShareAccess::WRITE,
                            deadline,
                        );
                        let session = minted.session;
                        let spent = Some(AuthorityView { owners: minted, ..authority });
                        match opened {
                            Err(error) => (
                                Err(to_umbra(error, operation)),
                                Bench { world: at_open, mutations: spent },
                                ledger,
                            ),
                            Ok(open) => if open.file.identity.fsid != ops.anchors.filesystem {
                                (
                                    Err(
                                        foreign_filesystem(
                                            open.file.identity.fsid,
                                            ops.anchors.filesystem,
                                            utf8_lossy(name),
                                            operation,
                                        ),
                                    ),
                                    Bench {
                                        world: close_run::<T>(
                                            open.file,
                                            session,
                                            at_open,
                                            deadline,
                                        ).1,
                                        mutations: spent,
                                    },
                                    ledger,
                                )
                            } else {
                                let (written, at_write, recorded) = write_run::<T>(
                                    open,
                                    session,
                                    at_open,
                                    ledger,
                                    identity,
                                    WriteAtView { offset, stability: Stability::Unstable, data: bytes },
                                    deadline,
                                );
                                let (outcome, after) = close_run::<T>(
                                    open.file,
                                    session,
                                    at_write,
                                    deadline,
                                );
                                (
                                    match written {
                                        Err(error) => Err(to_umbra(error, operation)),
                                        Ok(ticket) => match close_failure(outcome) {
                                            Some(error) => Err(to_umbra(error, operation)),
                                            None => Ok(
                                                StorageResponseView::WriteAt(ticket.record.count),
                                            ),
                                        },
                                    },
                                    Bench { world: after, mutations: spent },
                                    recorded,
                                )
                            },
                        }
                    },
                },
            }
        },
    }
}

/// The metadata update that applies a mode and nothing else.
pub open spec fn mode_only(mode: u32) -> MetadataUpdate {
    MetadataUpdate {
        mode: Some(mode),
        uid: None,
        gid: None,
        accessed_nanos: None,
        modified_nanos: None,
    }
}

/// How a file is created: with a retained verifier the create is retry-safe.
pub open spec fn creation(create_verifier: Option<Verifier>, mode: u32) -> CreateDisposition {
    match create_verifier {
        Some(verifier) => CreateDisposition::CreateExclusive { verifier },
        None => CreateDisposition::CreateNew { mode },
    }
}

/// Apply the mode an exclusive create could not carry.
pub open spec fn mode_run<T: RawTransport, D: NamespaceDispatcher<T>>(
    bench: Bench<T::World, D::State>,
    created: PinnedObjectView,
    mode: u32,
    operation: Seq<char>,
) -> (Result<(), UmbraErrorView>, Bench<T::World, D::State>) {
    if bench.mutations is Some && bench.mutations->0.create_verifier is Some {
        let (applied, after) = dispatch_run::<T, D>(
            bench,
            operation,
            NamespaceMutationView::SetAttributes {
                object: created.handle,
                target: created.identity,
                update: mode_only(mode),
            },
        );
        (
            match applied {
                Err(error) => Err(error),
                Ok(_) => Ok(()),
            },
            after,
        )
    } else {
        (Ok(()), bench)
    }
}

/// Create a file, apply its mode where the create could not, report it, close it.
#[verifier::opaque]
pub open spec fn create_file_run<T: RawTransport, D: NamespaceDispatcher<T>>(
    ops: OperationsView,
    bench: Bench<T::World, D::State>,
    context: RequestContextView,
    path: StoragePathView,
    mode: u32,
    operation: Seq<char>,
    deadline: Deadline,
) -> (Result<StorageResponseView, UmbraErrorView>, Bench<T::World, D::State>) {
    match identities_in(context) {
        Err(error) => (Err(to_umbra(error, operation)), bench),
        Ok(_) => {
            let (named, at_name) = named_run::<T>(ops, bench.world, path, operation, deadline);
            let placed = Bench { world: at_name, ..bench };
            match named {
                Err(error) => (Err(error), placed),
                Ok((parent, name)) => match bench.mutations {
                    None => (Err(unauthorised(operation)), placed),
                    Some(authority) => {
                        let (opened, minted, at_open) = open_object_run::<T>(
                            authority.owners,
                            at_name,
                            parent,
                            name,
                            creation(authority.create_verifier, mode),
                            ShareAccess::BOTH,
                            deadline,
                        );
                        let spent = Some(AuthorityView { owners: minted, ..authority });
                        match opened {
                            Err(error) => (
                                Err(to_umbra(error, operation)),
                                Bench { world: at_open, mutations: spent },
                            ),
                            Ok(open) => finish_create_run::<T, D>(
                                ops,
                                Bench { world: at_open, mutations: spent },
                                open.file,
                                minted.session,
                                name,
                                mode,
                                operation,
                                deadline,
                            ),
                        }
                    },
                },
            }
        },
    }
}

/// What follows the OPEN of a create. An open whose object cannot be pinned is
/// left to the server; every other way out closes it.
pub open spec fn finish_create_run<T: RawTransport, D: NamespaceDispatcher<T>>(
    ops: OperationsView,
    bench: Bench<T::World, D::State>,
    file: crate::handle::OpenFileView,
    session: SessionView,
    name: Seq<u8>,
    mode: u32,
    operation: Seq<char>,
    deadline: Deadline,
) -> (Result<StorageResponseView, UmbraErrorView>, Bench<T::World, D::State>) {
    let (pinned, at_pin) = pin_run::<T>(bench.world, file.handle, deadline);
    match pinned {
        Err(error) => (Err(to_umbra(error, operation)), Bench { world: at_pin, ..bench }),
        Ok(pin) => match on_filesystem(
            pin,
            ops.anchors.filesystem,
            utf8_lossy(name),
            operation,
        ) {
            Err(error) => (
                Err(error),
                Bench { world: close_run::<T>(file, session, at_pin, deadline).1, ..bench },
            ),
            Ok(created) => {
                let (applied, set) = mode_run::<T, D>(
                    Bench { world: at_pin, ..bench },
                    created,
                    mode,
                    operation,
                );
                match applied {
                    Err(error) => (
                        Err(error),
                        Bench { world: close_run::<T>(file, session, set.world, deadline).1, ..set },
                    ),
                    Ok(()) => {
                        let (reported, at_report) = report_run::<T>(set.world, created, deadline);
                        match reported {
                            Err(error) => (Err(error), Bench { world: at_report, ..set }),
                            Ok(result) => {
                                let (outcome, after) = close_run::<T>(
                                    file,
                                    session,
                                    at_report,
                                    deadline,
                                );
                                (
                                    match close_failure(outcome) {
                                        Some(error) => Err(to_umbra(error, operation)),
                                        None => Ok(StorageResponseView::Created(result)),
                                    },
                                    Bench { world: after, ..set },
                                )
                            },
                        }
                    },
                }
            },
        },
    }
}

/// Make one directory below a pinned parent and pin it.
pub open spec fn make_run<T: RawTransport, D: NamespaceDispatcher<T>>(
    ops: OperationsView,
    bench: Bench<T::World, D::State>,
    parent: PinnedObjectView,
    name: Seq<u8>,
    mode: u32,
    operation: Seq<char>,
    deadline: Deadline,
) -> (Result<PinnedObjectView, UmbraErrorView>, Bench<T::World, D::State>) {
    let (made, after) = dispatch_run::<T, D>(
        bench,
        operation,
        NamespaceMutationView::CreateDirectory { parent: parent.handle, name, mode },
    );
    match made {
        Err(error) => (Err(error), after),
        Ok(outcome) => {
            let (pinned, at_pin) = produced_run::<T>(
                ops,
                after.world,
                outcome->Created_0.handle,
                name,
                operation,
                deadline,
            );
            (pinned, Bench { world: at_pin, ..after })
        },
    }
}

/// Make one directory.
#[verifier::opaque]
pub open spec fn create_directory_run<T: RawTransport, D: NamespaceDispatcher<T>>(
    ops: OperationsView,
    bench: Bench<T::World, D::State>,
    path: StoragePathView,
    mode: u32,
    operation: Seq<char>,
    deadline: Deadline,
) -> (Result<StorageResponseView, UmbraErrorView>, Bench<T::World, D::State>) {
    let (named, at_name) = named_run::<T>(ops, bench.world, path, operation, deadline);
    let placed = Bench { world: at_name, ..bench };
    match named {
        Err(error) => (Err(error), placed),
        Ok((parent, name)) => {
            let (made, after) = make_run::<T, D>(
                ops,
                placed,
                parent,
                name,
                mode,
                operation,
                deadline,
            );
            match made {
                Err(error) => (Err(error), after),
                Ok(created) => {
                    let (reported, at_report) = report_run::<T>(after.world, created, deadline);
                    (
                        match reported {
                            Err(error) => Err(error),
                            Ok(result) => Ok(StorageResponseView::Created(result)),
                        },
                        Bench { world: at_report, ..after },
                    )
                },
            }
        },
    }
}

/// Create every missing directory of `parts` from `from` on, and report the leaf,
/// made or found.
pub open spec fn parents_from<T: RawTransport, D: NamespaceDispatcher<T>>(
    ops: OperationsView,
    bench: Bench<T::World, D::State>,
    parts: Seq<Seq<u8>>,
    from: int,
    current: PinnedObjectView,
    mode: u32,
    operation: Seq<char>,
    deadline: Deadline,
) -> (Result<StorageResponseView, UmbraErrorView>, Bench<T::World, D::State>)
    decreases parts.len() - from,
{
    if from >= parts.len() {
        let (reported, after) = report_run::<T>(bench.world, current, deadline);
        (
            match reported {
                Err(error) => Err(error),
                Ok(result) => Ok(StorageResponseView::Created(result)),
            },
            Bench { world: after, ..bench },
        )
    } else {
        match component_of(parts[from]) {
            Err(error) => (Err(error), bench),
            Ok(name) => {
                let (found, at_child) = child_run::<T>(
                    ops,
                    bench.world,
                    current,
                    name,
                    "create_parents"@,
                    deadline,
                );
                let looked = Bench { world: at_child, ..bench };
                match found {
                    Ok(existing) => if existing.kind != Nfs4Type::Directory {
                        (
                            Err(
                                umbra(
                                    ErrorKind::AlreadyExists,
                                    operation,
                                    quoted(utf8_lossy(name))
                                        + " exists and is not a directory"@,
                                ),
                            ),
                            looked,
                        )
                    } else {
                        parents_from::<T, D>(
                            ops,
                            looked,
                            parts,
                            from + 1,
                            existing,
                            mode,
                            operation,
                            deadline,
                        )
                    },
                    Err(error) => if error.kind != ErrorKind::NotFound {
                        (Err(error), looked)
                    } else {
                        let (made, after) = make_run::<T, D>(
                            ops,
                            looked,
                            current,
                            name,
                            mode,
                            operation,
                            deadline,
                        );
                        match made {
                            Err(refused) => (Err(refused), after),
                            Ok(pinned) => parents_from::<T, D>(
                                ops,
                                after,
                                parts,
                                from + 1,
                                pinned,
                                mode,
                                operation,
                                deadline,
                            ),
                        }
                    },
                }
            },
        }
    }
}

/// Why a rename is refused before anything is resolved, if it is.
pub open spec fn rename_refusal(
    source: StoragePathView,
    destination: StoragePathView,
    mode: RenameMode,
    operation: Seq<char>,
) -> Option<UmbraErrorView> {
    if source.anchor != destination.anchor {
        Some(umbra(ErrorKind::InvalidPath, operation, "a cross-anchor rename is rejected"@))
    } else if mode == RenameMode::NoReplace {
        Some(
            umbra(
                ErrorKind::UnsupportedCapability,
                operation,
                "atomic no-replace rename is not available over NFSv4.0: RENAME always replaces, and emulating the guarantee with a destination probe is not atomic. Use RenameMode::Replace, or check the destination yourself and accept the race."@,
            ),
        )
    } else {
        None
    }
}

/// Move a name. The source identity is proven before the rename, so that the same
/// object is proven to have moved.
#[verifier::opaque]
pub open spec fn move_run<T: RawTransport, D: NamespaceDispatcher<T>>(
    ops: OperationsView,
    bench: Bench<T::World, D::State>,
    source: StoragePathView,
    destination: StoragePathView,
    mode: RenameMode,
    operation: Seq<char>,
    deadline: Deadline,
) -> (Result<StorageResponseView, UmbraErrorView>, Bench<T::World, D::State>) {
    match rename_refusal(source, destination, mode, operation) {
        Some(error) => (Err(error), bench),
        None => {
            let (from, at_source) = named_run::<T>(
                ops,
                bench.world,
                source,
                operation,
                deadline,
            );
            match from {
                Err(error) => (Err(error), Bench { world: at_source, ..bench }),
                Ok((source_parent, source_name)) => {
                    let (to, at_target) = named_run::<T>(
                        ops,
                        at_source,
                        destination,
                        operation,
                        deadline,
                    );
                    match to {
                        Err(error) => (Err(error), Bench { world: at_target, ..bench }),
                        Ok((target_parent, target_name)) => {
                            let (found, at_child) = child_run::<T>(
                                ops,
                                at_target,
                                source_parent,
                                source_name,
                                operation,
                                deadline,
                            );
                            let placed = Bench { world: at_child, ..bench };
                            match found {
                                Err(error) => (Err(error), placed),
                                Ok(pinned) => moved_run::<T, D>(
                                    ops,
                                    placed,
                                    NamespaceMutationView::Rename {
                                        source_parent: source_parent.handle,
                                        source_name,
                                        target_parent: target_parent.handle,
                                        target_name,
                                        source: pinned.identity,
                                        mode,
                                    },
                                    target_name,
                                    operation,
                                    deadline,
                                ),
                            }
                        },
                    }
                },
            }
        },
    }
}

/// Dispatch a rename and report the object at its destination.
pub open spec fn moved_run<T: RawTransport, D: NamespaceDispatcher<T>>(
    ops: OperationsView,
    bench: Bench<T::World, D::State>,
    mutation: NamespaceMutationView,
    target_name: Seq<u8>,
    operation: Seq<char>,
    deadline: Deadline,
) -> (Result<StorageResponseView, UmbraErrorView>, Bench<T::World, D::State>) {
    let (done, after) = dispatch_run::<T, D>(bench, operation, mutation);
    match done {
        Err(error) => (Err(error), after),
        Ok(outcome) => {
            let (pinned, at_pin) = produced_run::<T>(
                ops,
                after.world,
                outcome->Renamed_0.handle,
                target_name,
                operation,
                deadline,
            );
            match pinned {
                Err(error) => (Err(error), Bench { world: at_pin, ..after }),
                Ok(moved) => {
                    let (reported, at_report) = report_run::<T>(at_pin, moved, deadline);
                    (
                        match reported {
                            Err(error) => Err(error),
                            Ok(result) => Ok(StorageResponseView::Renamed(result)),
                        },
                        Bench { world: at_report, ..after },
                    )
                },
            }
        },
    }
}

/// Truncate a resolved object, holding an open with write access for it.
#[verifier::opaque]
pub open spec fn truncate_run<T: RawTransport, D: NamespaceDispatcher<T>>(
    ops: OperationsView,
    bench: Bench<T::World, D::State>,
    path: StoragePathView,
    object: PinnedObjectView,
    len: u64,
    operation: Seq<char>,
    deadline: Deadline,
) -> (Result<(), UmbraErrorView>, Bench<T::World, D::State>) {
    let (named, at_name) = named_run::<T>(ops, bench.world, path, operation, deadline);
    let placed = Bench { world: at_name, ..bench };
    match named {
        Err(error) => (Err(error), placed),
        Ok((parent, name)) => match bench.mutations {
            None => (Err(unauthorised(operation)), placed),
            Some(authority) => {
                let (opened, minted, at_open) = open_object_run::<T>(
                    authority.owners,
                    at_name,
                    parent,
                    name,
                    CreateDisposition::OpenExisting,
                    ShareAccess::WRITE,
                    deadline,
                );
                let session = minted.session;
                let held = Bench {
                    world: at_open,
                    mutations: Some(AuthorityView { owners: minted, ..authority }),
                };
                match opened {
                    Err(error) => (Err(to_umbra(error, operation)), held),
                    Ok(open) => match stateid_answer(open.file, session) {
                        Err(error) => (
                            Err(to_umbra(error, operation)),
                            Bench {
                                world: close_run::<T>(open.file, session, at_open, deadline).1,
                                ..held
                            },
                        ),
                        Ok(stateid) => {
                            let (done, set) = dispatch_run::<T, D>(
                                held,
                                operation,
                                NamespaceMutationView::Truncate {
                                    object: object.handle,
                                    target: object.identity,
                                    len,
                                    stateid,
                                },
                            );
                            let (outcome, after) = close_run::<T>(
                                open.file,
                                session,
                                set.world,
                                deadline,
                            );
                            (
                                match done {
                                    Err(error) => Err(error),
                                    Ok(_) => match close_failure(outcome) {
                                        Some(error) => Err(to_umbra(error, operation)),
                                        None => Ok(()),
                                    },
                                },
                                Bench { world: after, ..set },
                            )
                        },
                    },
                }
            },
        },
    }
}

/// Remove a name, once the object behind it is of the kind the caller means.
#[verifier::opaque]
pub open spec fn removal_run<T: RawTransport, D: NamespaceDispatcher<T>>(
    ops: OperationsView,
    bench: Bench<T::World, D::State>,
    path: StoragePathView,
    kind: RemoveKind,
    operation: Seq<char>,
    deadline: Deadline,
) -> (Result<(), UmbraErrorView>, Bench<T::World, D::State>) {
    let (named, at_name) = named_run::<T>(ops, bench.world, path, operation, deadline);
    match named {
        Err(error) => (Err(error), Bench { world: at_name, ..bench }),
        Ok((parent, name)) => {
            let (found, at_child) = child_run::<T>(
                ops,
                at_name,
                parent,
                name,
                operation,
                deadline,
            );
            let placed = Bench { world: at_child, ..bench };
            match found {
                Err(error) => (Err(error), placed),
                Ok(target) => if (target.kind == Nfs4Type::Directory) != (kind
                    == RemoveKind::Directory) {
                    (
                        Err(
                            umbra(
                                ErrorKind::InvalidInput,
                                operation,
                                match kind {
                                    RemoveKind::Directory => "remove_directory was asked to remove a non-directory"@,
                                    RemoveKind::File => "unlink was asked to remove a directory"@,
                                },
                            ),
                        ),
                        placed,
                    )
                } else {
                    let (done, after) = dispatch_run::<T, D>(
                        placed,
                        operation,
                        NamespaceMutationView::Remove {
                            parent: parent.handle,
                            name,
                            target: target.identity,
                            kind,
                        },
                    );
                    (
                        match done {
                            Err(error) => Err(error),
                            Ok(_) => Ok(()),
                        },
                        after,
                    )
                },
            }
        },
    }
}

/// Change metadata of the object a path names.
#[verifier::opaque]
pub open spec fn metadata_run<T: RawTransport, D: NamespaceDispatcher<T>>(
    ops: OperationsView,
    bench: Bench<T::World, D::State>,
    path: StoragePathView,
    update: MetadataUpdate,
    operation: Seq<char>,
    deadline: Deadline,
) -> (Result<StorageResponseView, UmbraErrorView>, Bench<T::World, D::State>) {
    let (found, at_object) = resolve_run::<T>(ops.anchors, bench.world, path, deadline);
    let placed = Bench { world: at_object, ..bench };
    match found {
        Err(error) => (Err(error), placed),
        Ok(object) => {
            let (done, set) = dispatch_run::<T, D>(
                placed,
                operation,
                NamespaceMutationView::SetAttributes {
                    object: object.handle,
                    target: object.identity,
                    update,
                },
            );
            match done {
                Err(error) => (Err(error), set),
                Ok(_) => {
                    let (stat, after) = stat_run::<T>(set.world, object, deadline);
                    (
                        match stat {
                            Err(error) => Err(error),
                            Ok(found) => Ok(StorageResponseView::MetadataSet(found)),
                        },
                        Bench { world: after, ..set },
                    )
                },
            }
        },
    }
}

/// Truncate the object a path names.
#[verifier::opaque]
pub open spec fn resize_run<T: RawTransport, D: NamespaceDispatcher<T>>(
    ops: OperationsView,
    bench: Bench<T::World, D::State>,
    path: StoragePathView,
    len: u64,
    operation: Seq<char>,
    deadline: Deadline,
) -> (Result<StorageResponseView, UmbraErrorView>, Bench<T::World, D::State>) {
    let (found, at_object) = resolve_run::<T>(ops.anchors, bench.world, path, deadline);
    let placed = Bench { world: at_object, ..bench };
    match found {
        Err(error) => (Err(error), placed),
        Ok(object) => {
            let (done, set) = truncate_run::<T, D>(
                ops,
                placed,
                path,
                object,
                len,
                operation,
                deadline,
            );
            match done {
                Err(error) => (Err(error), set),
                Ok(()) => {
                    let (stat, after) = stat_run::<T>(set.world, object, deadline);
                    (
                        match stat {
                            Err(error) => Err(error),
                            Ok(found) => Ok(StorageResponseView::Truncated(found)),
                        },
                        Bench { world: after, ..set },
                    )
                },
            }
        },
    }
}

/// The names hidden from an enumeration of one directory.
pub open spec fn hidden_names(ops: OperationsView, directory: PinnedObjectView) -> Seq<Seq<u8>> {
    if directory.identity == ops.anchors.run.pin.identity {
        seq![private_name()]
    } else {
        Seq::empty()
    }
}

/// What a read of the run answers: a lookup, a stat, a page or bytes.
#[verifier::opaque]
pub open spec fn read_run<T: RawTransport>(
    ops: OperationsView,
    world: T::World,
    request: StorageOperationView,
    operation: Seq<char>,
    deadline: Deadline,
) -> (Result<StorageResponseView, UmbraErrorView>, T::World) {
    let (found, at_object) = resolve_run::<T>(ops.anchors, world, read_path(request), deadline);
    match found {
        Err(error) => (Err(error), at_object),
        Ok(object) => match request {
            StorageOperationView::Lookup { .. } => {
                let (reported, after) = report_run::<T>(at_object, object, deadline);
                (
                    match reported {
                        Err(error) => Err(error),
                        Ok(result) => Ok(StorageResponseView::Lookup(result)),
                    },
                    after,
                )
            },
            StorageOperationView::Stat { .. } => {
                let (stat, after) = stat_run::<T>(at_object, object, deadline);
                (
                    match stat {
                        Err(error) => Err(error),
                        Ok(found) => Ok(StorageResponseView::Stat(found)),
                    },
                    after,
                )
            },
            StorageOperationView::List { cursor, limit, .. } => {
                let (listed, after) = page_run::<T>(
                    at_object,
                    object,
                    cursor,
                    limit,
                    hidden_names(ops, object),
                    deadline,
                );
                (
                    match listed {
                        Err(error) => Err(error),
                        Ok(page) => Ok(StorageResponseView::List(page)),
                    },
                    after,
                )
            },
            StorageOperationView::ReadAt { offset, len, .. } => {
                let call = read_call(object.handle, anonymous(), offset, len);
                (
                    match read_answer(T::answer(at_object, call, deadline)) {
                        Err(error) => Err(to_umbra(error, operation)),
                        Ok(reply) => Ok(StorageResponseView::ReadAt(reply.data)),
                    },
                    T::after(at_object, call, deadline),
                )
            },
            other => (Err(refusal(support_of(other), operation)), world),
        },
    }
}

/// The path a read names.
pub open spec fn read_path(request: StorageOperationView) -> StoragePathView {
    match request {
        StorageOperationView::Lookup { path } => path,
        StorageOperationView::Stat { path } => path,
        StorageOperationView::List { path, .. } => path,
        StorageOperationView::ReadAt { path, .. } => path,
        _ => arbitrary(),
    }
}

/// What a mutation of the run answers.
#[verifier::opaque]
pub open spec fn mutate_run<T: RawTransport, D: NamespaceDispatcher<T>>(
    ops: OperationsView,
    bench: Bench<T::World, D::State>,
    request: StorageRequestView,
    operation: Seq<char>,
    deadline: Deadline,
) -> (Result<StorageResponseView, UmbraErrorView>, Bench<T::World, D::State>) {
    match request.operation {
        StorageOperationView::Create { path, options } => match options.kind {
            CreateKindView::File => create_file_run::<T, D>(
                ops,
                bench,
                request.context,
                path,
                options.mode,
                operation,
                deadline,
            ),
            CreateKindView::Directory => create_directory_run::<T, D>(
                ops,
                bench,
                path,
                options.mode,
                operation,
                deadline,
            ),
            CreateKindView::LogicalSymlink { .. } => (
                Err(refusal(support_of(request.operation), operation)),
                bench,
            ),
        },
        StorageOperationView::CreateParents { path, mode } => parents_from::<T, D>(
            ops,
            bench,
            split_path(path.bytes),
            0,
            contract_anchor_of(ops.anchors, path.anchor).pin,
            mode,
            operation,
            deadline,
        ),
        StorageOperationView::Unlink { path } => {
            let (done, after) = removal_run::<T, D>(
                ops,
                bench,
                path,
                RemoveKind::File,
                operation,
                deadline,
            );
            (
                match done {
                    Err(error) => Err(error),
                    Ok(()) => Ok(StorageResponseView::Unlinked),
                },
                after,
            )
        },
        StorageOperationView::RemoveDirectory { path } => {
            let (done, after) = removal_run::<T, D>(
                ops,
                bench,
                path,
                RemoveKind::Directory,
                operation,
                deadline,
            );
            (
                match done {
                    Err(error) => Err(error),
                    Ok(()) => Ok(StorageResponseView::DirectoryRemoved),
                },
                after,
            )
        },
        StorageOperationView::Rename { source, destination, mode } => move_run::<T, D>(
            ops,
            bench,
            source,
            destination,
            mode,
            operation,
            deadline,
        ),
        StorageOperationView::SetMetadata { path, update } => metadata_run::<T, D>(
            ops,
            bench,
            path,
            update,
            operation,
            deadline,
        ),
        StorageOperationView::Truncate { path, len } => resize_run::<T, D>(
            ops,
            bench,
            path,
            len,
            operation,
            deadline,
        ),
        other => (Err(refusal(support_of(other), operation)), bench),
    }
}

/// Execute one contract primitive.
pub open spec fn execute_run<T: RawTransport, D: NamespaceDispatcher<T>>(
    ops: OperationsView,
    bench: Bench<T::World, D::State>,
    ledger: Ledger,
    request: StorageRequestView,
    deadline: Deadline,
) -> (Result<StorageResponseView, UmbraErrorView>, Bench<T::World, D::State>, Ledger) {
    let operation = name_of(request.operation);
    match preflight_fault(ops, request) {
        Some(error) => (Err(error), bench, ledger),
        None => match request.operation {
            StorageOperationView::WriteAt { path, offset, bytes } => write_at_run::<T, D::State>(
                ops,
                bench,
                ledger,
                request.context,
                path,
                offset,
                bytes,
                operation,
                deadline,
            ),
            other => if other is Lookup || other is Stat || other is List || other is ReadAt {
                let (answer, world) = read_run::<T>(ops, bench.world, other, operation, deadline);
                (answer, Bench { world, ..bench }, ledger)
            } else {
                let (answer, after) = mutate_run::<T, D>(
                    ops,
                    bench,
                    request,
                    operation,
                    deadline,
                );
                (answer, after, ledger)
            },
        },
    }
}

/// Close an open the request no longer needs. A CLOSE that was refused, or whose
/// outcome is unknown, is not reported as clean.
fn release<T: RawTransport>(
    open: OpenObject,
    session: &Session,
    transport: &mut T,
    deadline: Deadline,
    operation: &str,
) -> (r: StorageResult<()>)
    ensures
        ({
            let (outcome, after) = close_run::<T>(
                open@.file,
                session@,
                old(transport).world(),
                deadline,
            );
            &&& final(transport).world() == after
            &&& res_view(r) == (match close_failure(outcome) {
                Some(error) => Err::<(), UmbraErrorView>(to_umbra(error, operation@)),
                None => Ok(()),
            })
        }),
{
    match open.close(session, transport, deadline).failure() {
        None => Ok(()),
        Some(error) => Err(error.to_umbra(operation)),
    }
}

impl Operations {
    /// Open a run and resolve its anchors.
    ///
    /// Every unsupported requirement is refused before the run is touched. `serial`
    /// distinguishes successive sessions over the same run, so a storage handle
    /// issued before the run is closed cannot be used after it.
    pub fn open<T: RawTransport>(
        transport: &mut T,
        config: &NfsUserspaceConfig,
        request: &OpenRunRequest,
        serial: u64,
        deadline: Deadline,
    ) -> (r: StorageResult<Self>)
        ensures
            (res_view(r), final(transport).world()) == open_operations_run::<T>(
                old(transport).world(),
                config@,
                request@,
                serial,
                deadline,
            ),
    {
        if request.policy.require_kernel_shadow {
            return Err(
                UmbraError::new(
                    ErrorKind::UnsupportedCapability,
                    "open_run",
                    "this provider has no kernel-visible shadow: it speaks NFSv4 itself and                  publishes no physical path",
                ),
            );
        }
        if request.policy.require_strict_remote_persistence {
            return Err(
                UmbraError::new(
                    ErrorKind::UnsupportedCapability,
                    "open_run",
                    "strict remote persistence is not qualified by this provider; it advertises                  Durability::None and must not accept a run that requires more",
                ),
            );
        }
        if request.policy.format_version != FORMAT_VERSION {
            return Err(
                UmbraError::new(
                    ErrorKind::ProtocolMismatch,
                    "open_run",
                    join3(
                        "run format version ",
                        decimal_text(request.policy.format_version as u64).as_str(),
                        " is not the ",
                    ).concat(decimal_text(FORMAT_VERSION as u64).as_str()).concat(
                        " this provider reads",
                    ).as_str(),
                ),
            );
        }
        if request.policy.read_only && request.intent == OpenRunIntent::CreateNew {
            return Err(
                UmbraError::new(
                    ErrorKind::Denied,
                    "open_run",
                    "a read-only run cannot be created: creation is itself a mutation",
                ),
            );
        }
        let anchors = match RunAnchors::open(
            transport,
            config,
            request.run_id,
            request.intent,
            deadline,
        ) {
            Ok(anchors) => anchors,
            Err(error) => {
                return Err(error);
            },
        };
        Ok(
            Operations {
                run_id: request.run_id,
                anchors,
                mint: HandleMint::for_session(request.run_id, serial),
                limits: OperationLimits::from_transport(transport),
                policy: request.policy,
            },
        )
    }

    /// The policy this run was opened under.
    pub fn policy(&self) -> (r: &StoragePolicy)
        ensures
            *r == self@.policy,
    {
        &self.policy
    }

    /// The run identity this surface is bound to.
    pub fn run_id(&self) -> (r: RunId)
        ensures
            r == self@.run_id,
    {
        self.run_id
    }

    /// The resolved anchors.
    pub fn anchors(&self) -> (r: &RunAnchors)
        ensures
            r@ == self@.anchors,
    {
        &self.anchors
    }

    /// The token mint for this session.
    pub fn mint(&self) -> (r: &HandleMint)
        ensures
            r.serial() == self@.serial,
    {
        &self.mint
    }

    /// Limits this surface honours.
    pub fn limits(&self) -> (r: OperationLimits)
        ensures
            r == self@.limits,
    {
        self.limits
    }

    /// Capabilities advertised for this opened run: the finite I/O and page limits,
    /// because they are met, and nothing that was not qualified.
    pub fn capabilities(&self) -> (r: StorageCapabilities)
        ensures
            r@ == offered(self@.limits),
    {
        let features: Vec<String> = Vec::new();
        proof {
            assert(seq_view(features@) =~= Seq::<Seq<char>>::empty());
        }
        StorageCapabilities {
            features,
            durability: Durability::NoClaim,
            strict_remote_persistence: false,
            fencing: Fencing::ReadOnly,
            kernel_shadow: false,
            complete_emulation: false,
            hard_links: false,
            logical_symlinks: false,
            xattrs: false,
            atomic_replace: false,
            atomic_swap: false,
            max_io_bytes: self.limits.max_io_bytes,
            max_directory_entries: self.limits.max_directory_entries,
        }
    }

    /// The binding published to a consumer.
    pub fn binding(&self) -> (r: RunBinding)
        ensures
            r@ == (RunBindingView {
                run_id: self@.run_id,
                root: RuntimeDirectoryBindingView {
                    handle: token_bytes(self@.serial, self@.anchors.root.pin.handle),
                    physical_path: None,
                },
                control: RuntimeDirectoryBindingView {
                    handle: token_bytes(self@.serial, self@.anchors.control.pin.handle),
                    physical_path: None,
                },
                capabilities: offered(self@.limits),
            }),
    {
        RunBinding {
            run_id: self.run_id,
            root: self.anchors.root().binding(&self.mint),
            control: self.anchors.control().binding(&self.mint),
            capabilities: self.capabilities(),
        }
    }

    /// Everything that must hold before a request may have any effect: bounds and
    /// the writer epoch, then whether this run takes mutations at all, then run
    /// identity, then capability support.
    pub fn preflight(&self, request: &StorageRequest) -> (r: StorageResult<()>)
        ensures
            res_view(r) == (match preflight_fault(self@, request@) {
                Some(error) => Err::<(), UmbraErrorView>(error),
                None => Ok(()),
            }),
    {
        let operation = operation_name(&request.operation);
        let capabilities = self.capabilities();
        proof {
            assert(capabilities.max_io_bytes == capabilities@.max_io_bytes);
            assert(capabilities.max_directory_entries == capabilities@.max_directory_entries);
        }
        match validate_request(&capabilities, request, operation) {
            Err(error) => {
                return Err(error);
            },
            Ok(()) => {},
        }
        if self.policy.read_only && request.operation.is_mutation() {
            return Err(
                UmbraError::new(
                    ErrorKind::Denied,
                    operation,
                    "this run was opened read-only; it does not accept mutations",
                ),
            );
        }
        if !request.context.run_id.same(&self.run_id) {
            return Err(
                UmbraError::new(
                    ErrorKind::InvalidInput,
                    operation,
                    join3(
                        "the request names run ",
                        request.context.run_id.text().as_str(),
                        ", but this surface is bound to run ",
                    ).concat(self.run_id.text().as_str()).as_str(),
                ),
            );
        }
        let support = storage_support(&request.operation);
        if let Support::Unsupported { .. } = support {
            return support.refuse(operation);
        }
        Ok(())
    }

    /// Execute one contract primitive.
    pub fn execute<T: RawTransport, L: ReplayLog, D: NamespaceDispatcher<T>>(
        &self,
        context: &mut OpsContext<'_, T, L, D>,
        request: &StorageRequest,
    ) -> (r: StorageResult<StorageResponse>)
        ensures
            ({
                let (answer, bench, ledger) = execute_run::<T, D>(
                    self@,
                    Bench {
                        world: old(context).transport.world(),
                        mutations: authority_of::<T, D>(old(context).mutations),
                    },
                    old(context).replay.ledger(),
                    request@,
                    old(context).deadline,
                );
                &&& res_view(r) == answer
                &&& final(context).transport.world() == bench.world
                &&& final(context).replay.ledger() == ledger
                &&& authority_of::<T, D>(final(context).mutations) == bench.mutations
            }),
            final(context).deadline == old(context).deadline,
            *final(final(context).transport) == *final(old(context).transport),
            *final(final(context).replay) == *final(old(context).replay),
            match (old(context).mutations, final(context).mutations) {
                (None, None) => true,
                (Some(before), Some(after)) => {
                    &&& *final(after.owners) == *final(before.owners)
                    &&& match (before.namespace, after.namespace) {
                        (None, None) => true,
                        (Some(given), Some(kept)) => *final(kept) == *final(given),
                        _ => false,
                    }
                },
                _ => false,
            },
    {
        let deadline = context.deadline;
        let mutations = match &mut context.mutations {
            None => None,
            Some(bound) => Some(
                MutationContext {
                    owners: &mut *bound.owners,
                    create_verifier: bound.create_verifier,
                    namespace: match &mut bound.namespace {
                        None => None,
                        Some(dispatcher) => Some(&mut **dispatcher),
                    },
                },
            ),
        };
        self.perform(&mut *context.transport, &mut *context.replay, mutations, request, deadline)
    }

    fn perform<T: RawTransport, L: ReplayLog, D: NamespaceDispatcher<T>>(
        &self,
        transport: &mut T,
        replay: &mut L,
        mutations: Option<MutationContext<'_, D>>,
        request: &StorageRequest,
        deadline: Deadline,
    ) -> (r: StorageResult<StorageResponse>)
        ensures
            ({
                let (answer, bench, ledger) = execute_run::<T, D>(
                    self@,
                    Bench {
                        world: old(transport).world(),
                        mutations: authority_of::<T, D>(mutations),
                    },
                    old(replay).ledger(),
                    request@,
                    deadline,
                );
                &&& res_view(r) == answer
                &&& final(transport).world() == bench.world
                &&& final(replay).ledger() == ledger
                &&& bench.mutations == (match mutations {
                    None => None,
                    Some(bound) => Some(
                        AuthorityView {
                            owners: final(bound.owners)@,
                            create_verifier: bound.create_verifier,
                            namespace: match bound.namespace {
                                None => None,
                                Some(dispatcher) => Some(final(dispatcher).state()),
                            },
                        },
                    ),
                })
            }),
    {
        let operation = operation_name(&request.operation);
        match self.preflight(request) {
            Err(error) => {
                return Err(error);
            },
            Ok(()) => {},
        }
        match &request.operation {
            StorageOperation::Lookup { .. }
            | StorageOperation::Stat { .. }
            | StorageOperation::List { .. }
            | StorageOperation::ReadAt { .. } => self.read(
                transport,
                &request.operation,
                operation,
                deadline,
            ),
            StorageOperation::WriteAt { path, offset, bytes } => self.write_at(
                transport,
                replay,
                mutations,
                request,
                path,
                *offset,
                bytes.as_slice(),
                operation,
                deadline,
            ),
            _ => self.mutate(transport, mutations, request, operation, deadline),
        }
    }

    fn read<T: RawTransport>(
        &self,
        transport: &mut T,
        request: &StorageOperation,
        operation: &str,
        deadline: Deadline,
    ) -> (r: StorageResult<StorageResponse>)
        requires
            request@ is Lookup || request@ is Stat || request@ is List || request@ is ReadAt,
        ensures
            (res_view(r), final(transport).world()) == read_run::<T>(
                self@,
                old(transport).world(),
                request@,
                operation@,
                deadline,
            ),
    {
        proof {
            reveal(read_run);
        }
        match request {
            StorageOperation::Lookup { path } => {
                let object = match self.anchors.resolve(transport, path, deadline) {
                    Ok(object) => object,
                    Err(error) => {
                        return Err(error);
                    },
                };
                match report(transport, &object, deadline) {
                    Ok(result) => Ok(StorageResponse::Lookup(result)),
                    Err(error) => Err(error),
                }
            },
            StorageOperation::Stat { path } => {
                let object = match self.anchors.resolve(transport, path, deadline) {
                    Ok(object) => object,
                    Err(error) => {
                        return Err(error);
                    },
                };
                match object.stat(transport, deadline) {
                    Ok(stat) => Ok(StorageResponse::Stat(stat)),
                    Err(error) => Err(error),
                }
            },
            StorageOperation::List { path, cursor, limit } => {
                let directory = match self.anchors.resolve(transport, path, deadline) {
                    Ok(object) => object,
                    Err(error) => {
                        return Err(error);
                    },
                };
                let filter = self.filter_for(&directory);
                let resume = match cursor {
                    Some(bytes) => Some(bytes),
                    None => None,
                };
                match page(transport, &directory, resume, *limit, &filter, deadline) {
                    Ok(listed) => Ok(StorageResponse::List(listed)),
                    Err(error) => Err(error),
                }
            },
            StorageOperation::ReadAt { path, offset, len } => {
                let object = match self.anchors.resolve(transport, path, deadline) {
                    Ok(object) => object,
                    Err(error) => {
                        return Err(error);
                    },
                };
                match read_anonymous(transport, &object, *offset, *len, deadline) {
                    Ok(reply) => Ok(StorageResponse::ReadAt(reply.data)),
                    Err(error) => Err(error.to_umbra(operation)),
                }
            },
            _ => vstd::pervasive::unreached(),
        }
    }

    fn mutate<T: RawTransport, D: NamespaceDispatcher<T>>(
        &self,
        transport: &mut T,
        mutations: Option<MutationContext<'_, D>>,
        request: &StorageRequest,
        operation: &str,
        deadline: Deadline,
    ) -> (r: StorageResult<StorageResponse>)
        ensures
            ({
                let (answer, bench) = mutate_run::<T, D>(
                    self@,
                    Bench {
                        world: old(transport).world(),
                        mutations: authority_of::<T, D>(mutations),
                    },
                    request@,
                    operation@,
                    deadline,
                );
                &&& res_view(r) == answer
                &&& final(transport).world() == bench.world
                &&& bench.mutations == (match mutations {
                    None => None,
                    Some(bound) => Some(
                        AuthorityView {
                            owners: final(bound.owners)@,
                            create_verifier: bound.create_verifier,
                            namespace: match bound.namespace {
                                None => None,
                                Some(dispatcher) => Some(final(dispatcher).state()),
                            },
                        },
                    ),
                })
            }),
    {
        proof {
            reveal(mutate_run);
        }
        match &request.operation {
            StorageOperation::Create { path, options } => match &options.kind {
                CreateKind::File => self.create_file(
                    transport,
                    mutations,
                    request,
                    path,
                    options.mode,
                    operation,
                    deadline,
                ),
                CreateKind::Directory => self.create_directory(
                    transport,
                    mutations,
                    path,
                    options.mode,
                    operation,
                    deadline,
                ),
                CreateKind::LogicalSymlink { .. } => storage_support(&request.operation).refuse(
                    operation,
                ),
            },
            StorageOperation::CreateParents { path, mode } => self.create_parents(
                transport,
                mutations,
                path,
                *mode,
                operation,
                deadline,
            ),
            StorageOperation::Unlink { path } => match self.remove(
                transport,
                mutations,
                path,
                RemoveKind::File,
                operation,
                deadline,
            ) {
                Ok(()) => Ok(StorageResponse::Unlinked),
                Err(error) => Err(error),
            },
            StorageOperation::RemoveDirectory { path } => match self.remove(
                transport,
                mutations,
                path,
                RemoveKind::Directory,
                operation,
                deadline,
            ) {
                Ok(()) => Ok(StorageResponse::DirectoryRemoved),
                Err(error) => Err(error),
            },
            StorageOperation::Rename { source, destination, mode } => self.rename(
                transport,
                mutations,
                source,
                destination,
                *mode,
                operation,
                deadline,
            ),
            StorageOperation::SetMetadata { path, update } => self.set_metadata(
                transport,
                mutations,
                path,
                *update,
                operation,
                deadline,
            ),
            StorageOperation::Truncate { path, len } => self.resize(
                transport,
                mutations,
                path,
                *len,
                operation,
                deadline,
            ),
            // Every remaining operation is refused; a supported one here would mean
            // the capability table and this dispatch had drifted apart, which the
            // refusal reports.
            other => storage_support(other).refuse(operation),
        }
    }

    /// List one bounded page of a directory, choosing the right noise filter.
    ///
    /// Exposed so that the run anchor, which no contract path names, can be
    /// enumerated.
    pub fn list<T: RawTransport, L: ReplayLog, D: NamespaceDispatcher<T>>(
        &self,
        context: &mut OpsContext<'_, T, L, D>,
        directory: &PinnedObject,
        cursor: Option<&ListCursor>,
        limit: u32,
    ) -> (r: StorageResult<DirectoryPage>)
        ensures
            (res_view(r), final(context).transport.world()) == page_run::<T>(
                old(context).transport.world(),
                directory@,
                match cursor {
                    Some(bytes) => Some(bytes@),
                    None => None,
                },
                limit,
                hidden_names(self@, directory@),
                old(context).deadline,
            ),
            *final(final(context).transport) == *final(old(context).transport),
            final(context).replay == old(context).replay,
            final(context).mutations == old(context).mutations,
            final(context).deadline == old(context).deadline,
    {
        let filter = self.filter_for(directory);
        let deadline = context.deadline;
        page(&mut *context.transport, directory, cursor, limit, &filter, deadline)
    }

    /// The noise filter appropriate to one directory.
    ///
    /// The run anchor holds the provider's own state beside the two contract
    /// anchors, so enumerating it hides that name. Every other directory is the
    /// tracee's or the overlay's, and hiding anything there would be a false
    /// answer about its contents.
    pub fn filter_for(&self, directory: &PinnedObject) -> (r: NoiseFilter)
        ensures
            r@ == hidden_names(self@, directory@),
    {
        if directory.identity() == self.anchors.run().pin().identity() {
            NoiseFilter::with_private_state()
        } else {
            NoiseFilter::protocol_only()
        }
    }

    /// The anchor a contract anchor names.
    pub fn anchor(&self, anchor: StorageAnchor) -> (r: &Anchor)
        ensures
            r@ == contract_anchor_of(self@.anchors, anchor),
    {
        self.anchors.for_contract(anchor)
    }

    fn parent_and_name<T: RawTransport>(
        &self,
        transport: &mut T,
        path: &StoragePath,
        operation: &str,
        deadline: Deadline,
    ) -> (r: StorageResult<(PinnedObject, ComponentName)>)
        ensures
            (
                match r {
                    Ok((parent, name)) => Ok((parent@, name@)),
                    Err(error) => Err(error@),
                },
                final(transport).world(),
            ) == named_run::<T>(self@, old(transport).world(), path@, operation@, deadline),
    {
        match self.anchors.resolve_parent(transport, path, deadline) {
            Err(error) => Err(error),
            Ok(Target::Named { parent, name }) => Ok((parent, name)),
            Ok(Target::Anchor(_)) => Err(
                UmbraError::new(
                    ErrorKind::InvalidPath,
                    operation,
                    "an anchor is not a name this operation can act on",
                ),
            ),
        }
    }

    fn child<T: RawTransport>(
        &self,
        transport: &mut T,
        parent: &PinnedObject,
        name: &ComponentName,
        operation: &str,
        deadline: Deadline,
    ) -> (r: StorageResult<PinnedObject>)
        ensures
            (res_view(r), final(transport).world()) == child_run::<T>(
                self@,
                old(transport).world(),
                parent@,
                name@,
                operation@,
                deadline,
            ),
    {
        match transport.lookup(parent.handle(), name, AttrMask(AttrMask::STAT), deadline) {
            Err(error) => Err(error.to_umbra(operation)),
            Ok((handle, attributes)) => match PinnedObject::adopt(handle, &attributes) {
                Err(error) => Err(error.to_umbra(operation)),
                Ok(pin) => within_labelled(
                    pin,
                    self.anchors.filesystem(),
                    lossy_text(name.as_bytes()).as_str(),
                    operation,
                ),
            },
        }
    }

    fn produced<T: RawTransport>(
        &self,
        transport: &mut T,
        handle: FileHandle,
        name: &ComponentName,
        operation: &str,
        deadline: Deadline,
    ) -> (r: StorageResult<PinnedObject>)
        ensures
            (res_view(r), final(transport).world()) == produced_run::<T>(
                self@,
                old(transport).world(),
                handle@,
                name@,
                operation@,
                deadline,
            ),
    {
        match PinnedObject::pin(transport, handle, deadline) {
            Err(error) => Err(error.to_umbra(operation)),
            Ok(pin) => within_labelled(
                pin,
                self.anchors.filesystem(),
                lossy_text(name.as_bytes()).as_str(),
                operation,
            ),
        }
    }

    fn write_at<T: RawTransport, L: ReplayLog, D: NamespaceDispatcher<T>>(
        &self,
        transport: &mut T,
        replay: &mut L,
        mutations: Option<MutationContext<'_, D>>,
        request: &StorageRequest,
        path: &StoragePath,
        offset: u64,
        bytes: &[u8],
        operation: &str,
        deadline: Deadline,
    ) -> (r: StorageResult<StorageResponse>)
        ensures
            ({
                let (answer, bench, ledger) = write_at_run::<T, D::State>(
                    self@,
                    Bench {
                        world: old(transport).world(),
                        mutations: authority_of::<T, D>(mutations),
                    },
                    old(replay).ledger(),
                    request@.context,
                    path@,
                    offset,
                    bytes@,
                    operation@,
                    deadline,
                );
                &&& res_view(r) == answer
                &&& final(transport).world() == bench.world
                &&& final(replay).ledger() == ledger
                &&& bench.mutations == (match mutations {
                    None => None,
                    Some(bound) => Some(
                        AuthorityView {
                            owners: final(bound.owners)@,
                            create_verifier: bound.create_verifier,
                            namespace: match bound.namespace {
                                None => None,
                                Some(dispatcher) => Some(final(dispatcher).state()),
                            },
                        },
                    ),
                })
            }),
    {
        proof {
            reveal(write_at_run);
        }
        let identity = match MutationIdentity::from_context(&request.context) {
            Ok(identity) => identity,
            Err(error) => {
                return Err(error.to_umbra(operation));
            },
        };
        let (parent, name) = match self.parent_and_name(transport, path, operation, deadline) {
            Ok(placed) => placed,
            Err(error) => {
                return Err(error);
            },
        };
        let owners = match mutations {
            None => {
                return Err(no_authority(operation));
            },
            Some(bound) => bound.owners,
        };
        let open = match OpenObject::open(
            owners,
            transport,
            &parent,
            &name,
            CreateDisposition::OpenExisting,
            ShareAccess::WRITE,
            deadline,
        ) {
            Ok(open) => open,
            Err(error) => {
                return Err(error.to_umbra(operation));
            },
        };
        let filesystem = self.anchors.filesystem();
        if open.identity().fsid != filesystem {
            let observed = open.identity().fsid;
            let _ = open.close(owners.session(), transport, deadline);
            return Err(
                crate::anchor::foreign(
                    observed,
                    filesystem,
                    lossy_text(name.as_bytes()).as_str(),
                    operation,
                ),
            );
        }
        // Unstable, because a durability receipt is the only thing entitled to
        // claim persistence and none is issued here. The verifier is recorded
        // against the idempotency key, so whoever commits can compare it.
        let written = open.write(
            owners.session(),
            transport,
            replay,
            &identity,
            WriteAt { offset, stability: Stability::Unstable, data: copy_bytes(bytes) },
            deadline,
        );
        let count: u32 = match written {
            Ok(ticket) => ticket.count(),
            Err(error) => {
                // The open has to go, but its own failure must not replace the one
                // the caller needs to see.
                let _ = open.close(owners.session(), transport, deadline);
                return Err(error.to_umbra(operation));
            },
        };
        match release(open, owners.session(), transport, deadline, operation) {
            Ok(()) => Ok(StorageResponse::WriteAt(count)),
            Err(error) => Err(error),
        }
    }

    fn create_file<T: RawTransport, D: NamespaceDispatcher<T>>(
        &self,
        transport: &mut T,
        mutations: Option<MutationContext<'_, D>>,
        request: &StorageRequest,
        path: &StoragePath,
        mode: u32,
        operation: &str,
        deadline: Deadline,
    ) -> (r: StorageResult<StorageResponse>)
        ensures
            ({
                let (answer, bench) = create_file_run::<T, D>(
                    self@,
                    Bench {
                        world: old(transport).world(),
                        mutations: authority_of::<T, D>(mutations),
                    },
                    request@.context,
                    path@,
                    mode,
                    operation@,
                    deadline,
                );
                &&& res_view(r) == answer
                &&& final(transport).world() == bench.world
                &&& bench.mutations == (match mutations {
                    None => None,
                    Some(bound) => Some(
                        AuthorityView {
                            owners: final(bound.owners)@,
                            create_verifier: bound.create_verifier,
                            namespace: match bound.namespace {
                                None => None,
                                Some(dispatcher) => Some(final(dispatcher).state()),
                            },
                        },
                    ),
                })
            }),
    {
        proof {
            reveal(create_file_run);
        }
        match MutationIdentity::from_context(&request.context) {
            Ok(_) => {},
            Err(error) => {
                return Err(error.to_umbra(operation));
            },
        }
        let (parent, name) = match self.parent_and_name(transport, path, operation, deadline) {
            Ok(placed) => placed,
            Err(error) => {
                return Err(error);
            },
        };
        let bound = match mutations {
            None => {
                return Err(no_authority(operation));
            },
            Some(bound) => bound,
        };
        // With a retained verifier, presenting the same one again is a recognised
        // replay. Without one an existing name is still a collision, but a lost
        // reply cannot be told apart from it.
        let disposition = match bound.create_verifier {
            Some(verifier) => CreateDisposition::CreateExclusive { verifier },
            None => CreateDisposition::CreateNew { mode },
        };
        let open = match OpenObject::open(
            bound.owners,
            transport,
            &parent,
            &name,
            disposition,
            ShareAccess::BOTH,
            deadline,
        ) {
            Ok(open) => open,
            Err(error) => {
                return Err(error.to_umbra(operation));
            },
        };
        let pinned = match PinnedObject::pin(transport, open.handle().clone(), deadline) {
            Ok(pin) => pin,
            Err(error) => {
                return Err(error.to_umbra(operation));
            },
        };
        let created = match within_labelled(
            pinned,
            self.anchors.filesystem(),
            lossy_text(name.as_bytes()).as_str(),
            operation,
        ) {
            Ok(created) => created,
            Err(error) => {
                let _ = open.close(bound.owners.session(), transport, deadline);
                return Err(error);
            },
        };
        // An exclusive create carries its verifier where the initial attributes
        // would go, so the requested mode is applied afterwards.
        if bound.create_verifier.is_some() {
            let applied = apply(
                bound.namespace,
                transport,
                &NamespaceMutation::SetAttributes {
                    object: created.handle().clone(),
                    target: created.identity(),
                    update: MetadataUpdate {
                        mode: Some(mode),
                        uid: None,
                        gid: None,
                        accessed_nanos: None,
                        modified_nanos: None,
                    },
                },
            );
            if let Err(error) = applied {
                // Removing the name could destroy a concurrent writer's work, so
                // the partial effect is reported rather than hidden.
                let _ = open.close(bound.owners.session(), transport, deadline);
                return Err(error);
            }
        }
        let result = match report(transport, &created, deadline) {
            Ok(result) => result,
            Err(error) => {
                return Err(error);
            },
        };
        match release(open, bound.owners.session(), transport, deadline, operation) {
            Ok(()) => Ok(StorageResponse::Created(result)),
            Err(error) => Err(error),
        }
    }

    fn create_directory<T: RawTransport, D: NamespaceDispatcher<T>>(
        &self,
        transport: &mut T,
        mutations: Option<MutationContext<'_, D>>,
        path: &StoragePath,
        mode: u32,
        operation: &str,
        deadline: Deadline,
    ) -> (r: StorageResult<StorageResponse>)
        ensures
            ({
                let (answer, bench) = create_directory_run::<T, D>(
                    self@,
                    Bench {
                        world: old(transport).world(),
                        mutations: authority_of::<T, D>(mutations),
                    },
                    path@,
                    mode,
                    operation@,
                    deadline,
                );
                &&& res_view(r) == answer
                &&& final(transport).world() == bench.world
                &&& bench.mutations == (match mutations {
                    None => None,
                    Some(bound) => Some(
                        AuthorityView {
                            owners: final(bound.owners)@,
                            create_verifier: bound.create_verifier,
                            namespace: match bound.namespace {
                                None => None,
                                Some(dispatcher) => Some(final(dispatcher).state()),
                            },
                        },
                    ),
                })
            }),
    {
        proof {
            reveal(create_directory_run);
        }
        let (parent, name) = match self.parent_and_name(transport, path, operation, deadline) {
            Ok(placed) => placed,
            Err(error) => {
                return Err(error);
            },
        };
        let namespace = match mutations {
            None => None,
            Some(bound) => Some(bound.namespace),
        };
        proof {
            assert(bound_as::<T, D>(authority_of::<T, D>(mutations), namespace));
        }
        let created = match self.make(
            transport,
            namespace,
            &parent,
            &name,
            mode,
            operation,
            deadline,
        ) {
            Ok(created) => created,
            Err(error) => {
                return Err(error);
            },
        };
        match report(transport, &created, deadline) {
            Ok(result) => Ok(StorageResponse::Created(result)),
            Err(error) => Err(error),
        }
    }

    /// Make one directory and pin it. The outer option is the authority, the inner
    /// one the dispatcher.
    fn make<T: RawTransport, D: NamespaceDispatcher<T>>(
        &self,
        transport: &mut T,
        namespace: Option<Option<&mut D>>,
        parent: &PinnedObject,
        name: &ComponentName,
        mode: u32,
        operation: &str,
        deadline: Deadline,
    ) -> (r: StorageResult<PinnedObject>)
        ensures
            forall|authority: Option<AuthorityView<D::State>>| #[trigger]
                bound_as::<T, D>(authority, namespace) ==> ({
                    let (answer, bench) = make_run::<T, D>(
                        self@,
                        Bench { world: old(transport).world(), mutations: authority },
                        parent@,
                        name@,
                        mode,
                        operation@,
                        deadline,
                    );
                    &&& res_view(r) == answer
                    &&& final(transport).world() == bench.world
                    &&& bench.mutations == (match authority {
                        None => None,
                        Some(given) => Some(
                            AuthorityView {
                                namespace: match namespace->0 {
                                    None => None,
                                    Some(dispatcher) => Some(final(dispatcher).state()),
                                },
                                ..given
                            },
                        ),
                    })
                }),
    {
        let bound = match namespace {
            None => {
                return Err(no_authority(operation));
            },
            Some(bound) => bound,
        };
        let outcome = match apply(
            bound,
            transport,
            &NamespaceMutation::CreateDirectory {
                parent: parent.handle().clone(),
                name: name.clone(),
                mode,
            },
        ) {
            Ok(outcome) => outcome,
            Err(error) => {
                return Err(error);
            },
        };
        let handle = match outcome {
            NamespaceOutcome::Created(effect) => effect.handle,
            _ => vstd::pervasive::unreached(),
        };
        self.produced(transport, handle, name, operation, deadline)
    }

    /// Create every missing component of `path`.
    ///
    /// A component that already exists as a directory is walked through; one that
    /// exists as anything else stops the walk. Nothing is rolled back on a later
    /// failure: a retry can complete a partial path.
    fn create_parents<T: RawTransport, D: NamespaceDispatcher<T>>(
        &self,
        transport: &mut T,
        mutations: Option<MutationContext<'_, D>>,
        path: &StoragePath,
        mode: u32,
        operation: &str,
        deadline: Deadline,
    ) -> (r: StorageResult<StorageResponse>)
        ensures
            ({
                let (answer, bench) = parents_from::<T, D>(
                    self@,
                    Bench {
                        world: old(transport).world(),
                        mutations: authority_of::<T, D>(mutations),
                    },
                    split_path(path@.bytes),
                    0,
                    contract_anchor_of(self@.anchors, path@.anchor).pin,
                    mode,
                    operation@,
                    deadline,
                );
                &&& res_view(r) == answer
                &&& final(transport).world() == bench.world
                &&& bench.mutations == (match mutations {
                    None => None,
                    Some(bound) => Some(
                        AuthorityView {
                            owners: final(bound.owners)@,
                            create_verifier: bound.create_verifier,
                            namespace: match bound.namespace {
                                None => None,
                                Some(dispatcher) => Some(final(dispatcher).state()),
                            },
                        },
                    ),
                })
            }),
    {
        let parts = split_components(path.as_bytes());
        let ghost whole = split_path(path@.bytes);
        let ghost start = Bench {
            world: transport.world(),
            mutations: authority_of::<T, D>(mutations),
        };
        let ghost total = parents_from::<T, D>(
            self@,
            start,
            whole,
            0,
            contract_anchor_of(self@.anchors, path@.anchor).pin,
            mode,
            operation@,
            deadline,
        );
        let mut bound = mutations;
        let mut current = self.anchors.for_contract(path.anchor()).pin().clone();
        let mut i: usize = 0;
        while i < parts.len()
            invariant
                i <= parts@.len(),
                seq_view(parts@) == whole,
                whole == split_path(path@.bytes),
                total == parents_from::<T, D>(
                    self@,
                    Bench {
                        world: old(transport).world(),
                        mutations: authority_of::<T, D>(mutations),
                    },
                    whole,
                    0,
                    contract_anchor_of(self@.anchors, path@.anchor).pin,
                    mode,
                    operation@,
                    deadline,
                ),
                total == parents_from::<T, D>(
                    self@,
                    Bench {
                        world: transport.world(),
                        mutations: authority_of::<T, D>(bound),
                    },
                    whole,
                    i as int,
                    current@,
                    mode,
                    operation@,
                    deadline,
                ),
                match (mutations, bound) {
                    (None, None) => true,
                    (Some(before), Some(after)) => {
                        &&& *final(after.owners) == *final(before.owners)
                        &&& *after.owners == *before.owners
                        &&& after.create_verifier == before.create_verifier
                        &&& match (before.namespace, after.namespace) {
                            (None, None) => true,
                            (Some(given), Some(kept)) => *final(kept) == *final(given),
                            _ => false,
                        }
                    },
                    _ => false,
                },
            decreases parts@.len() - i,
        {
            proof {
                assert(whole[i as int] == parts@[i as int]@);
            }
            let name = match component(copy_bytes(parts[i].as_slice())) {
                Ok(name) => name,
                Err(error) => {
                    return Err(error);
                },
            };
            match self.child(transport, &current, &name, "create_parents", deadline) {
                Ok(existing) => {
                    if !existing.is_directory() {
                        return Err(
                            UmbraError::new(
                                ErrorKind::AlreadyExists,
                                operation,
                                join(
                                    quoted_text(lossy_text(name.as_bytes()).as_str()).as_str(),
                                    " exists and is not a directory",
                                ).as_str(),
                            ),
                        );
                    }
                    current = existing;
                },
                Err(error) => {
                    if error.kind != ErrorKind::NotFound {
                        return Err(error);
                    }
                    let ghost authority = authority_of::<T, D>(bound);
                    let namespace = match &mut bound {
                        None => None,
                        Some(held) => Some(
                            match &mut held.namespace {
                                None => None,
                                Some(dispatcher) => Some(&mut **dispatcher),
                            },
                        ),
                    };
                    proof {
                        assert(bound_as::<T, D>(authority, namespace));
                    }
                    let pinned = match self.make(
                        transport,
                        namespace,
                        &current,
                        &name,
                        mode,
                        operation,
                        deadline,
                    ) {
                        Ok(pinned) => pinned,
                        Err(refused) => {
                            return Err(refused);
                        },
                    };
                    current = pinned;
                },
            }
            i += 1;
        }
        // The response describes the leaf, whether this call made it or found it.
        match report(transport, &current, deadline) {
            Ok(result) => Ok(StorageResponse::Created(result)),
            Err(error) => Err(error),
        }
    }

    fn rename<T: RawTransport, D: NamespaceDispatcher<T>>(
        &self,
        transport: &mut T,
        mutations: Option<MutationContext<'_, D>>,
        source: &StoragePath,
        destination: &StoragePath,
        mode: RenameMode,
        operation: &str,
        deadline: Deadline,
    ) -> (r: StorageResult<StorageResponse>)
        ensures
            ({
                let (answer, bench) = move_run::<T, D>(
                    self@,
                    Bench {
                        world: old(transport).world(),
                        mutations: authority_of::<T, D>(mutations),
                    },
                    source@,
                    destination@,
                    mode,
                    operation@,
                    deadline,
                );
                &&& res_view(r) == answer
                &&& final(transport).world() == bench.world
                &&& bench.mutations == (match mutations {
                    None => None,
                    Some(bound) => Some(
                        AuthorityView {
                            owners: final(bound.owners)@,
                            create_verifier: bound.create_verifier,
                            namespace: match bound.namespace {
                                None => None,
                                Some(dispatcher) => Some(final(dispatcher).state()),
                            },
                        },
                    ),
                })
            }),
    {
        proof {
            reveal(move_run);
        }
        if source.anchor() != destination.anchor() {
            // The control namespace is never tracee-visible, and an object must not
            // cross that boundary by being renamed across it.
            return Err(
                UmbraError::new(
                    ErrorKind::InvalidPath,
                    operation,
                    "a cross-anchor rename is rejected",
                ),
            );
        }
        if mode == RenameMode::NoReplace {
            return Err(
                UmbraError::new(
                    ErrorKind::UnsupportedCapability,
                    operation,
                    "atomic no-replace rename is not available over NFSv4.0: RENAME always replaces, and emulating the guarantee with a destination probe is not atomic. Use RenameMode::Replace, or check the destination yourself and accept the race.",
                ),
            );
        }
        let (source_parent, source_name) = match self.parent_and_name(
            transport,
            source,
            operation,
            deadline,
        ) {
            Ok(placed) => placed,
            Err(error) => {
                return Err(error);
            },
        };
        let (target_parent, target_name) = match self.parent_and_name(
            transport,
            destination,
            operation,
            deadline,
        ) {
            Ok(placed) => placed,
            Err(error) => {
                return Err(error);
            },
        };
        let pinned = match self.child(
            transport,
            &source_parent,
            &source_name,
            operation,
            deadline,
        ) {
            Ok(pinned) => pinned,
            Err(error) => {
                return Err(error);
            },
        };
        let bound = match mutations {
            None => {
                return Err(no_authority(operation));
            },
            Some(bound) => bound,
        };
        let outcome = match apply(
            bound.namespace,
            transport,
            &NamespaceMutation::Rename {
                source_parent: source_parent.handle().clone(),
                source_name,
                target_parent: target_parent.handle().clone(),
                target_name: target_name.clone(),
                source: pinned.identity(),
                mode,
            },
        ) {
            Ok(outcome) => outcome,
            Err(error) => {
                return Err(error);
            },
        };
        let handle = match outcome {
            NamespaceOutcome::Renamed(effect) => effect.handle,
            _ => vstd::pervasive::unreached(),
        };
        let moved = match self.produced(transport, handle, &target_name, operation, deadline) {
            Ok(moved) => moved,
            Err(error) => {
                return Err(error);
            },
        };
        match report(transport, &moved, deadline) {
            Ok(result) => Ok(StorageResponse::Renamed(result)),
            Err(error) => Err(error),
        }
    }

    fn set_metadata<T: RawTransport, D: NamespaceDispatcher<T>>(
        &self,
        transport: &mut T,
        mutations: Option<MutationContext<'_, D>>,
        path: &StoragePath,
        update: MetadataUpdate,
        operation: &str,
        deadline: Deadline,
    ) -> (r: StorageResult<StorageResponse>)
        ensures
            ({
                let (answer, bench) = metadata_run::<T, D>(
                    self@,
                    Bench {
                        world: old(transport).world(),
                        mutations: authority_of::<T, D>(mutations),
                    },
                    path@,
                    update,
                    operation@,
                    deadline,
                );
                &&& res_view(r) == answer
                &&& final(transport).world() == bench.world
                &&& bench.mutations == (match mutations {
                    None => None,
                    Some(bound) => Some(
                        AuthorityView {
                            owners: final(bound.owners)@,
                            create_verifier: bound.create_verifier,
                            namespace: match bound.namespace {
                                None => None,
                                Some(dispatcher) => Some(final(dispatcher).state()),
                            },
                        },
                    ),
                })
            }),
    {
        proof {
            reveal(metadata_run);
        }
        let object = match self.anchors.resolve(transport, path, deadline) {
            Ok(object) => object,
            Err(error) => {
                return Err(error);
            },
        };
        let bound = match mutations {
            None => {
                return Err(no_authority(operation));
            },
            Some(bound) => bound,
        };
        match apply(
            bound.namespace,
            transport,
            &NamespaceMutation::SetAttributes {
                object: object.handle().clone(),
                target: object.identity(),
                update,
            },
        ) {
            Ok(_) => {},
            Err(error) => {
                return Err(error);
            },
        }
        match object.stat(transport, deadline) {
            Ok(stat) => Ok(StorageResponse::MetadataSet(stat)),
            Err(error) => Err(error),
        }
    }

    fn resize<T: RawTransport, D: NamespaceDispatcher<T>>(
        &self,
        transport: &mut T,
        mutations: Option<MutationContext<'_, D>>,
        path: &StoragePath,
        len: u64,
        operation: &str,
        deadline: Deadline,
    ) -> (r: StorageResult<StorageResponse>)
        ensures
            ({
                let (answer, bench) = resize_run::<T, D>(
                    self@,
                    Bench {
                        world: old(transport).world(),
                        mutations: authority_of::<T, D>(mutations),
                    },
                    path@,
                    len,
                    operation@,
                    deadline,
                );
                &&& res_view(r) == answer
                &&& final(transport).world() == bench.world
                &&& bench.mutations == (match mutations {
                    None => None,
                    Some(bound) => Some(
                        AuthorityView {
                            owners: final(bound.owners)@,
                            create_verifier: bound.create_verifier,
                            namespace: match bound.namespace {
                                None => None,
                                Some(dispatcher) => Some(final(dispatcher).state()),
                            },
                        },
                    ),
                })
            }),
    {
        proof {
            reveal(resize_run);
        }
        let object = match self.anchors.resolve(transport, path, deadline) {
            Ok(object) => object,
            Err(error) => {
                return Err(error);
            },
        };
        match self.truncate(transport, mutations, path, &object, len, operation, deadline) {
            Ok(()) => {},
            Err(error) => {
                return Err(error);
            },
        }
        match object.stat(transport, deadline) {
            Ok(stat) => Ok(StorageResponse::Truncated(stat)),
            Err(error) => Err(error),
        }
    }

    /// Truncate through SETATTR, holding an open with write access for it.
    ///
    /// The open exists solely to authorise the SETATTR. It is closed either way,
    /// and a CLOSE failure never replaces the truncation's own error.
    fn truncate<T: RawTransport, D: NamespaceDispatcher<T>>(
        &self,
        transport: &mut T,
        mutations: Option<MutationContext<'_, D>>,
        path: &StoragePath,
        object: &PinnedObject,
        len: u64,
        operation: &str,
        deadline: Deadline,
    ) -> (r: StorageResult<()>)
        ensures
            ({
                let (answer, bench) = truncate_run::<T, D>(
                    self@,
                    Bench {
                        world: old(transport).world(),
                        mutations: authority_of::<T, D>(mutations),
                    },
                    path@,
                    object@,
                    len,
                    operation@,
                    deadline,
                );
                &&& res_view(r) == answer
                &&& final(transport).world() == bench.world
                &&& bench.mutations == (match mutations {
                    None => None,
                    Some(bound) => Some(
                        AuthorityView {
                            owners: final(bound.owners)@,
                            create_verifier: bound.create_verifier,
                            namespace: match bound.namespace {
                                None => None,
                                Some(dispatcher) => Some(final(dispatcher).state()),
                            },
                        },
                    ),
                })
            }),
    {
        proof {
            reveal(truncate_run);
        }
        let (parent, name) = match self.parent_and_name(transport, path, operation, deadline) {
            Ok(placed) => placed,
            Err(error) => {
                return Err(error);
            },
        };
        let bound = match mutations {
            None => {
                return Err(no_authority(operation));
            },
            Some(bound) => bound,
        };
        let open = match OpenObject::open(
            bound.owners,
            transport,
            &parent,
            &name,
            CreateDisposition::OpenExisting,
            ShareAccess::WRITE,
            deadline,
        ) {
            Ok(open) => open,
            Err(error) => {
                return Err(error.to_umbra(operation));
            },
        };
        let stateid = match open.stateid(bound.owners.session()) {
            Ok(stateid) => stateid,
            Err(error) => {
                let _ = open.close(bound.owners.session(), transport, deadline);
                return Err(error.to_umbra(operation));
            },
        };
        let outcome = apply(
            bound.namespace,
            transport,
            &NamespaceMutation::Truncate {
                object: object.handle().clone(),
                target: object.identity(),
                len,
                stateid,
            },
        );
        match outcome {
            Err(error) => {
                let _ = open.close(bound.owners.session(), transport, deadline);
                Err(error)
            },
            Ok(_) => release(open, bound.owners.session(), transport, deadline, operation),
        }
    }

    fn remove<T: RawTransport, D: NamespaceDispatcher<T>>(
        &self,
        transport: &mut T,
        mutations: Option<MutationContext<'_, D>>,
        path: &StoragePath,
        kind: RemoveKind,
        operation: &str,
        deadline: Deadline,
    ) -> (r: StorageResult<()>)
        ensures
            ({
                let (answer, bench) = removal_run::<T, D>(
                    self@,
                    Bench {
                        world: old(transport).world(),
                        mutations: authority_of::<T, D>(mutations),
                    },
                    path@,
                    kind,
                    operation@,
                    deadline,
                );
                &&& res_view(r) == answer
                &&& final(transport).world() == bench.world
                &&& bench.mutations == (match mutations {
                    None => None,
                    Some(bound) => Some(
                        AuthorityView {
                            owners: final(bound.owners)@,
                            create_verifier: bound.create_verifier,
                            namespace: match bound.namespace {
                                None => None,
                                Some(dispatcher) => Some(final(dispatcher).state()),
                            },
                        },
                    ),
                })
            }),
    {
        proof {
            reveal(removal_run);
        }
        let (parent, name) = match self.parent_and_name(transport, path, operation, deadline) {
            Ok(placed) => placed,
            Err(error) => {
                return Err(error);
            },
        };
        let target = match self.child(transport, &parent, &name, operation, deadline) {
            Ok(target) => target,
            Err(error) => {
                return Err(error);
            },
        };
        // Absorbing a mismatch would hide a caller's error and remove something it
        // did not mean to.
        let wants_directory = kind == RemoveKind::Directory;
        if target.is_directory() != wants_directory {
            return Err(
                UmbraError::new(
                    ErrorKind::InvalidInput,
                    operation,
                    if wants_directory {
                        "remove_directory was asked to remove a non-directory"
                    } else {
                        "unlink was asked to remove a directory"
                    },
                ),
            );
        }
        let bound = match mutations {
            None => {
                return Err(no_authority(operation));
            },
            Some(bound) => bound,
        };
        match apply(
            bound.namespace,
            transport,
            &NamespaceMutation::Remove {
                parent: parent.handle().clone(),
                name,
                target: target.identity(),
                kind,
            },
        ) {
            Ok(_) => Ok(()),
            Err(error) => Err(error),
        }
    }
}

/// Whether `namespace` is the dispatcher of `authority`.
pub open spec fn bound_as<T: RawTransport, D: NamespaceDispatcher<T>>(
    authority: Option<AuthorityView<D::State>>,
    namespace: Option<Option<&mut D>>,
) -> bool {
    match (authority, namespace) {
        (None, None) => true,
        (Some(given), Some(dispatcher)) => match (given.namespace, dispatcher) {
            (None, None) => true,
            (Some(state), Some(bound)) => state == bound.state(),
            _ => false,
        },
        _ => false,
    }
}

fn report<T: RawTransport>(transport: &mut T, object: &PinnedObject, deadline: Deadline) -> (r:
    StorageResult<ObjectResult>)
    ensures
        (res_view(r), final(transport).world()) == report_run::<T>(
            old(transport).world(),
            object@,
            deadline,
        ),
{
    match object.stat(transport, deadline) {
        Ok(stat) => Ok(ObjectResult { stat, rewrite_target: None }),
        Err(error) => Err(error),
    }
}

/// A request that fails the preflight has no effect at all: nothing is sent, no
/// owner is spent and no intent is recorded.
pub proof fn a_refused_request_has_no_effect<T: RawTransport, D: NamespaceDispatcher<T>>(
    ops: OperationsView,
    bench: Bench<T::World, D::State>,
    ledger: Ledger,
    request: StorageRequestView,
    deadline: Deadline,
)
    requires
        preflight_fault(ops, request) is Some,
    ensures
        execute_run::<T, D>(ops, bench, ledger, request, deadline) == (
            Err::<StorageResponseView, UmbraErrorView>(preflight_fault(ops, request)->0),
            bench,
            ledger,
        ),
{
}

/// A run opened read-only takes no mutation, a request for another run is never
/// served, and an unsupported operation is refused as such, whoever asks.
pub proof fn what_a_run_never_serves(ops: OperationsView, request: StorageRequestView)
    requires
        (ops.policy.read_only && mutates(request.operation))
            || request.context.run_id != ops.run_id || support_of(
            request.operation,
        ) is Unsupported,
    ensures
        preflight_fault(ops, request) is Some,
{
}

/// A read spends no open owner, moves no dispatcher and records no intent.
pub proof fn a_read_needs_no_authority<T: RawTransport, D: NamespaceDispatcher<T>>(
    ops: OperationsView,
    bench: Bench<T::World, D::State>,
    ledger: Ledger,
    request: StorageRequestView,
    deadline: Deadline,
)
    requires
        !mutates(request.operation),
    ensures
        execute_run::<T, D>(ops, bench, ledger, request, deadline).1.mutations
            == bench.mutations,
        execute_run::<T, D>(ops, bench, ledger, request, deadline).2 == ledger,
{
    reveal(mutate_run);
}

/// Without bound authority no mutation succeeds; only a request to create parents
/// that all exist already is answered.
pub proof fn no_mutation_without_authority<T: RawTransport, D: NamespaceDispatcher<T>>(
    ops: OperationsView,
    bench: Bench<T::World, D::State>,
    ledger: Ledger,
    request: StorageRequestView,
    deadline: Deadline,
)
    requires
        bench.mutations is None,
        mutates(request.operation),
        !(request.operation is CreateParents),
    ensures
        execute_run::<T, D>(ops, bench, ledger, request, deadline).0 is Err,
        execute_run::<T, D>(ops, bench, ledger, request, deadline).2 == ledger,
{
    reveal(mutate_run);
    reveal(write_at_run);
    reveal(create_file_run);
    reveal(create_directory_run);
    reveal(move_run);
    reveal(metadata_run);
    reveal(resize_run);
    reveal(removal_run);
    reveal(truncate_run);
}

/// Only a write records anything in the ledger.
pub proof fn only_a_write_touches_the_ledger<T: RawTransport, D: NamespaceDispatcher<T>>(
    ops: OperationsView,
    bench: Bench<T::World, D::State>,
    ledger: Ledger,
    request: StorageRequestView,
    deadline: Deadline,
)
    requires
        !(request.operation is WriteAt),
    ensures
        execute_run::<T, D>(ops, bench, ledger, request, deadline).2 == ledger,
{
}

/// Every child an operation looks up and every object it produces is on the run's
/// file system, whatever the server answers.
pub proof fn every_adopted_object_is_on_the_run_filesystem<T: RawTransport>(
    ops: OperationsView,
    world: T::World,
    parent: PinnedObjectView,
    handle: Seq<u8>,
    name: Seq<u8>,
    operation: Seq<char>,
    deadline: Deadline,
)
    ensures
        child_run::<T>(ops, world, parent, name, operation, deadline).0 matches Ok(pin)
            ==> pin.identity.fsid == ops.anchors.filesystem,
        produced_run::<T>(ops, world, handle, name, operation, deadline).0 matches Ok(pin)
            ==> pin.identity.fsid == ops.anchors.filesystem,
{
}

/// The advertised limits are never more than the contract permits, and a page of
/// at least one entry can always be asked for.
pub proof fn the_advertised_limits_are_bounded(limits: TransportLimits)
    ensures
        limits_from(limits).max_io_bytes <= MAX_IO_BYTES,
        1 <= limits_from(limits).max_directory_entries <= MAX_DIRECTORY_ENTRIES,
        limits_from(limits).max_io_bytes <= limits.max_reply_bytes,
{
}

} // verus!
