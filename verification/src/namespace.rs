//! Namespace mutation: the typed seam for REMOVE, RENAME, CREATE and SETATTR.
//!
//! [`dispatch::TransportDispatcher`] puts a mutation on the wire. A caller with no
//! dispatcher bound receives [`crate::contract::ErrorKind::NotImplemented`] rather
//! than a fabricated success.
//!
//! A rename moves a name, not an object. [`apply`] proves that: it compares the
//! identity the dispatcher reports afterwards against the identity pinned before,
//! and refuses when they differ.
use vstd::prelude::*;

use crate::capability::{refusal, Support, SupportView, CONTRACTS_REVISION, NO_WIRE_OPERATION};
use crate::contract::{
    res_view, MetadataUpdate, RenameMode, StorageResult, UmbraErrorView,
};
use crate::error::{to_umbra, unproven, unproven_error, FacadeErrorView, FacadeResult};
use crate::handle::{identity_text, FileHandle, ObjectIdentity, Stateid};
use crate::text::{byte_list, byte_list_text, decimal, decimal_text, join3};
use crate::transport::{ComponentName, RawTransport};

pub mod beliefs;
pub mod dispatch;

verus! {

/// Which kind of object a REMOVE is expected to unlink.
///
/// NFSv4 has one REMOVE, but the contract has two operations, and a caller that
/// asks to remove a directory with `unlink` is making an error the provider must
/// report rather than absorb.
#[derive(Clone, Copy, Debug, PartialEq, Eq, Structural)]
pub enum RemoveKind {
    /// A regular file or logical-symlink name.
    File,
    /// A directory, which must be empty.
    Directory,
}

/// One namespace mutation, fully addressed: a parent filehandle plus a byte component.
#[allow(inconsistent_fields)]
#[derive(Debug, PartialEq, Eq)]
pub enum NamespaceMutation {
    /// REMOVE: unlink one name, which resolved to `target`.
    Remove {
        /// Parent.
        parent: FileHandle,
        /// Name.
        name: ComponentName,
        /// Target.
        target: ObjectIdentity,
        /// Kind.
        kind: RemoveKind,
    },
    /// RENAME: move a name, keeping the object.
    Rename {
        /// Source parent.
        source_parent: FileHandle,
        /// Source name.
        source_name: ComponentName,
        /// Target parent.
        target_parent: FileHandle,
        /// Target name.
        target_name: ComponentName,
        /// Source.
        source: ObjectIdentity,
        /// Mode.
        mode: RenameMode,
    },
    /// CREATE of a directory.
    CreateDirectory {
        /// Parent.
        parent: FileHandle,
        /// Name.
        name: ComponentName,
        /// Mode.
        mode: u32,
    },
    /// SETATTR: change ownership, mode or times.
    SetAttributes {
        /// Object.
        object: FileHandle,
        /// Target.
        target: ObjectIdentity,
        /// Update.
        update: MetadataUpdate,
    },
    /// SETATTR of the size, under an open stateid with write access.
    Truncate {
        /// Object.
        object: FileHandle,
        /// Target.
        target: ObjectIdentity,
        /// Len.
        len: u64,
        /// Stateid.
        stateid: Stateid,
    },
}

/// The content of a [`NamespaceMutation`].
#[allow(inconsistent_fields)]
pub enum NamespaceMutationView {
    /// REMOVE: unlink one name, which resolved to `target`.
    Remove {
        /// Parent.
        parent: Seq<u8>,
        /// Name.
        name: Seq<u8>,
        /// Target.
        target: ObjectIdentity,
        /// Kind.
        kind: RemoveKind,
    },
    /// RENAME: move a name, keeping the object.
    Rename {
        /// Source parent.
        source_parent: Seq<u8>,
        /// Source name.
        source_name: Seq<u8>,
        /// Target parent.
        target_parent: Seq<u8>,
        /// Target name.
        target_name: Seq<u8>,
        /// Source.
        source: ObjectIdentity,
        /// Mode.
        mode: RenameMode,
    },
    /// CREATE of a directory.
    CreateDirectory {
        /// Parent.
        parent: Seq<u8>,
        /// Name.
        name: Seq<u8>,
        /// Mode.
        mode: u32,
    },
    /// SETATTR: change ownership, mode or times.
    SetAttributes {
        /// Object.
        object: Seq<u8>,
        /// Target.
        target: ObjectIdentity,
        /// Update.
        update: MetadataUpdate,
    },
    /// SETATTR of the size, under an open stateid with write access.
    Truncate {
        /// Object.
        object: Seq<u8>,
        /// Target.
        target: ObjectIdentity,
        /// Len.
        len: u64,
        /// Stateid.
        stateid: Stateid,
    },
}

impl View for NamespaceMutation {
    type V = NamespaceMutationView;

    open spec fn view(&self) -> NamespaceMutationView {
        match *self {
            NamespaceMutation::Remove { parent, name, target, kind } => NamespaceMutationView::Remove {
                parent: parent@,
                name: name@,
                target,
                kind,
            },
            NamespaceMutation::Rename {
                source_parent,
                source_name,
                target_parent,
                target_name,
                source,
                mode,
            } => NamespaceMutationView::Rename {
                source_parent: source_parent@,
                source_name: source_name@,
                target_parent: target_parent@,
                target_name: target_name@,
                source,
                mode,
            },
            NamespaceMutation::CreateDirectory { parent, name, mode } => NamespaceMutationView::CreateDirectory {
                parent: parent@,
                name: name@,
                mode,
            },
            NamespaceMutation::SetAttributes { object, target, update } => NamespaceMutationView::SetAttributes {
                object: object@,
                target,
                update,
            },
            NamespaceMutation::Truncate { object, target, len, stateid } => NamespaceMutationView::Truncate {
                object: object@,
                target,
                len,
                stateid,
            },
        }
    }
}

impl Clone for NamespaceMutation {
    fn clone(&self) -> (r: Self)
        ensures
            r@ == self@,
    {
        match self {
            NamespaceMutation::Remove { parent, name, target, kind } => NamespaceMutation::Remove {
                parent: parent.clone(),
                name: name.clone(),
                target: *target,
                kind: *kind,
            },
            NamespaceMutation::Rename {
                source_parent,
                source_name,
                target_parent,
                target_name,
                source,
                mode,
            } => NamespaceMutation::Rename {
                source_parent: source_parent.clone(),
                source_name: source_name.clone(),
                target_parent: target_parent.clone(),
                target_name: target_name.clone(),
                source: *source,
                mode: *mode,
            },
            NamespaceMutation::CreateDirectory { parent, name, mode } => NamespaceMutation::CreateDirectory {
                parent: parent.clone(),
                name: name.clone(),
                mode: *mode,
            },
            NamespaceMutation::SetAttributes { object, target, update } => NamespaceMutation::SetAttributes {
                object: object.clone(),
                target: *target,
                update: *update,
            },
            NamespaceMutation::Truncate { object, target, len, stateid } => NamespaceMutation::Truncate {
                object: object.clone(),
                target: *target,
                len: *len,
                stateid: *stateid,
            },
        }
    }
}

/// The operation a mutation is named as in diagnostics.
pub open spec fn mutation_name(mutation: NamespaceMutationView) -> Seq<char> {
    match mutation {
        NamespaceMutationView::Remove { kind, .. } => match kind {
            RemoveKind::File => "namespace.remove"@,
            RemoveKind::Directory => "namespace.remove_directory"@,
        },
        NamespaceMutationView::Rename { .. } => "namespace.rename"@,
        NamespaceMutationView::CreateDirectory { .. } => "namespace.create_directory"@,
        NamespaceMutationView::SetAttributes { .. } => "namespace.set_attributes"@,
        NamespaceMutationView::Truncate { .. } => "namespace.truncate"@,
    }
}

impl NamespaceMutation {
    /// The operation name used in diagnostics and in the deferral error.
    pub fn operation(&self) -> (r: &'static str)
        ensures
            r@ == mutation_name(self@),
    {
        match self {
            NamespaceMutation::Remove { kind, .. } => match kind {
                RemoveKind::File => "namespace.remove",
                RemoveKind::Directory => "namespace.remove_directory",
            },
            NamespaceMutation::Rename { .. } => "namespace.rename",
            NamespaceMutation::CreateDirectory { .. } => "namespace.create_directory",
            NamespaceMutation::SetAttributes { .. } => "namespace.set_attributes",
            NamespaceMutation::Truncate { .. } => "namespace.truncate",
        }
    }
}

/// What a dispatcher reports about the object a mutation acted on.
#[derive(Debug, PartialEq, Eq)]
pub struct NamespaceEffect {
    /// Identity the server reports for the object after the mutation.
    pub identity: ObjectIdentity,
    /// Filehandle naming that object after the mutation.
    pub handle: FileHandle,
}

/// The content of a [`NamespaceEffect`].
pub struct NamespaceEffectView {
    /// Identity the server reports for the object after the mutation.
    pub identity: ObjectIdentity,
    /// Filehandle naming that object after the mutation.
    pub handle: Seq<u8>,
}

impl View for NamespaceEffect {
    type V = NamespaceEffectView;

    open spec fn view(&self) -> NamespaceEffectView {
        NamespaceEffectView {
            identity: self.identity,
            handle: self.handle@,
        }
    }
}

impl Clone for NamespaceEffect {
    fn clone(&self) -> (r: Self)
        ensures
            r@ == self@,
    {
        NamespaceEffect {
            identity: self.identity,
            handle: self.handle.clone(),
        }
    }
}

/// The settled result of one namespace mutation.
#[derive(Debug, PartialEq, Eq)]
pub enum NamespaceOutcome {
    /// The name is gone. An object that still has an open state survives to CLOSE.
    Removed,
    /// The name moved.
    Renamed(NamespaceEffect),
    /// A new directory exists.
    Created(NamespaceEffect),
    /// Attributes changed on the object the caller pinned.
    AttributesSet(NamespaceEffect),
}

/// The content of a [`NamespaceOutcome`].
pub enum NamespaceOutcomeView {
    /// The name is gone. An object that still has an open state survives to CLOSE.
    Removed,
    /// The name moved.
    Renamed(NamespaceEffectView),
    /// A new directory exists.
    Created(NamespaceEffectView),
    /// Attributes changed on the object the caller pinned.
    AttributesSet(NamespaceEffectView),
}

impl View for NamespaceOutcome {
    type V = NamespaceOutcomeView;

    open spec fn view(&self) -> NamespaceOutcomeView {
        match *self {
            NamespaceOutcome::Removed => NamespaceOutcomeView::Removed,
            NamespaceOutcome::Renamed(inner) => NamespaceOutcomeView::Renamed(inner@),
            NamespaceOutcome::Created(inner) => NamespaceOutcomeView::Created(inner@),
            NamespaceOutcome::AttributesSet(inner) => NamespaceOutcomeView::AttributesSet(inner@),
        }
    }
}

impl Clone for NamespaceOutcome {
    fn clone(&self) -> (r: Self)
        ensures
            r@ == self@,
    {
        match self {
            NamespaceOutcome::Removed => NamespaceOutcome::Removed,
            NamespaceOutcome::Renamed(inner) => NamespaceOutcome::Renamed(inner.clone()),
            NamespaceOutcome::Created(inner) => NamespaceOutcome::Created(inner.clone()),
            NamespaceOutcome::AttributesSet(inner) => {
                NamespaceOutcome::AttributesSet(inner.clone())
            },
        }
    }
}

/// Puts one namespace mutation on the wire.
///
/// `state` stands for whatever the dispatcher itself keeps, and `dispatched` says
/// what it answers. The transport arrives as a parameter, so the mutation travels
/// on the session's own connection.
pub trait NamespaceDispatcher<T: RawTransport>: Sized {
    /// What the dispatcher keeps between calls.
    type State;

    /// The present state.
    spec fn state(&self) -> Self::State;

    /// What dispatching `mutation` yields: the outcome, the transport's world and
    /// the dispatcher's state afterwards.
    spec fn dispatched(
        state: Self::State,
        world: T::World,
        mutation: NamespaceMutationView,
    ) -> (Result<NamespaceOutcomeView, FacadeErrorView>, T::World, Self::State);

    /// Dispatch one mutation and report what it settled.
    fn dispatch(&mut self, transport: &mut T, mutation: &NamespaceMutation) -> (r: FacadeResult<
        NamespaceOutcome,
    >)
        ensures
            (res_view(r), final(transport).world(), final(self).state()) == Self::dispatched(
                old(self).state(),
                old(transport).world(),
                mutation@,
            ),
    ;
}

/// The refusal of a mutation with no dispatcher bound.
pub open spec fn unbound(mutation: NamespaceMutationView) -> UmbraErrorView {
    refusal(
        SupportView::Deferred { owner: CONTRACTS_REVISION@, reason: NO_WIRE_OPERATION@ },
        mutation_name(mutation),
    )
}

/// What a dispatcher's answer is believed as, once checked.
pub open spec fn believed(
    mutation: NamespaceMutationView,
    answer: Result<NamespaceOutcomeView, FacadeErrorView>,
) -> Result<NamespaceOutcomeView, UmbraErrorView> {
    match answer {
        Err(error) => Err(to_umbra(error, mutation_name(mutation))),
        Ok(outcome) => match disproof(mutation, outcome) {
            Some(error) => Err(to_umbra(error, mutation_name(mutation))),
            None => Ok(outcome),
        },
    }
}

/// Apply one mutation through a bound dispatcher.
pub open spec fn apply_run<T: RawTransport, D: NamespaceDispatcher<T>>(
    state: D::State,
    world: T::World,
    mutation: NamespaceMutationView,
) -> (Result<NamespaceOutcomeView, UmbraErrorView>, T::World, D::State) {
    let (answer, after, kept) = D::dispatched(state, world, mutation);
    (believed(mutation, answer), after, kept)
}

/// Apply one namespace mutation through an optionally bound dispatcher.
///
/// With no dispatcher this reports the gap by name. With one, the outcome is
/// checked against the mutation before it is believed.
pub fn apply<T: RawTransport, D: NamespaceDispatcher<T>>(
    dispatcher: Option<&mut D>,
    transport: &mut T,
    mutation: &NamespaceMutation,
) -> (r: StorageResult<NamespaceOutcome>)
    ensures
        match dispatcher {
            None => {
                &&& res_view(r) == Err::<NamespaceOutcomeView, UmbraErrorView>(unbound(mutation@))
                &&& final(transport).world() == old(transport).world()
            },
            Some(bound) => (res_view(r), final(transport).world(), final(bound).state())
                == apply_run::<T, D>(bound.state(), old(transport).world(), mutation@),
        },
{
    let operation = mutation.operation();
    match dispatcher {
        None => Support::Deferred {
            owner: CONTRACTS_REVISION,
            reason: NO_WIRE_OPERATION,
        }.refuse(operation),
        Some(bound) => match bound.dispatch(transport, mutation) {
            Err(error) => Err(error.to_umbra(operation)),
            Ok(outcome) => match verify(mutation, &outcome) {
                Err(error) => Err(error.to_umbra(operation)),
                Ok(()) => Ok(outcome),
            },
        },
    }
}

/// How a diagnostic renders an effect.
pub open spec fn effect_text(effect: NamespaceEffectView) -> Seq<char> {
    "NamespaceEffect { identity: "@ + identity_text(effect.identity)
        + ", handle: FileHandle { bytes: "@ + byte_list(effect.handle) + " } }"@
}

/// How a diagnostic renders an outcome.
pub open spec fn outcome_text(outcome: NamespaceOutcomeView) -> Seq<char> {
    match outcome {
        NamespaceOutcomeView::Removed => "Removed"@,
        NamespaceOutcomeView::Renamed(effect) => "Renamed("@ + effect_text(effect) + ")"@,
        NamespaceOutcomeView::Created(effect) => "Created("@ + effect_text(effect) + ")"@,
        NamespaceOutcomeView::AttributesSet(effect) => "AttributesSet("@ + effect_text(effect)
            + ")"@,
    }
}

impl NamespaceEffect {
    fn text(&self) -> (r: String)
        ensures
            r@ == effect_text(self@),
    {
        join3(
            "NamespaceEffect { identity: ",
            self.identity.text().as_str(),
            ", handle: FileHandle { bytes: ",
        ).concat(byte_list_text(self.handle.as_bytes()).as_str()).concat(" } }")
    }
}

impl NamespaceOutcome {
    fn text(&self) -> (r: String)
        ensures
            r@ == outcome_text(self@),
    {
        match self {
            NamespaceOutcome::Removed => "Removed".to_owned(),
            NamespaceOutcome::Renamed(effect) => join3("Renamed(", effect.text().as_str(), ")"),
            NamespaceOutcome::Created(effect) => join3("Created(", effect.text().as_str(), ")"),
            NamespaceOutcome::AttributesSet(effect) => join3(
                "AttributesSet(",
                effect.text().as_str(),
                ")",
            ),
        }
    }
}

/// The failure of an outcome of the wrong kind.
pub open spec fn mismatched(outcome: NamespaceOutcomeView, expected: Seq<char>) -> FacadeErrorView {
    unproven("the dispatcher answered "@ + outcome_text(outcome) + " for a "@ + expected)
}

/// The failure of a SETATTR that reports another object.
pub open spec fn strayed(reported: ObjectIdentity, target: ObjectIdentity) -> FacadeErrorView {
    unproven(
        "SETATTR reported fileid "@ + decimal(reported.fileid as nat)
            + " but the pinned object was fileid "@ + decimal(target.fileid as nat),
    )
}

/// Why an outcome does not describe the mutation it answers, if it does not.
pub open spec fn disproof(
    mutation: NamespaceMutationView,
    outcome: NamespaceOutcomeView,
) -> Option<FacadeErrorView> {
    match mutation {
        NamespaceMutationView::Remove { .. } => match outcome {
            NamespaceOutcomeView::Removed => None,
            _ => Some(mismatched(outcome, "REMOVE"@)),
        },
        NamespaceMutationView::Rename { source, .. } => match outcome {
            NamespaceOutcomeView::Renamed(effect) => if effect.identity == source {
                None
            } else {
                Some(
                    unproven(
                        "RENAME reported fileid "@ + decimal(effect.identity.fileid as nat)
                            + " but the source was fileid "@ + decimal(source.fileid as nat)
                            + "; a rename moves a name, never the object"@,
                    ),
                )
            },
            _ => Some(mismatched(outcome, "RENAME"@)),
        },
        NamespaceMutationView::CreateDirectory { .. } => match outcome {
            NamespaceOutcomeView::Created(_) => None,
            _ => Some(mismatched(outcome, "CREATE"@)),
        },
        NamespaceMutationView::SetAttributes { target, .. } => set_disproof(target, outcome),
        NamespaceMutationView::Truncate { target, .. } => set_disproof(target, outcome),
    }
}

/// Why an outcome does not describe a SETATTR of `target`, if it does not.
pub open spec fn set_disproof(target: ObjectIdentity, outcome: NamespaceOutcomeView) -> Option<
    FacadeErrorView,
> {
    match outcome {
        NamespaceOutcomeView::AttributesSet(effect) => if effect.identity == target {
            None
        } else {
            Some(strayed(effect.identity, target))
        },
        _ => Some(mismatched(outcome, "SETATTR"@)),
    }
}

fn mismatch(outcome: &NamespaceOutcome, expected: &str) -> (r: FacadeResult<()>)
    ensures
        r is Err,
        r->Err_0@ == mismatched(outcome@, expected@),
{
    Err(
        unproven_error(
            join3("the dispatcher answered ", outcome.text().as_str(), " for a ").concat(
                expected,
            ).as_str(),
        ),
    )
}

fn verify_set(target: &ObjectIdentity, outcome: &NamespaceOutcome) -> (r: FacadeResult<()>)
    ensures
        match set_disproof(*target, outcome@) {
            Some(error) => r is Err && r->Err_0@ == error,
            None => r is Ok,
        },
{
    match outcome {
        NamespaceOutcome::AttributesSet(effect) => {
            if effect.identity == *target {
                Ok(())
            } else {
                Err(
                    unproven_error(
                        join3(
                            "SETATTR reported fileid ",
                            decimal_text(effect.identity.fileid).as_str(),
                            " but the pinned object was fileid ",
                        ).concat(decimal_text(target.fileid).as_str()).as_str(),
                    ),
                )
            }
        },
        _ => mismatch(outcome, "SETATTR"),
    }
}

/// Prove a dispatcher's answer actually describes the mutation it was given.
fn verify(mutation: &NamespaceMutation, outcome: &NamespaceOutcome) -> (r: FacadeResult<()>)
    ensures
        match disproof(mutation@, outcome@) {
            Some(error) => r is Err && r->Err_0@ == error,
            None => r is Ok,
        },
{
    match mutation {
        NamespaceMutation::Remove { .. } => match outcome {
            NamespaceOutcome::Removed => Ok(()),
            _ => mismatch(outcome, "REMOVE"),
        },
        NamespaceMutation::Rename { source, .. } => match outcome {
            NamespaceOutcome::Renamed(effect) => {
                if effect.identity == *source {
                    return Ok(());
                }
                // Every open handle on the source still points at the original, so
                // accepting this would publish two irreconcilable views.
                Err(
                    unproven_error(
                        join3(
                            "RENAME reported fileid ",
                            decimal_text(effect.identity.fileid).as_str(),
                            " but the source was fileid ",
                        ).concat(decimal_text(source.fileid).as_str()).concat(
                            "; a rename moves a name, never the object",
                        ).as_str(),
                    ),
                )
            },
            _ => mismatch(outcome, "RENAME"),
        },
        NamespaceMutation::CreateDirectory { .. } => match outcome {
            NamespaceOutcome::Created(_) => Ok(()),
            _ => mismatch(outcome, "CREATE"),
        },
        NamespaceMutation::SetAttributes { target, .. } => verify_set(target, outcome),
        NamespaceMutation::Truncate { target, .. } => verify_set(target, outcome),
    }
}

/// A believed rename kept the object, and a believed attribute change landed on
/// the object the caller pinned, whatever the dispatcher.
pub proof fn a_believed_mutation_kept_its_object(
    mutation: NamespaceMutationView,
    answer: Result<NamespaceOutcomeView, FacadeErrorView>,
)
    ensures
        believed(mutation, answer) matches Ok(outcome) ==> {
            &&& mutation matches NamespaceMutationView::Rename { source, .. }
                ==> outcome matches NamespaceOutcomeView::Renamed(effect) && effect.identity
                == source
            &&& mutation matches NamespaceMutationView::SetAttributes { target, .. }
                ==> outcome matches NamespaceOutcomeView::AttributesSet(effect)
                && effect.identity == target
            &&& mutation matches NamespaceMutationView::Truncate { target, .. }
                ==> outcome matches NamespaceOutcomeView::AttributesSet(effect)
                && effect.identity == target
            &&& mutation is Remove ==> outcome is Removed
            &&& mutation is CreateDirectory ==> outcome is Created
        },
{
}

} // verus!
