//! Which answers of a dispatcher are believed.
use vstd::prelude::*;

use crate::error::FacadeErrorView;
use crate::handle::ObjectIdentity;
use crate::transport::{ChangeInfo, Nfs4Type};

use super::dispatch::{removal_evidence, unlink_fault, ProbedView};
use super::{believed, NamespaceMutationView, NamespaceOutcomeView, RemoveKind};

verus! {

/// The object an outcome says was acted on.
pub open spec fn acted_object(outcome: NamespaceOutcomeView) -> Option<ObjectIdentity> {
    match outcome {
        NamespaceOutcomeView::Removed => None,
        NamespaceOutcomeView::Renamed(effect) => Some(effect.identity),
        NamespaceOutcomeView::Created(effect) => Some(effect.identity),
        NamespaceOutcomeView::AttributesSet(effect) => Some(effect.identity),
    }
}

/// An outcome is believed, as it was answered, exactly when it is the outcome of that
/// kind of mutation and, for one that keeps its object, names the object the caller
/// pinned.
pub proof fn an_outcome_is_believed_exactly_when(
    mutation: NamespaceMutationView,
    outcome: NamespaceOutcomeView,
)
    ensures
        ({
            let answer = believed(mutation, Ok::<NamespaceOutcomeView, FacadeErrorView>(outcome));
            let fits = match mutation {
                NamespaceMutationView::Remove { .. } => outcome is Removed,
                NamespaceMutationView::Rename { source, .. } => outcome is Renamed
                    && acted_object(outcome) == Some(source),
                NamespaceMutationView::CreateDirectory { .. } => outcome is Created,
                NamespaceMutationView::SetAttributes { target, .. } => outcome is AttributesSet
                    && acted_object(outcome) == Some(target),
                NamespaceMutationView::Truncate { target, .. } => outcome is AttributesSet
                    && acted_object(outcome) == Some(target),
            };
            &&& answer is Ok <==> fits
            &&& answer matches Ok(same) ==> same == outcome
        }),
{
}

/// A removal is proven exactly when the server reported its change atomically and the
/// directory was, just before it, as it was when the name was looked at.
pub proof fn a_removal_is_proven_exactly_when(
    name: Seq<u8>,
    captured: Option<u64>,
    info: ChangeInfo,
)
    ensures
        removal_evidence(name, captured, info) is Ok <==> info.atomic && captured == Some(
            info.before,
        ),
{
}

/// A name may be removed exactly when it still names the object the caller pinned, and
/// that is a directory where a directory is to be removed, and known to be something else
/// where a file is.
pub proof fn a_name_may_be_removed_exactly_when(
    probed: ProbedView,
    name: Seq<u8>,
    target: ObjectIdentity,
    kind: RemoveKind,
)
    ensures
        unlink_fault(probed, name, target, kind) is None <==> probed.identity == target
            && probed.file_type is Some && (kind == RemoveKind::Directory <==> probed.file_type
            == Some(Nfs4Type::Directory)),
{
}

} // verus!
