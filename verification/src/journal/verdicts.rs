//! When an interrupted mutation is run again, settled or given up, in terms of the
//! evidence alone.
use vstd::prelude::*;

use crate::contract::{
    ErrorKind, StorageOperationView, StorageRequestView, StorageResponseView, UmbraErrorView,
};
use crate::identity::PinnedObjectView;
use crate::ops::ObservationView;
use crate::transport::{Deadline, RawTransport};

use super::{
    key_file, record_verdict, recover_run, recovered, retries_run, text_component, ObjectEvidence,
    Preconditions, RecoveredView, RetryRecordView, BLOCKED_RECOVERABLE,
};
use crate::text::{holds, stands_at};

verus! {

/// Whether two observations are of the same object with the same change attribute,
/// size and modification time, the change attribute being known.
pub open spec fn stood_still(before: ObjectEvidence, now: ObjectEvidence) -> bool {
    &&& now.identity.fsid.major == before.identity.fsid.major
    &&& now.identity.fsid.minor == before.identity.fsid.minor
    &&& now.identity.fileid == before.identity.fileid
    &&& now.change is Some
    &&& now.change == before.change
    &&& now.size == before.size
    &&& now.modified_nanos == before.modified_nanos
}

/// Whether a name held nothing both times, or the same object in the same state.
pub open spec fn kept(before: Option<ObjectEvidence>, now: Option<ObjectEvidence>) -> bool {
    match (before, now) {
        (None, None) => true,
        (Some(one), Some(other)) => stood_still(one, other),
        _ => false,
    }
}

/// Whether a directory was unresolvable both times, or is the same directory.
pub open spec fn same_directory(
    before: Option<ObjectEvidence>,
    now: Option<ObjectEvidence>,
) -> bool {
    match (before, now) {
        (None, None) => true,
        (Some(one), Some(other)) => one.identity == other.identity,
        _ => false,
    }
}

/// A create is run again exactly where it is still addressed to the same directory and
/// its name either appeared since, is absent still in a directory nothing changed in,
/// or held the same object in the same state all along. Anything else is given up: a
/// create is never settled.
pub proof fn a_create_is_redispatched_exactly_when(
    operation: StorageOperationView,
    recorded: Preconditions,
    observed: Preconditions,
)
    requires
        operation is Create,
    ensures
        recovered(operation, recorded, observed) is NotApplied <==> {
            &&& same_directory(recorded.parent, observed.parent)
            &&& {
                ||| recorded.target is None && observed.target is Some
                ||| recorded.target is None && observed.target is None && kept(
                    recorded.parent,
                    observed.parent,
                )
                ||| recorded.target is Some && kept(recorded.target, observed.target)
            }
        },
        !(recovered(operation, recorded, observed) is Applied),
{
}

/// A create whose name appeared since it was recorded is run again whatever else
/// happened in the directory: the server recognises the verifier it presents.
pub proof fn a_create_that_may_have_landed_is_redispatched(
    operation: StorageOperationView,
    recorded: Preconditions,
    observed: Preconditions,
)
    requires
        operation is Create,
        same_directory(recorded.parent, observed.parent),
        recorded.target is None,
        observed.target is Some || kept(recorded.parent, observed.parent),
    ensures
        recovered(operation, recorded, observed) is NotApplied,
{
}

/// A removal is settled exactly where the name held something in the same directory
/// and is empty now, unless that directory is known not to have changed; it is run
/// again exactly where neither the name nor the directory changed.
pub proof fn a_removal_is_settled_or_redispatched_exactly_when(
    operation: StorageOperationView,
    recorded: Preconditions,
    observed: Preconditions,
)
    requires
        operation is Unlink || operation is RemoveDirectory,
    ensures
        recovered(operation, recorded, observed) is Applied <==> {
            &&& same_directory(recorded.parent, observed.parent)
            &&& recorded.target is Some
            &&& observed.target is None
            &&& !(recorded.parent is Some && observed.parent is Some
                && recorded.parent->0.change == observed.parent->0.change)
        },
        recovered(operation, recorded, observed) is NotApplied <==> kept(
            recorded.target,
            observed.target,
        ) && kept(recorded.parent, observed.parent),
{
}

/// A rename is settled exactly where both directories are the same, the source is
/// empty and its object is at the destination; it is run again exactly where there was
/// a source and it, the destination and both directories are as they were.
pub proof fn a_rename_is_settled_or_redispatched_exactly_when(
    operation: StorageOperationView,
    recorded: Preconditions,
    observed: Preconditions,
)
    requires
        operation is Rename,
    ensures
        recovered(operation, recorded, observed) is Applied <==> {
            &&& same_directory(recorded.parent, observed.parent)
            &&& same_directory(recorded.destination_parent, observed.destination_parent)
            &&& recorded.target is Some
            &&& observed.target is None
            &&& observed.destination is Some
            &&& observed.destination->0.identity == recorded.target->0.identity
        },
        recovered(operation, recorded, observed) is NotApplied <==> {
            &&& recorded.target is Some
            &&& kept(recorded.target, observed.target)
            &&& kept(recorded.destination, observed.destination)
            &&& kept(recorded.parent, observed.parent)
            &&& kept(recorded.destination_parent, observed.destination_parent)
        },
{
}

/// A write, truncation or attribute change is run again exactly where it is still
/// addressed to the same directory and its object is as it was. It is never settled.
/// Making parents is run again wherever it is still addressed to the same directory.
pub proof fn an_absolute_mutation_is_redispatched_exactly_when(
    operation: StorageOperationView,
    recorded: Preconditions,
    observed: Preconditions,
)
    ensures
        operation is WriteAt || operation is SetMetadata || operation is Truncate ==> {
            &&& recovered(operation, recorded, observed) is NotApplied <==> same_directory(
                recorded.parent,
                observed.parent,
            ) && kept(recorded.target, observed.target)
            &&& !(recovered(operation, recorded, observed) is Applied)
        },
        operation is CreateParents ==> {
            &&& recovered(operation, recorded, observed) is NotApplied <==> same_directory(
                recorded.parent,
                observed.parent,
            )
            &&& !(recovered(operation, recorded, observed) is Applied)
        },
{
}

/// What becomes of an interrupted request: it is run again where nothing was applied,
/// settled with the answer of what was applied, and stopped where neither is known. A
/// stop carries the words every stop is recognised by.
pub proof fn a_verdict_decides_what_becomes_of_a_request<T: RawTransport>(
    world: T::World,
    private: PinnedObjectView,
    request: StorageRequestView,
    recorded: Preconditions,
    observed: ObservationView,
    operation: Seq<char>,
    deadline: Deadline,
)
    requires
        retries_run::<T>(world, private, deadline).0 is Ok,
        text_component(key_file(request.context.idempotency_key)) is Ok,
    ensures
        ({
            let (answer, after) = recover_run::<T>(
                world,
                private,
                request,
                recorded,
                observed,
                operation,
                deadline,
            );
            let verdict = recovered(request.operation, recorded, observed.evidence);
            &&& after == retries_run::<T>(world, private, deadline).1
            &&& answer == Ok::<RecoveredView, UmbraErrorView>(RecoveredView::Redispatch)
                <==> verdict is NotApplied
            &&& answer matches Ok(RecoveredView::Settle { retries, response }) ==> {
                &&& verdict is Applied
                &&& Ok::<PinnedObjectView, UmbraErrorView>(retries) == retries_run::<T>(
                    world,
                    private,
                    deadline,
                ).0
                &&& match request.operation {
                    StorageOperationView::Unlink { .. } => response
                        == StorageResponseView::Unlinked,
                    StorageOperationView::RemoveDirectory { .. } => response
                        == StorageResponseView::DirectoryRemoved,
                    StorageOperationView::Rename { .. } => response matches StorageResponseView::Renamed(
                        result,
                    ) && observed.destination_result == Some(result),
                    _ => false,
                }
            }
            &&& verdict is Applied && (request.operation is Unlink || request.operation
                is RemoveDirectory || request.operation is Rename
                && observed.destination_result is Some) ==> answer is Ok
            &&& verdict is Ambiguous ==> (answer matches Err(error) && holds(
                error.context,
                BLOCKED_RECOVERABLE@,
            ))
        }),
{
    let (answer, _) = recover_run::<T>(
        world,
        private,
        request,
        recorded,
        observed,
        operation,
        deadline,
    );
    if let Err(error) = answer {
        if recovered(request.operation, recorded, observed.evidence) is Ambiguous {
            let mark = BLOCKED_RECOVERABLE@;
            assert(error.context.subrange(0, mark.len() as int) =~= mark);
            assert(stands_at(error.context, mark, 0));
        }
    }
}

/// A record answers a request exactly when it is the record of that very request; it then
/// answers with what was recorded. A record of another request under the key is bad
/// input, and one that does not decode is a corrupt journal.
pub proof fn a_record_answers_exactly_its_request(
    decoded: Result<RetryRecordView, Seq<char>>,
    request: StorageRequestView,
    operation: Seq<char>,
)
    ensures
        ({
            let answer = record_verdict(decoded, request, operation);
            &&& answer is Ok <==> (decoded matches Ok(record) && record.request == request)
            &&& answer matches Ok(outcome) ==> (decoded matches Ok(record) && record.outcome
                == outcome)
            &&& decoded is Err ==> (answer matches Err(error) && error.kind
                == ErrorKind::CorruptJournal)
            &&& decoded matches Ok(record) ==> record.request != request ==> (answer matches Err(
                error,
            ) && error.kind == ErrorKind::InvalidInput)
        }),
{
}

} // verus!
