//! Which requests an open run takes on at all.
use vstd::prelude::*;

use crate::contract::{ErrorKind, StorageOperationView, StorageRequestView};

use super::{preflight_fault, OperationsView};

verus! {

/// Whether an operation only looks.
pub open spec fn only_looks(operation: StorageOperationView) -> bool {
    operation is Lookup || operation is Stat || operation is List || operation is ReadAt
        || operation is ReadLink || operation is GetXattr || operation is GetWhiteout
}

/// Whether an operation is one the protocol has no counterpart for.
pub open spec fn has_no_counterpart(operation: StorageOperationView) -> bool {
    ||| operation matches StorageOperationView::Create { options, .. }
        && options.kind is LogicalSymlink
    ||| operation is Link || operation is ReadLink || operation is GetXattr
        || operation is SetXattr || operation is RemoveXattr || operation is GetWhiteout
        || operation is SetWhiteout || operation is AtomicSwap
}

/// Whether the sizes a request names are within the run's limits.
pub open spec fn in_bounds(ops: OperationsView, operation: StorageOperationView) -> bool {
    match operation {
        StorageOperationView::ReadAt { len, .. } => len <= ops.limits.max_io_bytes,
        StorageOperationView::WriteAt { bytes, .. } => bytes.len() <= ops.limits.max_io_bytes,
        StorageOperationView::List { limit, .. } => 1 <= limit
            <= ops.limits.max_directory_entries,
        _ => true,
    }
}

/// A request is taken on exactly when its sizes are within the run's limits, it names
/// this run, a change names a writer epoch and comes to a run that takes changes, and
/// the protocol has a counterpart for it. What is refused is refused for its first
/// reason.
pub proof fn a_request_is_taken_on_exactly_when(ops: OperationsView, request: StorageRequestView)
    ensures
        ({
            let fault = preflight_fault(ops, request);
            let bounded = in_bounds(ops, request.operation);
            let named = only_looks(request.operation) || request.context.writer_epoch is Some;
            let taken = only_looks(request.operation) || !ops.policy.read_only;
            &&& fault is None <==> bounded && named && taken && request.context.run_id
                == ops.run_id && !has_no_counterpart(request.operation)
            &&& !bounded ==> (fault matches Some(error) && error.kind == ErrorKind::InvalidInput)
            &&& bounded && !named ==> (fault matches Some(error) && error.kind
                == ErrorKind::LeaseLost)
            &&& bounded && named && !taken ==> (fault matches Some(error) && error.kind
                == ErrorKind::Denied)
            &&& bounded && named && taken && request.context.run_id != ops.run_id ==> (
            fault matches Some(error) && error.kind == ErrorKind::InvalidInput)
            &&& bounded && named && taken && request.context.run_id == ops.run_id
                && has_no_counterpart(request.operation) ==> (fault matches Some(error)
                && error.kind == ErrorKind::UnsupportedCapability)
        }),
{
}

} // verus!
