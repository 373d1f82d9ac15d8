//! Which operations are served, deferred or refused.
use vstd::prelude::*;

use crate::contract::{mutates, StorageOperationView};

use super::{row_index, support_of, surface_row};

verus! {

/// Whether an operation creates a file.
pub open spec fn creates_file(operation: StorageOperationView) -> bool {
    operation matches StorageOperationView::Create { options, .. } && options.kind is File
}

/// Whether an operation creates a directory.
pub open spec fn creates_directory(operation: StorageOperationView) -> bool {
    operation matches StorageOperationView::Create { options, .. } && options.kind is Directory
}

/// The reads, writes and file creates are served. What changes the namespace or an
/// object's attributes, and a copy-up, is deferred to its owner. Nothing else is ever
/// served.
pub proof fn an_operation_is_served_exactly_when(operation: StorageOperationView)
    ensures
        support_of(operation) is Supported <==> operation is Lookup || operation is Stat
            || operation is List || operation is ReadAt || operation is WriteAt || creates_file(
            operation,
        ),
        support_of(operation) is Deferred <==> creates_directory(operation)
            || operation is CreateParents || operation is CopyUp || operation is Unlink
            || operation is RemoveDirectory || operation is Rename || operation is SetMetadata
            || operation is Truncate,
        !mutates(operation) && support_of(operation) is Deferred ==> false,
{
}

/// The published matrix has a row for every operation, and the row says what is answered.
pub proof fn the_matrix_answers_as_published(operation: StorageOperationView)
    ensures
        surface_row(row_index(operation)).support == support_of(operation),
{
}

/// An operation changes something exactly when it is none of those that only look.
pub proof fn an_operation_mutates_exactly_when(operation: StorageOperationView)
    ensures
        !mutates(operation) <==> operation is Lookup || operation is Stat || operation is List
            || operation is ReadAt || operation is ReadLink || operation is GetXattr
            || operation is GetWhiteout,
{
}

} // verus!
