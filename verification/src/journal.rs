//! The durable retry journal every supported mutation goes through.
//!
//! `retries/key-<hex>` holds a request and, once known, its outcome; `<hex>` is
//! the idempotency key's bytes. `retries/op-<uuid>` holds the key file's name, so
//! one operation id cannot serve two keys. `retries/pre-<hex>` holds the state the
//! mutation was dispatched against. All are created `GUARDED4` and written stable,
//! because a record that is not on stable storage before dispatch is no evidence.
//!
//! The bytes of a record are encoded and decoded by the caller: the functions here
//! take the encoding, or why there is none, and decide what it means.
use vstd::prelude::*;

pub mod round_trip;
pub mod verdicts;

use crate::anchor::{
    component_of, descend_any_run, descend_directory, descend_file, descend_run, layout_component,
    Anchor,
};
use crate::bytes::{append_bytes, copy_range};
use crate::contract::{
    hyphenated, opt_view, res_view, umbra, ErrorKind, IdempotencyKey, OperationId, RequestContext,
    RequestContextView, StorageOperation, StorageOperationView, StorageRequest, StorageRequestView,
    StorageResponse, StorageResponseView, StorageResult, UmbraError, UmbraErrorView,
};
use crate::crud::{open_object_run, read_anonymous, CreateDisposition, OpenObject, OpenObjectView};
use crate::error::{to_umbra, FacadeError, FacadeErrorView};
use crate::handle::{
    anonymous, identity_text, stateid_answer, FileHandle, ObjectIdentity, Session, SessionView,
    Stateid,
};
use crate::identity::{PinnedObject, PinnedObjectView};
use crate::layout;
use crate::ops::{Observation, ObservationView};
use crate::state::open_owner::{close_failure, close_run, OpenOwnerRegistry, RegistryView};
use crate::text::{
    decimal, decimal_text, hex, hex_text, holds, holds_text, join, join3, optional_number,
    optional_number_text, stands_at,
};
use crate::transport::rendering::reply_text;
use crate::transport::{
    no_values, read_answer, read_call, reply_at, write_answer, write_call, Answer, AttrValues,
    AttrValuesView, ComponentName, Compound, CompoundView, Deadline, Nfs4Op, OpReply, OpView,
    RawTransport, ReplyView, ShareAccess, Stability, TransportLimits,
};

verus! {

/// Mode retry records are created with.
pub const RECORD_MODE: u32 = 0o600;

/// Upper bound on one retry record, in bytes.
///
/// A larger record is refused rather than partially read: half a record decodes as
/// nothing and would look like a fresh key.
pub const MAX_RECORD_BYTES: u32 = 8_388_608;

/// Prefix of the precondition sidecar written beside a record.
pub const PRECONDITION_PREFIX: &'static str = "pre-";

/// Marker every blocked-recoverable stop carries in its context.
pub const BLOCKED_RECOVERABLE: &'static str = "BLOCKED_RECOVERABLE:";

/// One object's identity and its content state, as evidence.
///
/// Identity says which object is behind a name; the change attribute says whether
/// anything about it changed. Size and modification time corroborate it.
#[derive(Clone, Copy, Debug, PartialEq, Eq, Structural)]
pub struct ObjectEvidence {
    /// Server identity: which object this is.
    pub identity: ObjectIdentity,
    /// `FATTR4_CHANGE`: whether anything about it has changed.
    pub change: Option<u64>,
    /// `FATTR4_SIZE`.
    pub size: Option<u64>,
    /// `FATTR4_TIME_MODIFY`, as nanoseconds.
    pub modified_nanos: Option<i128>,
}

/// Whether `now` is the same object in the same content state as `before`. An
/// unknown change attribute is not agreement.
pub open spec fn unchanged(now: ObjectEvidence, before: ObjectEvidence) -> bool {
    now.change is Some && now == before
}

impl ObjectEvidence {
    /// Whether this is the same object, in the same content state, as `other`.
    #[must_use]
    pub fn unchanged_from(&self, other: &Self) -> (r: bool)
        ensures
            r == unchanged(*self, *other),
    {
        if self.identity != other.identity {
            return false;
        }
        match (self.change, other.change) {
            (Some(a), Some(b)) => {
                if a != b {
                    return false;
                }
            },
            _ => {
                return false;
            },
        }
        self.size == other.size && self.modified_nanos == other.modified_nanos
    }
}

/// The state a mutation was dispatched against.
#[derive(Clone, Copy, Debug, PartialEq, Eq, Structural)]
pub struct Preconditions {
    /// The directory the mutation was addressed to.
    pub parent: Option<ObjectEvidence>,
    /// The target before dispatch. `None` means it did not exist.
    pub target: Option<ObjectEvidence>,
    /// For a rename, the destination's parent.
    pub destination_parent: Option<ObjectEvidence>,
    /// For a rename, the destination before dispatch. `None` means it was free.
    pub destination: Option<ObjectEvidence>,
}

/// What a recovery decided about an interrupted operation.
#[derive(Debug, PartialEq, Eq)]
pub enum Recovery {
    /// The server state proves the effect did not happen. Dispatching again under
    /// the same key repeats nothing.
    NotApplied,
    /// The server state proves the effect happened.
    Applied,
    /// The state matches neither the recorded before nor the expected after.
    Ambiguous(String),
}

/// The content of a [`Recovery`].
pub enum RecoveryView {
    /// See [`Recovery::NotApplied`].
    NotApplied,
    /// See [`Recovery::Applied`].
    Applied,
    /// See [`Recovery::Ambiguous`].
    Ambiguous(Seq<char>),
}

impl View for Recovery {
    type V = RecoveryView;

    open spec fn view(&self) -> RecoveryView {
        match *self {
            Recovery::NotApplied => RecoveryView::NotApplied,
            Recovery::Applied => RecoveryView::Applied,
            Recovery::Ambiguous(why) => RecoveryView::Ambiguous(why@),
        }
    }
}

/// A safe stop with the evidence retained.
pub open spec fn blocked_stop(operation: Seq<char>, detail: Seq<char>) -> UmbraErrorView {
    umbra(ErrorKind::InvalidState, operation, BLOCKED_RECOVERABLE@ + " "@ + detail)
}

fn blocked(operation: &str, detail: &str) -> (r: UmbraError)
    ensures
        r@ == blocked_stop(operation@, detail@),
{
    UmbraError::new(
        ErrorKind::InvalidState,
        operation,
        join3(BLOCKED_RECOVERABLE, " ", detail).as_str(),
    )
}

/// Whether an error is a blocked-recoverable stop: whether its context carries
/// [`BLOCKED_RECOVERABLE`].
#[must_use]
pub fn is_blocked(error: &UmbraError) -> (r: bool)
    ensures
        r == holds(error@.context, BLOCKED_RECOVERABLE@),
{
    holds_text(error.context.as_str(), BLOCKED_RECOVERABLE)
}

/// Every stop this module makes is recognised as one.
pub proof fn a_stop_is_recognised(operation: Seq<char>, detail: Seq<char>)
    ensures
        holds(blocked_stop(operation, detail).context, BLOCKED_RECOVERABLE@),
{
    let context = blocked_stop(operation, detail).context;
    assert(context.subrange(0, BLOCKED_RECOVERABLE@.len() as int) =~= BLOCKED_RECOVERABLE@);
    assert(stands_at(context, BLOCKED_RECOVERABLE@, 0));
}

/// How a diagnostic renders which object evidence describes.
pub open spec fn evidence_text(evidence: Option<ObjectEvidence>) -> Seq<char> {
    match evidence {
        None => "None"@,
        Some(found) => "Some("@ + identity_text(found.identity) + ")"@,
    }
}

fn evidence_label(evidence: Option<ObjectEvidence>) -> (r: String)
    ensures
        r@ == evidence_text(evidence),
{
    match evidence {
        None => "None".to_owned(),
        Some(found) => join3("Some(", found.identity.text().as_str(), ")"),
    }
}

/// Why a parent is not the same object as before, if it is not.
pub open spec fn parent_moved(
    label: Seq<char>,
    recorded: Option<ObjectEvidence>,
    observed: Option<ObjectEvidence>,
) -> Option<Seq<char>> {
    match (recorded, observed) {
        (None, None) => None,
        (Some(before), Some(now)) => if before.identity == now.identity {
            None
        } else {
            Some(
                label + " was "@ + identity_text(before.identity) + " before dispatch and is "@
                    + identity_text(now.identity) + " now"@,
            )
        },
        _ => Some(label + " was resolvable before dispatch and is not now, or the reverse"@),
    }
}

/// Why a parent is not the same object in the same state as before, if it is not.
pub open spec fn parent_touched(
    label: Seq<char>,
    recorded: Option<ObjectEvidence>,
    observed: Option<ObjectEvidence>,
) -> Option<Seq<char>> {
    match parent_moved(label, recorded, observed) {
        Some(why) => Some(why),
        None => match (recorded, observed) {
            (Some(before), Some(now)) => if unchanged(now, before) {
                None
            } else {
                Some(
                    label + " is the same directory but its state moved (change "@
                        + optional_number(before.change) + " -> "@ + optional_number(now.change)
                        + "); something was mutated in it since dispatch, and this decision cannot attribute that to the interrupted operation"@,
                )
            },
            _ => None,
        },
    }
}

/// The parent must be the same object. Nothing else is asserted here.
fn parent_identity(
    label: &str,
    recorded: Option<ObjectEvidence>,
    observed: Option<ObjectEvidence>,
) -> (r: Result<(), String>)
    ensures
        match parent_moved(label@, recorded, observed) {
            Some(why) => r is Err && r->Err_0@ == why,
            None => r is Ok,
        },
{
    match (recorded, observed) {
        (None, None) => Ok(()),
        (Some(before), Some(now)) => {
            if before.identity == now.identity {
                return Ok(());
            }
            Err(
                join3(label, " was ", before.identity.text().as_str()).concat(
                    " before dispatch and is ",
                ).concat(now.identity.text().as_str()).concat(" now"),
            )
        },
        _ => Err(join(label, " was resolvable before dispatch and is not now, or the reverse")),
    }
}

/// The parent must be the same object in the same state.
///
/// A directory's change attribute moves on any mutation within it, so a moved one
/// cannot be attributed to the interrupted operation, and concluding that nothing
/// happened would be a guess.
fn parent_unchanged(
    label: &str,
    recorded: Option<ObjectEvidence>,
    observed: Option<ObjectEvidence>,
) -> (r: Result<(), String>)
    ensures
        match parent_touched(label@, recorded, observed) {
            Some(why) => r is Err && r->Err_0@ == why,
            None => r is Ok,
        },
{
    match parent_identity(label, recorded, observed) {
        Err(why) => {
            return Err(why);
        },
        Ok(()) => {},
    }
    match (recorded, observed) {
        (Some(before), Some(now)) => {
            if now.unchanged_from(&before) {
                return Ok(());
            }
            Err(
                join3(
                    label,
                    " is the same directory but its state moved (change ",
                    optional_number_text(before.change).as_str(),
                ).concat(" -> ").concat(optional_number_text(now.change).as_str()).concat(
                    "); something was mutated in it since dispatch, and this decision cannot attribute that to the interrupted operation",
                ),
            )
        },
        _ => Ok(()),
    }
}

/// The redispatch a moved parent forbids.
pub open spec fn redispatch_over(
    recorded: Option<ObjectEvidence>,
    observed: Option<ObjectEvidence>,
) -> RecoveryView {
    match parent_touched("the parent directory"@, recorded, observed) {
        Some(why) => RecoveryView::Ambiguous(why),
        None => RecoveryView::NotApplied,
    }
}

/// What the evidence says of an interrupted create.
///
/// A create is never settled by observing its name: the exclusive-create verifier
/// decides it on redispatch, and the server answers whether the object behind the
/// name is the one this operation made.
pub open spec fn create_recovery(recorded: Preconditions, observed: Preconditions) -> RecoveryView {
    match (recorded.target, observed.target) {
        (None, None) => redispatch_over(recorded.parent, observed.parent),
        (None, Some(_)) => RecoveryView::NotApplied,
        (before, now) => if before is Some && now is Some && unchanged(now->0, before->0) {
            RecoveryView::NotApplied
        } else {
            RecoveryView::Ambiguous(
                "the create target was "@ + evidence_text(before) + " before dispatch and is "@
                    + evidence_text(now) + " now"@,
            )
        },
    }
}

/// What the evidence says of an interrupted removal.
pub open spec fn removal_recovery(
    recorded: Preconditions,
    observed: Preconditions,
) -> RecoveryView {
    match (recorded.target, observed.target) {
        (Some(_), None) => if recorded.parent is Some && observed.parent is Some
            && recorded.parent->0.change == observed.parent->0.change {
            RecoveryView::Ambiguous(
                "the removal target is gone but its parent directory's change attribute did not move, which no removal produces"@,
            )
        } else {
            RecoveryView::Applied
        },
        (None, None) => redispatch_over(recorded.parent, observed.parent),
        (before, now) => if before is Some && now is Some && unchanged(now->0, before->0) {
            redispatch_over(recorded.parent, observed.parent)
        } else {
            RecoveryView::Ambiguous(
                "the removal target was "@ + evidence_text(before) + " before dispatch and is "@
                    + evidence_text(now) + " now"@,
            )
        },
    }
}

/// Whether a name still holds what was recorded of it.
pub open spec fn untouched(before: Option<ObjectEvidence>, now: Option<ObjectEvidence>) -> bool {
    match (before, now) {
        (None, None) => true,
        (Some(recorded), Some(observed)) => unchanged(observed, recorded),
        _ => false,
    }
}

/// Whether the source's object is now at the destination and nothing is left at
/// the source.
pub open spec fn arrived(recorded: Preconditions, observed: Preconditions) -> bool {
    &&& recorded.target is Some
    &&& observed.target is None
    &&& observed.destination is Some
    &&& observed.destination->0.identity == recorded.target->0.identity
}

/// What the evidence says of an interrupted rename.
///
/// Both endpoint names looking untouched is not enough: a rename mutates two
/// directories, so both have to be unchanged before it is run again.
pub open spec fn rename_recovery(recorded: Preconditions, observed: Preconditions) -> RecoveryView {
    match parent_moved(
        "the rename destination's parent"@,
        recorded.destination_parent,
        observed.destination_parent,
    ) {
        Some(why) => RecoveryView::Ambiguous(why),
        None => if arrived(recorded, observed) {
            RecoveryView::Applied
        } else if recorded.target is Some && untouched(recorded.target, observed.target)
            && untouched(recorded.destination, observed.destination) {
            match parent_touched(
                "the rename source's parent"@,
                recorded.parent,
                observed.parent,
            ) {
                Some(why) => RecoveryView::Ambiguous(why),
                None => match parent_touched(
                    "the rename destination's parent"@,
                    recorded.destination_parent,
                    observed.destination_parent,
                ) {
                    Some(why) => RecoveryView::Ambiguous(why),
                    None => RecoveryView::NotApplied,
                },
            }
        } else {
            RecoveryView::Ambiguous(
                "the rename cannot be settled: source was "@ + evidence_text(recorded.target)
                    + " and is "@ + evidence_text(observed.target) + "; destination was "@
                    + evidence_text(recorded.destination) + " and is "@ + evidence_text(
                    observed.destination,
                ),
            )
        },
    }
}

/// What the evidence says of an interrupted write, truncation or attribute change.
///
/// Repeating an absolute mutation converges only over an unchanged object.
pub open spec fn in_place_recovery(
    recorded: Preconditions,
    observed: Preconditions,
) -> RecoveryView {
    match (recorded.target, observed.target) {
        (None, None) => RecoveryView::NotApplied,
        (before, now) => if before is Some && now is Some && unchanged(now->0, before->0) {
            RecoveryView::NotApplied
        } else if before is Some && now is Some && before->0.identity == now->0.identity {
            RecoveryView::Ambiguous(
                "the target is the same object but its state moved (change "@ + optional_number(
                    before->0.change,
                ) + " -> "@ + optional_number(now->0.change) + ", size "@ + optional_number(
                    before->0.size,
                ) + " -> "@ + optional_number(now->0.size)
                    + "); replaying an absolute mutation would overwrite whatever changed it, and whether this request is what changed it cannot be established"@,
            )
        } else {
            RecoveryView::Ambiguous(
                "the target was "@ + evidence_text(before) + " before dispatch and is "@
                    + evidence_text(now)
                    + " now, so repeating an absolute mutation could act on a different object"@,
            )
        },
    }
}

/// Decide, from evidence, whether an interrupted mutation took effect.
pub open spec fn recovered(
    operation: StorageOperationView,
    recorded: Preconditions,
    observed: Preconditions,
) -> RecoveryView {
    match parent_moved("the parent directory"@, recorded.parent, observed.parent) {
        Some(why) => RecoveryView::Ambiguous(why),
        None => match operation {
            StorageOperationView::Create { .. } => create_recovery(recorded, observed),
            StorageOperationView::Unlink { .. } => removal_recovery(recorded, observed),
            StorageOperationView::RemoveDirectory { .. } => removal_recovery(recorded, observed),
            StorageOperationView::Rename { .. } => rename_recovery(recorded, observed),
            StorageOperationView::WriteAt { .. } => in_place_recovery(recorded, observed),
            StorageOperationView::SetMetadata { .. } => in_place_recovery(recorded, observed),
            StorageOperationView::Truncate { .. } => in_place_recovery(recorded, observed),
            StorageOperationView::CreateParents { .. } => RecoveryView::NotApplied,
            _ => RecoveryView::Ambiguous(
                "the recorded operation is not one this provider journals"@,
            ),
        },
    }
}

fn redispatch(recorded: Option<ObjectEvidence>, observed: Option<ObjectEvidence>) -> (r: Recovery)
    ensures
        r@ == redispatch_over(recorded, observed),
{
    match parent_unchanged("the parent directory", recorded, observed) {
        Ok(()) => Recovery::NotApplied,
        Err(why) => Recovery::Ambiguous(why),
    }
}

fn still(before: Option<ObjectEvidence>, now: Option<ObjectEvidence>) -> (r: bool)
    ensures
        r == (before is Some && now is Some && unchanged(now->0, before->0)),
{
    match (before, now) {
        (Some(recorded), Some(observed)) => observed.unchanged_from(&recorded),
        _ => false,
    }
}

fn recover_create(recorded: &Preconditions, observed: &Preconditions) -> (r: Recovery)
    ensures
        r@ == create_recovery(*recorded, *observed),
{
    if recorded.target.is_none() {
        if observed.target.is_none() {
            return redispatch(recorded.parent, observed.parent);
        }
        return Recovery::NotApplied;
    }
    if still(recorded.target, observed.target) {
        return Recovery::NotApplied;
    }
    Recovery::Ambiguous(
        join3(
            "the create target was ",
            evidence_label(recorded.target).as_str(),
            " before dispatch and is ",
        ).concat(evidence_label(observed.target).as_str()).concat(" now"),
    )
}

fn recover_removal(recorded: &Preconditions, observed: &Preconditions) -> (r: Recovery)
    ensures
        r@ == removal_recovery(*recorded, *observed),
{
    match (recorded.target, observed.target) {
        (Some(_), None) => {
            if let (Some(before), Some(now)) = (recorded.parent, observed.parent) {
                if before.change == now.change {
                    return Recovery::Ambiguous(
                        "the removal target is gone but its parent directory's change attribute did not move, which no removal produces".to_owned(),
                    );
                }
            }
            Recovery::Applied
        },
        (None, None) => redispatch(recorded.parent, observed.parent),
        (before, now) => {
            if still(before, now) {
                return redispatch(recorded.parent, observed.parent);
            }
            Recovery::Ambiguous(
                join3(
                    "the removal target was ",
                    evidence_label(before).as_str(),
                    " before dispatch and is ",
                ).concat(evidence_label(now).as_str()).concat(" now"),
            )
        },
    }
}

fn recover_rename(recorded: &Preconditions, observed: &Preconditions) -> (r: Recovery)
    ensures
        r@ == rename_recovery(*recorded, *observed),
{
    match parent_identity(
        "the rename destination's parent",
        recorded.destination_parent,
        observed.destination_parent,
    ) {
        Err(why) => {
            return Recovery::Ambiguous(why);
        },
        Ok(()) => {},
    }
    if let (Some(moved), Some(there)) = (recorded.target, observed.destination) {
        if observed.target.is_none() && there.identity == moved.identity {
            return Recovery::Applied;
        }
    }
    let destination_untouched = match (recorded.destination, observed.destination) {
        (None, None) => true,
        (before, now) => still(before, now),
    };
    if still(recorded.target, observed.target) && destination_untouched {
        match parent_unchanged("the rename source's parent", recorded.parent, observed.parent) {
            Err(why) => {
                return Recovery::Ambiguous(why);
            },
            Ok(()) => {},
        }
        match parent_unchanged(
            "the rename destination's parent",
            recorded.destination_parent,
            observed.destination_parent,
        ) {
            Err(why) => {
                return Recovery::Ambiguous(why);
            },
            Ok(()) => {},
        }
        return Recovery::NotApplied;
    }
    Recovery::Ambiguous(
        join3(
            "the rename cannot be settled: source was ",
            evidence_label(recorded.target).as_str(),
            " and is ",
        ).concat(evidence_label(observed.target).as_str()).concat("; destination was ").concat(
            evidence_label(recorded.destination).as_str(),
        ).concat(" and is ").concat(evidence_label(observed.destination).as_str()),
    )
}

fn recover_in_place(recorded: &Preconditions, observed: &Preconditions) -> (r: Recovery)
    ensures
        r@ == in_place_recovery(*recorded, *observed),
{
    match (recorded.target, observed.target) {
        (None, None) => {
            return Recovery::NotApplied;
        },
        (Some(before), Some(now)) => {
            if now.unchanged_from(&before) {
                return Recovery::NotApplied;
            }
            if before.identity == now.identity {
                return Recovery::Ambiguous(
                    join3(
                        "the target is the same object but its state moved (change ",
                        optional_number_text(before.change).as_str(),
                        " -> ",
                    ).concat(optional_number_text(now.change).as_str()).concat(
                        ", size ",
                    ).concat(optional_number_text(before.size).as_str()).concat(" -> ").concat(
                        optional_number_text(now.size).as_str(),
                    ).concat(
                        "); replaying an absolute mutation would overwrite whatever changed it, and whether this request is what changed it cannot be established",
                    ),
                );
            }
        },
        _ => {},
    }
    Recovery::Ambiguous(
        join3(
            "the target was ",
            evidence_label(recorded.target).as_str(),
            " before dispatch and is ",
        ).concat(evidence_label(observed.target).as_str()).concat(
            " now, so repeating an absolute mutation could act on a different object",
        ),
    )
}

/// Decide, from evidence, whether an interrupted mutation took effect.
///
/// `recorded` is what the state was before dispatch; `observed` is what it is now.
/// Every answer is either proven from both or given up safely.
pub fn recover(
    operation: &StorageOperation,
    recorded: &Preconditions,
    observed: &Preconditions,
) -> (r: Recovery)
    ensures
        r@ == recovered(operation@, *recorded, *observed),
{
    // If the parent is another directory, the mutation's addressing is no longer
    // meaningful, whatever else holds.
    match parent_identity("the parent directory", recorded.parent, observed.parent) {
        Err(why) => {
            return Recovery::Ambiguous(why);
        },
        Ok(()) => {},
    }
    match operation {
        StorageOperation::Create { .. } => recover_create(recorded, observed),
        StorageOperation::Unlink { .. } => recover_removal(recorded, observed),
        StorageOperation::RemoveDirectory { .. } => recover_removal(recorded, observed),
        StorageOperation::Rename { .. } => recover_rename(recorded, observed),
        StorageOperation::WriteAt { .. } => recover_in_place(recorded, observed),
        StorageOperation::SetMetadata { .. } => recover_in_place(recorded, observed),
        StorageOperation::Truncate { .. } => recover_in_place(recorded, observed),
        // Every component it would create is a directory whose presence is the
        // whole postcondition.
        StorageOperation::CreateParents { .. } => Recovery::NotApplied,
        _ => Recovery::Ambiguous(
            "the recorded operation is not one this provider journals".to_owned(),
        ),
    }
}

/// A create is never settled as applied from what was observed: it is replayed
/// under its own exclusive-create verifier, or given up.
pub proof fn a_create_is_never_settled_by_observation(
    operation: StorageOperationView,
    recorded: Preconditions,
    observed: Preconditions,
)
    requires
        operation is Create || operation is CreateParents,
    ensures
        !(recovered(operation, recorded, observed) is Applied),
{
}

/// An in-place mutation is replayed only over an object proven unchanged, or where
/// there was none before and is none now; it is never settled as applied.
pub proof fn an_in_place_mutation_is_replayed_only_over_an_unchanged_object(
    operation: StorageOperationView,
    recorded: Preconditions,
    observed: Preconditions,
)
    requires
        operation is WriteAt || operation is SetMetadata || operation is Truncate,
    ensures
        !(recovered(operation, recorded, observed) is Applied),
        recovered(operation, recorded, observed) is NotApplied ==> untouched(
            recorded.target,
            observed.target,
        ),
{
}

/// A rename is replayed only where the source, the destination and both of their
/// parents are exactly what was recorded, so nothing another writer put there is
/// replaced.
pub proof fn a_rename_is_replayed_only_over_an_untouched_namespace(
    operation: StorageOperationView,
    recorded: Preconditions,
    observed: Preconditions,
)
    requires
        operation is Rename,
        recovered(operation, recorded, observed) is NotApplied,
    ensures
        untouched(recorded.target, observed.target),
        untouched(recorded.destination, observed.destination),
        untouched(recorded.parent, observed.parent),
        untouched(recorded.destination_parent, observed.destination_parent),
{
}

/// A removal or rename is settled as applied only where the name it had to empty
/// is empty, and a rename only where its object is at the destination.
pub proof fn an_applied_effect_is_visible(
    operation: StorageOperationView,
    recorded: Preconditions,
    observed: Preconditions,
)
    requires
        recovered(operation, recorded, observed) is Applied,
    ensures
        operation is Unlink || operation is RemoveDirectory || operation is Rename,
        recorded.target is Some,
        observed.target is None,
        operation is Rename ==> arrived(recorded, observed),
{
}

/// Unchanged evidence is evidence of the same object, both ways round.
pub proof fn unchanged_is_symmetric(a: ObjectEvidence, b: ObjectEvidence)
    ensures
        unchanged(a, b) == unchanged(b, a),
        unchanged(a, b) ==> a.identity == b.identity,
        a.change is None ==> !unchanged(a, b),
{
}

/// The response a recovered effect settles to.
pub open spec fn recovered_answer(
    operation: StorageOperationView,
    observed: ObservationView,
    label: Seq<char>,
) -> Result<StorageResponseView, UmbraErrorView> {
    match operation {
        StorageOperationView::Unlink { .. } => Ok(StorageResponseView::Unlinked),
        StorageOperationView::RemoveDirectory { .. } => Ok(StorageResponseView::DirectoryRemoved),
        StorageOperationView::Create { .. } => Err(settled_create(label)),
        StorageOperationView::CreateParents { .. } => Err(settled_create(label)),
        StorageOperationView::Rename { .. } => match observed.destination_result {
            Some(result) => Ok(StorageResponseView::Renamed(result)),
            None => Err(
                blocked_stop(
                    label,
                    "the interrupted rename took effect but the moved object could not be read back at its destination, so no result can be reported for it; the record is retained and the run is blocked rather than answered with a fabricated result"@,
                ),
            ),
        },
        StorageOperationView::WriteAt { .. } => Err(settled_in_place(label)),
        StorageOperationView::SetMetadata { .. } => Err(settled_in_place(label)),
        StorageOperationView::Truncate { .. } => Err(settled_in_place(label)),
        _ => Err(
            blocked_stop(label, "the recorded operation is not one this provider journals"@),
        ),
    }
}

/// The stop of a create that was settled from observation.
pub open spec fn settled_create(label: Seq<char>) -> UmbraErrorView {
    blocked_stop(
        label,
        "a create is settled by replaying its exclusive-create verifier, never by observing that its name exists; reaching this point means the recovery decision and the response builder disagree, so the run is blocked rather than answered"@,
    )
}

/// The stop of an in-place mutation that was settled from observation.
pub open spec fn settled_in_place(label: Seq<char>) -> UmbraErrorView {
    blocked_stop(
        label,
        "an interrupted in-place mutation is never settled as applied; it is either replayed over a provably unchanged object or refused"@,
    )
}

fn recovered_response(operation: &StorageOperation, observed: &Observation, label: &str) -> (r:
    StorageResult<StorageResponse>)
    ensures
        res_view(r) == recovered_answer(operation@, observed@, label@),
{
    match operation {
        StorageOperation::Unlink { .. } => Ok(StorageResponse::Unlinked),
        StorageOperation::RemoveDirectory { .. } => Ok(StorageResponse::DirectoryRemoved),
        StorageOperation::Create { .. } | StorageOperation::CreateParents { .. } => Err(
            blocked(
                label,
                "a create is settled by replaying its exclusive-create verifier, never by observing that its name exists; reaching this point means the recovery decision and the response builder disagree, so the run is blocked rather than answered",
            ),
        ),
        StorageOperation::Rename { .. } => match &observed.destination_result {
            Some(result) => Ok(StorageResponse::Renamed(result.clone())),
            None => Err(
                blocked(
                    label,
                    "the interrupted rename took effect but the moved object could not be read back at its destination, so no result can be reported for it; the record is retained and the run is blocked rather than answered with a fabricated result",
                ),
            ),
        },
        StorageOperation::WriteAt { .. }
        | StorageOperation::SetMetadata { .. }
        | StorageOperation::Truncate { .. } => Err(
            blocked(
                label,
                "an interrupted in-place mutation is never settled as applied; it is either replayed over a provably unchanged object or refused",
            ),
        ),
        _ => Err(blocked(label, "the recorded operation is not one this provider journals")),
    }
}

/// The record file name for an idempotency key.
pub open spec fn key_file(key: Seq<char>) -> Seq<char> {
    layout::RETRY_KEY_PREFIX@ + hex(vstd::utf8::encode_utf8(key))
}

/// The precondition sidecar name for an idempotency key.
pub open spec fn precondition_file(key: Seq<char>) -> Seq<char> {
    PRECONDITION_PREFIX@ + hex(vstd::utf8::encode_utf8(key))
}

/// The index file name for an operation id.
pub open spec fn operation_file(operation: OperationId) -> Seq<char> {
    layout::RETRY_OP_PREFIX@ + hyphenated(operation.0@)
}

fn key_name(key: &IdempotencyKey) -> (r: String)
    ensures
        r@ == key_file(key@),
{
    join(layout::RETRY_KEY_PREFIX, hex_text(key.0.as_str().as_bytes()).as_str())
}

fn precondition_name(key: &IdempotencyKey) -> (r: String)
    ensures
        r@ == precondition_file(key@),
{
    join(PRECONDITION_PREFIX, hex_text(key.0.as_str().as_bytes()).as_str())
}

fn operation_name(operation: OperationId) -> (r: String)
    ensures
        r@ == operation_file(operation),
{
    join(layout::RETRY_OP_PREFIX, operation.text().as_str())
}

/// The component a text names.
pub open spec fn text_component(text: Seq<char>) -> Result<Seq<u8>, UmbraErrorView> {
    component_of(vstd::utf8::encode_utf8(text))
}

/// Resolve the retry directory of an open run.
pub open spec fn retries_run<T: RawTransport>(
    world: T::World,
    private: PinnedObjectView,
    deadline: Deadline,
) -> (Result<PinnedObjectView, UmbraErrorView>, T::World) {
    match text_component(layout::RETRIES_DIR@) {
        Err(error) => (Err(error), world),
        Ok(name) => descend_run::<T>(world, private, name, None, deadline),
    }
}

fn retries_directory<T: RawTransport>(
    transport: &mut T,
    private: &Anchor,
    deadline: Deadline,
) -> (r: StorageResult<PinnedObject>)
    ensures
        (res_view(r), final(transport).world()) == retries_run::<T>(
            old(transport).world(),
            private@.pin,
            deadline,
        ),
{
    match layout_component(layout::RETRIES_DIR) {
        Err(error) => Err(error),
        Ok(name) => descend_directory(transport, private.pin(), &name, deadline),
    }
}

/// The size one READ of a record asks for: never more than a reply can carry.
pub open spec fn record_chunk(limits: TransportLimits) -> u32 {
    if limits.max_reply_bytes < 1 {
        1
    } else if limits.max_reply_bytes > MAX_RECORD_BYTES {
        MAX_RECORD_BYTES
    } else {
        limits.max_reply_bytes as u32
    }
}

/// Read a record until end of file, having read `data` of it.
///
/// A short reply is a normal step. A record past the bound, and a server that
/// makes no progress, are failures, each of its own kind.
pub open spec fn record_from<T: RawTransport>(
    world: T::World,
    handle: Seq<u8>,
    chunk: u32,
    data: Seq<u8>,
    deadline: Deadline,
) -> (Result<Seq<u8>, UmbraErrorView>, T::World)
    decreases
            if data.len() < MAX_RECORD_BYTES {
                MAX_RECORD_BYTES - data.len()
            } else {
                0
            },
{
    if data.len() >= MAX_RECORD_BYTES {
        (Err(oversized_record()), world)
    } else {
        let want = if chunk <= MAX_RECORD_BYTES - data.len() {
            chunk
        } else {
            (MAX_RECORD_BYTES - data.len()) as u32
        };
        let call = read_call(handle, anonymous(), data.len() as u64, want);
        let after = T::after(world, call, deadline);
        match read_answer(T::answer(world, call, deadline)) {
            Err(error) => (Err(to_umbra(error, "retry"@)), after),
            Ok(reply) => if reply.eof {
                (Ok(data + reply.data), after)
            } else if reply.data.len() == 0 {
                (Err(stalled_record(data.len())), after)
            } else {
                record_from::<T>(after, handle, chunk, data + reply.data, deadline)
            },
        }
    }
}

/// The failure of a record past the bound.
pub open spec fn oversized_record() -> UmbraErrorView {
    umbra(
        ErrorKind::CorruptJournal,
        "retry"@,
        "the retry record exceeds the "@ + decimal(MAX_RECORD_BYTES as nat)
            + "-byte bound before end of file; it is not a record this provider wrote and is refused rather than read as a truncated one"@,
    )
}

/// The failure of a record the server stopped answering for.
pub open spec fn stalled_record(offset: nat) -> UmbraErrorView {
    umbra(
        ErrorKind::StorageUnavailable,
        "retry"@,
        "the server returned no bytes and no end-of-file at offset "@ + decimal(offset)
            + " of the retry record; the record could not be read whole and its state is unknown"@,
    )
}

/// Read one record whole, or nothing when the name is absent.
pub open spec fn read_record_run<T: RawTransport>(
    world: T::World,
    retries: PinnedObjectView,
    name: Seq<u8>,
    deadline: Deadline,
) -> (Result<Option<Seq<u8>>, UmbraErrorView>, T::World) {
    let (found, at_record) = descend_any_run::<T>(world, retries, name, deadline);
    match found {
        Err(error) => (
            if error.kind == ErrorKind::NotFound {
                Ok(None)
            } else {
                Err(error)
            },
            at_record,
        ),
        Ok(pin) => {
            let (read, after) = record_from::<T>(
                at_record,
                pin.handle,
                record_chunk(T::limits_of(at_record)),
                Seq::empty(),
                deadline,
            );
            (
                match read {
                    Err(error) => Err(error),
                    Ok(bytes) => Ok(Some(bytes)),
                },
                after,
            )
        },
    }
}

/// Read one record whole, or nothing when the name is absent.
///
/// A lookup or read that failed is propagated: reporting it as absence would make
/// a fresh intent out of a record that may well exist.
fn read_record<T: RawTransport>(
    transport: &mut T,
    retries: &PinnedObject,
    name: &ComponentName,
    deadline: Deadline,
) -> (r: StorageResult<Option<Vec<u8>>>)
    ensures
        (
            match r {
                Ok(found) => Ok(opt_view(found)),
                Err(error) => Err(error@),
            },
            final(transport).world(),
        ) == read_record_run::<T>(old(transport).world(), retries@, name@, deadline),
{
    let pinned = match descend_file(transport, retries, name, deadline) {
        Ok(pinned) => pinned,
        Err(error) => {
            if error.kind == ErrorKind::NotFound {
                return Ok(None);
            }
            return Err(error);
        },
    };
    let limit: usize = transport.limits().max_reply_bytes;
    let chunk: u32 = if limit < 1 {
        1
    } else if limit > MAX_RECORD_BYTES as usize {
        MAX_RECORD_BYTES
    } else {
        limit as u32
    };
    let mut bytes: Vec<u8> = Vec::new();
    let ghost whole = record_from::<T>(
        transport.world(),
        pinned@.handle,
        chunk,
        Seq::empty(),
        deadline,
    );
    let ghost start = read_record_run::<T>(old(transport).world(), retries@, name@, deadline);
    proof {
        assert(bytes@ =~= Seq::<u8>::empty());
    }
    while bytes.len() < MAX_RECORD_BYTES as usize
        invariant
            chunk <= MAX_RECORD_BYTES,
            start == read_record_run::<T>(old(transport).world(), retries@, name@, deadline),
            start == (
                match whole.0 {
                    Err(error) => Err::<Option<Seq<u8>>, UmbraErrorView>(error),
                    Ok(read) => Ok(Some(read)),
                },
                whole.1,
            ),
            whole == record_from::<T>(
                transport.world(),
                pinned@.handle,
                chunk,
                bytes@,
                deadline,
            ),
        decreases
            if bytes@.len() < MAX_RECORD_BYTES {
                MAX_RECORD_BYTES - bytes@.len()
            } else {
                0
            },
    {
        let remaining: u32 = (MAX_RECORD_BYTES as usize - bytes.len()) as u32;
        let want: u32 = if chunk <= remaining {
            chunk
        } else {
            remaining
        };
        let offset: u64 = bytes.len() as u64;
        let reply = match read_anonymous(transport, &pinned, offset, want, deadline) {
            Ok(reply) => reply,
            Err(error) => {
                return Err(error.to_umbra("retry"));
            },
        };
        append_bytes(&mut bytes, reply.data.as_slice());
        if reply.eof {
            return Ok(Some(bytes));
        }
        if reply.data.len() == 0 {
            return Err(
                UmbraError::new(
                    ErrorKind::StorageUnavailable,
                    "retry",
                    join3(
                        "the server returned no bytes and no end-of-file at offset ",
                        decimal_text(offset).as_str(),
                        " of the retry record; the record could not be read whole and its state is unknown",
                    ).as_str(),
                ),
            );
        }
    }
    Err(
        UmbraError::new(
            ErrorKind::CorruptJournal,
            "retry",
            join3(
                "the retry record exceeds the ",
                decimal_text(MAX_RECORD_BYTES as u64).as_str(),
                "-byte bound before end of file; it is not a record this provider wrote and is refused rather than read as a truncated one",
            ).as_str(),
        ),
    )
}

/// Write the bytes of a record from `written` on, in as many round trips as the
/// server needs.
pub open spec fn write_from<T: RawTransport>(
    world: T::World,
    handle: Seq<u8>,
    stateid: Stateid,
    bytes: Seq<u8>,
    written: nat,
    operation: Seq<char>,
    deadline: Deadline,
) -> (Result<(), UmbraErrorView>, T::World)
    decreases
            if written < bytes.len() {
                bytes.len() - written
            } else {
                0
            },
{
    if written >= bytes.len() {
        (Ok(()), world)
    } else {
        let call = write_call(
            handle,
            stateid,
            written as u64,
            Stability::FileSync,
            bytes.skip(written as int),
        );
        let after = T::after(world, call, deadline);
        match write_answer(T::answer(world, call, deadline)) {
            Err(error) => (Err(to_umbra(error, operation)), after),
            Ok(reply) => if reply.count == 0 {
                (Err(refused_bytes(written, bytes.len(), operation)), after)
            } else {
                write_from::<T>(
                    after,
                    handle,
                    stateid,
                    bytes,
                    written + reply.count as nat,
                    operation,
                    deadline,
                )
            },
        }
    }
}

/// The failure of a write that makes no progress.
pub open spec fn refused_bytes(written: nat, length: nat, operation: Seq<char>) -> UmbraErrorView {
    umbra(
        ErrorKind::Io,
        operation,
        "the server accepted no bytes at offset "@ + decimal(written) + " of a "@ + decimal(length)
            + "-byte retry record; the record is incomplete on the server"@,
    )
}

/// `PUTFH; SETATTR` of a record's size.
pub open spec fn resize_call(handle: Seq<u8>, stateid: Stateid, size: u64) -> CompoundView {
    CompoundView {
        tag: "retrysz"@,
        ops: seq![
            OpView::PutFh(handle),
            OpView::SetAttr {
                stateid,
                attributes: AttrValuesView { size: Some(size), ..no_values() },
            },
        ],
    }
}

/// What the answer to [`resize_call`] says.
pub open spec fn resize_answer(answer: Answer, operation: Seq<char>) -> Result<
    (),
    UmbraErrorView,
> {
    match answer {
        Err(error) => Err(to_umbra(FacadeErrorView::Transport(error), operation)),
        Ok(reply) => match reply_at(reply, 1) {
            Err(error) => Err(to_umbra(error, operation)),
            Ok(ReplyView::SetAttr(_)) => Ok(()),
            Ok(other) => Err(
                umbra(
                    ErrorKind::ProtocolMismatch,
                    operation,
                    "expected a SETATTR reply for the record size, got "@ + reply_text(other),
                ),
            ),
        },
    }
}

/// Write a record and set the file's size to match: a shorter record over a longer
/// one would otherwise leave a tail that decodes as neither.
pub open spec fn fill_run<T: RawTransport>(
    world: T::World,
    handle: Seq<u8>,
    stateid: Stateid,
    bytes: Seq<u8>,
    operation: Seq<char>,
    deadline: Deadline,
) -> (Result<(), UmbraErrorView>, T::World) {
    let (written, at_end) = write_from::<T>(
        world,
        handle,
        stateid,
        bytes,
        0,
        operation,
        deadline,
    );
    match written {
        Err(error) => (Err(error), at_end),
        Ok(()) => {
            let call = resize_call(handle, stateid, bytes.len() as u64);
            (
                resize_answer(T::answer(at_end, call, deadline), operation),
                T::after(at_end, call, deadline),
            )
        },
    }
}

/// Fill an open record and close it, whichever way the filling went.
pub open spec fn write_whole_run<T: RawTransport>(
    open: OpenObjectView,
    session: SessionView,
    world: T::World,
    bytes: Seq<u8>,
    operation: Seq<char>,
    deadline: Deadline,
) -> (Result<(), UmbraErrorView>, T::World) {
    match stateid_answer(open.file, session) {
        Err(error) => (
            Err(to_umbra(error, operation)),
            close_run::<T>(open.file, session, world, deadline).1,
        ),
        Ok(stateid) => {
            let (result, filled) = fill_run::<T>(
                world,
                open.file.handle,
                stateid,
                bytes,
                operation,
                deadline,
            );
            let (outcome, after) = close_run::<T>(open.file, session, filled, deadline);
            (
                match (result, close_failure(outcome)) {
                    (Ok(()), Some(error)) => Err(to_umbra(error, operation)),
                    _ => result,
                },
                after,
            )
        },
    }
}

fn fill<T: RawTransport>(
    transport: &mut T,
    handle: &FileHandle,
    stateid: Stateid,
    bytes: &[u8],
    operation: &str,
    deadline: Deadline,
) -> (r: StorageResult<()>)
    ensures
        (res_view(r), final(transport).world()) == fill_run::<T>(
            old(transport).world(),
            handle@,
            stateid,
            bytes@,
            operation@,
            deadline,
        ),
{
    let ghost whole = write_from::<T>(
        transport.world(),
        handle@,
        stateid,
        bytes@,
        0,
        operation@,
        deadline,
    );
    let mut written: usize = 0;
    while written < bytes.len()
        invariant
            written <= bytes@.len(),
            whole == write_from::<T>(
                old(transport).world(),
                handle@,
                stateid,
                bytes@,
                0,
                operation@,
                deadline,
            ),
            whole == write_from::<T>(
                transport.world(),
                handle@,
                stateid,
                bytes@,
                written as nat,
                operation@,
                deadline,
            ),
        decreases bytes@.len() - written,
    {
        let rest = copy_range(bytes, written, bytes.len());
        proof {
            assert(rest@ =~= bytes@.skip(written as int));
        }
        let reply = match transport.write(
            handle,
            stateid,
            written as u64,
            Stability::FileSync,
            rest,
            deadline,
        ) {
            Ok(reply) => reply,
            Err(error) => {
                return Err(error.to_umbra(operation));
            },
        };
        if reply.count == 0 {
            // No progress and no error: looping forever is no answer.
            return Err(
                UmbraError::new(
                    ErrorKind::Io,
                    operation,
                    join3(
                        "the server accepted no bytes at offset ",
                        decimal_text(written as u64).as_str(),
                        " of a ",
                    ).concat(decimal_text(bytes.len() as u64).as_str()).concat(
                        "-byte retry record; the record is incomplete on the server",
                    ).as_str(),
                ),
            );
        }
        let left: usize = bytes.len() - written;
        if reply.count as u64 >= left as u64 {
            proof {
                assert(write_from::<T>(
                    transport.world(),
                    handle@,
                    stateid,
                    bytes@,
                    (written + reply.count) as nat,
                    operation@,
                    deadline,
                ) == (Ok::<(), UmbraErrorView>(()), transport.world()));
            }
            written = bytes.len();
        } else {
            written += reply.count as usize;
        }
    }
    let mut attributes = AttrValues::none();
    attributes.size = Some(bytes.len() as u64);
    let call = Compound::new(
        "retrysz",
        vec![Nfs4Op::PutFh(handle.clone()), Nfs4Op::SetAttr { stateid, attributes }],
    );
    proof {
        assert(call@ =~= resize_call(handle@, stateid, bytes@.len() as u64));
    }
    match transport.submit(call, deadline) {
        Err(error) => Err(FacadeError::Transport(error).to_umbra(operation)),
        Ok(reply) => match reply.expect(1) {
            Err(error) => Err(error.to_umbra(operation)),
            Ok(OpReply::SetAttr(_)) => Ok(()),
            Ok(other) => Err(
                UmbraError::new(
                    ErrorKind::ProtocolMismatch,
                    operation,
                    join(
                        "expected a SETATTR reply for the record size, got ",
                        other.text().as_str(),
                    ).as_str(),
                ),
            ),
        },
    }
}

/// Write `bytes` at offset zero, set the file's size to match, and close.
///
/// A body failure is the more informative answer; a close failure only wins when
/// the body succeeded.
fn write_whole<T: RawTransport>(
    transport: &mut T,
    open: OpenObject,
    session: &Session,
    bytes: &[u8],
    operation: &str,
    deadline: Deadline,
) -> (r: StorageResult<()>)
    ensures
        (res_view(r), final(transport).world()) == write_whole_run::<T>(
            open@,
            session@,
            old(transport).world(),
            bytes@,
            operation@,
            deadline,
        ),
{
    let stateid = match open.stateid(session) {
        Ok(stateid) => stateid,
        Err(error) => {
            let _ = open.close(session, transport, deadline);
            return Err(error.to_umbra(operation));
        },
    };
    let result = fill(transport, open.handle(), stateid, bytes, operation, deadline);
    match open.close(session, transport, deadline).failure() {
        None => result,
        Some(error) => match result {
            Ok(()) => Err(error.to_umbra(operation)),
            Err(earlier) => Err(earlier),
        },
    }
}

/// Open a record and write it whole.
#[verifier::opaque]
pub open spec fn put_record_run<T: RawTransport>(
    owners: RegistryView,
    world: T::World,
    retries: PinnedObjectView,
    name: Seq<u8>,
    disposition: CreateDisposition,
    bytes: Seq<u8>,
    operation: Seq<char>,
    deadline: Deadline,
) -> (Result<(), UmbraErrorView>, RegistryView, T::World) {
    let (opened, minted, at_open) = open_object_run::<T>(
        owners,
        world,
        retries,
        name,
        disposition,
        ShareAccess::WRITE,
        deadline,
    );
    match opened {
        Err(error) => (Err(to_umbra(error, operation)), minted, at_open),
        Ok(open) => {
            let (result, after) = write_whole_run::<T>(
                open,
                minted.session,
                at_open,
                bytes,
                operation,
                deadline,
            );
            (result, minted, after)
        },
    }
}

/// `GUARDED4` create and write one record whole.
pub open spec fn new_record_run<T: RawTransport>(
    owners: RegistryView,
    world: T::World,
    retries: PinnedObjectView,
    name: Seq<u8>,
    bytes: Seq<u8>,
    operation: Seq<char>,
    deadline: Deadline,
) -> (Result<(), UmbraErrorView>, RegistryView, T::World) {
    put_record_run::<T>(
        owners,
        world,
        retries,
        name,
        CreateDisposition::CreateNew { mode: RECORD_MODE },
        bytes,
        operation,
        deadline,
    )
}

fn put_record<T: RawTransport>(
    transport: &mut T,
    owners: &mut OpenOwnerRegistry,
    retries: &PinnedObject,
    name: &ComponentName,
    disposition: CreateDisposition,
    bytes: &[u8],
    operation: &str,
    deadline: Deadline,
) -> (r: StorageResult<()>)
    ensures
        (res_view(r), final(owners)@, final(transport).world()) == put_record_run::<T>(
            old(owners)@,
            old(transport).world(),
            retries@,
            name@,
            disposition,
            bytes@,
            operation@,
            deadline,
        ),
{
    proof {
        reveal(put_record_run);
    }
    match OpenObject::open(
        owners,
        transport,
        retries,
        name,
        disposition,
        ShareAccess::WRITE,
        deadline,
    ) {
        Err(error) => Err(error.to_umbra(operation)),
        Ok(open) => write_whole(
            transport,
            open,
            owners.session(),
            bytes,
            operation,
            deadline,
        ),
    }
}

fn write_new_record<T: RawTransport>(
    transport: &mut T,
    owners: &mut OpenOwnerRegistry,
    retries: &PinnedObject,
    name: &ComponentName,
    bytes: &[u8],
    operation: &str,
    deadline: Deadline,
) -> (r: StorageResult<()>)
    ensures
        (res_view(r), final(owners)@, final(transport).world()) == new_record_run::<T>(
            old(owners)@,
            old(transport).world(),
            retries@,
            name@,
            bytes@,
            operation@,
            deadline,
        ),
{
    put_record(
        transport,
        owners,
        retries,
        name,
        CreateDisposition::CreateNew { mode: RECORD_MODE },
        bytes,
        operation,
        deadline,
    )
}

/// An encoded record, refused where there is none or it is too large to be written
/// and read back whole.
pub open spec fn bounded_record(
    encoded: Result<Seq<u8>, Seq<char>>,
    operation: Seq<char>,
) -> Result<Seq<u8>, UmbraErrorView> {
    match encoded {
        Err(reason) => Err(
            umbra(
                ErrorKind::InvalidState,
                operation,
                "a retry record could not be encoded: "@ + reason,
            ),
        ),
        Ok(bytes) => if bytes.len() > MAX_RECORD_BYTES {
            Err(
                umbra(
                    ErrorKind::InvalidInput,
                    operation,
                    "this request encodes to a "@ + decimal(bytes.len())
                        + "-byte retry record, past the "@ + decimal(MAX_RECORD_BYTES as nat)
                        + "-byte bound this journal can write and read back whole; it is refused before any record is created"@,
                ),
            )
        } else {
            Ok(bytes)
        },
    }
}

fn bounded(encoded: Result<Vec<u8>, String>, operation: &str) -> (r: StorageResult<Vec<u8>>)
    ensures
        res_view(r) == bounded_record(res_view(encoded), operation@),
{
    match encoded {
        Err(reason) => Err(
            UmbraError::new(
                ErrorKind::InvalidState,
                operation,
                join("a retry record could not be encoded: ", reason.as_str()).as_str(),
            ),
        ),
        Ok(bytes) => {
            if bytes.len() > MAX_RECORD_BYTES as usize {
                return Err(
                    UmbraError::new(
                        ErrorKind::InvalidInput,
                        operation,
                        join3(
                            "this request encodes to a ",
                            decimal_text(bytes.len() as u64).as_str(),
                            "-byte retry record, past the ",
                        ).concat(decimal_text(MAX_RECORD_BYTES as u64).as_str()).concat(
                            "-byte bound this journal can write and read back whole; it is refused before any record is created",
                        ).as_str(),
                    ),
                );
            }
            Ok(bytes)
        },
    }
}

/// One retry record: the request as issued, and its outcome once known.
#[derive(Debug)]
pub struct RetryRecord {
    /// The request as issued.
    pub request: StorageRequest,
    /// What it led to, once known.
    pub outcome: Option<StorageResult<StorageResponse>>,
}

/// The content of a [`RetryRecord`].
pub struct RetryRecordView {
    /// The request as issued.
    pub request: StorageRequestView,
    /// What it led to, once known.
    pub outcome: Option<Result<StorageResponseView, UmbraErrorView>>,
}

impl View for RetryRecord {
    type V = RetryRecordView;

    open spec fn view(&self) -> RetryRecordView {
        RetryRecordView {
            request: self.request@,
            outcome: match self.outcome {
                Some(result) => Some(res_view(result)),
                None => None,
            },
        }
    }
}

/// What the journal holds for a request's key, before it is decoded.
#[derive(Debug)]
pub struct Consulted {
    retries: PinnedObject,
    record: Option<Vec<u8>>,
}

/// The content of a [`Consulted`].
pub struct ConsultedView {
    /// The retry directory.
    pub retries: PinnedObjectView,
    /// The bytes of the record, where there is one.
    pub record: Option<Seq<u8>>,
}

impl View for Consulted {
    type V = ConsultedView;

    closed spec fn view(&self) -> ConsultedView {
        ConsultedView { retries: self.retries@, record: opt_view(self.record) }
    }
}

impl Consulted {
    /// The bytes of the record, where there is one.
    pub fn record(&self) -> (r: Option<&[u8]>)
        ensures
            match r {
                Some(bytes) => self@.record == Some(bytes@),
                None => self@.record is None,
            },
    {
        match &self.record {
            Some(bytes) => Some(bytes.as_slice()),
            None => None,
        }
    }
}

/// What consulting the journal found, before any state is observed.
#[derive(Debug)]
pub enum Lookup {
    /// This key already settled. The recorded outcome is the answer; nothing is
    /// observed.
    Recorded(StorageResult<StorageResponse>),
    /// No record exists. A fresh intent must be written.
    Fresh,
    /// An interrupted intent, with the bytes of the evidence recorded beside it.
    Interrupted(Vec<u8>),
}

/// The content of a [`Lookup`].
pub enum LookupView {
    /// See [`Lookup::Recorded`].
    Recorded(Result<StorageResponseView, UmbraErrorView>),
    /// See [`Lookup::Fresh`].
    Fresh,
    /// See [`Lookup::Interrupted`].
    Interrupted(Seq<u8>),
}

impl View for Lookup {
    type V = LookupView;

    open spec fn view(&self) -> LookupView {
        match *self {
            Lookup::Recorded(result) => LookupView::Recorded(res_view(result)),
            Lookup::Fresh => LookupView::Fresh,
            Lookup::Interrupted(bytes) => LookupView::Interrupted(bytes@),
        }
    }
}

/// What the journal decided about a request.
#[derive(Debug)]
pub enum Admission {
    /// No record existed. The intent is now durably recorded; dispatch may go
    /// ahead, and its outcome must be settled.
    Fresh,
    /// This key already settled. The recorded outcome is the answer, forever.
    Recorded(StorageResult<StorageResponse>),
    /// An earlier attempt was interrupted, and the server's current state proves
    /// the effect never landed. Dispatch proceeds under the same key.
    Redispatch,
}

/// The content of an [`Admission`].
pub enum AdmissionView {
    /// See [`Admission::Fresh`].
    Fresh,
    /// See [`Admission::Recorded`].
    Recorded(Result<StorageResponseView, UmbraErrorView>),
    /// See [`Admission::Redispatch`].
    Redispatch,
}

impl View for Admission {
    type V = AdmissionView;

    open spec fn view(&self) -> AdmissionView {
        match *self {
            Admission::Fresh => AdmissionView::Fresh,
            Admission::Recorded(result) => AdmissionView::Recorded(res_view(result)),
            Admission::Redispatch => AdmissionView::Redispatch,
        }
    }
}

/// What recovering an interrupted intent calls for.
#[derive(Debug)]
pub enum Recovered {
    /// The effect never landed: dispatch again under the same key.
    Redispatch,
    /// The effect landed: record `response` in `retries` as the settled outcome.
    Settle {
        /// The retry directory.
        retries: PinnedObject,
        /// What the request answers.
        response: StorageResponse,
    },
}

/// The content of a [`Recovered`].
pub enum RecoveredView {
    /// See [`Recovered::Redispatch`].
    Redispatch,
    /// See [`Recovered::Settle`].
    Settle {
        /// The retry directory.
        retries: PinnedObjectView,
        /// What the request answers.
        response: StorageResponseView,
    },
}

impl View for Recovered {
    type V = RecoveredView;

    open spec fn view(&self) -> RecoveredView {
        match *self {
            Recovered::Redispatch => RecoveredView::Redispatch,
            Recovered::Settle { retries, response } => RecoveredView::Settle {
                retries: retries@,
                response: response@,
            },
        }
    }
}

/// Read what the journal holds for a key.
pub open spec fn consult_run<T: RawTransport>(
    world: T::World,
    private: PinnedObjectView,
    key: Seq<char>,
    deadline: Deadline,
) -> (Result<ConsultedView, UmbraErrorView>, T::World) {
    let (found, at_retries) = retries_run::<T>(world, private, deadline);
    match found {
        Err(error) => (Err(error), at_retries),
        Ok(retries) => match text_component(key_file(key)) {
            Err(error) => (Err(error), at_retries),
            Ok(name) => {
                let (read, after) = read_record_run::<T>(at_retries, retries, name, deadline);
                (
                    match read {
                        Err(error) => Err(error),
                        Ok(record) => Ok(ConsultedView { retries, record }),
                    },
                    after,
                )
            },
        },
    }
}

/// Read what the journal holds for this request's key, without touching its
/// target: a settled key's answer is the record, and the namespace has nothing to
/// say about it.
pub fn consult<T: RawTransport>(
    transport: &mut T,
    private: &Anchor,
    request: &StorageRequest,
    deadline: Deadline,
) -> (r: StorageResult<Consulted>)
    ensures
        (res_view(r), final(transport).world()) == consult_run::<T>(
            old(transport).world(),
            private@.pin,
            request@.context.idempotency_key,
            deadline,
        ),
{
    let retries = match retries_directory(transport, private, deadline) {
        Ok(retries) => retries,
        Err(error) => {
            return Err(error);
        },
    };
    let name = match layout_component(key_name(&request.context.idempotency_key).as_str()) {
        Ok(name) => name,
        Err(error) => {
            return Err(error);
        },
    };
    match read_record(transport, &retries, &name, deadline) {
        Ok(record) => Ok(Consulted { retries, record }),
        Err(error) => Err(error),
    }
}

/// What a decoded record says of a request: its settled outcome, nothing yet, or a
/// refusal.
pub open spec fn record_verdict(
    decoded: Result<RetryRecordView, Seq<char>>,
    request: StorageRequestView,
    operation: Seq<char>,
) -> Result<Option<Result<StorageResponseView, UmbraErrorView>>, UmbraErrorView> {
    match decoded {
        Err(reason) => Err(
            umbra(
                ErrorKind::CorruptJournal,
                operation,
                "the retry record for this idempotency key does not decode ("@ + reason
                    + "); it is retained on the server and the request is refused rather than re-dispatched"@,
            ),
        ),
        Ok(record) => if record.request != request {
            Err(
                umbra(
                    ErrorKind::InvalidInput,
                    operation,
                    "this idempotency key was already used for a different request"@,
                ),
            )
        } else {
            Ok(record.outcome)
        },
    }
}

/// The stop of an interrupted intent without recorded preconditions.
pub open spec fn no_evidence(operation: Seq<char>) -> UmbraErrorView {
    blocked_stop(
        operation,
        "this run holds an interrupted intent for the key with no recorded preconditions, so whether it took effect cannot be established from evidence. The record is retained and the run is blocked rather than guessed or replayed."@,
    )
}

/// The refusal of a record that was not decoded, or of a decoding without a record.
pub open spec fn unmatched_record(operation: Seq<char>) -> UmbraErrorView {
    umbra(
        ErrorKind::CorruptJournal,
        operation,
        "what the journal holds for this idempotency key and what it was decoded to do not belong together; the request is refused rather than dispatched"@,
    )
}

/// What the journal says of a request whose record decodes to `decoded`.
pub open spec fn lookup_run<T: RawTransport>(
    world: T::World,
    consulted: ConsultedView,
    request: StorageRequestView,
    decoded: Option<Result<RetryRecordView, Seq<char>>>,
    operation: Seq<char>,
    deadline: Deadline,
) -> (Result<LookupView, UmbraErrorView>, T::World) {
    match (consulted.record, decoded) {
        (None, None) => (Ok(LookupView::Fresh), world),
        (Some(_), None) => (Err(unmatched_record(operation)), world),
        (None, Some(_)) => (Err(unmatched_record(operation)), world),
        (Some(_), Some(record)) => match record_verdict(record, request, operation) {
            Err(error) => (Err(error), world),
            Ok(Some(outcome)) => (Ok(LookupView::Recorded(outcome)), world),
            Ok(None) => match text_component(
                precondition_file(request.context.idempotency_key),
            ) {
                Err(error) => (Err(error), world),
                Ok(name) => {
                    let (read, after) = read_record_run::<T>(
                        world,
                        consulted.retries,
                        name,
                        deadline,
                    );
                    (
                        match read {
                            Err(error) => Err(error),
                            Ok(Some(bytes)) => Ok(LookupView::Interrupted(bytes)),
                            Ok(None) => Err(no_evidence(operation)),
                        },
                        after,
                    )
                },
            },
        },
    }
}

/// Judge what [`consult`] read, without touching the request's target.
///
/// `decoded` is what the record's bytes decode to, or why they do not; `None` where
/// there is no record. The two are refused where only one of them is there. A settled key answers from its record. An intent without an
/// outcome is an interrupted attempt, whose recorded preconditions are read.
pub fn lookup<T: RawTransport>(
    transport: &mut T,
    consulted: &Consulted,
    request: &StorageRequest,
    decoded: Option<Result<RetryRecord, String>>,
    operation: &str,
    deadline: Deadline,
) -> (r: StorageResult<Lookup>)
    ensures
        (res_view(r), final(transport).world()) == lookup_run::<T>(
            old(transport).world(),
            consulted@,
            request@,
            match decoded {
                Some(record) => Some(res_view(record)),
                None => None,
            },
            operation@,
            deadline,
        ),
{
    if consulted.record.is_some() != decoded.is_some() {
        return Err(
            UmbraError::new(
                ErrorKind::CorruptJournal,
                operation,
                "what the journal holds for this idempotency key and what it was decoded to do not belong together; the request is refused rather than dispatched",
            ),
        );
    }
    let previous = match decoded {
        None => {
            return Ok(Lookup::Fresh);
        },
        Some(Err(reason)) => {
            return Err(
                UmbraError::new(
                    ErrorKind::CorruptJournal,
                    operation,
                    join3(
                        "the retry record for this idempotency key does not decode (",
                        reason.as_str(),
                        "); it is retained on the server and the request is refused rather than re-dispatched",
                    ).as_str(),
                ),
            );
        },
        Some(Ok(previous)) => previous,
    };
    if !previous.request.same(request) {
        // Answering with the recorded outcome would report the result of an
        // operation the caller never asked for.
        return Err(
            UmbraError::new(
                ErrorKind::InvalidInput,
                operation,
                "this idempotency key was already used for a different request",
            ),
        );
    }
    if let Some(result) = previous.outcome {
        return Ok(Lookup::Recorded(result));
    }
    let name = match layout_component(
        precondition_name(&request.context.idempotency_key).as_str(),
    ) {
        Ok(name) => name,
        Err(error) => {
            return Err(error);
        },
    };
    match read_record(transport, &consulted.retries, &name, deadline) {
        Err(error) => Err(error),
        Ok(Some(bytes)) => Ok(Lookup::Interrupted(bytes)),
        Ok(None) => Err(
            blocked(
                operation,
                "this run holds an interrupted intent for the key with no recorded preconditions, so whether it took effect cannot be established from evidence. The record is retained and the run is blocked rather than guessed or replayed.",
            ),
        ),
    }
}

/// The evidence an interrupted intent recorded, refused where it does not decode.
pub open spec fn recorded_evidence(
    decoded: Result<Preconditions, Seq<char>>,
    operation: Seq<char>,
) -> Result<Preconditions, UmbraErrorView> {
    match decoded {
        Ok(recorded) => Ok(recorded),
        Err(reason) => Err(
            umbra(
                ErrorKind::CorruptJournal,
                operation,
                "the recorded preconditions for this key do not decode ("@ + reason
                    + "); they are retained on the server and the run is blocked rather than recovered from evidence that cannot be read"@,
            ),
        ),
    }
}

/// The evidence an interrupted intent recorded, or why it cannot be read.
pub fn read_evidence(decoded: Result<Preconditions, String>, operation: &str) -> (r: StorageResult<
    Preconditions,
>)
    ensures
        (match r {
            Ok(recorded) => Ok(recorded),
            Err(error) => Err(error@),
        }) == recorded_evidence(
            match decoded {
                Ok(recorded) => Ok(recorded),
                Err(reason) => Err(reason@),
            },
            operation@,
        ),
{
    match decoded {
        Ok(recorded) => Ok(recorded),
        Err(reason) => Err(
            UmbraError::new(
                ErrorKind::CorruptJournal,
                operation,
                join3(
                    "the recorded preconditions for this key do not decode (",
                    reason.as_str(),
                    "); they are retained on the server and the run is blocked rather than recovered from evidence that cannot be read",
                ).as_str(),
            ),
        ),
    }
}

/// What recovering an interrupted intent calls for, once the retry directory is
/// resolved.
pub open spec fn settlement(
    retries: PinnedObjectView,
    request: StorageRequestView,
    recorded: Preconditions,
    observed: ObservationView,
    operation: Seq<char>,
) -> Result<RecoveredView, UmbraErrorView> {
    match recovered(request.operation, recorded, observed.evidence) {
        RecoveryView::NotApplied => Ok(RecoveredView::Redispatch),
        RecoveryView::Applied => match recovered_answer(request.operation, observed, operation) {
            Err(error) => Err(error),
            Ok(response) => Ok(RecoveredView::Settle { retries, response }),
        },
        RecoveryView::Ambiguous(why) => Err(
            blocked_stop(
                operation,
                "an interrupted intent for this key cannot be settled from evidence: "@ + why
                    + ". The record and the server state are both retained and the run is blocked rather than guessed."@,
            ),
        ),
    }
}

/// Recover an interrupted intent against the state observed now.
pub open spec fn recover_run<T: RawTransport>(
    world: T::World,
    private: PinnedObjectView,
    request: StorageRequestView,
    recorded: Preconditions,
    observed: ObservationView,
    operation: Seq<char>,
    deadline: Deadline,
) -> (Result<RecoveredView, UmbraErrorView>, T::World) {
    let (found, after) = retries_run::<T>(world, private, deadline);
    (
        match found {
            Err(error) => Err(error),
            Ok(retries) => match text_component(key_file(request.context.idempotency_key)) {
                Err(error) => Err(error),
                Ok(_) => settlement(retries, request, recorded, observed, operation),
            },
        },
        after,
    )
}

/// Settle an interrupted intent against the state observed now: dispatch again,
/// or record what the evidence shows happened ([`record_recovered`]).
pub fn recover_interrupted<T: RawTransport>(
    transport: &mut T,
    private: &Anchor,
    request: &StorageRequest,
    recorded: &Preconditions,
    observed: &Observation,
    operation: &str,
    deadline: Deadline,
) -> (r: StorageResult<Recovered>)
    ensures
        (res_view(r), final(transport).world()) == recover_run::<T>(
            old(transport).world(),
            private@.pin,
            request@,
            *recorded,
            observed@,
            operation@,
            deadline,
        ),
{
    let retries = match retries_directory(transport, private, deadline) {
        Ok(retries) => retries,
        Err(error) => {
            return Err(error);
        },
    };
    match layout_component(key_name(&request.context.idempotency_key).as_str()) {
        Ok(_) => {},
        Err(error) => {
            return Err(error);
        },
    }
    match recover(&request.operation, recorded, &observed.evidence) {
        Recovery::NotApplied => Ok(Recovered::Redispatch),
        Recovery::Applied => match recovered_response(&request.operation, observed, operation) {
            Err(error) => Err(error),
            Ok(response) => Ok(Recovered::Settle { retries, response }),
        },
        Recovery::Ambiguous(why) => Err(
            blocked(
                operation,
                join3(
                    "an interrupted intent for this key cannot be settled from evidence: ",
                    why.as_str(),
                    ". The record and the server state are both retained and the run is blocked rather than guessed.",
                ).as_str(),
            ),
        ),
    }
}

/// Replace an existing record of a key.
pub open spec fn replace_run<T: RawTransport>(
    owners: RegistryView,
    world: T::World,
    retries: PinnedObjectView,
    key: Seq<char>,
    encoded: Result<Seq<u8>, Seq<char>>,
    operation: Seq<char>,
    deadline: Deadline,
) -> (Result<(), UmbraErrorView>, RegistryView, T::World) {
    match text_component(key_file(key)) {
        Err(error) => (Err(error), owners, world),
        Ok(name) => match bounded_record(encoded, operation) {
            Err(error) => (Err(error), owners, world),
            Ok(bytes) => put_record_run::<T>(
                owners,
                world,
                retries,
                name,
                CreateDisposition::OpenExisting,
                bytes,
                operation,
                deadline,
            ),
        },
    }
}

fn replace_record<T: RawTransport>(
    transport: &mut T,
    owners: &mut OpenOwnerRegistry,
    retries: &PinnedObject,
    key: &IdempotencyKey,
    encoded: Result<Vec<u8>, String>,
    operation: &str,
    deadline: Deadline,
) -> (r: StorageResult<()>)
    ensures
        (res_view(r), final(owners)@, final(transport).world()) == replace_run::<T>(
            old(owners)@,
            old(transport).world(),
            retries@,
            key@,
            res_view(encoded),
            operation@,
            deadline,
        ),
{
    let name = match layout_component(key_name(key).as_str()) {
        Ok(name) => name,
        Err(error) => {
            return Err(error);
        },
    };
    match bounded(encoded, operation) {
        Err(error) => Err(error),
        Ok(bytes) => put_record(
            transport,
            owners,
            retries,
            &name,
            CreateDisposition::OpenExisting,
            bytes.as_slice(),
            operation,
            deadline,
        ),
    }
}

/// Record the outcome a recovery established, so that the key stops being
/// indeterminate.
///
/// `encoded` is the record of the request with `response` as its outcome.
pub fn record_recovered<T: RawTransport>(
    transport: &mut T,
    owners: &mut OpenOwnerRegistry,
    retries: &PinnedObject,
    request: &StorageRequest,
    response: StorageResponse,
    encoded: Result<Vec<u8>, String>,
    operation: &str,
    deadline: Deadline,
) -> (r: StorageResult<Admission>)
    ensures
        ({
            let (put, minted, after) = replace_run::<T>(
                old(owners)@,
                old(transport).world(),
                retries@,
                request@.context.idempotency_key,
                res_view(encoded),
                operation@,
                deadline,
            );
            &&& final(owners)@ == minted
            &&& final(transport).world() == after
            &&& res_view(r) == (match put {
                Err(error) => Err::<AdmissionView, UmbraErrorView>(error),
                Ok(()) => Ok(AdmissionView::Recorded(Ok(response@))),
            })
        }),
{
    match replace_record(
        transport,
        owners,
        retries,
        &request.context.idempotency_key,
        encoded,
        operation,
        deadline,
    ) {
        Err(error) => Err(error),
        Ok(()) => Ok(Admission::Recorded(Ok(response))),
    }
}

/// Record what a dispatched request did.
pub open spec fn settle_run<T: RawTransport>(
    owners: RegistryView,
    world: T::World,
    private: PinnedObjectView,
    key: Seq<char>,
    encoded: Result<Seq<u8>, Seq<char>>,
    operation: Seq<char>,
    deadline: Deadline,
) -> (Result<(), UmbraErrorView>, RegistryView, T::World) {
    let (found, at_retries) = retries_run::<T>(world, private, deadline);
    match found {
        Err(error) => (Err(error), owners, at_retries),
        Ok(retries) => replace_run::<T>(
            owners,
            at_retries,
            retries,
            key,
            encoded,
            operation,
            deadline,
        ),
    }
}

/// Record what a dispatched request actually did.
///
/// `encoded` is the record of the request with its outcome. A failure is recorded
/// exactly like a success, because a retry of a failed key must be told the
/// failure.
pub fn settle<T: RawTransport>(
    transport: &mut T,
    owners: &mut OpenOwnerRegistry,
    private: &Anchor,
    request: &StorageRequest,
    encoded: Result<Vec<u8>, String>,
    operation: &str,
    deadline: Deadline,
) -> (r: StorageResult<()>)
    ensures
        (res_view(r), final(owners)@, final(transport).world()) == settle_run::<T>(
            old(owners)@,
            old(transport).world(),
            private@.pin,
            request@.context.idempotency_key,
            res_view(encoded),
            operation@,
            deadline,
        ),
{
    let retries = match retries_directory(transport, private, deadline) {
        Ok(retries) => retries,
        Err(error) => {
            return Err(error);
        },
    };
    replace_record(
        transport,
        owners,
        &retries,
        &request.context.idempotency_key,
        encoded,
        operation,
        deadline,
    )
}

/// Write a fresh intent's three files: the preconditions, the operation index and
/// the record, in this order, so that a record that exists has evidence beside it.
pub open spec fn intent_run<T: RawTransport>(
    owners: RegistryView,
    world: T::World,
    retries: PinnedObjectView,
    names: IntentNames,
    key: Seq<char>,
    preconditions: Seq<u8>,
    encoded: Seq<u8>,
    operation: Seq<char>,
    deadline: Deadline,
) -> (Result<(), UmbraErrorView>, RegistryView, T::World) {
    let (noted, first, at_evidence) = new_record_run::<T>(
        owners,
        world,
        retries,
        names.preconditions,
        preconditions,
        operation,
        deadline,
    );
    match noted {
        Err(error) => (Err(error), first, at_evidence),
        Ok(()) => {
            let (indexed, second, at_index) = new_record_run::<T>(
                first,
                at_evidence,
                retries,
                names.index,
                vstd::utf8::encode_utf8(key_file(key)),
                operation,
                deadline,
            );
            match indexed {
                Err(error) => (Err(error), second, at_index),
                Ok(()) => new_record_run::<T>(
                    second,
                    at_index,
                    retries,
                    names.record,
                    encoded,
                    operation,
                    deadline,
                ),
            }
        },
    }
}

/// The names of a fresh intent's files.
pub struct IntentNames {
    /// The record.
    pub record: Seq<u8>,
    /// The operation index.
    pub index: Seq<u8>,
    /// The preconditions.
    pub preconditions: Seq<u8>,
}

/// Record a fresh intent in a resolved retry directory. Nothing is created for an
/// operation id already used, nor for a record that cannot be written whole.
pub open spec fn admit_in_run<T: RawTransport>(
    owners: RegistryView,
    world: T::World,
    retries: PinnedObjectView,
    context: RequestContextView,
    encoded: Result<Seq<u8>, Seq<char>>,
    preconditions: Result<Seq<u8>, Seq<char>>,
    operation: Seq<char>,
    deadline: Deadline,
) -> (Result<(), UmbraErrorView>, RegistryView, T::World) {
    match text_component(key_file(context.idempotency_key)) {
        Err(error) => (Err(error), owners, world),
        Ok(record) => match text_component(operation_file(context.operation_id)) {
            Err(error) => (Err(error), owners, world),
            Ok(index) => {
                let (used, checked) = read_record_run::<T>(world, retries, index, deadline);
                match used {
                    Err(error) => (Err(error), owners, checked),
                    Ok(Some(_)) => (
                        Err(
                            umbra(
                                ErrorKind::InvalidInput,
                                operation,
                                "this operation id was already used under a different idempotency key"@,
                            ),
                        ),
                        owners,
                        checked,
                    ),
                    Ok(None) => match bounded_record(encoded, operation) {
                        Err(error) => (Err(error), owners, checked),
                        Ok(bytes) => match text_component(
                            precondition_file(context.idempotency_key),
                        ) {
                            Err(error) => (Err(error), owners, checked),
                            Ok(sidecar) => match preconditions {
                                Err(reason) => (
                                    Err(
                                        umbra(
                                            ErrorKind::InvalidState,
                                            operation,
                                            "the preconditions could not be encoded: "@ + reason,
                                        ),
                                    ),
                                    owners,
                                    checked,
                                ),
                                Ok(evidence) => intent_run::<T>(
                                    owners,
                                    checked,
                                    retries,
                                    IntentNames { record, index, preconditions: sidecar },
                                    context.idempotency_key,
                                    evidence,
                                    bytes,
                                    operation,
                                    deadline,
                                ),
                            },
                        },
                    },
                }
            },
        },
    }
}

/// Record a fresh intent, with its preconditions.
pub open spec fn admit_run<T: RawTransport>(
    owners: RegistryView,
    world: T::World,
    private: PinnedObjectView,
    context: RequestContextView,
    encoded: Result<Seq<u8>, Seq<char>>,
    preconditions: Result<Seq<u8>, Seq<char>>,
    operation: Seq<char>,
    deadline: Deadline,
) -> (Result<(), UmbraErrorView>, RegistryView, T::World) {
    let (found, at_retries) = retries_run::<T>(world, private, deadline);
    match found {
        Err(error) => (Err(error), owners, at_retries),
        Ok(retries) => admit_in_run::<T>(
            owners,
            at_retries,
            retries,
            context,
            encoded,
            preconditions,
            operation,
            deadline,
        ),
    }
}

/// Write the three files of a fresh intent, the evidence first and the record last.
fn write_intent<T: RawTransport>(
    transport: &mut T,
    owners: &mut OpenOwnerRegistry,
    retries: &PinnedObject,
    record: &ComponentName,
    index: &ComponentName,
    sidecar: &ComponentName,
    key: &IdempotencyKey,
    evidence: &[u8],
    bytes: &[u8],
    operation: &str,
    deadline: Deadline,
) -> (r: StorageResult<()>)
    ensures
        (res_view(r), final(owners)@, final(transport).world()) == intent_run::<T>(
            old(owners)@,
            old(transport).world(),
            retries@,
            IntentNames { record: record@, index: index@, preconditions: sidecar@ },
            key@,
            evidence@,
            bytes@,
            operation@,
            deadline,
        ),
{
    match write_new_record(transport, owners, retries, sidecar, evidence, operation, deadline) {
        Err(error) => {
            return Err(error);
        },
        Ok(()) => {},
    }
    let name = key_name(key);
    let name_bytes = name.as_str().as_bytes();
    match write_new_record(transport, owners, retries, index, name_bytes, operation, deadline) {
        Err(error) => {
            return Err(error);
        },
        Ok(()) => {},
    }
    write_new_record(transport, owners, retries, record, bytes, operation, deadline)
}

/// Record a fresh intent in a resolved retry directory.
fn admit_in<T: RawTransport>(
    transport: &mut T,
    owners: &mut OpenOwnerRegistry,
    retries: &PinnedObject,
    context: &RequestContext,
    encoded: Result<Vec<u8>, String>,
    preconditions: Result<Vec<u8>, String>,
    operation: &str,
    deadline: Deadline,
) -> (r: StorageResult<()>)
    ensures
        (res_view(r), final(owners)@, final(transport).world()) == admit_in_run::<T>(
            old(owners)@,
            old(transport).world(),
            retries@,
            context@,
            res_view(encoded),
            res_view(preconditions),
            operation@,
            deadline,
        ),
{
    let record = match layout_component(key_name(&context.idempotency_key).as_str()) {
        Ok(name) => name,
        Err(error) => {
            return Err(error);
        },
    };
    let index = match layout_component(operation_name(context.operation_id).as_str()) {
        Ok(name) => name,
        Err(error) => {
            return Err(error);
        },
    };
    // The operation id must be fresh too, or two keys would claim one operation.
    match read_record(transport, retries, &index, deadline) {
        Err(error) => {
            return Err(error);
        },
        Ok(Some(_)) => {
            return Err(
                UmbraError::new(
                    ErrorKind::InvalidInput,
                    operation,
                    "this operation id was already used under a different idempotency key",
                ),
            );
        },
        Ok(None) => {},
    }
    let bytes = match bounded(encoded, operation) {
        Ok(bytes) => bytes,
        Err(error) => {
            return Err(error);
        },
    };
    let sidecar = match layout_component(
        precondition_name(&context.idempotency_key).as_str(),
    ) {
        Ok(name) => name,
        Err(error) => {
            return Err(error);
        },
    };
    match preconditions {
        Err(reason) => Err(
            UmbraError::new(
                ErrorKind::InvalidState,
                operation,
                join("the preconditions could not be encoded: ", reason.as_str()).as_str(),
            ),
        ),
        Ok(evidence) => write_intent(
            transport,
            owners,
            retries,
            &record,
            &index,
            &sidecar,
            &context.idempotency_key,
            evidence.as_slice(),
            bytes.as_slice(),
            operation,
            deadline,
        ),
    }
}

/// Record a fresh intent, with its preconditions, before anything is dispatched.
///
/// `encoded` is the record of the request without an outcome. All three files are
/// created `GUARDED4`, so a racing contender is refused by the server rather than
/// by a local read.
pub fn admit_fresh<T: RawTransport>(
    transport: &mut T,
    owners: &mut OpenOwnerRegistry,
    private: &Anchor,
    request: &StorageRequest,
    encoded: Result<Vec<u8>, String>,
    preconditions: Result<Vec<u8>, String>,
    operation: &str,
    deadline: Deadline,
) -> (r: StorageResult<()>)
    ensures
        (res_view(r), final(owners)@, final(transport).world()) == admit_run::<T>(
            old(owners)@,
            old(transport).world(),
            private@.pin,
            request@.context,
            res_view(encoded),
            res_view(preconditions),
            operation@,
            deadline,
        ),
{
    match retries_directory(transport, private, deadline) {
        Err(error) => Err(error),
        Ok(retries) => admit_in(
            transport,
            owners,
            &retries,
            &request.context,
            encoded,
            preconditions,
            operation,
            deadline,
        ),
    }
}

/// A settled key answers from its record alone: nothing is sent and nothing is
/// observed.
pub proof fn a_settled_key_answers_from_its_record<T: RawTransport>(
    world: T::World,
    consulted: ConsultedView,
    request: StorageRequestView,
    outcome: Result<StorageResponseView, UmbraErrorView>,
    operation: Seq<char>,
    deadline: Deadline,
)
    requires
        consulted.record is Some,
    ensures
        lookup_run::<T>(
            world,
            consulted,
            request,
            Some(Ok(RetryRecordView { request, outcome: Some(outcome) })),
            operation,
            deadline,
        ) == (Ok::<LookupView, UmbraErrorView>(LookupView::Recorded(outcome)), world),
{
}

/// A key that was used for another request is refused, whatever came of that one.
pub proof fn a_key_serves_one_request_only<T: RawTransport>(
    world: T::World,
    consulted: ConsultedView,
    request: StorageRequestView,
    record: RetryRecordView,
    operation: Seq<char>,
    deadline: Deadline,
)
    requires
        consulted.record is Some,
        record.request != request,
    ensures
        lookup_run::<T>(
            world,
            consulted,
            request,
            Some(Ok(record)),
            operation,
            deadline,
        ).0 matches Err(error) && error.kind == ErrorKind::InvalidInput,
        lookup_run::<T>(world, consulted, request, Some(Ok(record)), operation, deadline).1
            == world,
{
}

/// A record too large to be read back whole is refused before any file is opened:
/// no open owner is spent.
pub proof fn an_oversized_record_opens_nothing<T: RawTransport>(
    owners: RegistryView,
    world: T::World,
    private: PinnedObjectView,
    context: RequestContextView,
    encoded: Seq<u8>,
    preconditions: Result<Seq<u8>, Seq<char>>,
    operation: Seq<char>,
    deadline: Deadline,
)
    requires
        encoded.len() > MAX_RECORD_BYTES,
    ensures
        admit_run::<T>(
            owners,
            world,
            private,
            context,
            Ok(encoded),
            preconditions,
            operation,
            deadline,
        ).0 is Err,
        admit_run::<T>(
            owners,
            world,
            private,
            context,
            Ok(encoded),
            preconditions,
            operation,
            deadline,
        ).1 == owners,
{
}

/// A record read whole begins with what was read of it so far, and no READ is sent
/// once the bound is reached.
pub proof fn a_record_is_read_in_order_and_within_its_bound<T: RawTransport>(
    world: T::World,
    handle: Seq<u8>,
    chunk: u32,
    data: Seq<u8>,
    deadline: Deadline,
)
    ensures
        record_from::<T>(world, handle, chunk, data, deadline).0 matches Ok(read) ==> data.len()
            <= read.len() && read.take(data.len() as int) == data && data.len()
            < MAX_RECORD_BYTES,
    decreases
            if data.len() < MAX_RECORD_BYTES {
                MAX_RECORD_BYTES - data.len()
            } else {
                0
            },
{
    if data.len() < MAX_RECORD_BYTES {
        let want = if chunk <= MAX_RECORD_BYTES - data.len() {
            chunk
        } else {
            (MAX_RECORD_BYTES - data.len()) as u32
        };
        let call = read_call(handle, anonymous(), data.len() as u64, want);
        let after = T::after(world, call, deadline);
        if let Ok(reply) = read_answer(T::answer(world, call, deadline)) {
            let grown = data + reply.data;
            assert(grown.take(data.len() as int) =~= data);
            if !reply.eof && reply.data.len() > 0 {
                a_record_is_read_in_order_and_within_its_bound::<T>(
                    after,
                    handle,
                    chunk,
                    grown,
                    deadline,
                );
                if let Ok(read) = record_from::<T>(after, handle, chunk, grown, deadline).0 {
                    assert(read.take(data.len() as int) =~= grown.take(data.len() as int));
                }
            }
        }
    }
}

} // verus!
