//! When the ledger admits, answers or refuses an intent, and what it keeps.
use vstd::prelude::*;

use super::{
    admit_answer, after_admit, after_record, after_retire, record_answer, retire_answer,
    AdmissionView, Ledger, PayloadView, ReplayError, ReplayIntentView, ReplayOutcomeView,
};

verus! {

/// How many bytes of an intent the ledger keeps: those it carries itself.
pub open spec fn carried_bytes(intent: ReplayIntentView) -> nat {
    match intent.payload {
        PayloadView::Inline(bytes) => bytes.len(),
        _ => 0,
    }
}

/// Whether the ledger has room for one more record with the bytes of `intent`.
pub open spec fn has_room(ledger: Ledger, intent: ReplayIntentView) -> bool {
    &&& ledger.budget.max_records > ledger.records.len() as u32
    &&& ledger.payload_bytes + carried_bytes(intent) <= ledger.budget.max_payload_bytes
}

/// Whether the operation of an intent already goes by another key.
pub open spec fn goes_by_another_key(ledger: Ledger, intent: ReplayIntentView) -> bool {
    ledger.operations.contains_key(intent.operation) && ledger.operations[intent.operation]
        != intent.key
}

/// An intent is fresh exactly when its key is unknown, its operation goes by no other
/// key and there is room; it is answered exactly when the very same intent was settled;
/// each refusal has its own reason.
pub proof fn an_intent_is_admitted_exactly_when(ledger: Ledger, intent: ReplayIntentView)
    ensures
        ({
            let answer = admit_answer(ledger, intent);
            let known = ledger.records.contains_key(intent.key);
            let record = ledger.records[intent.key];
            &&& answer == Ok::<AdmissionView, ReplayError>(AdmissionView::Fresh) <==> !known
                && !goes_by_another_key(ledger, intent) && has_room(ledger, intent)
            &&& (answer matches Ok(admission) && admission is Recorded) <==> known
                && record.intent == intent && record.outcome is Some
            &&& answer matches Ok(AdmissionView::Recorded(outcome)) ==> record.outcome == Some(
                outcome,
            )
            &&& answer == Ok::<AdmissionView, ReplayError>(AdmissionView::Indeterminate)
                <==> known && record.intent == intent && record.outcome is None
            &&& answer == Err::<AdmissionView, ReplayError>(ReplayError::KeyConflict)
                <==> known && record.intent != intent
            &&& answer == Err::<AdmissionView, ReplayError>(ReplayError::OperationReused)
                <==> !known && goes_by_another_key(ledger, intent)
            &&& (answer matches Err(error) && error is CapacityExhausted) <==> !known
                && !goes_by_another_key(ledger, intent) && !has_room(ledger, intent)
        }),
{
}

/// Admitting a fresh intent adds its record and nothing else: every other record, and
/// every other operation, stays as it was, and exactly its own bytes are charged.
pub proof fn an_admission_adds_one_record(ledger: Ledger, intent: ReplayIntentView)
    ensures
        ({
            let after = after_admit(ledger, intent);
            let fresh = admit_answer(ledger, intent) == Ok::<AdmissionView, ReplayError>(
                AdmissionView::Fresh,
            );
            &&& !fresh ==> after == ledger
            &&& fresh ==> {
                &&& after.records.dom() == ledger.records.dom().insert(intent.key)
                &&& after.records[intent.key].intent == intent
                &&& after.records[intent.key].outcome is None
                &&& after.operations.contains_key(intent.operation)
                &&& after.operations[intent.operation] == intent.key
                &&& after.payload_bytes == ledger.payload_bytes + carried_bytes(intent)
            }
            &&& after.budget == ledger.budget
            &&& after.verifiers == ledger.verifiers
            &&& forall|key: Seq<char>|
                ledger.records.contains_key(key) ==> after.records.contains_key(key)
                    && #[trigger] after.records[key] == ledger.records[key]
        }),
{
    assert(after_admit(ledger, intent).records.dom() =~= if admit_answer(ledger, intent) == Ok::<
        AdmissionView,
        ReplayError,
    >(AdmissionView::Fresh) {
        ledger.records.dom().insert(intent.key)
    } else {
        ledger.records.dom()
    });
}

/// Settling succeeds exactly for a record without an outcome. It gives that record the
/// outcome, keeps its intent, and touches no other.
pub proof fn a_record_is_settled_exactly_when(
    ledger: Ledger,
    key: Seq<char>,
    outcome: ReplayOutcomeView,
)
    ensures
        ({
            let after = after_record(ledger, key, outcome);
            let owed = ledger.records.contains_key(key) && ledger.records[key].outcome is None;
            &&& record_answer(ledger, key) is Ok <==> owed
            &&& !owed ==> after == ledger
            &&& owed ==> after.records[key].outcome == Some(outcome)
                && after.records[key].intent == ledger.records[key].intent
            &&& after.records.dom() == ledger.records.dom()
            &&& forall|other: Seq<char>|
                other != key && ledger.records.contains_key(other)
                    ==> #[trigger] after.records[other] == ledger.records[other]
            &&& after.payload_bytes == ledger.payload_bytes
            &&& after.operations == ledger.operations
        }),
{
    assert(after_record(ledger, key, outcome).records.dom() =~= ledger.records.dom());
}

/// Retiring succeeds exactly for a settled record. It removes that record and no other,
/// and frees its operation and its bytes, so that the same intent is fresh again
/// wherever there is room.
pub proof fn a_record_is_retired_exactly_when(ledger: Ledger, key: Seq<char>)
    ensures
        ({
            let after = after_retire(ledger, key);
            let settled = ledger.records.contains_key(key) && ledger.records[key].outcome is Some;
            let intent = ledger.records[key].intent;
            &&& retire_answer(ledger, key) is Ok <==> settled
            &&& !settled ==> after == ledger
            &&& settled ==> {
                &&& after.records.dom() == ledger.records.dom().remove(key)
                &&& !after.operations.contains_key(intent.operation)
                &&& !after.verifiers.contains_key(key)
                &&& ledger.payload_bytes >= carried_bytes(intent) ==> after.payload_bytes
                    == ledger.payload_bytes - carried_bytes(intent)
                &&& intent.key == key && has_room(after, intent) ==> admit_answer(after, intent)
                    == Ok::<AdmissionView, ReplayError>(AdmissionView::Fresh)
            }
            &&& forall|other: Seq<char>|
                other != key && ledger.records.contains_key(other)
                    ==> #[trigger] after.records[other] == ledger.records[other]
        }),
{
    if retire_answer(ledger, key) is Ok {
        assert(after_retire(ledger, key).records.dom() =~= ledger.records.dom().remove(key));
    }
}

} // verus!
