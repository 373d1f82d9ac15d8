//! What a recovery plan does with each key.
use vstd::prelude::*;

use crate::authority::admission::AdmittedView;
use crate::error::{FacadeErrorView, ReplayError};
use crate::replay::{IntentKindView, Ledger, PayloadView, ReplayRecordView};

use super::{
    begin_run, plan_of, standing_of, AcknowledgedView, JournalView, KeyStandingView,
    MutationRequestView,
};

verus! {

/// Whether an intent without an outcome can be driven again: a write with its bytes, a
/// commit, or a create the server recognises. A change of the namespace cannot.
pub open spec fn can_be_driven_again(record: ReplayRecordView) -> bool {
    match record.intent.kind {
        IntentKindView::Write { .. } => record.intent.payload is Inline,
        IntentKindView::Commit { .. } => true,
        IntentKindView::ExclusiveCreate { .. } => true,
        IntentKindView::Namespace { .. } => false,
    }
}

/// A key is settled exactly when its record has an outcome, and that outcome is what
/// stands; it is replayable exactly when it has a record without one that can be driven
/// again; otherwise it is blocked, on a missing payload exactly where that is what it
/// lacks.
pub proof fn a_key_stands_exactly_as_recorded(ledger: Ledger, key: Seq<char>)
    ensures
        ({
            let standing = standing_of(ledger, key);
            let known = ledger.records.contains_key(key);
            let record = ledger.records[key];
            &&& standing is Settled <==> known && record.outcome is Some
            &&& standing matches KeyStandingView::Settled(outcome) ==> record.outcome == Some(
                outcome,
            )
            &&& standing is Replayable <==> known && record.outcome is None
                && can_be_driven_again(record)
            &&& standing == KeyStandingView::Blocked(
                FacadeErrorView::Replay(ReplayError::PayloadMissing),
            ) <==> known && record.outcome is None && record.intent.kind is Write && !(
            record.intent.payload is Inline)
            &&& standing == KeyStandingView::Blocked(
                FacadeErrorView::Replay(ReplayError::Indeterminate),
            ) <==> !known || record.outcome is None && record.intent.kind is Namespace
        }),
{
}

/// The keys of `keys` that stand in one way, in the order they came.
pub open spec fn those(
    keys: Seq<Seq<char>>,
    wanted: spec_fn(Seq<char>) -> bool,
) -> Seq<Seq<char>>
    decreases keys.len(),
{
    if keys.len() == 0 {
        Seq::empty()
    } else {
        let before = those(keys.drop_last(), wanted);
        if wanted(keys.last()) {
            before.push(keys.last())
        } else {
            before
        }
    }
}

/// The keys a plan blocks.
pub open spec fn blocked_keys(blocked: Seq<(Seq<char>, FacadeErrorView)>) -> Seq<Seq<char>> {
    Seq::new(blocked.len(), |i: int| blocked[i].0)
}

/// A plan over no more keys than the ledger could hold puts each key where it stands, in
/// the order they came: the settled ones, those that can be driven again, and the rest.
pub proof fn a_plan_puts_every_key_where_it_stands(ledger: Ledger, keys: Seq<Seq<char>>)
    requires
        keys.len() <= ledger.budget.max_records,
    ensures
        ({
            let plan = plan_of(ledger, keys);
            let settled = |key: Seq<char>|
                ledger.records.contains_key(key) && ledger.records[key].outcome is Some;
            let replayable = |key: Seq<char>|
                ledger.records.contains_key(key) && ledger.records[key].outcome is None
                    && can_be_driven_again(ledger.records[key]);
            &&& plan.settled == those(keys, settled)
            &&& plan.replayable == those(keys, replayable)
            &&& blocked_keys(plan.blocked) == those(
                keys,
                |key: Seq<char>| !settled(key) && !replayable(key),
            )
        }),
    decreases keys.len(),
{
    let settled = |key: Seq<char>|
        ledger.records.contains_key(key) && ledger.records[key].outcome is Some;
    let replayable = |key: Seq<char>|
        ledger.records.contains_key(key) && ledger.records[key].outcome is None
            && can_be_driven_again(ledger.records[key]);
    let rest = |key: Seq<char>| !settled(key) && !replayable(key);
    let plan = plan_of(ledger, keys);
    if keys.len() > 0 {
        a_plan_puts_every_key_where_it_stands(ledger, keys.drop_last());
        let before = plan_of(ledger, keys.drop_last());
        assert(blocked_keys(plan.blocked) =~= if rest(keys.last()) {
            blocked_keys(before.blocked).push(keys.last())
        } else {
            blocked_keys(before.blocked)
        });
    } else {
        assert(blocked_keys(plan.blocked) =~= Seq::empty());
    }
    assert(blocked_keys(plan.blocked) == those(keys, rest));
}

/// A session may dispatch exactly where it is admitted to the run the journal records,
/// the key is unknown, its operation goes by no other key, and there is room. What it
/// then dispatches is what it asked for.
pub proof fn a_request_is_dispatched_exactly_when(
    journal: JournalView,
    admitted: AdmittedView,
    request: MutationRequestView,
)
    ensures
        ({
            let (answer, after) = begin_run(journal, admitted, request);
            let ledger = journal.ledger;
            let bytes = match request.payload {
                PayloadView::Inline(bytes) => bytes.len(),
                _ => 0,
            };
            &&& (answer matches Ok(done) && done is Dispatch) <==> {
                &&& admitted.run == journal.run
                &&& !ledger.records.contains_key(request.key)
                &&& ledger.operations.contains_key(request.operation)
                    ==> ledger.operations[request.operation] == request.key
                &&& ledger.budget.max_records > ledger.records.len() as u32
                &&& ledger.payload_bytes + bytes <= ledger.budget.max_payload_bytes
            }
            &&& answer matches Ok(AcknowledgedView::Dispatch(ticket)) ==> {
                let intent = after.ledger.records[request.key].intent;
                &&& ticket.key == request.key && intent.key == request.key
                &&& ticket.operation == request.operation && intent.operation
                    == request.operation
                &&& intent.kind == request.kind && intent.payload == request.payload
                &&& intent.run_id == journal.run && intent.epoch == admitted.epoch
                &&& after.keys == journal.keys.insert(request.key)
            }
            &&& answer matches Ok(AcknowledgedView::Replayed(outcome)) ==> {
                &&& ledger.records.contains_key(request.key)
                &&& ledger.records[request.key].outcome == Some(outcome)
                &&& after == journal
            }
        }),
{
}

} // verus!
