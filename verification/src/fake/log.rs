//! An in-memory replay ledger.
use vstd::prelude::*;

use crate::assoc::{as_many, dropped, found, has_key, pushed, replaced, to_map, unique};
use crate::contract::{IdempotencyKey, OperationId};
use crate::error::ReplayError;
use crate::replay::{
    ledger_pressure, retained_len, would_exceed, Admission, Backpressure, Ledger, ReplayBudget,
    ReplayIntent, ReplayLog, ReplayOutcome, ReplayRecord, ReplayRecordView, VerifierMatch,
};
use crate::transport::WriteVerifier;

verus! {

#[derive(Debug)]
struct OperationEntry {
    operation: OperationId,
    key: IdempotencyKey,
}

#[derive(Debug)]
struct VerifierEntry {
    key: IdempotencyKey,
    verifier: WriteVerifier,
}

#[derive(Debug)]
struct LogState {
    records: Vec<ReplayRecord>,
    operations: Vec<OperationEntry>,
    verifiers: Vec<VerifierEntry>,
    payload_bytes: u64,
    budget: ReplayBudget,
}

/// An in-memory [`ReplayLog`].
///
/// Records are held in memory, so the errors it retains are marked non-durable.
#[derive(Debug)]
pub struct FakeReplayLog {
    state: LogState,
}

impl LogState {
    spec fn record_pairs(&self) -> Seq<(Seq<char>, ReplayRecordView)> {
        Seq::new(self.records@.len(), |i: int| (self.records@[i].intent.key@, self.records@[i]@))
    }

    spec fn operation_pairs(&self) -> Seq<(OperationId, Seq<char>)> {
        Seq::new(
            self.operations@.len(),
            |i: int| (self.operations@[i].operation, self.operations@[i].key@),
        )
    }

    spec fn verifier_pairs(&self) -> Seq<(Seq<char>, WriteVerifier)> {
        Seq::new(
            self.verifiers@.len(),
            |i: int| (self.verifiers@[i].key@, self.verifiers@[i].verifier),
        )
    }

    spec fn wf(&self) -> bool {
        unique(self.record_pairs()) && unique(self.operation_pairs()) && unique(
            self.verifier_pairs(),
        )
    }

    spec fn ledger(&self) -> Ledger {
        Ledger {
            records: to_map(self.record_pairs()),
            operations: to_map(self.operation_pairs()),
            verifiers: to_map(self.verifier_pairs()),
            payload_bytes: self.payload_bytes,
            budget: self.budget,
        }
    }

    fn empty(budget: ReplayBudget) -> (r: Self)
        ensures
            r.wf(),
            r.ledger() == (Ledger {
                records: Map::empty(),
                operations: Map::empty(),
                verifiers: Map::empty(),
                payload_bytes: 0,
                budget,
            }),
    {
        let r = LogState {
            records: Vec::new(),
            operations: Vec::new(),
            verifiers: Vec::new(),
            payload_bytes: 0,
            budget,
        };
        proof {
            assert(to_map(r.record_pairs()) =~= Map::empty());
            assert(to_map(r.operation_pairs()) =~= Map::empty());
            assert(to_map(r.verifier_pairs()) =~= Map::empty());
        }
        r
    }

    fn find_record(&self, key: &IdempotencyKey) -> (r: Option<usize>)
        requires
            self.wf(),
        ensures
            match r {
                Some(i) => i < self.records@.len() && self.record_pairs()[i as int].0 == key@
                    && self.ledger().records.contains_key(key@) && self.ledger().records[key@]
                    == self.records@[i as int]@,
                None => !has_key(self.record_pairs(), key@)
                    && !self.ledger().records.contains_key(key@),
            },
    {
        let ghost pairs = self.record_pairs();
        let mut i: usize = 0;
        while i < self.records.len()
            invariant
                i <= self.records@.len(),
                pairs == self.record_pairs(),
                unique(pairs),
                forall|j: int| 0 <= j < i ==> (#[trigger] pairs[j]).0 != key@,
            decreases self.records@.len() - i,
        {
            if self.records[i].intent.key.same(key) {
                proof {
                    assert(pairs[i as int].0 == key@);
                    found(pairs, i as int);
                }
                return Some(i);
            }
            proof {
                assert(pairs[i as int].0 != key@);
            }
            i += 1;
        }
        None
    }

    fn find_operation(&self, operation: &OperationId) -> (r: Option<usize>)
        requires
            self.wf(),
        ensures
            match r {
                Some(i) => i < self.operations@.len() && self.operation_pairs()[i as int].0
                    == *operation && self.ledger().operations.contains_key(*operation)
                    && self.ledger().operations[*operation] == self.operations@[i as int].key@,
                None => !has_key(self.operation_pairs(), *operation)
                    && !self.ledger().operations.contains_key(*operation),
            },
    {
        let ghost pairs = self.operation_pairs();
        let mut i: usize = 0;
        while i < self.operations.len()
            invariant
                i <= self.operations@.len(),
                pairs == self.operation_pairs(),
                unique(pairs),
                forall|j: int| 0 <= j < i ==> (#[trigger] pairs[j]).0 != *operation,
            decreases self.operations@.len() - i,
        {
            if self.operations[i].operation.same(operation) {
                proof {
                    assert(pairs[i as int].0 == *operation);
                    found(pairs, i as int);
                }
                return Some(i);
            }
            proof {
                assert(pairs[i as int].0 != *operation);
            }
            i += 1;
        }
        None
    }

    fn find_verifier(&self, key: &IdempotencyKey) -> (r: Option<usize>)
        requires
            self.wf(),
        ensures
            match r {
                Some(i) => i < self.verifiers@.len() && self.verifier_pairs()[i as int].0 == key@
                    && self.ledger().verifiers.contains_key(key@) && self.ledger().verifiers[key@]
                    == self.verifiers@[i as int].verifier,
                None => !has_key(self.verifier_pairs(), key@)
                    && !self.ledger().verifiers.contains_key(key@),
            },
    {
        let ghost pairs = self.verifier_pairs();
        let mut i: usize = 0;
        while i < self.verifiers.len()
            invariant
                i <= self.verifiers@.len(),
                pairs == self.verifier_pairs(),
                unique(pairs),
                forall|j: int| 0 <= j < i ==> (#[trigger] pairs[j]).0 != key@,
            decreases self.verifiers@.len() - i,
        {
            if self.verifiers[i].key.same(key) {
                proof {
                    assert(pairs[i as int].0 == key@);
                    found(pairs, i as int);
                }
                return Some(i);
            }
            proof {
                assert(pairs[i as int].0 != key@);
            }
            i += 1;
        }
        None
    }

    fn pressure(&self) -> (r: Backpressure)
        requires
            self.wf(),
        ensures
            r == ledger_pressure(self.ledger()),
            self.ledger().records.len() == self.records@.len(),
    {
        proof {
            as_many(self.record_pairs());
        }
        Backpressure {
            records: self.records.len() as u32,
            payload_bytes: self.payload_bytes,
            budget: self.budget,
        }
    }

    fn add_record(&mut self, intent: &ReplayIntent)
        requires
            old(self).wf(),
            !old(self).ledger().records.contains_key(intent@.key),
        ensures
            final(self).wf(),
            final(self).ledger() == (Ledger {
                records: old(self).ledger().records.insert(
                    intent@.key,
                    ReplayRecordView { intent: intent@, outcome: None },
                ),
                ..old(self).ledger()
            }),
    {
        let ghost pairs = self.record_pairs();
        let record = ReplayRecord { intent: intent.clone(), outcome: None };
        let ghost view = record@;
        self.records.push(record);
        proof {
            pushed(pairs, intent@.key, view);
            assert(self.record_pairs() =~= pairs.push((intent@.key, view)));
            assert(self.operation_pairs() =~= old(self).operation_pairs());
            assert(self.verifier_pairs() =~= old(self).verifier_pairs());
        }
    }

    fn add_operation(&mut self, operation: OperationId, key: &IdempotencyKey)
        requires
            old(self).wf(),
        ensures
            final(self).wf(),
            final(self).ledger() == (Ledger {
                operations: old(self).ledger().operations.insert(operation, key@),
                ..old(self).ledger()
            }),
    {
        let ghost pairs = self.operation_pairs();
        let slot = self.find_operation(&operation);
        let entry = OperationEntry { operation, key: key.clone() };
        match slot {
            Some(i) => {
                self.operations[i] = entry;
                proof {
                    replaced(pairs, i as int, key@);
                    assert(self.operation_pairs() =~= pairs.update(i as int, (operation, key@)));
                }
            },
            None => {
                self.operations.push(entry);
                proof {
                    pushed(pairs, operation, key@);
                    assert(self.operation_pairs() =~= pairs.push((operation, key@)));
                }
            },
        }
        proof {
            assert(self.record_pairs() =~= old(self).record_pairs());
            assert(self.verifier_pairs() =~= old(self).verifier_pairs());
        }
    }

    fn add_verifier(&mut self, key: &IdempotencyKey, verifier: WriteVerifier)
        requires
            old(self).wf(),
        ensures
            final(self).wf(),
            final(self).ledger() == (Ledger {
                verifiers: old(self).ledger().verifiers.insert(key@, verifier),
                ..old(self).ledger()
            }),
    {
        let ghost pairs = self.verifier_pairs();
        let slot = self.find_verifier(key);
        let entry = VerifierEntry { key: key.clone(), verifier };
        match slot {
            Some(i) => {
                self.verifiers[i] = entry;
                proof {
                    replaced(pairs, i as int, verifier);
                    assert(self.verifier_pairs() =~= pairs.update(i as int, (key@, verifier)));
                }
            },
            None => {
                self.verifiers.push(entry);
                proof {
                    pushed(pairs, key@, verifier);
                    assert(self.verifier_pairs() =~= pairs.push((key@, verifier)));
                }
            },
        }
        proof {
            assert(self.record_pairs() =~= old(self).record_pairs());
            assert(self.operation_pairs() =~= old(self).operation_pairs());
        }
    }

    fn settle(&mut self, at: usize, outcome: ReplayOutcome)
        requires
            old(self).wf(),
            at < old(self).records@.len(),
        ensures
            final(self).wf(),
            final(self).ledger() == (Ledger {
                records: old(self).ledger().records.insert(
                    old(self).record_pairs()[at as int].0,
                    ReplayRecordView {
                        intent: old(self).records@[at as int]@.intent,
                        outcome: Some(outcome@),
                    },
                ),
                ..old(self).ledger()
            }),
    {
        let ghost pairs = self.record_pairs();
        let record = &mut self.records[at];
        record.outcome = Some(outcome);
        proof {
            let view = self.records@[at as int]@;
            replaced(pairs, at as int, view);
            assert(self.record_pairs() =~= pairs.update(at as int, (pairs[at as int].0, view)));
            assert(self.operation_pairs() =~= old(self).operation_pairs());
            assert(self.verifier_pairs() =~= old(self).verifier_pairs());
        }
    }

    fn drop_record(&mut self, at: usize)
        requires
            old(self).wf(),
            at < old(self).records@.len(),
        ensures
            final(self).wf(),
            final(self).ledger() == (Ledger {
                records: old(self).ledger().records.remove(
                    old(self).record_pairs()[at as int].0,
                ),
                ..old(self).ledger()
            }),
    {
        let ghost pairs = self.record_pairs();
        let _gone = self.records.remove(at);
        proof {
            dropped(pairs, at as int);
            assert(self.record_pairs() =~= pairs.remove(at as int));
            assert(self.operation_pairs() =~= old(self).operation_pairs());
            assert(self.verifier_pairs() =~= old(self).verifier_pairs());
        }
    }

    fn drop_operation(&mut self, operation: &OperationId)
        requires
            old(self).wf(),
        ensures
            final(self).wf(),
            final(self).ledger() == (Ledger {
                operations: old(self).ledger().operations.remove(*operation),
                ..old(self).ledger()
            }),
    {
        let ghost pairs = self.operation_pairs();
        match self.find_operation(operation) {
            Some(i) => {
                let _gone = self.operations.remove(i);
                proof {
                    dropped(pairs, i as int);
                    assert(self.operation_pairs() =~= pairs.remove(i as int));
                }
            },
            None => {
                proof {
                    assert(old(self).ledger().operations.remove(*operation) =~= old(
                        self,
                    ).ledger().operations);
                }
            },
        }
        proof {
            assert(self.record_pairs() =~= old(self).record_pairs());
            assert(self.verifier_pairs() =~= old(self).verifier_pairs());
        }
    }

    fn drop_verifier(&mut self, key: &IdempotencyKey)
        requires
            old(self).wf(),
        ensures
            final(self).wf(),
            final(self).ledger() == (Ledger {
                verifiers: old(self).ledger().verifiers.remove(key@),
                ..old(self).ledger()
            }),
    {
        let ghost pairs = self.verifier_pairs();
        match self.find_verifier(key) {
            Some(i) => {
                let _gone = self.verifiers.remove(i);
                proof {
                    dropped(pairs, i as int);
                    assert(self.verifier_pairs() =~= pairs.remove(i as int));
                }
            },
            None => {
                proof {
                    assert(old(self).ledger().verifiers.remove(key@) =~= old(
                        self,
                    ).ledger().verifiers);
                }
            },
        }
        proof {
            assert(self.record_pairs() =~= old(self).record_pairs());
            assert(self.operation_pairs() =~= old(self).operation_pairs());
        }
    }
}

impl FakeReplayLog {
    #[verifier::type_invariant]
    spec fn well_formed(&self) -> bool {
        self.state.wf()
    }

    /// What this log holds.
    pub closed spec fn content(&self) -> Ledger {
        self.state.ledger()
    }

    /// A log with the supplied budget.
    pub fn new(budget: ReplayBudget) -> (r: Self)
        ensures
            r.content() == (Ledger {
                records: Map::empty(),
                operations: Map::empty(),
                verifiers: Map::empty(),
                payload_bytes: 0,
                budget,
            }),
    {
        FakeReplayLog { state: LogState::empty(budget) }
    }

    fn take_state(&mut self) -> (r: LogState)
        ensures
            r.wf(),
            r.ledger() == old(self).content(),
    {
        proof {
            use_type_invariant(&*self);
        }
        let mut state = LogState::empty(ReplayBudget { max_records: 0, max_payload_bytes: 0 });
        std::mem::swap(&mut self.state, &mut state);
        state
    }
}

impl Default for FakeReplayLog {
    fn default() -> (r: Self)
        ensures
            r.content() == (Ledger {
                records: Map::empty(),
                operations: Map::empty(),
                verifiers: Map::empty(),
                payload_bytes: 0,
                budget: ReplayBudget { max_records: 64, max_payload_bytes: 4194304 },
            }),
    {
        FakeReplayLog::new(ReplayBudget { max_records: 64, max_payload_bytes: 4194304 })
    }
}

impl ReplayLog for FakeReplayLog {
    open spec fn ledger(&self) -> Ledger {
        self.content()
    }

    fn admit_intent(&mut self, intent: &ReplayIntent) -> Result<Admission, ReplayError> {
        proof {
            use_type_invariant(&*self);
        }
        match self.state.find_record(&intent.key) {
            Some(i) => {
                let record = &self.state.records[i];
                if !record.intent.same(intent) {
                    return Err(ReplayError::KeyConflict);
                }
                return match &record.outcome {
                    Some(outcome) => Ok(Admission::Recorded(outcome.clone())),
                    None => Ok(Admission::Indeterminate),
                };
            },
            None => {},
        }
        if let Some(i) = self.state.find_operation(&intent.operation) {
            if !self.state.operations[i].key.same(&intent.key) {
                return Err(ReplayError::OperationReused);
            }
        }
        let cost: u64 = intent.payload.retained_len();
        let pressure = self.state.pressure();
        if cost > u64::MAX - pressure.payload_bytes || pressure.would_exceed(cost) {
            return Err(
                ReplayError::CapacityExhausted {
                    records: pressure.records,
                    bytes: pressure.payload_bytes,
                },
            );
        }
        let mut state = self.take_state();
        state.add_operation(intent.operation, &intent.key);
        state.payload_bytes = state.payload_bytes + cost;
        state.add_record(intent);
        self.state = state;
        Ok(Admission::Fresh)
    }

    fn record(&mut self, key: &IdempotencyKey, outcome: ReplayOutcome) -> Result<
        (),
        ReplayError,
    > {
        proof {
            use_type_invariant(&*self);
        }
        match self.state.find_record(key) {
            None => Err(ReplayError::Indeterminate),
            Some(i) => {
                if self.state.records[i].outcome.is_some() {
                    return Err(ReplayError::KeyConflict);
                }
                let mut state = self.take_state();
                match state.find_record(key) {
                    Some(at) => {
                        state.settle(at, outcome);
                    },
                    None => {},
                }
                self.state = state;
                Ok(())
            },
        }
    }

    fn get(&self, key: &IdempotencyKey) -> Option<&ReplayRecord> {
        proof {
            use_type_invariant(self);
        }
        match self.state.find_record(key) {
            Some(i) => Some(&self.state.records[i]),
            None => None,
        }
    }

    fn retire(&mut self, key: &IdempotencyKey) -> Result<(), ReplayError> {
        proof {
            use_type_invariant(&*self);
        }
        match self.state.find_record(key) {
            None => Err(ReplayError::Indeterminate),
            Some(i) => {
                if self.state.records[i].outcome.is_none() {
                    // An unsettled record is never dropped to make room.
                    return Err(ReplayError::Indeterminate);
                }
                let cost: u64 = self.state.records[i].intent.payload.retained_len();
                let operation = self.state.records[i].intent.operation;
                let mut state = self.take_state();
                match state.find_record(key) {
                    Some(at) => {
                        state.drop_record(at);
                    },
                    None => {},
                }
                state.payload_bytes = state.payload_bytes.saturating_sub(cost);
                state.drop_operation(&operation);
                state.drop_verifier(key);
                self.state = state;
                Ok(())
            },
        }
    }

    fn pressure(&self) -> Backpressure {
        proof {
            use_type_invariant(self);
        }
        self.state.pressure()
    }

    fn note_write_verifier(&mut self, key: &IdempotencyKey, verifier: WriteVerifier) {
        let mut state = self.take_state();
        state.add_verifier(key, verifier);
        self.state = state;
    }

    fn check_commit_verifier(&self, key: &IdempotencyKey, observed: WriteVerifier) -> VerifierMatch {
        proof {
            use_type_invariant(self);
        }
        match self.state.find_verifier(key) {
            Some(i) => VerifierMatch::compare(Some(self.state.verifiers[i].verifier), observed),
            None => VerifierMatch::compare(None, observed),
        }
    }
}

} // verus!
