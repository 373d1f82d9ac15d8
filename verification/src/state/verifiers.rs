//! Write and create verifier accounting.
use vstd::prelude::*;

use crate::contract::{IdempotencyKey, OperationId};
use crate::replay::{noted_verifier, verifier_match, Ledger, ReplayLog, VerifierMatch};
use crate::transport::{CommitReply, Stability, Verifier, WriteReply, WriteVerifier};

verus! {

/// What one WRITE achieved.
#[derive(Clone, Copy, Debug, PartialEq, Eq)]
pub struct WriteRecord {
    /// Bytes the server accepted.
    pub count: u32,
    /// Stability the server reached.
    pub committed: Stability,
    /// Verifier the server returned.
    pub verifier: WriteVerifier,
}

/// The record of a WRITE reply.
pub open spec fn record_of(reply: WriteReply) -> WriteRecord {
    WriteRecord { count: reply.count, committed: reply.committed, verifier: reply.verifier }
}

/// Whether a write still owes a COMMIT before it is durable.
pub open spec fn owes_commit(record: WriteRecord) -> bool {
    record.committed == Stability::Unstable
}

impl WriteRecord {
    /// The record of a WRITE reply.
    pub fn from_reply(reply: &WriteReply) -> (r: Self)
        ensures
            r == record_of(*reply),
    {
        WriteRecord { count: reply.count, committed: reply.committed, verifier: reply.verifier }
    }

    /// Whether this write still owes a COMMIT before it is durable.
    pub fn needs_commit(&self) -> (r: bool)
        ensures
            r == owes_commit(*self),
    {
        self.committed == Stability::Unstable
    }

    /// Whether the server accepted fewer bytes than were offered.
    pub fn is_short(&self, requested: usize) -> (r: bool)
        ensures
            r == (self.count < requested),
    {
        (self.count as u64) < requested as u64
    }
}

/// The ledger after a write is noted: a verifier is recorded only for a write that
/// owes a COMMIT.
pub open spec fn after_note(ledger: Ledger, key: Seq<char>, record: WriteRecord) -> Ledger {
    if owes_commit(record) {
        Ledger { verifiers: ledger.verifiers.insert(key, record.verifier), ..ledger }
    } else {
        ledger
    }
}

/// Note the verifier of a write that owes a COMMIT, and report whether it did.
pub fn note_write<L: ReplayLog>(replay: &mut L, key: &IdempotencyKey, record: &WriteRecord) -> (r:
    bool)
    ensures
        r == owes_commit(*record),
        final(replay).ledger() == after_note(old(replay).ledger(), key@, *record),
{
    if record.needs_commit() {
        replay.note_write_verifier(key, record.verifier);
        true
    } else {
        false
    }
}

/// Compare a COMMIT's verifier with the one noted for `key`.
pub fn check_commit<L: ReplayLog>(replay: &L, key: &IdempotencyKey, reply: &CommitReply) -> (r:
    VerifierMatch)
    ensures
        r == verifier_match(noted_verifier(replay.ledger(), key@), reply.verifier),
{
    replay.check_commit_verifier(key, reply.verifier)
}

/// The bytes of the create verifier of an operation: the two halves of its
/// identity, folded.
pub open spec fn folded(operation: OperationId) -> Seq<u8> {
    Seq::new(8, |i: int| operation.0@[i] ^ operation.0@[i + 8])
}

/// The create verifier of an operation. It survives the crash that made a retry
/// necessary, because it is derived from the operation's identity alone.
pub fn create_verifier_for(operation: OperationId) -> (r: Verifier)
    ensures
        r.0@ == folded(operation),
{
    let mut bytes: [u8; 8] = [0u8; 8];
    let mut i: usize = 0;
    while i < 8
        invariant
            i <= 8,
            forall|j: int| 0 <= j < i ==> bytes@[j] == operation.0@[j] ^ operation.0@[j + 8],
        decreases 8 - i,
    {
        bytes[i] = operation.0[i] ^ operation.0[i + 8];
        i += 1;
    }
    proof {
        assert(bytes@ =~= folded(operation));
    }
    Verifier(bytes)
}

} // verus!
