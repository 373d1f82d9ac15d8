//! Who owns an outstanding PDU, and therefore who may free it.
//!
//! Cancelling a PDU the RPC library has already freed is undefined behaviour, not
//! a no-op. The library frees a PDU once its completion ran, and it frees every
//! outstanding PDU when the connection is lost. A generation counter accounts for
//! the second: every dispatch records the generation it was queued in, and a
//! connection-wide disposal moves the generation on.
use vstd::prelude::*;

verus! {

/// Monotonic count of connection-wide PDU disposals.
#[derive(Clone, Copy, Debug, PartialEq, Eq, PartialOrd, Ord, Structural)]
pub struct DisposalGeneration {
    count: u64,
}

impl View for DisposalGeneration {
    type V = nat;

    closed spec fn view(&self) -> nat {
        self.count as nat
    }
}

impl DisposalGeneration {
    /// The generation a freshly connected context starts in.
    pub fn start() -> (r: Self)
        ensures
            r@ == 0,
    {
        DisposalGeneration { count: 0 }
    }

    /// Record that every PDU outstanding on the context has been disposed of.
    ///
    /// Saturating rather than wrapping: one increment per connection loss does not
    /// reach the ceiling.
    #[must_use]
    pub fn disposed(self) -> (r: Self)
        ensures
            r@ == (if self@ == u64::MAX {
                self@
            } else {
                self@ + 1
            }),
    {
        DisposalGeneration { count: self.count.saturating_add(1) }
    }

    /// The raw count, for diagnostics.
    #[must_use]
    pub fn get(self) -> (r: u64)
        ensures
            r == self@,
    {
        self.count
    }
}

impl Default for DisposalGeneration {
    fn default() -> (r: Self)
        ensures
            r@ == 0,
    {
        DisposalGeneration { count: 0 }
    }
}

/// Who owns a dispatched call's PDU right now.
#[derive(Clone, Copy, Debug, PartialEq, Eq, Structural)]
pub enum Ownership {
    /// The RPC library still holds it and it may be cancelled exactly once.
    Cancellable,
    /// The RPC library has freed it. The pointer must never be handed back.
    Freed,
}

/// Who owns a PDU queued in generation `queued_in` when `current` is in force.
pub open spec fn owner_of(queued_in: nat, current: nat, completion_seen: bool) -> Ownership {
    if completion_seen || queued_in != current {
        Ownership::Freed
    } else {
        Ownership::Cancellable
    }
}

/// Decide whether a slot's PDU may still be cancelled.
#[must_use]
pub fn ownership(
    queued_in: DisposalGeneration,
    current: DisposalGeneration,
    completion_seen: bool,
) -> (r: Ownership)
    ensures
        r == owner_of(queued_in@, current@, completion_seen),
{
    if completion_seen {
        // The callback ran, so the library is done with this PDU.
        return Ownership::Freed;
    }
    if queued_in.count != current.count {
        // A connection-wide disposal happened after this call was queued.
        return Ownership::Freed;
    }
    Ownership::Cancellable
}

/// One disposal makes every call queued before it uncancellable, and it stays so
/// in every later generation.
pub proof fn a_disposal_covers_every_outstanding_call(queued_in: nat, current: nat, seen: bool)
    requires
        queued_in < current,
    ensures
        owner_of(queued_in, current, seen) is Freed,
{
}

/// A call whose completion was observed is never cancelled, in any generation.
pub proof fn a_completed_call_is_never_cancelled(queued_in: nat, current: nat)
    ensures
        owner_of(queued_in, current, true) is Freed,
{
}

} // verus!
