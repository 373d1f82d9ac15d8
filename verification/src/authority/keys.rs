//! An ordered set of idempotency keys.
use vstd::prelude::*;

use crate::bytes::{
    comes_before, precedes, precedes_irreflexive, precedes_total, precedes_transitive,
};
use crate::contract::{seq_view, IdempotencyKey};

verus! {

/// The bytes a key is ordered by.
pub open spec fn key_bytes(key: Seq<char>) -> Seq<u8> {
    vstd::utf8::encode_utf8(key)
}

/// Whether keys stand in strictly rising order.
pub open spec fn rising(keys: Seq<Seq<char>>) -> bool {
    forall|i: int, j: int|
        0 <= i < j < keys.len() ==> precedes(
            key_bytes(#[trigger] keys[i]),
            key_bytes(#[trigger] keys[j]),
        )
}

/// A set of idempotency keys, kept in key order.
#[derive(Debug)]
pub struct KeySet {
    items: Vec<IdempotencyKey>,
}

impl View for KeySet {
    type V = Set<Seq<char>>;

    closed spec fn view(&self) -> Set<Seq<char>> {
        seq_view(self.items@).to_set()
    }
}

/// Where a key stands in a rising sequence, or would.
struct Place {
    at: usize,
    present: bool,
}

proof fn distinct_keys_have_distinct_bytes(a: Seq<char>, b: Seq<char>)
    requires
        key_bytes(a) == key_bytes(b),
    ensures
        a == b,
{
    vstd::utf8::encode_utf8_decode_utf8(a);
    vstd::utf8::encode_utf8_decode_utf8(b);
}

impl KeySet {
    #[verifier::type_invariant]
    closed spec fn ordered(&self) -> bool {
        rising(seq_view(self.items@))
    }

    /// No keys.
    pub fn new() -> (r: Self)
        ensures
            r@ == Set::<Seq<char>>::empty(),
    {
        let r = KeySet { items: Vec::new() };
        proof {
            assert(r@ =~= Set::<Seq<char>>::empty());
        }
        r
    }

    /// The keys, in key order.
    pub fn items(&self) -> (r: &Vec<IdempotencyKey>)
        ensures
            rising(seq_view(r@)),
            seq_view(r@).to_set() == self@,
    {
        proof {
            use_type_invariant(self);
        }
        &self.items
    }

    fn place(items: &Vec<IdempotencyKey>, key: &IdempotencyKey) -> (r: Place)
        requires
            rising(seq_view(items@)),
        ensures
            r.at <= items@.len(),
            forall|i: int|
                0 <= i < r.at ==> precedes(key_bytes(#[trigger] items@[i]@), key_bytes(key@)),
            r.present ==> r.at < items@.len() && items@[r.at as int]@ == key@,
            !r.present ==> forall|i: int|
                r.at <= i < items@.len() ==> precedes(
                    key_bytes(key@),
                    key_bytes(#[trigger] items@[i]@),
                ),
    {
        let mut at: usize = 0;
        while at < items.len() && comes_before(
            items[at].0.as_str().as_bytes(),
            key.0.as_str().as_bytes(),
        )
            invariant
                at <= items@.len(),
                forall|i: int|
                    0 <= i < at ==> precedes(key_bytes(#[trigger] items@[i]@), key_bytes(key@)),
            decreases items@.len() - at,
        {
            at += 1;
        }
        if at == items.len() {
            return Place { at, present: false };
        }
        let after = comes_before(key.0.as_str().as_bytes(), items[at].0.as_str().as_bytes());
        proof {
            let here = items@[at as int]@;
            precedes_total(key_bytes(here), key_bytes(key@));
            if !after {
                distinct_keys_have_distinct_bytes(here, key@);
            } else {
                assert forall|i: int| at <= i < items@.len() implies precedes(
                    key_bytes(key@),
                    key_bytes(#[trigger] items@[i]@),
                ) by {
                    if i > at {
                        let keys = seq_view(items@);
                        assert(precedes(key_bytes(keys[at as int]), key_bytes(keys[i])));
                        precedes_transitive(
                            key_bytes(key@),
                            key_bytes(here),
                            key_bytes(items@[i]@),
                        );
                    }
                }
            }
        }
        Place { at, present: !after }
    }

    /// Add a key.
    pub fn insert(&mut self, key: IdempotencyKey)
        ensures
            final(self)@ == old(self)@.insert(key@),
    {
        proof {
            use_type_invariant(&*self);
        }
        let place = KeySet::place(&self.items, &key);
        let ghost before = seq_view(self.items@);
        let ghost added = key@;
        if place.present {
            proof {
                assert(before[place.at as int] == added);
                assert(before.to_set().insert(added) =~= before.to_set());
            }
            return;
        }
        let mut items: Vec<IdempotencyKey> = Vec::new();
        std::mem::swap(&mut self.items, &mut items);
        items.insert(place.at, key);
        proof {
            let after = seq_view(items@);
            let at = place.at as int;
            assert(after =~= before.insert(at, added));
            assert(rising(after)) by {
                assert forall|i: int, j: int| 0 <= i < j < after.len() implies precedes(
                    key_bytes(#[trigger] after[i]),
                    key_bytes(#[trigger] after[j]),
                ) by {
                    let a = if i < at {
                        i
                    } else {
                        i - 1
                    };
                    let b = if j < at {
                        j
                    } else {
                        j - 1
                    };
                    if i != at && j != at {
                        assert(precedes(key_bytes(before[a]), key_bytes(before[b])));
                    }
                }
            }
            assert(after.to_set() =~= before.to_set().insert(added)) by {
                assert(after[at] == added);
                assert forall|k: Seq<char>| after.contains(k) == (before.contains(k) || k
                    == added) by {
                    if before.contains(k) {
                        let i = choose|i: int| 0 <= i < before.len() && before[i] == k;
                        let j = if i < at {
                            i
                        } else {
                            i + 1
                        };
                        assert(after[j] == k);
                    }
                    if after.contains(k) && k != added {
                        let i = choose|i: int| 0 <= i < after.len() && after[i] == k;
                        let j = if i < at {
                            i
                        } else {
                            i - 1
                        };
                        assert(before[j] == k);
                    }
                }
            }
        }
        self.items = items;
    }

    /// Drop a key.
    pub fn remove(&mut self, key: &IdempotencyKey)
        ensures
            final(self)@ == old(self)@.remove(key@),
    {
        proof {
            use_type_invariant(&*self);
        }
        let place = KeySet::place(&self.items, key);
        let ghost before = seq_view(self.items@);
        let ghost gone = key@;
        if !place.present {
            proof {
                assert(!before.contains(gone)) by {
                    if before.contains(gone) {
                        let i = choose|i: int| 0 <= i < before.len() && before[i] == gone;
                        assert(before[i] == self.items@[i]@);
                        precedes_irreflexive(key_bytes(gone));
                    }
                }
                assert(before.to_set().remove(gone) =~= before.to_set());
            }
            return;
        }
        let mut items: Vec<IdempotencyKey> = Vec::new();
        std::mem::swap(&mut self.items, &mut items);
        let _ = items.remove(place.at);
        proof {
            let after = seq_view(items@);
            let at = place.at as int;
            assert(after =~= before.remove(at));
            assert(rising(after)) by {
                assert forall|i: int, j: int| 0 <= i < j < after.len() implies precedes(
                    key_bytes(#[trigger] after[i]),
                    key_bytes(#[trigger] after[j]),
                ) by {
                    let a = if i < at {
                        i
                    } else {
                        i + 1
                    };
                    let b = if j < at {
                        j
                    } else {
                        j + 1
                    };
                    assert(precedes(key_bytes(before[a]), key_bytes(before[b])));
                }
            }
            assert(after.to_set() =~= before.to_set().remove(gone)) by {
                assert(before[at] == gone);
                assert forall|k: Seq<char>| after.contains(k) == (before.contains(k) && k
                    != gone) by {
                    if before.contains(k) && k != gone {
                        let i = choose|i: int| 0 <= i < before.len() && before[i] == k;
                        let j = if i < at {
                            i
                        } else {
                            i - 1
                        };
                        assert(after[j] == k);
                    }
                    if after.contains(k) {
                        let i = choose|i: int| 0 <= i < after.len() && after[i] == k;
                        let j = if i < at {
                            i
                        } else {
                            i + 1
                        };
                        assert(before[j] == k);
                        if k == gone {
                            precedes_irreflexive(key_bytes(gone));
                            if j < at {
                                assert(precedes(key_bytes(before[j]), key_bytes(before[at])));
                            } else {
                                assert(precedes(key_bytes(before[at]), key_bytes(before[j])));
                            }
                        }
                    }
                }
            }
        }
        self.items = items;
    }
}

} // verus!
