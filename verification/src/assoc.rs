//! Association lists and the maps they stand for.
use vstd::prelude::*;

verus! {

/// Whether no key occurs twice.
pub open spec fn unique<K, V>(pairs: Seq<(K, V)>) -> bool {
    forall|i: int, j: int|
        0 <= i < j < pairs.len() ==> (#[trigger] pairs[i]).0 != (#[trigger] pairs[j]).0
}

/// Whether `key` occurs.
pub open spec fn has_key<K, V>(pairs: Seq<(K, V)>, key: K) -> bool {
    exists|i: int| 0 <= i < pairs.len() && (#[trigger] pairs[i]).0 == key
}

/// The map a list of pairs stands for.
pub open spec fn to_map<K, V>(pairs: Seq<(K, V)>) -> Map<K, V> {
    Map::new(
        |key: K| has_key(pairs, key),
        |key: K| pairs[choose|i: int| 0 <= i < pairs.len() && (#[trigger] pairs[i]).0 == key].1,
    )
}

/// A pair in the list is in the map.
pub proof fn found<K, V>(pairs: Seq<(K, V)>, at: int)
    requires
        unique(pairs),
        0 <= at < pairs.len(),
    ensures
        to_map(pairs).contains_key(pairs[at].0),
        to_map(pairs)[pairs[at].0] == pairs[at].1,
{
    assert(has_key(pairs, pairs[at].0));
    let other = choose|i: int| 0 <= i < pairs.len() && (#[trigger] pairs[i]).0 == pairs[at].0;
    if other < at {
        assert(pairs[other].0 != pairs[at].0);
    } else if at < other {
        assert(pairs[at].0 != pairs[other].0);
    }
}

/// Appending a pair with a new key inserts it.
pub proof fn pushed<K, V>(pairs: Seq<(K, V)>, key: K, value: V)
    requires
        unique(pairs),
        !has_key(pairs, key),
    ensures
        unique(pairs.push((key, value))),
        to_map(pairs.push((key, value))) == to_map(pairs).insert(key, value),
{
    let after = pairs.push((key, value));
    assert forall|i: int, j: int| 0 <= i < j < after.len() implies (#[trigger] after[i]).0 != (
    #[trigger] after[j]).0 by {
        assert(after[i] == pairs[i]);
        if j < pairs.len() {
            assert(after[j] == pairs[j]);
        }
    }
    assert forall|k: K| #[trigger]
        to_map(after).contains_key(k) == to_map(pairs).insert(key, value).contains_key(k) by {
        if has_key(pairs, k) {
            let i = choose|i: int| 0 <= i < pairs.len() && (#[trigger] pairs[i]).0 == k;
            assert(after[i].0 == k);
        }
        if k == key {
            assert(after[pairs.len() as int].0 == k);
        }
        if has_key(after, k) && k != key {
            let i = choose|i: int| 0 <= i < after.len() && (#[trigger] after[i]).0 == k;
            assert(pairs[i].0 == k);
        }
    }
    assert forall|k: K| #[trigger] to_map(after).contains_key(k) implies to_map(after)[k] == to_map(
        pairs,
    ).insert(key, value)[k] by {
        let i = choose|i: int| 0 <= i < after.len() && (#[trigger] after[i]).0 == k;
        found(after, i);
        if i < pairs.len() {
            assert(after[i] == pairs[i]);
            found(pairs, i);
        }
    }
    assert(to_map(after) =~= to_map(pairs).insert(key, value));
}

/// Replacing the pair of a key replaces its value.
pub proof fn replaced<K, V>(pairs: Seq<(K, V)>, at: int, value: V)
    requires
        unique(pairs),
        0 <= at < pairs.len(),
    ensures
        unique(pairs.update(at, (pairs[at].0, value))),
        to_map(pairs.update(at, (pairs[at].0, value))) == to_map(pairs).insert(
            pairs[at].0,
            value,
        ),
{
    let key = pairs[at].0;
    let after = pairs.update(at, (key, value));
    assert forall|i: int, j: int| 0 <= i < j < after.len() implies (#[trigger] after[i]).0 != (
    #[trigger] after[j]).0 by {
        assert(pairs[i].0 != pairs[j].0);
    }
    assert forall|k: K| #[trigger]
        to_map(after).contains_key(k) == to_map(pairs).insert(key, value).contains_key(k) by {
        if has_key(pairs, k) {
            let i = choose|i: int| 0 <= i < pairs.len() && (#[trigger] pairs[i]).0 == k;
            assert(after[i].0 == k);
        }
        if k == key {
            assert(after[at].0 == k);
        }
        if has_key(after, k) {
            let i = choose|i: int| 0 <= i < after.len() && (#[trigger] after[i]).0 == k;
            assert(pairs[i].0 == k);
        }
    }
    assert forall|k: K| #[trigger] to_map(after).contains_key(k) implies to_map(after)[k] == to_map(
        pairs,
    ).insert(key, value)[k] by {
        let i = choose|i: int| 0 <= i < after.len() && (#[trigger] after[i]).0 == k;
        found(after, i);
        found(pairs, i);
    }
    assert(to_map(after) =~= to_map(pairs).insert(key, value));
}

/// Dropping the pair of a key removes it.
pub proof fn dropped<K, V>(pairs: Seq<(K, V)>, at: int)
    requires
        unique(pairs),
        0 <= at < pairs.len(),
    ensures
        unique(pairs.remove(at)),
        to_map(pairs.remove(at)) == to_map(pairs).remove(pairs[at].0),
{
    let key = pairs[at].0;
    let after = pairs.remove(at);
    let back = |i: int| if i < at {
        i
    } else {
        i + 1
    };
    assert forall|i: int, j: int| 0 <= i < j < after.len() implies (#[trigger] after[i]).0 != (
    #[trigger] after[j]).0 by {
        assert(pairs[back(i)].0 != pairs[back(j)].0);
    }
    assert forall|k: K| #[trigger]
        to_map(after).contains_key(k) == to_map(pairs).remove(key).contains_key(k) by {
        if has_key(pairs, k) && k != key {
            let i = choose|i: int| 0 <= i < pairs.len() && (#[trigger] pairs[i]).0 == k;
            let there = if i < at {
                i
            } else {
                i - 1
            };
            assert(after[there].0 == k);
        }
        if has_key(after, k) {
            let i = choose|i: int| 0 <= i < after.len() && (#[trigger] after[i]).0 == k;
            assert(pairs[back(i)].0 == k);
            if back(i) < at {
                assert(pairs[back(i)].0 != pairs[at].0);
            } else {
                assert(pairs[at].0 != pairs[back(i)].0);
            }
        }
    }
    assert forall|k: K| #[trigger] to_map(after).contains_key(k) implies to_map(after)[k] == to_map(
        pairs,
    ).remove(key)[k] by {
        let i = choose|i: int| 0 <= i < after.len() && (#[trigger] after[i]).0 == k;
        found(after, i);
        found(pairs, back(i));
        assert(after[i] == pairs[back(i)]);
    }
    assert(to_map(after) =~= to_map(pairs).remove(key));
}

/// A list without repeated keys is as long as its map is large.
pub proof fn as_many<K, V>(pairs: Seq<(K, V)>)
    requires
        unique(pairs),
    ensures
        to_map(pairs).dom().finite(),
        to_map(pairs).len() == pairs.len(),
    decreases pairs.len(),
{
    if pairs.len() == 0 {
        assert(to_map(pairs).dom() =~= Set::empty());
    } else {
        let rest = pairs.drop_last();
        assert forall|i: int, j: int| 0 <= i < j < rest.len() implies (#[trigger] rest[i]).0 != (
        #[trigger] rest[j]).0 by {
            assert(pairs[i].0 != pairs[j].0);
        }
        if has_key(rest, pairs.last().0) {
            let i = choose|i: int| 0 <= i < rest.len() && (#[trigger] rest[i]).0 == pairs.last().0;
            assert(pairs[i].0 != pairs[pairs.len() - 1].0);
        }
        as_many(rest);
        pushed(rest, pairs.last().0, pairs.last().1);
        assert(rest.push((pairs.last().0, pairs.last().1)) =~= pairs);
        assert(to_map(pairs).dom() =~= to_map(rest).dom().insert(pairs.last().0));
    }
}

} // verus!
