//! Byte strings: copying, comparing, ordering, searching and integer encodings.
use vstd::prelude::*;

verus! {

/// A copy of `source`.
pub fn copy_bytes(source: &[u8]) -> (r: Vec<u8>)
    ensures
        r@ == source@,
{
    let mut r: Vec<u8> = Vec::new();
    let mut i: usize = 0;
    while i < source.len()
        invariant
            i <= source.len(),
            r@ == source@.take(i as int),
        decreases source.len() - i,
    {
        r.push(source[i]);
        proof {
            assert(source@.take(i + 1) =~= source@.take(i as int).push(source@[i as int]));
        }
        i += 1;
    }
    proof {
        assert(source@.take(i as int) =~= source@);
    }
    r
}

/// Whether two byte strings hold the same bytes.
pub fn same_bytes(a: &[u8], b: &[u8]) -> (r: bool)
    ensures
        r == (a@ == b@),
{
    if a.len() != b.len() {
        return false;
    }
    let mut i: usize = 0;
    while i < a.len()
        invariant
            i <= a.len(),
            a.len() == b.len(),
            forall|j: int| 0 <= j < i ==> a@[j] == b@[j],
        decreases a.len() - i,
    {
        if a[i] != b[i] {
            return false;
        }
        i += 1;
    }
    proof {
        assert(a@ =~= b@);
    }
    true
}

/// 256 to the power `n`.
pub open spec fn radix(n: nat) -> nat
    decreases n,
{
    if n == 0 {
        1
    } else {
        256 * radix((n - 1) as nat)
    }
}

/// The low `n` base-256 digits of `x`, most significant first.
pub open spec fn be_bytes(x: nat, n: nat) -> Seq<u8>
    decreases n,
{
    if n == 0 {
        Seq::empty()
    } else {
        be_bytes(x / 256, (n - 1) as nat).push((x % 256) as u8)
    }
}

/// The number whose base-256 digits are `s`, most significant first.
pub open spec fn be_value(s: Seq<u8>) -> nat
    decreases s.len(),
{
    if s.len() == 0 {
        0
    } else {
        be_value(s.drop_last()) * 256 + s.last() as nat
    }
}

/// The low `n` base-256 digits of `x`, least significant first.
pub open spec fn le_bytes(x: nat, n: nat) -> Seq<u8> {
    be_bytes(x, n).reverse()
}

/// The number whose base-256 digits are `s`, least significant first.
pub open spec fn le_value(s: Seq<u8>) -> nat {
    be_value(s.reverse())
}

/// `n` digits are produced, and reading them back gives the number that was
/// written wherever it fits.
pub proof fn big_endian_round_trip(x: nat, n: nat)
    ensures
        be_bytes(x, n).len() == n,
        x < radix(n) ==> be_value(be_bytes(x, n)) == x,
    decreases n,
{
    if n > 0 {
        big_endian_round_trip(x / 256, (n - 1) as nat);
        assert(be_bytes(x, n).drop_last() =~= be_bytes(x / 256, (n - 1) as nat));
        if x < radix(n) {
            assert(x / 256 < radix((n - 1) as nat));
        }
    }
}

/// Any digits are the digits of the number they denote, which is bounded by
/// their count.
pub proof fn big_endian_digits(s: Seq<u8>)
    ensures
        be_value(s) < radix(s.len()),
        be_bytes(be_value(s), s.len()) == s,
    decreases s.len(),
{
    if s.len() > 0 {
        big_endian_digits(s.drop_last());
        let rest = be_value(s.drop_last());
        assert((rest * 256 + s.last() as nat) / 256 == rest);
        assert((rest * 256 + s.last() as nat) % 256 == s.last() as nat);
        assert(be_bytes(be_value(s), s.len()) =~= s);
    } else {
        assert(be_bytes(be_value(s), s.len()) =~= s);
    }
}

/// Reading little-endian digits back gives the number that was written
/// wherever it fits.
pub proof fn little_endian_round_trip(x: nat, n: nat)
    ensures
        le_bytes(x, n).len() == n,
        x < radix(n) ==> le_value(le_bytes(x, n)) == x,
{
    big_endian_round_trip(x, n);
    assert(le_bytes(x, n).reverse() =~= be_bytes(x, n));
}

/// Eight base-256 digits hold every `u64`.
pub proof fn radix_of_eight()
    ensures
        radix(8) == 0x1_0000_0000_0000_0000,
        radix(2) == 0x1_0000,
{
    reveal_with_fuel(radix, 9);
}

proof fn radix_grows(a: nat, b: nat)
    requires
        a <= b,
    ensures
        radix(a) <= radix(b),
    decreases b,
{
    if a < b {
        radix_grows(a, (b - 1) as nat);
    }
}

/// `n` big-endian digits of `x`.
pub fn big_endian(x: u64, n: usize) -> (r: Vec<u8>)
    ensures
        r@ == be_bytes(x as nat, n as nat),
    decreases n,
{
    if n == 0 {
        Vec::new()
    } else {
        let mut r = big_endian(x / 256, n - 1);
        r.push((x % 256) as u8);
        r
    }
}

/// `n` little-endian digits of `x`.
pub fn little_endian(x: u64, n: usize) -> (r: Vec<u8>)
    ensures
        r@ == le_bytes(x as nat, n as nat),
{
    let digits = big_endian(x, n);
    let mut r: Vec<u8> = Vec::new();
    let mut i: usize = 0;
    proof {
        big_endian_round_trip(x as nat, n as nat);
    }
    while i < n
        invariant
            i <= n,
            digits@ == be_bytes(x as nat, n as nat),
            digits@.len() == n,
            r@ == digits@.reverse().take(i as int),
        decreases n - i,
    {
        r.push(digits[n - 1 - i]);
        proof {
            assert(digits@.reverse().take(i + 1) =~= digits@.reverse().take(i as int).push(
                digits@[n - 1 - i],
            ));
        }
        i += 1;
    }
    proof {
        assert(digits@.reverse().take(n as int) =~= digits@.reverse());
    }
    r
}

/// The number `bytes` denotes, most significant byte first.
pub fn from_big_endian(bytes: &[u8]) -> (r: u64)
    requires
        bytes@.len() <= 8,
    ensures
        r as nat == be_value(bytes@),
{
    let mut r: u64 = 0;
    let mut i: usize = 0;
    while i < bytes.len()
        invariant
            i <= bytes.len() <= 8,
            r as nat == be_value(bytes@.take(i as int)),
        decreases bytes.len() - i,
    {
        proof {
            assert(bytes@.take(i + 1).drop_last() =~= bytes@.take(i as int));
            big_endian_digits(bytes@.take(i + 1));
            radix_grows((i + 1) as nat, 8);
            radix_of_eight();
        }
        r = r * 256 + bytes[i] as u64;
        i += 1;
    }
    proof {
        assert(bytes@.take(i as int) =~= bytes@);
    }
    r
}

/// The number `bytes` denotes, least significant byte first.
pub fn from_little_endian(bytes: &[u8]) -> (r: u64)
    requires
        bytes@.len() <= 8,
    ensures
        r as nat == le_value(bytes@),
{
    let mut r: u64 = 0;
    let mut i: usize = 0;
    let ghost flipped = bytes@.reverse();
    while i < bytes.len()
        invariant
            i <= bytes.len() <= 8,
            flipped == bytes@.reverse(),
            r as nat == be_value(flipped.take(i as int)),
        decreases bytes.len() - i,
    {
        proof {
            assert(flipped.take(i + 1).drop_last() =~= flipped.take(i as int));
            big_endian_digits(flipped.take(i + 1));
            radix_grows((i + 1) as nat, 8);
            radix_of_eight();
        }
        r = r * 256 + bytes[bytes.len() - 1 - i] as u64;
        i += 1;
    }
    proof {
        assert(flipped.take(i as int) =~= flipped);
    }
    r
}

/// The bytes of `source` from `start` up to but not including `end`.
pub fn copy_range(source: &[u8], start: usize, end: usize) -> (r: Vec<u8>)
    requires
        start <= end <= source@.len(),
    ensures
        r@ == source@.subrange(start as int, end as int),
{
    let mut r: Vec<u8> = Vec::new();
    let mut i: usize = start;
    while i < end
        invariant
            start <= i <= end <= source@.len(),
            r@ == source@.subrange(start as int, i as int),
        decreases end - i,
    {
        r.push(source[i]);
        proof {
            assert(source@.subrange(start as int, i + 1) =~= source@.subrange(
                start as int,
                i as int,
            ).push(source@[i as int]));
        }
        i += 1;
    }
    r
}

/// Append every byte of `more` to `out`.
pub fn append_bytes(out: &mut Vec<u8>, more: &[u8])
    ensures
        final(out)@ == old(out)@ + more@,
{
    let mut i: usize = 0;
    while i < more.len()
        invariant
            i <= more.len(),
            out@ == old(out)@ + more@.take(i as int),
        decreases more.len() - i,
    {
        out.push(more[i]);
        proof {
            assert(old(out)@ + more@.take(i + 1) =~= (old(out)@ + more@.take(i as int)).push(
                more@[i as int],
            ));
        }
        i += 1;
    }
    proof {
        assert(more@.take(i as int) =~= more@);
    }
}

/// Whether `a` comes strictly before `b` in byte order.
pub open spec fn precedes(a: Seq<u8>, b: Seq<u8>) -> bool
    decreases a.len(),
{
    if b.len() == 0 {
        false
    } else if a.len() == 0 {
        true
    } else if a[0] != b[0] {
        a[0] < b[0]
    } else {
        precedes(a.skip(1), b.skip(1))
    }
}

/// Byte order is irreflexive.
pub proof fn precedes_irreflexive(a: Seq<u8>)
    ensures
        !precedes(a, a),
    decreases a.len(),
{
    if a.len() > 0 {
        precedes_irreflexive(a.skip(1));
    }
}

/// Byte order is transitive.
pub proof fn precedes_transitive(a: Seq<u8>, b: Seq<u8>, c: Seq<u8>)
    requires
        precedes(a, b),
        precedes(b, c),
    ensures
        precedes(a, c),
    decreases a.len(),
{
    if a.len() > 0 && a[0] == b[0] && b[0] == c[0] {
        precedes_transitive(a.skip(1), b.skip(1), c.skip(1));
    }
}

/// Two byte strings neither of which comes first are equal.
pub proof fn precedes_total(a: Seq<u8>, b: Seq<u8>)
    ensures
        precedes(a, b) || precedes(b, a) || a == b,
    decreases a.len(),
{
    if a.len() > 0 && b.len() > 0 && a[0] == b[0] {
        precedes_total(a.skip(1), b.skip(1));
        if a.skip(1) == b.skip(1) {
            assert(a =~= seq![a[0]] + a.skip(1));
            assert(b =~= seq![b[0]] + b.skip(1));
        }
    } else if a.len() == 0 && b.len() == 0 {
        assert(a =~= b);
    }
}

/// Whether `a` comes strictly before `b` in byte order.
pub fn comes_before(a: &[u8], b: &[u8]) -> (r: bool)
    ensures
        r == precedes(a@, b@),
{
    let mut i: usize = 0;
    proof {
        assert(a@.skip(0) =~= a@);
        assert(b@.skip(0) =~= b@);
    }
    loop
        invariant
            i <= a@.len(),
            i <= b@.len(),
            precedes(a@, b@) == precedes(a@.skip(i as int), b@.skip(i as int)),
        decreases a@.len() - i,
    {
        if i == b.len() {
            return false;
        }
        if i == a.len() {
            return true;
        }
        if a[i] != b[i] {
            return a[i] < b[i];
        }
        proof {
            assert(a@.skip(i as int).skip(1) =~= a@.skip(i + 1));
            assert(b@.skip(i as int).skip(1) =~= b@.skip(i + 1));
        }
        i += 1;
    }
}

} // verus!
