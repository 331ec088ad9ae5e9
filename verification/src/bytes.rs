//! Byte strings: comparison, order and fixed-width integers.

use vstd::prelude::*;

verus! {

/// The byte strings agree before `at`, and there the first one ends or is smaller.
pub open spec fn smaller_at(a: Seq<u8>, b: Seq<u8>, at: int) -> bool {
    &&& 0 <= at <= a.len()
    &&& at < b.len()
    &&& forall|i: int| 0 <= i < at ==> a[i] == b[i]
    &&& at == a.len() || a[at] < b[at]
}

/// Strict lexicographic order of byte strings.
pub open spec fn bytes_before(a: Seq<u8>, b: Seq<u8>) -> bool {
    exists|at: int| smaller_at(a, b, at)
}

/// No byte string comes before itself.
pub proof fn bytes_before_irreflexive(a: Seq<u8>)
    ensures
        !bytes_before(a, a),
{
}

/// The order of byte strings is transitive.
pub proof fn bytes_before_transitive(a: Seq<u8>, b: Seq<u8>, c: Seq<u8>)
    requires
        bytes_before(a, b),
        bytes_before(b, c),
    ensures
        bytes_before(a, c),
{
    let j = choose|at: int| smaller_at(a, b, at);
    let k = choose|at: int| smaller_at(b, c, at);
    let at = if j < k { j } else { k };
    assert(smaller_at(a, c, at));
}

/// Of two different byte strings exactly one comes first.
pub proof fn bytes_before_total(a: Seq<u8>, b: Seq<u8>)
    ensures
        a != b ==> bytes_before(a, b) || bytes_before(b, a),
        !(bytes_before(a, b) && bytes_before(b, a)),
{
    if bytes_before(a, b) && bytes_before(b, a) {
        bytes_before_transitive(a, b, a);
        bytes_before_irreflexive(a);
    }
    if a != b {
        let at = first_difference(a, b, 0);
        first_difference_marks(a, b, 0);
        if at == a.len() && at == b.len() {
            assert(a =~= b);
        } else if at == a.len() || (at < b.len() && a[at] < b[at]) {
            assert(smaller_at(a, b, at));
        } else {
            assert(smaller_at(b, a, at));
        }
    }
}

/// The first index from `from` on at which the strings differ or one of them ends.
spec fn first_difference(a: Seq<u8>, b: Seq<u8>, from: int) -> int
    decreases a.len() - from,
{
    if 0 <= from < a.len() && from < b.len() && a[from] == b[from] {
        first_difference(a, b, from + 1)
    } else {
        from
    }
}

proof fn first_difference_marks(a: Seq<u8>, b: Seq<u8>, from: int)
    requires
        0 <= from <= a.len(),
        from <= b.len(),
        forall|i: int| 0 <= i < from ==> a[i] == b[i],
    ensures
        from <= first_difference(a, b, from) <= a.len(),
        first_difference(a, b, from) <= b.len(),
        forall|i: int| 0 <= i < first_difference(a, b, from) ==> a[i] == b[i],
        ({
            let at = first_difference(a, b, from);
            at < a.len() && at < b.len() ==> a[at] != b[at]
        }),
    decreases a.len() - from,
{
    if from < a.len() && from < b.len() && a[from] == b[from] {
        first_difference_marks(a, b, from + 1);
    }
}

/// How two byte strings stand to each other.
#[derive(Clone, Copy, Debug, PartialEq, Eq, Structural)]
pub enum BytesOrder {
    /// The first one comes before the second.
    Before,
    /// They are equal.
    Same,
    /// The first one comes after the second.
    After,
}

/// Orders two byte strings lexicographically.
pub fn order_bytes(a: &[u8], b: &[u8]) -> (result: BytesOrder)
    ensures
        result == BytesOrder::Before <==> bytes_before(a@, b@),
        result == BytesOrder::Same <==> a@ == b@,
        result == BytesOrder::After <==> bytes_before(b@, a@),
{
    let mut i: usize = 0;
    while i < a.len() && i < b.len()
        invariant
            i <= a@.len(),
            i <= b@.len(),
            forall|k: int| 0 <= k < i ==> a@[k] == b@[k],
        decreases a@.len() - i,
    {
        if a[i] != b[i] {
            let less = a[i] < b[i];
            proof {
                bytes_before_total(a@, b@);
                if less {
                    assert(smaller_at(a@, b@, i as int));
                } else {
                    assert(smaller_at(b@, a@, i as int));
                }
                assert(a@ != b@);
            }
            return if less { BytesOrder::Before } else { BytesOrder::After };
        }
        i += 1;
    }
    proof {
        bytes_before_total(a@, b@);
        bytes_before_irreflexive(a@);
    }
    if a.len() < b.len() {
        assert(smaller_at(a@, b@, i as int));
        BytesOrder::Before
    } else if b.len() < a.len() {
        assert(smaller_at(b@, a@, i as int));
        BytesOrder::After
    } else {
        assert(a@ =~= b@);
        BytesOrder::Same
    }
}

/// Decides equality of two byte strings.
pub fn same_bytes(a: &[u8], b: &[u8]) -> (result: bool)
    ensures
        result == (a@ == b@),
{
    if a.len() != b.len() {
        return false;
    }
    let mut i: usize = 0;
    while i < a.len()
        invariant
            i <= a@.len(),
            a@.len() == b@.len(),
            forall|k: int| 0 <= k < i ==> a@[k] == b@[k],
        decreases a@.len() - i,
    {
        if a[i] != b[i] {
            return false;
        }
        i += 1;
    }
    assert(a@ =~= b@);
    true
}

/// Whether `whole` begins with `prefix`.
pub open spec fn has_prefix(whole: Seq<u8>, prefix: Seq<u8>) -> bool {
    prefix.len() <= whole.len() && whole.take(prefix.len() as int) == prefix
}

/// Decides whether `whole` begins with `prefix`.
pub fn begins_with(whole: &[u8], prefix: &[u8]) -> (result: bool)
    ensures
        result == has_prefix(whole@, prefix@),
{
    if prefix.len() > whole.len() {
        return false;
    }
    let mut i: usize = 0;
    while i < prefix.len()
        invariant
            i <= prefix@.len() <= whole@.len(),
            forall|k: int| 0 <= k < i ==> prefix@[k] == whole@[k],
        decreases prefix@.len() - i,
    {
        if prefix[i] != whole[i] {
            assert(whole@.take(prefix@.len() as int)[i as int] != prefix@[i as int]);
            return false;
        }
        i += 1;
    }
    assert(whole@.take(prefix@.len() as int) =~= prefix@);
    true
}

/// Copies a byte string.
pub fn copy_bytes(source: &[u8]) -> (result: Vec<u8>)
    ensures
        result@ == source@,
{
    let mut result: Vec<u8> = Vec::new();
    append_bytes(&mut result, source);
    assert(result@ =~= source@);
    result
}

/// Appends a byte string.
pub fn append_bytes(output: &mut Vec<u8>, source: &[u8])
    ensures
        final(output)@ == old(output)@ + source@,
{
    let mut i: usize = 0;
    while i < source.len()
        invariant
            i <= source@.len(),
            output@ == old(output)@ + source@.take(i as int),
        decreases source@.len() - i,
    {
        output.push(source[i]);
        i += 1;
        assert(output@ =~= old(output)@ + source@.take(i as int));
    }
    assert(source@.take(source@.len() as int) =~= source@);
}

/// The big-endian bytes of a 32-bit integer.
pub open spec fn be32(value: u32) -> Seq<u8> {
    seq![
        (value / 0x100_0000) as u8,
        (value / 0x1_0000 % 0x100) as u8,
        (value / 0x100 % 0x100) as u8,
        (value % 0x100) as u8,
    ]
}

/// The big-endian bytes of a 64-bit integer.
pub open spec fn be64(value: u64) -> Seq<u8> {
    be32((value / 0x1_0000_0000) as u32) + be32((value % 0x1_0000_0000) as u32)
}

/// Appends the big-endian bytes of a 32-bit integer.
pub fn append_be32(output: &mut Vec<u8>, value: u32)
    ensures
        final(output)@ == old(output)@ + be32(value),
{
    output.push((value / 0x100_0000) as u8);
    output.push((value / 0x1_0000 % 0x100) as u8);
    output.push((value / 0x100 % 0x100) as u8);
    output.push((value % 0x100) as u8);
    assert(output@ =~= old(output)@ + be32(value));
}

/// Appends the big-endian bytes of a 64-bit integer.
pub fn append_be64(output: &mut Vec<u8>, value: u64)
    ensures
        final(output)@ == old(output)@ + be64(value),
{
    append_be32(output, (value / 0x1_0000_0000) as u32);
    append_be32(output, (value % 0x1_0000_0000) as u32);
    assert(output@ =~= old(output)@ + be64(value));
}

/// Different 32-bit integers have different big-endian bytes.
pub proof fn be32_injective(a: u32, b: u32)
    requires
        be32(a) == be32(b),
    ensures
        a == b,
{
    assert(be32(a)[0] == be32(b)[0]);
    assert(be32(a)[1] == be32(b)[1]);
    assert(be32(a)[2] == be32(b)[2]);
    assert(be32(a)[3] == be32(b)[3]);
}

/// Different 64-bit integers have different big-endian bytes.
pub proof fn be64_injective(a: u64, b: u64)
    requires
        be64(a) == be64(b),
    ensures
        a == b,
{
    assert(be64(a).take(4) =~= be32((a / 0x1_0000_0000) as u32));
    assert(be64(b).take(4) =~= be32((b / 0x1_0000_0000) as u32));
    assert(be64(a).skip(4) =~= be32((a % 0x1_0000_0000) as u32));
    assert(be64(b).skip(4) =~= be32((b % 0x1_0000_0000) as u32));
    be32_injective((a / 0x1_0000_0000) as u32, (b / 0x1_0000_0000) as u32);
    be32_injective((a % 0x1_0000_0000) as u32, (b % 0x1_0000_0000) as u32);
}

/// Byte strings are ordered by their first bytes, and by what follows where these are the
/// same; the empty string comes first.
pub proof fn bytes_are_ordered_from_the_front(a: Seq<u8>, b: Seq<u8>, first: u8, other: u8)
    ensures
        bytes_before(Seq::<u8>::empty(), seq![other] + b),
        !bytes_before(a, Seq::<u8>::empty()),
        first < other ==> bytes_before(seq![first] + a, seq![other] + b),
        first > other ==> !bytes_before(seq![first] + a, seq![other] + b),
        bytes_before(seq![first] + a, seq![first] + b) <==> bytes_before(a, b),
{
    let left = seq![first] + a;
    let right = seq![other] + b;
    let same = seq![first] + b;
    assert(smaller_at(Seq::<u8>::empty(), right, 0));
    if first < other {
        assert(smaller_at(left, right, 0));
    }
    if first > other && bytes_before(left, right) {
        let at = choose|at: int| smaller_at(left, right, at);
        assert(left[0] == first && right[0] == other);
    }
    if bytes_before(a, b) {
        let at = choose|at: int| smaller_at(a, b, at);
        assert forall|i: int| 0 <= i < at + 1 implies left[i] == same[i] by {
            if i > 0 {
                assert(left[i] == a[i - 1] && same[i] == b[i - 1]);
            }
        }
        assert(smaller_at(left, same, at + 1));
    }
    if bytes_before(left, same) {
        let at = choose|at: int| smaller_at(left, same, at);
        assert(left[0] == same[0]);
        assert(at > 0);
        assert forall|i: int| 0 <= i < at - 1 implies a[i] == b[i] by {
            assert(left[i + 1] == same[i + 1]);
        }
        assert(smaller_at(a, b, at - 1));
    }
}

/// A byte string has a prefix exactly where it is the prefix and something more, or nothing.
pub proof fn prefixes_can_be_completed(whole: Seq<u8>, prefix: Seq<u8>, rest: Seq<u8>)
    ensures
        has_prefix(prefix + rest, prefix),
        has_prefix(whole, prefix) ==> whole == prefix + whole.skip(prefix.len() as int),
{
    assert((prefix + rest).take(prefix.len() as int) =~= prefix);
    if has_prefix(whole, prefix) {
        assert(whole =~= whole.take(prefix.len() as int) + whole.skip(prefix.len() as int));
    }
}

/// Big-endian bytes weigh what they are of: four or eight of them, the first one the most.
pub proof fn big_endian_bytes_weigh_their_integer(a: u32, b: u64)
    ensures
        be32(a).len() == 4,
        be32(a)[0] * 0x100_0000 + be32(a)[1] * 0x1_0000 + be32(a)[2] * 0x100 + be32(a)[3] == a,
        be64(b).len() == 8,
        exists|high: u32, low: u32|
            #![trigger be32(high), be32(low)]
            high * 0x1_0000_0000 + low == b && be64(b) == be32(high) + be32(low),
{
    let high = (b / 0x1_0000_0000) as u32;
    let low = (b % 0x1_0000_0000) as u32;
    assert(high * 0x1_0000_0000 + low == b);
    assert(be64(b) == be32(high) + be32(low));
}

} // verus!
