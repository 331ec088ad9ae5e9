//! Checked sums of encoded lengths.

use vstd::prelude::*;

use crate::codec::error::{DurableCodecError, DurableCodecErrorKind};
use crate::protobuf::{
    delimited_field_size, encoded_len_varint, key_size, varint_field_size, varint_len,
    varint_len_grows, varint_len_of_words, WireType, MAX_FIELD_NUMBER,
};

verus! {

/// A length, or why there is none.
pub type Size = Result<usize, DurableCodecError>;

/// A total as a length, or a failure of one class where it does not fit a word.
pub open spec fn fitted(total: nat, failure: DurableCodecErrorKind) -> Size {
    if total <= usize::MAX {
        Ok(total as usize)
    } else {
        Err(DurableCodecError { kind: failure })
    }
}

/// The running total of lengths from a first total: the first failure in the list
/// is the result, and a total that does not fit a word is over the limit.
pub open spec fn size_sum(total: usize, sizes: Seq<Size>) -> Size
    decreases sizes.len(),
{
    if sizes.len() == 0 {
        Ok(total)
    } else {
        match sizes[0] {
            Err(error) => Err(error),
            Ok(size) => if total + size > usize::MAX {
                Err(DurableCodecError { kind: DurableCodecErrorKind::LimitExceeded })
            } else {
                size_sum((total + size) as usize, sizes.skip(1))
            },
        }
    }
}

/// The sum of the first lengths of a list, a failure counting as nothing.
pub open spec fn plain_sum(sizes: Seq<Size>, count: nat) -> nat
    decreases count,
{
    if count == 0 || count > sizes.len() {
        0
    } else {
        plain_sum(sizes, (count - 1) as nat) + match sizes[count - 1] {
            Ok(size) => size as nat,
            Err(_) => 0,
        }
    }
}

proof fn plain_sum_from_the_front(sizes: Seq<Size>, count: nat)
    requires
        0 < count <= sizes.len(),
    ensures
        plain_sum(sizes, count) == (match sizes[0] {
            Ok(size) => size as nat,
            Err(_) => 0,
        }) + plain_sum(sizes.skip(1), (count - 1) as nat),
    decreases count,
{
    reveal_with_fuel(plain_sum, 2);
    if count > 1 {
        plain_sum_from_the_front(sizes, (count - 1) as nat);
        assert(sizes.skip(1)[count - 2] == sizes[count - 1]);
    }
}

/// A total that comes out is the plain sum, and comes out exactly where every
/// length is there and the plain sum fits a word.
pub proof fn size_sum_is_the_plain_sum(total: usize, sizes: Seq<Size>)
    ensures
        size_sum(total, sizes) is Ok ==> size_sum(total, sizes)->Ok_0 == total + plain_sum(
            sizes,
            sizes.len(),
        ),
        size_sum(total, sizes) is Ok <==> (total + plain_sum(sizes, sizes.len()) <= usize::MAX
            && forall|i: int| 0 <= i < sizes.len() ==> (#[trigger] sizes[i]) is Ok),
    decreases sizes.len(),
{
    if sizes.len() > 0 {
        plain_sum_from_the_front(sizes, sizes.len());
        let rest = sizes.skip(1);
        match sizes[0] {
            Err(_) => {},
            Ok(size) => {
                if total + size <= usize::MAX {
                    size_sum_is_the_plain_sum((total + size) as usize, rest);
                    if forall|i: int| 0 <= i < sizes.len() ==> (#[trigger] sizes[i]) is Ok {
                        assert forall|i: int| 0 <= i < rest.len() implies (#[trigger] rest[i])
                            is Ok by {
                            assert(rest[i] == sizes[i + 1]);
                        }
                    } else {
                        let bad = choose|i: int|
                            0 <= i < sizes.len() && !((#[trigger] sizes[i]) is Ok);
                        assert(rest[bad - 1] == sizes[bad]);
                    }
                }
            },
        }
    }
}

/// Adds up lengths, or hands on the first failure among them.
pub fn sum_sizes(sizes: &[Size]) -> (result: Size)
    ensures
        result == size_sum(0, sizes@),
{
    let mut total: usize = 0;
    let mut i: usize = 0;
    proof {
        assert(sizes@.skip(0) =~= sizes@);
    }
    while i < sizes.len()
        invariant
            i <= sizes@.len(),
            size_sum(0, sizes@) == size_sum(total, sizes@.skip(i as int)),
        decreases sizes@.len() - i,
    {
        proof {
            assert(sizes@.skip(i as int).skip(1) =~= sizes@.skip(i + 1));
            assert(sizes@.skip(i as int)[0] == sizes@[i as int]);
        }
        let size = sizes[i]?;
        match total.checked_add(size) {
            Some(next) => {
                total = next;
            },
            None => return Err(DurableCodecError::new(DurableCodecErrorKind::LimitExceeded)),
        }
        i += 1;
    }
    Ok(total)
}

/// The sum of two lengths; one that does not fit a word breaks an invariant.
pub fn add_sizes(a: usize, b: usize) -> (result: Size)
    ensures
        result == fitted(a as nat + b as nat, DurableCodecErrorKind::InvariantViolation),
{
    match a.checked_add(b) {
        Some(total) => Ok(total),
        None => Err(DurableCodecError::invariant_violation()),
    }
}

/// The length of a field's key.
pub fn key_len(field_number: u32, wire_type: WireType) -> (result: usize)
    requires
        field_number <= MAX_FIELD_NUMBER,
    ensures
        result == key_size(field_number as nat, wire_type),
        1 <= result <= 5,
{
    let key: u64 = field_number as u64 * 8 + wire_type.code() as u64;
    proof {
        reveal_with_fuel(varint_len, 5);
        varint_len_grows(key as nat, 0xffff_ffff);
    }
    encoded_len_varint(key)
}

/// The length of an integer field that is written in any case.
pub fn varint_field_len(field_number: u32, value: u64) -> (result: Size)
    requires
        field_number <= MAX_FIELD_NUMBER,
    ensures
        result is Ok,
        result->Ok_0 == varint_field_size(field_number as nat, value as nat),
        result->Ok_0 <= 15,
{
    proof {
        varint_len_of_words(value);
    }
    add_sizes(key_len(field_number, WireType::Varint), encoded_len_varint(value))
}

/// The length of a length-delimited field, or a broken invariant where it does
/// not fit a word.
pub open spec fn delimited_field(field_number: u32, len: usize) -> Size {
    fitted(
        delimited_field_size(field_number as nat, len as nat),
        DurableCodecErrorKind::InvariantViolation,
    )
}

/// The length of a length-delimited field that is written in any case.
pub fn length_delimited_field_len(field_number: u32, len: usize) -> (result: Size)
    requires
        field_number <= MAX_FIELD_NUMBER,
    ensures
        result == delimited_field(field_number, len),
{
    proof {
        varint_len_of_words(len as u64);
    }
    let head = key_len(field_number, WireType::LengthDelimited) + encoded_len_varint(len as u64);
    add_sizes(head, len)
}

/// The length of a byte string field.
pub fn bytes_field_len(field_number: u32, len: usize) -> (result: Size)
    requires
        field_number <= MAX_FIELD_NUMBER,
    ensures
        result == delimited_field(field_number, len),
{
    length_delimited_field_len(field_number, len)
}

/// The length of a message field.
pub fn message_field_len(field_number: u32, len: usize) -> (result: Size)
    requires
        field_number <= MAX_FIELD_NUMBER,
    ensures
        result == delimited_field(field_number, len),
{
    length_delimited_field_len(field_number, len)
}

/// The running total of one repeated length-delimited field: the first failure in
/// the list is the result, and a total that does not fit a word breaks an
/// invariant.
pub open spec fn repeated_sum(total: usize, field_number: u32, lens: Seq<Size>) -> Size
    decreases lens.len(),
{
    if lens.len() == 0 {
        Ok(total)
    } else {
        match lens[0] {
            Err(error) => Err(error),
            Ok(len) => match delimited_field(field_number, len) {
                Err(error) => Err(error),
                Ok(size) => match fitted(
                    total as nat + size as nat,
                    DurableCodecErrorKind::InvariantViolation,
                ) {
                    Err(error) => Err(error),
                    Ok(next) => repeated_sum(next, field_number, lens.skip(1)),
                },
            },
        }
    }
}

/// The bytes that a repeated length-delimited field takes.
pub open spec fn repeated_field_size(field_number: nat, lens: Seq<nat>) -> nat
    decreases lens.len(),
{
    if lens.len() == 0 {
        0
    } else {
        delimited_field_size(field_number, lens[0]) + repeated_field_size(
            field_number,
            lens.skip(1),
        )
    }
}

/// A total that comes out is the first total and the bytes that the field takes,
/// whenever each item is at most as long as its charge.
pub proof fn repeated_sum_dominates(
    total: usize,
    field_number: u32,
    lens: Seq<Size>,
    actual: Seq<nat>,
)
    requires
        actual.len() == lens.len(),
        repeated_sum(total, field_number, lens) is Ok,
        forall|i: int|
            0 <= i < lens.len() && (#[trigger] lens[i]) is Ok ==> actual[i] <= lens[i]->Ok_0,
    ensures
        total + repeated_field_size(field_number as nat, actual) <= repeated_sum(
            total,
            field_number,
            lens,
        )->Ok_0,
    decreases lens.len(),
{
    if lens.len() > 0 {
        let len = lens[0]->Ok_0;
        let next = (total + delimited_field(field_number, len)->Ok_0) as usize;
        let rest = lens.skip(1);
        let after = actual.skip(1);
        assert forall|i: int| 0 <= i < rest.len() && (#[trigger] rest[i]) is Ok implies after[i]
            <= rest[i]->Ok_0 by {
            assert(rest[i] == lens[i + 1]);
        }
        repeated_sum_dominates(next, field_number, rest, after);
        crate::protobuf::field_sizes_grow(field_number as nat, actual[0], len as nat);
    }
}

/// Adds one repeated length-delimited field to a total.
pub fn add_repeated(initial: usize, field_number: u32, lens: &[Size]) -> (result: Size)
    requires
        field_number <= MAX_FIELD_NUMBER,
    ensures
        result == repeated_sum(initial, field_number, lens@),
{
    let mut total: usize = initial;
    let mut i: usize = 0;
    proof {
        assert(lens@.skip(0) =~= lens@);
    }
    while i < lens.len()
        invariant
            i <= lens@.len(),
            field_number <= MAX_FIELD_NUMBER,
            repeated_sum(initial, field_number, lens@) == repeated_sum(
                total,
                field_number,
                lens@.skip(i as int),
            ),
        decreases lens@.len() - i,
    {
        proof {
            assert(lens@.skip(i as int).skip(1) =~= lens@.skip(i + 1));
            assert(lens@.skip(i as int)[0] == lens@[i as int]);
        }
        let len = lens[i]?;
        let size = length_delimited_field_len(field_number, len)?;
        total = add_sizes(total, size)?;
        i += 1;
    }
    Ok(total)
}

} // verus!
