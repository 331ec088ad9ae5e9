//! Protobuf framing: variable-length integers, field keys and length-delimited
//! fields, as bytes and as lengths.

use vstd::prelude::*;

verus! {

/// The bytes of an integer in base 128, low digit first, with the high bit set on
/// every byte but the last.
pub open spec fn varint_bytes(value: nat) -> Seq<u8>
    decreases value,
{
    if value < 128 {
        seq![value as u8]
    } else {
        seq![(value % 128 + 128) as u8] + varint_bytes(value / 128)
    }
}

/// How many base 128 digits an integer has.
pub open spec fn varint_len(value: nat) -> nat
    decreases value,
{
    if value < 128 {
        1
    } else {
        1 + varint_len(value / 128)
    }
}

/// An integer takes as many bytes as it has digits.
pub proof fn varint_takes_its_digits(value: nat)
    ensures
        varint_bytes(value).len() == varint_len(value),
    decreases value,
{
    if value >= 128 {
        varint_takes_its_digits(value / 128);
    }
}

/// A larger integer never takes fewer bytes.
pub proof fn varint_len_grows(a: nat, b: nat)
    requires
        a <= b,
    ensures
        1 <= varint_len(a) <= varint_len(b),
    decreases b,
{
    if b >= 128 {
        if a >= 128 {
            varint_len_grows(a / 128, b / 128);
        } else {
            varint_len_grows(0, b / 128);
        }
    }
}

/// No word takes more than ten bytes, and the largest takes ten.
pub proof fn varint_len_of_words(value: u64)
    ensures
        1 <= varint_len(value as nat) <= 10,
        varint_len(u64::MAX as nat) == 10,
{
    reveal_with_fuel(varint_len, 10);
    varint_len_grows(value as nat, u64::MAX as nat);
}

/// Bytes begin with at most one integer: the integer and what follows it can be
/// told apart.
pub proof fn varint_is_self_delimiting(a: nat, b: nat, after_a: Seq<u8>, after_b: Seq<u8>)
    requires
        varint_bytes(a) + after_a == varint_bytes(b) + after_b,
    ensures
        a == b,
        after_a == after_b,
    decreases a,
{
    let left = varint_bytes(a) + after_a;
    let right = varint_bytes(b) + after_b;
    assert(left[0] == varint_bytes(a)[0]) by {
        varint_takes_its_digits(a);
        varint_len_grows(0, a);
    }
    assert(right[0] == varint_bytes(b)[0]) by {
        varint_takes_its_digits(b);
        varint_len_grows(0, b);
    }
    if a < 128 {
        assert(b < 128);
        assert(left.skip(1) =~= after_a);
        assert(right.skip(1) =~= after_b);
    } else {
        assert(b >= 128);
        assert(left.skip(1) =~= varint_bytes(a / 128) + after_a);
        assert(right.skip(1) =~= varint_bytes(b / 128) + after_b);
        varint_is_self_delimiting(a / 128, b / 128, after_a, after_b);
        assert(a % 128 == b % 128);
    }
}

/// `prost::encoding::encoded_len_varint`: the number of bytes that an integer
/// takes as a base 128 varint.
#[verifier::external_body]
pub(crate) fn encoded_len_varint(value: u64) -> (result: usize)
    ensures
        result == varint_len(value as nat),
{
    prost::encoding::encoded_len_varint(value)
}

/// `prost::encoding::encode_varint` into a byte vector: the integer's base 128
/// varint is appended, and nothing else changes.
#[verifier::external_body]
pub(crate) fn encode_varint(value: u64, output: &mut Vec<u8>)
    ensures
        final(output)@ == old(output)@ + varint_bytes(value as nat),
{
    prost::encoding::encode_varint(value, output)
}

/// The integer that bytes are the digits of, each byte worth its low seven bits.
pub open spec fn digits_value(bytes: Seq<u8>) -> nat
    decreases bytes.len(),
{
    if bytes.len() == 0 {
        0
    } else {
        (bytes[0] % 128) as nat + 128 * digits_value(bytes.skip(1))
    }
}

/// The bytes of an integer are its digits, and only the last byte is without its high
/// bit; an integer of more than one digit has no leading zero.
pub proof fn integers_are_their_digits(value: nat)
    ensures
        digits_value(varint_bytes(value)) == value,
        varint_bytes(value).len() > 0,
        varint_bytes(value).last() < 128,
        varint_bytes(value).len() > 1 ==> varint_bytes(value).last() > 0,
        forall|i: int|
            0 <= i < varint_bytes(value).len() - 1 ==> #[trigger] varint_bytes(value)[i] >= 128,
    decreases value,
{
    let bytes = varint_bytes(value);
    reveal_with_fuel(digits_value, 2);
    if value >= 128 {
        let rest = varint_bytes(value / 128);
        integers_are_their_digits(value / 128);
        assert(bytes.skip(1) =~= rest);
        assert(bytes[0] == (value % 128 + 128) as u8);
        assert(bytes[0] % 128 == value % 128);
        assert(bytes.last() == rest.last());
        assert forall|i: int| 0 <= i < bytes.len() - 1 implies #[trigger] bytes[i] >= 128 by {
            if i > 0 {
                assert(bytes[i] == rest[i - 1]);
            }
        }
    } else {
        assert(bytes.skip(1) =~= Seq::empty());
    }
}

/// How a field's value is framed.
#[derive(Clone, Copy, Debug, PartialEq, Eq, Structural)]
pub enum WireType {
    Varint,
    LengthDelimited,
}

impl WireType {
    /// The code of the framing in a field's key.
    pub open spec fn spec_code(self) -> u32 {
        match self {
            WireType::Varint => 0,
            WireType::LengthDelimited => 2,
        }
    }

    /// The code of the framing in a field's key.
    #[verifier::when_used_as_spec(spec_code)]
    pub fn code(self) -> (result: u32)
        ensures
            result == self.code(),
    {
        match self {
            WireType::Varint => 0,
            WireType::LengthDelimited => 2,
        }
    }
}

/// The largest number that a field can have.
pub const MAX_FIELD_NUMBER: u32 = 536_870_911;

/// The key of a field: its number and its framing.
pub open spec fn field_key(field_number: nat, wire_type: WireType) -> nat {
    field_number * 8 + wire_type.code() as nat
}

/// The number of bytes of a field's key.
pub open spec fn key_size(field_number: nat, wire_type: WireType) -> nat {
    varint_len(field_key(field_number, wire_type))
}

/// The number of bytes of an integer field that is written, zero or not.
pub open spec fn varint_field_size(field_number: nat, value: nat) -> nat {
    key_size(field_number, WireType::Varint) + varint_len(value)
}

/// The number of bytes of a length-delimited field that is written, empty or not.
pub open spec fn delimited_field_size(field_number: nat, len: nat) -> nat {
    key_size(field_number, WireType::LengthDelimited) + varint_len(len) + len
}

/// The number of bytes of an integer field in a message: zero is left out.
pub open spec fn varint_field_in_message(field_number: nat, value: nat) -> nat {
    if value == 0 {
        0
    } else {
        varint_field_size(field_number, value)
    }
}

/// The number of bytes of a byte string field in a message: an empty one is left
/// out.
pub open spec fn bytes_field_in_message(field_number: nat, len: nat) -> nat {
    if len == 0 {
        0
    } else {
        delimited_field_size(field_number, len)
    }
}

/// A length-delimited field as bytes.
pub open spec fn delimited_field_bytes(field_number: nat, value: Seq<u8>) -> Seq<u8> {
    varint_bytes(field_key(field_number, WireType::LengthDelimited)) + varint_bytes(value.len())
        + value
}

/// An integer field as bytes.
pub open spec fn varint_field_bytes(field_number: nat, value: nat) -> Seq<u8> {
    varint_bytes(field_key(field_number, WireType::Varint)) + varint_bytes(value)
}

/// A field's key is its number behind three bits: zero for an integer, two for what is
/// framed by its length.
pub proof fn keys_name_number_and_framing(field_number: nat)
    ensures
        field_key(field_number, WireType::Varint) == 8 * field_number,
        field_key(field_number, WireType::LengthDelimited) == 8 * field_number + 2,
{
}

/// A field takes as many bytes as its size says.
pub proof fn field_bytes_take_their_size(field_number: nat, value: Seq<u8>, number: nat)
    ensures
        delimited_field_bytes(field_number, value).len() == delimited_field_size(
            field_number,
            value.len(),
        ),
        varint_field_bytes(field_number, number).len() == varint_field_size(field_number, number),
{
    varint_takes_its_digits(field_key(field_number, WireType::LengthDelimited));
    varint_takes_its_digits(field_key(field_number, WireType::Varint));
    varint_takes_its_digits(value.len());
    varint_takes_its_digits(number);
}

/// A longer content never makes a shorter field, and a field in a message never
/// takes more than one that is written in any case.
pub proof fn field_sizes_grow(field_number: nat, a: nat, b: nat)
    requires
        a <= b,
    ensures
        varint_field_size(field_number, a) <= varint_field_size(field_number, b),
        delimited_field_size(field_number, a) <= delimited_field_size(field_number, b),
        varint_field_in_message(field_number, a) <= varint_field_size(field_number, b),
        bytes_field_in_message(field_number, a) <= delimited_field_size(field_number, b),
{
    varint_len_grows(a, b);
}

} // verus!
