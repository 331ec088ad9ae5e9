//! The smallest parts of durable messages and how they cross the boundary.

use vstd::prelude::*;
use vstd::utf8::encode_utf8;

use super::error::{is_corrupt, DurableCodecError};
use crate::bytes::{bytes_before, copy_bytes, order_bytes, same_bytes, BytesOrder};
use crate::ids::{CommitSequence, Digest, Id32, Id64, ProjectionGeneration};
use crate::keys::{CanonicalRecord, CanonicalRecordView};
use crate::page::NonZeroLimit;

verus! {

/// A part as it stands in a message, and whether the type that it is meant for
/// accepts it.
#[derive(Debug, PartialEq, Eq)]
pub struct Vetted<T> {
    pub value: T,
    pub accepted: bool,
}

/// A 128-bit identifier.
#[derive(Clone, Copy, Debug, PartialEq, Eq)]
pub struct Identifier {
    pub bytes: [u8; 16],
}

impl Identifier {
    /// Decides equality of two identifiers.
    pub fn same(&self, other: &Identifier) -> (result: bool)
        ensures
            result == (*self == *other),
    {
        let result = same_bytes(self.bytes.as_slice(), other.bytes.as_slice());
        proof {
            if result {
                assert(self.bytes =~= other.bytes);
            }
        }
        result
    }
}

/// Demands a required part of a message by reference.
pub fn require_ref<T>(value: &Option<T>) -> (result: Result<&T, DurableCodecError>)
    ensures
        match *value {
            Some(held) => result is Ok && *(result->Ok_0) == held,
            None => result is Err && is_corrupt(result->Err_0),
        },
{
    match value {
        Some(held) => Ok(held),
        None => Err(DurableCodecError::corrupt()),
    }
}

/// Whether an accepted message text is a text.
pub open spec fn text_carries(message: Vetted<String>, value: Seq<char>) -> bool {
    message.accepted && message.value@ == value
}

/// The message form of a text.
pub fn text_to_wire(value: &String) -> (result: Vetted<String>)
    ensures
        text_carries(result, value@),
{
    Vetted { value: value.clone(), accepted: true }
}

/// The text of a message form.
pub fn text_from_wire(value: &Vetted<String>) -> (result: Result<String, DurableCodecError>)
    ensures
        match result {
            Ok(held) => text_carries(*value, held@),
            Err(error) => is_corrupt(error) && !value.accepted,
        },
{
    if value.accepted {
        Ok(value.value.clone())
    } else {
        Err(DurableCodecError::corrupt())
    }
}

/// Whether accepted message bytes are a key.
pub open spec fn key_carries(message: Vetted<Vec<u8>>, value: Seq<u8>) -> bool {
    message.accepted && message.value@ == value
}

/// The message form of a key.
pub fn key_to_wire(value: &Vec<u8>) -> (result: Vetted<Vec<u8>>)
    ensures
        key_carries(result, value@),
{
    Vetted { value: copy_bytes(value), accepted: true }
}

/// The key of a message form.
pub fn key_from_wire(value: &Vetted<Vec<u8>>) -> (result: Result<Vec<u8>, DurableCodecError>)
    ensures
        match result {
            Ok(held) => key_carries(*value, held@),
            Err(error) => is_corrupt(error) && !value.accepted,
        },
{
    if value.accepted {
        Ok(copy_bytes(&value.value))
    } else {
        Err(DurableCodecError::corrupt())
    }
}

/// A message document: its bytes, and the record that they decode to, if they
/// decode.
#[derive(Debug, PartialEq, Eq)]
pub struct CanonicalDocument {
    pub bytes: Vec<u8>,
    pub decoded: Option<CanonicalRecord>,
}

/// A document is canonical if it decodes, and encodes to the bytes that were read.
pub open spec fn document_canonical(message: CanonicalDocument) -> bool {
    message.decoded is Some && message.decoded->Some_0@.encoded == message.bytes@
}

/// Whether a canonical message document is a record.
pub open spec fn document_carries(message: CanonicalDocument, value: CanonicalRecordView) -> bool {
    document_canonical(message) && message.decoded->Some_0@ == value
}

/// The message form of a canonical record.
pub fn document_to_wire(value: &CanonicalRecord) -> (result: CanonicalDocument)
    ensures
        document_carries(result, value@),
{
    CanonicalDocument { bytes: copy_bytes(&value.encoded), decoded: Some(value.clone()) }
}

/// The canonical record of a message form: decoded, encoded again and compared,
/// with a corruption on any difference.
pub fn document_from_wire(value: &CanonicalDocument) -> (result: Result<
    CanonicalRecord,
    DurableCodecError,
>)
    ensures
        match result {
            Ok(held) => document_carries(*value, held@),
            Err(error) => is_corrupt(error) && !document_canonical(*value),
        },
{
    match &value.decoded {
        Some(record) => if same_bytes(&record.encoded, &value.bytes) {
            Ok(record.clone())
        } else {
            Err(DurableCodecError::corrupt())
        },
        None => Err(DurableCodecError::corrupt()),
    }
}

/// The digest of a message form: exactly its bytes.
pub fn digest_from_wire(value: &Vec<u8>) -> (result: Result<Digest, DurableCodecError>)
    ensures
        match result {
            Ok(held) => value@ == held.bytes@,
            Err(error) => is_corrupt(error) && value@.len() != 32,
        },
{
    let bytes: [u8; 32] = super::error::fixed(copy_bytes(value))?;
    Ok(Digest { bytes })
}

/// Whether accepted message bytes are an identifier.
pub open spec fn identifier_carries(message: Vetted<Vec<u8>>, value: Identifier) -> bool {
    message.accepted && message.value@ == value.bytes@
}

/// The message form of an identifier.
pub fn identifier_to_wire(value: Identifier) -> (result: Vetted<Vec<u8>>)
    ensures
        identifier_carries(result, value),
{
    Vetted { value: copy_bytes(value.bytes.as_slice()), accepted: true }
}

/// The identifier of a message form.
pub fn identifier_from_wire(value: &Vetted<Vec<u8>>) -> (result: Result<
    Identifier,
    DurableCodecError,
>)
    ensures
        match result {
            Ok(held) => identifier_carries(*value, held),
            Err(error) => is_corrupt(error) && forall|other: Identifier|
                !#[trigger] identifier_carries(*value, other),
        },
{
    let bytes: [u8; 16] = super::error::fixed(copy_bytes(&value.value))?;
    if value.accepted {
        Ok(Identifier { bytes })
    } else {
        Err(DurableCodecError::corrupt())
    }
}

/// The view of an optional text.
pub open spec fn optional_text_view(value: Option<String>) -> Option<Seq<char>> {
    match value {
        Some(part) => Some(part@),
        None => None,
    }
}

/// Copies an optional text.
pub fn copy_optional_text(value: &Option<String>) -> (result: Option<String>)
    ensures
        optional_text_view(result) == optional_text_view(*value),
{
    match value {
        Some(part) => Some(part.clone()),
        None => None,
    }
}

/// Whether an optional message text is an optional text.
pub open spec fn optional_text_carries(
    message: Option<Vetted<String>>,
    value: Option<Seq<char>>,
) -> bool {
    match (message, value) {
        (Some(form), Some(part)) => text_carries(form, part),
        (None, None) => true,
        _ => false,
    }
}

/// The message form of an optional text.
pub fn optional_text_to_wire(value: &Option<String>) -> (result: Option<Vetted<String>>)
    ensures
        optional_text_carries(result, optional_text_view(*value)),
{
    match value {
        Some(part) => Some(text_to_wire(part)),
        None => None,
    }
}

/// The optional text of a message form.
pub fn optional_text_from_wire(value: &Option<Vetted<String>>) -> (result: Result<
    Option<String>,
    DurableCodecError,
>)
    ensures
        match result {
            Ok(held) => optional_text_carries(*value, optional_text_view(held)),
            Err(error) => is_corrupt(error) && forall|other: Option<Seq<char>>|
                !#[trigger] optional_text_carries(*value, other),
        },
{
    match value {
        Some(form) => {
            let part = text_from_wire(form)?;
            Ok(Some(part))
        },
        None => Ok(None),
    }
}

/// Whether optional message bytes are an optional digest.
pub open spec fn optional_digest_carries(message: Option<Vec<u8>>, value: Option<Digest>) -> bool {
    match (message, value) {
        (Some(form), Some(part)) => form@ == part.bytes@,
        (None, None) => true,
        _ => false,
    }
}

/// The message form of an optional digest.
pub fn optional_digest_to_wire(value: Option<Digest>) -> (result: Option<Vec<u8>>)
    ensures
        optional_digest_carries(result, value),
{
    match value {
        Some(part) => Some(copy_bytes(part.bytes.as_slice())),
        None => None,
    }
}

/// The optional digest of a message form.
pub fn optional_digest_from_wire(value: &Option<Vec<u8>>) -> (result: Result<
    Option<Digest>,
    DurableCodecError,
>)
    ensures
        match result {
            Ok(held) => optional_digest_carries(*value, held),
            Err(error) => is_corrupt(error) && forall|other: Option<Digest>|
                !#[trigger] optional_digest_carries(*value, other),
        },
{
    match value {
        Some(form) => {
            let part = digest_from_wire(form)?;
            Ok(Some(part))
        },
        None => Ok(None),
    }
}

/// Whether optional accepted message bytes are an optional identifier.
pub open spec fn optional_identifier_carries(
    message: Option<Vetted<Vec<u8>>>,
    value: Option<Identifier>,
) -> bool {
    match (message, value) {
        (Some(form), Some(part)) => identifier_carries(form, part),
        (None, None) => true,
        _ => false,
    }
}

/// The message form of an optional identifier.
pub fn optional_identifier_to_wire(value: Option<Identifier>) -> (result: Option<
    Vetted<Vec<u8>>,
>)
    ensures
        optional_identifier_carries(result, value),
{
    match value {
        Some(part) => Some(identifier_to_wire(part)),
        None => None,
    }
}

/// The optional identifier of a message form.
pub fn optional_identifier_from_wire(value: &Option<Vetted<Vec<u8>>>) -> (result: Result<
    Option<Identifier>,
    DurableCodecError,
>)
    ensures
        match result {
            Ok(held) => optional_identifier_carries(*value, held),
            Err(error) => is_corrupt(error) && forall|other: Option<Identifier>|
                !#[trigger] optional_identifier_carries(*value, other),
        },
{
    match value {
        Some(form) => {
            let part = identifier_from_wire(form)?;
            Ok(Some(part))
        },
        None => Ok(None),
    }
}

/// Whether an optional message integer is an optional commit position.
pub open spec fn optional_sequence_carries(
    message: Option<u64>,
    value: Option<CommitSequence>,
) -> bool {
    match (message, value) {
        (Some(form), Some(part)) => form == part.value,
        (None, None) => true,
        _ => false,
    }
}

/// The message form of an optional commit position.
pub fn optional_sequence_to_wire(value: Option<CommitSequence>) -> (result: Option<u64>)
    ensures
        optional_sequence_carries(result, value),
{
    match value {
        Some(part) => Some(part.get()),
        None => None,
    }
}

/// The optional commit position of a message form: not zero.
pub fn optional_sequence_from_wire(value: Option<u64>) -> (result: Result<
    Option<CommitSequence>,
    DurableCodecError,
>)
    ensures
        match result {
            Ok(held) => optional_sequence_carries(value, held) && (held matches Some(part)
                ==> part.valid()),
            Err(error) => is_corrupt(error) && value == Some(0u64),
        },
{
    match value {
        Some(form) => match CommitSequence::new(form) {
            Some(part) => Ok(Some(part)),
            None => Err(DurableCodecError::corrupt()),
        },
        None => Ok(None),
    }
}

/// Whether an optional message integer is an optional counter.
pub open spec fn optional_id64_carries(message: Option<u64>, value: Option<Id64>) -> bool {
    match (message, value) {
        (Some(form), Some(part)) => form == part.value,
        (None, None) => true,
        _ => false,
    }
}

/// The message form of an optional counter.
pub fn optional_id64_to_wire(value: Option<Id64>) -> (result: Option<u64>)
    ensures
        optional_id64_carries(result, value),
{
    match value {
        Some(part) => Some(part.get()),
        None => None,
    }
}

/// The optional counter of a message form: not zero.
pub fn optional_id64_from_wire(value: Option<u64>) -> (result: Result<
    Option<Id64>,
    DurableCodecError,
>)
    ensures
        match result {
            Ok(held) => optional_id64_carries(value, held) && (held matches Some(part)
                ==> part.valid()),
            Err(error) => is_corrupt(error) && value == Some(0u64),
        },
{
    match value {
        Some(form) => match Id64::new(form) {
            Some(part) => Ok(Some(part)),
            None => Err(DurableCodecError::corrupt()),
        },
        None => Ok(None),
    }
}

/// Whether message byte strings are digests, one by one.
pub open spec fn digests_carry(messages: Seq<Vec<u8>>, values: Seq<Digest>) -> bool {
    &&& messages.len() == values.len()
    &&& forall|i: int|
        0 <= i < messages.len() ==> (#[trigger] messages[i])@ == values[i].bytes@
}

/// The message forms of digests.
pub fn digests_to_wire(values: &[Digest]) -> (result: Vec<Vec<u8>>)
    ensures
        digests_carry(result@, values@),
{
    let mut result: Vec<Vec<u8>> = Vec::new();
    let mut i: usize = 0;
    while i < values.len()
        invariant
            i <= values@.len(),
            result@.len() == i,
            forall|k: int| 0 <= k < i ==> (#[trigger] result@[k])@ == values@[k].bytes@,
        decreases values@.len() - i,
    {
        result.push(copy_bytes(values[i].bytes.as_slice()));
        i += 1;
    }
    result
}

/// The digests of message forms.
pub fn digests_from_wire(values: &[Vec<u8>]) -> (result: Result<Vec<Digest>, DurableCodecError>)
    ensures
        match result {
            Ok(held) => digests_carry(values@, held@),
            Err(error) => is_corrupt(error) && forall|other: Seq<Digest>|
                !#[trigger] digests_carry(values@, other),
        },
{
    let mut result: Vec<Digest> = Vec::new();
    let mut i: usize = 0;
    while i < values.len()
        invariant
            i <= values@.len(),
            result@.len() == i,
            forall|k: int| 0 <= k < i ==> (#[trigger] values@[k])@ == result@[k].bytes@,
        decreases values@.len() - i,
    {
        match digest_from_wire(&values[i]) {
            Ok(held) => {
                result.push(held);
            },
            Err(error) => {
                assert forall|other: Seq<Digest>| !#[trigger] digests_carry(values@, other) by {
                    assert(values@[i as int]@.len() != other[i as int].bytes@.len());
                }
                return Err(error);
            },
        }
        i += 1;
    }
    Ok(result)
}

/// Copies digests.
pub fn copy_digests(values: &[Digest]) -> (result: Vec<Digest>)
    ensures
        result@ == values@,
{
    let mut result: Vec<Digest> = Vec::new();
    let mut i: usize = 0;
    while i < values.len()
        invariant
            i <= values@.len(),
            result@ == values@.take(i as int),
        decreases values@.len() - i,
    {
        result.push(values[i]);
        i += 1;
        assert(result@ =~= values@.take(i as int));
    }
    assert(result@ =~= values@);
    result
}

/// Whether message integers are identifiers, one by one.
pub open spec fn ids_carry(messages: Seq<u32>, values: Seq<Id32>) -> bool {
    &&& messages.len() == values.len()
    &&& forall|i: int| 0 <= i < messages.len() ==> (#[trigger] messages[i]) == values[i].value
}

/// All identifiers are valid.
pub open spec fn ids_valid(values: Seq<Id32>) -> bool {
    forall|i: int| 0 <= i < values.len() ==> (#[trigger] values[i]).valid()
}

/// The message forms of identifiers.
pub fn ids_to_wire(values: &[Id32]) -> (result: Vec<u32>)
    ensures
        ids_carry(result@, values@),
{
    let mut result: Vec<u32> = Vec::new();
    let mut i: usize = 0;
    while i < values.len()
        invariant
            i <= values@.len(),
            result@.len() == i,
            forall|k: int| 0 <= k < i ==> (#[trigger] result@[k]) == values@[k].value,
        decreases values@.len() - i,
    {
        result.push(values[i].get());
        i += 1;
    }
    result
}

/// The identifiers of message forms: none is zero.
pub fn ids_from_wire(values: &[u32]) -> (result: Result<Vec<Id32>, DurableCodecError>)
    ensures
        match result {
            Ok(held) => ids_carry(values@, held@) && ids_valid(held@),
            Err(error) => is_corrupt(error) && forall|other: Seq<Id32>| #[trigger]
                ids_carry(values@, other) ==> !ids_valid(other),
        },
{
    let mut result: Vec<Id32> = Vec::new();
    let mut i: usize = 0;
    while i < values.len()
        invariant
            i <= values@.len(),
            result@.len() == i,
            forall|k: int|
                0 <= k < i ==> values@[k] == (#[trigger] result@[k]).value && result@[k].valid(),
        decreases values@.len() - i,
    {
        match Id32::new(values[i]) {
            Some(held) => {
                result.push(held);
            },
            None => {
                assert forall|other: Seq<Id32>| #[trigger]
                    ids_carry(values@, other) implies !ids_valid(other) by {
                    assert(values@[i as int] == other[i as int].value);
                    assert(!other[i as int].valid());
                }
                return Err(DurableCodecError::corrupt());
            },
        }
        i += 1;
    }
    Ok(result)
}

/// Copies identifiers.
pub fn copy_ids(values: &[Id32]) -> (result: Vec<Id32>)
    ensures
        result@ == values@,
{
    let mut result: Vec<Id32> = Vec::new();
    let mut i: usize = 0;
    while i < values.len()
        invariant
            i <= values@.len(),
            result@ == values@.take(i as int),
        decreases values@.len() - i,
    {
        result.push(values[i]);
        i += 1;
        assert(result@ =~= values@.take(i as int));
    }
    assert(result@ =~= values@);
    result
}

/// Whether an integer fits a tag.
pub open spec fn fits_tag(value: int) -> bool {
    0 <= value <= u8::MAX
}

/// Whether a message integer that the owning type accepts is a tag.
pub open spec fn tag_carries(message: Vetted<i32>, value: u8) -> bool {
    message.accepted && message.value == value
}

/// The message form of a tag.
pub fn tag_to_wire(value: u8) -> (result: Vetted<i32>)
    ensures
        tag_carries(result, value),
{
    Vetted { value: value as i32, accepted: true }
}

/// The tag of a message form: an integer that fits no tag is refused, and so is a tag
/// that the owning type does not accept.
pub fn tag_from_wire(value: &Vetted<i32>) -> (result: Result<u8, DurableCodecError>)
    ensures
        match result {
            Ok(held) => tag_carries(*value, held),
            Err(error) => is_corrupt(error) && !(fits_tag(value.value as int) && value.accepted),
        },
{
    if value.value < 0 || value.value > 255 {
        return Err(DurableCodecError::corrupt());
    }
    if value.accepted {
        Ok(value.value as u8)
    } else {
        Err(DurableCodecError::corrupt())
    }
}

/// Whether a message count that the owning type accepts is a small count.
pub open spec fn count_carries(message: Vetted<u32>, value: u8) -> bool {
    message.accepted && message.value == value
}

/// The message form of a small count.
pub fn count_to_wire(value: u8) -> (result: Vetted<u32>)
    ensures
        count_carries(result, value),
{
    Vetted { value: value as u32, accepted: true }
}

/// The small count of a message form: one that does not fit is refused, and so is one
/// that the owning type does not accept.
pub fn count_from_wire(value: &Vetted<u32>) -> (result: Result<u8, DurableCodecError>)
    ensures
        match result {
            Ok(held) => count_carries(*value, held),
            Err(error) => is_corrupt(error) && !(fits_tag(value.value as int) && value.accepted),
        },
{
    if value.value > 255 {
        return Err(DurableCodecError::corrupt());
    }
    if value.accepted {
        Ok(value.value as u8)
    } else {
        Err(DurableCodecError::corrupt())
    }
}

/// Whether an optional message tag is an optional tag.
pub open spec fn optional_tag_carries(message: Option<Vetted<i32>>, value: Option<u8>) -> bool {
    match (message, value) {
        (Some(form), Some(part)) => tag_carries(form, part),
        (None, None) => true,
        _ => false,
    }
}

/// The message form of an optional tag.
pub fn optional_tag_to_wire(value: Option<u8>) -> (result: Option<Vetted<i32>>)
    ensures
        optional_tag_carries(result, value),
{
    match value {
        Some(part) => Some(tag_to_wire(part)),
        None => None,
    }
}

/// The optional tag of a message form.
pub fn optional_tag_from_wire(value: &Option<Vetted<i32>>) -> (result: Result<
    Option<u8>,
    DurableCodecError,
>)
    ensures
        match result {
            Ok(held) => optional_tag_carries(*value, held),
            Err(error) => is_corrupt(error) && forall|other: Option<u8>|
                !#[trigger] optional_tag_carries(*value, other),
        },
{
    match value {
        Some(form) => {
            let part = tag_from_wire(form)?;
            Ok(Some(part))
        },
        None => Ok(None),
    }
}

/// Whether message tags are tags, one by one.
pub open spec fn tags_carry(messages: Seq<Vetted<i32>>, values: Seq<u8>) -> bool {
    &&& messages.len() == values.len()
    &&& forall|i: int| 0 <= i < messages.len() ==> tag_carries(#[trigger] messages[i], values[i])
}

/// The message forms of tags.
pub fn tags_to_wire(values: &[u8]) -> (result: Vec<Vetted<i32>>)
    ensures
        tags_carry(result@, values@),
{
    let mut result: Vec<Vetted<i32>> = Vec::new();
    let mut i: usize = 0;
    while i < values.len()
        invariant
            i <= values@.len(),
            result@.len() == i,
            forall|k: int| 0 <= k < i ==> tag_carries(#[trigger] result@[k], values@[k]),
        decreases values@.len() - i,
    {
        result.push(tag_to_wire(values[i]));
        i += 1;
    }
    result
}

/// The tags of message forms.
pub fn tags_from_wire(values: &[Vetted<i32>]) -> (result: Result<Vec<u8>, DurableCodecError>)
    ensures
        match result {
            Ok(held) => tags_carry(values@, held@),
            Err(error) => is_corrupt(error) && forall|other: Seq<u8>|
                !#[trigger] tags_carry(values@, other),
        },
{
    let mut result: Vec<u8> = Vec::new();
    let mut i: usize = 0;
    while i < values.len()
        invariant
            i <= values@.len(),
            result@.len() == i,
            forall|k: int| 0 <= k < i ==> tag_carries(#[trigger] values@[k], result@[k]),
        decreases values@.len() - i,
    {
        match tag_from_wire(&values[i]) {
            Ok(held) => {
                result.push(held);
            },
            Err(error) => {
                assert forall|other: Seq<u8>| !#[trigger] tags_carry(values@, other) by {
                    assert(!tag_carries(values@[i as int], other[i as int]));
                }
                return Err(error);
            },
        }
        i += 1;
    }
    Ok(result)
}

/// The tags strictly ascend.
pub open spec fn tags_ascend(values: Seq<u8>) -> bool {
    forall|i: int| 0 <= i < values.len() - 1 ==> (#[trigger] values[i]) < values[i + 1]
}

/// Decides whether tags strictly ascend.
pub fn are_tags_ascending(values: &[u8]) -> (result: bool)
    ensures
        result == tags_ascend(values@),
{
    let mut i: usize = 1;
    while i < values.len()
        invariant
            1 <= i,
            i <= values@.len() || i == 1,
            forall|k: int| 0 <= k < i - 1 ==> (#[trigger] values@[k]) < values@[k + 1],
        decreases values@.len() - i,
    {
        if values[i - 1] >= values[i] {
            assert(!(values@[i - 1] < values@[i - 1 + 1]));
            return false;
        }
        i += 1;
    }
    true
}

/// The views of texts.
pub open spec fn text_views(values: Seq<String>) -> Seq<Seq<char>> {
    Seq::new(values.len(), |i: int| values[i]@)
}

/// Whether message texts are texts, one by one.
pub open spec fn texts_carry(messages: Seq<Vetted<String>>, values: Seq<Seq<char>>) -> bool {
    &&& messages.len() == values.len()
    &&& forall|i: int| 0 <= i < messages.len() ==> text_carries(#[trigger] messages[i], values[i])
}

/// The message forms of texts.
pub fn texts_to_wire(values: &[String]) -> (result: Vec<Vetted<String>>)
    ensures
        texts_carry(result@, text_views(values@)),
{
    let mut result: Vec<Vetted<String>> = Vec::new();
    let mut i: usize = 0;
    while i < values.len()
        invariant
            i <= values@.len(),
            result@.len() == i,
            forall|k: int| 0 <= k < i ==> text_carries(#[trigger] result@[k], values@[k]@),
        decreases values@.len() - i,
    {
        result.push(text_to_wire(&values[i]));
        i += 1;
    }
    result
}

/// The texts of message forms.
pub fn texts_from_wire(values: &[Vetted<String>]) -> (result: Result<
    Vec<String>,
    DurableCodecError,
>)
    ensures
        match result {
            Ok(held) => texts_carry(values@, text_views(held@)),
            Err(error) => is_corrupt(error) && forall|other: Seq<Seq<char>>|
                !#[trigger] texts_carry(values@, other),
        },
{
    let mut result: Vec<String> = Vec::new();
    let mut i: usize = 0;
    while i < values.len()
        invariant
            i <= values@.len(),
            result@.len() == i,
            forall|k: int| 0 <= k < i ==> text_carries(#[trigger] values@[k], result@[k]@),
        decreases values@.len() - i,
    {
        match text_from_wire(&values[i]) {
            Ok(held) => {
                result.push(held);
            },
            Err(error) => {
                assert forall|other: Seq<Seq<char>>| !#[trigger] texts_carry(values@, other) by {
                    assert(!text_carries(values@[i as int], other[i as int]));
                }
                return Err(error);
            },
        }
        i += 1;
    }
    Ok(result)
}

/// Copies texts.
pub fn copy_texts(values: &[String]) -> (result: Vec<String>)
    ensures
        text_views(result@) == text_views(values@),
{
    let mut result: Vec<String> = Vec::new();
    let mut i: usize = 0;
    while i < values.len()
        invariant
            i <= values@.len(),
            result@.len() == i,
            forall|k: int| 0 <= k < i ==> result@[k]@ == values@[k]@,
        decreases values@.len() - i,
    {
        result.push(values[i].clone());
        i += 1;
    }
    assert(text_views(result@) =~= text_views(values@));
    result
}

/// The texts strictly ascend by their bytes.
pub open spec fn texts_ascend(values: Seq<Seq<char>>) -> bool {
    forall|i: int|
        0 <= i < values.len() - 1 ==> bytes_before(
            encode_utf8(#[trigger] values[i]),
            encode_utf8(values[i + 1]),
        )
}

/// Decides whether texts strictly ascend.
pub fn are_texts_ascending(values: &[String]) -> (result: bool)
    ensures
        result == texts_ascend(text_views(values@)),
{
    let ghost views = text_views(values@);
    let mut i: usize = 1;
    while i < values.len()
        invariant
            1 <= i,
            i <= values@.len() || i == 1,
            views == text_views(values@),
            forall|k: int|
                0 <= k < i - 1 ==> bytes_before(
                    encode_utf8(#[trigger] views[k]),
                    encode_utf8(views[k + 1]),
                ),
        decreases values@.len() - i,
    {
        let held = values[i - 1].as_str().as_bytes();
        let next = values[i].as_str().as_bytes();
        if order_bytes(held, next) != BytesOrder::Before {
            assert(!bytes_before(encode_utf8(views[i - 1]), encode_utf8(views[i - 1 + 1])));
            return false;
        }
        assert(bytes_before(encode_utf8(views[i - 1]), encode_utf8(views[i as int])));
        i += 1;
    }
    true
}

/// The nonzero row limit of a message integer.
pub fn limit_from_wire(value: u32) -> (result: Result<NonZeroLimit, DurableCodecError>)
    ensures
        match result {
            Ok(held) => value == held.value && held.valid(),
            Err(error) => is_corrupt(error) && (value == 0 || value > u16::MAX),
        },
{
    let word = word16_from_wire(value)?;
    match NonZeroLimit::new(word) {
        Some(limit) => Ok(limit),
        None => Err(DurableCodecError::corrupt()),
    }
}

/// The 16-bit word of a message integer.
pub fn word16_from_wire(value: u32) -> (result: Result<u16, DurableCodecError>)
    ensures
        match result {
            Ok(held) => value == held,
            Err(error) => is_corrupt(error) && value > u16::MAX,
        },
{
    if value > 0xffff {
        Err(DurableCodecError::corrupt())
    } else {
        Ok(value as u16)
    }
}

/// Message texts are the forms of at most one list of texts.
pub proof fn texts_form_is_exact(
    messages: Seq<Vetted<String>>,
    a: Seq<Seq<char>>,
    b: Seq<Seq<char>>,
)
    requires
        texts_carry(messages, a),
        texts_carry(messages, b),
    ensures
        a == b,
{
    assert forall|i: int| 0 <= i < a.len() implies a[i] == b[i] by {
        assert(text_carries(messages[i], a[i]) && text_carries(messages[i], b[i]));
    }
    assert(a =~= b);
}

/// Message tags are the forms of at most one list of tags.
pub proof fn tags_form_is_exact(messages: Seq<Vetted<i32>>, a: Seq<u8>, b: Seq<u8>)
    requires
        tags_carry(messages, a),
        tags_carry(messages, b),
    ensures
        a == b,
{
    assert forall|i: int| 0 <= i < a.len() implies a[i] == b[i] by {
        assert(tag_carries(messages[i], a[i]) && tag_carries(messages[i], b[i]));
    }
    assert(a =~= b);
}

/// The word of a message form.
pub fn word_from_wire(value: &Vetted<u32>) -> (result: Result<u32, DurableCodecError>)
    ensures
        match result {
            Ok(held) => value.accepted && value.value == held,
            Err(error) => is_corrupt(error) && !value.accepted,
        },
{
    if value.accepted {
        Ok(value.value)
    } else {
        Err(DurableCodecError::corrupt())
    }
}

/// Whether an optional message integer is an optional generation.
pub open spec fn optional_generation_carries(
    message: Option<u64>,
    value: Option<ProjectionGeneration>,
) -> bool {
    match (message, value) {
        (Some(form), Some(part)) => form == part.value,
        (None, None) => true,
        _ => false,
    }
}

/// The message form of an optional generation.
pub fn optional_generation_to_wire(value: Option<ProjectionGeneration>) -> (result: Option<u64>)
    ensures
        optional_generation_carries(result, value),
{
    match value {
        Some(part) => Some(part.get()),
        None => None,
    }
}

/// The optional generation of a message form: not zero.
pub fn optional_generation_from_wire(value: Option<u64>) -> (result: Result<
    Option<ProjectionGeneration>,
    DurableCodecError,
>)
    ensures
        match result {
            Ok(held) => optional_generation_carries(value, held) && (held matches Some(part)
                ==> part.valid()),
            Err(error) => is_corrupt(error) && value == Some(0u64),
        },
{
    match value {
        Some(form) => match ProjectionGeneration::new(form) {
            Some(part) => Ok(Some(part)),
            None => Err(DurableCodecError::corrupt()),
        },
        None => Ok(None),
    }
}

/// An optional commit position as an integer, zero where there is none.
pub open spec fn sequence_or_zero(value: Option<CommitSequence>) -> u64 {
    match value {
        Some(part) => part.value,
        None => 0,
    }
}

/// Returns an optional commit position as an integer, zero where there is none.
pub fn sequence_to_zero_form(value: Option<CommitSequence>) -> (result: u64)
    ensures
        result == sequence_or_zero(value),
{
    match value {
        Some(part) => part.get(),
        None => 0,
    }
}

/// An optional counter as an integer, zero where there is none.
pub open spec fn counter_or_zero(value: Option<Id64>) -> u64 {
    match value {
        Some(part) => part.value,
        None => 0,
    }
}

/// Returns an optional counter as an integer, zero where there is none.
pub fn counter_to_zero_form(value: Option<Id64>) -> (result: u64)
    ensures
        result == counter_or_zero(value),
{
    match value {
        Some(part) => part.get(),
        None => 0,
    }
}

/// Decides equality of two lists of identifiers.
pub fn same_ids(a: &[Id32], b: &[Id32]) -> (result: bool)
    ensures
        result == (a@ == b@),
{
    if a.len() != b.len() {
        return false;
    }
    let mut i: usize = 0;
    while i < a.len()
        invariant
            i <= a@.len(),
            a@.len() == b@.len(),
            forall|k: int| 0 <= k < i ==> a@[k] == b@[k],
        decreases a@.len() - i,
    {
        if a[i] != b[i] {
            return false;
        }
        i += 1;
    }
    assert(a@ =~= b@);
    true
}

} // verus!
