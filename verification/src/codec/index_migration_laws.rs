//! What a row of an index migration is bound to, and what its widest form takes.

use vstd::prelude::*;

use crate::codec::error::{read_failure, DurableCodecError, DurableCodecErrorKind, EnvelopeError};
use crate::codec::index_migration::{
    decode_index_migration_row, widest_payload, widest_row_fields, IndexMigrationRowEvidence,
    IndexMigrationSemanticRow, IndexRowMessage,
};
use crate::codec::record_type::RecordType;
use crate::codec::reservation::FramedLen;
use crate::codec::reservation_laws::{content_field, is_len, sums_are_totals, total};
use crate::codec::sizing::size_sum;
use crate::limits::MAX_KEY_BYTES;
use crate::protobuf::varint_len_grows;
use crate::value_error::StorageValueError;

verus! {

/// The bytes of a field that is left out where it is empty.
pub open spec fn content_field_if_any(len: nat) -> nat {
    if len == 0 {
        0
    } else {
        content_field(len)
    }
}

/// The widest form of a row takes the fields of its key, its schema binding and its
/// covered values, and that of a partition key of the greatest length. So it takes no
/// less than the row does with any partition key.
pub proof fn widest_rows_cover_every_partition(
    key_len: usize,
    binding_len: usize,
    covered_len: usize,
    partition_len: nat,
)
    requires
        partition_len <= MAX_KEY_BYTES,
    ensures
        ({
            let fields = content_field_if_any(key_len as nat) + content_field(binding_len as nat)
                + content_field_if_any(covered_len as nat);
            let widest = fields + content_field(MAX_KEY_BYTES as nat);
            &&& is_len(
                size_sum(0, widest_row_fields(key_len, binding_len, covered_len)),
                widest,
            )
            &&& fields + content_field_if_any(partition_len) <= widest
        }),
{
    let lens = seq![
        content_field_if_any(key_len as nat),
        content_field(binding_len as nat),
        content_field_if_any(covered_len as nat),
        content_field(MAX_KEY_BYTES as nat),
    ];
    let sizes = widest_row_fields(key_len, binding_len, covered_len);
    sums_are_totals(0, sizes, lens);
    reveal_with_fuel(total, 5);
    assert(lens.skip(1).skip(1).skip(1).skip(1) =~= Seq::empty());
    varint_len_grows(partition_len, MAX_KEY_BYTES as nat);
}

/// A row that is accepted stands under the key that it was read from, beside the very
/// envelope; it has the version of the message that was read and the values that the
/// message holds, and is charged what its widest form takes once it is framed.
pub proof fn migration_rows_are_bound_to_what_was_read<
    L: Fn(RecordType, usize) -> FramedLen,
    R: Fn(&IndexMigrationRowEvidence) -> Option<StorageValueError>,
>(
    physical_key: &[u8],
    observed_envelope: &[u8],
    found: Result<IndexRowMessage, EnvelopeError>,
    binding_len: usize,
    measure: L,
    rule: R,
    result: Result<IndexMigrationRowEvidence, DurableCodecError>,
)
    requires
        call_ensures(
            decode_index_migration_row::<L, R>,
            (physical_key, observed_envelope, found, binding_len, measure, rule),
            result,
        ),
    ensures
        result matches Ok(evidence) ==> {
            &&& evidence.physical_key@ == physical_key@
            &&& evidence.observed_envelope@ == observed_envelope@
            &&& match (found, evidence.row) {
                (Ok(IndexRowMessage::V1(Some(message))), IndexMigrationSemanticRow::V1(row)) => {
                    &&& row.key@ == physical_key@
                    &&& message.index_entry_key.value@ == physical_key@
                    &&& message.canonical_covered_values.decoded matches Some(values) && values@
                        == row.covered_values@
                },
                (Ok(IndexRowMessage::V2(Some(message))), IndexMigrationSemanticRow::V2(row)) => {
                    &&& row.key@ == physical_key@
                    &&& message.index_entry_key.value@ == physical_key@
                    &&& message.partition_key.value@ == row.partition_key@
                    &&& message.canonical_covered_values.decoded matches Some(values) && values@
                        == row.covered_values@
                },
                _ => false,
            }
            &&& evidence.conservative_charge.bytes > 0
            &&& exists|payload: usize|
                widest_payload(evidence.row, binding_len) == Ok::<usize, DurableCodecError>(payload)
                    && #[trigger] measure.ensures(
                    (RecordType::StoredIndexEntryV2, payload),
                    Ok(evidence.conservative_charge.bytes),
                )
            &&& exists|read: IndexMigrationRowEvidence|
                read.row == evidence.row && #[trigger] rule.ensures((&read,), None)
        },
{
    if let Ok(evidence) = result {
        let message = found->Ok_0;
        let row = choose|row: IndexMigrationSemanticRow| #[trigger]
            crate::codec::index_migration::row_message_carries(message, row)
                && match widest_payload(row, binding_len) {
                Err(error) => result == Err::<IndexMigrationRowEvidence, _>(error),
                Ok(payload) => exists|framed: FramedLen| #[trigger]
                    measure.ensures((RecordType::StoredIndexEntryV2, payload), framed)
                        && crate::codec::index_migration::row_bound(
                        rule,
                        physical_key@,
                        observed_envelope@,
                        row,
                        framed,
                        result,
                    ),
            };
        let payload = widest_payload(row, binding_len)->Ok_0;
        let framed = choose|framed: FramedLen| #[trigger]
            measure.ensures((RecordType::StoredIndexEntryV2, payload), framed)
                && crate::codec::index_migration::row_bound(
                rule,
                physical_key@,
                observed_envelope@,
                row,
                framed,
                result,
            );
        assert(framed == Ok::<usize, EnvelopeError>(evidence.conservative_charge.bytes));
        assert(measure.ensures((RecordType::StoredIndexEntryV2, payload), framed));
    }
}

/// A row that cannot be read is reported as its envelope is; one of another record is
/// unexpected; one whose message holds no row, or another key than it was read from, is
/// corrupt.
pub proof fn refused_migration_rows_have_their_reason<
    L: Fn(RecordType, usize) -> FramedLen,
    R: Fn(&IndexMigrationRowEvidence) -> Option<StorageValueError>,
>(
    physical_key: &[u8],
    observed_envelope: &[u8],
    found: Result<IndexRowMessage, EnvelopeError>,
    binding_len: usize,
    measure: L,
    rule: R,
    result: Result<IndexMigrationRowEvidence, DurableCodecError>,
)
    requires
        call_ensures(
            decode_index_migration_row::<L, R>,
            (physical_key, observed_envelope, found, binding_len, measure, rule),
            result,
        ),
    ensures
        match found {
            Err(error) => result == Err::<IndexMigrationRowEvidence, _>(
                DurableCodecError { kind: read_failure(error) },
            ),
            Ok(IndexRowMessage::Other) => result == Err::<IndexMigrationRowEvidence, _>(
                DurableCodecError { kind: DurableCodecErrorKind::UnexpectedRecordType },
            ),
            Ok(IndexRowMessage::V1(None)) => result == Err::<IndexMigrationRowEvidence, _>(
                DurableCodecError { kind: DurableCodecErrorKind::CorruptData },
            ),
            Ok(IndexRowMessage::V2(None)) => result == Err::<IndexMigrationRowEvidence, _>(
                DurableCodecError { kind: DurableCodecErrorKind::CorruptData },
            ),
            Ok(IndexRowMessage::V1(Some(message))) => message.index_entry_key.value@
                != physical_key@ ==> result == Err::<IndexMigrationRowEvidence, _>(
                DurableCodecError { kind: DurableCodecErrorKind::CorruptData },
            ),
            Ok(IndexRowMessage::V2(Some(message))) => message.index_entry_key.value@
                != physical_key@ ==> result == Err::<IndexMigrationRowEvidence, _>(
                DurableCodecError { kind: DurableCodecErrorKind::CorruptData },
            ),
        },
{
}

} // verus!
