//! Index rows that a migration scan reads in either form.

use vstd::prelude::*;

use crate::bytes::{copy_bytes, same_bytes};
use crate::codec::application::{
    index_entry_carries, index_entry_from_proto, index_entry_valid, legacy_index_entry_carries,
    legacy_index_entry_from_proto, legacy_index_entry_valid,
};
use crate::codec::envelope::encoded_message_charge;
use crate::codec::error::{
    frame_failure, is_corrupt, read_failure, value_failure, DurableCodecError,
    DurableCodecErrorKind, EnvelopeError,
};
use crate::codec::record_type::RecordType;
use crate::codec::reservation::FramedLen;
use crate::codec::sizing::{
    bytes_field_len, delimited_field, message_field_len, size_sum, sum_sizes, Size,
};
use crate::limits::MAX_KEY_BYTES;
use crate::page::EncodedContentCharge;
use crate::records::{IndexEntryView, StoredIndexEntryV2};
use crate::stored::application::{LegacyIndexEntryView, StoredIndexEntryV1};
use crate::value_error::StorageValueError;
use crate::wire;

verus! {

/// An index row in the form that it was found in.
#[derive(Debug, PartialEq, Eq)]
pub enum IndexMigrationSemanticRow {
    V1(StoredIndexEntryV1),
    V2(StoredIndexEntryV2),
}

impl IndexMigrationSemanticRow {
    /// The row's own key.
    pub open spec fn key_of(self) -> Seq<u8> {
        match self {
            IndexMigrationSemanticRow::V1(row) => row.key@,
            IndexMigrationSemanticRow::V2(row) => row.key@,
        }
    }

    /// Borrows the row's own key.
    pub fn key(&self) -> (result: &[u8])
        ensures
            result@ == self.key_of(),
    {
        match self {
            IndexMigrationSemanticRow::V1(row) => row.key.as_slice(),
            IndexMigrationSemanticRow::V2(row) => row.key.as_slice(),
        }
    }

    /// The canonical bytes of the row's covered values.
    pub open spec fn covered_of(self) -> Seq<u8> {
        match self {
            IndexMigrationSemanticRow::V1(row) => row.covered_values.encoded@,
            IndexMigrationSemanticRow::V2(row) => row.covered_values.encoded@,
        }
    }

    /// Borrows the canonical bytes of the row's covered values.
    pub fn covered(&self) -> (result: &[u8])
        ensures
            result@ == self.covered_of(),
    {
        match self {
            IndexMigrationSemanticRow::V1(row) => row.covered_values.encoded.as_slice(),
            IndexMigrationSemanticRow::V2(row) => row.covered_values.encoded.as_slice(),
        }
    }
}

/// A physical row that was read, checked and bound to its exact envelope.
#[derive(Debug, PartialEq, Eq)]
pub struct IndexMigrationRowEvidence {
    pub physical_key: Vec<u8>,
    pub row: IndexMigrationSemanticRow,
    pub observed_envelope: Vec<u8>,
    pub conservative_charge: EncodedContentCharge,
}

/// What the registry found in a row's envelope: a message of either form, where
/// the payload decodes as that, or another record.
#[derive(Debug, PartialEq, Eq)]
pub enum IndexRowMessage {
    V1(Option<wire::StoredIndexEntryV1>),
    V2(Option<wire::StoredIndexEntryV2>),
    Other,
}

/// Whether a row is what a message is the form of.
pub open spec fn row_message_carries(
    message: IndexRowMessage,
    row: IndexMigrationSemanticRow,
) -> bool {
    match (message, row) {
        (IndexRowMessage::V1(Some(message)), IndexMigrationSemanticRow::V1(row)) =>
            legacy_index_entry_carries(message, row@) && legacy_index_entry_valid(row@),
        (IndexRowMessage::V2(Some(message)), IndexMigrationSemanticRow::V2(row)) =>
            index_entry_carries(message, row@) && index_entry_valid(row@),
        _ => false,
    }
}

/// Whether a message is the form of some valid row.
pub open spec fn row_message_readable(message: IndexRowMessage) -> bool {
    match message {
        IndexRowMessage::V1(Some(message)) => exists|row: LegacyIndexEntryView| #[trigger]
            legacy_index_entry_carries(message, row) && legacy_index_entry_valid(row),
        IndexRowMessage::V2(Some(message)) => exists|row: IndexEntryView| #[trigger]
            index_entry_carries(message, row) && index_entry_valid(row),
        _ => false,
    }
}

fn row_from_message(message: &IndexRowMessage) -> (result: Result<
    IndexMigrationSemanticRow,
    DurableCodecError,
>)
    ensures
        if message is Other {
            result == Err::<IndexMigrationSemanticRow, _>(
                DurableCodecError { kind: DurableCodecErrorKind::UnexpectedRecordType },
            )
        } else {
            match result {
                Ok(row) => row_message_carries(*message, row) && row_message_readable(*message),
                Err(error) => is_corrupt(error) && !row_message_readable(*message),
            }
        },
{
    match message {
        IndexRowMessage::V1(None) | IndexRowMessage::V2(None) => Err(DurableCodecError::corrupt()),
        IndexRowMessage::V1(Some(message)) => match legacy_index_entry_from_proto(message) {
            Ok(row) => Ok(IndexMigrationSemanticRow::V1(row)),
            Err(error) => Err(error),
        },
        IndexRowMessage::V2(Some(message)) => match index_entry_from_proto(message) {
            Ok(row) => Ok(IndexMigrationSemanticRow::V2(row)),
            Err(error) => Err(error),
        },
        IndexRowMessage::Other => Err(
            DurableCodecError::new(DurableCodecErrorKind::UnexpectedRecordType),
        ),
    }
}

/// The fields of a current index entry with a partition key of the greatest
/// length.
pub open spec fn widest_row_fields(
    key_len: usize,
    schema_binding_len: usize,
    covered_values_len: usize,
) -> Seq<Size> {
    seq![
        if key_len == 0 {
            Ok(0)
        } else {
            delimited_field(1, key_len)
        },
        delimited_field(2, schema_binding_len),
        if covered_values_len == 0 {
            Ok(0)
        } else {
            delimited_field(3, covered_values_len)
        },
        delimited_field(4, MAX_KEY_BYTES),
    ]
}

/// The payload length of the widest current form of a row, given the lengths of
/// its key, of its schema binding's message and of its canonical covered values.
pub fn conservative_index_v2_payload_len(
    key_len: usize,
    schema_binding_len: usize,
    covered_values_len: usize,
) -> (result: Size)
    ensures
        result == size_sum(0, widest_row_fields(key_len, schema_binding_len, covered_values_len)),
{
    let fields: [Size; 4] = [
        if key_len == 0 {
            Ok(0)
        } else {
            bytes_field_len(1, key_len)
        },
        message_field_len(2, schema_binding_len),
        if covered_values_len == 0 {
            Ok(0)
        } else {
            bytes_field_len(3, covered_values_len)
        },
        bytes_field_len(4, MAX_KEY_BYTES),
    ];
    assert(fields@ =~= widest_row_fields(key_len, schema_binding_len, covered_values_len));
    sum_sizes(fields.as_slice())
}

/// The key that a message holds.
pub open spec fn message_key(found: Result<IndexRowMessage, EnvelopeError>) -> Seq<u8> {
    match found {
        Ok(IndexRowMessage::V1(Some(message))) => message.index_entry_key.value@,
        Ok(IndexRowMessage::V2(Some(message))) => message.index_entry_key.value@,
        _ => Seq::empty(),
    }
}

/// The payload length of the widest current form of a row.
pub open spec fn widest_payload(row: IndexMigrationSemanticRow, schema_binding_len: usize) -> Size {
    size_sum(
        0,
        widest_row_fields(
            row.key_of().len() as usize,
            schema_binding_len,
            row.covered_of().len() as usize,
        ),
    )
}

/// What binding a row to its envelope comes to, given the framed length of its widest
/// current form: no length is an invariant's failure, and the evidence's own rule has
/// the last word.
pub open spec fn row_bound<R: Fn(&IndexMigrationRowEvidence) -> Option<StorageValueError>>(
    rule: R,
    physical_key: Seq<u8>,
    observed_envelope: Seq<u8>,
    row: IndexMigrationSemanticRow,
    framed: FramedLen,
    result: Result<IndexMigrationRowEvidence, DurableCodecError>,
) -> bool {
    match framed {
        Err(error) => result == Err::<IndexMigrationRowEvidence, _>(
            DurableCodecError { kind: frame_failure(error) },
        ),
        Ok(bytes) => if bytes == 0 {
            result == Err::<IndexMigrationRowEvidence, _>(
                DurableCodecError { kind: DurableCodecErrorKind::InvariantViolation },
            )
        } else {
            exists|evidence: IndexMigrationRowEvidence, verdict: Option<StorageValueError>| {
                &&& #[trigger] rule.ensures((&evidence,), verdict)
                &&& evidence.physical_key@ == physical_key
                &&& evidence.row == row
                &&& evidence.observed_envelope@ == observed_envelope
                &&& evidence.conservative_charge.bytes == bytes
                &&& result == match verdict {
                    Some(error) => Err(DurableCodecError { kind: value_failure(error) }),
                    None => Ok(evidence),
                }
            }
        },
    }
}

/// What a row of a migration scan comes to, in the order in which the parts are
/// checked: the envelope, the record type, the message, the physical key, the
/// conservative charge and the evidence's own rule.
pub open spec fn row_outcome<
    L: Fn(RecordType, usize) -> FramedLen,
    R: Fn(&IndexMigrationRowEvidence) -> Option<StorageValueError>,
>(
    physical_key: Seq<u8>,
    observed_envelope: Seq<u8>,
    found: Result<IndexRowMessage, EnvelopeError>,
    schema_binding_len: usize,
    measure: L,
    rule: R,
    result: Result<IndexMigrationRowEvidence, DurableCodecError>,
) -> bool {
    match found {
        Err(error) => result == Err::<IndexMigrationRowEvidence, _>(
            DurableCodecError { kind: read_failure(error) },
        ),
        Ok(message) => if message is Other {
            result == Err::<IndexMigrationRowEvidence, _>(
                DurableCodecError { kind: DurableCodecErrorKind::UnexpectedRecordType },
            )
        } else if !row_message_readable(message) || message_key(found) != physical_key {
            result == Err::<IndexMigrationRowEvidence, _>(
                DurableCodecError { kind: DurableCodecErrorKind::CorruptData },
            )
        } else {
            exists|row: IndexMigrationSemanticRow| #[trigger]
                row_message_carries(message, row) && match widest_payload(
                    row,
                    schema_binding_len,
                ) {
                    Err(error) => result == Err::<IndexMigrationRowEvidence, _>(error),
                    Ok(payload) => exists|framed: FramedLen| #[trigger]
                        measure.ensures((RecordType::StoredIndexEntryV2, payload), framed)
                            && row_bound(
                            rule,
                            physical_key,
                            observed_envelope,
                            row,
                            framed,
                            result,
                        ),
                }
        },
    }
}

/// Decodes and inseparably binds one physical migration-scan row, given the length
/// of its schema binding's message, what a payload takes once it is framed, and the
/// evidence's own rule.
pub fn decode_index_migration_row<
    L: Fn(RecordType, usize) -> FramedLen,
    R: Fn(&IndexMigrationRowEvidence) -> Option<StorageValueError>,
>(
    physical_key: &[u8],
    observed_envelope: &[u8],
    found: Result<IndexRowMessage, EnvelopeError>,
    schema_binding_len: usize,
    measure: L,
    rule: R,
) -> (result: Result<IndexMigrationRowEvidence, DurableCodecError>)
    requires
        forall|record_type: RecordType, payload: usize| #[trigger]
            measure.requires((record_type, payload)),
        forall|evidence: &IndexMigrationRowEvidence| #[trigger] rule.requires((evidence,)),
    ensures
        row_outcome(
            physical_key@,
            observed_envelope@,
            found,
            schema_binding_len,
            measure,
            rule,
            result,
        ),
{
    let message = match found {
        Ok(message) => message,
        Err(error) => return Err(DurableCodecError::from_decode_envelope(error)),
    };
    let row = row_from_message(&message)?;
    if !same_bytes(row.key(), physical_key) {
        return Err(DurableCodecError::corrupt());
    }
    assert(row_message_carries(message, row));
    let payload = match conservative_index_v2_payload_len(
        row.key().len(),
        schema_binding_len,
        row.covered().len(),
    ) {
        Ok(payload) => payload,
        Err(error) => return Err(error),
    };
    let framed = measure(RecordType::StoredIndexEntryV2, payload);
    assert(measure.ensures((RecordType::StoredIndexEntryV2, payload), framed));
    let conservative_charge = match encoded_message_charge(framed) {
        Ok(charge) => charge,
        Err(error) => {
            assert(row_bound(
                rule,
                physical_key@,
                observed_envelope@,
                row,
                framed,
                Err(error),
            ));
            return Err(error);
        },
    };
    let evidence = IndexMigrationRowEvidence {
        physical_key: copy_bytes(physical_key),
        row,
        observed_envelope: copy_bytes(observed_envelope),
        conservative_charge,
    };
    let verdict = rule(&evidence);
    assert(rule.ensures((&evidence,), verdict));
    let result = match verdict {
        Some(error) => Err(DurableCodecError::from_storage_value(error)),
        None => Ok(evidence),
    };
    assert(row_bound(rule, physical_key@, observed_envelope@, row, framed, result));
    result
}

} // verus!
