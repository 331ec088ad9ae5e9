//! Application export records as durable messages.

use vstd::prelude::*;

use crate::bytes::copy_bytes;
use crate::codec::envelope::{
    decode_record_variant, read_message, read_outcome, ruled, ruled_item, variant_outcome,
    OutgoingRecord, ReadAttempt,
};
use crate::codec::error::{is_corrupt, DurableCodecError, DurableCodecErrorKind, EnvelopeError};
use crate::codec::parts::{
    identifier_carries, identifier_from_wire, identifier_to_wire, text_carries, text_from_wire,
    text_to_wire,
};
use crate::codec::record_type::RecordType;
use crate::page::EncodedPageItem;
use crate::stored::application_export::{
    ApplicationExportPageCommitmentV1, ExportOperationV1View, ExportOperationV2View, ExportPageView,
    StoredApplicationExportOperation, StoredApplicationExportOperationV1,
    StoredApplicationExportOperationV2,
};
use crate::value_error::StorageValueError;
use crate::wire;
use super::envelope::reads_back;

verus! {

/// Whether a message is the form of a compact application-export head.
pub open spec fn export_v2_carries(
    message: wire::StoredApplicationExportOperationV2,
    value: ExportOperationV2View,
) -> bool {
    &&& identifier_carries(message.operation_id, value.operation_id)
    &&& text_carries(message.contract_lineage, value.lineage)
    &&& message.immutable_binding@ == value.immutable_binding
    &&& message.canonical_state@ == value.canonical_state
    &&& message.canonical_prefix@ == value.prefix
}

/// A message is the form of at most one value.
pub proof fn export_v2_form_is_exact(
    message: wire::StoredApplicationExportOperationV2,
    a: ExportOperationV2View,
    b: ExportOperationV2View,
)
    requires
        export_v2_carries(message, a),
        export_v2_carries(message, b),
    ensures
        a == b,
{
    assert(a.operation_id.bytes =~= b.operation_id.bytes);
}

/// The message form of a compact application-export head.
pub fn export_v2_to_proto(
    value: &StoredApplicationExportOperationV2,
) -> (result: wire::StoredApplicationExportOperationV2)
    ensures
        export_v2_carries(result, value@),
{
    wire::StoredApplicationExportOperationV2 {
        operation_id: identifier_to_wire(value.operation_id),
        contract_lineage: text_to_wire(&value.lineage),
        immutable_binding: copy_bytes(&value.immutable_binding),
        canonical_state: copy_bytes(&value.canonical_state),
        canonical_prefix: copy_bytes(&value.prefix),
    }
}

/// What reading a message gives: the value that it is the form of, or a
/// corruption where it is the form of no valid one.
pub open spec fn export_v2_read(
    message: wire::StoredApplicationExportOperationV2,
    result: Result<StoredApplicationExportOperationV2, DurableCodecError>,
) -> bool {
    match result {
        Ok(held) => export_v2_carries(message, held@),
        Err(error) => is_corrupt(error) && forall|other: ExportOperationV2View|
            !#[trigger] export_v2_carries(message, other),
    }
}

/// Reads a compact application-export head.
pub fn export_v2_from_proto(value: &wire::StoredApplicationExportOperationV2) -> (result: Result<
    StoredApplicationExportOperationV2,
    DurableCodecError,
>)
    ensures
        export_v2_read(*value, result),
{
    let operation_id = identifier_from_wire(&value.operation_id)?;
    let lineage = text_from_wire(&value.contract_lineage)?;
    let immutable_binding = copy_bytes(&value.immutable_binding);
    let canonical_state = copy_bytes(&value.canonical_state);
    let prefix = copy_bytes(&value.canonical_prefix);
    Ok(
        StoredApplicationExportOperationV2 {
            operation_id,
            lineage,
            immutable_binding,
            canonical_state,
            prefix,
        },
    )
}

/// Reading the message form of a compact application-export head gives back what was written.
pub proof fn export_v2_round_trip(
    value: ExportOperationV2View,
    message: wire::StoredApplicationExportOperationV2,
    read: Result<StoredApplicationExportOperationV2, DurableCodecError>,
)
    requires
        export_v2_carries(message, value),
        export_v2_read(message, read),
    ensures
        read is Ok,
        read->Ok_0@ == value,
{
    if let Ok(held) = read {
        export_v2_form_is_exact(message, held@, value);
    }
}

/// Whether a message is the form of an application-export checkpoint or receipt.
pub open spec fn export_v1_carries(
    message: wire::StoredApplicationExportOperationV1,
    value: ExportOperationV1View,
) -> bool {
    &&& identifier_carries(message.operation_id, value.operation_id)
    &&& text_carries(message.contract_lineage, value.lineage)
    &&& message.canonical_state@ == value.canonical_state
}

/// A message is the form of at most one value.
pub proof fn export_v1_form_is_exact(
    message: wire::StoredApplicationExportOperationV1,
    a: ExportOperationV1View,
    b: ExportOperationV1View,
)
    requires
        export_v1_carries(message, a),
        export_v1_carries(message, b),
    ensures
        a == b,
{
    assert(a.operation_id.bytes =~= b.operation_id.bytes);
}

/// The message form of an application-export checkpoint or receipt.
pub fn export_v1_to_proto(
    value: &StoredApplicationExportOperationV1,
) -> (result: wire::StoredApplicationExportOperationV1)
    ensures
        export_v1_carries(result, value@),
{
    wire::StoredApplicationExportOperationV1 {
        operation_id: identifier_to_wire(value.operation_id),
        contract_lineage: text_to_wire(&value.lineage),
        canonical_state: copy_bytes(&value.canonical_state),
    }
}

/// What reading a message gives: the value that it is the form of, or a
/// corruption where it is the form of no valid one.
pub open spec fn export_v1_read(
    message: wire::StoredApplicationExportOperationV1,
    result: Result<StoredApplicationExportOperationV1, DurableCodecError>,
) -> bool {
    match result {
        Ok(held) => export_v1_carries(message, held@),
        Err(error) => is_corrupt(error) && forall|other: ExportOperationV1View|
            !#[trigger] export_v1_carries(message, other),
    }
}

/// Reads an application-export checkpoint or receipt.
pub fn export_v1_from_proto(value: &wire::StoredApplicationExportOperationV1) -> (result: Result<
    StoredApplicationExportOperationV1,
    DurableCodecError,
>)
    ensures
        export_v1_read(*value, result),
{
    let operation_id = identifier_from_wire(&value.operation_id)?;
    let lineage = text_from_wire(&value.contract_lineage)?;
    let canonical_state = copy_bytes(&value.canonical_state);
    Ok(StoredApplicationExportOperationV1 { operation_id, lineage, canonical_state })
}

/// Reading the message form of an application-export checkpoint or receipt gives back what
/// was written.
pub proof fn export_v1_round_trip(
    value: ExportOperationV1View,
    message: wire::StoredApplicationExportOperationV1,
    read: Result<StoredApplicationExportOperationV1, DurableCodecError>,
)
    requires
        export_v1_carries(message, value),
        export_v1_read(message, read),
    ensures
        read is Ok,
        read->Ok_0@ == value,
{
    if let Ok(held) = read {
        export_v1_form_is_exact(message, held@, value);
    }
}

/// Whether a message is the form of a page of the export ledger.
pub open spec fn export_page_carries(
    message: wire::StoredApplicationExportPageCommitmentV1,
    value: ExportPageView,
) -> bool {
    &&& message.canonical_commitment@ == value.canonical_bytes
}

/// A message is the form of at most one value.
pub proof fn export_page_form_is_exact(
    message: wire::StoredApplicationExportPageCommitmentV1,
    a: ExportPageView,
    b: ExportPageView,
)
    requires
        export_page_carries(message, a),
        export_page_carries(message, b),
    ensures
        a == b,
{
}

/// The message form of a page of the export ledger.
pub fn export_page_to_proto(
    value: &ApplicationExportPageCommitmentV1,
) -> (result: wire::StoredApplicationExportPageCommitmentV1)
    ensures
        export_page_carries(result, value@),
{
    wire::StoredApplicationExportPageCommitmentV1 {
        canonical_commitment: copy_bytes(&value.canonical_bytes),
    }
}

/// What reading a message gives: the value that it is the form of, or a
/// corruption where it is the form of no valid one.
pub open spec fn export_page_read(
    message: wire::StoredApplicationExportPageCommitmentV1,
    result: Result<ApplicationExportPageCommitmentV1, DurableCodecError>,
) -> bool {
    match result {
        Ok(held) => export_page_carries(message, held@),
        Err(error) => is_corrupt(error) && forall|other: ExportPageView|
            !#[trigger] export_page_carries(message, other),
    }
}

/// Reads a page of the export ledger.
pub fn export_page_from_proto(
    value: &wire::StoredApplicationExportPageCommitmentV1,
) -> (result: Result<
    ApplicationExportPageCommitmentV1,
    DurableCodecError,
>)
    ensures
        export_page_read(*value, result),
{
    let canonical_bytes = copy_bytes(&value.canonical_commitment);
    Ok(ApplicationExportPageCommitmentV1 { canonical_bytes })
}

/// Reading the message form of a page of the export ledger gives back what was written.
pub proof fn export_page_round_trip(
    value: ExportPageView,
    message: wire::StoredApplicationExportPageCommitmentV1,
    read: Result<ApplicationExportPageCommitmentV1, DurableCodecError>,
)
    requires
        export_page_carries(message, value),
        export_page_read(message, read),
    ensures
        read is Ok,
        read->Ok_0@ == value,
{
    if let Ok(held) = read {
        export_page_form_is_exact(message, held@, value);
    }
}

/// Encodes the versioned compact head without reading or encoding earlier pages.
pub fn encode_application_export_operation_v2(
    value: &StoredApplicationExportOperationV2,
) -> (result: OutgoingRecord<
    wire::StoredApplicationExportOperationV2,
>)
    ensures
        result.record_type == RecordType::StoredApplicationExportOperationV2,
        export_v2_carries(result.message, value@),
{
    OutgoingRecord {
        record_type: RecordType::StoredApplicationExportOperationV2,
        message: export_v2_to_proto(value),
    }
}

/// Whether a message is the form of some valid value.
pub open spec fn export_v2_readable(message: wire::StoredApplicationExportOperationV2) -> bool {
    exists|value: ExportOperationV2View| #[trigger] export_v2_carries(message, value)
}

/// Decodes the complete canonical head; its genesis binding is a matter of its own rules.
pub fn decode_application_export_operation_v2<
    R: Fn(&StoredApplicationExportOperationV2) -> Option<StorageValueError>,
>(
    attempt: ReadAttempt<wire::StoredApplicationExportOperationV2>,
    rule: R,
) -> (result: Result<EncodedPageItem<StoredApplicationExportOperationV2>, DurableCodecError>)
    requires
        forall|value: &StoredApplicationExportOperationV2| #[trigger] rule.requires((value,)),
    ensures
        match read_outcome(RecordType::StoredApplicationExportOperationV2, attempt) {
            Err(kind) => result == Err::<EncodedPageItem<StoredApplicationExportOperationV2>, _>(
                DurableCodecError { kind },
            ),
            Ok(message) => if export_v2_readable(message) {
                exists|value: StoredApplicationExportOperationV2| {
                    &&& export_v2_carries(message, value@)
                    &&& #[trigger] ruled(rule, value, attempt.encoded_len, result)
                }
            } else {
                result == Err::<EncodedPageItem<StoredApplicationExportOperationV2>, _>(
                    DurableCodecError { kind: DurableCodecErrorKind::CorruptData },
                )
            },
        },
{
    let encoded_len = attempt.encoded_len;
    let message = read_message(RecordType::StoredApplicationExportOperationV2, attempt)?;
    let value = export_v2_from_proto(&message)?;
    ruled_item(value, rule, encoded_len)
}

/// Encodes one exact opaque application-export checkpoint or receipt.
pub fn encode_application_export_operation_v1(
    value: &StoredApplicationExportOperationV1,
) -> (result: OutgoingRecord<
    wire::StoredApplicationExportOperationV1,
>)
    ensures
        result.record_type == RecordType::StoredApplicationExportOperationV1,
        export_v1_carries(result.message, value@),
{
    OutgoingRecord {
        record_type: RecordType::StoredApplicationExportOperationV1,
        message: export_v1_to_proto(value),
    }
}

/// Whether a message is the form of some valid value.
pub open spec fn export_v1_readable(message: wire::StoredApplicationExportOperationV1) -> bool {
    exists|value: ExportOperationV1View| #[trigger] export_v1_carries(message, value)
}

/// Decodes one exact opaque application-export checkpoint or receipt.
pub fn decode_application_export_operation_v1<
    R: Fn(&StoredApplicationExportOperationV1) -> Option<StorageValueError>,
>(
    attempt: ReadAttempt<wire::StoredApplicationExportOperationV1>,
    rule: R,
) -> (result: Result<EncodedPageItem<StoredApplicationExportOperationV1>, DurableCodecError>)
    requires
        forall|value: &StoredApplicationExportOperationV1| #[trigger] rule.requires((value,)),
    ensures
        match read_outcome(RecordType::StoredApplicationExportOperationV1, attempt) {
            Err(kind) => result == Err::<EncodedPageItem<StoredApplicationExportOperationV1>, _>(
                DurableCodecError { kind },
            ),
            Ok(message) => if export_v1_readable(message) {
                exists|value: StoredApplicationExportOperationV1| {
                    &&& export_v1_carries(message, value@)
                    &&& #[trigger] ruled(rule, value, attempt.encoded_len, result)
                }
            } else {
                result == Err::<EncodedPageItem<StoredApplicationExportOperationV1>, _>(
                    DurableCodecError { kind: DurableCodecErrorKind::CorruptData },
                )
            },
        },
{
    let encoded_len = attempt.encoded_len;
    let message = read_message(RecordType::StoredApplicationExportOperationV1, attempt)?;
    let value = export_v1_from_proto(&message)?;
    ruled_item(value, rule, encoded_len)
}

/// Encodes one append-only page member under its separately registered identity.
pub fn encode_application_export_page_commitment_v1(
    value: &ApplicationExportPageCommitmentV1,
) -> (result: OutgoingRecord<
    wire::StoredApplicationExportPageCommitmentV1,
>)
    ensures
        result.record_type == RecordType::StoredApplicationExportPageCommitmentV1,
        export_page_carries(result.message, value@),
{
    OutgoingRecord {
        record_type: RecordType::StoredApplicationExportPageCommitmentV1,
        message: export_page_to_proto(value),
    }
}

/// Whether a message is the form of some valid value.
pub open spec fn export_page_readable(
    message: wire::StoredApplicationExportPageCommitmentV1,
) -> bool {
    exists|value: ExportPageView| #[trigger] export_page_carries(message, value)
}

/// Decodes complete bounded page evidence.
pub fn decode_application_export_page_commitment_v1<
    R: Fn(&ApplicationExportPageCommitmentV1) -> Option<StorageValueError>,
>(
    attempt: ReadAttempt<wire::StoredApplicationExportPageCommitmentV1>,
    rule: R,
) -> (result: Result<EncodedPageItem<ApplicationExportPageCommitmentV1>, DurableCodecError>)
    requires
        forall|value: &ApplicationExportPageCommitmentV1| #[trigger] rule.requires((value,)),
    ensures
        match read_outcome(RecordType::StoredApplicationExportPageCommitmentV1, attempt) {
            Err(kind) => result == Err::<EncodedPageItem<ApplicationExportPageCommitmentV1>, _>(
                DurableCodecError { kind },
            ),
            Ok(message) => if export_page_readable(message) {
                exists|value: ApplicationExportPageCommitmentV1| {
                    &&& export_page_carries(message, value@)
                    &&& #[trigger] ruled(rule, value, attempt.encoded_len, result)
                }
            } else {
                result == Err::<EncodedPageItem<ApplicationExportPageCommitmentV1>, _>(
                    DurableCodecError { kind: DurableCodecErrorKind::CorruptData },
                )
            },
        },
{
    let encoded_len = attempt.encoded_len;
    let message = read_message(RecordType::StoredApplicationExportPageCommitmentV1, attempt)?;
    let value = export_page_from_proto(&message)?;
    ruled_item(value, rule, encoded_len)
}

/// An export operation to be framed in its original form.
pub enum OutgoingExportHead {
    Legacy(OutgoingRecord<wire::StoredApplicationExportOperationV1>),
    Compact(OutgoingRecord<wire::StoredApplicationExportOperationV2>),
}

/// Whether a record is the form of a head, in the head's own version.
pub open spec fn export_head_carries(
    result: OutgoingExportHead,
    value: StoredApplicationExportOperation,
) -> bool {
    match value {
        StoredApplicationExportOperation::Legacy(held) => result matches
            OutgoingExportHead::Legacy(record) && record.record_type
            == RecordType::StoredApplicationExportOperationV1 && export_v1_carries(
            record.message,
            held@,
        ),
        StoredApplicationExportOperation::Compact(held) => result matches
            OutgoingExportHead::Compact(record) && record.record_type
            == RecordType::StoredApplicationExportOperationV2 && export_v2_carries(
            record.message,
            held@,
        ),
    }
}

/// Encodes the retained operation's original version without upgrading it.
pub fn encode_application_export_head(value: &StoredApplicationExportOperation) -> (result:
    OutgoingExportHead)
    ensures
        export_head_carries(result, *value),
{
    match value {
        StoredApplicationExportOperation::Legacy(held) => OutgoingExportHead::Legacy(
            encode_application_export_operation_v1(held),
        ),
        StoredApplicationExportOperation::Compact(held) => OutgoingExportHead::Compact(
            encode_application_export_operation_v2(held),
        ),
    }
}

/// What decoding an application-export head of either version gives.
pub open spec fn export_head_decoded<
    R: Fn(&StoredApplicationExportOperationV2) -> Option<StorageValueError>,
    S: Fn(&StoredApplicationExportOperationV1) -> Option<StorageValueError>,
>(
    found: Result<RecordType, EnvelopeError>,
    compact: ReadAttempt<wire::StoredApplicationExportOperationV2>,
    legacy: ReadAttempt<wire::StoredApplicationExportOperationV1>,
    compact_rule: R,
    legacy_rule: S,
    result: Result<StoredApplicationExportOperation, DurableCodecError>,
) -> bool {
    match variant_outcome(
        found,
        RecordType::StoredApplicationExportOperationV2,
        RecordType::StoredApplicationExportOperationV1,
    ) {
        Err(kind) => result == Err::<StoredApplicationExportOperation, _>(
            DurableCodecError { kind },
        ),
        Ok(true) => match read_outcome(
            RecordType::StoredApplicationExportOperationV2,
            compact,
        ) {
            Err(kind) => result == Err::<StoredApplicationExportOperation, _>(
                DurableCodecError { kind },
            ),
            Ok(message) => if export_v2_readable(message) {
                exists|
                    item: Result<
                        EncodedPageItem<StoredApplicationExportOperationV2>,
                        DurableCodecError,
                    >,
                    value: StoredApplicationExportOperationV2,
                |
                    export_v2_carries(message, value@) && #[trigger] ruled(
                        compact_rule,
                        value,
                        compact.encoded_len,
                        item,
                    ) && match item {
                        Err(error) => result == Err::<StoredApplicationExportOperation, _>(
                            error,
                        ),
                        Ok(item) => result == Ok::<_, DurableCodecError>(
                            StoredApplicationExportOperation::Compact(item.value),
                        ),
                    }
            } else {
                result == Err::<StoredApplicationExportOperation, _>(
                    DurableCodecError { kind: DurableCodecErrorKind::CorruptData },
                )
            },
        },
        Ok(false) => match read_outcome(
            RecordType::StoredApplicationExportOperationV1,
            legacy,
        ) {
            Err(kind) => result == Err::<StoredApplicationExportOperation, _>(
                DurableCodecError { kind },
            ),
            Ok(message) => if export_v1_readable(message) {
                exists|
                    item: Result<
                        EncodedPageItem<StoredApplicationExportOperationV1>,
                        DurableCodecError,
                    >,
                    value: StoredApplicationExportOperationV1,
                |
                    export_v1_carries(message, value@) && #[trigger] ruled(
                        legacy_rule,
                        value,
                        legacy.encoded_len,
                        item,
                    ) && match item {
                        Err(error) => result == Err::<StoredApplicationExportOperation, _>(
                            error,
                        ),
                        Ok(item) => result == Ok::<_, DurableCodecError>(
                            StoredApplicationExportOperation::Legacy(item.value),
                        ),
                    }
            } else {
                result == Err::<StoredApplicationExportOperation, _>(
                    DurableCodecError { kind: DurableCodecErrorKind::CorruptData },
                )
            },
        },
    }
}

/// Selects only a registered export-operation role; malformed or foreign envelopes
/// neither become absence nor silently downgrade to the legacy path.
pub fn decode_application_export_head<
    R: Fn(&StoredApplicationExportOperationV2) -> Option<StorageValueError>,
    S: Fn(&StoredApplicationExportOperationV1) -> Option<StorageValueError>,
>(
    found: Result<RecordType, EnvelopeError>,
    compact: ReadAttempt<wire::StoredApplicationExportOperationV2>,
    legacy: ReadAttempt<wire::StoredApplicationExportOperationV1>,
    compact_rule: R,
    legacy_rule: S,
) -> (result: Result<StoredApplicationExportOperation, DurableCodecError>)
    requires
        forall|value: &StoredApplicationExportOperationV2| #[trigger]
            compact_rule.requires((value,)),
        forall|value: &StoredApplicationExportOperationV1| #[trigger]
            legacy_rule.requires((value,)),
    ensures
        export_head_decoded(found, compact, legacy, compact_rule, legacy_rule, result),
{
    let current = decode_record_variant(
        found,
        RecordType::StoredApplicationExportOperationV2,
        RecordType::StoredApplicationExportOperationV1,
    )?;
    if current {
        let item = decode_application_export_operation_v2(compact, compact_rule)?;
        Ok(StoredApplicationExportOperation::Compact(item.value))
    } else {
        let item = decode_application_export_operation_v1(legacy, legacy_rule)?;
        Ok(StoredApplicationExportOperation::Legacy(item.value))
    }
}

/// Whether two heads are of one version and hold the same.
pub open spec fn same_export_head(
    a: StoredApplicationExportOperation,
    b: StoredApplicationExportOperation,
) -> bool {
    match (a, b) {
        (
            StoredApplicationExportOperation::Legacy(a),
            StoredApplicationExportOperation::Legacy(b),
        ) => a@ == b@,
        (
            StoredApplicationExportOperation::Compact(a),
            StoredApplicationExportOperation::Compact(b),
        ) => a@ == b@,
        _ => false,
    }
}

/// A head that was encoded decodes to what was written, in the version that it had: a
/// legacy operation is not upgraded, and a compact one does not become legacy.
pub proof fn export_head_comes_back<
    R: Fn(&StoredApplicationExportOperationV2) -> Option<StorageValueError>,
    S: Fn(&StoredApplicationExportOperationV1) -> Option<StorageValueError>,
>(
    value: StoredApplicationExportOperation,
    record: OutgoingExportHead,
    compact: ReadAttempt<wire::StoredApplicationExportOperationV2>,
    legacy: ReadAttempt<wire::StoredApplicationExportOperationV1>,
    compact_rule: R,
    legacy_rule: S,
    result: Result<StoredApplicationExportOperation, DurableCodecError>,
)
    requires
        export_head_carries(record, value),
        match record {
            OutgoingExportHead::Compact(written) => reads_back(written, compact),
            OutgoingExportHead::Legacy(written) => reads_back(written, legacy),
        },
        forall|held: StoredApplicationExportOperationV2, verdict: Option<StorageValueError>|
            same_export_head(StoredApplicationExportOperation::Compact(held), value)
                && #[trigger] compact_rule.ensures((&held,), verdict) ==> verdict is None,
        forall|held: StoredApplicationExportOperationV1, verdict: Option<StorageValueError>|
            same_export_head(StoredApplicationExportOperation::Legacy(held), value)
                && #[trigger] legacy_rule.ensures((&held,), verdict) ==> verdict is None,
        export_head_decoded(
            Ok(export_head_type(record)),
            compact,
            legacy,
            compact_rule,
            legacy_rule,
            result,
        ),
    ensures
        result is Ok,
        same_export_head(result->Ok_0, value),
{
    match value {
        StoredApplicationExportOperation::Compact(held) => {
            let message = record->Compact_0.message;
            assert(export_v2_readable(message));
            assert forall|other: StoredApplicationExportOperationV2| #[trigger]
                export_v2_carries(message, other@) implies other@ == held@ by {
                export_v2_form_is_exact(message, other@, held@);
            }
        },
        StoredApplicationExportOperation::Legacy(held) => {
            let message = record->Legacy_0.message;
            assert(export_v1_readable(message));
            assert forall|other: StoredApplicationExportOperationV1| #[trigger]
                export_v1_carries(message, other@) implies other@ == held@ by {
                export_v1_form_is_exact(message, other@, held@);
            }
        },
    }
}

/// The record type that a head is written as.
pub open spec fn export_head_type(record: OutgoingExportHead) -> RecordType {
    match record {
        OutgoingExportHead::Compact(written) => written.record_type,
        OutgoingExportHead::Legacy(written) => written.record_type,
    }
}

} // verus!
