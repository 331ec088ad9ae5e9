//! Catalog records as durable messages.

use vstd::prelude::*;

use crate::bytes::copy_bytes;
use crate::codec::common::{
    audit_principal_carries, audit_principal_form_is_exact, audit_principal_from_proto,
    audit_principal_to_proto, audit_principal_valid, timestamp_carries, timestamp_form_is_exact,
    timestamp_from_proto, timestamp_to_proto, timestamp_valid,
};
use crate::codec::envelope::{
    admitted_item, read_message, read_outcome, refusal_of, ruled, ruled_item, OutgoingRecord,
    ReadAttempt,
};
use crate::codec::error::{is_corrupt, require, DurableCodecError, DurableCodecErrorKind};
use crate::codec::parts::{
    digest_from_wire, identifier_carries, identifier_from_wire, identifier_to_wire,
    optional_text_carries, optional_text_from_wire, optional_text_to_wire, require_ref,
    text_carries, text_from_wire, text_to_wire,
};
use crate::codec::record_type::RecordType;
use crate::ids::Id64;
use crate::page::EncodedPageItem;
use crate::records::{ContractBundleView, StoredContractBundleV1};
use crate::stored::catalog::{
    optional_active_view, ActiveCatalogPointerV1, ActivePointerView, CatalogAdministrationView,
    StoredCatalogAdministrationV1,
};
use crate::value_error::StorageValueError;
use crate::wire;

verus! {

/// Whether a message is the form of the active catalog pointer.
pub open spec fn active_carries(
    message: wire::ActiveCatalogPointerV1,
    value: ActivePointerView,
) -> bool {
    &&& text_carries(message.contract_lineage, value.lineage)
    &&& message.contract_version == value.contract_version.value
    &&& message.contract_bundle_hash@ == value.bundle_hash.bytes@
}

/// The parts of the active catalog pointer are valid.
pub open spec fn active_valid(value: ActivePointerView) -> bool {
    &&& value.contract_version.valid()
}

/// A message is the form of at most one value.
pub proof fn active_form_is_exact(
    message: wire::ActiveCatalogPointerV1,
    a: ActivePointerView,
    b: ActivePointerView,
)
    requires
        active_carries(message, a),
        active_carries(message, b),
    ensures
        a == b,
{
    assert(a.bundle_hash.bytes =~= b.bundle_hash.bytes);
}

/// The message form of the active catalog pointer.
pub fn active_to_proto(value: &ActiveCatalogPointerV1) -> (result: wire::ActiveCatalogPointerV1)
    ensures
        active_carries(result, value@),
{
    wire::ActiveCatalogPointerV1 {
        contract_lineage: text_to_wire(&value.lineage),
        contract_version: value.contract_version.get(),
        contract_bundle_hash: copy_bytes(value.bundle_hash.bytes.as_slice()),
    }
}

/// What reading a message gives: the value that it is the form of, or a
/// corruption where it is the form of no valid one.
pub open spec fn active_read(
    message: wire::ActiveCatalogPointerV1,
    result: Result<ActiveCatalogPointerV1, DurableCodecError>,
) -> bool {
    match result {
        Ok(held) => active_carries(message, held@) && active_valid(held@),
        Err(error) => is_corrupt(error) && forall|other: ActivePointerView| #[trigger]
            active_carries(message, other) ==> !active_valid(other),
    }
}

/// Reads the active catalog pointer.
pub fn active_from_proto(value: &wire::ActiveCatalogPointerV1) -> (result: Result<
    ActiveCatalogPointerV1,
    DurableCodecError,
>)
    ensures
        active_read(*value, result),
{
    let lineage = text_from_wire(&value.contract_lineage)?;
    let contract_version = require(Id64::new(value.contract_version))?;
    let bundle_hash = digest_from_wire(&value.contract_bundle_hash)?;
    Ok(ActiveCatalogPointerV1 { lineage, contract_version, bundle_hash })
}

/// Reading the message form of the active catalog pointer gives back what was written.
pub proof fn active_round_trip(
    value: ActivePointerView,
    message: wire::ActiveCatalogPointerV1,
    read: Result<ActiveCatalogPointerV1, DurableCodecError>,
)
    requires
        active_valid(value),
        active_carries(message, value),
        active_read(message, read),
    ensures
        read is Ok,
        read->Ok_0@ == value,
{
    if let Ok(held) = read {
        active_form_is_exact(message, held@, value);
    }
}

/// Whether an optional message is the form of an optional value.
pub open spec fn optional_active_carries(
    message: Option<wire::ActiveCatalogPointerV1>,
    value: Option<ActivePointerView>,
) -> bool {
    match (message, value) {
        (Some(form), Some(part)) => active_carries(form, part),
        (None, None) => true,
        _ => false,
    }
}

/// The optional message form of an optional value.
pub fn optional_active_to_proto(value: &Option<ActiveCatalogPointerV1>) -> (result: Option<
    wire::ActiveCatalogPointerV1,
>)
    ensures
        optional_active_carries(result, optional_active_view(*value)),
{
    match value {
        Some(part) => Some(active_to_proto(part)),
        None => None,
    }
}

/// Reads an optional value from its optional message form.
pub fn optional_active_from_proto(value: &Option<wire::ActiveCatalogPointerV1>) -> (result: Result<
    Option<ActiveCatalogPointerV1>,
    DurableCodecError,
>)
    ensures
        match result {
            Ok(held) => optional_active_carries(
                *value,
                optional_active_view(held),
            ) && (optional_active_view(held) matches Some(part)
                ==> active_valid(part)),
            Err(error) => is_corrupt(error) && forall|other: Option<ActivePointerView>| #[trigger]
                optional_active_carries(*value, other)
                    ==> !(other matches Some(part) ==> active_valid(
                    part,
                )),
        },
{
    match value {
        Some(form) => {
            let part = active_from_proto(form)?;
            Ok(Some(part))
        },
        None => Ok(None),
    }
}

/// Whether a message is the form of a compiled contract bundle.
pub open spec fn bundle_carries(
    message: wire::StoredContractBundleV1,
    value: ContractBundleView,
) -> bool {
    &&& text_carries(message.contract_lineage, value.lineage)
    &&& message.contract_version == value.contract_version.value
    &&& message.contract_bundle_hash@ == value.bundle_hash.bytes@
    &&& message.canonical_bundle@ == value.canonical_bytes
}

/// The parts of a compiled contract bundle are valid.
pub open spec fn bundle_valid(value: ContractBundleView) -> bool {
    &&& value.contract_version.valid()
}

/// A message is the form of at most one value.
pub proof fn bundle_form_is_exact(
    message: wire::StoredContractBundleV1,
    a: ContractBundleView,
    b: ContractBundleView,
)
    requires
        bundle_carries(message, a),
        bundle_carries(message, b),
    ensures
        a == b,
{
    assert(a.bundle_hash.bytes =~= b.bundle_hash.bytes);
}

/// The message form of a compiled contract bundle.
pub fn bundle_to_proto(value: &StoredContractBundleV1) -> (result: wire::StoredContractBundleV1)
    ensures
        bundle_carries(result, value@),
{
    wire::StoredContractBundleV1 {
        contract_lineage: text_to_wire(&value.lineage),
        contract_version: value.contract_version.get(),
        contract_bundle_hash: copy_bytes(value.bundle_hash.bytes.as_slice()),
        canonical_bundle: copy_bytes(&value.canonical_bytes),
    }
}

/// What reading a message gives: the value that it is the form of, or a
/// corruption where it is the form of no valid one.
pub open spec fn bundle_read(
    message: wire::StoredContractBundleV1,
    result: Result<StoredContractBundleV1, DurableCodecError>,
) -> bool {
    match result {
        Ok(held) => bundle_carries(message, held@) && bundle_valid(held@),
        Err(error) => is_corrupt(error) && forall|other: ContractBundleView| #[trigger]
            bundle_carries(message, other) ==> !bundle_valid(other),
    }
}

/// Reads a compiled contract bundle.
pub fn bundle_from_proto(value: &wire::StoredContractBundleV1) -> (result: Result<
    StoredContractBundleV1,
    DurableCodecError,
>)
    ensures
        bundle_read(*value, result),
{
    let lineage = text_from_wire(&value.contract_lineage)?;
    let contract_version = require(Id64::new(value.contract_version))?;
    let bundle_hash = digest_from_wire(&value.contract_bundle_hash)?;
    let canonical_bytes = copy_bytes(&value.canonical_bundle);
    Ok(StoredContractBundleV1 { lineage, contract_version, bundle_hash, canonical_bytes })
}

/// Reading the message form of a compiled contract bundle gives back what was written.
pub proof fn bundle_round_trip(
    value: ContractBundleView,
    message: wire::StoredContractBundleV1,
    read: Result<StoredContractBundleV1, DurableCodecError>,
)
    requires
        bundle_valid(value),
        bundle_carries(message, value),
        bundle_read(message, read),
    ensures
        read is Ok,
        read->Ok_0@ == value,
{
    if let Ok(held) = read {
        bundle_form_is_exact(message, held@, value);
    }
}

/// Whether a message is the form of a catalog activation record.
pub open spec fn catalog_administration_carries(
    message: wire::StoredCatalogAdministrationV1,
    value: CatalogAdministrationView,
) -> bool {
    &&& message.administration_sequence == value.administration_sequence.value
    &&& identifier_carries(message.request_id, value.request_id)
    &&& (message.timestamp matches Some(part) && timestamp_carries(part, value.timestamp))
    &&& (message.principal matches Some(part) && audit_principal_carries(part, value.principal))
    &&& optional_active_carries(message.previous_active, value.previous_active)
    &&& (message.activated matches Some(part) && active_carries(part, value.activated))
    &&& optional_text_carries(message.approval_id, value.approval_id)
}

/// The parts of a catalog activation record are valid.
pub open spec fn catalog_administration_valid(value: CatalogAdministrationView) -> bool {
    &&& value.administration_sequence.valid()
    &&& timestamp_valid(value.timestamp)
    &&& audit_principal_valid(value.principal)
    &&& (value.previous_active matches Some(part) ==> active_valid(part))
    &&& active_valid(value.activated)
}

/// A message is the form of at most one value.
pub proof fn catalog_administration_form_is_exact(
    message: wire::StoredCatalogAdministrationV1,
    a: CatalogAdministrationView,
    b: CatalogAdministrationView,
)
    requires
        catalog_administration_carries(message, a),
        catalog_administration_carries(message, b),
    ensures
        a == b,
{
    assert(a.request_id.bytes =~= b.request_id.bytes);
    timestamp_form_is_exact(message.timestamp->Some_0, a.timestamp, b.timestamp);
    audit_principal_form_is_exact(message.principal->Some_0, a.principal, b.principal);
    if a.previous_active is Some {
        active_form_is_exact(
            message.previous_active->Some_0,
            a.previous_active->Some_0,
            b.previous_active->Some_0,
        );
    }
    active_form_is_exact(message.activated->Some_0, a.activated, b.activated);
}

/// The message form of a catalog activation record.
pub fn catalog_administration_to_proto(
    value: &StoredCatalogAdministrationV1,
) -> (result: wire::StoredCatalogAdministrationV1)
    ensures
        catalog_administration_carries(result, value@),
{
    wire::StoredCatalogAdministrationV1 {
        administration_sequence: value.administration_sequence.get(),
        request_id: identifier_to_wire(value.request_id),
        timestamp: Some(timestamp_to_proto(value.timestamp)),
        principal: Some(audit_principal_to_proto(&value.principal)),
        previous_active: optional_active_to_proto(&value.previous_active),
        activated: Some(active_to_proto(&value.activated)),
        approval_id: optional_text_to_wire(&value.approval_id),
    }
}

/// What reading a message gives: the value that it is the form of, or a
/// corruption where it is the form of no valid one.
pub open spec fn catalog_administration_read(
    message: wire::StoredCatalogAdministrationV1,
    result: Result<StoredCatalogAdministrationV1, DurableCodecError>,
) -> bool {
    match result {
        Ok(held) =>
            catalog_administration_carries(message, held@) && catalog_administration_valid(held@),
        Err(error) => is_corrupt(error) && forall|other: CatalogAdministrationView| #[trigger]
            catalog_administration_carries(message, other) ==> !catalog_administration_valid(other),
    }
}

/// Reads a catalog activation record.
pub fn catalog_administration_from_proto(
    value: &wire::StoredCatalogAdministrationV1,
) -> (result: Result<
    StoredCatalogAdministrationV1,
    DurableCodecError,
>)
    ensures
        catalog_administration_read(*value, result),
{
    let administration_sequence = require(Id64::new(value.administration_sequence))?;
    let request_id = identifier_from_wire(&value.request_id)?;
    let timestamp = timestamp_from_proto(require_ref(&value.timestamp)?)?;
    let principal = audit_principal_from_proto(require_ref(&value.principal)?)?;
    let previous_active = optional_active_from_proto(&value.previous_active)?;
    let activated = active_from_proto(require_ref(&value.activated)?)?;
    let approval_id = optional_text_from_wire(&value.approval_id)?;
    Ok(
        StoredCatalogAdministrationV1 {
            administration_sequence,
            request_id,
            timestamp,
            principal,
            previous_active,
            activated,
            approval_id,
        },
    )
}

/// Reading the message form of a catalog activation record gives back what was written.
pub proof fn catalog_administration_round_trip(
    value: CatalogAdministrationView,
    message: wire::StoredCatalogAdministrationV1,
    read: Result<StoredCatalogAdministrationV1, DurableCodecError>,
)
    requires
        catalog_administration_valid(value),
        catalog_administration_carries(message, value),
        catalog_administration_read(message, read),
    ensures
        read is Ok,
        read->Ok_0@ == value,
{
    if let Ok(held) = read {
        catalog_administration_form_is_exact(message, held@, value);
    }
}

/// Encodes one immutable compiled contract bundle.
pub fn encode_contract_bundle_v1(value: &StoredContractBundleV1) -> (result: OutgoingRecord<
    wire::StoredContractBundleV1,
>)
    ensures
        result.record_type == RecordType::StoredContractBundleV1,
        bundle_carries(result.message, value@),
{
    OutgoingRecord {
        record_type: RecordType::StoredContractBundleV1,
        message: bundle_to_proto(value),
    }
}

/// Whether a message is the form of some valid value.
pub open spec fn bundle_readable(message: wire::StoredContractBundleV1) -> bool {
    exists|value: ContractBundleView| #[trigger] bundle_carries(message, value)
        && bundle_valid(value)
}

/// Decodes one immutable compiled contract bundle without interpreting it.
pub fn decode_contract_bundle_v1<R: Fn(&StoredContractBundleV1) -> Option<StorageValueError>>(
    attempt: ReadAttempt<wire::StoredContractBundleV1>,
    rule: R,
) -> (result: Result<EncodedPageItem<StoredContractBundleV1>, DurableCodecError>)
    requires
        forall|value: &StoredContractBundleV1| #[trigger] rule.requires((value,)),
    ensures
        match read_outcome(RecordType::StoredContractBundleV1, attempt) {
            Err(kind) => result == Err::<EncodedPageItem<StoredContractBundleV1>, _>(
                DurableCodecError { kind },
            ),
            Ok(message) => if bundle_readable(message) {
                exists|value: StoredContractBundleV1| {
                    &&& bundle_carries(message, value@)
                    &&& bundle_valid(value@)
                    &&& #[trigger] ruled(rule, value, attempt.encoded_len, result)
                }
            } else {
                result == Err::<EncodedPageItem<StoredContractBundleV1>, _>(
                    DurableCodecError { kind: DurableCodecErrorKind::CorruptData },
                )
            },
        },
{
    let encoded_len = attempt.encoded_len;
    let message = read_message(RecordType::StoredContractBundleV1, attempt)?;
    let value = bundle_from_proto(&message)?;
    ruled_item(value, rule, encoded_len)
}

/// Encodes the one active-catalog pointer.
pub fn encode_active_catalog_pointer_v1(value: &ActiveCatalogPointerV1) -> (result: OutgoingRecord<
    wire::ActiveCatalogPointerV1,
>)
    ensures
        result.record_type == RecordType::ActiveCatalogPointerV1,
        active_carries(result.message, value@),
{
    OutgoingRecord {
        record_type: RecordType::ActiveCatalogPointerV1,
        message: active_to_proto(value),
    }
}

/// Whether a message is the form of some valid value.
pub open spec fn active_readable(message: wire::ActiveCatalogPointerV1) -> bool {
    exists|value: ActivePointerView| #[trigger] active_carries(message, value)
        && active_valid(value)
}

/// Decodes the one active-catalog pointer.
pub fn decode_active_catalog_pointer_v1(
    attempt: ReadAttempt<wire::ActiveCatalogPointerV1>,
) -> (result: Result<EncodedPageItem<ActiveCatalogPointerV1>, DurableCodecError>)
    ensures
        match read_outcome(RecordType::ActiveCatalogPointerV1, attempt) {
            Err(kind) => result == Err::<EncodedPageItem<ActiveCatalogPointerV1>, _>(
                DurableCodecError { kind },
            ),
            Ok(message) => match refusal_of(
                active_readable(message),
                None,
                attempt.encoded_len,
            ) {
                Some(kind) => result == Err::<EncodedPageItem<ActiveCatalogPointerV1>, _>(
                    DurableCodecError { kind },
                ),
                None => result is Ok && active_carries(message, result->Ok_0.value@)
                    && active_valid(result->Ok_0.value@)
                    && result->Ok_0.charge.bytes == attempt.encoded_len,
            },
        },
{
    let encoded_len = attempt.encoded_len;
    let message = read_message(RecordType::ActiveCatalogPointerV1, attempt)?;
    let value = active_from_proto(&message)?;
    admitted_item(value, None, encoded_len)
}

/// Encodes one catalog activation administration record.
pub fn encode_catalog_administration_v1(
    value: &StoredCatalogAdministrationV1,
) -> (result: OutgoingRecord<
    wire::StoredCatalogAdministrationV1,
>)
    ensures
        result.record_type == RecordType::StoredCatalogAdministrationV1,
        catalog_administration_carries(result.message, value@),
{
    OutgoingRecord {
        record_type: RecordType::StoredCatalogAdministrationV1,
        message: catalog_administration_to_proto(value),
    }
}

/// Whether a message is the form of some valid value.
pub open spec fn catalog_administration_readable(
    message: wire::StoredCatalogAdministrationV1,
) -> bool {
    exists|value: CatalogAdministrationView| #[trigger]
        catalog_administration_carries(message, value) && catalog_administration_valid(value)
}

/// Decodes one catalog activation administration record.
pub fn decode_catalog_administration_v1(
    attempt: ReadAttempt<wire::StoredCatalogAdministrationV1>,
) -> (result: Result<EncodedPageItem<StoredCatalogAdministrationV1>, DurableCodecError>)
    ensures
        match read_outcome(RecordType::StoredCatalogAdministrationV1, attempt) {
            Err(kind) => result == Err::<EncodedPageItem<StoredCatalogAdministrationV1>, _>(
                DurableCodecError { kind },
            ),
            Ok(message) => match refusal_of(
                catalog_administration_readable(message),
                None,
                attempt.encoded_len,
            ) {
                Some(kind) => result == Err::<EncodedPageItem<StoredCatalogAdministrationV1>, _>(
                    DurableCodecError { kind },
                ),
                None => result is Ok && catalog_administration_carries(message, result->Ok_0.value@)
                    && catalog_administration_valid(result->Ok_0.value@)
                    && result->Ok_0.charge.bytes == attempt.encoded_len,
            },
        },
{
    let encoded_len = attempt.encoded_len;
    let message = read_message(RecordType::StoredCatalogAdministrationV1, attempt)?;
    let value = catalog_administration_from_proto(&message)?;
    admitted_item(value, None, encoded_len)
}

} // verus!
