//! What was written is read back.

use vstd::prelude::*;

use crate::codec::application::{
    decode_durable_event_v1, decode_entity_record_v1, decode_event_route_v1,
    decode_execution_failed_v1, decode_index_entry_v1, decode_index_entry_v2, decode_index_epoch_v1,
    decode_legacy_index_epoch_v1, decode_pending_admission_v1, decode_provenance_record_v1,
    decode_stored_outcome_v1, encode_durable_event_v1, encode_entity_record_v1,
    encode_event_route_v1, encode_execution_failed_v1, encode_index_entry_v1_fixture,
    encode_index_entry_v2, encode_index_epoch_v1, encode_legacy_index_epoch_v1_fixture,
    encode_pending_admission_v1, encode_provenance_record_v1, encode_stored_outcome_v1,
    entity_carries, entity_form_is_exact, entity_readable, entity_valid, event_carries,
    event_form_is_exact, event_readable, event_route_carries, event_route_form_is_exact,
    event_route_readable, event_route_valid, event_valid, execution_failed_carries,
    execution_failed_form_is_exact, execution_failed_readable, execution_failed_valid,
    index_entry_carries, index_entry_form_is_exact, index_entry_readable, index_entry_valid,
    index_epoch_carries, index_epoch_form_is_exact, index_epoch_readable, index_epoch_valid,
    legacy_index_entry_carries, legacy_index_entry_form_is_exact, legacy_index_entry_readable,
    legacy_index_entry_valid, legacy_index_epoch_carries, legacy_index_epoch_form_is_exact,
    legacy_index_epoch_readable, legacy_index_epoch_valid, outcome_v2_carries,
    outcome_v2_form_is_exact, outcome_v2_readable, outcome_v2_valid, pending_v2_carries,
    pending_v2_form_is_exact, pending_v2_readable, pending_v2_valid, provenance_v2_carries,
    provenance_v2_form_is_exact, provenance_v2_readable, provenance_v2_valid,
};
use crate::codec::application_export::{
    decode_application_export_operation_v1, decode_application_export_operation_v2,
    decode_application_export_page_commitment_v1, encode_application_export_operation_v1,
    encode_application_export_operation_v2, encode_application_export_page_commitment_v1,
    export_page_carries, export_page_form_is_exact, export_page_readable, export_v1_carries,
    export_v1_form_is_exact, export_v1_readable, export_v2_carries, export_v2_form_is_exact,
    export_v2_readable,
};
use crate::codec::application_installation::{
    campaign_carries, campaign_form_is_exact, campaign_readable,
    decode_application_installation_campaign_v1, encode_application_installation_campaign_v1,
};
use crate::codec::audit::{
    audit_index_carries, audit_index_form_is_exact, audit_index_readable, audit_index_valid,
    audit_record_carries, audit_record_form_is_exact, audit_record_readable, audit_record_valid,
    decode_service_audit_record_v1, decode_service_audit_request_index_v1,
    encode_service_audit_record_v1, encode_service_audit_request_index_v1,
};
use crate::codec::capability::{
    bootstrap_marker_carries, bootstrap_marker_form_is_exact, bootstrap_marker_readable,
    bootstrap_marker_valid, capability_administration_carries,
    capability_administration_form_is_exact, capability_administration_readable,
    capability_administration_valid, decode_capability_administration_v1,
    decode_capability_bootstrap_marker_v1, decode_capability_token_lookup_v1,
    encode_capability_administration_v1, encode_capability_bootstrap_marker_v1,
    encode_capability_token_lookup_v1, token_lookup_carries, token_lookup_form_is_exact,
    token_lookup_readable,
};
use crate::codec::catalog::{
    active_carries, active_form_is_exact, active_readable, active_valid, bundle_carries,
    bundle_form_is_exact, bundle_readable, bundle_valid, catalog_administration_carries,
    catalog_administration_form_is_exact, catalog_administration_readable,
    catalog_administration_valid, decode_active_catalog_pointer_v1,
    decode_catalog_administration_v1, decode_contract_bundle_v1, encode_active_catalog_pointer_v1,
    encode_catalog_administration_v1, encode_contract_bundle_v1,
};
use crate::codec::changelog::{
    decode_leadership_epoch_v1, decode_primary_fence_administration_v1,
    decode_replication_primary_admission_v1, encode_leadership_epoch_v1,
    encode_primary_fence_administration_v1, encode_replication_primary_admission_v1,
    leadership_carries, leadership_form_is_exact, leadership_readable, leadership_valid,
    primary_admission_carries, primary_admission_form_is_exact, primary_admission_readable,
    primary_admission_valid, primary_fence_carries, primary_fence_form_is_exact,
    primary_fence_readable, primary_fence_valid,
};
use crate::codec::columnar_control::{
    columnar_control_carries, columnar_control_form_is_exact, columnar_control_readable,
    columnar_control_valid, decode_columnar_projection_control_v1,
    encode_columnar_projection_control_v1,
};
use crate::codec::command_capsule::{
    audit_locator_carries, audit_locator_form_is_exact, audit_locator_readable, audit_locator_valid,
    command_locator_carries, command_locator_form_is_exact, command_locator_readable,
    command_locator_valid, decode_command_audit_locator_v1, decode_command_locator_v1,
    encode_command_audit_locator_v1, encode_command_locator_v1,
};
use crate::codec::consumer::{
    consumer_carries, consumer_form_is_exact, consumer_readable, consumer_valid,
    decode_event_consumer_delivery_v1, decode_event_consumer_v1, delivery_carries,
    delivery_form_is_exact, delivery_readable, delivery_valid, encode_event_consumer_delivery_v1,
    encode_event_consumer_v1,
};
use crate::codec::contract_migration::{
    decode_contract_migration_record_v1, decode_contract_write_retirement_v1,
    encode_contract_migration_record_v1, encode_contract_write_retirement_v1,
    migration_record_carries, migration_record_form_is_exact, migration_record_readable,
    migration_record_valid, retirement_carries, retirement_form_is_exact, retirement_readable,
    retirement_valid,
};
use crate::codec::entity_transition::{
    chain_head_carries, chain_head_form_is_exact, chain_head_readable, chain_head_valid,
    decode_changelog_v2_rotation_receipt_v1, decode_entity_chain_head_v1,
    encode_changelog_v2_rotation_receipt_v1, encode_entity_chain_head_v1, rotation_receipt_carries,
    rotation_receipt_form_is_exact, rotation_receipt_readable, rotation_receipt_valid,
};
use crate::codec::envelope::{reads_back, ruled, OutgoingRecord, ReadAttempt};
use crate::codec::error::DurableCodecError;
use crate::codec::metadata::{
    administration_allocator_carries, administration_allocator_form_is_exact,
    administration_allocator_readable, administration_allocator_valid,
    application_allocator_carries, application_allocator_form_is_exact,
    application_allocator_readable, application_allocator_valid, database_identity_carries,
    database_identity_form_is_exact, database_identity_readable,
    decode_administration_sequence_allocator_v1, decode_application_sequence_allocator_v1,
    decode_database_identity_v1, decode_record_registry_v2, decode_storage_format_version_v1,
    encode_administration_sequence_allocator_v1, encode_application_sequence_allocator_v1,
    encode_database_identity_v1, encode_record_registry_v2, encode_storage_format_version_v1,
    format_version_carries, format_version_form_is_exact, format_version_readable,
    record_registry_carries, record_registry_form_is_exact, record_registry_readable,
};
use crate::codec::projection::{
    decode_projection_control_v1, encode_projection_control_v1, projection_control_carries,
    projection_control_form_is_exact, projection_control_readable, projection_control_valid,
};
use crate::codec::record_type::RecordType;
use crate::page::EncodedPageItem;
use crate::projection::control::StoredProjectionControlV1;
use crate::records::{
    StoredContractBundleV1, StoredDurableEventV1, StoredEntityRecordV1, StoredIndexEntryV2,
};
use crate::stored::application::{
    LegacyStoredIndexEpochV1, StoredEventRouteV1, StoredExecutionFailedV1, StoredIndexEntryV1,
    StoredIndexEpochV1, StoredOutcomeV1, StoredPendingAdmissionV1, StoredProvenanceRecordV1,
};
use crate::stored::application_export::{
    ApplicationExportPageCommitmentV1, StoredApplicationExportOperationV1,
    StoredApplicationExportOperationV2,
};
use crate::stored::application_installation::StoredApplicationInstallationCampaignV1;
use crate::stored::audit::{StoredServiceAuditRecordV1, StoredServiceAuditRequestIndexV1};
use crate::stored::capability::{
    CapabilityBootstrapMarkerV1, CapabilityTokenLookupV1, StoredCapabilityAdministrationV1,
};
use crate::stored::catalog::{ActiveCatalogPointerV1, StoredCatalogAdministrationV1};
use crate::stored::changelog::{
    LeadershipEpochV1, ReplicationPrimaryAdmissionV1, StoredPrimaryFenceAdministrationV1,
};
use crate::stored::columnar_control::StoredColumnarProjectionControlV1;
use crate::stored::command_capsule::{StoredCommandAuditLocatorV1, StoredCommandLocatorV1};
use crate::stored::consumer::{StoredEventConsumerDeliveryV1, StoredEventConsumerV1};
use crate::stored::contract_migration::{
    StoredContractMigrationRecordV1, StoredContractWriteRetirementV1,
};
use crate::stored::entity_transition::{ChangelogV2RotationReceipt, EntityChainHeadV1};
use crate::stored::metadata::{
    AdministrationSequenceAllocator, ApplicationSequenceAllocator, DatabaseIdentity,
    RecordRegistryDigest, StorageFormatVersion,
};
use crate::value_error::StorageValueError;
use crate::codec::changelog::{
    encode_changelog_history_state_v3, encode_replication_source_hold_v1, history_carries,
    history_form_is_exact, history_valid, hold_kind_code, source_hold_carries,
    source_hold_form_is_exact, source_hold_valid,
};
use crate::codec::outbox::{
    decode_outbox_status_v1, encode_outbox_status_v1, status_carries, status_form_is_exact,
    status_readable, status_valid,
};
use crate::codec::projection::{
    apply_carries, apply_marker_round_trip, apply_readable, apply_valid, decode_projection_apply_v1,
    decode_projection_state_v1, encode_projection_apply_v1, encode_projection_state_v1, row_parts,
    row_valid, state_round_trip,
};
use crate::codec::replication::{
    decode_changelog_history_state_v3, decode_replication_source_hold_v1, history_readable,
    identifier_readable, source_hold_readable,
};
use crate::outbox::StoredOutboxStatusV1;
use crate::projection::state::{
    state_refusal, stored_parts_refusal, StoredProjectionApplyV1, StoredProjectionStateV1,
};
use crate::projection_schema::CheckedProjectionSchema;
use crate::stored::changelog::{ChangelogHistoryStateV3, ReplicationSourceHoldV1};
use crate::wire;

verus! {

/// An entity row that was written and that its own rule admits is read back as it was,
/// charged for its bytes.
pub proof fn written_entity_records_come_back<R: Fn(&StoredEntityRecordV1)
    -> Option<StorageValueError>>(
    value: StoredEntityRecordV1,
    record: OutgoingRecord<wire::StoredEntityRecordV1>,
    attempt: ReadAttempt<wire::StoredEntityRecordV1>,
    rule: R,
    result: Result<EncodedPageItem<StoredEntityRecordV1>, DurableCodecError>,
)
    requires
        entity_valid(value@),
        call_ensures(encode_entity_record_v1, (&value,), record),
        reads_back(record, attempt),
        forall|held: StoredEntityRecordV1, verdict: Option<StorageValueError>|
            held@ == value@ && #[trigger] rule.ensures((&held,), verdict) ==> verdict is None,
        call_ensures(decode_entity_record_v1::<R>, (attempt, rule), result),
    ensures
        result is Ok,
        result->Ok_0.value@ == value@,
        result->Ok_0.charge.bytes == attempt.encoded_len,
{
    assert(entity_carries(record.message, value@));
    assert(entity_readable(record.message));
    let held = choose|held: StoredEntityRecordV1| {
        &&& entity_carries(record.message, held@)
        &&& entity_valid(held@)
        &&& #[trigger] ruled(rule, held, attempt.encoded_len, result)
    };
    entity_form_is_exact(record.message, held@, value@);
}

/// An index entry that was written and that its own rule admits is read back as it was,
/// charged for its bytes.
pub proof fn written_index_entry_records_come_back<R: Fn(&StoredIndexEntryV2)
    -> Option<StorageValueError>>(
    value: StoredIndexEntryV2,
    record: OutgoingRecord<wire::StoredIndexEntryV2>,
    attempt: ReadAttempt<wire::StoredIndexEntryV2>,
    rule: R,
    result: Result<EncodedPageItem<StoredIndexEntryV2>, DurableCodecError>,
)
    requires
        index_entry_valid(value@),
        call_ensures(encode_index_entry_v2, (&value,), record),
        reads_back(record, attempt),
        forall|held: StoredIndexEntryV2, verdict: Option<StorageValueError>|
            held@ == value@ && #[trigger] rule.ensures((&held,), verdict) ==> verdict is None,
        call_ensures(decode_index_entry_v2::<R>, (attempt, rule), result),
    ensures
        result is Ok,
        result->Ok_0.value@ == value@,
        result->Ok_0.charge.bytes == attempt.encoded_len,
{
    assert(index_entry_carries(record.message, value@));
    assert(index_entry_readable(record.message));
    let held = choose|held: StoredIndexEntryV2| {
        &&& index_entry_carries(record.message, held@)
        &&& index_entry_valid(held@)
        &&& #[trigger] ruled(rule, held, attempt.encoded_len, result)
    };
    index_entry_form_is_exact(record.message, held@, value@);
}

/// A legacy index entry that was written and that its own rule admits is read back as it
/// was, charged for its bytes.
pub proof fn written_legacy_index_entry_records_come_back<R: Fn(&StoredIndexEntryV1)
    -> Option<StorageValueError>>(
    value: StoredIndexEntryV1,
    record: OutgoingRecord<wire::StoredIndexEntryV1>,
    attempt: ReadAttempt<wire::StoredIndexEntryV1>,
    rule: R,
    result: Result<EncodedPageItem<StoredIndexEntryV1>, DurableCodecError>,
)
    requires
        legacy_index_entry_valid(value@),
        call_ensures(encode_index_entry_v1_fixture, (&value,), record),
        reads_back(record, attempt),
        forall|held: StoredIndexEntryV1, verdict: Option<StorageValueError>|
            held@ == value@ && #[trigger] rule.ensures((&held,), verdict) ==> verdict is None,
        call_ensures(decode_index_entry_v1::<R>, (attempt, rule), result),
    ensures
        result is Ok,
        result->Ok_0.value@ == value@,
        result->Ok_0.charge.bytes == attempt.encoded_len,
{
    assert(legacy_index_entry_carries(record.message, value@));
    assert(legacy_index_entry_readable(record.message));
    let held = choose|held: StoredIndexEntryV1| {
        &&& legacy_index_entry_carries(record.message, held@)
        &&& legacy_index_entry_valid(held@)
        &&& #[trigger] ruled(rule, held, attempt.encoded_len, result)
    };
    legacy_index_entry_form_is_exact(record.message, held@, value@);
}

/// The epoch of one partitioned index that was written is read back as it was, charged for
/// its bytes.
pub proof fn written_index_epoch_records_come_back(
    value: StoredIndexEpochV1,
    record: OutgoingRecord<wire::StoredIndexGenerationV2>,
    attempt: ReadAttempt<wire::StoredIndexGenerationV2>,
    result: Result<EncodedPageItem<StoredIndexEpochV1>, DurableCodecError>,
)
    requires
        index_epoch_valid(value@),
        call_ensures(encode_index_epoch_v1, (&value,), record),
        reads_back(record, attempt),
        call_ensures(decode_index_epoch_v1, (attempt,), result),
    ensures
        result is Ok,
        result->Ok_0.value@ == value@,
        result->Ok_0.charge.bytes == attempt.encoded_len,
{
    assert(index_epoch_carries(record.message, value@));
    assert(index_epoch_readable(record.message));
    index_epoch_form_is_exact(record.message, result->Ok_0.value@, value@);
}

/// The epoch of one historical index range prefix that was written is read back as it was,
/// charged for its bytes.
pub proof fn written_legacy_index_epoch_records_come_back(
    value: LegacyStoredIndexEpochV1,
    record: OutgoingRecord<wire::StoredIndexEpochV1>,
    attempt: ReadAttempt<wire::StoredIndexEpochV1>,
    result: Result<EncodedPageItem<LegacyStoredIndexEpochV1>, DurableCodecError>,
)
    requires
        legacy_index_epoch_valid(value@),
        call_ensures(encode_legacy_index_epoch_v1_fixture, (&value,), record),
        reads_back(record, attempt),
        call_ensures(decode_legacy_index_epoch_v1, (attempt,), result),
    ensures
        result is Ok,
        result->Ok_0.value@ == value@,
        result->Ok_0.charge.bytes == attempt.encoded_len,
{
    assert(legacy_index_epoch_carries(record.message, value@));
    assert(legacy_index_epoch_readable(record.message));
    legacy_index_epoch_form_is_exact(record.message, result->Ok_0.value@, value@);
}

/// A durable event that was written and that its own rule admits is read back as it was,
/// charged for its bytes.
pub proof fn written_event_records_come_back<R: Fn(&StoredDurableEventV1)
    -> Option<StorageValueError>>(
    value: StoredDurableEventV1,
    record: OutgoingRecord<wire::StoredDurableEventV1>,
    attempt: ReadAttempt<wire::StoredDurableEventV1>,
    rule: R,
    result: Result<EncodedPageItem<StoredDurableEventV1>, DurableCodecError>,
)
    requires
        event_valid(value@),
        call_ensures(encode_durable_event_v1, (&value,), record),
        reads_back(record, attempt),
        forall|held: StoredDurableEventV1, verdict: Option<StorageValueError>|
            held@ == value@ && #[trigger] rule.ensures((&held,), verdict) ==> verdict is None,
        call_ensures(decode_durable_event_v1::<R>, (attempt, rule), result),
    ensures
        result is Ok,
        result->Ok_0.value@ == value@,
        result->Ok_0.charge.bytes == attempt.encoded_len,
{
    assert(event_carries(record.message, value@));
    assert(event_readable(record.message));
    let held = choose|held: StoredDurableEventV1| {
        &&& event_carries(record.message, held@)
        &&& event_valid(held@)
        &&& #[trigger] ruled(rule, held, attempt.encoded_len, result)
    };
    event_form_is_exact(record.message, held@, value@);
}

/// A payload-free partition event route that was written is read back as it was, charged
/// for its bytes.
pub proof fn written_event_route_records_come_back(
    value: StoredEventRouteV1,
    record: OutgoingRecord<wire::StoredEventRouteV1>,
    attempt: ReadAttempt<wire::StoredEventRouteV1>,
    result: Result<EncodedPageItem<StoredEventRouteV1>, DurableCodecError>,
)
    requires
        event_route_valid(value),
        call_ensures(encode_event_route_v1, (value,), record),
        reads_back(record, attempt),
        call_ensures(decode_event_route_v1, (attempt,), result),
    ensures
        result is Ok,
        result->Ok_0.value == value,
        result->Ok_0.charge.bytes == attempt.encoded_len,
{
    assert(event_route_carries(record.message, value));
    assert(event_route_readable(record.message));
    event_route_form_is_exact(record.message, result->Ok_0.value, value);
}

/// A pending command admission that was written and that its own rule admits is read back
/// as it was, charged for its bytes.
pub proof fn written_pending_records_come_back<R: Fn(&StoredPendingAdmissionV1)
    -> Option<StorageValueError>>(
    value: StoredPendingAdmissionV1,
    record: OutgoingRecord<wire::StoredPendingAdmissionV2>,
    attempt: ReadAttempt<wire::StoredPendingAdmissionV2>,
    legacy: ReadAttempt<wire::StoredPendingAdmissionV1>,
    rule: R,
    result: Result<EncodedPageItem<StoredPendingAdmissionV1>, DurableCodecError>,
)
    requires
        pending_v2_valid(value@),
        call_ensures(encode_pending_admission_v1, (&value,), record),
        reads_back(record, attempt),
        forall|held: StoredPendingAdmissionV1, verdict: Option<StorageValueError>|
            held@ == value@ && #[trigger] rule.ensures((&held,), verdict) ==> verdict is None,
        call_ensures(decode_pending_admission_v1::<R>,
            (Ok(RecordType::StoredPendingAdmissionV2), attempt, legacy, rule), result),
    ensures
        result is Ok,
        result->Ok_0.value@ == value@,
        result->Ok_0.charge.bytes == attempt.encoded_len,
{
    assert(pending_v2_carries(record.message, value@));
    assert(pending_v2_readable(record.message));
    let held = choose|held: StoredPendingAdmissionV1| {
        &&& pending_v2_carries(record.message, held@)
        &&& pending_v2_valid(held@)
        &&& #[trigger] ruled(rule, held, attempt.encoded_len, result)
    };
    pending_v2_form_is_exact(record.message, held@, value@);
}

/// A terminal deterministic execution failure that was written and that its own rule admits
/// is read back as it was, charged for its bytes.
pub proof fn written_execution_failed_records_come_back<R: Fn(&StoredExecutionFailedV1)
    -> Option<StorageValueError>>(
    value: StoredExecutionFailedV1,
    record: OutgoingRecord<wire::StoredExecutionFailedV2>,
    attempt: ReadAttempt<wire::StoredExecutionFailedV2>,
    legacy: ReadAttempt<wire::StoredExecutionFailedV1>,
    rule: R,
    result: Result<EncodedPageItem<StoredExecutionFailedV1>, DurableCodecError>,
)
    requires
        execution_failed_valid(value@),
        call_ensures(encode_execution_failed_v1, (&value,), record),
        reads_back(record, attempt),
        forall|held: StoredExecutionFailedV1, verdict: Option<StorageValueError>|
            held@ == value@ && #[trigger] rule.ensures((&held,), verdict) ==> verdict is None,
        call_ensures(decode_execution_failed_v1::<R>,
            (Ok(RecordType::StoredExecutionFailedV2), attempt, legacy, rule), result),
    ensures
        result is Ok,
        result->Ok_0.value@ == value@,
        result->Ok_0.charge.bytes == attempt.encoded_len,
{
    assert(execution_failed_carries(record.message, value@));
    assert(execution_failed_readable(record.message));
    let held = choose|held: StoredExecutionFailedV1| {
        &&& execution_failed_carries(record.message, held@)
        &&& execution_failed_valid(held@)
        &&& #[trigger] ruled(rule, held, attempt.encoded_len, result)
    };
    execution_failed_form_is_exact(record.message, held@, value@);
}

/// A complete terminal idempotency outcome that was written and that its own rule admits is
/// read back as it was, charged for its bytes.
pub proof fn written_outcome_records_come_back<R: Fn(&StoredOutcomeV1)
    -> Option<StorageValueError>>(
    value: StoredOutcomeV1,
    record: OutgoingRecord<wire::StoredOutcomeV2>,
    attempt: ReadAttempt<wire::StoredOutcomeV2>,
    legacy: ReadAttempt<wire::StoredOutcomeV1>,
    rule: R,
    result: Result<EncodedPageItem<StoredOutcomeV1>, DurableCodecError>,
)
    requires
        outcome_v2_valid(value@),
        call_ensures(encode_stored_outcome_v1, (&value,), record),
        reads_back(record, attempt),
        forall|held: StoredOutcomeV1, verdict: Option<StorageValueError>|
            held@ == value@ && #[trigger] rule.ensures((&held,), verdict) ==> verdict is None,
        call_ensures(decode_stored_outcome_v1::<R>,
            (Ok(RecordType::StoredOutcomeV2), attempt, legacy, rule), result),
    ensures
        result is Ok,
        result->Ok_0.value@ == value@,
        result->Ok_0.charge.bytes == attempt.encoded_len,
{
    assert(outcome_v2_carries(record.message, value@));
    assert(outcome_v2_readable(record.message));
    let held = choose|held: StoredOutcomeV1| {
        &&& outcome_v2_carries(record.message, held@)
        &&& outcome_v2_valid(held@)
        &&& #[trigger] ruled(rule, held, attempt.encoded_len, result)
    };
    outcome_v2_form_is_exact(record.message, held@, value@);
}

/// An immutable command provenance record that was written and that its own rule admits is
/// read back as it was, charged for its bytes.
pub proof fn written_provenance_records_come_back<R: Fn(&StoredProvenanceRecordV1)
    -> Option<StorageValueError>>(
    value: StoredProvenanceRecordV1,
    record: OutgoingRecord<wire::StoredProvenanceRecordV2>,
    attempt: ReadAttempt<wire::StoredProvenanceRecordV2>,
    legacy: ReadAttempt<wire::StoredProvenanceRecordV1>,
    rule: R,
    result: Result<EncodedPageItem<StoredProvenanceRecordV1>, DurableCodecError>,
)
    requires
        provenance_v2_valid(value@),
        call_ensures(encode_provenance_record_v1, (&value,), record),
        reads_back(record, attempt),
        forall|held: StoredProvenanceRecordV1, verdict: Option<StorageValueError>|
            held@ == value@ && #[trigger] rule.ensures((&held,), verdict) ==> verdict is None,
        call_ensures(decode_provenance_record_v1::<R>,
            (Ok(RecordType::StoredProvenanceRecordV2), attempt, legacy, rule), result),
    ensures
        result is Ok,
        result->Ok_0.value@ == value@,
        result->Ok_0.charge.bytes == attempt.encoded_len,
{
    assert(provenance_v2_carries(record.message, value@));
    assert(provenance_v2_readable(record.message));
    let held = choose|held: StoredProvenanceRecordV1| {
        &&& provenance_v2_carries(record.message, held@)
        &&& provenance_v2_valid(held@)
        &&& #[trigger] ruled(rule, held, attempt.encoded_len, result)
    };
    provenance_v2_form_is_exact(record.message, held@, value@);
}

/// A compact application-export head that was written and that its own rule admits is read
/// back as it was, charged for its bytes.
pub proof fn written_export_v2_records_come_back<R: Fn(&StoredApplicationExportOperationV2)
    -> Option<StorageValueError>>(
    value: StoredApplicationExportOperationV2,
    record: OutgoingRecord<wire::StoredApplicationExportOperationV2>,
    attempt: ReadAttempt<wire::StoredApplicationExportOperationV2>,
    rule: R,
    result: Result<EncodedPageItem<StoredApplicationExportOperationV2>, DurableCodecError>,
)
    requires
        call_ensures(encode_application_export_operation_v2, (&value,), record),
        reads_back(record, attempt),
        forall|held: StoredApplicationExportOperationV2, verdict: Option<StorageValueError>|
            held@ == value@ && #[trigger] rule.ensures((&held,), verdict) ==> verdict is None,
        call_ensures(decode_application_export_operation_v2::<R>, (attempt, rule), result),
    ensures
        result is Ok,
        result->Ok_0.value@ == value@,
        result->Ok_0.charge.bytes == attempt.encoded_len,
{
    assert(export_v2_carries(record.message, value@));
    assert(export_v2_readable(record.message));
    let held = choose|held: StoredApplicationExportOperationV2| {
        &&& export_v2_carries(record.message, held@)
        &&& #[trigger] ruled(rule, held, attempt.encoded_len, result)
    };
    export_v2_form_is_exact(record.message, held@, value@);
}

/// An application-export checkpoint or receipt that was written and that its own rule
/// admits is read back as it was, charged for its bytes.
pub proof fn written_export_v1_records_come_back<R: Fn(&StoredApplicationExportOperationV1)
    -> Option<StorageValueError>>(
    value: StoredApplicationExportOperationV1,
    record: OutgoingRecord<wire::StoredApplicationExportOperationV1>,
    attempt: ReadAttempt<wire::StoredApplicationExportOperationV1>,
    rule: R,
    result: Result<EncodedPageItem<StoredApplicationExportOperationV1>, DurableCodecError>,
)
    requires
        call_ensures(encode_application_export_operation_v1, (&value,), record),
        reads_back(record, attempt),
        forall|held: StoredApplicationExportOperationV1, verdict: Option<StorageValueError>|
            held@ == value@ && #[trigger] rule.ensures((&held,), verdict) ==> verdict is None,
        call_ensures(decode_application_export_operation_v1::<R>, (attempt, rule), result),
    ensures
        result is Ok,
        result->Ok_0.value@ == value@,
        result->Ok_0.charge.bytes == attempt.encoded_len,
{
    assert(export_v1_carries(record.message, value@));
    assert(export_v1_readable(record.message));
    let held = choose|held: StoredApplicationExportOperationV1| {
        &&& export_v1_carries(record.message, held@)
        &&& #[trigger] ruled(rule, held, attempt.encoded_len, result)
    };
    export_v1_form_is_exact(record.message, held@, value@);
}

/// A page of the export ledger that was written and that its own rule admits is read back
/// as it was, charged for its bytes.
pub proof fn written_export_page_records_come_back<R: Fn(&ApplicationExportPageCommitmentV1)
    -> Option<StorageValueError>>(
    value: ApplicationExportPageCommitmentV1,
    record: OutgoingRecord<wire::StoredApplicationExportPageCommitmentV1>,
    attempt: ReadAttempt<wire::StoredApplicationExportPageCommitmentV1>,
    rule: R,
    result: Result<EncodedPageItem<ApplicationExportPageCommitmentV1>, DurableCodecError>,
)
    requires
        call_ensures(encode_application_export_page_commitment_v1, (&value,), record),
        reads_back(record, attempt),
        forall|held: ApplicationExportPageCommitmentV1, verdict: Option<StorageValueError>|
            held@ == value@ && #[trigger] rule.ensures((&held,), verdict) ==> verdict is None,
        call_ensures(decode_application_export_page_commitment_v1::<R>, (attempt, rule), result),
    ensures
        result is Ok,
        result->Ok_0.value@ == value@,
        result->Ok_0.charge.bytes == attempt.encoded_len,
{
    assert(export_page_carries(record.message, value@));
    assert(export_page_readable(record.message));
    let held = choose|held: ApplicationExportPageCommitmentV1| {
        &&& export_page_carries(record.message, held@)
        &&& #[trigger] ruled(rule, held, attempt.encoded_len, result)
    };
    export_page_form_is_exact(record.message, held@, value@);
}

/// An application-installation campaign that was written and that its own rule admits is
/// read back as it was, charged for its bytes.
pub proof fn written_campaign_records_come_back<R: Fn(&StoredApplicationInstallationCampaignV1)
    -> Option<StorageValueError>>(
    value: StoredApplicationInstallationCampaignV1,
    record: OutgoingRecord<wire::StoredApplicationInstallationCampaignV1>,
    attempt: ReadAttempt<wire::StoredApplicationInstallationCampaignV1>,
    rule: R,
    result: Result<EncodedPageItem<StoredApplicationInstallationCampaignV1>, DurableCodecError>,
)
    requires
        call_ensures(encode_application_installation_campaign_v1, (&value,), record),
        reads_back(record, attempt),
        forall|held: StoredApplicationInstallationCampaignV1, verdict: Option<StorageValueError>|
            held@ == value@ && #[trigger] rule.ensures((&held,), verdict) ==> verdict is None,
        call_ensures(decode_application_installation_campaign_v1::<R>, (attempt, rule), result),
    ensures
        result is Ok,
        result->Ok_0.value@ == value@,
        result->Ok_0.charge.bytes == attempt.encoded_len,
{
    assert(campaign_carries(record.message, value@));
    assert(campaign_readable(record.message));
    let held = choose|held: StoredApplicationInstallationCampaignV1| {
        &&& campaign_carries(record.message, held@)
        &&& #[trigger] ruled(rule, held, attempt.encoded_len, result)
    };
    campaign_form_is_exact(record.message, held@, value@);
}

/// An index row from a request to its audit sequence that was written is read back as it
/// was, charged for its bytes.
pub proof fn written_audit_index_records_come_back(
    value: StoredServiceAuditRequestIndexV1,
    record: OutgoingRecord<wire::StoredServiceAuditRequestIndexV1>,
    attempt: ReadAttempt<wire::StoredServiceAuditRequestIndexV1>,
    result: Result<EncodedPageItem<StoredServiceAuditRequestIndexV1>, DurableCodecError>,
)
    requires
        audit_index_valid(value),
        call_ensures(encode_service_audit_request_index_v1, (value,), record),
        reads_back(record, attempt),
        call_ensures(decode_service_audit_request_index_v1, (attempt,), result),
    ensures
        result is Ok,
        result->Ok_0.value == value,
        result->Ok_0.charge.bytes == attempt.encoded_len,
{
    assert(audit_index_carries(record.message, value));
    assert(audit_index_readable(record.message));
    audit_index_form_is_exact(record.message, result->Ok_0.value, value);
}

/// A service audit record that was written and that its own rule admits is read back as it
/// was, charged for its bytes.
pub proof fn written_audit_records_come_back<R: Fn(&StoredServiceAuditRecordV1)
    -> Option<StorageValueError>>(
    value: StoredServiceAuditRecordV1,
    record: OutgoingRecord<wire::ServiceAuditRecordV1>,
    attempt: ReadAttempt<wire::ServiceAuditRecordV1>,
    rule: R,
    result: Result<EncodedPageItem<StoredServiceAuditRecordV1>, DurableCodecError>,
)
    requires
        audit_record_valid(value@),
        call_ensures(encode_service_audit_record_v1, (&value,), record),
        reads_back(record, attempt),
        forall|held: StoredServiceAuditRecordV1, verdict: Option<StorageValueError>|
            held@ == value@ && #[trigger] rule.ensures((&held,), verdict) ==> verdict is None,
        call_ensures(decode_service_audit_record_v1::<R>, (attempt, rule), result),
    ensures
        result is Ok,
        result->Ok_0.value@ == value@,
        result->Ok_0.charge.bytes == attempt.encoded_len,
{
    assert(audit_record_carries(record.message, value@));
    assert(audit_record_readable(record.message));
    let held = choose|held: StoredServiceAuditRecordV1| {
        &&& audit_record_carries(record.message, held@)
        &&& audit_record_valid(held@)
        &&& #[trigger] ruled(rule, held, attempt.encoded_len, result)
    };
    audit_record_form_is_exact(record.message, held@, value@);
}

/// The capability that a token digest leads to that was written is read back as it was,
/// charged for its bytes.
pub proof fn written_token_lookup_records_come_back(
    value: CapabilityTokenLookupV1,
    record: OutgoingRecord<wire::CapabilityTokenLookupV1>,
    attempt: ReadAttempt<wire::CapabilityTokenLookupV1>,
    result: Result<EncodedPageItem<CapabilityTokenLookupV1>, DurableCodecError>,
)
    requires
        call_ensures(encode_capability_token_lookup_v1, (value,), record),
        reads_back(record, attempt),
        call_ensures(decode_capability_token_lookup_v1, (attempt,), result),
    ensures
        result is Ok,
        result->Ok_0.value == value,
        result->Ok_0.charge.bytes == attempt.encoded_len,
{
    assert(token_lookup_carries(record.message, value));
    assert(token_lookup_readable(record.message));
    token_lookup_form_is_exact(record.message, result->Ok_0.value, value);
}

/// The irreversible capability-bootstrap marker that was written is read back as it was,
/// charged for its bytes.
pub proof fn written_bootstrap_marker_records_come_back(
    value: CapabilityBootstrapMarkerV1,
    record: OutgoingRecord<wire::CapabilityBootstrapMarkerV1>,
    attempt: ReadAttempt<wire::CapabilityBootstrapMarkerV1>,
    result: Result<EncodedPageItem<CapabilityBootstrapMarkerV1>, DurableCodecError>,
)
    requires
        bootstrap_marker_valid(value),
        call_ensures(encode_capability_bootstrap_marker_v1, (value,), record),
        reads_back(record, attempt),
        call_ensures(decode_capability_bootstrap_marker_v1, (attempt,), result),
    ensures
        result is Ok,
        result->Ok_0.value == value,
        result->Ok_0.charge.bytes == attempt.encoded_len,
{
    assert(bootstrap_marker_carries(record.message, value));
    assert(bootstrap_marker_readable(record.message));
    bootstrap_marker_form_is_exact(record.message, result->Ok_0.value, value);
}

/// A capability-administration audit record that was written and that its own rule admits
/// is read back as it was, charged for its bytes.
pub proof fn written_capability_administration_records_come_back<
    R: Fn(&StoredCapabilityAdministrationV1) -> Option<StorageValueError>,
>(
    value: StoredCapabilityAdministrationV1,
    record: OutgoingRecord<wire::CapabilityAdministrationAuditV1>,
    attempt: ReadAttempt<wire::CapabilityAdministrationAuditV1>,
    rule: R,
    result: Result<EncodedPageItem<StoredCapabilityAdministrationV1>, DurableCodecError>,
)
    requires
        capability_administration_valid(value@),
        call_ensures(encode_capability_administration_v1, (&value,), record),
        reads_back(record, attempt),
        forall|held: StoredCapabilityAdministrationV1, verdict: Option<StorageValueError>|
            held@ == value@ && #[trigger] rule.ensures((&held,), verdict) ==> verdict is None,
        call_ensures(decode_capability_administration_v1::<R>, (attempt, rule), result),
    ensures
        result is Ok,
        result->Ok_0.value@ == value@,
        result->Ok_0.charge.bytes == attempt.encoded_len,
{
    assert(capability_administration_carries(record.message, value@));
    assert(capability_administration_readable(record.message));
    let held = choose|held: StoredCapabilityAdministrationV1| {
        &&& capability_administration_carries(record.message, held@)
        &&& capability_administration_valid(held@)
        &&& #[trigger] ruled(rule, held, attempt.encoded_len, result)
    };
    capability_administration_form_is_exact(record.message, held@, value@);
}

/// A compiled contract bundle that was written and that its own rule admits is read back as
/// it was, charged for its bytes.
pub proof fn written_bundle_records_come_back<R: Fn(&StoredContractBundleV1)
    -> Option<StorageValueError>>(
    value: StoredContractBundleV1,
    record: OutgoingRecord<wire::StoredContractBundleV1>,
    attempt: ReadAttempt<wire::StoredContractBundleV1>,
    rule: R,
    result: Result<EncodedPageItem<StoredContractBundleV1>, DurableCodecError>,
)
    requires
        bundle_valid(value@),
        call_ensures(encode_contract_bundle_v1, (&value,), record),
        reads_back(record, attempt),
        forall|held: StoredContractBundleV1, verdict: Option<StorageValueError>|
            held@ == value@ && #[trigger] rule.ensures((&held,), verdict) ==> verdict is None,
        call_ensures(decode_contract_bundle_v1::<R>, (attempt, rule), result),
    ensures
        result is Ok,
        result->Ok_0.value@ == value@,
        result->Ok_0.charge.bytes == attempt.encoded_len,
{
    assert(bundle_carries(record.message, value@));
    assert(bundle_readable(record.message));
    let held = choose|held: StoredContractBundleV1| {
        &&& bundle_carries(record.message, held@)
        &&& bundle_valid(held@)
        &&& #[trigger] ruled(rule, held, attempt.encoded_len, result)
    };
    bundle_form_is_exact(record.message, held@, value@);
}

/// The active catalog pointer that was written is read back as it was, charged for its bytes.
pub proof fn written_active_records_come_back(
    value: ActiveCatalogPointerV1,
    record: OutgoingRecord<wire::ActiveCatalogPointerV1>,
    attempt: ReadAttempt<wire::ActiveCatalogPointerV1>,
    result: Result<EncodedPageItem<ActiveCatalogPointerV1>, DurableCodecError>,
)
    requires
        active_valid(value@),
        call_ensures(encode_active_catalog_pointer_v1, (&value,), record),
        reads_back(record, attempt),
        call_ensures(decode_active_catalog_pointer_v1, (attempt,), result),
    ensures
        result is Ok,
        result->Ok_0.value@ == value@,
        result->Ok_0.charge.bytes == attempt.encoded_len,
{
    assert(active_carries(record.message, value@));
    assert(active_readable(record.message));
    active_form_is_exact(record.message, result->Ok_0.value@, value@);
}

/// A catalog activation record that was written is read back as it was, charged for its bytes.
pub proof fn written_catalog_administration_records_come_back(
    value: StoredCatalogAdministrationV1,
    record: OutgoingRecord<wire::StoredCatalogAdministrationV1>,
    attempt: ReadAttempt<wire::StoredCatalogAdministrationV1>,
    result: Result<EncodedPageItem<StoredCatalogAdministrationV1>, DurableCodecError>,
)
    requires
        catalog_administration_valid(value@),
        call_ensures(encode_catalog_administration_v1, (&value,), record),
        reads_back(record, attempt),
        call_ensures(decode_catalog_administration_v1, (attempt,), result),
    ensures
        result is Ok,
        result->Ok_0.value@ == value@,
        result->Ok_0.charge.bytes == attempt.encoded_len,
{
    assert(catalog_administration_carries(record.message, value@));
    assert(catalog_administration_readable(record.message));
    catalog_administration_form_is_exact(record.message, result->Ok_0.value@, value@);
}

/// A leadership epoch that was written is read back as it was, charged for its bytes.
pub proof fn written_leadership_records_come_back(
    value: LeadershipEpochV1,
    record: OutgoingRecord<wire::StoredLeadershipEpochV1>,
    attempt: ReadAttempt<wire::StoredLeadershipEpochV1>,
    result: Result<EncodedPageItem<LeadershipEpochV1>, DurableCodecError>,
)
    requires
        leadership_valid(value),
        call_ensures(encode_leadership_epoch_v1, (value,), record),
        reads_back(record, attempt),
        call_ensures(decode_leadership_epoch_v1, (attempt,), result),
    ensures
        result is Ok,
        result->Ok_0.value == value,
        result->Ok_0.charge.bytes == attempt.encoded_len,
{
    assert(leadership_carries(record.message, value));
    assert(leadership_readable(record.message));
    leadership_form_is_exact(record.message, result->Ok_0.value, value);
}

/// A primary fence record that was written is read back as it was, charged for its bytes.
pub proof fn written_primary_fence_records_come_back(
    value: StoredPrimaryFenceAdministrationV1,
    record: OutgoingRecord<wire::StoredPrimaryFenceAdministrationV1>,
    attempt: ReadAttempt<wire::StoredPrimaryFenceAdministrationV1>,
    result: Result<EncodedPageItem<StoredPrimaryFenceAdministrationV1>, DurableCodecError>,
)
    requires
        primary_fence_valid(value@),
        call_ensures(encode_primary_fence_administration_v1, (&value,), record),
        reads_back(record, attempt),
        call_ensures(decode_primary_fence_administration_v1, (attempt,), result),
    ensures
        result is Ok,
        result->Ok_0.value@ == value@,
        result->Ok_0.charge.bytes == attempt.encoded_len,
{
    assert(primary_fence_carries(record.message, value@));
    assert(primary_fence_readable(record.message));
    primary_fence_form_is_exact(record.message, result->Ok_0.value@, value@);
}

/// A primary's admission state that was written is read back as it was, charged for its bytes.
pub proof fn written_primary_admission_records_come_back(
    value: ReplicationPrimaryAdmissionV1,
    record: OutgoingRecord<wire::ReplicationPrimaryAdmissionV1>,
    attempt: ReadAttempt<wire::ReplicationPrimaryAdmissionV1>,
    result: Result<EncodedPageItem<ReplicationPrimaryAdmissionV1>, DurableCodecError>,
)
    requires
        primary_admission_valid(value@),
        call_ensures(encode_replication_primary_admission_v1, (&value,), record),
        reads_back(record, attempt),
        call_ensures(decode_replication_primary_admission_v1, (attempt,), result),
    ensures
        result is Ok,
        result->Ok_0.value@ == value@,
        result->Ok_0.charge.bytes == attempt.encoded_len,
{
    assert(primary_admission_carries(record.message, value@));
    assert(primary_admission_readable(record.message));
    primary_admission_form_is_exact(record.message, result->Ok_0.value@, value@);
}

/// A columnar projection control record that was written is read back as it was, charged
/// for its bytes.
pub proof fn written_columnar_control_records_come_back(
    value: StoredColumnarProjectionControlV1,
    record: OutgoingRecord<wire::StoredColumnarProjectionControlV1>,
    attempt: ReadAttempt<wire::StoredColumnarProjectionControlV1>,
    result: Result<EncodedPageItem<StoredColumnarProjectionControlV1>, DurableCodecError>,
)
    requires
        columnar_control_valid(value@),
        call_ensures(encode_columnar_projection_control_v1, (&value,), record),
        reads_back(record, attempt),
        call_ensures(decode_columnar_projection_control_v1, (attempt,), result),
    ensures
        result is Ok,
        result->Ok_0.value@ == value@,
        result->Ok_0.charge.bytes == attempt.encoded_len,
{
    assert(columnar_control_carries(record.message, value@));
    assert(columnar_control_readable(record.message));
    columnar_control_form_is_exact(record.message, result->Ok_0.value@, value@);
}

/// A locator of a successful command that was written is read back as it was, charged for
/// its bytes.
pub proof fn written_command_locator_records_come_back(
    value: StoredCommandLocatorV1,
    record: OutgoingRecord<wire::StoredCommandLocatorV1>,
    attempt: ReadAttempt<wire::StoredCommandLocatorV1>,
    result: Result<EncodedPageItem<StoredCommandLocatorV1>, DurableCodecError>,
)
    requires
        command_locator_valid(value),
        call_ensures(encode_command_locator_v1, (value,), record),
        reads_back(record, attempt),
        call_ensures(decode_command_locator_v1, (attempt,), result),
    ensures
        result is Ok,
        result->Ok_0.value == value,
        result->Ok_0.charge.bytes == attempt.encoded_len,
{
    assert(command_locator_carries(record.message, value));
    assert(command_locator_readable(record.message));
    command_locator_form_is_exact(record.message, result->Ok_0.value, value);
}

/// A locator of a command's audit record that was written is read back as it was, charged
/// for its bytes.
pub proof fn written_audit_locator_records_come_back(
    value: StoredCommandAuditLocatorV1,
    record: OutgoingRecord<wire::StoredCommandAuditLocatorV1>,
    attempt: ReadAttempt<wire::StoredCommandAuditLocatorV1>,
    result: Result<EncodedPageItem<StoredCommandAuditLocatorV1>, DurableCodecError>,
)
    requires
        audit_locator_valid(value),
        call_ensures(encode_command_audit_locator_v1, (value,), record),
        reads_back(record, attempt),
        call_ensures(decode_command_audit_locator_v1, (attempt,), result),
    ensures
        result is Ok,
        result->Ok_0.value == value,
        result->Ok_0.charge.bytes == attempt.encoded_len,
{
    assert(audit_locator_carries(record.message, value));
    assert(audit_locator_readable(record.message));
    audit_locator_form_is_exact(record.message, result->Ok_0.value, value);
}

/// A bounded durable consumer that was written is read back as it was, charged for its bytes.
pub proof fn written_consumer_records_come_back(
    value: StoredEventConsumerV1,
    record: OutgoingRecord<wire::StoredEventConsumerV1>,
    attempt: ReadAttempt<wire::StoredEventConsumerV1>,
    result: Result<EncodedPageItem<StoredEventConsumerV1>, DurableCodecError>,
)
    requires
        consumer_valid(value@),
        call_ensures(encode_event_consumer_v1, (&value,), record),
        reads_back(record, attempt),
        call_ensures(decode_event_consumer_v1, (attempt,), result),
    ensures
        result is Ok,
        result->Ok_0.value@ == value@,
        result->Ok_0.charge.bytes == attempt.encoded_len,
{
    assert(consumer_carries(record.message, value@));
    assert(consumer_readable(record.message));
    consumer_form_is_exact(record.message, result->Ok_0.value@, value@);
}

/// A payload-free durable delivery row that was written is read back as it was, charged for
/// its bytes.
pub proof fn written_delivery_records_come_back(
    value: StoredEventConsumerDeliveryV1,
    record: OutgoingRecord<wire::StoredEventConsumerDeliveryV1>,
    attempt: ReadAttempt<wire::StoredEventConsumerDeliveryV1>,
    result: Result<EncodedPageItem<StoredEventConsumerDeliveryV1>, DurableCodecError>,
)
    requires
        delivery_valid(value),
        call_ensures(encode_event_consumer_delivery_v1, (value,), record),
        reads_back(record, attempt),
        call_ensures(decode_event_consumer_delivery_v1, (attempt,), result),
    ensures
        result is Ok,
        result->Ok_0.value == value,
        result->Ok_0.charge.bytes == attempt.encoded_len,
{
    assert(delivery_carries(record.message, value));
    assert(delivery_readable(record.message));
    delivery_form_is_exact(record.message, result->Ok_0.value, value);
}

/// A permanent contract migration record that was written and that its own rule admits is
/// read back as it was, charged for its bytes.
pub proof fn written_migration_records_come_back<R: Fn(&StoredContractMigrationRecordV1)
    -> Option<StorageValueError>>(
    value: StoredContractMigrationRecordV1,
    record: OutgoingRecord<wire::StoredContractMigrationRecordV1>,
    attempt: ReadAttempt<wire::StoredContractMigrationRecordV1>,
    rule: R,
    result: Result<EncodedPageItem<StoredContractMigrationRecordV1>, DurableCodecError>,
)
    requires
        migration_record_valid(value@),
        call_ensures(encode_contract_migration_record_v1, (&value,), record),
        reads_back(record, attempt),
        forall|held: StoredContractMigrationRecordV1, verdict: Option<StorageValueError>|
            held@ == value@ && #[trigger] rule.ensures((&held,), verdict) ==> verdict is None,
        call_ensures(decode_contract_migration_record_v1::<R>, (attempt, rule), result),
    ensures
        result is Ok,
        result->Ok_0.value@ == value@,
        result->Ok_0.charge.bytes == attempt.encoded_len,
{
    assert(migration_record_carries(record.message, value@));
    assert(migration_record_readable(record.message));
    let held = choose|held: StoredContractMigrationRecordV1| {
        &&& migration_record_carries(record.message, held@)
        &&& migration_record_valid(held@)
        &&& #[trigger] ruled(rule, held, attempt.encoded_len, result)
    };
    migration_record_form_is_exact(record.message, held@, value@);
}

/// The retirement of a predecessor's writes that was written is read back as it was,
/// charged for its bytes.
pub proof fn written_retirement_records_come_back(
    value: StoredContractWriteRetirementV1,
    record: OutgoingRecord<wire::StoredContractWriteRetirementV1>,
    attempt: ReadAttempt<wire::StoredContractWriteRetirementV1>,
    result: Result<EncodedPageItem<StoredContractWriteRetirementV1>, DurableCodecError>,
)
    requires
        retirement_valid(value),
        call_ensures(encode_contract_write_retirement_v1, (value,), record),
        reads_back(record, attempt),
        call_ensures(decode_contract_write_retirement_v1, (attempt,), result),
    ensures
        result is Ok,
        result->Ok_0.value == value,
        result->Ok_0.charge.bytes == attempt.encoded_len,
{
    assert(retirement_carries(record.message, value));
    assert(retirement_readable(record.message));
    retirement_form_is_exact(record.message, result->Ok_0.value, value);
}

/// An authoritative entity-chain head that was written and that its own rule admits is read
/// back as it was, charged for its bytes.
pub proof fn written_chain_head_records_come_back<R: Fn(&EntityChainHeadV1)
    -> Option<StorageValueError>>(
    value: EntityChainHeadV1,
    record: OutgoingRecord<wire::StoredEntityChainHeadV1>,
    attempt: ReadAttempt<wire::StoredEntityChainHeadV1>,
    rule: R,
    result: Result<EncodedPageItem<EntityChainHeadV1>, DurableCodecError>,
)
    requires
        chain_head_valid(value@),
        call_ensures(encode_entity_chain_head_v1, (&value,), record),
        reads_back(record, attempt),
        forall|held: EntityChainHeadV1, verdict: Option<StorageValueError>|
            held@ == value@ && #[trigger] rule.ensures((&held,), verdict) ==> verdict is None,
        call_ensures(decode_entity_chain_head_v1::<R>, (attempt, rule), result),
    ensures
        result is Ok,
        result->Ok_0.value@ == value@,
        result->Ok_0.charge.bytes == attempt.encoded_len,
{
    assert(chain_head_carries(record.message, value@));
    assert(chain_head_readable(record.message));
    let held = choose|held: EntityChainHeadV1| {
        &&& chain_head_carries(record.message, held@)
        &&& chain_head_valid(held@)
        &&& #[trigger] ruled(rule, held, attempt.encoded_len, result)
    };
    chain_head_form_is_exact(record.message, held@, value@);
}

/// The receipt of the rotation to the second changelog form that was written is read back
/// as it was, charged for its bytes.
pub proof fn written_rotation_receipt_records_come_back(
    value: ChangelogV2RotationReceipt,
    record: OutgoingRecord<wire::StoredChangelogV2RotationReceiptV1>,
    attempt: ReadAttempt<wire::StoredChangelogV2RotationReceiptV1>,
    result: Result<EncodedPageItem<ChangelogV2RotationReceipt>, DurableCodecError>,
)
    requires
        rotation_receipt_valid(value),
        call_ensures(encode_changelog_v2_rotation_receipt_v1, (value,), record),
        reads_back(record, attempt),
        call_ensures(decode_changelog_v2_rotation_receipt_v1, (attempt,), result),
    ensures
        result is Ok,
        result->Ok_0.value == value,
        result->Ok_0.charge.bytes == attempt.encoded_len,
{
    assert(rotation_receipt_carries(record.message, value));
    assert(rotation_receipt_readable(record.message));
    rotation_receipt_form_is_exact(record.message, result->Ok_0.value, value);
}

/// A supported storage format version that was written is read back as it was, charged for
/// its bytes.
pub proof fn written_format_version_records_come_back(
    value: StorageFormatVersion,
    record: OutgoingRecord<wire::StoredStorageFormatVersionV1>,
    attempt: ReadAttempt<wire::StoredStorageFormatVersionV1>,
    result: Result<EncodedPageItem<StorageFormatVersion>, DurableCodecError>,
)
    requires
        call_ensures(encode_storage_format_version_v1, (value,), record),
        reads_back(record, attempt),
        call_ensures(decode_storage_format_version_v1, (attempt,), result),
    ensures
        result is Ok,
        result->Ok_0.value == value,
        result->Ok_0.charge.bytes == attempt.encoded_len,
{
    assert(format_version_carries(record.message, value));
    assert(format_version_readable(record.message));
    format_version_form_is_exact(record.message, result->Ok_0.value, value);
}

/// The digest of the record registry that was written is read back as it was, charged for
/// its bytes.
pub proof fn written_record_registry_records_come_back(
    value: RecordRegistryDigest,
    record: OutgoingRecord<wire::StoredRecordRegistryV2>,
    attempt: ReadAttempt<wire::StoredRecordRegistryV2>,
    result: Result<EncodedPageItem<RecordRegistryDigest>, DurableCodecError>,
)
    requires
        call_ensures(encode_record_registry_v2, (value,), record),
        reads_back(record, attempt),
        call_ensures(decode_record_registry_v2, (attempt,), result),
    ensures
        result is Ok,
        result->Ok_0.value == value,
        result->Ok_0.charge.bytes == attempt.encoded_len,
{
    assert(record_registry_carries(record.message, value));
    assert(record_registry_readable(record.message));
    record_registry_form_is_exact(record.message, result->Ok_0.value, value);
}

/// The permanent identity of a database that was written is read back as it was, charged
/// for its bytes.
pub proof fn written_database_identity_records_come_back(
    value: DatabaseIdentity,
    record: OutgoingRecord<wire::StoredDatabaseIdentityV1>,
    attempt: ReadAttempt<wire::StoredDatabaseIdentityV1>,
    result: Result<EncodedPageItem<DatabaseIdentity>, DurableCodecError>,
)
    requires
        call_ensures(encode_database_identity_v1, (value,), record),
        reads_back(record, attempt),
        call_ensures(decode_database_identity_v1, (attempt,), result),
    ensures
        result is Ok,
        result->Ok_0.value == value,
        result->Ok_0.charge.bytes == attempt.encoded_len,
{
    assert(database_identity_carries(record.message, value));
    assert(database_identity_readable(record.message));
    database_identity_form_is_exact(record.message, result->Ok_0.value, value);
}

/// The allocator of commit positions that was written is read back as it was, charged for
/// its bytes.
pub proof fn written_application_allocator_records_come_back(
    value: ApplicationSequenceAllocator,
    record: OutgoingRecord<wire::StoredApplicationSequenceAllocatorV1>,
    attempt: ReadAttempt<wire::StoredApplicationSequenceAllocatorV1>,
    result: Result<EncodedPageItem<ApplicationSequenceAllocator>, DurableCodecError>,
)
    requires
        application_allocator_valid(value),
        call_ensures(encode_application_sequence_allocator_v1, (value,), record),
        reads_back(record, attempt),
        call_ensures(decode_application_sequence_allocator_v1, (attempt,), result),
    ensures
        result is Ok,
        result->Ok_0.value == value,
        result->Ok_0.charge.bytes == attempt.encoded_len,
{
    assert(application_allocator_carries(record.message, value));
    assert(application_allocator_readable(record.message));
    application_allocator_form_is_exact(record.message, result->Ok_0.value, value);
}

/// The allocator of administrative positions that was written is read back as it was,
/// charged for its bytes.
pub proof fn written_administration_allocator_records_come_back(
    value: AdministrationSequenceAllocator,
    record: OutgoingRecord<wire::StoredAdministrationSequenceAllocatorV1>,
    attempt: ReadAttempt<wire::StoredAdministrationSequenceAllocatorV1>,
    result: Result<EncodedPageItem<AdministrationSequenceAllocator>, DurableCodecError>,
)
    requires
        administration_allocator_valid(value),
        call_ensures(encode_administration_sequence_allocator_v1, (value,), record),
        reads_back(record, attempt),
        call_ensures(decode_administration_sequence_allocator_v1, (attempt,), result),
    ensures
        result is Ok,
        result->Ok_0.value == value,
        result->Ok_0.charge.bytes == attempt.encoded_len,
{
    assert(administration_allocator_carries(record.message, value));
    assert(administration_allocator_readable(record.message));
    administration_allocator_form_is_exact(record.message, result->Ok_0.value, value);
}

/// A control record that was written is read back as it was, charged for its bytes.
pub proof fn written_projection_control_records_come_back(
    value: StoredProjectionControlV1,
    record: OutgoingRecord<wire::StoredProjectionControlV1>,
    attempt: ReadAttempt<wire::StoredProjectionControlV1>,
    result: Result<EncodedPageItem<StoredProjectionControlV1>, DurableCodecError>,
)
    requires
        projection_control_valid(value@),
        call_ensures(encode_projection_control_v1, (&value,), record),
        reads_back(record, attempt),
        call_ensures(decode_projection_control_v1, (attempt,), result),
    ensures
        result is Ok,
        result->Ok_0.value@ == value@,
        result->Ok_0.charge.bytes == attempt.encoded_len,
{
    assert(projection_control_carries(record.message, value@));
    assert(projection_control_readable(record.message));
    projection_control_form_is_exact(record.message, result->Ok_0.value@, value@);
}

/// A delivery status that was written is read back as it was, charged for its bytes.
pub proof fn written_status_records_come_back(
    value: StoredOutboxStatusV1,
    record: OutgoingRecord<wire::StoredOutboxStatusV1>,
    attempt: ReadAttempt<wire::StoredOutboxStatusV1>,
    result: Result<EncodedPageItem<StoredOutboxStatusV1>, DurableCodecError>,
)
    requires
        status_valid(value@),
        call_ensures(encode_outbox_status_v1, (&value,), record),
        reads_back(record, attempt),
        call_ensures(decode_outbox_status_v1, (attempt,), result),
    ensures
        result is Ok,
        result->Ok_0.value@ == value@,
        result->Ok_0.charge.bytes == attempt.encoded_len,
{
    assert(status_carries(record.message, value@));
    assert(status_readable(record.message));
    status_form_is_exact(record.message, result->Ok_0.value@, value@);
}

/// An apply marker that was written is read back as it was, charged for its bytes.
pub proof fn written_apply_records_come_back(
    value: StoredProjectionApplyV1,
    record: OutgoingRecord<wire::StoredProjectionApplyV1>,
    attempt: ReadAttempt<wire::StoredProjectionApplyV1>,
    result: Result<EncodedPageItem<StoredProjectionApplyV1>, DurableCodecError>,
)
    requires
        apply_valid(value.key@),
        call_ensures(encode_projection_apply_v1, (&value,), record),
        reads_back(record, attempt),
        call_ensures(decode_projection_apply_v1, (attempt,), result),
    ensures
        result is Ok,
        result->Ok_0.value.key@ == value.key@,
        result->Ok_0.value.apply_hash == value.apply_hash,
        result->Ok_0.charge.bytes == attempt.encoded_len,
{
    assert(apply_carries(record.message, value.key@, value.apply_hash));
    assert(apply_readable(record.message));
    apply_marker_round_trip(
        record.message,
        value.key@,
        value.apply_hash,
        result->Ok_0.value.key@,
        result->Ok_0.value.apply_hash,
    );
}

/// A projection row that was written and that its schema admits is read back as it was,
/// charged for its bytes.
pub proof fn written_row_records_come_back(
    value: StoredProjectionStateV1,
    schema: CheckedProjectionSchema,
    record: OutgoingRecord<wire::StoredProjectionStateV1>,
    attempt: ReadAttempt<wire::StoredProjectionStateV1>,
    result: Result<EncodedPageItem<StoredProjectionStateV1>, DurableCodecError>,
)
    requires
        row_valid(row_parts(value@)),
        value@.key.wf(),
        stored_parts_refusal(value@.key.parts(), value@.measures) is None,
        state_refusal(schema@, value@.key, value@.measures) is None,
        call_ensures(encode_projection_state_v1, (&value,), record),
        reads_back(record, attempt),
        call_ensures(decode_projection_state_v1, (attempt, &schema), result),
    ensures
        result is Ok,
        result->Ok_0.value@ == value@,
        result->Ok_0.charge.bytes == attempt.encoded_len,
{
    state_round_trip(record.message, value@);
}

/// The state of the changelog's history that was written under a catalog is read back
/// under it as it was, charged for its bytes.
pub proof fn written_history_records_come_back(
    value: ChangelogHistoryStateV3,
    record: OutgoingRecord<wire::StoredChangelogHistoryStateV3>,
    attempt: ReadAttempt<wire::StoredChangelogHistoryStateV3>,
    result: Result<EncodedPageItem<ChangelogHistoryStateV3>, DurableCodecError>,
)
    requires
        history_valid(value),
        call_ensures(encode_changelog_history_state_v3, (value,), record),
        reads_back(record, attempt),
        call_ensures(
            decode_changelog_history_state_v3,
            (attempt, value.lineage.catalog_digest),
            result,
        ),
    ensures
        result is Ok,
        result->Ok_0.value == value,
        result->Ok_0.charge.bytes == attempt.encoded_len,
{
    assert(history_carries(record.message, value));
    assert(history_readable(record.message));
    history_form_is_exact(record.message, result->Ok_0.value, value);
}

/// A hold on the changelog's source that was written under a catalog is read back under it
/// as it was, charged for its bytes.
pub proof fn written_source_hold_records_come_back(
    value: ReplicationSourceHoldV1,
    record: OutgoingRecord<wire::StoredReplicationSourceHoldV1>,
    attempt: ReadAttempt<wire::StoredReplicationSourceHoldV1>,
    result: Result<EncodedPageItem<ReplicationSourceHoldV1>, DurableCodecError>,
)
    requires
        source_hold_valid(value),
        call_ensures(encode_replication_source_hold_v1, (value,), record),
        reads_back(record, attempt),
        call_ensures(
            decode_replication_source_hold_v1,
            (attempt, value.lineage.catalog_digest),
            result,
        ),
    ensures
        result is Ok,
        result->Ok_0.value == value,
        result->Ok_0.charge.bytes == attempt.encoded_len,
{
    assert(source_hold_carries(record.message, value));
    assert(record.message.kind == hold_kind_code(value.kind));
    assert(identifier_readable(record.message.hold_id));
    assert(source_hold_readable(record.message));
    source_hold_form_is_exact(record.message, result->Ok_0.value, value);
}

} // verus!
