//! Which messages are read: those that name something wherever they have to.

use vstd::prelude::*;

use crate::codec::application::{
    affected_carries, affected_list_valid, affected_valid, commit_lead_carries, commit_lead_valid,
    commit_parts_carries, commit_parts_valid, dependencies_valid, entity_carries,
    entity_reference_carries, entity_reference_valid, entity_valid, event_carries,
    event_route_carries, event_route_valid, event_valid, index_epoch_carries, index_epoch_valid,
    legacy_index_epoch_carries, legacy_index_epoch_valid, outcome_carries, outcome_valid,
    pending_carries, pending_valid, provenance_carries, provenance_valid,
};
use crate::codec::audit::{
    audit_index_carries, audit_index_valid, audit_record_carries, audit_record_v3_carries,
    audit_record_v3_valid, audit_record_valid, command_link_carries, command_link_valid,
    command_target_carries, command_target_valid, contract_version_target_carries,
    contract_version_target_valid, control_link_carries, control_link_valid,
    entity_type_target_carries, entity_type_target_valid, follower_target_carries,
    follower_target_valid, index_target_carries, index_target_valid, link_valid,
    projection_target_carries, projection_target_valid, target_list_valid, target_v3_list_valid,
};
use crate::codec::capability::{
    bootstrap_marker_carries, bootstrap_marker_valid, capability_administration_carries,
    capability_administration_valid, capability_header_carries, capability_header_valid,
    export_extension_carries, export_extension_valid, grant_carries, grant_valid, lifecycle_valid,
    permissions_valid, policy_binding_list_valid, revoked_carries, revoked_valid,
    row_policy_carries, row_policy_valid, secret_extension_carries, secret_extension_valid,
    secret_fields_carries, secret_fields_list_valid, secret_fields_valid, token_digest_carries,
    token_digest_valid, visible_fields_carries, visible_fields_list_valid, visible_fields_valid,
};
use crate::codec::catalog::{
    active_carries, active_valid, bundle_carries, bundle_valid, catalog_administration_carries,
    catalog_administration_valid,
};
use crate::codec::changelog::{
    active_admission_carries, active_admission_valid, changelog_lineage_carries,
    changelog_lineage_valid, expiry_origin_carries, expiry_origin_valid, leadership_carries,
    leadership_valid, position_carries, position_valid, primary_fence_carries, primary_fence_valid,
};
use crate::codec::columnar_control::{
    columnar_control_carries, columnar_control_valid, columnar_failure_carries,
    columnar_failure_valid, columnar_frontier_carries, columnar_frontier_valid,
    columnar_generation_valid, columnar_source_valid, vector_source_carries, vector_source_valid,
};
use crate::codec::command_capsule::{
    audit_invocation_carries, audit_invocation_valid, audit_locator_carries, audit_locator_valid,
    command_locator_carries, command_locator_valid,
};
use crate::codec::command_segment::{
    advance_carries, advance_valid, checkpoint_carries, checkpoint_valid, manifest_entry_list_valid,
};
use crate::codec::common::{
    audit_principal_carries, audit_principal_valid, binding_carries, binding_valid,
    declared_outcome_carries, declared_outcome_valid, entity_target_carries, entity_target_valid,
    event_id_carries, event_id_list_valid, event_id_valid, identity_carries, identity_valid,
    key_digest_carries, key_digest_valid, plan_carries, plan_valid, range_prefix_valid,
};
use crate::codec::consumer::{
    consumer_carries, consumer_valid, dead_carries, dead_valid, resolution_list_valid,
    retry_carries, retry_valid,
};
use crate::codec::contract_migration::{
    journal_carries, journal_valid, migration_record_carries, migration_record_valid,
    retirement_carries, retirement_valid,
};
use crate::codec::entity_transition::{
    chain_head_carries, chain_head_valid, chain_state_valid, rotation_receipt_carries,
    rotation_receipt_valid,
};
use crate::codec::parts::ids_valid;
use crate::codec::projection::{projection_identity_carries, projection_identity_valid};
use crate::ids::EventId;
use crate::keys::ProjectionIdentityView;
use crate::plan::ExecutablePlanView;
use crate::records::{
    ContractBundleView, DurableEventView, EntityRecordView, EntityTargetView, SchemaBindingView,
};
use crate::stored::application::{
    AffectedEntityView, CommitPartsView, EntityReferenceView, IndexEpochView, LegacyIndexEpochView,
    OutcomeBaseView, PendingAdmissionBaseView, ProvenanceBaseView, StoredEventRouteV1,
};
use crate::stored::audit::{
    CommandAuditLink, CommandTargetView, ContractVersionTargetView, ControlPlaneAuditLink,
    EntityTypeTargetView, IndexTargetView, ProjectionTargetView, ReplicationFollowerAuditTargetV1,
    ServiceAuditRecordV3View, ServiceAuditRecordView, StoredServiceAuditRequestIndexV1,
};
use crate::stored::capability::{
    CapabilityAdministrationView, CapabilityBootstrapMarkerV1, CapabilityHeaderView,
    CapabilityTokenDigest, ExportGrantView, GrantBaseView, RevokedCapability, RowPolicyGrantView,
    SecretFieldsView, SecretGrantView, VisibleFieldsView,
};
use crate::stored::catalog::{ActivePointerView, CatalogAdministrationView};
use crate::stored::changelog::{
    ActiveAdmission, ChangelogHistoryPointV3, ChangelogLineageV3, ConfiguredExpiryOrigin,
    LeadershipEpochV1, PrimaryFenceView,
};
use crate::stored::columnar_control::{
    ColumnarControlView, ColumnarFrontier, StoredColumnarProjectionFailureV1,
    VectorProjectionSourceV1View,
};
use crate::stored::command_capsule::{
    CommandAuditInvocationView, StoredCommandAuditLocatorV1, StoredCommandLocatorV1,
};
use crate::stored::command_segment::{DerivedCheckpointView, IndexAdvanceView};
use crate::stored::common::{
    AuditPrincipalV1View, DeclaredOutcomeView, IdempotencyIdentityView, IdempotencyKeyDigest,
};
use crate::stored::consumer::{DeadLetteredDelivery, EventConsumerView, RetryDelivery};
use crate::stored::contract_migration::{
    MigrationJournalView, MigrationRecordView, StoredContractWriteRetirementV1,
};
use crate::stored::entity_transition::{ChangelogV2RotationReceipt, EntityChainHeadView};
use crate::wire;

verus! {

/// A message of an entity row is read exactly when it names no zero and all its parts are valid.
pub proof fn entity_messages_are_read_where_valid(
    message: wire::StoredEntityRecordV1,
    value: EntityRecordView,
)
    requires
        entity_carries(message, value),
    ensures
        entity_valid(value) <==> entity_target_valid(value.target)
            && message.entity_version != 0 && message.written_by_contract != 0
                && binding_valid(value.schema_binding),
{
}

/// A message of the epoch of one partitioned index is read exactly when it names no zero
/// and all its parts are valid.
pub proof fn index_epoch_messages_are_read_where_valid(
    message: wire::StoredIndexGenerationV2,
    value: IndexEpochView,
)
    requires
        index_epoch_carries(message, value),
    ensures
        index_epoch_valid(value) <==> message.index_id != 0
            && binding_valid(value.schema_binding) && message.generation != 0,
{
}

/// A message of the epoch of one historical index range prefix is read exactly when it
/// names no zero and all its parts are valid.
pub proof fn legacy_index_epoch_messages_are_read_where_valid(
    message: wire::StoredIndexEpochV1,
    value: LegacyIndexEpochView,
)
    requires
        legacy_index_epoch_carries(message, value),
    ensures
        legacy_index_epoch_valid(value) <==> range_prefix_valid(value.target)
            && binding_valid(value.schema_binding) && message.epoch != 0,
{
}

/// A message of a pending admission apart from its causation is read exactly when it names
/// no time beyond its second and all its parts are valid.
pub proof fn pending_messages_are_read_where_valid(
    message: wire::StoredPendingAdmissionV1,
    value: PendingAdmissionBaseView,
)
    requires
        pending_carries(message, value),
    ensures
        pending_valid(value) <==> identity_valid(value.identity) && plan_valid(value.plan)
            && value.logical_time.nanoseconds < 1_000_000_000,
{
}

/// A message of a durable event is read exactly when it names no zero and all its parts are valid.
pub proof fn event_messages_are_read_where_valid(
    message: wire::StoredDurableEventV1,
    value: DurableEventView,
)
    requires
        event_carries(message, value),
    ensures
        event_valid(value) <==> event_id_valid(value.event_id) && message.event_type_id != 0,
{
}

/// A message of a payload-free partition event route is read exactly when it names no zero
/// and all its parts are valid.
pub proof fn event_route_messages_are_read_where_valid(
    message: wire::StoredEventRouteV1,
    value: StoredEventRouteV1,
)
    requires
        event_route_carries(message, value),
    ensures
        event_route_valid(value) <==> event_id_valid(value.event_id) && message.event_type_id != 0,
{
}

/// A message of a terminal outcome apart from its causation is read exactly when it names
/// no zero and no time beyond its second and all its parts are valid.
pub proof fn outcome_messages_are_read_where_valid(
    message: wire::StoredOutcomeV1,
    value: OutcomeBaseView,
)
    requires
        outcome_carries(message, value),
    ensures
        outcome_valid(value) <==> identity_valid(value.identity)
            && message.commit_sequence != 0 && plan_valid(value.plan)
                && value.logical_time.nanoseconds < 1_000_000_000
                    && declared_outcome_valid(value.declared_outcome),
{
}

/// A message of an entity that a command affected is read exactly when it names no zero and
/// all its parts are valid.
pub proof fn affected_messages_are_read_where_valid(
    message: wire::AffectedEntityV1,
    value: AffectedEntityView,
)
    requires
        affected_carries(message, value),
    ensures
        affected_valid(value) <==> entity_target_valid(value.target) && message.entity_version != 0,
{
}

/// A message of a provenance record apart from its causation is read exactly when it names
/// no zero and no time beyond its second and all its parts are valid.
pub proof fn provenance_messages_are_read_where_valid(
    message: wire::StoredProvenanceRecordV1,
    value: ProvenanceBaseView,
)
    requires
        provenance_carries(message, value),
    ensures
        provenance_valid(value) <==> message.commit_sequence != 0
            && identity_valid(value.identity) && plan_valid(value.plan)
                && value.logical_time.nanoseconds < 1_000_000_000 && message.outcome_id != 0
                    && affected_list_valid(value.affected_entities)
                        && event_id_list_valid(value.event_ids),
{
}

/// A message of a reference to a committed entity by version and hash is read exactly when
/// it names no zero and all its parts are valid.
pub proof fn entity_reference_messages_are_read_where_valid(
    message: wire::CommittedEntityReferenceV2,
    value: EntityReferenceView,
)
    requires
        entity_reference_carries(message, value),
    ensures
        entity_reference_valid(value) <==> entity_target_valid(value.target)
            && message.entity_version != 0,
{
}

/// A message of what every form of a commit record holds is read exactly when it names no
/// zero and no time beyond its second and all its parts are valid.
pub proof fn commit_parts_messages_are_read_where_valid(
    message: wire::CommitPartsV1,
    value: CommitPartsView,
)
    requires
        commit_parts_carries(message, value),
    ensures
        commit_parts_valid(value) <==> message.commit_sequence != 0 && plan_valid(value.plan)
            && value.logical_time.nanoseconds < 1_000_000_000
                && dependencies_valid(value.read_dependencies)
                    && declared_outcome_valid(value.declared_outcome)
                        && event_id_list_valid(value.outbox_event_ids),
{
}

/// A message of commit_lead is read exactly when it names no zero and no time beyond its
/// second and all its parts are valid.
pub proof fn commit_lead_messages_are_read_where_valid(
    message: wire::CommitPartsV1,
    value: CommitPartsView,
)
    requires
        commit_lead_carries(message, value),
    ensures
        commit_lead_valid(value) <==> event_id_list_valid(value.outbox_event_ids)
            && message.commit_sequence != 0 && plan_valid(value.plan)
                && value.logical_time.nanoseconds < 1_000_000_000,
{
}

/// A message of an audited contract version is read exactly when it names no zero.
pub proof fn contract_version_target_messages_are_read_where_valid(
    message: wire::ContractVersionAuditTargetV1,
    value: ContractVersionTargetView,
)
    requires
        contract_version_target_carries(message, value),
    ensures
        contract_version_target_valid(value) <==> message.contract_version != 0,
{
}

/// A message of an audited entity type is read exactly when it names no zero.
pub proof fn entity_type_target_messages_are_read_where_valid(
    message: wire::EntityTypeAuditTargetV1,
    value: EntityTypeTargetView,
)
    requires
        entity_type_target_carries(message, value),
    ensures
        entity_type_target_valid(value) <==> message.entity_type_id != 0,
{
}

/// A message of an audited command is read exactly when it names no zero.
pub proof fn command_target_messages_are_read_where_valid(
    message: wire::CommandAuditTargetV1,
    value: CommandTargetView,
)
    requires
        command_target_carries(message, value),
    ensures
        command_target_valid(value) <==> message.command_id != 0,
{
}

/// A message of an audited projection is read exactly when it names no zero.
pub proof fn projection_target_messages_are_read_where_valid(
    message: wire::ProjectionAuditTargetV1,
    value: ProjectionTargetView,
)
    requires
        projection_target_carries(message, value),
    ensures
        projection_target_valid(value) <==> message.projection_id != 0,
{
}

/// A message of an audited index is read exactly when it names no zero.
pub proof fn index_target_messages_are_read_where_valid(
    message: wire::IndexAuditTargetV1,
    value: IndexTargetView,
)
    requires
        index_target_carries(message, value),
    ensures
        index_target_valid(value) <==> message.index_id != 0,
{
}

/// A message of a replication follower by the hold that it has is read exactly when it
/// names no zero.
pub proof fn follower_target_messages_are_read_where_valid(
    message: wire::ReplicationFollowerAuditTargetV3,
    value: ReplicationFollowerAuditTargetV1,
)
    requires
        follower_target_carries(message, value),
    ensures
        follower_target_valid(value) <==> message.leadership_epoch != 0,
{
}

/// A message of a link to a command's commit and provenance is read exactly when it names no zero.
pub proof fn command_link_messages_are_read_where_valid(
    message: wire::CommandServiceAuditLinkV1,
    value: CommandAuditLink,
)
    requires
        command_link_carries(message, value),
    ensures
        command_link_valid(value) <==> message.commit_sequence != 0,
{
}

/// A message of a link to an administrative change is read exactly when it names no zero.
pub proof fn control_link_messages_are_read_where_valid(
    message: wire::ControlPlaneServiceAuditLinkV1,
    value: ControlPlaneAuditLink,
)
    requires
        control_link_carries(message, value),
    ensures
        control_link_valid(value) <==> message.administration_sequence != 0,
{
}

/// A message of a service audit record is read exactly when it names no zero and no time
/// beyond its second and all its parts are valid.
pub proof fn audit_record_messages_are_read_where_valid(
    message: wire::ServiceAuditRecordV1,
    value: ServiceAuditRecordView,
)
    requires
        audit_record_carries(message, value),
    ensures
        audit_record_valid(value) <==> message.administration_sequence != 0
            && value.timestamp.nanoseconds < 1_000_000_000
                && (value.principal is Some ==> audit_principal_valid(value.principal->Some_0))
                    && target_list_valid(value.targets) && link_valid(value.link),
{
}

/// A message of a service audit record of the third form is read exactly when it names no
/// zero and no time beyond its second and all its parts are valid.
pub proof fn audit_record_v3_messages_are_read_where_valid(
    message: wire::ServiceAuditRecordV3,
    value: ServiceAuditRecordV3View,
)
    requires
        audit_record_v3_carries(message, value),
    ensures
        audit_record_v3_valid(value) <==> message.administration_sequence != 0
            && value.timestamp.nanoseconds < 1_000_000_000
                && (value.principal is Some ==> audit_principal_valid(value.principal->Some_0))
                    && target_v3_list_valid(value.targets) && link_valid(value.link),
{
}

/// A message of an index row from a request to its audit sequence is read exactly when it
/// names no zero.
pub proof fn audit_index_messages_are_read_where_valid(
    message: wire::StoredServiceAuditRequestIndexV1,
    value: StoredServiceAuditRequestIndexV1,
)
    requires
        audit_index_carries(message, value),
    ensures
        audit_index_valid(value) <==> message.administration_sequence != 0,
{
}

/// A message of a keyed digest of a capability token is read exactly when it names no zero.
pub proof fn token_digest_messages_are_read_where_valid(
    message: wire::CapabilityTokenDigestV1,
    value: CapabilityTokenDigest,
)
    requires
        token_digest_carries(message, value),
    ensures
        token_digest_valid(value) <==> message.digest_key_id != 0,
{
}

/// A message of the revocation of a capability is read exactly when it names no zero and no
/// time beyond its second.
pub proof fn revoked_messages_are_read_where_valid(
    message: wire::RevokedCapabilityV1,
    value: RevokedCapability,
)
    requires
        revoked_carries(message, value),
    ensures
        revoked_valid(value) <==> value.revoked_at.nanoseconds < 1_000_000_000
            && message.administration_sequence != 0,
{
}

/// A message of the fields of one entity type that a grant shows is read exactly when it
/// names no zero and all its parts are valid.
pub proof fn visible_fields_messages_are_read_where_valid(
    message: wire::EntityFieldVisibilityV1,
    value: VisibleFieldsView,
)
    requires
        visible_fields_carries(message, value),
    ensures
        visible_fields_valid(value) <==> value.entity_type.value != 0 && ids_valid(value.fields),
{
}

/// A message of the secret fields of one entity type that a grant names is read exactly
/// when it names no zero and is not empty and all its parts are valid.
pub proof fn secret_fields_messages_are_read_where_valid(
    message: wire::CapabilitySecretVisibilityV1,
    value: SecretFieldsView,
)
    requires
        secret_fields_carries(message, value),
    ensures
        secret_fields_valid(value) <==> value.entity_type.value != 0
            && ids_valid(value.secret_fields) && value.secret_fields.len() > 0,
{
}

/// A message of the secret fields that a grant names is read exactly when it is not empty
/// and all its parts are valid.
pub proof fn secret_extension_messages_are_read_where_valid(
    message: wire::CapabilitySecretGrantExtensionV1,
    value: SecretGrantView,
)
    requires
        secret_extension_carries(message, value),
    ensures
        secret_extension_valid(value) <==> secret_fields_list_valid(value.entries)
            && value.entries.len() > 0,
{
}

/// A message of the row policies of a grant is read exactly when it is not empty and all
/// its parts are valid.
pub proof fn row_policy_messages_are_read_where_valid(
    message: wire::CapabilityRowPolicyGrantExtensionV1,
    value: RowPolicyGrantView,
)
    requires
        row_policy_carries(message, value),
    ensures
        row_policy_valid(value) <==> policy_binding_list_valid(value.bindings)
            && value.bindings.len() > 0,
{
}

/// A message of what a grant lets be exported is read exactly when it is not empty.
pub proof fn export_extension_messages_are_read_where_valid(
    message: wire::CapabilityExportGrantExtensionV1,
    value: ExportGrantView,
)
    requires
        export_extension_carries(message, value),
    ensures
        export_extension_valid(value) <==> value.applications.len() > 0,
{
}

/// A message of a grant without its extensions is read exactly when it names no zero and
/// all its parts are valid.
pub proof fn grant_messages_are_read_where_valid(
    message: wire::CapabilityGrantV1,
    value: GrantBaseView,
)
    requires
        grant_carries(message, value),
    ensures
        grant_valid(value) <==> permissions_valid(value.permissions)
            && visible_fields_list_valid(value.field_visibility) && value.max_scan_rows.value != 0,
{
}

/// A message of what a capability record holds beside its grant is read exactly when it
/// names no zero and no time beyond its second and all its parts are valid.
pub proof fn capability_header_messages_are_read_where_valid(
    message: wire::CapabilityHeaderV1,
    value: CapabilityHeaderView,
)
    requires
        capability_header_carries(message, value),
    ensures
        capability_header_valid(value) <==> message.revision != 0
            && token_digest_valid(value.token_digest)
                && value.issued_at.nanoseconds < 1_000_000_000
                    && value.expires_at.nanoseconds < 1_000_000_000
                        && message.creation_sequence != 0 && lifecycle_valid(value.lifecycle),
{
}

/// A message of the irreversible capability-bootstrap marker is read exactly when it names no zero.
pub proof fn bootstrap_marker_messages_are_read_where_valid(
    message: wire::CapabilityBootstrapMarkerV1,
    value: CapabilityBootstrapMarkerV1,
)
    requires
        bootstrap_marker_carries(message, value),
    ensures
        bootstrap_marker_valid(value) <==> message.administration_sequence != 0,
{
}

/// A message of a capability-administration audit record is read exactly when it names no
/// zero and no time beyond its second and all its parts are valid.
pub proof fn capability_administration_messages_are_read_where_valid(
    message: wire::CapabilityAdministrationAuditV1,
    value: CapabilityAdministrationView,
)
    requires
        capability_administration_carries(message, value),
    ensures
        capability_administration_valid(value) <==> message.administration_sequence != 0
            && value.timestamp.nanoseconds < 1_000_000_000
                && (value.initiator is Some ==> audit_principal_valid(value.initiator->Some_0))
                    && message.resulting_revision != 0,
{
}

/// A message of the active catalog pointer is read exactly when it names no zero.
pub proof fn active_messages_are_read_where_valid(
    message: wire::ActiveCatalogPointerV1,
    value: ActivePointerView,
)
    requires
        active_carries(message, value),
    ensures
        active_valid(value) <==> message.contract_version != 0,
{
}

/// A message of a compiled contract bundle is read exactly when it names no zero.
pub proof fn bundle_messages_are_read_where_valid(
    message: wire::StoredContractBundleV1,
    value: ContractBundleView,
)
    requires
        bundle_carries(message, value),
    ensures
        bundle_valid(value) <==> message.contract_version != 0,
{
}

/// A message of a catalog activation record is read exactly when it names no zero and no
/// time beyond its second and all its parts are valid.
pub proof fn catalog_administration_messages_are_read_where_valid(
    message: wire::StoredCatalogAdministrationV1,
    value: CatalogAdministrationView,
)
    requires
        catalog_administration_carries(message, value),
    ensures
        catalog_administration_valid(value) <==> message.administration_sequence != 0
            && value.timestamp.nanoseconds < 1_000_000_000
                && audit_principal_valid(value.principal)
                    && (value.previous_active is Some
                        ==> active_valid(value.previous_active->Some_0))
                            && active_valid(value.activated),
{
}

/// A message of a point of the changelog history is read exactly when it names no zero.
pub proof fn position_messages_are_read_where_valid(
    message: wire::ChangelogPositionV3,
    value: ChangelogHistoryPointV3,
)
    requires
        position_carries(message, value),
    ensures
        position_valid(value) <==> message.transaction_sequence != 0
            && (value.application is Some ==> value.application->Some_0.value != 0)
                && (value.administration is Some ==> value.administration->Some_0.value != 0),
{
}

/// A message of a changelog lineage is read exactly when it names no zero.
pub proof fn changelog_lineage_messages_are_read_where_valid(
    message: wire::ChangelogLineageV3,
    value: ChangelogLineageV3,
)
    requires
        changelog_lineage_carries(message, value),
    ensures
        changelog_lineage_valid(value) <==> message.leadership_epoch != 0,
{
}

/// A message of a leadership epoch is read exactly when it names no zero.
pub proof fn leadership_messages_are_read_where_valid(
    message: wire::StoredLeadershipEpochV1,
    value: LeadershipEpochV1,
)
    requires
        leadership_carries(message, value),
    ensures
        leadership_valid(value) <==> message.epoch != 0,
{
}

/// A message of a configured expiry is read exactly when it names no zero.
pub proof fn expiry_origin_messages_are_read_where_valid(
    message: wire::ConfiguredExpiryOriginV1,
    value: ConfiguredExpiryOrigin,
)
    requires
        expiry_origin_carries(message, value),
    ensures
        expiry_origin_valid(value) <==> message.registration_administration_sequence != 0,
{
}

/// A message of a primary fence record is read exactly when it names no zero and no time
/// beyond its second and all its parts are valid.
pub proof fn primary_fence_messages_are_read_where_valid(
    message: wire::StoredPrimaryFenceAdministrationV1,
    value: PrimaryFenceView,
)
    requires
        primary_fence_carries(message, value),
    ensures
        primary_fence_valid(value) <==> message.administration_sequence != 0
            && value.timestamp.nanoseconds < 1_000_000_000
                && audit_principal_valid(value.principal)
                    && follower_target_valid(value.target)
                        && message.registration_generation != 0 && position_valid(value.observed),
{
}

/// A message of an active primary's lineage is read exactly when it names no zero.
pub proof fn active_admission_messages_are_read_where_valid(
    message: wire::ActiveAdmissionV1,
    value: ActiveAdmission,
)
    requires
        active_admission_carries(message, value),
    ensures
        active_admission_valid(value) <==> message.leadership_epoch != 0,
{
}

/// A message of a vector source of a columnar projection is read exactly when it names no zero.
pub proof fn vector_source_messages_are_read_where_valid(
    message: wire::StoredColumnarVectorSourceV1,
    value: VectorProjectionSourceV1View,
)
    requires
        vector_source_carries(message, value),
    ensures
        vector_source_valid(value) <==> message.entity_type_id != 0 && message.vector_field_id != 0,
{
}

/// A message of how far a columnar generation has come is read exactly when it names no zero.
pub proof fn columnar_frontier_messages_are_read_where_valid(
    message: wire::StoredColumnarProjectionFrontierV1,
    value: ColumnarFrontier,
)
    requires
        columnar_frontier_carries(message, value),
    ensures
        columnar_frontier_valid(value) <==> (value.applied_through is Some
            ==> value.applied_through->Some_0.value != 0),
{
}

/// A message of a failure of a columnar projection is read exactly when it names no zero.
pub proof fn columnar_failure_messages_are_read_where_valid(
    message: wire::StoredColumnarProjectionFailureV1,
    value: StoredColumnarProjectionFailureV1,
)
    requires
        columnar_failure_carries(message, value),
    ensures
        columnar_failure_valid(value) <==> (value.generation is Some
            ==> value.generation->Some_0.value != 0),
{
}

/// A message of a columnar projection control record is read exactly when it names no zero
/// and all its parts are valid.
pub proof fn columnar_control_messages_are_read_where_valid(
    message: wire::StoredColumnarProjectionControlV1,
    value: ColumnarControlView,
)
    requires
        columnar_control_carries(message, value),
    ensures
        columnar_control_valid(value) <==> columnar_source_valid(value.source)
            && message.highest_generation != 0
                && (value.published is Some
                    ==> columnar_generation_valid(value.published->Some_0))
                        && (value.candidate is Some
                            ==> columnar_generation_valid(value.candidate->Some_0))
                                && (value.predecessor is Some
                                    ==> columnar_generation_valid(value.predecessor->Some_0))
                                        && (value.failure is Some
                                            ==> columnar_failure_valid(value.failure->Some_0)),
{
}

/// A message of the audited invocation of a command is read exactly when it names no zero
/// and no time beyond its second and all its parts are valid.
pub proof fn audit_invocation_messages_are_read_where_valid(
    message: wire::StoredCommandAuditInvocationV1,
    value: CommandAuditInvocationView,
)
    requires
        audit_invocation_carries(message, value),
    ensures
        audit_invocation_valid(value) <==> (value.principal is Some
            ==> audit_principal_valid(value.principal->Some_0))
                && target_list_valid(value.targets)
                    && message.started_administration_sequence != 0
                        && value.started_at.nanoseconds < 1_000_000_000
                            && message.terminal_administration_sequence != 0
                                && value.terminal_at.nanoseconds < 1_000_000_000,
{
}

/// A message of a locator of a successful command is read exactly when it names no zero.
pub proof fn command_locator_messages_are_read_where_valid(
    message: wire::StoredCommandLocatorV1,
    value: StoredCommandLocatorV1,
)
    requires
        command_locator_carries(message, value),
    ensures
        command_locator_valid(value) <==> message.commit_sequence != 0,
{
}

/// A message of a locator of a command's audit record is read exactly when it names no zero.
pub proof fn audit_locator_messages_are_read_where_valid(
    message: wire::StoredCommandAuditLocatorV1,
    value: StoredCommandAuditLocatorV1,
)
    requires
        audit_locator_carries(message, value),
    ensures
        audit_locator_valid(value) <==> message.commit_sequence != 0,
{
}

/// A message of an advance of an index epoch is read exactly when it follows its prior
/// epoch and all its parts are valid.
pub proof fn advance_messages_are_read_where_valid(
    message: wire::StoredIndexGenerationTransitionV1,
    value: IndexAdvanceView,
)
    requires
        advance_carries(message, value),
    ensures
        advance_valid(value) <==> index_epoch_valid(value.post_image)
            && (value.prior is Some ==> value.prior->Some_0.value != 0)
                && value.post_image.epoch.value
                    == 1 + (if value.prior is Some { value.prior->Some_0.value as int } else { 0 }),
{
}

/// A message of a replaceable checkpoint of the derived indexes is read exactly when it
/// names no zero and all its parts are valid.
pub proof fn checkpoint_messages_are_read_where_valid(
    message: wire::StoredCommandDerivedIndexCheckpointV1,
    value: DerivedCheckpointView,
)
    requires
        checkpoint_carries(message, value),
    ensures
        checkpoint_valid(value) <==> message.segment_frontier != 0
            && manifest_entry_list_valid(value.entries),
{
}

/// A message of an audited principal and the capability that it used is read exactly when
/// it names no zero.
pub proof fn audit_principal_messages_are_read_where_valid(
    message: wire::AuditPrincipalV1,
    value: AuditPrincipalV1View,
)
    requires
        audit_principal_carries(message, value),
    ensures
        audit_principal_valid(value) <==> message.capability_revision != 0,
{
}

/// A message of an event identity is read exactly when it names no zero.
pub proof fn event_id_messages_are_read_where_valid(
    message: wire::EventIdV1,
    value: EventId,
)
    requires
        event_id_carries(message, value),
    ensures
        event_id_valid(value) <==> message.commit_sequence != 0,
{
}

/// A message of an executable plan reference is read exactly when it names no zero.
pub proof fn plan_messages_are_read_where_valid(
    message: wire::ExecutablePlanRefV1,
    value: ExecutablePlanView,
)
    requires
        plan_carries(message, value),
    ensures
        plan_valid(value) <==> message.contract_version != 0 && message.command_id != 0,
{
}

/// A message of a key schema binding is read exactly when it names no zero.
pub proof fn binding_messages_are_read_where_valid(
    message: wire::DurableKeySchemaBindingV1,
    value: SchemaBindingView,
)
    requires
        binding_carries(message, value),
    ensures
        binding_valid(value) <==> message.contract_version != 0,
{
}

/// A message of a keyed digest of a caller's idempotency key is read exactly when it names no zero.
pub proof fn key_digest_messages_are_read_where_valid(
    message: wire::IdempotencyKeyDigestV1,
    value: IdempotencyKeyDigest,
)
    requires
        key_digest_carries(message, value),
    ensures
        key_digest_valid(value) <==> message.digest_key_id != 0,
{
}

/// A message of a command's idempotency identity is read exactly when it names no zero and
/// all its parts are valid.
pub proof fn identity_messages_are_read_where_valid(
    message: wire::IdempotencyIdentityV1,
    value: IdempotencyIdentityView,
)
    requires
        identity_carries(message, value),
    ensures
        identity_valid(value) <==> message.command_id != 0
            && key_digest_valid(value.caller_key_digest),
{
}

/// A message of an entity target is read exactly when it names no zero.
pub proof fn entity_target_messages_are_read_where_valid(
    message: wire::EntityTargetV1,
    value: EntityTargetView,
)
    requires
        entity_target_carries(message, value),
    ensures
        entity_target_valid(value) <==> message.entity_type_id != 0,
{
}

/// A message of a declared outcome is read exactly when it names no zero.
pub proof fn declared_outcome_messages_are_read_where_valid(
    message: wire::DeclaredOutcomeV1,
    value: DeclaredOutcomeView,
)
    requires
        declared_outcome_carries(message, value),
    ensures
        declared_outcome_valid(value) <==> message.outcome_id != 0,
{
}

/// A message of a bounded durable consumer is read exactly when it names no zero and all
/// its parts are valid.
pub proof fn consumer_messages_are_read_where_valid(
    message: wire::StoredEventConsumerV1,
    value: EventConsumerView,
)
    requires
        consumer_carries(message, value),
    ensures
        consumer_valid(value) <==> message.revision != 0
            && (value.checkpoint is Some ==> event_id_valid(value.checkpoint->Some_0))
                && resolution_list_valid(value.sparse_resolutions),
{
}

/// A message of a delivery to be retried is read exactly when it names no time beyond its second.
pub proof fn retry_messages_are_read_where_valid(
    message: wire::RetryConsumerDeliveryV1,
    value: RetryDelivery,
)
    requires
        retry_carries(message, value),
    ensures
        retry_valid(value) <==> value.eligible_at.nanoseconds < 1_000_000_000,
{
}

/// A message of a delivery that was given up is read exactly when it names no time beyond
/// its second.
pub proof fn dead_messages_are_read_where_valid(
    message: wire::DeadLetteredConsumerDeliveryV1,
    value: DeadLetteredDelivery,
)
    requires
        dead_carries(message, value),
    ensures
        dead_valid(value) <==> value.dead_lettered_at.nanoseconds < 1_000_000_000,
{
}

/// A message of a contract migration journal is read exactly when it names no zero and all
/// its parts are valid.
pub proof fn journal_messages_are_read_where_valid(
    message: wire::StoredContractMigrationJournalV1,
    value: MigrationJournalView,
)
    requires
        journal_carries(message, value),
    ensures
        journal_valid(value) <==> (value.cursor is Some
            ==> entity_target_valid(value.cursor->Some_0))
                && (value.frozen_application_frontier is Some
                    ==> value.frozen_application_frontier->Some_0.value != 0)
                        && ids_valid(value.required_projections),
{
}

/// A message of a permanent contract migration record is read exactly when it names no zero
/// and all its parts are valid.
pub proof fn migration_record_messages_are_read_where_valid(
    message: wire::StoredContractMigrationRecordV1,
    value: MigrationRecordView,
)
    requires
        migration_record_carries(message, value),
    ensures
        migration_record_valid(value) <==> audit_principal_valid(value.principal)
            && (value.predecessor_frontier is Some
                ==> value.predecessor_frontier->Some_0.value != 0)
                    && (value.successor_frontier is Some
                        ==> value.successor_frontier->Some_0.value != 0)
                            && message.administration_sequence != 0,
{
}

/// A message of the retirement of a predecessor's writes is read exactly when it names no zero.
pub proof fn retirement_messages_are_read_where_valid(
    message: wire::StoredContractWriteRetirementV1,
    value: StoredContractWriteRetirementV1,
)
    requires
        retirement_carries(message, value),
    ensures
        retirement_valid(value) <==> message.administration_sequence != 0,
{
}

/// A message of an authoritative entity-chain head is read exactly when it names no zero
/// and all its parts are valid.
pub proof fn chain_head_messages_are_read_where_valid(
    message: wire::StoredEntityChainHeadV1,
    value: EntityChainHeadView,
)
    requires
        chain_head_carries(message, value),
    ensures
        chain_head_valid(value) <==> entity_target_valid(value.target)
            && chain_state_valid(value.state) && message.last_command_sequence != 0,
{
}

/// A message of the receipt of the rotation to the second changelog form is read exactly
/// when it names no zero.
pub proof fn rotation_receipt_messages_are_read_where_valid(
    message: wire::StoredChangelogV2RotationReceiptV1,
    value: ChangelogV2RotationReceipt,
)
    requires
        rotation_receipt_carries(message, value),
    ensures
        rotation_receipt_valid(value) <==> (value.predecessor_application is Some
            ==> value.predecessor_application->Some_0.value != 0)
                && (value.predecessor_administration is Some
                    ==> value.predecessor_administration->Some_0.value != 0),
{
}

/// A message of a projection identity is read exactly when it names no zero.
pub proof fn projection_identity_messages_are_read_where_valid(
    message: wire::ProjectionIdentityV1,
    value: ProjectionIdentityView,
)
    requires
        projection_identity_carries(message, value),
    ensures
        projection_identity_valid(value) <==> value.projection_id != 0,
{
}

} // verus!
