//! Which field of a message holds which part of a record.

use vstd::prelude::*;

use crate::codec::application::{
    commit_parts_carries, entity_carries, index_entry_carries, outcome_carries, pending_carries,
    provenance_carries,
};
use crate::codec::application_export::export_v2_carries;
use crate::codec::application_installation::campaign_carries;
use crate::codec::audit::{audit_record_carries, audit_record_v3_carries, follower_target_carries};
use crate::codec::capability::{
    bootstrap_marker_carries, capability_administration_carries, capability_header_carries,
    capability_parts_carries, export_application_parts_carry, optional_lineage_extension_carries,
    policy_binding_parts_carry,
};
use crate::codec::catalog::{
    active_carries, bundle_carries, catalog_administration_carries, optional_active_carries,
};
use crate::codec::changelog::{
    active_admission_carries, attached_carries, changelog_lineage_carries, history_carries,
    optional_position_carries, position_carries, primary_fence_carries, promotion_carries,
};
use crate::codec::columnar_control::{
    columnar_control_carries, columnar_failure_carries, columnar_frontier_carries,
    columnar_generation_carries, optional_columnar_frontier_carries,
    optional_columnar_generation_carries, vector_source_carries,
};
use crate::codec::command_capsule::audit_invocation_carries;
use crate::codec::command_segment::checkpoint_carries;
use crate::codec::common::{claims_carries, identity_carries, plan_carries};
use crate::codec::consumer::{consumer_carries, consumer_identity_carries};
use crate::codec::contract_migration::{
    artifacts_carries, journal_carries, migration_record_carries, operation_artifacts_carries,
    retired_entity_carries,
};
use crate::codec::entity_transition::{
    chain_head_carries, chain_state_carries, rotation_receipt_carries, transition_parts_carry,
};
use crate::codec::projection::projection_control_carries;
use crate::plan::ExecutablePlanView;
use crate::projection::control::ProjectionControlView;
use crate::records::{ContractBundleView, EntityRecordView, IndexEntryView};
use crate::stored::application::{
    CommitPartsView, OutcomeBaseView, PendingAdmissionBaseView, ProvenanceBaseView,
};
use crate::stored::application_export::ExportOperationV2View;
use crate::stored::application_installation::InstallationCampaignView;
use crate::stored::audit::{
    ReplicationFollowerAuditTargetV1, ServiceAuditRecordV3View, ServiceAuditRecordView,
};
use crate::stored::capability::{
    ApplicationExportGrantView, CapabilityAdministrationView, CapabilityBootstrapMarkerV1,
    CapabilityHeaderView, CapabilityRecordPartsView, RowPolicyBindingView,
};
use crate::stored::catalog::CatalogAdministrationView;
use crate::stored::changelog::{
    ActiveAdmission, AttachedFollower, ChangelogHistoryStateV3, ChangelogLineageV3,
    PrimaryFenceView, PromotionAdministrationView,
};
use crate::stored::columnar_control::{
    ColumnarControlView, StoredColumnarProjectionFailureV1, StoredColumnarProjectionGenerationV1,
    VectorProjectionSourceV1View,
};
use crate::stored::command_capsule::CommandAuditInvocationView;
use crate::stored::command_segment::DerivedCheckpointView;
use crate::stored::common::{IdempotencyIdentityView, ProvenanceClaimsView};
use crate::stored::consumer::{EventConsumerIdentityView, EventConsumerView};
use crate::stored::contract_migration::{
    ContractMigrationArtifactsV1, ContractMigrationOperationArtifactsV1, MigrationJournalView,
    MigrationRecordView, RetiredEntityView,
};
use crate::stored::entity_transition::{
    ChangelogV2RotationReceipt, EntityChainHeadView, EntityTransitionView,
};
use crate::wire;

verus! {

/// In the message of an entity row no field takes the place of another of its kind.
pub proof fn entity_messages_keep_their_fields_apart(
    message: wire::StoredEntityRecordV1,
    value: EntityRecordView,
)
    requires
        entity_carries(message, value),
    ensures
        message.entity_version == value.entity_version.value,
        message.written_by_contract == value.written_by_contract.value,
{
}

/// In the message of an index entry no field takes the place of another of its kind.
pub proof fn index_entry_messages_keep_their_fields_apart(
    message: wire::StoredIndexEntryV2,
    value: IndexEntryView,
)
    requires
        index_entry_carries(message, value),
    ensures
        message.index_entry_key.value@ == value.key,
        message.partition_key.value@ == value.partition_key,
{
}

/// In the message of a pending admission apart from its causation no field takes the place
/// of another of its kind.
pub proof fn pending_messages_keep_their_fields_apart(
    message: wire::StoredPendingAdmissionV1,
    value: PendingAdmissionBaseView,
)
    requires
        pending_carries(message, value),
    ensures
        message.admission_request_id.value@ == value.admission_request_id.bytes@,
        message.partition_key.value@ == value.partition_key,
{
}

/// In the message of a terminal outcome apart from its causation no field takes the place
/// of another of its kind.
pub proof fn outcome_messages_keep_their_fields_apart(
    message: wire::StoredOutcomeV1,
    value: OutcomeBaseView,
)
    requires
        outcome_carries(message, value),
    ensures
        message.admission_request_id.value@ == value.admission_request_id.bytes@,
        message.canonical_input_hash@ == value.canonical_input_hash.bytes@,
        message.partition_hash@ == value.partition_hash.bytes@,
        message.provenance_id.value@ == value.provenance_id.bytes@,
        message.partition_key.value@ == value.partition_key,
{
}

/// In the message of a provenance record apart from its causation no field takes the place
/// of another of its kind.
pub proof fn provenance_messages_keep_their_fields_apart(
    message: wire::StoredProvenanceRecordV1,
    value: ProvenanceBaseView,
)
    requires
        provenance_carries(message, value),
    ensures
        message.provenance_id.value@ == value.provenance_id.bytes@,
        message.admission_request_id.value@ == value.admission_request_id.bytes@,
        message.canonical_input_hash@ == value.canonical_input_hash.bytes@,
        message.partition_hash@ == value.partition_hash.bytes@,
{
}

/// In the message of what every form of a commit record holds no field takes the place of
/// another of its kind.
pub proof fn commit_parts_messages_keep_their_fields_apart(
    message: wire::CommitPartsV1,
    value: CommitPartsView,
)
    requires
        commit_parts_carries(message, value),
    ensures
        message.admission_request_id.value@ == value.admission_request_id.bytes@,
        message.canonical_input_hash@ == value.canonical_input_hash.bytes@,
        message.partition_hash@ == value.partition_hash.bytes@,
        message.provenance_id.value@ == value.provenance_id.bytes@,
{
}

/// In the message of a compact application-export head no field takes the place of another
/// of its kind.
pub proof fn export_v2_messages_keep_their_fields_apart(
    message: wire::StoredApplicationExportOperationV2,
    value: ExportOperationV2View,
)
    requires
        export_v2_carries(message, value),
    ensures
        message.immutable_binding@ == value.immutable_binding,
        message.canonical_state@ == value.canonical_state,
        message.canonical_prefix@ == value.prefix,
{
}

/// In the message of an application-installation campaign no field takes the place of
/// another of its kind.
pub proof fn campaign_messages_keep_their_fields_apart(
    message: wire::StoredApplicationInstallationCampaignV1,
    value: InstallationCampaignView,
)
    requires
        campaign_carries(message, value),
    ensures
        message.plan_hash@ == value.plan_hash.bytes@,
        message.canonical_state@ == value.canonical_state,
{
}

/// In the message of a replication follower by the hold that it has no field takes the
/// place of another of its kind.
pub proof fn follower_target_messages_keep_their_fields_apart(
    message: wire::ReplicationFollowerAuditTargetV3,
    value: ReplicationFollowerAuditTargetV1,
)
    requires
        follower_target_carries(message, value),
    ensures
        message.database_id.value@ == value.database_id.bytes@,
        message.history_incarnation == value.history_incarnation,
        message.leadership_epoch == value.leadership_epoch.value,
        message.hold_id.value@ == value.hold_id.bytes@,
{
}

/// In the message of a service audit record no field takes the place of another of its kind.
pub proof fn audit_record_messages_keep_their_fields_apart(
    message: wire::ServiceAuditRecordV1,
    value: ServiceAuditRecordView,
)
    requires
        audit_record_carries(message, value),
    ensures
        message.operation.value == value.operation,
        message.ingress.value == value.ingress,
{
}

/// In the message of a service audit record of the third form no field takes the place of
/// another of its kind.
pub proof fn audit_record_v3_messages_keep_their_fields_apart(
    message: wire::ServiceAuditRecordV3,
    value: ServiceAuditRecordV3View,
)
    requires
        audit_record_v3_carries(message, value),
    ensures
        message.operation.value == value.operation,
        message.ingress.value == value.ingress,
{
}

/// In the message of a row policy bound to an entity type no field takes the place of
/// another of its kind.
pub proof fn policy_binding_messages_keep_their_fields_apart(
    message: wire::CapabilityRowPolicyBindingV1,
    value: RowPolicyBindingView,
)
    requires
        policy_binding_parts_carry(message, value),
    ensures
        message.contract_lineage.value@ == value.lineage,
        message.policy_name.value@ == value.policy_name,
{
}

/// In the message of what a grant lets be exported of one application no field takes the
/// place of another of its kind.
pub proof fn export_application_messages_keep_their_fields_apart(
    message: wire::CapabilityApplicationExportGrantV1,
    value: ApplicationExportGrantView,
)
    requires
        export_application_parts_carry(message, value),
    ensures
        message.entities == value.entities,
        message.events == value.events,
        message.provenance == value.provenance,
        message.public_audit == value.public_audit,
{
}

/// In the message of what a capability record holds beside its grant no field takes the
/// place of another of its kind.
pub proof fn capability_header_messages_keep_their_fields_apart(
    message: wire::CapabilityHeaderV1,
    value: CapabilityHeaderView,
)
    requires
        capability_header_carries(message, value),
    ensures
        message.capability_id.value@ == value.capability_id.bytes@,
        message.revision == value.revision.value,
        message.database_id.value@ == value.database_id.bytes@,
        message.environment.value@ == value.environment,
        message.principal_id.value@ == value.principal_id,
        message.issued_at is Some,
        message.issued_at->Some_0.seconds == value.issued_at.seconds,
        message.issued_at->Some_0.nanos == value.issued_at.nanoseconds,
        message.expires_at is Some,
        message.expires_at->Some_0.seconds == value.expires_at.seconds,
        message.expires_at->Some_0.nanos == value.expires_at.nanoseconds,
        message.creation_sequence == value.creation_sequence.value,
        message.creation_request_id.value@ == value.creation_request_id.bytes@,
{
}

/// In the message of a capability record in its parts no field takes the place of another
/// of its kind.
pub proof fn capability_parts_messages_keep_their_fields_apart(
    message: wire::CapabilityRecordV6,
    value: CapabilityRecordPartsView,
)
    requires
        capability_parts_carries(message, value),
    ensures
        optional_lineage_extension_carries(message.migration, value.migration),
        optional_lineage_extension_carries(message.installation, value.installation),
{
}

/// In the message of the irreversible capability-bootstrap marker no field takes the place
/// of another of its kind.
pub proof fn bootstrap_marker_messages_keep_their_fields_apart(
    message: wire::CapabilityBootstrapMarkerV1,
    value: CapabilityBootstrapMarkerV1,
)
    requires
        bootstrap_marker_carries(message, value),
    ensures
        message.database_id.value@ == value.database_id.bytes@,
        message.capability_id.value@ == value.capability_id.bytes@,
{
}

/// In the message of a capability-administration audit record no field takes the place of
/// another of its kind.
pub proof fn capability_administration_messages_keep_their_fields_apart(
    message: wire::CapabilityAdministrationAuditV1,
    value: CapabilityAdministrationView,
)
    requires
        capability_administration_carries(message, value),
    ensures
        message.administration_sequence == value.administration_sequence.value,
        message.request_id.value@ == value.request_id.bytes@,
        message.target_capability_id.value@ == value.target_capability_id.bytes@,
        message.resulting_revision == value.resulting_revision.value,
{
}

/// In the message of a compiled contract bundle no field takes the place of another of its kind.
pub proof fn bundle_messages_keep_their_fields_apart(
    message: wire::StoredContractBundleV1,
    value: ContractBundleView,
)
    requires
        bundle_carries(message, value),
    ensures
        message.contract_bundle_hash@ == value.bundle_hash.bytes@,
        message.canonical_bundle@ == value.canonical_bytes,
{
}

/// In the message of a catalog activation record no field takes the place of another of its kind.
pub proof fn catalog_administration_messages_keep_their_fields_apart(
    message: wire::StoredCatalogAdministrationV1,
    value: CatalogAdministrationView,
)
    requires
        catalog_administration_carries(message, value),
    ensures
        optional_active_carries(message.previous_active, value.previous_active),
        message.activated is Some,
        active_carries(message.activated->Some_0, value.activated),
{
}

/// In the message of a changelog lineage no field takes the place of another of its kind.
pub proof fn changelog_lineage_messages_keep_their_fields_apart(
    message: wire::ChangelogLineageV3,
    value: ChangelogLineageV3,
)
    requires
        changelog_lineage_carries(message, value),
    ensures
        message.history_incarnation == value.history_incarnation,
        message.leadership_epoch == value.leadership_epoch.value,
{
}

/// In the message of the lineage-shared roots of the changelog history no field takes the
/// place of another of its kind.
pub proof fn history_messages_keep_their_fields_apart(
    message: wire::StoredChangelogHistoryStateV3,
    value: ChangelogHistoryStateV3,
)
    requires
        history_carries(message, value),
    ensures
        message.anchor is Some,
        position_carries(message.anchor->Some_0, value.anchor),
        message.tail is Some,
        position_carries(message.tail->Some_0, value.tail),
        message.minimum_resume is Some,
        position_carries(message.minimum_resume->Some_0, value.minimum_resume),
{
}

/// In the message of an attached follower's progress no field takes the place of another of
/// its kind.
pub proof fn attached_messages_keep_their_fields_apart(
    message: wire::AttachedFollowerV3,
    value: AttachedFollower,
)
    requires
        attached_carries(message, value),
    ensures
        message.applied is Some,
        position_carries(message.applied->Some_0, value.applied),
        optional_position_carries(message.acknowledged, value.acknowledged),
{
}

/// In the message of a primary fence record no field takes the place of another of its kind.
pub proof fn primary_fence_messages_keep_their_fields_apart(
    message: wire::StoredPrimaryFenceAdministrationV1,
    value: PrimaryFenceView,
)
    requires
        primary_fence_carries(message, value),
    ensures
        message.administration_sequence == value.administration_sequence.value,
        message.operation_id.value@ == value.operation_id.bytes@,
        message.request_id.value@ == value.request_id.bytes@,
        message.registration_generation == value.generation.value,
{
}

/// In the message of an active primary's lineage no field takes the place of another of its kind.
pub proof fn active_admission_messages_keep_their_fields_apart(
    message: wire::ActiveAdmissionV1,
    value: ActiveAdmission,
)
    requires
        active_admission_carries(message, value),
    ensures
        message.history_incarnation == value.history_incarnation,
        message.leadership_epoch == value.leadership_epoch.value,
{
}

/// In the message of a promotion administration record no field takes the place of another
/// of its kind.
pub proof fn promotion_messages_keep_their_fields_apart(
    message: wire::StoredPromotionAdministrationV1,
    value: PromotionAdministrationView,
)
    requires
        promotion_carries(message, value),
    ensures
        message.administration_sequence == value.administration_sequence.value,
        message.timestamp is Some,
        message.timestamp->Some_0.seconds == value.timestamp.seconds,
        message.timestamp->Some_0.nanos == value.timestamp.nanoseconds,
        message.promotion_operation_id.value@ == value.promotion_operation_id.bytes@,
        message.request_id.value@ == value.request_id.bytes@,
        message.attempted_at is Some,
        message.attempted_at->Some_0.seconds == value.attempted_at.seconds,
        message.attempted_at->Some_0.nanos == value.attempted_at.nanoseconds,
        message.published_incarnation == value.published_incarnation,
        message.published_epoch == value.published_epoch.value,
        message.application_rpo == value.application_rpo,
{
}

/// In the message of a vector source of a columnar projection no field takes the place of
/// another of its kind.
pub proof fn vector_source_messages_keep_their_fields_apart(
    message: wire::StoredColumnarVectorSourceV1,
    value: VectorProjectionSourceV1View,
)
    requires
        vector_source_carries(message, value),
    ensures
        message.entity_type_id == value.entity_type.value,
        message.vector_field_id == value.vector_field.value,
{
}

/// In the message of a generation of a columnar projection no field takes the place of
/// another of its kind.
pub proof fn columnar_generation_messages_keep_their_fields_apart(
    message: wire::StoredColumnarProjectionGenerationV1,
    value: StoredColumnarProjectionGenerationV1,
)
    requires
        columnar_generation_carries(message, value),
    ensures
        message.generation == value.generation.value,
        message.layout.value == value.layout,
        message.frontier is Some,
        columnar_frontier_carries(message.frontier->Some_0, value.frontier),
        message.history_incarnation == value.history_incarnation,
        (message.checksum_bytes is Some) == (value.artifact_checksum is Some),
        value.artifact_checksum is Some
            ==> message.checksum_bytes->Some_0@ == value.artifact_checksum->Some_0.bytes@,
        message.definition_fingerprint@ == value.definition_fingerprint.bytes@,
        message.spec_hash@ == value.spec_hash.bytes@,
        (message.physical_generation_fingerprint is Some)
            == (value.physical_generation_fingerprint is Some),
        value.physical_generation_fingerprint is Some
            ==> message.physical_generation_fingerprint->Some_0@
                == value.physical_generation_fingerprint->Some_0.bytes@,
        optional_columnar_frontier_carries(message.snapshot_frontier, value.snapshot_frontier),
        message.role.value == value.role,
{
}

/// In the message of a failure of a columnar projection no field takes the place of another
/// of its kind.
pub proof fn columnar_failure_messages_keep_their_fields_apart(
    message: wire::StoredColumnarProjectionFailureV1,
    value: StoredColumnarProjectionFailureV1,
)
    requires
        columnar_failure_carries(message, value),
    ensures
        message.target.value == value.target,
        message.reason.value == value.reason,
{
}

/// In the message of a columnar projection control record no field takes the place of
/// another of its kind.
pub proof fn columnar_control_messages_keep_their_fields_apart(
    message: wire::StoredColumnarProjectionControlV1,
    value: ColumnarControlView,
)
    requires
        columnar_control_carries(message, value),
    ensures
        message.target_definition_fingerprint@ == value.target_definition_fingerprint.bytes@,
        message.target_spec_hash@ == value.target_spec_hash.bytes@,
        message.highest_generation == value.highest_generation.value,
        optional_columnar_generation_carries(message.published, value.published),
        optional_columnar_generation_carries(message.candidate, value.candidate),
        optional_columnar_generation_carries(message.predecessor, value.predecessor),
        message.replay_age_seconds == value.replay_age_seconds,
        message.replay_bytes == value.replay_bytes,
        message.replay_backlog == value.replay_backlog,
{
}

/// In the message of the audited invocation of a command no field takes the place of
/// another of its kind.
pub proof fn audit_invocation_messages_keep_their_fields_apart(
    message: wire::StoredCommandAuditInvocationV1,
    value: CommandAuditInvocationView,
)
    requires
        audit_invocation_carries(message, value),
    ensures
        message.operation.value == value.operation,
        message.ingress.value == value.ingress,
        message.started_administration_sequence == value.started_sequence.value,
        message.started_at is Some,
        message.started_at->Some_0.seconds == value.started_at.seconds,
        message.started_at->Some_0.nanos == value.started_at.nanoseconds,
        message.terminal_administration_sequence == value.terminal_sequence.value,
        message.terminal_at is Some,
        message.terminal_at->Some_0.seconds == value.terminal_at.seconds,
        message.terminal_at->Some_0.nanos == value.terminal_at.nanoseconds,
{
}

/// In the message of a replaceable checkpoint of the derived indexes no field takes the
/// place of another of its kind.
pub proof fn checkpoint_messages_keep_their_fields_apart(
    message: wire::StoredCommandDerivedIndexCheckpointV1,
    value: DerivedCheckpointView,
)
    requires
        checkpoint_carries(message, value),
    ensures
        message.history_incarnation == value.history_incarnation,
        message.registry_digest@ == value.registry_digest.bytes@,
        message.segment_frontier == value.segment_frontier.value,
        message.segment_root_digest@ == value.segment_root_digest.bytes@,
        message.checkpoint_digest@ == value.checkpoint_digest.bytes@,
{
}

/// In the message of an executable plan reference no field takes the place of another of its kind.
pub proof fn plan_messages_keep_their_fields_apart(
    message: wire::ExecutablePlanRefV1,
    value: ExecutablePlanView,
)
    requires
        plan_carries(message, value),
    ensures
        message.contract_bundle_hash@ == value.contract_bundle_hash.bytes@,
        message.command_plan_hash@ == value.command_plan_hash.bytes@,
{
}

/// In the message of a command's idempotency identity no field takes the place of another
/// of its kind.
pub proof fn identity_messages_keep_their_fields_apart(
    message: wire::IdempotencyIdentityV1,
    value: IdempotencyIdentityView,
)
    requires
        identity_carries(message, value),
    ensures
        message.environment.value@ == value.environment,
        message.principal_id.value@ == value.principal_id,
        message.contract_lineage.value@ == value.contract_lineage,
{
}

/// In the message of the admitted provenance claims of a command no field takes the place
/// of another of its kind.
pub proof fn claims_messages_keep_their_fields_apart(
    message: wire::StoredAdmittedProvenanceClaimsV1,
    value: ProvenanceClaimsView,
)
    requires
        claims_carries(message, value),
    ensures
        (message.source_repository is Some) == (value.source_repository is Some),
        value.source_repository is Some
            ==> message.source_repository->Some_0.value@ == value.source_repository->Some_0,
        (message.source_commit is Some) == (value.source_commit is Some),
        value.source_commit is Some
            ==> message.source_commit->Some_0.value@ == value.source_commit->Some_0,
        (message.reason is Some) == (value.reason is Some),
        value.reason is Some ==> message.reason->Some_0.value@ == value.reason->Some_0,
        (message.approval_id is Some) == (value.approval_id is Some),
        value.approval_id is Some
            ==> message.approval_id->Some_0.value@ == value.approval_id->Some_0,
{
}

/// In the message of an event consumer's identity no field takes the place of another of its kind.
pub proof fn consumer_identity_messages_keep_their_fields_apart(
    message: wire::EventConsumerIdentityV1,
    value: EventConsumerIdentityView,
)
    requires
        consumer_identity_carries(message, value),
    ensures
        message.reactive_module_hash@ == value.reactive_module_hash.bytes@,
        message.operation_name.value@ == value.operation_name,
        message.parameter_hash@ == value.parameter_hash.bytes@,
        message.consumer_name.value@ == value.consumer_name,
{
}

/// In the message of a bounded durable consumer no field takes the place of another of its kind.
pub proof fn consumer_messages_keep_their_fields_apart(
    message: wire::StoredEventConsumerV1,
    value: EventConsumerView,
)
    requires
        consumer_carries(message, value),
    ensures
        message.history_incarnation == value.history_incarnation,
        message.revision == value.revision.value,
{
}

/// In the message of the artifacts of a contract migration no field takes the place of
/// another of its kind.
pub proof fn artifacts_messages_keep_their_fields_apart(
    message: wire::ContractMigrationArtifactIdentityV1,
    value: ContractMigrationArtifactsV1,
)
    requires
        artifacts_carries(message, value),
    ensures
        message.parent_bundle_hash@ == value.parent.bytes@,
        message.candidate_bundle_hash@ == value.candidate.bytes@,
        message.migration_bundle_hash@ == value.migration.bytes@,
{
}

/// In the message of the artifact files of a contract migration no field takes the place of
/// another of its kind.
pub proof fn operation_artifacts_messages_keep_their_fields_apart(
    message: wire::ContractMigrationOperationArtifactsV1,
    value: ContractMigrationOperationArtifactsV1,
)
    requires
        operation_artifacts_carries(message, value),
    ensures
        message.candidate_bundle_length == value.candidate_length,
        message.candidate_bundle_sha256@ == value.candidate_sha256.bytes@,
        message.migration_bundle_length == value.migration_length,
        message.migration_bundle_sha256@ == value.migration_sha256.bytes@,
{
}

/// In the message of a contract migration journal no field takes the place of another of its kind.
pub proof fn journal_messages_keep_their_fields_apart(
    message: wire::StoredContractMigrationJournalV1,
    value: MigrationJournalView,
)
    requires
        journal_carries(message, value),
    ensures
        message.database_id.value@ == value.database_id.bytes@,
        message.operation_id.value@ == value.operation_id.bytes@,
        message.semantic_input_hash@ == value.input_hash.bytes@,
        message.checked_rows == value.checked_rows,
        message.changed_rows == value.changed_rows,
        message.batch_count == value.batch_count,
        message.journal_hash@ == value.journal_hash.bytes@,
{
}

/// In the message of a permanent contract migration record no field takes the place of
/// another of its kind.
pub proof fn migration_record_messages_keep_their_fields_apart(
    message: wire::StoredContractMigrationRecordV1,
    value: MigrationRecordView,
)
    requires
        migration_record_carries(message, value),
    ensures
        message.database_id.value@ == value.database_id.bytes@,
        message.operation_id.value@ == value.operation_id.bytes@,
        message.semantic_input_hash@ == value.input_hash.bytes@,
        message.source_backup_manifest_checksum.value@ == value.source_backup_manifest,
        (message.predecessor_application_frontier is Some) == (value.predecessor_frontier is Some),
        value.predecessor_frontier is Some
            ==> message.predecessor_application_frontier->Some_0
                == value.predecessor_frontier->Some_0.value,
        (message.successor_application_frontier is Some) == (value.successor_frontier is Some),
        value.successor_frontier is Some
            ==> message.successor_application_frontier->Some_0
                == value.successor_frontier->Some_0.value,
        message.checked_rows == value.checked_rows,
        message.changed_rows == value.changed_rows,
        message.batch_count == value.batch_count,
        message.terminal_validation_digest@ == value.validation_digest.bytes@,
        message.administration_sequence == value.administration_sequence.value,
{
}

/// In the message of a retained predecessor entity no field takes the place of another of its kind.
pub proof fn retired_entity_messages_keep_their_fields_apart(
    message: wire::StoredRetiredEntityRecordV1,
    value: RetiredEntityView,
)
    requires
        retired_entity_carries(message, value),
    ensures
        message.migration_bundle_hash@ == value.migration.bytes@,
        message.original_entity_envelope@ == value.original_entity_envelope,
{
}

/// In the message of a committed entity transition no field takes the place of another of its kind.
pub proof fn transition_messages_keep_their_fields_apart(
    message: wire::StoredCommittedEntityTransitionV1,
    value: EntityTransitionView,
)
    requires
        transition_parts_carry(message, value),
    ensures
        message.command_sequence == value.command_sequence.value,
        message.prior_state is Some,
        chain_state_carries(message.prior_state->Some_0, value.prior_state),
        message.prior_chain_revision == value.prior_chain_revision,
        message.next_state is Some,
        chain_state_carries(message.next_state->Some_0, value.next_state),
{
}

/// In the message of an authoritative entity-chain head no field takes the place of another
/// of its kind.
pub proof fn chain_head_messages_keep_their_fields_apart(
    message: wire::StoredEntityChainHeadV1,
    value: EntityChainHeadView,
)
    requires
        chain_head_carries(message, value),
    ensures
        message.chain_revision == value.chain_revision,
        message.last_command_sequence == value.last_command_sequence.value,
{
}

/// In the message of the receipt of the rotation to the second changelog form no field
/// takes the place of another of its kind.
pub proof fn rotation_receipt_messages_keep_their_fields_apart(
    message: wire::StoredChangelogV2RotationReceiptV1,
    value: ChangelogV2RotationReceipt,
)
    requires
        rotation_receipt_carries(message, value),
    ensures
        (message.predecessor_application_frontier is Some)
            == (value.predecessor_application is Some),
        value.predecessor_application is Some
            ==> message.predecessor_application_frontier->Some_0
                == value.predecessor_application->Some_0.value,
        (message.predecessor_administration_frontier is Some)
            == (value.predecessor_administration is Some),
        value.predecessor_administration is Some
            ==> message.predecessor_administration_frontier->Some_0
                == value.predecessor_administration->Some_0.value,
        message.terminal_v1_frame_hash@ == value.v1_terminal_hash.bytes@,
        message.v2_chain_anchor@ == value.v2_chain_anchor.bytes@,
        message.receipt_hash@ == value.receipt_hash.bytes@,
{
}

/// In the message of a control record no field takes the place of another of its kind.
pub proof fn projection_control_messages_keep_their_fields_apart(
    message: wire::StoredProjectionControlV1,
    value: ProjectionControlView,
)
    requires
        projection_control_carries(message, value),
    ensures
        crate::codec::projection::optional_position_carries(message.published, value.published),
        crate::codec::projection::optional_position_carries(message.candidate, value.candidate),
{
}

} // verus!
