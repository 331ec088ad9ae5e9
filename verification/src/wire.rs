//! Durable messages as plain values.
//!
//! What another layer says of a part stands beside the part: `Vetted` holds whether the
//! owning type accepts it, and `rebuilt` what the owning list type makes of the items of
//! the message, its canonical list or a refusal. Comparing that list with the items is a
//! matter of the codec. `refusal` is why the owning type does not admit a message whose
//! parts are sound; where each of its reasons makes the message corrupt, `admitted` is
//! whether it admits the message.

use vstd::prelude::*;

use crate::codec::parts::{CanonicalDocument, Vetted};
use crate::ids::{Id32, Id64};
use crate::keys::CanonicalValue;
use crate::stored::audit::ServiceAuditPhaseV1;
use crate::stored::capability::CapabilityPermissionKindV1;
use crate::stored::{application, audit, capability};
use crate::value_error::StorageValueError;

verus! {

/// Message form of an actor kind.
#[derive(Clone, Copy, Debug, PartialEq, Eq, Structural)]
pub enum ActorKindV1 {
    /// No value was given.
    Unspecified,
    Human,
    Agent,
    Service,
    /// A value that is not known here.
    Unrecognized,
}

/// Message form of a tenant scope.
#[derive(Debug, PartialEq, Eq)]
pub enum TenantScopeV1Scope {
    Global,
    TenantId(Vetted<String>),
}

/// Message form of a tenant scope.
#[derive(Debug, PartialEq, Eq)]
pub struct TenantScopeV1 {
    pub scope: Option<TenantScopeV1Scope>,
}

/// Message form of an admitted actor.
#[derive(Debug, PartialEq, Eq)]
pub struct AdmittedActorContextV1 {
    pub principal_id: Vetted<String>,
    pub actor_kind: ActorKindV1,
    pub tenant_scope: Option<TenantScopeV1>,
    pub agent_session_id: Option<Vetted<Vec<u8>>>,
}

/// Message form of an audited principal and the capability that it used.
#[derive(Debug, PartialEq, Eq)]
pub struct AuditPrincipalV1 {
    pub principal_id: Vetted<String>,
    pub actor_kind: ActorKindV1,
    pub capability_id: Vetted<Vec<u8>>,
    pub capability_revision: u64,
}

/// Message form of a point in time.
#[derive(Debug, PartialEq, Eq)]
pub struct TimestampV1 {
    pub seconds: i64,
    pub nanos: u32,
}

/// Message form of an event identity.
#[derive(Debug, PartialEq, Eq)]
pub struct EventIdV1 {
    pub commit_sequence: u64,
    pub event_ordinal: u32,
}

/// Message form of an executable plan reference.
#[derive(Debug, PartialEq, Eq)]
pub struct ExecutablePlanRefV1 {
    pub contract_lineage: Vetted<String>,
    pub contract_version: u64,
    pub contract_bundle_hash: Vec<u8>,
    pub command_id: u32,
    pub command_plan_hash: Vec<u8>,
}

/// Message form of a key schema binding.
#[derive(Debug, PartialEq, Eq)]
pub struct DurableKeySchemaBindingV1 {
    pub contract_lineage: Vetted<String>,
    pub contract_version: u64,
    pub contract_bundle_hash: Vec<u8>,
}

/// Message form of a keyed digest of a caller's idempotency key.
#[derive(Debug, PartialEq, Eq)]
pub struct IdempotencyKeyDigestV1 {
    pub digest_scheme: u32,
    pub digest_key_id: u32,
    pub digest: Vec<u8>,
}

/// Message form of a command's idempotency identity.
#[derive(Debug, PartialEq, Eq)]
pub struct IdempotencyIdentityV1 {
    pub database_id: Vetted<Vec<u8>>,
    pub environment: Vetted<String>,
    pub tenant_scope: Option<TenantScopeV1>,
    pub principal_id: Vetted<String>,
    pub contract_lineage: Vetted<String>,
    pub command_id: u32,
    pub caller_key_digest: Option<IdempotencyKeyDigestV1>,
}

/// Message form of the admitted provenance claims of a command.
#[derive(Debug, PartialEq, Eq)]
pub struct StoredAdmittedProvenanceClaimsV1 {
    pub source_repository: Option<Vetted<String>>,
    pub source_commit: Option<Vetted<String>>,
    pub reason: Option<Vetted<String>>,
    pub approval_id: Option<Vetted<String>>,
}

/// Message form of an entity target. Its key is accepted where it is a key of that entity
/// type.
#[derive(Debug, PartialEq, Eq)]
pub struct EntityTargetV1 {
    pub entity_type_id: u32,
    pub entity_key: Vetted<Vec<u8>>,
}

/// Message form of an expected entity state.
#[derive(Debug, PartialEq, Eq)]
pub enum ExpectedEntityStateV1State {
    Absent,
    PresentEntityVersion(u64),
}

/// Message form of an expected entity state.
#[derive(Debug, PartialEq, Eq)]
pub struct ExpectedEntityStateV1 {
    pub state: Option<ExpectedEntityStateV1State>,
}

/// Message form of an index epoch position.
#[derive(Debug, PartialEq, Eq)]
pub enum IndexEpochPositionV1Position {
    BeforeFirst,
    Epoch(u64),
}

/// Message form of an index epoch position.
#[derive(Debug, PartialEq, Eq)]
pub struct IndexEpochPositionV1 {
    pub position: Option<IndexEpochPositionV1Position>,
}

/// Message form of a declared outcome.
#[derive(Debug, PartialEq, Eq)]
pub struct DeclaredOutcomeV1 {
    pub outcome_id: u32,
    pub canonical_value: CanonicalDocument,
}

/// Message form of a durability mode.
#[derive(Clone, Copy, Debug, PartialEq, Eq, Structural)]
pub enum DurabilityModeV1 {
    /// No value was given.
    Unspecified,
    Sync,
    Group,
    Memory,
    /// A value that is not known here.
    Unrecognized,
}

/// Message form of an execution failure code.
#[derive(Clone, Copy, Debug, PartialEq, Eq, Structural)]
pub enum ExecutionFailureCodeV1 {
    /// No value was given.
    Unspecified,
    ArithmeticFault,
    ResourceLimit,
    UniqueConflict,
    /// A value that is not known here.
    Unrecognized,
}

/// Message form of a reference to an event by identity and hash.
#[derive(Debug, PartialEq, Eq)]
pub struct EventReferenceV2 {
    pub event_id: Option<EventIdV1>,
    pub event_hash: Vec<u8>,
}

/// Message form of an entity row.
#[derive(Debug, PartialEq, Eq)]
pub struct StoredEntityRecordV1 {
    pub target: Option<EntityTargetV1>,
    pub entity_version: u64,
    pub written_by_contract: u64,
    pub schema_binding: Option<DurableKeySchemaBindingV1>,
    pub canonical_fields: CanonicalDocument,
}

/// Message form of an index entry.
#[derive(Debug, PartialEq, Eq)]
pub struct StoredIndexEntryV2 {
    pub index_entry_key: Vetted<Vec<u8>>,
    pub schema_binding: Option<DurableKeySchemaBindingV1>,
    pub canonical_covered_values: CanonicalDocument,
    pub partition_key: Vetted<Vec<u8>>,
}

/// Message form of a legacy index entry.
#[derive(Debug, PartialEq, Eq)]
pub struct StoredIndexEntryV1 {
    pub index_entry_key: Vetted<Vec<u8>>,
    pub schema_binding: Option<DurableKeySchemaBindingV1>,
    pub canonical_covered_values: CanonicalDocument,
}

/// Message form of the epoch of one partitioned index.
#[derive(Debug, PartialEq, Eq)]
pub struct StoredIndexGenerationV2 {
    pub partition_key: Vetted<Vec<u8>>,
    pub index_id: u32,
    pub schema_binding: Option<DurableKeySchemaBindingV1>,
    pub generation: u64,
}

/// Message form of the epoch of one historical index range prefix.
#[derive(Debug, PartialEq, Eq)]
pub struct StoredIndexEpochV1 {
    pub canonical_index_range_prefix: IndexRangePrefixV1,
    pub schema_binding: Option<DurableKeySchemaBindingV1>,
    pub epoch: u64,
}

/// Message form of what caused a command.
#[derive(Debug, PartialEq, Eq)]
pub struct StoredCommandCausationV1 {
    pub causing_event_id: Option<EventIdV1>,
    pub root_request_id: Vetted<Vec<u8>>,
}

/// Message form of a pending admission apart from its causation.
#[derive(Debug, PartialEq, Eq)]
pub struct StoredPendingAdmissionV1 {
    pub identity: Option<IdempotencyIdentityV1>,
    pub canonical_input_hash: Vec<u8>,
    pub admission_request_id: Vetted<Vec<u8>>,
    pub plan: Option<ExecutablePlanRefV1>,
    pub logical_time: Option<TimestampV1>,
    pub actor: Option<AdmittedActorContextV1>,
    pub partition_key: Vetted<Vec<u8>>,
    pub provenance_claims: Option<StoredAdmittedProvenanceClaimsV1>,
}

/// Message form of a pending command admission.
#[derive(Debug, PartialEq, Eq)]
pub struct StoredPendingAdmissionV2 {
    pub base: Option<StoredPendingAdmissionV1>,
    pub causation: Option<StoredCommandCausationV1>,
}

/// Message form of a terminal deterministic execution failure.
#[derive(Debug, PartialEq, Eq)]
pub struct StoredExecutionFailedV2 {
    pub pending: Option<StoredPendingAdmissionV2>,
    pub code: ExecutionFailureCodeV1,
}

/// Message form of a terminal execution failure apart from its causation.
#[derive(Debug, PartialEq, Eq)]
pub struct StoredExecutionFailedV1 {
    pub pending: Option<StoredPendingAdmissionV1>,
    pub code: ExecutionFailureCodeV1,
}

/// Message form of a durable event.
#[derive(Debug, PartialEq, Eq)]
pub struct StoredDurableEventV1 {
    pub event_id: Option<EventIdV1>,
    pub event_type_id: u32,
    pub canonical_payload: CanonicalDocument,
    pub event_hash: Vec<u8>,
}

/// Message form of a payload-free partition event route.
#[derive(Debug, PartialEq, Eq)]
pub struct StoredEventRouteV1 {
    pub event_id: Option<EventIdV1>,
    pub event_type_id: u32,
    pub event_hash: Vec<u8>,
}

/// Message form of a dependency on one observed entity.
#[derive(Debug, PartialEq, Eq)]
pub struct EntityReadDependencyV1 {
    pub target: Option<EntityTargetV1>,
    pub expected: Option<ExpectedEntityStateV1>,
}

/// Message form of a dependency on one index range epoch.
#[derive(Debug, PartialEq, Eq)]
pub struct IndexRangeReadDependencyV1 {
    pub canonical_index_range_prefix: IndexRangePrefixV1,
    pub expected: Option<IndexEpochPositionV1>,
}

/// Message form of a read dependency of a commit.
#[derive(Debug, PartialEq, Eq)]
pub enum StoredReadDependencyV1Dependency {
    EntityObservation(EntityReadDependencyV1),
    IndexRangeEpoch(IndexRangeReadDependencyV1),
}

/// Message form of a read dependency of a commit.
#[derive(Debug, PartialEq, Eq)]
pub struct StoredReadDependencyV1 {
    pub dependency: Option<StoredReadDependencyV1Dependency>,
}

/// Message form of the read dependencies of a commit in canonical order.
#[derive(Debug, PartialEq, Eq)]
pub struct StoredReadDependenciesV1 {
    pub dependencies: Vec<StoredReadDependencyV1>,
    pub rebuilt: Result<Vec<application::StoredReadDependencyV1>, StorageValueError>,
}

/// Message form of a terminal outcome apart from its causation.
#[derive(Debug, PartialEq, Eq)]
pub struct StoredOutcomeV1 {
    pub identity: Option<IdempotencyIdentityV1>,
    pub commit_sequence: u64,
    pub admission_request_id: Vetted<Vec<u8>>,
    pub plan: Option<ExecutablePlanRefV1>,
    pub canonical_input_hash: Vec<u8>,
    pub actor: Option<AdmittedActorContextV1>,
    pub logical_time: Option<TimestampV1>,
    pub partition_hash: Vec<u8>,
    pub conflict_hashes: Vec<Vec<u8>>,
    pub declared_outcome: Option<DeclaredOutcomeV1>,
    pub admitted_claims: Option<StoredAdmittedProvenanceClaimsV1>,
    pub provenance_id: Vetted<Vec<u8>>,
    pub durability_mode: DurabilityModeV1,
    pub partition_key: Vetted<Vec<u8>>,
}

/// Message form of a complete terminal idempotency outcome.
#[derive(Debug, PartialEq, Eq)]
pub struct StoredOutcomeV2 {
    pub base: Option<StoredOutcomeV1>,
    pub causation: Option<StoredCommandCausationV1>,
}

/// Message form of an entity that a command affected.
#[derive(Debug, PartialEq, Eq)]
pub struct AffectedEntityV1 {
    pub target: Option<EntityTargetV1>,
    pub entity_version: u64,
}

/// Message form of a provenance record apart from its causation.
#[derive(Debug, PartialEq, Eq)]
pub struct StoredProvenanceRecordV1 {
    pub provenance_id: Vetted<Vec<u8>>,
    pub commit_sequence: u64,
    pub identity: Option<IdempotencyIdentityV1>,
    pub admission_request_id: Vetted<Vec<u8>>,
    pub plan: Option<ExecutablePlanRefV1>,
    pub canonical_input_hash: Vec<u8>,
    pub actor: Option<AdmittedActorContextV1>,
    pub logical_time: Option<TimestampV1>,
    pub partition_hash: Vec<u8>,
    pub conflict_hashes: Vec<Vec<u8>>,
    pub outcome_id: u32,
    pub affected_entities: Vec<AffectedEntityV1>,
    pub event_ids: Vec<EventIdV1>,
    pub admitted_claims: Option<StoredAdmittedProvenanceClaimsV1>,
}

/// Message form of an immutable command provenance record.
#[derive(Debug, PartialEq, Eq)]
pub struct StoredProvenanceRecordV2 {
    pub base: Option<StoredProvenanceRecordV1>,
    pub causation: Option<StoredCommandCausationV1>,
}

/// Message form of a reference to a committed entity by version and hash.
#[derive(Debug, PartialEq, Eq)]
pub struct CommittedEntityReferenceV2 {
    pub target: Option<EntityTargetV1>,
    pub entity_version: u64,
    pub post_image_hash: Vec<u8>,
}

/// Message form of a committed entity mutation.
#[derive(Debug, PartialEq, Eq)]
pub struct CommittedEntityMutationV1 {
    pub expected: Option<ExpectedEntityStateV1>,
    pub post_image: Option<StoredEntityRecordV1>,
    pub refusal: Option<StorageValueError>,
}

/// Message form of what every form of a commit record holds.
#[derive(Debug, PartialEq, Eq)]
pub struct CommitPartsV1 {
    pub commit_sequence: u64,
    pub admission_request_id: Vetted<Vec<u8>>,
    pub plan: Option<ExecutablePlanRefV1>,
    pub canonical_input_hash: Vec<u8>,
    pub actor: Option<AdmittedActorContextV1>,
    pub logical_time: Option<TimestampV1>,
    pub partition_hash: Vec<u8>,
    pub conflict_hashes: Vec<Vec<u8>>,
    pub read_dependencies: Option<StoredReadDependenciesV1>,
    pub declared_outcome: Option<DeclaredOutcomeV1>,
    pub provenance_id: Vetted<Vec<u8>>,
    pub outbox_event_ids: Vec<EventIdV1>,
    pub durability_mode: DurabilityModeV1,
}

/// Message form of a keyed digest of a capability token.
#[derive(Debug, PartialEq, Eq)]
pub struct CapabilityTokenDigestV1 {
    pub digest_scheme: u32,
    pub digest_key_id: u32,
    pub digest: Vec<u8>,
}

/// Message form of the revocation of a capability.
#[derive(Debug, PartialEq, Eq)]
pub struct RevokedCapabilityV1 {
    pub revoked_at: Option<TimestampV1>,
    pub administration_sequence: u64,
    pub reason: Vetted<i32>,
}

/// Message form of a capability lifecycle.
#[derive(Debug, PartialEq, Eq)]
pub enum CapabilityLifecycleV1State {
    Active,
    Revoked(RevokedCapabilityV1),
}

/// Message form of a capability lifecycle.
#[derive(Debug, PartialEq, Eq)]
pub struct CapabilityLifecycleV1 {
    pub state: Option<CapabilityLifecycleV1State>,
}

/// Message form of a partition of one contract lineage.
#[derive(Debug, PartialEq, Eq)]
pub struct ScopedPartitionV1 {
    pub contract_lineage: Vetted<String>,
    pub partition_key: Vetted<Vec<u8>>,
}

/// Message form of an explicit list of partitions in canonical order.
#[derive(Debug, PartialEq, Eq)]
pub struct ExplicitPartitionScopeV1 {
    pub partitions: Vec<ScopedPartitionV1>,
    pub rebuilt: Result<Vec<capability::ScopedPartitionV1>, StorageValueError>,
}

/// Message form of a partition scope.
#[derive(Debug, PartialEq, Eq)]
pub enum PartitionScopeV1Scope {
    All,
    Explicit(ExplicitPartitionScopeV1),
}

/// Message form of a partition scope.
#[derive(Debug, PartialEq, Eq)]
pub struct PartitionScopeV1 {
    pub scope: Option<PartitionScopeV1Scope>,
}

/// Message form of the permissions of a grant in canonical order.
#[derive(Debug, PartialEq, Eq)]
pub struct CapabilityPermissionsV1 {
    pub values: Vec<CapabilityPermissionV1>,
    pub rebuilt: Result<Vec<capability::CapabilityPermissionV1>, StorageValueError>,
}

/// Message form of the fields of one entity type that a grant shows.
#[derive(Debug, PartialEq, Eq)]
pub struct EntityFieldVisibilityV1 {
    pub contract_lineage: Vetted<String>,
    pub entity_type_id: u32,
    pub field_ids: Vec<u32>,
    pub rebuilt: Result<Vec<Id32>, StorageValueError>,
}

/// Message form of the secret fields of one entity type that a grant names.
#[derive(Debug, PartialEq, Eq)]
pub struct CapabilitySecretVisibilityV1 {
    pub contract_lineage: Vetted<String>,
    pub entity_type_id: u32,
    pub secret_field_ids: Vec<u32>,
    pub rebuilt: Result<Vec<Id32>, StorageValueError>,
}

/// Message form of the secret fields that a grant names.
#[derive(Debug, PartialEq, Eq)]
pub struct CapabilitySecretGrantExtensionV1 {
    pub entries: Vec<CapabilitySecretVisibilityV1>,
}

/// Message form of the contract lineages that an extended permission covers.
#[derive(Debug, PartialEq, Eq)]
pub struct CapabilityLineageGrantExtensionV1 {
    pub contract_lineages: Vec<Vetted<String>>,
    pub approval_required: bool,
}

/// Message form of a row policy bound to an entity type.
#[derive(Debug, PartialEq, Eq)]
pub struct CapabilityRowPolicyBindingV1 {
    pub contract_lineage: Vetted<String>,
    pub policy_name: Vetted<String>,
    pub entity_type_id: u32,
    pub operations: Vec<Vetted<i32>>,
    pub refusal: Option<StorageValueError>,
}

/// Message form of the row policies of a grant.
#[derive(Debug, PartialEq, Eq)]
pub struct CapabilityRowPolicyGrantExtensionV1 {
    pub application_role_hash: Vec<u8>,
    pub canonical_principal_facts: Vetted<Vec<u8>>,
    pub policies: Vec<CapabilityRowPolicyBindingV1>,
    pub rebuilt: Result<Vec<capability::CapabilityRowPolicyBindingV1>, StorageValueError>,
    pub refusal: Option<StorageValueError>,
}

/// Message form of what a grant lets be exported of one application.
#[derive(Debug, PartialEq, Eq)]
pub struct CapabilityApplicationExportGrantV1 {
    pub contract_lineage: Vetted<String>,
    pub scope: Vetted<i32>,
    pub entities: bool,
    pub events: bool,
    pub provenance: bool,
    pub public_audit: bool,
    pub refusal: Option<StorageValueError>,
}

/// Message form of what a grant lets be exported.
#[derive(Debug, PartialEq, Eq)]
pub struct CapabilityExportGrantExtensionV1 {
    pub applications: Vec<CapabilityApplicationExportGrantV1>,
    pub rebuilt: Result<Vec<capability::CapabilityApplicationExportGrantV1>, StorageValueError>,
    pub refusal: Option<StorageValueError>,
}

/// Message form of a grant without its extensions.
#[derive(Debug, PartialEq, Eq)]
pub struct CapabilityGrantV1 {
    pub tenant_scope: Option<TenantScopeV1>,
    pub partition_scope: Option<PartitionScopeV1>,
    pub permissions: Option<CapabilityPermissionsV1>,
    pub field_visibility: Vec<EntityFieldVisibilityV1>,
    pub max_scan_rows: u32,
    pub approval_required: Vec<Option<CapabilityPermissionKindV1>>,
    pub rebuilt: Result<capability::RebuiltGrant, StorageValueError>,
}

/// Message form of what a capability record holds beside its grant.
#[derive(Debug, PartialEq, Eq)]
pub struct CapabilityHeaderV1 {
    pub capability_id: Vetted<Vec<u8>>,
    pub revision: u64,
    pub token_digest: Option<CapabilityTokenDigestV1>,
    pub database_id: Vetted<Vec<u8>>,
    pub environment: Vetted<String>,
    pub principal_id: Vetted<String>,
    pub actor_kind: ActorKindV1,
    pub audiences: Vec<Vetted<String>>,
    pub issued_at: Option<TimestampV1>,
    pub expires_at: Option<TimestampV1>,
    pub creation_sequence: u64,
    pub creation_request_id: Vetted<Vec<u8>>,
    pub lifecycle: Option<CapabilityLifecycleV1>,
}

/// Message form of a capability record without its grant's extensions.
#[derive(Debug, PartialEq, Eq)]
pub struct CapabilityRecordV1 {
    pub header: CapabilityHeaderV1,
    pub grant: Option<CapabilityGrantV1>,
}

/// Message form of a capability record in its parts.
#[derive(Debug, PartialEq, Eq)]
pub struct CapabilityRecordV6 {
    pub base: Option<CapabilityRecordV1>,
    pub migration: Option<CapabilityLineageGrantExtensionV1>,
    pub installation: Option<CapabilityLineageGrantExtensionV1>,
    pub row_policy: Option<CapabilityRowPolicyGrantExtensionV1>,
    pub export: Option<CapabilityExportGrantExtensionV1>,
    pub secret: Option<CapabilitySecretGrantExtensionV1>,
}

/// Message form of the capability that a token digest leads to.
#[derive(Debug, PartialEq, Eq)]
pub struct CapabilityTokenLookupV1 {
    pub capability_id: Vetted<Vec<u8>>,
}

/// Message form of the irreversible capability-bootstrap marker.
#[derive(Debug, PartialEq, Eq)]
pub struct CapabilityBootstrapMarkerV1 {
    pub database_id: Vetted<Vec<u8>>,
    pub capability_id: Vetted<Vec<u8>>,
    pub administration_sequence: u64,
}

/// Message form of a capability-administration audit record.
#[derive(Debug, PartialEq, Eq)]
pub struct CapabilityAdministrationAuditV1 {
    pub administration_sequence: u64,
    pub request_id: Vetted<Vec<u8>>,
    pub operation: Vetted<i32>,
    pub timestamp: Option<TimestampV1>,
    pub initiator: Option<AuditPrincipalV1>,
    pub target_capability_id: Vetted<Vec<u8>>,
    pub resulting_revision: u64,
    pub approval_id: Option<Vetted<String>>,
    pub revocation_reason: Option<Vetted<i32>>,
}

/// Message form of an audited contract version.
#[derive(Debug, PartialEq, Eq)]
pub struct ContractVersionAuditTargetV1 {
    pub contract_lineage: Vetted<String>,
    pub contract_version: u64,
}

/// Message form of an audited entity type.
#[derive(Debug, PartialEq, Eq)]
pub struct EntityTypeAuditTargetV1 {
    pub contract_lineage: Vetted<String>,
    pub entity_type_id: u32,
}

/// Message form of an audited command.
#[derive(Debug, PartialEq, Eq)]
pub struct CommandAuditTargetV1 {
    pub contract_lineage: Vetted<String>,
    pub command_id: u32,
}

/// Message form of an audited projection.
#[derive(Debug, PartialEq, Eq)]
pub struct ProjectionAuditTargetV1 {
    pub contract_lineage: Vetted<String>,
    pub projection_id: u32,
}

/// Message form of an audited index.
#[derive(Debug, PartialEq, Eq)]
pub struct IndexAuditTargetV1 {
    pub contract_lineage: Vetted<String>,
    pub index_id: u32,
}

/// Message form of a target of a service audit record.
#[derive(Debug, PartialEq, Eq)]
pub enum ServiceAuditTargetV1Target {
    ContractLineage(Vetted<String>),
    ContractVersion(ContractVersionAuditTargetV1),
    EntityType(EntityTypeAuditTargetV1),
    Command(CommandAuditTargetV1),
    Projection(ProjectionAuditTargetV1),
    Index(IndexAuditTargetV1),
    CommitSequence(u64),
    ProvenanceId(Vetted<Vec<u8>>),
    CapabilityId(Vetted<Vec<u8>>),
}

/// Message form of a target of a service audit record.
#[derive(Debug, PartialEq, Eq)]
pub struct ServiceAuditTargetV1 {
    pub target: Option<ServiceAuditTargetV1Target>,
}

/// Message form of a replication follower by the hold that it has.
#[derive(Debug, PartialEq, Eq)]
pub struct ReplicationFollowerAuditTargetV3 {
    pub database_id: Vetted<Vec<u8>>,
    pub history_incarnation: u64,
    pub leadership_epoch: u64,
    pub hold_id: Vetted<Vec<u8>>,
    pub admitted: bool,
}

/// Message form of a target of a service audit record of the third form.
#[derive(Debug, PartialEq, Eq)]
pub enum ServiceAuditTargetV3Target {
    ContractLineage(Vetted<String>),
    ContractVersion(ContractVersionAuditTargetV1),
    EntityType(EntityTypeAuditTargetV1),
    Command(CommandAuditTargetV1),
    Projection(ProjectionAuditTargetV1),
    Index(IndexAuditTargetV1),
    CommitSequence(u64),
    ProvenanceId(Vetted<Vec<u8>>),
    CapabilityId(Vetted<Vec<u8>>),
    EventConsumer(Vetted<Vec<u8>>),
    ReplicationFollower(ReplicationFollowerAuditTargetV3),
}

/// Message form of a target of a service audit record of the third form.
#[derive(Debug, PartialEq, Eq)]
pub struct ServiceAuditTargetV3 {
    pub target: Option<ServiceAuditTargetV3Target>,
}

/// Message form of a link to a command's commit and provenance.
#[derive(Debug, PartialEq, Eq)]
pub struct CommandServiceAuditLinkV1 {
    pub commit_sequence: u64,
    pub provenance_id: Vetted<Vec<u8>>,
}

/// Message form of a link to an administrative change.
#[derive(Debug, PartialEq, Eq)]
pub struct ControlPlaneServiceAuditLinkV1 {
    pub administration_sequence: u64,
}

/// Message form of a link of a service audit record.
#[derive(Debug, PartialEq, Eq)]
pub enum ServiceAuditLinkV1Link {
    Nothing,
    Command(CommandServiceAuditLinkV1),
    ControlPlane(ControlPlaneServiceAuditLinkV1),
}

/// Message form of a link of a service audit record.
#[derive(Debug, PartialEq, Eq)]
pub struct ServiceAuditLinkV1 {
    pub link: Option<ServiceAuditLinkV1Link>,
}

/// Message form of a service audit record.
#[derive(Debug, PartialEq, Eq)]
pub struct ServiceAuditRecordV1 {
    pub administration_sequence: u64,
    pub request_id: Vetted<Vec<u8>>,
    pub timestamp: Option<TimestampV1>,
    pub operation: Vetted<i32>,
    pub phase: Option<ServiceAuditPhaseV1>,
    pub principal: Option<AuditPrincipalV1>,
    pub ingress: Vetted<i32>,
    pub targets: Vec<ServiceAuditTargetV1>,
    pub rebuilt: Result<Vec<audit::ServiceAuditTargetV1>, StorageValueError>,
    pub approval_id: Option<Vetted<String>>,
    pub link: Option<ServiceAuditLinkV1>,
}

/// Message form of a service audit record of the third form.
#[derive(Debug, PartialEq, Eq)]
pub struct ServiceAuditRecordV3 {
    pub administration_sequence: u64,
    pub request_id: Vetted<Vec<u8>>,
    pub timestamp: Option<TimestampV1>,
    pub operation: Vetted<i32>,
    pub phase: Option<ServiceAuditPhaseV1>,
    pub principal: Option<AuditPrincipalV1>,
    pub ingress: Vetted<i32>,
    pub targets: Vec<ServiceAuditTargetV3>,
    pub rebuilt: Result<Vec<audit::ServiceAuditTargetV3>, StorageValueError>,
    pub approval_id: Option<Vetted<String>>,
    pub link: Option<ServiceAuditLinkV1>,
}

/// Message form of an index row from a request to its audit sequence.
#[derive(Debug, PartialEq, Eq)]
pub struct StoredServiceAuditRequestIndexV1 {
    pub request_id: Vetted<Vec<u8>>,
    pub administration_sequence: u64,
}

/// Message form of an event consumer's identity.
#[derive(Debug, PartialEq, Eq)]
pub struct EventConsumerIdentityV1 {
    pub database_id: Vetted<Vec<u8>>,
    pub reactive_module_hash: Vec<u8>,
    pub operation_name: Vetted<String>,
    pub parameter_hash: Vec<u8>,
    pub consumer_name: Vetted<String>,
}

/// Message form of an event that was resolved out of order.
#[derive(Debug, PartialEq, Eq)]
pub struct SparseConsumerResolutionV1 {
    pub event_id: Option<EventIdV1>,
    pub kind: i32,
}

/// Message form of a bounded durable consumer; without a checkpoint it stands before the
/// first event.
#[derive(Debug, PartialEq, Eq)]
pub struct StoredEventConsumerV1 {
    pub identity: Option<EventConsumerIdentityV1>,
    pub partition_hash: Vec<u8>,
    pub history_incarnation: u64,
    pub revision: u64,
    pub checkpoint: Option<EventIdV1>,
    pub sparse_resolutions: Vec<SparseConsumerResolutionV1>,
    pub admitted: bool,
}

/// Message form of a leased delivery.
#[derive(Debug, PartialEq, Eq)]
pub struct LeasedConsumerDeliveryV1 {
    pub attempt: Vetted<u32>,
    pub token: Vec<u8>,
    pub expires_at: Option<TimestampV1>,
}

/// Message form of a delivery to be retried.
#[derive(Debug, PartialEq, Eq)]
pub struct RetryConsumerDeliveryV1 {
    pub failed_attempts: Vetted<u32>,
    pub eligible_at: Option<TimestampV1>,
}

/// Message form of a delivery that was given up.
#[derive(Debug, PartialEq, Eq)]
pub struct DeadLetteredConsumerDeliveryV1 {
    pub failed_attempts: Vetted<u32>,
    pub dead_lettered_at: Option<TimestampV1>,
    pub reason: i32,
}

/// Message form of a consumer delivery state.
#[derive(Debug, PartialEq, Eq)]
pub enum ConsumerDeliveryStateV1State {
    Leased(LeasedConsumerDeliveryV1),
    Retry(RetryConsumerDeliveryV1),
    DeadLettered(DeadLetteredConsumerDeliveryV1),
}

/// Message form of a consumer delivery state.
#[derive(Debug, PartialEq, Eq)]
pub struct ConsumerDeliveryStateV1 {
    pub state: Option<ConsumerDeliveryStateV1State>,
}

/// Message form of a payload-free durable delivery row.
#[derive(Debug, PartialEq, Eq)]
pub struct StoredEventConsumerDeliveryV1 {
    pub consumer_identity_hash: Vec<u8>,
    pub event_id: Option<EventIdV1>,
    pub history_incarnation: u64,
    pub state: ConsumerDeliveryStateV1,
    pub admitted: bool,
}

/// Message form of a supported storage format version.
#[derive(Debug, PartialEq, Eq)]
pub struct StoredStorageFormatVersionV1 {
    pub storage_format_version: Vetted<u32>,
}

/// Message form of the digest of the record registry.
#[derive(Debug, PartialEq, Eq)]
pub struct StoredRecordRegistryV2 {
    pub registry_digest: Vec<u8>,
}

/// Message form of the permanent identity of a database.
#[derive(Debug, PartialEq, Eq)]
pub struct StoredDatabaseIdentityV1 {
    pub database_id: Vetted<Vec<u8>>,
}

/// Message form of the allocator of commit positions.
#[derive(Debug, PartialEq, Eq)]
pub enum StoredApplicationSequenceAllocatorV1State {
    NextCommitSequence(u64),
    Exhausted,
}

/// Message form of the allocator of commit positions.
#[derive(Debug, PartialEq, Eq)]
pub struct StoredApplicationSequenceAllocatorV1 {
    pub state: Option<StoredApplicationSequenceAllocatorV1State>,
}

/// Message form of the allocator of administrative positions.
#[derive(Debug, PartialEq, Eq)]
pub enum StoredAdministrationSequenceAllocatorV1State {
    NextAdministrationSequence(u64),
    Exhausted,
}

/// Message form of the allocator of administrative positions.
#[derive(Debug, PartialEq, Eq)]
pub struct StoredAdministrationSequenceAllocatorV1 {
    pub state: Option<StoredAdministrationSequenceAllocatorV1State>,
}

/// Message form of a scalar source of a columnar projection.
#[derive(Debug, PartialEq, Eq)]
pub struct StoredColumnarScalarSourceV1 {
    pub contract_lineage: Vetted<String>,
    pub definition_fingerprint: Vec<u8>,
}

/// Message form of a vector source of a columnar projection.
#[derive(Debug, PartialEq, Eq)]
pub struct StoredColumnarVectorSourceV1 {
    pub contract_lineage: Vetted<String>,
    pub entity_type_id: u32,
    pub vector_field_id: u32,
}

/// Message form of a source of a columnar projection.
#[derive(Debug, PartialEq, Eq)]
pub enum StoredColumnarProjectionSourceV1Source {
    Scalar(StoredColumnarScalarSourceV1),
    Vector(StoredColumnarVectorSourceV1),
}

/// Message form of a source of a columnar projection.
#[derive(Debug, PartialEq, Eq)]
pub struct StoredColumnarProjectionSourceV1 {
    pub source: Option<StoredColumnarProjectionSourceV1Source>,
}

/// Message form of how far a columnar generation has come; without a position it stands
/// before the first commit.
#[derive(Debug, PartialEq, Eq)]
pub struct StoredColumnarProjectionFrontierV1 {
    pub applied_through: Option<u64>,
}

/// Message form of a generation of a columnar projection.
#[derive(Debug, PartialEq, Eq)]
pub struct StoredColumnarProjectionGenerationV1 {
    pub generation: u64,
    pub layout: Vetted<i32>,
    pub frontier: Option<StoredColumnarProjectionFrontierV1>,
    pub history_incarnation: u64,
    pub artifact_length: Option<u64>,
    pub checksum_bytes: Option<Vec<u8>>,
    pub definition_fingerprint: Vec<u8>,
    pub spec_hash: Vec<u8>,
    pub physical_generation_fingerprint: Option<Vec<u8>>,
    pub snapshot_frontier: Option<StoredColumnarProjectionFrontierV1>,
    pub role: Vetted<i32>,
    pub admitted: bool,
}

/// Message form of a failure of a columnar projection.
#[derive(Debug, PartialEq, Eq)]
pub struct StoredColumnarProjectionFailureV1 {
    pub target: Vetted<i32>,
    pub reason: Vetted<i32>,
    pub generation: Option<u64>,
    pub admitted: bool,
}

/// Message form of a columnar projection control record.
#[derive(Debug, PartialEq, Eq)]
pub struct StoredColumnarProjectionControlV1 {
    pub source: Option<StoredColumnarProjectionSourceV1>,
    pub target_definition_fingerprint: Vec<u8>,
    pub target_spec_hash: Vec<u8>,
    pub highest_generation: u64,
    pub published: Option<StoredColumnarProjectionGenerationV1>,
    pub candidate: Option<StoredColumnarProjectionGenerationV1>,
    pub predecessor: Option<StoredColumnarProjectionGenerationV1>,
    pub lifecycle: Vetted<i32>,
    pub failure: Option<StoredColumnarProjectionFailureV1>,
    pub replay_age_seconds: u64,
    pub replay_bytes: u64,
    pub replay_backlog: u64,
    pub admitted: bool,
}

/// Message form of a committed entity transition.
#[derive(Debug, PartialEq, Eq)]
pub struct StoredCommittedEntityTransitionV1 {
    pub command_sequence: u64,
    pub mutation_ordinal: u32,
    pub target: Option<EntityTargetV1>,
    pub prior_state: Option<StoredEntityChainStateV1>,
    pub prior_chain_revision: u64,
    pub prior_transition_hash: Option<Vec<u8>>,
    pub next_state: Option<StoredEntityChainStateV1>,
    pub transition_hash: Vec<u8>,
    pub refusal: Option<StorageValueError>,
}

/// Message form of an authoritative entity-chain head.
#[derive(Debug, PartialEq, Eq)]
pub struct StoredEntityChainHeadV1 {
    pub target: Option<EntityTargetV1>,
    pub chain_revision: u64,
    pub state: Option<StoredEntityChainStateV1>,
    pub last_command_sequence: u64,
    pub last_transition_hash: Vec<u8>,
}

/// Message form of the receipt of the rotation to the second changelog form.
#[derive(Debug, PartialEq, Eq)]
pub struct StoredChangelogV2RotationReceiptV1 {
    pub database_id: Vetted<Vec<u8>>,
    pub history_incarnation: u64,
    pub predecessor_application_frontier: Option<u64>,
    pub predecessor_administration_frontier: Option<u64>,
    pub terminal_v1_frame_hash: Vec<u8>,
    pub v2_chain_anchor: Vec<u8>,
    pub receipt_hash: Vec<u8>,
    pub admitted: bool,
}

/// Message form of a compact application-export head.
#[derive(Debug, PartialEq, Eq)]
pub struct StoredApplicationExportOperationV2 {
    pub operation_id: Vetted<Vec<u8>>,
    pub contract_lineage: Vetted<String>,
    pub immutable_binding: Vec<u8>,
    pub canonical_state: Vec<u8>,
    pub canonical_prefix: Vec<u8>,
}

/// Message form of an application-export checkpoint or receipt.
#[derive(Debug, PartialEq, Eq)]
pub struct StoredApplicationExportOperationV1 {
    pub operation_id: Vetted<Vec<u8>>,
    pub contract_lineage: Vetted<String>,
    pub canonical_state: Vec<u8>,
}

/// Message form of a page of the export ledger.
#[derive(Debug, PartialEq, Eq)]
pub struct StoredApplicationExportPageCommitmentV1 {
    pub canonical_commitment: Vec<u8>,
}

/// Message form of an application-installation campaign.
#[derive(Debug, PartialEq, Eq)]
pub struct StoredApplicationInstallationCampaignV1 {
    pub campaign_id: Vetted<Vec<u8>>,
    pub contract_lineage: Vetted<String>,
    pub plan_hash: Vec<u8>,
    pub canonical_state: Vec<u8>,
}

/// Message form of the active catalog pointer.
#[derive(Debug, PartialEq, Eq)]
pub struct ActiveCatalogPointerV1 {
    pub contract_lineage: Vetted<String>,
    pub contract_version: u64,
    pub contract_bundle_hash: Vec<u8>,
}

/// Message form of a compiled contract bundle.
#[derive(Debug, PartialEq, Eq)]
pub struct StoredContractBundleV1 {
    pub contract_lineage: Vetted<String>,
    pub contract_version: u64,
    pub contract_bundle_hash: Vec<u8>,
    pub canonical_bundle: Vec<u8>,
}

/// Message form of a catalog activation record.
#[derive(Debug, PartialEq, Eq)]
pub struct StoredCatalogAdministrationV1 {
    pub administration_sequence: u64,
    pub request_id: Vetted<Vec<u8>>,
    pub timestamp: Option<TimestampV1>,
    pub principal: Option<AuditPrincipalV1>,
    pub previous_active: Option<ActiveCatalogPointerV1>,
    pub activated: Option<ActiveCatalogPointerV1>,
    pub approval_id: Option<Vetted<String>>,
}

/// Message form of the artifacts of a contract migration.
#[derive(Debug, PartialEq, Eq)]
pub struct ContractMigrationArtifactIdentityV1 {
    pub parent_bundle_hash: Vec<u8>,
    pub candidate_bundle_hash: Vec<u8>,
    pub migration_bundle_hash: Vec<u8>,
}

/// Message form of the artifact files of a contract migration.
#[derive(Debug, PartialEq, Eq)]
pub struct ContractMigrationOperationArtifactsV1 {
    pub candidate_bundle_length: u64,
    pub candidate_bundle_sha256: Vec<u8>,
    pub migration_bundle_length: u64,
    pub migration_bundle_sha256: Vec<u8>,
}

/// Message form of a migration step.
#[derive(Clone, Copy, Debug, PartialEq, Eq, Structural)]
pub enum ContractMigrationJournalStepV1 {
    /// No value was given.
    Unspecified,
    Transforming,
    RebuildingProjections,
    Validating,
    ReadyForCutover,
    Complete,
    /// A value that is not known here.
    Unrecognized,
}

/// Message form of a contract migration journal.
#[derive(Debug, PartialEq, Eq)]
pub struct StoredContractMigrationJournalV1 {
    pub database_id: Vetted<Vec<u8>>,
    pub operation_id: Vetted<Vec<u8>>,
    pub semantic_input_hash: Vec<u8>,
    pub artifacts: Option<ContractMigrationArtifactIdentityV1>,
    pub step: ContractMigrationJournalStepV1,
    pub exclusive_cursor: Option<EntityTargetV1>,
    pub checked_rows: u64,
    pub changed_rows: u64,
    pub batch_count: u64,
    pub frozen_application_frontier: Option<u64>,
    pub required_projection_ids: Vec<u32>,
    pub previous_journal_hash: Option<Vec<u8>>,
    pub journal_hash: Vec<u8>,
}

/// Message form of a permanent contract migration record.
#[derive(Debug, PartialEq, Eq)]
pub struct StoredContractMigrationRecordV1 {
    pub database_id: Vetted<Vec<u8>>,
    pub operation_id: Vetted<Vec<u8>>,
    pub semantic_input_hash: Vec<u8>,
    pub artifacts: Option<ContractMigrationArtifactIdentityV1>,
    pub operation_artifacts: Option<ContractMigrationOperationArtifactsV1>,
    pub source_backup_name: Vetted<String>,
    pub source_backup_manifest_checksum: Vetted<Vec<u8>>,
    pub principal: Option<AuditPrincipalV1>,
    pub approval_id: Option<Vetted<String>>,
    pub predecessor_application_frontier: Option<u64>,
    pub successor_application_frontier: Option<u64>,
    pub checked_rows: u64,
    pub changed_rows: u64,
    pub batch_count: u64,
    pub terminal_validation_digest: Vec<u8>,
    pub administration_sequence: u64,
}

/// Message form of the retirement of a predecessor's writes.
#[derive(Debug, PartialEq, Eq)]
pub struct StoredContractWriteRetirementV1 {
    pub artifacts: ContractMigrationArtifactIdentityV1,
    pub operation_id: Vetted<Vec<u8>>,
    pub administration_sequence: u64,
}

/// Message form of a retained predecessor entity.
#[derive(Debug, PartialEq, Eq)]
pub struct StoredRetiredEntityRecordV1 {
    pub operation_id: Vetted<Vec<u8>>,
    pub migration_bundle_hash: Vec<u8>,
    pub original_target: Option<EntityTargetV1>,
    pub original_entity_envelope: Vec<u8>,
}

/// Message form of a point of the changelog history.
#[derive(Debug, PartialEq, Eq)]
pub struct ChangelogPositionV3 {
    pub transaction_sequence: u64,
    pub history_hash: Vec<u8>,
    pub application_sequence: u64,
    pub administration_sequence: u64,
}

/// Message form of a changelog lineage.
#[derive(Debug, PartialEq, Eq)]
pub struct ChangelogLineageV3 {
    pub database_id: Vetted<Vec<u8>>,
    pub history_incarnation: u64,
    pub leadership_epoch: u64,
    pub catalog_digest: Vec<u8>,
    pub admitted: bool,
}

/// Message form of a source hold.
#[derive(Debug, PartialEq, Eq)]
pub struct StoredReplicationSourceHoldV1 {
    pub kind: i32,
    pub hold_id: Vetted<Vec<u8>>,
    pub lineage: ChangelogLineageV3,
    pub fence: Option<ChangelogPositionV3>,
}

/// Message form of a registered source hold, with the generation that the type of the
/// hold gives it, or none where that type refuses the hold.
#[derive(Debug, PartialEq, Eq)]
pub struct StoredReplicationSourceHoldV2 {
    pub hold: Option<StoredReplicationSourceHoldV1>,
    pub registered_at: Option<ChangelogPositionV3>,
    pub hold_budget_sequences: u64,
    pub expires_at_application_sequence: Option<u64>,
    pub phase: i32,
    pub degraded_at: Option<ChangelogPositionV3>,
    pub generation: Option<Id64>,
}

/// Message form of an authoritative state catalog by its digest.
#[derive(Debug, PartialEq, Eq)]
pub struct StoredAuthoritativeStateCatalogV1 {
    pub catalog_digest: Vec<u8>,
}

/// Message form of a leadership epoch.
#[derive(Debug, PartialEq, Eq)]
pub struct StoredLeadershipEpochV1 {
    pub epoch: u64,
}

/// Message form of the lineage-shared roots of the changelog history.
#[derive(Debug, PartialEq, Eq)]
pub struct StoredChangelogHistoryStateV3 {
    pub lineage: ChangelogLineageV3,
    pub anchor: Option<ChangelogPositionV3>,
    pub tail: Option<ChangelogPositionV3>,
    pub minimum_resume: Option<ChangelogPositionV3>,
    pub admitted: bool,
}

/// Message form of an attached follower's progress.
#[derive(Debug, PartialEq, Eq)]
pub struct AttachedFollowerV3 {
    pub lineage: ChangelogLineageV3,
    pub applied: Option<ChangelogPositionV3>,
    pub acknowledged: Option<ChangelogPositionV3>,
    pub admitted: bool,
}

/// Message form of a replication follower state.
#[derive(Debug, PartialEq, Eq)]
pub enum StoredReplicationFollowerStateV3State {
    Detached,
    Attached(AttachedFollowerV3),
}

/// Message form of a replication follower state.
#[derive(Debug, PartialEq, Eq)]
pub struct StoredReplicationFollowerStateV3 {
    pub state: Option<StoredReplicationFollowerStateV3State>,
}

/// Message form of a source hold as it was before a change.
#[derive(Debug, PartialEq, Eq)]
pub enum ReplicationHoldBeforeV1Before {
    Absent,
    Legacy(StoredReplicationSourceHoldV1),
    Registered(StoredReplicationSourceHoldV2),
}

/// Message form of a source hold as it was before a change.
#[derive(Debug, PartialEq, Eq)]
pub struct ReplicationHoldBeforeV1 {
    pub before: Option<ReplicationHoldBeforeV1Before>,
}

/// Message form of an explicit request for a change.
#[derive(Debug, PartialEq, Eq)]
pub struct ExplicitOriginV1 {
    pub request_id: Vetted<Vec<u8>>,
    pub principal: Option<AuditPrincipalV1>,
    pub approval_id: Option<Vetted<String>>,
}

/// Message form of a configured expiry.
#[derive(Debug, PartialEq, Eq)]
pub struct ConfiguredExpiryOriginV1 {
    pub registration_administration_sequence: u64,
}

/// Message form of the origin of a replication change.
#[derive(Debug, PartialEq, Eq)]
pub enum ReplicationAdministrationOriginV1Origin {
    Explicit(ExplicitOriginV1),
    ConfiguredExpiry(ConfiguredExpiryOriginV1),
}

/// Message form of the origin of a replication change.
#[derive(Debug, PartialEq, Eq)]
pub struct ReplicationAdministrationOriginV1 {
    pub origin: Option<ReplicationAdministrationOriginV1Origin>,
}

/// Message form of a replication administration record.
#[derive(Debug, PartialEq, Eq)]
pub struct StoredReplicationAdministrationV1 {
    pub administration_sequence: u64,
    pub timestamp: Option<TimestampV1>,
    pub action: i32,
    pub target: Option<ReplicationFollowerAuditTargetV3>,
    pub registration_generation: u64,
    pub observed: Option<ChangelogPositionV3>,
    pub before: ReplicationHoldBeforeV1,
    pub after: Option<StoredReplicationSourceHoldV2>,
    pub origin: ReplicationAdministrationOriginV1,
    pub admitted: bool,
}

/// Message form of a primary fence record.
#[derive(Debug, PartialEq, Eq)]
pub struct StoredPrimaryFenceAdministrationV1 {
    pub administration_sequence: u64,
    pub timestamp: Option<TimestampV1>,
    pub operation_id: Vetted<Vec<u8>>,
    pub request_id: Vetted<Vec<u8>>,
    pub principal: Option<AuditPrincipalV1>,
    pub approval_id: Option<Vetted<String>>,
    pub target: Option<ReplicationFollowerAuditTargetV3>,
    pub registration_generation: u64,
    pub observed: Option<ChangelogPositionV3>,
    pub admitted: bool,
}

/// Message form of an active primary's lineage.
#[derive(Debug, PartialEq, Eq)]
pub struct ActiveAdmissionV1 {
    pub database_id: Vetted<Vec<u8>>,
    pub history_incarnation: u64,
    pub leadership_epoch: u64,
    pub admitted: bool,
}

/// Message form of a primary's admission state.
#[derive(Debug, PartialEq, Eq)]
pub enum ReplicationPrimaryAdmissionV1State {
    Active(ActiveAdmissionV1),
    Fenced(StoredPrimaryFenceAdministrationV1),
}

/// Message form of a primary's admission state.
#[derive(Debug, PartialEq, Eq)]
pub struct ReplicationPrimaryAdmissionV1 {
    pub state: Option<ReplicationPrimaryAdmissionV1State>,
}

/// Message form of a promotion administration record.
#[derive(Debug, PartialEq, Eq)]
pub struct StoredPromotionAdministrationV1 {
    pub administration_sequence: u64,
    pub timestamp: Option<TimestampV1>,
    pub promotion_operation_id: Vetted<Vec<u8>>,
    pub request_id: Vetted<Vec<u8>>,
    pub principal: Option<AuditPrincipalV1>,
    pub approval_id: Option<Vetted<String>>,
    pub attempted_at: Option<TimestampV1>,
    pub fence: Option<StoredPrimaryFenceAdministrationV1>,
    pub applied: Option<ChangelogPositionV3>,
    pub source_history: Option<StoredChangelogHistoryStateV3>,
    pub published_incarnation: u64,
    pub published_epoch: u64,
    pub application_rpo: u64,
    pub attempt_steps: Vec<i32>,
    pub ingress: Vetted<i32>,
    pub admitted: bool,
}

/// Message form of the audited invocation of a command.
#[derive(Debug, PartialEq, Eq)]
pub struct StoredCommandAuditInvocationV1 {
    pub request_id: Vetted<Vec<u8>>,
    pub operation: Vetted<i32>,
    pub principal: Option<AuditPrincipalV1>,
    pub ingress: Vetted<i32>,
    pub targets: Vec<ServiceAuditTargetV1>,
    pub rebuilt: Result<Vec<audit::ServiceAuditTargetV1>, StorageValueError>,
    pub approval_id: Option<Vetted<String>>,
    pub started_administration_sequence: u64,
    pub started_at: Option<TimestampV1>,
    pub terminal_administration_sequence: u64,
    pub terminal_at: Option<TimestampV1>,
}

/// Message form of a successful command apart from its audit.
#[derive(Debug, PartialEq, Eq)]
pub struct CommandCapsuleHeadV1 {
    pub identity: Option<IdempotencyIdentityV1>,
    pub parts: CommitPartsV1,
    pub admitted_claims: Option<StoredAdmittedProvenanceClaimsV1>,
    pub partition_key: Vetted<Vec<u8>>,
    pub causation: Option<StoredCommandCausationV1>,
    pub entity_references: Vec<CommittedEntityReferenceV2>,
    pub event_references: Vec<EventReferenceV2>,
}

/// Message form of a command's audit member.
#[derive(Clone, Copy, Debug, PartialEq, Eq, Structural)]
pub enum StoredCommandAuditMemberV1 {
    /// No value was given.
    Unspecified,
    Started,
    Terminal,
    /// A value that is not known here.
    Unrecognized,
}

/// Message form of a locator of a successful command.
#[derive(Debug, PartialEq, Eq)]
pub struct StoredCommandLocatorV1 {
    pub commit_sequence: u64,
}

/// Message form of a locator of a command's audit record.
#[derive(Debug, PartialEq, Eq)]
pub struct StoredCommandAuditLocatorV1 {
    pub commit_sequence: u64,
    pub member: StoredCommandAuditMemberV1,
}

/// Message form of an entry of a derived index.
#[derive(Debug, PartialEq, Eq)]
pub struct CommandDerivedIndexManifestEntryV1 {
    pub kind: i32,
    pub member: i32,
    pub exact_key: Vec<u8>,
    pub command_ordinal: u32,
    pub member_ordinal: u32,
    pub segment_first_commit_sequence: u64,
}

/// Message form of an advance of an index epoch.
#[derive(Debug, PartialEq, Eq)]
pub struct StoredIndexGenerationTransitionV1 {
    pub post_image: Option<StoredIndexGenerationV2>,
    pub prior_generation: Option<u64>,
}

/// Message form of a replaceable checkpoint of the derived indexes.
#[derive(Debug, PartialEq, Eq)]
pub struct StoredCommandDerivedIndexCheckpointV1 {
    pub database_id: Vetted<Vec<u8>>,
    pub history_incarnation: u64,
    pub registry_digest: Vec<u8>,
    pub segment_frontier: u64,
    pub segment_root_digest: Vec<u8>,
    pub entries: Vec<CommandDerivedIndexManifestEntryV1>,
    pub checkpoint_digest: Vec<u8>,
}

/// Message form of an event and the policy that anchors it.
#[derive(Debug, PartialEq, Eq)]
pub struct StoredDurableEventVariantV1 {
    pub event: Option<StoredDurableEventV1>,
    pub policy_anchor: Option<Vec<u8>>,
}

/// Message form of an index range prefix.
#[derive(Debug, PartialEq, Eq)]
pub struct IndexRangePrefixV1 {
    pub bytes: Vetted<Vec<u8>>,
}

/// Current form of a commit record: references to entities and events.
#[derive(Debug, PartialEq, Eq)]
pub struct StoredCommitRecordV3 {
    pub parts: CommitPartsV1,
    pub entity_references: Vec<CommittedEntityReferenceV2>,
    pub event_references: Vec<EventReferenceV2>,
}

/// Second form of a commit record: embedded mutations, referenced events.
#[derive(Debug, PartialEq, Eq)]
pub struct StoredCommitRecordV2 {
    pub parts: CommitPartsV1,
    pub mutations: Vec<CommittedEntityMutationV1>,
    pub event_references: Vec<EventReferenceV2>,
}

/// First form of a commit record: embedded mutations and events.
#[derive(Debug, PartialEq, Eq)]
pub struct StoredCommitRecordV1 {
    pub parts: CommitPartsV1,
    pub mutations: Vec<CommittedEntityMutationV1>,
    pub events: Vec<StoredDurableEventV1>,
}

/// Message form of a capability permission: a kind, where it is known, and the
/// fields of its parameter.
#[derive(Debug, PartialEq, Eq)]
pub struct CapabilityPermissionV1 {
    pub kind: Option<CapabilityPermissionKindV1>,
    pub contract_lineage: Option<Vetted<String>>,
    pub stable_id: Option<u32>,
    pub query_module_hash: Option<Vec<u8>>,
    pub query_name: Option<Vetted<String>>,
    pub application_role_hash: Option<Vec<u8>>,
    pub reactive_module_hash: Option<Vec<u8>>,
    pub reactive_operation_name: Option<Vetted<String>>,
}

/// Message form of the kind of an entity chain state.
#[derive(Clone, Copy, Debug, PartialEq, Eq, Structural)]
pub enum EntityChainStateKindV1 {
    /// No value was given.
    Unspecified,
    NeverExisted,
    Live,
    Deleted,
    /// A value that is not known here.
    Unrecognized,
}

/// Message form of an entity chain state.
#[derive(Debug, PartialEq, Eq)]
pub struct StoredEntityChainStateV1 {
    pub kind: EntityChainStateKindV1,
    pub entity_version: Option<u64>,
    pub value_hash: Vec<u8>,
}

/// Current form of an outbox intent: a reference to its event.
#[derive(Debug, PartialEq, Eq)]
pub struct StoredOutboxIntentV2 {
    pub event_reference: Option<EventReferenceV2>,
}

/// First form of an outbox intent: the embedded event.
#[derive(Debug, PartialEq, Eq)]
pub struct StoredOutboxIntentV1 {
    pub event: Option<StoredDurableEventV1>,
}

/// Message form of retry metadata.
#[derive(Debug, PartialEq, Eq)]
pub struct OutboxRetryMetadataV1 {
    pub attempts: u32,
    pub last_attempt_at: Option<TimestampV1>,
    pub next_attempt_at: Option<TimestampV1>,
    pub destination_id: String,
    pub last_safe_error: Option<String>,
}

/// Message form of an attempt in flight.
#[derive(Debug, PartialEq, Eq)]
pub struct OutboxDeliveringV1 {
    pub attempt: u32,
    pub destination_id: String,
    pub started_at: Option<TimestampV1>,
    pub lease_deadline: Option<TimestampV1>,
}

/// Message form of a completed delivery.
#[derive(Debug, PartialEq, Eq)]
pub struct OutboxDeliveredV1 {
    pub attempts: u32,
    pub destination_id: String,
    pub delivered_at: Option<TimestampV1>,
}

/// Message form of a terminal delivery failure.
#[derive(Debug, PartialEq, Eq)]
pub struct OutboxDeadLetterV1 {
    pub attempts: u32,
    pub destination_id: String,
    pub failed_at: Option<TimestampV1>,
    pub last_safe_error: Option<String>,
}

/// The alternatives of an outbox delivery state.
#[derive(Debug, PartialEq, Eq)]
pub enum StoredOutboxStatusV1State {
    Pending(OutboxRetryMetadataV1),
    Delivering(OutboxDeliveringV1),
    Delivered(OutboxDeliveredV1),
    DeadLetter(OutboxDeadLetterV1),
}

/// Message form of an outbox status row.
#[derive(Debug, PartialEq, Eq)]
pub struct StoredOutboxStatusV1 {
    pub event_id: Option<EventIdV1>,
    pub state: Option<StoredOutboxStatusV1State>,
}

/// Message form of a projection identity.
#[derive(Debug, PartialEq, Eq)]
pub struct ProjectionIdentityV1 {
    pub contract_lineage: Vetted<String>,
    pub projection_id: u32,
    pub projection_plan_hash: Vec<u8>,
}

/// The alternatives of a frontier position.
#[derive(Clone, Copy, Debug, PartialEq, Eq, Structural)]
pub enum FrontierPositionV1Position {
    BeforeFirst,
    AppliedThrough(u64),
}

/// Message form of a frontier position.
#[derive(Clone, Copy, Debug, PartialEq, Eq)]
pub struct FrontierPositionV1 {
    pub position: Option<FrontierPositionV1Position>,
}

/// Message form of a retained generation position.
#[derive(Clone, Copy, Debug, PartialEq, Eq)]
pub struct ProjectionGenerationPositionV1 {
    pub generation: u64,
    pub frontier: Option<FrontierPositionV1>,
}

/// Message form of a projection failure.
#[derive(Clone, Copy, Debug, PartialEq, Eq)]
pub struct ProjectionFailureV1 {
    pub generation: u64,
    pub code: i32,
    pub at_sequence: Option<u64>,
}

/// Message form of a canonical value: its bytes, and what they decode to.
#[derive(Debug, PartialEq, Eq)]
pub struct CanonicalValueV1 {
    pub bytes: Vec<u8>,
    pub decoded: Option<CanonicalValue>,
}

/// Message form of a projection row.
#[derive(Debug, PartialEq, Eq)]
pub struct StoredProjectionStateV1 {
    pub identity: Option<ProjectionIdentityV1>,
    pub generation: u64,
    pub canonical_group_values: Vec<CanonicalValueV1>,
    pub canonical_measures: CanonicalDocument,
    pub last_changed_sequence: u64,
}

/// Message form of a projection apply marker.
#[derive(Debug, PartialEq, Eq)]
pub struct StoredProjectionApplyV1 {
    pub identity: Option<ProjectionIdentityV1>,
    pub generation: u64,
    pub commit_sequence: u64,
    pub projection_apply_hash: Vec<u8>,
}

/// Message form of a projection control record.
#[derive(Debug, PartialEq, Eq)]
pub struct StoredProjectionControlV1 {
    pub identity: Option<ProjectionIdentityV1>,
    pub highest_allocated_generation: u64,
    pub published: Option<ProjectionGenerationPositionV1>,
    pub candidate: Option<ProjectionGenerationPositionV1>,
    pub published_apply_mode: Option<i32>,
    pub lifecycle: i32,
    pub failure: Option<ProjectionFailureV1>,
}

/// Message form of a history incarnation.
#[derive(Clone, Copy, Debug, PartialEq, Eq, Structural)]
pub struct StoredHistoryIncarnationV1 {
    pub incarnation: u64,
}

/// Message form of a successful-command capsule.
#[derive(Debug, PartialEq, Eq)]
pub struct StoredCommandCapsuleV1 {
    pub head: CommandCapsuleHeadV1,
    pub audit: Option<StoredCommandAuditInvocationV1>,
}

/// Second form of a command capsule: with its events and index advances.
#[derive(Debug, PartialEq, Eq)]
pub struct StoredCommandCapsuleV2 {
    pub base: Option<StoredCommandCapsuleV1>,
    pub events: Vec<StoredDurableEventV1>,
    pub index_generation_transitions: Vec<StoredIndexGenerationTransitionV1>,
}

/// Third form of a command capsule: with its service values.
#[derive(Debug, PartialEq, Eq)]
pub struct StoredCommandCapsuleV3 {
    pub base: Option<StoredCommandCapsuleV2>,
    pub canonical_service_values: CanonicalDocument,
}

/// Fourth form of a command capsule: with its entity transitions.
#[derive(Debug, PartialEq, Eq)]
pub struct StoredCommandCapsuleV4 {
    pub base: Option<StoredCommandCapsuleV3>,
    pub entity_transitions: Vec<StoredCommittedEntityTransitionV1>,
}

/// Fifth form of a command capsule: events with their policy anchors.
#[derive(Debug, PartialEq, Eq)]
pub struct StoredCommandCapsuleV5 {
    pub base: Option<StoredCommandCapsuleV1>,
    pub events: Vec<StoredDurableEventVariantV1>,
    pub index_generation_transitions: Vec<StoredIndexGenerationTransitionV1>,
    pub canonical_service_values: CanonicalDocument,
    pub entity_transitions: Vec<StoredCommittedEntityTransitionV1>,
}

/// Sixth form of a command capsule: the fifth with more index advances.
#[derive(Debug, PartialEq, Eq)]
pub struct StoredCommandCapsuleV6 {
    pub base: Option<StoredCommandCapsuleV1>,
    pub events: Vec<StoredDurableEventVariantV1>,
    pub index_generation_transitions: Vec<StoredIndexGenerationTransitionV1>,
    pub canonical_service_values: CanonicalDocument,
    pub entity_transitions: Vec<StoredCommittedEntityTransitionV1>,
}

/// Message form of a segment manifest.
#[derive(Debug, PartialEq, Eq)]
pub struct CommandSegmentManifestV1 {
    pub entries: Vec<CommandDerivedIndexManifestEntryV1>,
    pub digest: Vec<u8>,
}

/// What every form of a segment body holds beside its commands.
#[derive(Debug, PartialEq, Eq)]
pub struct CommandSegmentFrameV1 {
    pub database_id: Vetted<Vec<u8>>,
    pub history_incarnation: u64,
    pub predecessor_segment_hash: Vec<u8>,
    pub first_commit_sequence: u64,
    pub last_commit_sequence: u64,
    pub first_administration_sequence: u64,
    pub last_administration_sequence: u64,
    pub manifest: Option<CommandSegmentManifestV1>,
}

/// Message form of a segment body with commands of one form.
#[derive(Debug, PartialEq, Eq)]
pub struct CommandSegmentBody<C> {
    pub frame: CommandSegmentFrameV1,
    pub commands: Vec<C>,
}

/// Message form of a command segment with commands of one form.
#[derive(Debug, PartialEq, Eq)]
pub struct CommandSegment<C> {
    pub body: Option<CommandSegmentBody<C>>,
    pub segment_digest: Vec<u8>,
}

} // verus!
