//! Application records.

use vstd::prelude::*;

use crate::bytes::copy_bytes;
use crate::codec::parts::{copy_digests, Identifier};
use crate::ids::{CommitSequence, Digest, EventId, Id32, Id64, Timestamp};
use crate::keys::{CanonicalRecord, CanonicalRecordView};
use crate::plan::{ExecutablePlanRef, ExecutablePlanView};
use crate::records::{
    DurableEventView, DurableKeySchemaBindingV1, EntityRecordView, EntityTarget, EntityTargetView,
    SchemaBindingView, StoredDurableEventV1, StoredEntityRecordV1,
};
use crate::stored::common::{
    copy_event_id_list, AdmittedActorContext, AdmittedActorContextView, DeclaredOutcome,
    DeclaredOutcomeView, ExpectedEntityState, IdempotencyIdentity, IdempotencyIdentityView,
    IndexEpochPosition, IndexRangePrefixView, ProvenanceClaimsView,
    StoredAdmittedProvenanceClaimsV1, StructurallyDecodedIndexRangePrefixV1,
};
use crate::stored::segment::affected_entities;
use crate::value_error::StorageValueError;

verus! {

/// How durably a commit was made.
#[derive(Clone, Copy, Debug, PartialEq, Eq, Structural)]
pub enum DurabilityMode {
    Sync,
    Group,
    Memory,
}

/// Why an execution failed.
#[derive(Clone, Copy, Debug, PartialEq, Eq, Structural)]
pub enum ExecutionFailureCode {
    ArithmeticFault,
    ResourceLimit,
    UniqueConflict,
}

/// A reference to an event by identity and hash.
#[derive(Clone, Copy, Debug, PartialEq, Eq)]
pub struct EventReferenceV2 {
    pub event_id: EventId,
    pub event_hash: Digest,
}

/// What a legacy index entry is.
#[verifier::ext_equal]
pub ghost struct LegacyIndexEntryView {
    pub key: Seq<u8>,
    pub schema_binding: SchemaBindingView,
    pub covered_values: CanonicalRecordView,
}

/// A legacy index entry.
#[derive(Debug, PartialEq, Eq)]
pub struct StoredIndexEntryV1 {
    pub key: Vec<u8>,
    pub schema_binding: DurableKeySchemaBindingV1,
    pub covered_values: CanonicalRecord,
}

impl View for StoredIndexEntryV1 {
    type V = LegacyIndexEntryView;

    open spec fn view(&self) -> LegacyIndexEntryView {
        LegacyIndexEntryView {
            key: self.key@,
            schema_binding: self.schema_binding@,
            covered_values: self.covered_values@,
        }
    }
}

impl Clone for StoredIndexEntryV1 {
    fn clone(&self) -> (result: StoredIndexEntryV1)
        ensures
            result@ == self@,
    {
        StoredIndexEntryV1 {
            key: copy_bytes(&self.key),
            schema_binding: self.schema_binding.clone(),
            covered_values: self.covered_values.clone(),
        }
    }
}

/// What the epoch of one partitioned index is.
#[verifier::ext_equal]
pub ghost struct IndexEpochView {
    pub partition_key: Seq<u8>,
    pub index_id: Id32,
    pub schema_binding: SchemaBindingView,
    pub epoch: Id64,
}

/// The epoch of one partitioned index.
#[derive(Debug, PartialEq, Eq)]
pub struct StoredIndexEpochV1 {
    pub partition_key: Vec<u8>,
    pub index_id: Id32,
    pub schema_binding: DurableKeySchemaBindingV1,
    pub epoch: Id64,
}

impl View for StoredIndexEpochV1 {
    type V = IndexEpochView;

    open spec fn view(&self) -> IndexEpochView {
        IndexEpochView {
            partition_key: self.partition_key@,
            index_id: self.index_id,
            schema_binding: self.schema_binding@,
            epoch: self.epoch,
        }
    }
}

impl Clone for StoredIndexEpochV1 {
    fn clone(&self) -> (result: StoredIndexEpochV1)
        ensures
            result@ == self@,
    {
        StoredIndexEpochV1 {
            partition_key: copy_bytes(&self.partition_key),
            index_id: self.index_id,
            schema_binding: self.schema_binding.clone(),
            epoch: self.epoch,
        }
    }
}

/// What the epoch of one historical index range prefix is.
#[verifier::ext_equal]
pub ghost struct LegacyIndexEpochView {
    pub target: IndexRangePrefixView,
    pub schema_binding: SchemaBindingView,
    pub epoch: Id64,
}

/// The epoch of one historical index range prefix.
#[derive(Debug, PartialEq, Eq)]
pub struct LegacyStoredIndexEpochV1 {
    pub target: StructurallyDecodedIndexRangePrefixV1,
    pub schema_binding: DurableKeySchemaBindingV1,
    pub epoch: Id64,
}

impl View for LegacyStoredIndexEpochV1 {
    type V = LegacyIndexEpochView;

    open spec fn view(&self) -> LegacyIndexEpochView {
        LegacyIndexEpochView {
            target: self.target@,
            schema_binding: self.schema_binding@,
            epoch: self.epoch,
        }
    }
}

impl Clone for LegacyStoredIndexEpochV1 {
    fn clone(&self) -> (result: LegacyStoredIndexEpochV1)
        ensures
            result@ == self@,
    {
        LegacyStoredIndexEpochV1 {
            target: self.target.clone(),
            schema_binding: self.schema_binding.clone(),
            epoch: self.epoch,
        }
    }
}

/// What caused a command.
#[derive(Clone, Copy, Debug, PartialEq, Eq)]
pub struct StoredCommandCausationV1 {
    pub causing_event_id: EventId,
    pub root_request_id: Identifier,
}

/// What a pending admission apart from its causation is.
#[verifier::ext_equal]
pub ghost struct PendingAdmissionBaseView {
    pub identity: IdempotencyIdentityView,
    pub canonical_input_hash: Digest,
    pub admission_request_id: Identifier,
    pub plan: ExecutablePlanView,
    pub logical_time: Timestamp,
    pub actor: AdmittedActorContextView,
    pub partition_key: Seq<u8>,
    pub provenance_claims: ProvenanceClaimsView,
}

/// A pending admission apart from its causation.
#[derive(Debug, PartialEq, Eq)]
pub struct PendingAdmissionBase {
    pub identity: IdempotencyIdentity,
    pub canonical_input_hash: Digest,
    pub admission_request_id: Identifier,
    pub plan: ExecutablePlanRef,
    pub logical_time: Timestamp,
    pub actor: AdmittedActorContext,
    pub partition_key: Vec<u8>,
    pub provenance_claims: StoredAdmittedProvenanceClaimsV1,
}

impl View for PendingAdmissionBase {
    type V = PendingAdmissionBaseView;

    open spec fn view(&self) -> PendingAdmissionBaseView {
        PendingAdmissionBaseView {
            identity: self.identity@,
            canonical_input_hash: self.canonical_input_hash,
            admission_request_id: self.admission_request_id,
            plan: self.plan@,
            logical_time: self.logical_time,
            actor: self.actor@,
            partition_key: self.partition_key@,
            provenance_claims: self.provenance_claims@,
        }
    }
}

impl Clone for PendingAdmissionBase {
    fn clone(&self) -> (result: PendingAdmissionBase)
        ensures
            result@ == self@,
    {
        PendingAdmissionBase {
            identity: self.identity.clone(),
            canonical_input_hash: self.canonical_input_hash,
            admission_request_id: self.admission_request_id,
            plan: self.plan.clone(),
            logical_time: self.logical_time,
            actor: self.actor.clone(),
            partition_key: copy_bytes(&self.partition_key),
            provenance_claims: self.provenance_claims.clone(),
        }
    }
}

/// What a pending command admission is.
#[verifier::ext_equal]
pub ghost struct PendingAdmissionView {
    pub base: PendingAdmissionBaseView,
    pub causation: Option<StoredCommandCausationV1>,
}

/// A pending command admission.
#[derive(Debug, PartialEq, Eq)]
pub struct StoredPendingAdmissionV1 {
    pub base: PendingAdmissionBase,
    pub causation: Option<StoredCommandCausationV1>,
}

impl View for StoredPendingAdmissionV1 {
    type V = PendingAdmissionView;

    open spec fn view(&self) -> PendingAdmissionView {
        PendingAdmissionView {
            base: self.base@,
            causation: self.causation,
        }
    }
}

impl Clone for StoredPendingAdmissionV1 {
    fn clone(&self) -> (result: StoredPendingAdmissionV1)
        ensures
            result@ == self@,
    {
        StoredPendingAdmissionV1 {
            base: self.base.clone(),
            causation: self.causation,
        }
    }
}

/// What a terminal deterministic execution failure is.
#[verifier::ext_equal]
pub ghost struct ExecutionFailedView {
    pub pending: PendingAdmissionView,
    pub code: ExecutionFailureCode,
}

/// A terminal deterministic execution failure.
#[derive(Debug, PartialEq, Eq)]
pub struct StoredExecutionFailedV1 {
    pub pending: StoredPendingAdmissionV1,
    pub code: ExecutionFailureCode,
}

impl View for StoredExecutionFailedV1 {
    type V = ExecutionFailedView;

    open spec fn view(&self) -> ExecutionFailedView {
        ExecutionFailedView {
            pending: self.pending@,
            code: self.code,
        }
    }
}

impl Clone for StoredExecutionFailedV1 {
    fn clone(&self) -> (result: StoredExecutionFailedV1)
        ensures
            result@ == self@,
    {
        StoredExecutionFailedV1 {
            pending: self.pending.clone(),
            code: self.code,
        }
    }
}

/// What a terminal execution failure apart from its causation is.
#[verifier::ext_equal]
pub ghost struct ExecutionFailedBaseView {
    pub pending: PendingAdmissionBaseView,
    pub code: ExecutionFailureCode,
}

/// A terminal execution failure apart from its causation.
#[derive(Debug, PartialEq, Eq)]
pub struct ExecutionFailedBase {
    pub pending: PendingAdmissionBase,
    pub code: ExecutionFailureCode,
}

impl View for ExecutionFailedBase {
    type V = ExecutionFailedBaseView;

    open spec fn view(&self) -> ExecutionFailedBaseView {
        ExecutionFailedBaseView {
            pending: self.pending@,
            code: self.code,
        }
    }
}

impl Clone for ExecutionFailedBase {
    fn clone(&self) -> (result: ExecutionFailedBase)
        ensures
            result@ == self@,
    {
        ExecutionFailedBase {
            pending: self.pending.clone(),
            code: self.code,
        }
    }
}

/// A payload-free partition event route.
#[derive(Clone, Copy, Debug, PartialEq, Eq)]
pub struct StoredEventRouteV1 {
    pub event_id: EventId,
    pub event_type_id: Id32,
    pub event_hash: Digest,
}

/// What a dependency on one observed entity is.
#[verifier::ext_equal]
pub ghost struct EntityReadDependencyView {
    pub target: EntityTargetView,
    pub expected: ExpectedEntityState,
}

/// A dependency on one observed entity.
#[derive(Debug, PartialEq, Eq)]
pub struct EntityReadDependency {
    pub target: EntityTarget,
    pub expected: ExpectedEntityState,
}

impl View for EntityReadDependency {
    type V = EntityReadDependencyView;

    open spec fn view(&self) -> EntityReadDependencyView {
        EntityReadDependencyView {
            target: self.target@,
            expected: self.expected,
        }
    }
}

impl Clone for EntityReadDependency {
    fn clone(&self) -> (result: EntityReadDependency)
        ensures
            result@ == self@,
    {
        EntityReadDependency {
            target: self.target.clone(),
            expected: self.expected,
        }
    }
}

/// What a dependency on one index range epoch is.
#[verifier::ext_equal]
pub ghost struct IndexRangeReadDependencyView {
    pub target: IndexRangePrefixView,
    pub expected: IndexEpochPosition,
}

/// A dependency on one index range epoch.
#[derive(Debug, PartialEq, Eq)]
pub struct IndexRangeReadDependency {
    pub target: StructurallyDecodedIndexRangePrefixV1,
    pub expected: IndexEpochPosition,
}

impl View for IndexRangeReadDependency {
    type V = IndexRangeReadDependencyView;

    open spec fn view(&self) -> IndexRangeReadDependencyView {
        IndexRangeReadDependencyView {
            target: self.target@,
            expected: self.expected,
        }
    }
}

impl Clone for IndexRangeReadDependency {
    fn clone(&self) -> (result: IndexRangeReadDependency)
        ensures
            result@ == self@,
    {
        IndexRangeReadDependency {
            target: self.target.clone(),
            expected: self.expected,
        }
    }
}

/// What a read dependency of a commit is.
pub ghost enum ReadDependencyView {
    EntityObservation(EntityReadDependencyView),
    IndexRangeEpoch(IndexRangeReadDependencyView),
}

/// A read dependency of a commit.
#[derive(Debug, PartialEq, Eq)]
pub enum StoredReadDependencyV1 {
    EntityObservation(EntityReadDependency),
    IndexRangeEpoch(IndexRangeReadDependency),
}

impl View for StoredReadDependencyV1 {
    type V = ReadDependencyView;

    open spec fn view(&self) -> ReadDependencyView {
        match self {
            StoredReadDependencyV1::EntityObservation(part) =>
                ReadDependencyView::EntityObservation(part@),
            StoredReadDependencyV1::IndexRangeEpoch(part) =>
                ReadDependencyView::IndexRangeEpoch(part@),
        }
    }
}

impl Clone for StoredReadDependencyV1 {
    fn clone(&self) -> (result: StoredReadDependencyV1)
        ensures
            result@ == self@,
    {
        match self {
            StoredReadDependencyV1::EntityObservation(part) =>
                StoredReadDependencyV1::EntityObservation(part.clone()),
            StoredReadDependencyV1::IndexRangeEpoch(part) =>
                StoredReadDependencyV1::IndexRangeEpoch(part.clone()),
        }
    }
}

/// What the read dependencies of a commit in canonical order is.
#[verifier::ext_equal]
pub ghost struct ReadDependenciesView {
    pub dependencies: Seq<ReadDependencyView>,
}

/// The read dependencies of a commit in canonical order.
#[derive(Debug, PartialEq, Eq)]
pub struct StoredReadDependenciesV1 {
    pub dependencies: Vec<StoredReadDependencyV1>,
}

impl View for StoredReadDependenciesV1 {
    type V = ReadDependenciesView;

    open spec fn view(&self) -> ReadDependenciesView {
        ReadDependenciesView {
            dependencies: dependency_views(self.dependencies@),
        }
    }
}

impl Clone for StoredReadDependenciesV1 {
    fn clone(&self) -> (result: StoredReadDependenciesV1)
        ensures
            result@ == self@,
    {
        StoredReadDependenciesV1 {
            dependencies: copy_dependency_list(&self.dependencies),
        }
    }
}

/// What a terminal outcome apart from its causation is.
#[verifier::ext_equal]
pub ghost struct OutcomeBaseView {
    pub identity: IdempotencyIdentityView,
    pub commit_sequence: CommitSequence,
    pub admission_request_id: Identifier,
    pub plan: ExecutablePlanView,
    pub canonical_input_hash: Digest,
    pub actor: AdmittedActorContextView,
    pub logical_time: Timestamp,
    pub partition_hash: Digest,
    pub conflict_hashes: Seq<Digest>,
    pub declared_outcome: DeclaredOutcomeView,
    pub admitted_claims: ProvenanceClaimsView,
    pub provenance_id: Identifier,
    pub durability_mode: DurabilityMode,
    pub partition_key: Seq<u8>,
}

/// A terminal outcome apart from its causation.
#[derive(Debug, PartialEq, Eq)]
pub struct OutcomeBase {
    pub identity: IdempotencyIdentity,
    pub commit_sequence: CommitSequence,
    pub admission_request_id: Identifier,
    pub plan: ExecutablePlanRef,
    pub canonical_input_hash: Digest,
    pub actor: AdmittedActorContext,
    pub logical_time: Timestamp,
    pub partition_hash: Digest,
    pub conflict_hashes: Vec<Digest>,
    pub declared_outcome: DeclaredOutcome,
    pub admitted_claims: StoredAdmittedProvenanceClaimsV1,
    pub provenance_id: Identifier,
    pub durability_mode: DurabilityMode,
    pub partition_key: Vec<u8>,
}

impl View for OutcomeBase {
    type V = OutcomeBaseView;

    open spec fn view(&self) -> OutcomeBaseView {
        OutcomeBaseView {
            identity: self.identity@,
            commit_sequence: self.commit_sequence,
            admission_request_id: self.admission_request_id,
            plan: self.plan@,
            canonical_input_hash: self.canonical_input_hash,
            actor: self.actor@,
            logical_time: self.logical_time,
            partition_hash: self.partition_hash,
            conflict_hashes: self.conflict_hashes@,
            declared_outcome: self.declared_outcome@,
            admitted_claims: self.admitted_claims@,
            provenance_id: self.provenance_id,
            durability_mode: self.durability_mode,
            partition_key: self.partition_key@,
        }
    }
}

impl Clone for OutcomeBase {
    fn clone(&self) -> (result: OutcomeBase)
        ensures
            result@ == self@,
    {
        OutcomeBase {
            identity: self.identity.clone(),
            commit_sequence: self.commit_sequence,
            admission_request_id: self.admission_request_id,
            plan: self.plan.clone(),
            canonical_input_hash: self.canonical_input_hash,
            actor: self.actor.clone(),
            logical_time: self.logical_time,
            partition_hash: self.partition_hash,
            conflict_hashes: copy_digests(&self.conflict_hashes),
            declared_outcome: self.declared_outcome.clone(),
            admitted_claims: self.admitted_claims.clone(),
            provenance_id: self.provenance_id,
            durability_mode: self.durability_mode,
            partition_key: copy_bytes(&self.partition_key),
        }
    }
}

/// What a complete terminal idempotency outcome is.
#[verifier::ext_equal]
pub ghost struct StoredOutcomeView {
    pub base: OutcomeBaseView,
    pub causation: Option<StoredCommandCausationV1>,
}

/// A complete terminal idempotency outcome.
#[derive(Debug, PartialEq, Eq)]
pub struct StoredOutcomeV1 {
    pub base: OutcomeBase,
    pub causation: Option<StoredCommandCausationV1>,
}

impl View for StoredOutcomeV1 {
    type V = StoredOutcomeView;

    open spec fn view(&self) -> StoredOutcomeView {
        StoredOutcomeView {
            base: self.base@,
            causation: self.causation,
        }
    }
}

impl Clone for StoredOutcomeV1 {
    fn clone(&self) -> (result: StoredOutcomeV1)
        ensures
            result@ == self@,
    {
        StoredOutcomeV1 {
            base: self.base.clone(),
            causation: self.causation,
        }
    }
}

/// What an entity that a command affected is.
#[verifier::ext_equal]
pub ghost struct AffectedEntityView {
    pub target: EntityTargetView,
    pub entity_version: Id64,
}

/// An entity that a command affected.
#[derive(Debug, PartialEq, Eq)]
pub struct AffectedEntityV1 {
    pub target: EntityTarget,
    pub entity_version: Id64,
}

impl View for AffectedEntityV1 {
    type V = AffectedEntityView;

    open spec fn view(&self) -> AffectedEntityView {
        AffectedEntityView {
            target: self.target@,
            entity_version: self.entity_version,
        }
    }
}

impl Clone for AffectedEntityV1 {
    fn clone(&self) -> (result: AffectedEntityV1)
        ensures
            result@ == self@,
    {
        AffectedEntityV1 {
            target: self.target.clone(),
            entity_version: self.entity_version,
        }
    }
}

/// What a provenance record apart from its causation is.
#[verifier::ext_equal]
pub ghost struct ProvenanceBaseView {
    pub provenance_id: Identifier,
    pub commit_sequence: CommitSequence,
    pub identity: IdempotencyIdentityView,
    pub admission_request_id: Identifier,
    pub plan: ExecutablePlanView,
    pub canonical_input_hash: Digest,
    pub actor: AdmittedActorContextView,
    pub logical_time: Timestamp,
    pub partition_hash: Digest,
    pub conflict_hashes: Seq<Digest>,
    pub outcome_id: Id32,
    pub affected_entities: Seq<AffectedEntityView>,
    pub event_ids: Seq<EventId>,
    pub admitted_claims: ProvenanceClaimsView,
}

/// A provenance record apart from its causation.
#[derive(Debug, PartialEq, Eq)]
pub struct ProvenanceBase {
    pub provenance_id: Identifier,
    pub commit_sequence: CommitSequence,
    pub identity: IdempotencyIdentity,
    pub admission_request_id: Identifier,
    pub plan: ExecutablePlanRef,
    pub canonical_input_hash: Digest,
    pub actor: AdmittedActorContext,
    pub logical_time: Timestamp,
    pub partition_hash: Digest,
    pub conflict_hashes: Vec<Digest>,
    pub outcome_id: Id32,
    pub affected_entities: Vec<AffectedEntityV1>,
    pub event_ids: Vec<EventId>,
    pub admitted_claims: StoredAdmittedProvenanceClaimsV1,
}

impl View for ProvenanceBase {
    type V = ProvenanceBaseView;

    open spec fn view(&self) -> ProvenanceBaseView {
        ProvenanceBaseView {
            provenance_id: self.provenance_id,
            commit_sequence: self.commit_sequence,
            identity: self.identity@,
            admission_request_id: self.admission_request_id,
            plan: self.plan@,
            canonical_input_hash: self.canonical_input_hash,
            actor: self.actor@,
            logical_time: self.logical_time,
            partition_hash: self.partition_hash,
            conflict_hashes: self.conflict_hashes@,
            outcome_id: self.outcome_id,
            affected_entities: affected_views(self.affected_entities@),
            event_ids: self.event_ids@,
            admitted_claims: self.admitted_claims@,
        }
    }
}

impl Clone for ProvenanceBase {
    fn clone(&self) -> (result: ProvenanceBase)
        ensures
            result@ == self@,
    {
        ProvenanceBase {
            provenance_id: self.provenance_id,
            commit_sequence: self.commit_sequence,
            identity: self.identity.clone(),
            admission_request_id: self.admission_request_id,
            plan: self.plan.clone(),
            canonical_input_hash: self.canonical_input_hash,
            actor: self.actor.clone(),
            logical_time: self.logical_time,
            partition_hash: self.partition_hash,
            conflict_hashes: copy_digests(&self.conflict_hashes),
            outcome_id: self.outcome_id,
            affected_entities: copy_affected_list(&self.affected_entities),
            event_ids: copy_event_id_list(&self.event_ids),
            admitted_claims: self.admitted_claims.clone(),
        }
    }
}

/// What an immutable command provenance record is.
#[verifier::ext_equal]
pub ghost struct ProvenanceRecordView {
    pub base: ProvenanceBaseView,
    pub causation: Option<StoredCommandCausationV1>,
}

/// An immutable command provenance record.
#[derive(Debug, PartialEq, Eq)]
pub struct StoredProvenanceRecordV1 {
    pub base: ProvenanceBase,
    pub causation: Option<StoredCommandCausationV1>,
}

impl View for StoredProvenanceRecordV1 {
    type V = ProvenanceRecordView;

    open spec fn view(&self) -> ProvenanceRecordView {
        ProvenanceRecordView {
            base: self.base@,
            causation: self.causation,
        }
    }
}

impl Clone for StoredProvenanceRecordV1 {
    fn clone(&self) -> (result: StoredProvenanceRecordV1)
        ensures
            result@ == self@,
    {
        StoredProvenanceRecordV1 {
            base: self.base.clone(),
            causation: self.causation,
        }
    }
}

/// What a reference to a committed entity by version and hash is.
#[verifier::ext_equal]
pub ghost struct EntityReferenceView {
    pub target: EntityTargetView,
    pub entity_version: Id64,
    pub post_image_hash: Digest,
}

/// A reference to a committed entity by version and hash.
#[derive(Debug, PartialEq, Eq)]
pub struct CommittedEntityReferenceV2 {
    pub target: EntityTarget,
    pub entity_version: Id64,
    pub post_image_hash: Digest,
}

impl View for CommittedEntityReferenceV2 {
    type V = EntityReferenceView;

    open spec fn view(&self) -> EntityReferenceView {
        EntityReferenceView {
            target: self.target@,
            entity_version: self.entity_version,
            post_image_hash: self.post_image_hash,
        }
    }
}

impl Clone for CommittedEntityReferenceV2 {
    fn clone(&self) -> (result: CommittedEntityReferenceV2)
        ensures
            result@ == self@,
    {
        CommittedEntityReferenceV2 {
            target: self.target.clone(),
            entity_version: self.entity_version,
            post_image_hash: self.post_image_hash,
        }
    }
}

/// What a committed entity mutation is.
#[verifier::ext_equal]
pub ghost struct EntityMutationView {
    pub expected: ExpectedEntityState,
    pub post_image: EntityRecordView,
}

/// A committed entity mutation.
#[derive(Debug, PartialEq, Eq)]
pub struct CommittedEntityMutationV1 {
    pub expected: ExpectedEntityState,
    pub post_image: StoredEntityRecordV1,
}

impl View for CommittedEntityMutationV1 {
    type V = EntityMutationView;

    open spec fn view(&self) -> EntityMutationView {
        EntityMutationView {
            expected: self.expected,
            post_image: self.post_image@,
        }
    }
}

impl Clone for CommittedEntityMutationV1 {
    fn clone(&self) -> (result: CommittedEntityMutationV1)
        ensures
            result@ == self@,
    {
        CommittedEntityMutationV1 {
            expected: self.expected,
            post_image: self.post_image.clone(),
        }
    }
}

/// What what every form of a commit record holds is.
#[verifier::ext_equal]
pub ghost struct CommitPartsView {
    pub commit_sequence: CommitSequence,
    pub admission_request_id: Identifier,
    pub plan: ExecutablePlanView,
    pub canonical_input_hash: Digest,
    pub actor: AdmittedActorContextView,
    pub logical_time: Timestamp,
    pub partition_hash: Digest,
    pub conflict_hashes: Seq<Digest>,
    pub read_dependencies: ReadDependenciesView,
    pub declared_outcome: DeclaredOutcomeView,
    pub provenance_id: Identifier,
    pub outbox_event_ids: Seq<EventId>,
    pub durability_mode: DurabilityMode,
}

/// What every form of a commit record holds.
#[derive(Debug, PartialEq, Eq)]
pub struct CommitParts {
    pub commit_sequence: CommitSequence,
    pub admission_request_id: Identifier,
    pub plan: ExecutablePlanRef,
    pub canonical_input_hash: Digest,
    pub actor: AdmittedActorContext,
    pub logical_time: Timestamp,
    pub partition_hash: Digest,
    pub conflict_hashes: Vec<Digest>,
    pub read_dependencies: StoredReadDependenciesV1,
    pub declared_outcome: DeclaredOutcome,
    pub provenance_id: Identifier,
    pub outbox_event_ids: Vec<EventId>,
    pub durability_mode: DurabilityMode,
}

impl View for CommitParts {
    type V = CommitPartsView;

    open spec fn view(&self) -> CommitPartsView {
        CommitPartsView {
            commit_sequence: self.commit_sequence,
            admission_request_id: self.admission_request_id,
            plan: self.plan@,
            canonical_input_hash: self.canonical_input_hash,
            actor: self.actor@,
            logical_time: self.logical_time,
            partition_hash: self.partition_hash,
            conflict_hashes: self.conflict_hashes@,
            read_dependencies: self.read_dependencies@,
            declared_outcome: self.declared_outcome@,
            provenance_id: self.provenance_id,
            outbox_event_ids: self.outbox_event_ids@,
            durability_mode: self.durability_mode,
        }
    }
}

impl Clone for CommitParts {
    fn clone(&self) -> (result: CommitParts)
        ensures
            result@ == self@,
    {
        CommitParts {
            commit_sequence: self.commit_sequence,
            admission_request_id: self.admission_request_id,
            plan: self.plan.clone(),
            canonical_input_hash: self.canonical_input_hash,
            actor: self.actor.clone(),
            logical_time: self.logical_time,
            partition_hash: self.partition_hash,
            conflict_hashes: copy_digests(&self.conflict_hashes),
            read_dependencies: self.read_dependencies.clone(),
            declared_outcome: self.declared_outcome.clone(),
            provenance_id: self.provenance_id,
            outbox_event_ids: copy_event_id_list(&self.outbox_event_ids),
            durability_mode: self.durability_mode,
        }
    }
}

/// Copies a list of such values.
pub fn copy_event_reference_list(values: &[EventReferenceV2]) -> (result: Vec<EventReferenceV2>)
    ensures
        result@ == values@,
{
    let mut result: Vec<EventReferenceV2> = Vec::new();
    let mut i: usize = 0;
    while i < values.len()
        invariant
            i <= values@.len(),
            result@.len() == i,
            forall|k: int| 0 <= k < i ==> result@[k] == values@[k],
        decreases values@.len() - i,
    {
        result.push(values[i]);
        i += 1;
    }
    assert(result@ =~= values@);
    result
}

/// What a list of such values is.
pub open spec fn event_views(values: Seq<StoredDurableEventV1>) -> Seq<DurableEventView> {
    Seq::new(values.len(), |i: int| values[i]@)
}

/// Copies a list of such values.
pub fn copy_event_list(values: &[StoredDurableEventV1]) -> (result: Vec<StoredDurableEventV1>)
    ensures
        event_views(result@) == event_views(values@),
{
    let mut result: Vec<StoredDurableEventV1> = Vec::new();
    let mut i: usize = 0;
    while i < values.len()
        invariant
            i <= values@.len(),
            result@.len() == i,
            forall|k: int| 0 <= k < i ==> result@[k]@ == values@[k]@,
        decreases values@.len() - i,
    {
        result.push(values[i].clone());
        i += 1;
    }
    assert(event_views(result@) =~= event_views(values@));
    result
}

/// What a list of such values is.
pub open spec fn dependency_views(values: Seq<StoredReadDependencyV1>) -> Seq<ReadDependencyView> {
    Seq::new(values.len(), |i: int| values[i]@)
}

/// Copies a list of such values.
pub fn copy_dependency_list(
    values: &[StoredReadDependencyV1],
) -> (result: Vec<StoredReadDependencyV1>)
    ensures
        dependency_views(result@) == dependency_views(values@),
{
    let mut result: Vec<StoredReadDependencyV1> = Vec::new();
    let mut i: usize = 0;
    while i < values.len()
        invariant
            i <= values@.len(),
            result@.len() == i,
            forall|k: int| 0 <= k < i ==> result@[k]@ == values@[k]@,
        decreases values@.len() - i,
    {
        result.push(values[i].clone());
        i += 1;
    }
    assert(dependency_views(result@) =~= dependency_views(values@));
    result
}

/// What a list of such values is.
pub open spec fn affected_views(values: Seq<AffectedEntityV1>) -> Seq<AffectedEntityView> {
    Seq::new(values.len(), |i: int| values[i]@)
}

/// Copies a list of such values.
pub fn copy_affected_list(values: &[AffectedEntityV1]) -> (result: Vec<AffectedEntityV1>)
    ensures
        affected_views(result@) == affected_views(values@),
{
    let mut result: Vec<AffectedEntityV1> = Vec::new();
    let mut i: usize = 0;
    while i < values.len()
        invariant
            i <= values@.len(),
            result@.len() == i,
            forall|k: int| 0 <= k < i ==> result@[k]@ == values@[k]@,
        decreases values@.len() - i,
    {
        result.push(values[i].clone());
        i += 1;
    }
    assert(affected_views(result@) =~= affected_views(values@));
    result
}

/// What a list of such values is.
pub open spec fn entity_reference_views(
    values: Seq<CommittedEntityReferenceV2>,
) -> Seq<EntityReferenceView> {
    Seq::new(values.len(), |i: int| values[i]@)
}

/// Copies a list of such values.
pub fn copy_entity_reference_list(
    values: &[CommittedEntityReferenceV2],
) -> (result: Vec<CommittedEntityReferenceV2>)
    ensures
        entity_reference_views(result@) == entity_reference_views(values@),
{
    let mut result: Vec<CommittedEntityReferenceV2> = Vec::new();
    let mut i: usize = 0;
    while i < values.len()
        invariant
            i <= values@.len(),
            result@.len() == i,
            forall|k: int| 0 <= k < i ==> result@[k]@ == values@[k]@,
        decreases values@.len() - i,
    {
        result.push(values[i].clone());
        i += 1;
    }
    assert(entity_reference_views(result@) =~= entity_reference_views(values@));
    result
}

/// What a list of such values is.
pub open spec fn mutation_views(values: Seq<CommittedEntityMutationV1>) -> Seq<EntityMutationView> {
    Seq::new(values.len(), |i: int| values[i]@)
}

/// Copies a list of such values.
pub fn copy_mutation_list(
    values: &[CommittedEntityMutationV1],
) -> (result: Vec<CommittedEntityMutationV1>)
    ensures
        mutation_views(result@) == mutation_views(values@),
{
    let mut result: Vec<CommittedEntityMutationV1> = Vec::new();
    let mut i: usize = 0;
    while i < values.len()
        invariant
            i <= values@.len(),
            result@.len() == i,
            forall|k: int| 0 <= k < i ==> result@[k]@ == values@[k]@,
        decreases values@.len() - i,
    {
        result.push(values[i].clone());
        i += 1;
    }
    assert(mutation_views(result@) =~= mutation_views(values@));
    result
}

impl EntityReadDependency {
    /// Decides equality of two such values.
    pub fn same(&self, other: &EntityReadDependency) -> (result: bool)
        ensures
            result == (self@ == other@),
    {
        self.target.same(&other.target)
            && self.expected.same(&other.expected)
    }
}

impl IndexRangeReadDependency {
    /// Decides equality of two such values.
    pub fn same(&self, other: &IndexRangeReadDependency) -> (result: bool)
        ensures
            result == (self@ == other@),
    {
        self.target.same(&other.target)
            && self.expected.same(&other.expected)
    }
}

impl StoredReadDependencyV1 {
    /// Decides equality of two such values.
    pub fn same(&self, other: &StoredReadDependencyV1) -> (result: bool)
        ensures
            result == (self@ == other@),
    {
        match (self, other) {
            (StoredReadDependencyV1::EntityObservation(part),
                StoredReadDependencyV1::EntityObservation(held)) => part.same(held),
            (StoredReadDependencyV1::IndexRangeEpoch(part),
                StoredReadDependencyV1::IndexRangeEpoch(held)) => part.same(held),
            _ => false,
        }
    }
}

/// Decides equality of two lists.
pub fn same_dependency_list(
    a: &[StoredReadDependencyV1],
    b: &[StoredReadDependencyV1],
) -> (result: bool)
    ensures
        result == (dependency_views(a@) == dependency_views(b@)),
{
    if a.len() != b.len() {
        assert(dependency_views(a@).len() != dependency_views(b@).len());
        return false;
    }
    let mut i: usize = 0;
    while i < a.len()
        invariant
            i <= a@.len(),
            a@.len() == b@.len(),
            forall|k: int| 0 <= k < i ==> (#[trigger] a@[k])@ == b@[k]@,
        decreases a@.len() - i,
    {
        if !a[i].same(&b[i]) {
            assert(dependency_views(a@)[i as int] != dependency_views(b@)[i as int]);
            return false;
        }
        i += 1;
    }
    assert(dependency_views(a@) =~= dependency_views(b@));
    true
}

/// Whether read dependencies are their own canonical list.
pub open spec fn dependencies_rebuilt(
    rebuilt: Result<Vec<StoredReadDependencyV1>, StorageValueError>,
    dependencies: Seq<ReadDependencyView>,
) -> bool {
    rebuilt matches Ok(list) && dependency_views(list@) == dependencies
}

} // verus!
