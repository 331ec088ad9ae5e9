//! Contract migration records.

use vstd::prelude::*;

use crate::bytes::copy_bytes;
use crate::codec::parts::{copy_ids, copy_optional_text, optional_text_view, Identifier};
use crate::ids::{CommitSequence, Digest, Id32, Id64};
use crate::records::{EntityTarget, EntityTargetView};
use crate::stored::common::{
    copy_optional_entity_target, optional_entity_target_view, AuditPrincipalV1,
    AuditPrincipalV1View,
};

verus! {

/// The artifacts of a contract migration.
#[derive(Clone, Copy, Debug, PartialEq, Eq)]
pub struct ContractMigrationArtifactsV1 {
    pub parent: Digest,
    pub candidate: Digest,
    pub migration: Digest,
}

/// The artifact files of a contract migration.
#[derive(Clone, Copy, Debug, PartialEq, Eq)]
pub struct ContractMigrationOperationArtifactsV1 {
    pub candidate_length: u64,
    pub candidate_sha256: Digest,
    pub migration_length: u64,
    pub migration_sha256: Digest,
}

/// A durable step of a contract migration.
#[derive(Clone, Copy, Debug, PartialEq, Eq, Structural)]
pub enum ContractMigrationJournalStepV1 {
    Transforming,
    RebuildingProjections,
    Validating,
    ReadyForCutover,
    Complete,
}

/// What a contract migration journal is.
#[verifier::ext_equal]
pub ghost struct MigrationJournalView {
    pub database_id: Identifier,
    pub operation_id: Identifier,
    pub input_hash: Digest,
    pub artifacts: ContractMigrationArtifactsV1,
    pub step: ContractMigrationJournalStepV1,
    pub cursor: Option<EntityTargetView>,
    pub checked_rows: u64,
    pub changed_rows: u64,
    pub batch_count: u64,
    pub frozen_application_frontier: Option<CommitSequence>,
    pub required_projections: Seq<Id32>,
    pub previous_hash: Option<Digest>,
    pub journal_hash: Digest,
}

/// A contract migration journal.
#[derive(Debug, PartialEq, Eq)]
pub struct StoredContractMigrationJournalV1 {
    pub database_id: Identifier,
    pub operation_id: Identifier,
    pub input_hash: Digest,
    pub artifacts: ContractMigrationArtifactsV1,
    pub step: ContractMigrationJournalStepV1,
    pub cursor: Option<EntityTarget>,
    pub checked_rows: u64,
    pub changed_rows: u64,
    pub batch_count: u64,
    pub frozen_application_frontier: Option<CommitSequence>,
    pub required_projections: Vec<Id32>,
    pub previous_hash: Option<Digest>,
    pub journal_hash: Digest,
}

impl View for StoredContractMigrationJournalV1 {
    type V = MigrationJournalView;

    open spec fn view(&self) -> MigrationJournalView {
        MigrationJournalView {
            database_id: self.database_id,
            operation_id: self.operation_id,
            input_hash: self.input_hash,
            artifacts: self.artifacts,
            step: self.step,
            cursor: optional_entity_target_view(self.cursor),
            checked_rows: self.checked_rows,
            changed_rows: self.changed_rows,
            batch_count: self.batch_count,
            frozen_application_frontier: self.frozen_application_frontier,
            required_projections: self.required_projections@,
            previous_hash: self.previous_hash,
            journal_hash: self.journal_hash,
        }
    }
}

impl Clone for StoredContractMigrationJournalV1 {
    fn clone(&self) -> (result: StoredContractMigrationJournalV1)
        ensures
            result@ == self@,
    {
        StoredContractMigrationJournalV1 {
            database_id: self.database_id,
            operation_id: self.operation_id,
            input_hash: self.input_hash,
            artifacts: self.artifacts,
            step: self.step,
            cursor: copy_optional_entity_target(&self.cursor),
            checked_rows: self.checked_rows,
            changed_rows: self.changed_rows,
            batch_count: self.batch_count,
            frozen_application_frontier: self.frozen_application_frontier,
            required_projections: copy_ids(&self.required_projections),
            previous_hash: self.previous_hash,
            journal_hash: self.journal_hash,
        }
    }
}

/// What a permanent contract migration record is.
#[verifier::ext_equal]
pub ghost struct MigrationRecordView {
    pub database_id: Identifier,
    pub operation_id: Identifier,
    pub input_hash: Digest,
    pub artifacts: ContractMigrationArtifactsV1,
    pub operation_artifacts: ContractMigrationOperationArtifactsV1,
    pub source_backup_name: Seq<char>,
    pub source_backup_manifest: Seq<u8>,
    pub principal: AuditPrincipalV1View,
    pub approval_id: Option<Seq<char>>,
    pub predecessor_frontier: Option<CommitSequence>,
    pub successor_frontier: Option<CommitSequence>,
    pub checked_rows: u64,
    pub changed_rows: u64,
    pub batch_count: u64,
    pub validation_digest: Digest,
    pub administration_sequence: Id64,
}

/// A permanent contract migration record.
#[derive(Debug, PartialEq, Eq)]
pub struct StoredContractMigrationRecordV1 {
    pub database_id: Identifier,
    pub operation_id: Identifier,
    pub input_hash: Digest,
    pub artifacts: ContractMigrationArtifactsV1,
    pub operation_artifacts: ContractMigrationOperationArtifactsV1,
    pub source_backup_name: String,
    pub source_backup_manifest: Vec<u8>,
    pub principal: AuditPrincipalV1,
    pub approval_id: Option<String>,
    pub predecessor_frontier: Option<CommitSequence>,
    pub successor_frontier: Option<CommitSequence>,
    pub checked_rows: u64,
    pub changed_rows: u64,
    pub batch_count: u64,
    pub validation_digest: Digest,
    pub administration_sequence: Id64,
}

impl View for StoredContractMigrationRecordV1 {
    type V = MigrationRecordView;

    open spec fn view(&self) -> MigrationRecordView {
        MigrationRecordView {
            database_id: self.database_id,
            operation_id: self.operation_id,
            input_hash: self.input_hash,
            artifacts: self.artifacts,
            operation_artifacts: self.operation_artifacts,
            source_backup_name: self.source_backup_name@,
            source_backup_manifest: self.source_backup_manifest@,
            principal: self.principal@,
            approval_id: optional_text_view(self.approval_id),
            predecessor_frontier: self.predecessor_frontier,
            successor_frontier: self.successor_frontier,
            checked_rows: self.checked_rows,
            changed_rows: self.changed_rows,
            batch_count: self.batch_count,
            validation_digest: self.validation_digest,
            administration_sequence: self.administration_sequence,
        }
    }
}

impl Clone for StoredContractMigrationRecordV1 {
    fn clone(&self) -> (result: StoredContractMigrationRecordV1)
        ensures
            result@ == self@,
    {
        StoredContractMigrationRecordV1 {
            database_id: self.database_id,
            operation_id: self.operation_id,
            input_hash: self.input_hash,
            artifacts: self.artifacts,
            operation_artifacts: self.operation_artifacts,
            source_backup_name: self.source_backup_name.clone(),
            source_backup_manifest: copy_bytes(&self.source_backup_manifest),
            principal: self.principal.clone(),
            approval_id: copy_optional_text(&self.approval_id),
            predecessor_frontier: self.predecessor_frontier,
            successor_frontier: self.successor_frontier,
            checked_rows: self.checked_rows,
            changed_rows: self.changed_rows,
            batch_count: self.batch_count,
            validation_digest: self.validation_digest,
            administration_sequence: self.administration_sequence,
        }
    }
}

/// The retirement of a predecessor's writes.
#[derive(Clone, Copy, Debug, PartialEq, Eq)]
pub struct StoredContractWriteRetirementV1 {
    pub artifacts: ContractMigrationArtifactsV1,
    pub operation_id: Identifier,
    pub administration_sequence: Id64,
}

/// What a retained predecessor entity is.
#[verifier::ext_equal]
pub ghost struct RetiredEntityView {
    pub operation_id: Identifier,
    pub migration: Digest,
    pub original_target: EntityTargetView,
    pub original_entity_envelope: Seq<u8>,
}

/// A retained predecessor entity.
#[derive(Debug, PartialEq, Eq)]
pub struct StoredRetiredEntityRecordV1 {
    pub operation_id: Identifier,
    pub migration: Digest,
    pub original_target: EntityTarget,
    pub original_entity_envelope: Vec<u8>,
}

impl View for StoredRetiredEntityRecordV1 {
    type V = RetiredEntityView;

    open spec fn view(&self) -> RetiredEntityView {
        RetiredEntityView {
            operation_id: self.operation_id,
            migration: self.migration,
            original_target: self.original_target@,
            original_entity_envelope: self.original_entity_envelope@,
        }
    }
}

impl Clone for StoredRetiredEntityRecordV1 {
    fn clone(&self) -> (result: StoredRetiredEntityRecordV1)
        ensures
            result@ == self@,
    {
        StoredRetiredEntityRecordV1 {
            operation_id: self.operation_id,
            migration: self.migration,
            original_target: self.original_target.clone(),
            original_entity_envelope: copy_bytes(&self.original_entity_envelope),
        }
    }
}

} // verus!
